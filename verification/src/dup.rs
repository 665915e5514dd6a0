//! The batch compactor: the decisions of a walk over a content tree that
//! fetches every manifest's directory, gathers the item directories whose
//! fetch succeeded and folds them into archives of bounded size.
//!
//! [`Dup`] never touches the disk or a child process. [`Dup::step`] takes
//! what the driver observed and answers with what it has to do next. What it
//! decides is laid down in [`crate::walk`].

use vstd::prelude::*;
use vstd::string::*;
use crate::text::{clone_texts, push_decimal, text_view, texts_view};
use crate::walk::{
    archive_line, fetch_line, lemma_step_keeps_wf, quoted_list, upload_line, DupView,
};

verus! {

/// A line for `/bin/sh -c`, with the streams that the driver silences.
#[derive(Debug, Clone, PartialEq, Eq)]
pub struct ShellCommand {
    pub line: String,
    pub quiet_stdout: bool,
    pub quiet_stderr: bool,
}

/// A command as a mathematical value.
pub struct ShellCommandView {
    pub line: Seq<char>,
    pub quiet_stdout: bool,
    pub quiet_stderr: bool,
}

impl View for ShellCommand {
    type V = ShellCommandView;

    open spec fn view(&self) -> ShellCommandView {
        ShellCommandView {
            line: self.line@,
            quiet_stdout: self.quiet_stdout,
            quiet_stderr: self.quiet_stderr,
        }
    }
}

/// Seconds that the walk rests after each manifest it has dealt with.
pub const SCAN_PAUSE_SECS: u64 = 10;

/// Where a walk stands between two events.
#[derive(Debug, Clone, Copy, PartialEq, Eq)]
pub enum Phase {
    /// Waiting for the next entry of the walk.
    Scanning,
    /// Waiting for the two directories above a manifest.
    Resolving,
    /// Waiting for the outcome of a retrieval.
    Fetching,
    /// Waiting for the archive directory to be made.
    Preparing,
    /// Waiting for the outcome of the archive tool.
    Archiving,
    /// Waiting for the sources to be removed and the archive uploaded.
    Cleaning,
    /// Waiting for the rest after a manifest to end.
    Pausing,
    /// The walk is over.
    Finished,
}

/// What the driver observed.
#[derive(Debug, Clone, PartialEq, Eq)]
pub enum Event {
    /// The walk yielded an entry with this file name, and whether it is a
    /// regular file.
    Found { name: String, regular: bool },
    /// The walk yielded an entry that could not be read.
    Unreadable,
    /// The walk has no more entries.
    Exhausted,
    /// The directory that holds the manifest, if it exists and is a
    /// directory, and that directory's parent, if it has one.
    Resolved(Option<String>, Option<String>),
    /// The retrieval tool ended, and whether it reported success.
    Fetched(bool),
    /// Whether the archive directory is there now.
    Prepared(bool),
    /// The archive tool ended, and whether the archive was written.
    Archived(bool),
    /// The sources are removed and the upload was attempted.
    Cleaned,
    /// The rest is over.
    Woke,
}

/// An event as a mathematical value.
pub enum EventView {
    Found { name: Seq<char>, regular: bool },
    Unreadable,
    Exhausted,
    Resolved(Option<Seq<char>>, Option<Seq<char>>),
    Fetched(bool),
    Prepared(bool),
    Archived(bool),
    Cleaned,
    Woke,
}

impl View for Event {
    type V = EventView;

    open spec fn view(&self) -> EventView {
        match *self {
            Event::Found { name, regular } => EventView::Found { name: name@, regular },
            Event::Unreadable => EventView::Unreadable,
            Event::Exhausted => EventView::Exhausted,
            Event::Resolved(f, a) => EventView::Resolved(text_view(f), text_view(a)),
            Event::Fetched(ok) => EventView::Fetched(ok),
            Event::Prepared(ok) => EventView::Prepared(ok),
            Event::Archived(ok) => EventView::Archived(ok),
            Event::Cleaned => EventView::Cleaned,
            Event::Woke => EventView::Woke,
        }
    }
}

/// What the driver has to do next.
#[derive(Debug, Clone, PartialEq, Eq)]
pub enum Action {
    /// Take the next entry of the walk and report it.
    Next,
    /// Find the directory of the manifest just reported, and its parent.
    Resolve,
    /// Run the retrieval line and report its exit status.
    Fetch(ShellCommand),
    /// Make the directory `dir`, with its parents, unless it exists, and
    /// report whether it is there.
    Prepare { dir: String },
    /// Archive `sources` into `dir/name` and report whether the archive tool
    /// succeeded.
    Archive { dir: String, name: String, sources: Vec<String> },
    /// Remove every directory of `sources`, then upload `dir/name`.
    Cleanup { dir: String, name: String, sources: Vec<String> },
    /// Rest for this many seconds.
    Pause(u64),
    /// Nothing is left to do.
    Finished,
    /// The event does not answer what was asked; nothing changed.
    Ignored,
}

/// An action as a mathematical value.
pub enum ActionView {
    Next,
    Resolve,
    Fetch(ShellCommandView),
    Prepare { dir: Seq<char> },
    Archive { dir: Seq<char>, name: Seq<char>, sources: Seq<Seq<char>> },
    Cleanup { dir: Seq<char>, name: Seq<char>, sources: Seq<Seq<char>> },
    Pause(nat),
    Finished,
    Ignored,
}

impl View for Action {
    type V = ActionView;

    open spec fn view(&self) -> ActionView {
        match *self {
            Action::Next => ActionView::Next,
            Action::Resolve => ActionView::Resolve,
            Action::Fetch(cmd) => ActionView::Fetch(cmd@),
            Action::Prepare { dir } => ActionView::Prepare { dir: dir@ },
            Action::Archive { dir, name, sources } => ActionView::Archive {
                dir: dir@,
                name: name@,
                sources: texts_view(sources@),
            },
            Action::Cleanup { dir, name, sources } => ActionView::Cleanup {
                dir: dir@,
                name: name@,
                sources: texts_view(sources@),
            },
            Action::Pause(secs) => ActionView::Pause(secs as nat),
            Action::Finished => ActionView::Finished,
            Action::Ignored => ActionView::Ignored,
        }
    }
}


/// Whether two strings hold the same text.
fn same_text(a: &str, b: &str) -> (r: bool)
    ensures
        r == (a@ == b@),
{
    String::from_str(a) == String::from_str(b)
}

/// ` "<dir>"` for every directory of `dirs`, appended to `out` in order.
fn push_quoted_list(out: &mut String, dirs: &Vec<String>)
    ensures
        final(out)@ == old(out)@ + quoted_list(texts_view(dirs@)),
{
    let ghost all = texts_view(dirs@);
    let mut i: usize = 0;
    assert(all.take(0) =~= Seq::<Seq<char>>::empty());
    assert(out@ =~= old(out)@ + quoted_list(all.take(0)));
    while i < dirs.len()
        invariant
            i <= dirs.len(),
            all == texts_view(dirs@),
            out@ == old(out)@ + quoted_list(all.take(i as int)),
        decreases dirs.len() - i,
    {
        let ghost before = out@;
        out.append(" \"");
        out.append(dirs[i].as_str());
        out.append("\"");
        proof {
            let next = all.take(i as int + 1);
            assert(next.drop_last() =~= all.take(i as int));
            assert(next.last() == dirs[i as int]@);
            assert(out@ =~= old(out)@ + quoted_list(next));
        }
        i += 1;
    }
    assert(all.take(dirs.len() as int) =~= all);
}

/// The batch compactor.
///
/// It owns the item directories that wait to be archived and the two
/// counters from which batch names are made.
pub struct Dup {
    downloaded_vec: Vec<String>,
    zip_path: String,
    chunk_size: usize,
    label: String,
    start_index: u64,
    end_index: u64,
    phase: Phase,
    closing: bool,
    unit: String,
}

impl View for Dup {
    type V = DupView;

    closed spec fn view(&self) -> DupView {
        DupView {
            pending: texts_view(self.downloaded_vec@),
            zip_path: self.zip_path@,
            chunk_size: self.chunk_size as nat,
            label: self.label@,
            start_index: self.start_index as nat,
            end_index: self.end_index as nat,
            phase: self.phase,
            closing: self.closing,
            unit: self.unit@,
        }
    }
}

impl Dup {
    /// A compactor that writes its archives under `zip_path` and compacts as
    /// soon as `chunk_size` item directories are pending.
    pub fn new(zip_path: String, chunk_size: usize) -> (dup: Dup)
        ensures
            dup@ == (DupView {
                pending: Seq::empty(),
                zip_path: zip_path@,
                chunk_size: chunk_size as nat,
                label: Seq::empty(),
                start_index: 0,
                end_index: 0,
                phase: Phase::Scanning,
                closing: false,
                unit: Seq::empty(),
            }),
            dup@.wf(),
    {
        let dup = Dup {
            downloaded_vec: Vec::with_capacity(40),
            zip_path,
            chunk_size,
            label: String::new(),
            start_index: 0,
            end_index: 0,
            phase: Phase::Scanning,
            closing: false,
            unit: String::new(),
        };
        assert(texts_view(dup.downloaded_vec@) =~= Seq::<Seq<char>>::empty());
        dup
    }

    /// Starts a walk over the root whose last path component is
    /// `root_label`, and asks for its first entry.
    pub fn start_download(&mut self, root_label: &str) -> (action: Action)
        ensures
            final(self)@ == old(self)@.begin(root_label@),
            final(self)@.wf(),
            action@ == ActionView::Next,
    {
        self.downloaded_vec.clear();
        self.label = String::from_str(root_label);
        self.start_index = 0;
        self.end_index = 0;
        self.phase = Phase::Scanning;
        self.closing = false;
        assert(texts_view(self.downloaded_vec@) =~= Seq::<Seq<char>>::empty());
        Action::Next
    }

    /// The phase the walk is in.
    pub fn phase(&self) -> (phase: Phase)
        ensures
            phase == self@.phase,
    {
        self.phase
    }

    /// Number of item directories that wait for the next compaction.
    pub fn pending_len(&self) -> (n: usize)
        ensures
            n == self@.pending.len(),
    {
        self.downloaded_vec.len()
    }

    /// Counter value at which the batch under way began.
    pub fn start_index(&self) -> (n: u64)
        ensures
            n == self@.start_index,
    {
        self.start_index
    }

    /// Counter of fetched units and archives written.
    pub fn end_index(&self) -> (n: u64)
        ensures
            n == self@.end_index,
    {
        self.end_index
    }

    /// The retrieval command for the directory `path`, silent on both
    /// streams.
    pub fn download(path: &str) -> (cmd: ShellCommand)
        ensures
            cmd@ == (ShellCommandView {
                line: fetch_line(path@),
                quiet_stdout: true,
                quiet_stderr: true,
            }),
    {
        let mut line = String::from_str("cd \"");
        line.append(path);
        line.append("\" && wget -nc -c -t 5 -T 120 -i \"");
        line.append("info.txt");
        line.append("\"");
        assert(line@ =~= fetch_line(path@));
        ShellCommand { line, quiet_stdout: true, quiet_stderr: true }
    }

    /// The command that archives `sources` into the file `archive`, silent
    /// on standard output.
    pub fn compress_downloaded(archive: &str, sources: &Vec<String>) -> (cmd: ShellCommand)
        ensures
            cmd@ == (ShellCommandView {
                line: archive_line(archive@, texts_view(sources@)),
                quiet_stdout: true,
                quiet_stderr: false,
            }),
    {
        let mut line = String::from_str("tar zcf \"");
        line.append(archive);
        line.append("\"");
        push_quoted_list(&mut line, sources);
        assert(line@ =~= archive_line(archive@, texts_view(sources@)));
        ShellCommand { line, quiet_stdout: true, quiet_stderr: false }
    }

    /// The command that uploads the archive at `path`, silent on standard
    /// output.
    pub fn upload(path: &str) -> (cmd: ShellCommand)
        ensures
            cmd@ == (ShellCommandView {
                line: upload_line(path@),
                quiet_stdout: true,
                quiet_stderr: false,
            }),
    {
        let mut line = String::from_str("alidrive -c ./alidrive.yaml ");
        line.append(path);
        line.append(" CosJun/zips");
        assert(line@ =~= upload_line(path@));
        ShellCommand { line, quiet_stdout: true, quiet_stderr: false }
    }

    /// The file name of the batch that would be written now.
    fn batch_name(&self) -> (name: String)
        ensures
            name@ == self@.batch_name(),
    {
        let mut name = String::from_str("cos_");
        name.append(self.label.as_str());
        name.append("_");
        push_decimal(&mut name, self.start_index);
        name.append("-");
        push_decimal(&mut name, self.end_index);
        name.append(".tar.gz");
        assert(name@ =~= self@.batch_name());
        name
    }

    /// Ends a compaction attempt.
    fn settle(&mut self) -> (action: Action)
        ensures
            (final(self)@, action@) == old(self)@.settle(),
    {
        self.downloaded_vec.clear();
        assert(texts_view(self.downloaded_vec@) =~= Seq::<Seq<char>>::empty());
        if self.closing {
            self.phase = Phase::Finished;
            self.closing = false;
            Action::Finished
        } else {
            self.phase = Phase::Pausing;
            Action::Pause(SCAN_PAUSE_SECS)
        }
    }

    /// Takes one event and answers with the next action.
    pub fn step(&mut self, event: Event) -> (action: Action)
        requires
            old(self)@.end_index < u64::MAX,
        ensures
            (final(self)@, action@) == old(self)@.step(event@),
            old(self)@.wf() ==> final(self)@.wf(),
    {
        proof {
            if old(self)@.wf() {
                lemma_step_keeps_wf(old(self)@, event@);
            }
        }
        match self.phase {
            Phase::Scanning => match event {
                Event::Found { name, regular } => {
                    if regular && same_text(name.as_str(), "info.txt") {
                        self.phase = Phase::Resolving;
                        Action::Resolve
                    } else {
                        Action::Next
                    }
                },
                Event::Unreadable => Action::Next,
                Event::Exhausted => {
                    self.phase = Phase::Preparing;
                    self.closing = true;
                    Action::Prepare { dir: self.zip_path.clone() }
                },
                _ => Action::Ignored,
            },
            Phase::Resolving => match event {
                Event::Resolved(Some(fetch_unit), Some(archive_unit)) => {
                    self.phase = Phase::Fetching;
                    self.unit = archive_unit;
                    Action::Fetch(Dup::download(fetch_unit.as_str()))
                },
                Event::Resolved(_, _) => {
                    self.phase = Phase::Pausing;
                    Action::Pause(SCAN_PAUSE_SECS)
                },
                _ => Action::Ignored,
            },
            Phase::Fetching => match event {
                Event::Fetched(true) => {
                    let ghost before = texts_view(self.downloaded_vec@);
                    self.downloaded_vec.push(self.unit.clone());
                    assert(texts_view(self.downloaded_vec@) =~= before.push(self.unit@));
                    self.end_index = self.end_index + 1;
                    if self.downloaded_vec.len() >= self.chunk_size {
                        self.phase = Phase::Preparing;
                        Action::Prepare { dir: self.zip_path.clone() }
                    } else {
                        self.phase = Phase::Pausing;
                        Action::Pause(SCAN_PAUSE_SECS)
                    }
                },
                Event::Fetched(false) => {
                    self.phase = Phase::Pausing;
                    Action::Pause(SCAN_PAUSE_SECS)
                },
                _ => Action::Ignored,
            },
            Phase::Preparing => match event {
                Event::Prepared(true) => {
                    let name = self.batch_name();
                    self.phase = Phase::Archiving;
                    Action::Archive {
                        dir: self.zip_path.clone(),
                        name,
                        sources: clone_texts(&self.downloaded_vec),
                    }
                },
                Event::Prepared(false) => self.settle(),
                _ => Action::Ignored,
            },
            Phase::Archiving => match event {
                Event::Archived(true) => {
                    let name = self.batch_name();
                    let sources = clone_texts(&self.downloaded_vec);
                    self.downloaded_vec.clear();
                    assert(texts_view(self.downloaded_vec@) =~= Seq::<Seq<char>>::empty());
                    self.end_index = self.end_index + 1;
                    self.start_index = self.end_index;
                    self.phase = Phase::Cleaning;
                    Action::Cleanup { dir: self.zip_path.clone(), name, sources }
                },
                Event::Archived(false) => self.settle(),
                _ => Action::Ignored,
            },
            Phase::Cleaning => match event {
                Event::Cleaned => self.settle(),
                _ => Action::Ignored,
            },
            Phase::Pausing => match event {
                Event::Woke => {
                    self.phase = Phase::Scanning;
                    Action::Next
                },
                _ => Action::Ignored,
            },
            Phase::Finished => Action::Ignored,
        }
    }
}

} // verus!
