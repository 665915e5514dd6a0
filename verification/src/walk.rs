//! The walk as a mathematical state machine: what the compactor is between
//! two events, how it answers each event, and what holds of every walk.
//!
//! [`crate::dup::Dup`] is the executable compactor; its contract is the
//! transition function [`DupView::step`] of this file.

use vstd::prelude::*;
use crate::dup::{ActionView, EventView, Phase, ShellCommandView, SCAN_PAUSE_SECS};
use crate::manifest::manifest_name;
use crate::text::decimal;

verus! {

/// The retrieval line for the directory `dir`: enter it and let `wget` read
/// the manifest as its input list, keeping files already on disk, resuming
/// partial ones, with 5 tries and 120 seconds per attempt.
pub open spec fn fetch_line(dir: Seq<char>) -> Seq<char> {
    "cd \""@ + dir + "\" && wget -nc -c -t 5 -T 120 -i \""@ + manifest_name() + "\""@
}

/// Each directory of `dirs`, in order, as ` "<dir>"`.
pub open spec fn quoted_list(dirs: Seq<Seq<char>>) -> Seq<char>
    decreases dirs.len(),
{
    if dirs.len() == 0 {
        Seq::empty()
    } else {
        quoted_list(dirs.drop_last()) + " \""@ + dirs.last() + "\""@
    }
}

/// The archiving line: `tar zcf "<archive>"` followed by every source.
pub open spec fn archive_line(archive: Seq<char>, dirs: Seq<Seq<char>>) -> Seq<char> {
    "tar zcf \""@ + archive + "\""@ + quoted_list(dirs)
}

/// The upload line for the archive at `path`.
pub open spec fn upload_line(path: Seq<char>) -> Seq<char> {
    "alidrive -c ./alidrive.yaml "@ + path + " CosJun/zips"@
}

/// The file name of the batch that covers `[start, end)` of the root `label`.
pub open spec fn archive_name(label: Seq<char>, start: nat, end: nat) -> Seq<char> {
    "cos_"@ + label + "_"@ + decimal(start) + "-"@ + decimal(end) + ".tar.gz"@
}

/// The compactor as a mathematical value.
pub struct DupView {
    /// Item directories fetched since the last compaction, oldest first.
    pub pending: Seq<Seq<char>>,
    /// Directory that receives the archives.
    pub zip_path: Seq<char>,
    /// Number of pending directories at which a compaction is due.
    pub chunk_size: nat,
    /// Last component of the root being walked.
    pub label: Seq<char>,
    /// Counter value at which the batch under way began.
    pub start_index: nat,
    /// Counter of fetched units, bumped once more after each archive written.
    pub end_index: nat,
    pub phase: Phase,
    /// Whether the compaction under way is the one that ends the walk.
    pub closing: bool,
    /// Item directory of the retrieval under way.
    pub unit: Seq<char>,
}

impl DupView {
    /// What holds of the compactor between any two events of a walk.
    ///
    /// The counters are ordered and count at least what is pending. Outside
    /// a compaction fewer than `chunk_size` directories are pending (none if
    /// `chunk_size` is zero); a compaction that the bound set off holds
    /// exactly the directories that reached it.
    pub open spec fn wf(self) -> bool {
        &&& self.start_index <= self.end_index
        &&& self.pending.len() <= self.end_index - self.start_index
        &&& match self.phase {
            Phase::Preparing | Phase::Archiving => if self.closing {
                self.below_bound()
            } else {
                self.pending.len() >= 1 && self.pending.len() >= self.chunk_size && (
                self.pending.len() == 1 || self.pending.len() == self.chunk_size)
            },
            Phase::Cleaning => self.pending.len() == 0,
            Phase::Finished => self.pending.len() == 0 && !self.closing,
            _ => !self.closing && self.below_bound(),
        }
    }

    /// Nothing is pending, or less than the bound.
    pub open spec fn below_bound(self) -> bool {
        self.pending.len() == 0 || self.pending.len() < self.chunk_size
    }

    /// The name of the batch that would be written now.
    pub open spec fn batch_name(self) -> Seq<char> {
        archive_name(self.label, self.start_index, self.end_index)
    }

    /// A fresh walk over the root named `label`: counters at zero, nothing
    /// pending.
    pub open spec fn begin(self, label: Seq<char>) -> DupView {
        DupView {
            pending: Seq::empty(),
            label,
            start_index: 0,
            end_index: 0,
            phase: Phase::Scanning,
            closing: false,
            ..self
        }
    }

    /// The state after `event`, and what the driver is asked to do.
    ///
    /// Only a regular file named like the manifest starts a retrieval. A
    /// unit is counted and kept only if its retrieval succeeded. A
    /// compaction is due as soon as `chunk_size` units are pending, and once
    /// more when the walk is exhausted, whatever is pending then. It starts
    /// with the archive directory; the archive tool is run only if that is
    /// there. Every compaction empties `pending`, however it ends; only one
    /// that wrote its archive moves `start_index`, past one extra count, so
    /// that batch ranges never touch.
    pub open spec fn step(self, event: EventView) -> (DupView, ActionView) {
        let rest = (DupView { phase: Phase::Pausing, ..self }, ActionView::Pause(
            SCAN_PAUSE_SECS as nat,
        ));
        match (self.phase, event) {
            (Phase::Scanning, EventView::Found { name, regular }) => if regular && name
                == manifest_name() {
                (DupView { phase: Phase::Resolving, ..self }, ActionView::Resolve)
            } else {
                (self, ActionView::Next)
            },
            (Phase::Scanning, EventView::Unreadable) => (self, ActionView::Next),
            (Phase::Scanning, EventView::Exhausted) => (
                DupView { phase: Phase::Preparing, closing: true, ..self },
                ActionView::Prepare { dir: self.zip_path },
            ),
            (Phase::Resolving, EventView::Resolved(Some(fetch_unit), Some(archive_unit))) => (
                DupView { phase: Phase::Fetching, unit: archive_unit, ..self },
                ActionView::Fetch(
                    ShellCommandView {
                        line: fetch_line(fetch_unit),
                        quiet_stdout: true,
                        quiet_stderr: true,
                    },
                ),
            ),
            (Phase::Resolving, EventView::Resolved(_, _)) => rest,
            (Phase::Fetching, EventView::Fetched(true)) => {
                let grown = DupView {
                    pending: self.pending.push(self.unit),
                    end_index: self.end_index + 1,
                    ..self
                };
                if grown.pending.len() >= self.chunk_size {
                    (
                        DupView { phase: Phase::Preparing, ..grown },
                        ActionView::Prepare { dir: self.zip_path },
                    )
                } else {
                    (DupView { phase: Phase::Pausing, ..grown }, ActionView::Pause(
                        SCAN_PAUSE_SECS as nat,
                    ))
                }
            },
            (Phase::Fetching, EventView::Fetched(false)) => rest,
            (Phase::Preparing, EventView::Prepared(true)) => (
                DupView { phase: Phase::Archiving, ..self },
                ActionView::Archive {
                    dir: self.zip_path,
                    name: self.batch_name(),
                    sources: self.pending,
                },
            ),
            (Phase::Preparing, EventView::Prepared(false)) => self.settle(),
            (Phase::Archiving, EventView::Archived(true)) => (
                DupView {
                    pending: Seq::empty(),
                    start_index: self.end_index + 1,
                    end_index: self.end_index + 1,
                    phase: Phase::Cleaning,
                    ..self
                },
                ActionView::Cleanup {
                    dir: self.zip_path,
                    name: self.batch_name(),
                    sources: self.pending,
                },
            ),
            (Phase::Archiving, EventView::Archived(false)) => self.settle(),
            (Phase::Cleaning, EventView::Cleaned) => self.settle(),
            (Phase::Pausing, EventView::Woke) => (
                DupView { phase: Phase::Scanning, ..self },
                ActionView::Next,
            ),
            _ => (self, ActionView::Ignored),
        }
    }

    /// How a compaction ends that wrote no archive, and how every one ends
    /// once its sources are removed: nothing stays pending, and the walk
    /// either rests before its next entry or, after the closing compaction,
    /// is over.
    pub open spec fn settle(self) -> (DupView, ActionView) {
        if self.closing {
            (
                DupView {
                    pending: Seq::empty(),
                    phase: Phase::Finished,
                    closing: false,
                    ..self
                },
                ActionView::Finished,
            )
        } else {
            (
                DupView { pending: Seq::empty(), phase: Phase::Pausing, ..self },
                ActionView::Pause(SCAN_PAUSE_SECS as nat),
            )
        }
    }

    /// The state after every event of `events`, taken in order.
    pub open spec fn after(self, events: Seq<EventView>) -> DupView
        decreases events.len(),
    {
        if events.len() == 0 {
            self
        } else {
            self.after(events.drop_last()).step(events.last()).0
        }
    }
}

/// A step from a well-formed state ends in a well-formed state.
pub proof fn lemma_step_keeps_wf(s: DupView, event: EventView)
    requires
        s.wf(),
    ensures
        s.step(event).0.wf(),
{
}

/// No step changes the bound, the archive directory or the root's label,
/// and from a well-formed state neither counter ever goes back.
pub proof fn lemma_step_keeps_settings(s: DupView, event: EventView)
    requires
        s.wf(),
    ensures
        s.step(event).0.chunk_size == s.chunk_size,
        s.step(event).0.zip_path == s.zip_path,
        s.step(event).0.label == s.label,
        s.step(event).0.start_index >= s.start_index,
        s.step(event).0.end_index >= s.end_index,
{
}

/// Whatever the driver reports, and in whatever order, the compactor stays
/// well-formed, keeps its settings, and its counters never go back.
pub proof fn lemma_walk_keeps_wf(s: DupView, events: Seq<EventView>)
    requires
        s.wf(),
    ensures
        s.after(events).wf(),
        s.after(events).chunk_size == s.chunk_size,
        s.after(events).zip_path == s.zip_path,
        s.after(events).label == s.label,
        s.after(events).start_index >= s.start_index,
        s.after(events).end_index >= s.end_index,
    decreases events.len(),
{
    if events.len() > 0 {
        lemma_walk_keeps_wf(s, events.drop_last());
        lemma_step_keeps_wf(s.after(events.drop_last()), events.last());
        lemma_step_keeps_settings(s.after(events.drop_last()), events.last());
    }
}

/// Bounded batches. In every walk of a compactor whose bound is at least
/// one, a compaction never starts with more directories than the bound: the
/// archive is asked for exactly what is pending, and that is at most
/// `chunk_size`. Once the archive tool has answered, whatever its answer,
/// nothing is pending.
pub proof fn law_compaction_bounded(s: DupView, events: Seq<EventView>, event: EventView)
    requires
        s.wf(),
        s.chunk_size >= 1,
    ensures
        ({
            let now = s.after(events);
            let (next, action) = now.step(event);
            &&& action matches ActionView::Archive { sources, .. } ==> sources == next.pending
                && sources.len() <= s.chunk_size
            &&& now.phase == Phase::Archiving && event is Archived ==> next.pending.len() == 0
        }),
{
    lemma_walk_keeps_wf(s, events);
}

/// Sources outlive a failed archive. The report that the archive was
/// written asks for the removal of exactly the directories that were handed
/// to the archive tool; the report that it was not asks for no removal, and
/// for no second attempt either.
pub proof fn law_cleanup_follows_success(s: DupView)
    requires
        s.phase == Phase::Archiving,
    ensures
        s.step(EventView::Archived(true)).1 == (ActionView::Cleanup {
            dir: s.zip_path,
            name: s.batch_name(),
            sources: s.pending,
        }),
        !(s.step(EventView::Archived(false)).1 is Cleanup),
        !(s.step(EventView::Archived(false)).1 is Archive),
{
}

/// Only a written archive, reported while one is awaited, ever asks for a
/// removal.
pub proof fn law_cleanup_only_after_archive(s: DupView, event: EventView)
    ensures
        s.step(event).1 is Cleanup ==> s.phase == Phase::Archiving && event
            == EventView::Archived(true),
{
}

/// Disjoint batch ranges. Once the batch `[start_index, end_index)` has been
/// written, every later state of the walk has its `start_index` strictly
/// beyond that batch's `end_index`, so no later batch name overlaps it.
pub proof fn law_batches_never_overlap(s: DupView, later: Seq<EventView>)
    requires
        s.wf(),
        s.phase == Phase::Archiving,
    ensures
        ({
            let then = s.step(EventView::Archived(true)).0.after(later);
            s.end_index < then.start_index && then.start_index <= then.end_index
        }),
{
    let written = s.step(EventView::Archived(true)).0;
    lemma_step_keeps_wf(s, EventView::Archived(true));
    lemma_walk_keeps_wf(written, later);
}

/// A walk that met no manifest still ends with one compaction, over
/// nothing; if the archive tool fails on it, or its directory cannot be made,
/// the walk is over at once.
pub proof fn law_empty_walk_archives_nothing(s: DupView, label: Seq<char>)
    ensures
        ({
            let (preparing, first) = s.begin(label).step(EventView::Exhausted);
            let (archiving, second) = preparing.step(EventView::Prepared(true));
            &&& s.begin(label).wf()
            &&& first == (ActionView::Prepare { dir: s.zip_path })
            &&& second == (ActionView::Archive {
                dir: s.zip_path,
                name: archive_name(label, 0, 0),
                sources: Seq::empty(),
            })
            &&& archiving.step(EventView::Archived(false)).1 == ActionView::Finished
            &&& preparing.step(EventView::Prepared(false)).1 == ActionView::Finished
        }),
{
}

/// No archive without its directory. The archive tool is asked for only on
/// the report that the directory is there; on the report that it is not,
/// the compaction ends as a failed archive does: nothing is archived,
/// nothing removed, nothing stays pending.
pub proof fn law_archive_needs_directory(s: DupView, event: EventView)
    ensures
        s.step(event).1 is Archive ==> s.phase == Phase::Preparing && event
            == EventView::Prepared(true),
        s.phase == Phase::Preparing ==> s.step(EventView::Prepared(false)) == s.settle(),
{
}

/// The units that `event` adds to those fetched: the unit under way, on the
/// report that its retrieval succeeded.
pub open spec fn fetched_by(s: DupView, event: EventView) -> Seq<Seq<char>> {
    if s.phase == Phase::Fetching && event == EventView::Fetched(true) {
        seq![s.unit]
    } else {
        Seq::empty()
    }
}

/// The units that `action` hands to the archive tool.
pub open spec fn archived_by(action: ActionView) -> Seq<Seq<char>> {
    match action {
        ActionView::Archive { sources, .. } => sources,
        _ => Seq::empty(),
    }
}

/// Whether `events` hold no report that the archive directory is missing.
pub open spec fn always_prepared(events: Seq<EventView>) -> bool {
    forall|i: int| 0 <= i < events.len() ==> #[trigger] events[i] != EventView::Prepared(false)
}

/// Whether `events` hold no report that a compaction failed, by a missing
/// directory or by the archive tool.
pub open spec fn never_failed(events: Seq<EventView>) -> bool {
    forall|i: int|
        0 <= i < events.len() ==> #[trigger] events[i] != EventView::Prepared(false)
            && events[i] != EventView::Archived(false)
}

impl DupView {
    /// The units fetched while `events` are taken in, in the order fetched.
    pub open spec fn units_fetched(self, events: Seq<EventView>) -> Seq<Seq<char>>
        decreases events.len(),
    {
        if events.len() == 0 {
            Seq::empty()
        } else {
            self.units_fetched(events.drop_last()) + fetched_by(
                self.after(events.drop_last()),
                events.last(),
            )
        }
    }

    /// The units handed to the archive tool while `events` are taken in,
    /// call after call.
    pub open spec fn units_archived(self, events: Seq<EventView>) -> Seq<Seq<char>>
        decreases events.len(),
    {
        if events.len() == 0 {
            Seq::empty()
        } else {
            self.units_archived(events.drop_last()) + archived_by(
                self.after(events.drop_last()).step(events.last()).1,
            )
        }
    }

    /// Whether the archive tool has been handed what is pending.
    pub open spec fn handed_over(self) -> bool {
        self.phase == Phase::Archiving
    }

    /// Whether the counters span exactly what is pending.
    pub open spec fn counts_match(self) -> bool {
        self.pending.len() == self.end_index - self.start_index
    }

    /// What holds of the units `fetched` and `archived` so far in a walk
    /// whose archive directory was always there: they are the same, but
    /// for what is still pending.
    pub open spec fn archive_inv(self, fetched: Seq<Seq<char>>, archived: Seq<Seq<char>>) -> bool {
        &&& self.wf()
        &&& if self.handed_over() {
            archived == fetched
        } else {
            archived + self.pending == fetched
        }
    }
}

proof fn lemma_archive_inv_step(
    s: DupView,
    fetched: Seq<Seq<char>>,
    archived: Seq<Seq<char>>,
    event: EventView,
)
    requires
        s.archive_inv(fetched, archived),
        event != EventView::Prepared(false),
    ensures
        s.step(event).0.archive_inv(
            fetched + fetched_by(s, event),
            archived + archived_by(s.step(event).1),
        ),
{
    lemma_step_keeps_wf(s, event);
    let (next, action) = s.step(event);
    let f = fetched + fetched_by(s, event);
    let a = archived + archived_by(action);
    assert(fetched + Seq::<Seq<char>>::empty() =~= fetched);
    assert(archived + Seq::<Seq<char>>::empty() =~= archived);
    if s.phase == Phase::Fetching && event == EventView::Fetched(true) {
        assert(archived + s.pending.push(s.unit) =~= (archived + s.pending) + seq![s.unit]);
    }
    if next.pending.len() == 0 {
        assert(a + next.pending =~= a);
    }
}

proof fn lemma_archive_inv_walk(
    s: DupView,
    fetched: Seq<Seq<char>>,
    archived: Seq<Seq<char>>,
    events: Seq<EventView>,
)
    requires
        s.archive_inv(fetched, archived),
        always_prepared(events),
    ensures
        s.after(events).archive_inv(
            fetched + s.units_fetched(events),
            archived + s.units_archived(events),
        ),
    decreases events.len(),
{
    if events.len() == 0 {
        assert(fetched + Seq::<Seq<char>>::empty() =~= fetched);
        assert(archived + Seq::<Seq<char>>::empty() =~= archived);
    } else {
        let head = events.drop_last();
        assert(always_prepared(head)) by {
            assert forall|i: int| 0 <= i < head.len() implies #[trigger] head[i]
                != EventView::Prepared(false) by {
                assert(head[i] == events[i]);
            }
        }
        lemma_archive_inv_walk(s, fetched, archived, head);
        assert(events.last() == events[events.len() - 1]);
        lemma_archive_inv_step(
            s.after(head),
            fetched + s.units_fetched(head),
            archived + s.units_archived(head),
            events.last(),
        );
        assert(fetched + s.units_fetched(events) =~= (fetched + s.units_fetched(head))
            + fetched_by(s.after(head), events.last()));
        assert(archived + s.units_archived(events) =~= (archived + s.units_archived(head))
            + archived_by(s.after(head).step(events.last()).1));
    }
}

/// Every unit is archived once. In a walk whose archive directory is there
/// whenever it is asked for, the units handed to the archive tool, call
/// after call, are the units fetched, in the order fetched, less those that
/// still wait; once the walk is over, every unit fetched has been handed to
/// the archive tool exactly once.
pub proof fn law_every_unit_archived_once(s: DupView, label: Seq<char>, events: Seq<EventView>)
    requires
        always_prepared(events),
    ensures
        ({
            let start = s.begin(label);
            let end = start.after(events);
            let waiting = if end.handed_over() {
                Seq::empty()
            } else {
                end.pending
            };
            &&& start.units_archived(events) + waiting == start.units_fetched(events)
            &&& end.phase == Phase::Finished ==> start.units_archived(events)
                == start.units_fetched(events)
        }),
{
    let start = s.begin(label);
    let none = Seq::<Seq<char>>::empty();
    assert(none + start.pending =~= none);
    lemma_archive_inv_walk(start, none, none, events);
    assert(none + start.units_fetched(events) =~= start.units_fetched(events));
    assert(none + start.units_archived(events) =~= start.units_archived(events));
    let end = start.after(events);
    if end.handed_over() {
        assert(start.units_archived(events) + none =~= start.units_archived(events));
    }
    if end.phase == Phase::Finished {
        assert(start.units_archived(events) + end.pending =~= start.units_archived(events));
    }
}

proof fn lemma_counts_match_walk(s: DupView, events: Seq<EventView>)
    requires
        s.wf(),
        s.counts_match(),
        never_failed(events),
    ensures
        s.after(events).counts_match(),
        s.after(events).wf(),
        s.after(events).label == s.label,
    decreases events.len(),
{
    if events.len() > 0 {
        let head = events.drop_last();
        assert(never_failed(head)) by {
            assert forall|i: int| 0 <= i < head.len() implies #[trigger] head[i]
                != EventView::Prepared(false) && head[i] != EventView::Archived(false) by {
                assert(head[i] == events[i]);
            }
        }
        lemma_counts_match_walk(s, head);
        assert(events.last() == events[events.len() - 1]);
        lemma_step_keeps_wf(s.after(head), events.last());
    }
}

/// A range as long as its batch. As long as no compaction of a walk has
/// failed, the counters span exactly what is pending, so that the archive
/// named for `[start_index, end_index)` is asked to hold exactly
/// `end_index - start_index` directories.
pub proof fn law_range_counts_sources(
    s: DupView,
    label: Seq<char>,
    events: Seq<EventView>,
    event: EventView,
)
    requires
        never_failed(events),
    ensures
        ({
            let now = s.begin(label).after(events);
            let (next, action) = now.step(event);
            &&& now.counts_match()
            &&& action matches ActionView::Archive { name, sources, .. } ==> name == archive_name(
                label,
                now.start_index,
                now.end_index,
            ) && sources.len() == now.end_index - now.start_index
        }),
{
    lemma_counts_match_walk(s.begin(label), events);
}

} // verus!
