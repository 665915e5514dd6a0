//! Manifests: the line-by-line lists of media addresses that the crawler
//! leaves in an item's directory and that the compactor has fetched.

use vstd::prelude::*;
use vstd::string::*;
use std::collections::VecDeque;
use crate::text::{decimal, first_feed, lines_of, push_decimal, texts_view};

verus! {

/// The name under which both stages know a manifest.
pub open spec fn manifest_name() -> Seq<char> {
    "info.txt"@
}

/// What the progress display shows while entry number `n` of a manifest of
/// kind `tp` is written.
pub open spec fn progress_message(tp: Seq<char>, n: nat) -> Seq<char> {
    "downloading "@ + tp + " #"@ + decimal(n)
}

/// The lines of a manifest: every address, in order, each followed by a
/// line feed.
pub open spec fn manifest_lines(urls: Seq<Seq<char>>) -> Seq<Seq<char>> {
    Seq::new(urls.len(), |i: int| urls[i] + seq!['\n'])
}

/// What the progress display shows, line after line, while a manifest of
/// `n` entries of kind `tp` is written.
pub open spec fn progress_messages(tp: Seq<char>, n: nat) -> Seq<Seq<char>> {
    Seq::new(n, |i: int| progress_message(tp, (i + 1) as nat))
}

/// The texts of `parts`, one after the other.
pub open spec fn concat_all(parts: Seq<Seq<char>>) -> Seq<char>
    decreases parts.len(),
{
    if parts.len() == 0 {
        Seq::empty()
    } else {
        parts.first() + concat_all(parts.drop_first())
    }
}

/// The text of the manifest file for `urls`.
pub open spec fn manifest_text(urls: Seq<Seq<char>>) -> Seq<char> {
    concat_all(manifest_lines(urls))
}

/// The lines of `text`, without their line feeds; a last line may lack its
/// line feed.
pub open spec fn text_lines(text: Seq<char>) -> Seq<Seq<char>> {
    lines_of(text, '\n')
}

/// A manifest ready to be written, line by line.
#[derive(Debug, Clone, PartialEq, Eq)]
pub struct Manifest {
    /// The file's name inside its category directory.
    pub name: String,
    /// The lines, each with its line feed.
    pub lines: Vec<String>,
    /// For each line, what the progress display shows once it is written.
    pub messages: Vec<String>,
    /// What the progress display shows at the end.
    pub done: String,
}

/// The manifest of kind `tp` ("img", "video") for the addresses `vec`, taken
/// from the front: one line per address, in the order given, and one
/// progress message per line, counted from 1.
pub fn download_files(tp: &str, vec: VecDeque<String>) -> (manifest: Manifest)
    ensures
        manifest.name@ == manifest_name(),
        manifest.done@ == "Down!"@,
        manifest.lines.len() == vec.len(),
        manifest.messages.len() == vec.len(),
        texts_view(manifest.lines@) == manifest_lines(texts_view(vec@)),
        texts_view(manifest.messages@) == progress_messages(tp@, vec.len() as nat),
{
    let mut vec = vec;
    let ghost all = vec@;
    let total: usize = vec.len();
    let mut lines: Vec<String> = Vec::new();
    let mut messages: Vec<String> = Vec::new();
    let mut i: u64 = 0;
    while vec.len() > 0
        invariant
            total == all.len(),
            i + vec.len() == all.len(),
            vec@ == all.skip(i as int),
            lines.len() == i,
            messages.len() == i,
            forall|j: int| 0 <= j < i ==> (#[trigger] lines[j])@ == all[j]@ + seq!['\n'],
            forall|j: int|
                0 <= j < i ==> (#[trigger] messages[j])@ == progress_message(tp@, (j + 1) as nat),
        decreases vec.len(),
    {
        let ghost before = vec@;
        let next = vec.pop_front();
        assert(vec@ =~= all.skip(i as int + 1));
        match next {
            Some(url) => {
                assert(url == all[i as int]);
                let mut line = url;
                proof {
                    reveal_strlit("\n");
                }
                line.append("\n");
                assert(line@ =~= all[i as int]@ + seq!['\n']);
                lines.push(line);
                i += 1;
                let mut message = String::from_str("downloading ");
                message.append(tp);
                message.append(" #");
                push_decimal(&mut message, i);
                assert(message@ =~= progress_message(tp@, i as nat));
                messages.push(message);
            },
            None => {},
        }
    }
    assert(texts_view(lines@) =~= manifest_lines(texts_view(all)));
    assert(texts_view(messages@) =~= progress_messages(tp@, all.len() as nat));
    Manifest { name: String::from_str("info.txt"), lines, messages, done: String::from_str("Down!") }
}

proof fn lemma_first_line_feed(line: Seq<char>, rest: Seq<char>)
    requires
        !line.contains('\n'),
    ensures
        first_feed(line + seq!['\n'] + rest, '\n') == line.len(),
    decreases line.len(),
{
    let text = line + seq!['\n'] + rest;
    if line.len() == 0 {
        assert(text.first() == '\n');
    } else {
        assert(line.contains(line[0]));
        assert(text.first() == line[0]);
        let tail = line.drop_first();
        assert forall|c: char| tail.contains(c) implies line.contains(c) by {
            let i = choose|i: int| 0 <= i < tail.len() && tail[i] == c;
            assert(line[i + 1] == c);
        }
        lemma_first_line_feed(tail, rest);
        assert(text.drop_first() =~= tail + seq!['\n'] + rest);
    }
}

/// A manifest holds its addresses and nothing else. Read back line by line,
/// the text written for `urls` gives `urls` again, in the same order,
/// provided that no address holds a line feed.
pub proof fn law_manifest_round_trip(urls: Seq<Seq<char>>)
    requires
        forall|i: int| 0 <= i < urls.len() ==> !(#[trigger] urls[i]).contains('\n'),
    ensures
        text_lines(manifest_text(urls)) == urls,
    decreases urls.len(),
{
    if urls.len() > 0 {
        let rest = urls.drop_first();
        let tail = manifest_text(rest);
        let text = manifest_text(urls);
        assert(manifest_lines(urls).drop_first() =~= manifest_lines(rest));
        assert(text == urls[0] + seq!['\n'] + tail);
        assert forall|i: int| 0 <= i < rest.len() implies !(#[trigger] rest[i]).contains('\n') by {
            assert(rest[i] == urls[i + 1]);
        }
        law_manifest_round_trip(rest);
        lemma_first_line_feed(urls[0], tail);
        let n = urls[0].len() as int;
        assert(text.take(n) =~= urls[0]);
        assert(text.skip(n + 1) =~= tail);
        assert(seq![urls[0]] + rest =~= urls);
    } else {
        assert(manifest_lines(urls) =~= Seq::<Seq<char>>::empty());
    }
}

/// An item's directory, by the components of its path: the output root, the
/// tag, and the item's title.
#[derive(Debug, Clone, PartialEq, Eq)]
pub struct ItemDir {
    pub root: String,
    pub tag: String,
    pub title: String,
}

/// An item's directory as a mathematical value.
pub struct ItemDirView {
    pub root: Seq<char>,
    pub tag: Seq<char>,
    pub title: Seq<char>,
}

impl View for ItemDir {
    type V = ItemDirView;

    open spec fn view(&self) -> ItemDirView {
        ItemDirView { root: self.root@, tag: self.tag@, title: self.title@ }
    }
}

/// One manifest to write: the addresses of one kind of media of one item.
#[derive(Debug, Clone, PartialEq, Eq)]
pub struct ManifestJob {
    /// The kind, as the progress display names it: "img" or "video".
    pub kind: String,
    /// The item's directory.
    pub dir: ItemDir,
    /// The category directory inside it: "imgs" or "videos".
    pub category: String,
    /// The addresses, in page order; never empty.
    pub urls: VecDeque<String>,
}

/// A job as a mathematical value.
pub struct JobView {
    pub kind: Seq<char>,
    pub dir: ItemDirView,
    pub category: Seq<char>,
    pub urls: Seq<Seq<char>>,
}

impl View for ManifestJob {
    type V = JobView;

    open spec fn view(&self) -> JobView {
        JobView {
            kind: self.kind@,
            dir: self.dir@,
            category: self.category@,
            urls: texts_view(self.urls@),
        }
    }
}

/// The views of a sequence of jobs, in order.
pub open spec fn jobs_view(v: Seq<ManifestJob>) -> Seq<JobView> {
    Seq::new(v.len(), |i: int| v[i]@)
}

/// The manifests to write for an item: one for its images if it has any,
/// then one for its videos if it has any.
pub open spec fn manifest_jobs(dir: ItemDirView, images: Seq<Seq<char>>, videos: Seq<Seq<char>>) -> Seq<
    JobView,
> {
    let first = if images.len() > 0 {
        seq![JobView { kind: "img"@, dir, category: "imgs"@, urls: images }]
    } else {
        Seq::empty()
    };
    let second = if videos.len() > 0 {
        seq![JobView { kind: "video"@, dir, category: "videos"@, urls: videos }]
    } else {
        Seq::empty()
    };
    first + second
}

} // verus!
