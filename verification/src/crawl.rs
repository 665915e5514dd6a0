//! The crawl as a mathematical state machine: what a crawl is between two
//! events, how it answers each event, and what holds of every run.
//!
//! [`crate::api::Cos`] is the executable crawler; its contract is the
//! transition function [`CosView::step`] of this file.

use vstd::prelude::*;
use crate::api::{ActionView, EventView, ItemView, Outcome, Phase, ITEM_PAUSE_MS, NO_PAGE_LIMIT, PAGE_PAUSE_MS};
use crate::manifest::{manifest_jobs, ItemDirView};
use crate::session::{get_request, login_accepted, login_request, StateView};
use crate::text::{decimal, page_count};

verus! {

/// The selectors that lead to the pagination control's labels.
pub open spec fn pagination_chain() -> Seq<Seq<char>> {
    seq![".numeric-pagination"@, ".page-numbers"@, ":nth-last-child(2)"@]
}

/// The selectors that lead to the links of a listing page's entries.
pub open spec fn entry_chain() -> Seq<Seq<char>> {
    seq![".entry-wrapper"@, ".entry-title"@, "a"@]
}

/// The selector of the links around an item's images.
pub open spec fn gallery_chain() -> Seq<Seq<char>> {
    seq![".gallery-icon > a"@]
}

/// The selector of the links inside an item's videos.
pub open spec fn video_chain() -> Seq<Seq<char>> {
    seq!["video > a"@]
}

/// The address of the landing page of `tag`.
pub open spec fn landing_url(tag: Seq<char>) -> Seq<char> {
    "https://www.cosjun.cn/"@ + tag + "?ref=cosjun"@
}

/// The address of listing page number `page` of `tag`.
pub open spec fn page_url(tag: Seq<char>, page: nat) -> Seq<char> {
    "https://www.cosjun.cn/"@ + tag + "/page/"@ + decimal(page) + "?ref=cosjun"@
}

/// The number of listing pages that the landing page announces, given the
/// text of its pagination label next to last; `None` if there is no such
/// text or it writes no page count.
pub open spec fn announced_pages(label: Option<Seq<char>>) -> Option<int> {
    match label {
        Some(text) => page_count(vstd::utf8::encode_utf8(text)),
        None => None,
    }
}

/// The items among `links`: one for every link that has both a title and a
/// target, in the order of the links.
pub open spec fn linked_items(links: Seq<(Option<Seq<char>>, Option<Seq<char>>)>) -> Seq<ItemView>
    decreases links.len(),
{
    if links.len() == 0 {
        Seq::empty()
    } else {
        let before = linked_items(links.drop_last());
        match links.last() {
            (Some(title), Some(url)) => before.push(ItemView { title, url }),
            _ => before,
        }
    }
}

/// The values that are there, in order.
pub open spec fn present(values: Seq<Option<Seq<char>>>) -> Seq<Seq<char>>
    decreases values.len(),
{
    if values.len() == 0 {
        Seq::empty()
    } else {
        let before = present(values.drop_last());
        match values.last() {
            Some(value) => before.push(value),
            None => before,
        }
    }
}

/// What the driver is asked for the landing page of `tag`.
pub open spec fn count_action(tag: Seq<char>) -> ActionView {
    ActionView::Count { request: get_request(landing_url(tag)), label: pagination_chain() }
}

/// What the driver is asked for listing page `page` of `tag`.
pub open spec fn list_action(tag: Seq<char>, page: int) -> ActionView {
    ActionView::List {
        page,
        request: get_request(page_url(tag, page as nat)),
        links: entry_chain(),
        title: "title"@,
        target: "href"@,
    }
}

/// What the driver is asked for the page of an item at `url`.
pub open spec fn detail_action(url: Seq<char>) -> ActionView {
    ActionView::Detail {
        request: get_request(url),
        images: gallery_chain(),
        videos: video_chain(),
        target: "href"@,
    }
}

/// A crawl as a mathematical value.
pub struct CosView {
    pub session: StateView,
    /// The output root.
    pub folder: Seq<char>,
    /// The tag being crawled.
    pub tag: Seq<char>,
    /// The highest page to ask for, or -1 for no limit.
    pub max_page: int,
    /// The number of pages that the landing page announced, -1 before.
    pub total_page: int,
    /// The listing page asked for last.
    pub cur_index: int,
    /// The items found and not yet dealt with, in the order found.
    pub queue: Seq<ItemView>,
    /// The item being dealt with.
    pub current: ItemView,
    pub phase: Phase,
}

impl CosView {
    /// Whether listing page number `page` is asked for: it exists, and the
    /// limit, if there is one, allows it.
    pub open spec fn wants_page(self, page: int) -> bool {
        page <= self.total_page && (self.max_page == NO_PAGE_LIMIT || page <= self.max_page)
    }

    /// The directory of the current item.
    pub open spec fn current_dir(self) -> ItemDirView {
        ItemDirView { root: self.folder, tag: self.tag, title: self.current.title }
    }

    /// The start of a crawl of `tag` up to page `max_page`: nothing is
    /// queued, and the landing page is asked for.
    pub open spec fn begin(self, tag: Seq<char>, max_page: int) -> (CosView, ActionView) {
        (
            CosView {
                tag,
                max_page,
                total_page: -1,
                cur_index: 1,
                queue: Seq::empty(),
                phase: Phase::Counting,
                ..self
            },
            count_action(tag),
        )
    }

    /// The start of a run for `tag`: a restored session crawls at once,
    /// without a page limit; otherwise the login form goes out first.
    pub open spec fn pull(self, tag: Seq<char>) -> (CosView, ActionView) {
        if self.session.loaded {
            self.begin(tag, NO_PAGE_LIMIT as int)
        } else {
            (
                CosView { tag, max_page: NO_PAGE_LIMIT as int, phase: Phase::LoggingIn, ..self },
                ActionView::Login(login_request("<username>"@, "<password>"@)),
            )
        }
    }

    /// The end of a crawl.
    pub open spec fn finish(self, outcome: Outcome) -> (CosView, ActionView) {
        (CosView { phase: Phase::Done, ..self }, ActionView::Finished(outcome))
    }

    /// Asks for listing page `page` if it is wanted; otherwise the listing
    /// is over and the items are dealt with.
    pub open spec fn list_from(self, page: int) -> (CosView, ActionView) {
        if self.wants_page(page) {
            (
                CosView { cur_index: page, phase: Phase::Listing, ..self },
                list_action(self.tag, page),
            )
        } else {
            self.next_item()
        }
    }

    /// Takes the oldest item of the queue and asks whether its directory
    /// exists; with an empty queue the crawl is complete.
    pub open spec fn next_item(self) -> (CosView, ActionView) {
        if self.queue.len() == 0 {
            self.finish(Outcome::Completed)
        } else {
            let taken = CosView {
                current: self.queue.first(),
                queue: self.queue.drop_first(),
                phase: Phase::Probing,
                ..self
            };
            (taken, ActionView::Probe(taken.current_dir()))
        }
    }

    /// The rest that follows an item whose page was requested.
    pub open spec fn item_rest(self) -> (CosView, ActionView) {
        (CosView { phase: Phase::ItemRest, ..self }, ActionView::Pause(ITEM_PAUSE_MS as nat))
    }

    /// The state after `event`, and what the driver is asked to do.
    ///
    /// A failed login ends the crawl. So does a landing page that cannot be
    /// had or loaded or that announces no page count, and it leaves -1 as
    /// the number of pages.
    /// A listing page that cannot be had or loaded adds no item; the listing
    /// goes on. An item whose directory exists is passed over at once. An
    /// item whose page cannot be had or loaded, or shows no media, writes
    /// nothing. An event that does not answer the action asked for last
    /// changes nothing.
    pub open spec fn step(self, event: EventView) -> (CosView, ActionView) {
        match (self.phase, event) {
            (Phase::LoggingIn, EventView::Reply(reply)) => if self.session.loaded
                || login_accepted(reply) {
                self.begin(self.tag, self.max_page)
            } else {
                self.finish(Outcome::LoginFailed)
            },
            (Phase::Counting, EventView::Label(label)) => match announced_pages(label) {
                Some(total) => (CosView { total_page: total, ..self }).list_from(1),
                None => (CosView { total_page: -1, ..self }).finish(Outcome::NoPageCount),
            },
            (Phase::Listing, EventView::Links(links)) => {
                let found = match links {
                    Some(links) => linked_items(links),
                    None => Seq::empty(),
                };
                (
                    CosView { queue: self.queue + found, phase: Phase::ListRest, ..self },
                    ActionView::Pause(PAGE_PAUSE_MS as nat),
                )
            },
            (Phase::ListRest, EventView::Woke) => self.list_from(self.cur_index + 1),
            (Phase::Probing, EventView::Exists(true)) => self.next_item(),
            (Phase::Probing, EventView::Exists(false)) => (
                CosView { phase: Phase::Fetching, ..self },
                detail_action(self.current.url),
            ),
            (Phase::Fetching, EventView::Media(Some((images, videos)))) => {
                let jobs = manifest_jobs(self.current_dir(), present(images), present(videos));
                if jobs.len() > 0 {
                    (CosView { phase: Phase::Writing, ..self }, ActionView::Write(jobs))
                } else {
                    self.item_rest()
                }
            },
            (Phase::Fetching, EventView::Media(None)) => self.item_rest(),
            (Phase::Writing, EventView::Written) => self.item_rest(),
            (Phase::ItemRest, EventView::Woke) => self.next_item(),
            _ => (self, ActionView::Ignored),
        }
    }

    /// The state after every event of `events`, taken in order.
    pub open spec fn after(self, events: Seq<EventView>) -> CosView
        decreases events.len(),
    {
        if events.len() == 0 {
            self
        } else {
            self.after(events.drop_last()).step(events.last()).0
        }
    }
}

/// The listing page that `action` asks for, if it asks for one.
pub open spec fn listed(action: ActionView) -> Seq<int> {
    match action {
        ActionView::List { page, .. } => seq![page],
        _ => Seq::empty(),
    }
}

/// The number of listing pages that a crawl asks for when the site has
/// `total` of them and the limit is `max_page`: the smaller of the two, all
/// of them without a limit, none if that is negative.
pub open spec fn page_span(total: int, max_page: int) -> nat {
    let bound = if max_page == NO_PAGE_LIMIT || total <= max_page {
        total
    } else {
        max_page
    };
    if bound < 0 {
        0
    } else {
        bound as nat
    }
}

/// The page numbers `1, 2, ..., n`.
pub open spec fn first_pages(n: nat) -> Seq<int> {
    Seq::new(n, |i: int| i + 1)
}

impl CosView {
    /// The listing pages asked for while `events` are taken in, in the
    /// order asked.
    pub open spec fn pages_asked(self, events: Seq<EventView>) -> Seq<int>
        decreases events.len(),
    {
        if events.len() == 0 {
            Seq::empty()
        } else {
            self.pages_asked(events.drop_last()) + listed(
                self.after(events.drop_last()).step(events.last()).1,
            )
        }
    }

    /// Whether the listing is under way.
    pub open spec fn is_listing(self) -> bool {
        self.phase == Phase::Listing || self.phase == Phase::ListRest
    }

    /// Whether the items are being dealt with, or the crawl is over.
    pub open spec fn past_listing(self) -> bool {
        ||| self.phase == Phase::Probing
        ||| self.phase == Phase::Fetching
        ||| self.phase == Phase::Writing
        ||| self.phase == Phase::ItemRest
        ||| self.phase == Phase::Done
    }

    /// What holds of a crawl, and of the pages `asked` for so far, from the
    /// moment the page count `total` is known.
    pub open spec fn listing_inv(self, asked: Seq<int>, total: int, max_page: int) -> bool {
        &&& self.total_page == total
        &&& self.max_page == max_page
        &&& if self.is_listing() {
            1 <= self.cur_index <= page_span(total, max_page) && asked == first_pages(
                self.cur_index as nat,
            )
        } else {
            self.past_listing() && asked == first_pages(page_span(total, max_page))
        }
    }
}

proof fn lemma_listing_inv_step(
    s: CosView,
    asked: Seq<int>,
    total: int,
    max_page: int,
    event: EventView,
)
    requires
        s.listing_inv(asked, total, max_page),
    ensures
        s.step(event).0.listing_inv(asked + listed(s.step(event).1), total, max_page),
{
    let (next, action) = s.step(event);
    assert(asked + Seq::<int>::empty() =~= asked);
    if s.phase == Phase::ListRest && event == EventView::Woke {
        if s.wants_page(s.cur_index + 1) {
            assert(asked + seq![s.cur_index + 1] =~= first_pages((s.cur_index + 1) as nat));
        }
    }
}

proof fn lemma_listing_inv_walk(
    s: CosView,
    asked: Seq<int>,
    total: int,
    max_page: int,
    events: Seq<EventView>,
)
    requires
        s.listing_inv(asked, total, max_page),
    ensures
        s.after(events).listing_inv(asked + s.pages_asked(events), total, max_page),
    decreases events.len(),
{
    if events.len() == 0 {
        assert(asked + Seq::<int>::empty() =~= asked);
    } else {
        let head = events.drop_last();
        lemma_listing_inv_walk(s, asked, total, max_page, head);
        lemma_listing_inv_step(
            s.after(head),
            asked + s.pages_asked(head),
            total,
            max_page,
            events.last(),
        );
        assert(asked + s.pages_asked(events) =~= (asked + s.pages_asked(head)) + listed(
            s.after(head).step(events.last()).1,
        ));
    }
}

/// Pages in order. Once the landing page has announced `total` pages, a
/// crawl asks for the listing pages `1, 2, 3, ...` in this order, each once,
/// whatever the driver reports and however the requests end; it never asks
/// for a page beyond the smaller of `total` and the limit; and by the time
/// it turns to the items it has asked for every page up to there.
pub proof fn law_pages_in_order(s: CosView, label: Seq<char>, events: Seq<EventView>)
    requires
        s.phase == Phase::Counting,
        announced_pages(Some(label)) is Some,
    ensures
        ({
            let span = page_span(announced_pages(Some(label))->0, s.max_page);
            let (started, action) = s.step(EventView::Label(Some(label)));
            let asked = listed(action) + started.pages_asked(events);
            let end = started.after(events);
            &&& asked.len() <= span
            &&& asked == first_pages(asked.len())
            &&& !end.is_listing() ==> asked == first_pages(span)
        }),
{
    let total = announced_pages(Some(label))->0;
    let (started, action) = s.step(EventView::Label(Some(label)));
    let counted = CosView { total_page: total, ..s };
    if counted.wants_page(1) {
        assert(listed(action) =~= first_pages(1));
    } else {
        assert(listed(action) =~= first_pages(0));
    }
    assert(started.listing_inv(listed(action), total, s.max_page));
    lemma_listing_inv_walk(started, listed(action), total, s.max_page, events);
}

/// A crawl whose landing page announces no page count, or cannot be had,
/// ends at once, asks for no listing page, and holds -1 as the number of
/// pages, whatever it held before.
pub proof fn law_no_count_no_crawl(s: CosView, label: Option<Seq<char>>)
    requires
        s.phase == Phase::Counting,
        announced_pages(label) is None,
    ensures
        s.step(EventView::Label(label)).1 == ActionView::Finished(Outcome::NoPageCount),
        s.step(EventView::Label(label)).0.phase == Phase::Done,
        s.step(EventView::Label(label)).0.total_page == -1,
{
}

/// A login that the site did not accept ends the run before any page is
/// asked for.
pub proof fn law_failed_login_stops(s: CosView, reply: Option<Seq<char>>)
    requires
        s.phase == Phase::LoggingIn,
        !s.session.loaded,
        !login_accepted(reply),
    ensures
        s.step(EventView::Reply(reply)).1 == ActionView::Finished(Outcome::LoginFailed),
        s.step(EventView::Reply(reply)).0.phase == Phase::Done,
{
}

/// Existing items are left alone. When the directory of the current item
/// exists, the item is dropped: the next thing asked is about the next item
/// in the queue, or the crawl is complete.
pub proof fn law_existing_item_is_skipped(s: CosView)
    requires
        s.phase == Phase::Probing,
    ensures
        s.step(EventView::Exists(true)) == s.next_item(),
        !(s.step(EventView::Exists(true)).1 is Detail),
        !(s.step(EventView::Exists(true)).1 is Write),
{
}

/// An item's page is requested only on the report that its directory does
/// not exist, and manifests are written only for an item whose page was
/// requested that way.
pub proof fn law_write_needs_absent_directory(s: CosView, event: EventView)
    ensures
        s.step(event).1 is Detail ==> s.phase == Phase::Probing && event == EventView::Exists(
            false,
        ),
        s.step(event).1 is Write ==> s.phase == Phase::Fetching,
        s.step(event).0.phase == Phase::Fetching ==> s.phase == Phase::Fetching || (s.phase
            == Phase::Probing && event == EventView::Exists(false)),
        s.step(event).1 matches ActionView::Write(jobs) ==> forall|i: int|
            0 <= i < jobs.len() ==> (#[trigger] jobs[i]).dir == s.current_dir() && jobs[i].urls.len()
                > 0,
{
}

} // verus!
