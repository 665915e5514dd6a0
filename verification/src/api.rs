//! The crawler: from a tag's listing pages to the manifests of its items.
//!
//! [`Cos`] holds the state of one crawl and decides, event by event, what
//! the driver does next: which page to request and what to pick from it,
//! when to rest, which directory to look for, which manifests to write.
//! What it decides is laid down in [`crate::crawl`].
//!
//! Pages are not read here. An action that asks for a page names the
//! selectors, and the attributes, whose matches the driver reports.

use vstd::prelude::*;
use vstd::string::*;
use std::collections::VecDeque;
use crate::crawl::{announced_pages, landing_url, linked_items, page_url, present, CosView};
use crate::manifest::{jobs_view, manifest_jobs, ItemDirView, JobView};
pub use crate::manifest::{download_files, ItemDir, Manifest, ManifestJob};
use crate::session::{
    get_request, jar_accepted, jar_is_empty, jar_writable, login_request, restores, Request,
    RequestView, Session,
};
use crate::text::{
    optional_texts_view, parse_page_count, push_decimal, text_pairs_view, text_view, texts_view,
};

verus! {

/// An item of a listing page.
#[derive(Debug, Clone, PartialEq, Eq)]
pub struct CosItem {
    /// The title, which is also the name of the item's directory.
    pub title: String,
    /// The address of the item's page.
    pub url: String,
}

/// An item as a mathematical value.
pub struct ItemView {
    pub title: Seq<char>,
    pub url: Seq<char>,
}

impl View for CosItem {
    type V = ItemView;

    open spec fn view(&self) -> ItemView {
        ItemView { title: self.title@, url: self.url@ }
    }
}

impl CosItem {
    /// The item with this title and this address.
    pub fn new(title: String, url: String) -> (item: CosItem)
        ensures
            item@ == (ItemView { title: title@, url: url@ }),
    {
        CosItem { title, url }
    }
}

/// The views of a sequence of items, in order.
pub open spec fn items_view(v: Seq<CosItem>) -> Seq<ItemView> {
    Seq::new(v.len(), |i: int| v[i]@)
}

/// Milliseconds of rest after each listing page.
pub const PAGE_PAUSE_MS: u64 = 1000;

/// Milliseconds of rest after each item whose page was requested.
pub const ITEM_PAUSE_MS: u64 = 2000;

/// The page limit that means "no limit".
pub const NO_PAGE_LIMIT: i32 = -1;

/// Where a crawl stands between two events.
#[derive(Debug, Clone, Copy, PartialEq, Eq)]
pub enum Phase {
    /// No crawl is under way.
    Idle,
    /// Waiting for the answer to the login form.
    LoggingIn,
    /// Waiting for the landing page.
    Counting,
    /// Waiting for a listing page.
    Listing,
    /// Waiting for the rest after a listing page to end.
    ListRest,
    /// Waiting to learn whether the current item's directory exists.
    Probing,
    /// Waiting for the current item's page.
    Fetching,
    /// Waiting for the current item's manifests to be written.
    Writing,
    /// Waiting for the rest after an item to end.
    ItemRest,
    /// The crawl is over.
    Done,
}

/// How a crawl ended.
#[derive(Debug, Clone, Copy, PartialEq, Eq)]
pub enum Outcome {
    /// The site did not accept the login.
    LoginFailed,
    /// The number of pages could not be read from the landing page.
    NoPageCount,
    /// Every page was asked for and every item dealt with.
    Completed,
}

/// The links of a page as the driver reports them: for each element matched,
/// the value of its title attribute and of its target attribute, each `None`
/// where the element has no such attribute.
pub type Links = Vec<(Option<String>, Option<String>)>;

/// What the driver observed.
#[derive(Debug, Clone, PartialEq, Eq)]
pub enum Event {
    /// The body of the answer to the login form, or `None` if the exchange
    /// failed.
    Reply(Option<String>),
    /// The text of the elements that the selectors of `Count` lead to, or
    /// `None` if the landing page could not be had or loaded.
    Label(Option<String>),
    /// The links that the selectors of `List` lead to, in page order, or
    /// `None` if the listing page could not be had or loaded.
    Links(Option<Links>),
    /// For the images and for the videos that the selectors of `Detail` lead
    /// to, in page order, the value of the target attribute, or `None` if
    /// the item's page could not be had or loaded.
    Media(Option<(Vec<Option<String>>, Vec<Option<String>>)>),
    /// Whether the directory asked about exists.
    Exists(bool),
    /// The manifests are written, as far as they could be.
    Written,
    /// The rest is over.
    Woke,
}

/// An event as a mathematical value.
pub enum EventView {
    Reply(Option<Seq<char>>),
    Label(Option<Seq<char>>),
    Links(Option<Seq<(Option<Seq<char>>, Option<Seq<char>>)>>),
    Media(Option<(Seq<Option<Seq<char>>>, Seq<Option<Seq<char>>>)>),
    Exists(bool),
    Written,
    Woke,
}

impl View for Event {
    type V = EventView;

    open spec fn view(&self) -> EventView {
        match *self {
            Event::Reply(body) => EventView::Reply(text_view(body)),
            Event::Label(label) => EventView::Label(text_view(label)),
            Event::Links(links) => EventView::Links(
                match links {
                    Some(found) => Some(text_pairs_view(found@)),
                    None => None,
                },
            ),
            Event::Media(media) => EventView::Media(
                match media {
                    Some((images, videos)) => Some(
                        (optional_texts_view(images@), optional_texts_view(videos@)),
                    ),
                    None => None,
                },
            ),
            Event::Exists(exists) => EventView::Exists(exists),
            Event::Written => EventView::Written,
            Event::Woke => EventView::Woke,
        }
    }
}

/// What the driver has to do next.
///
/// Selectors come as a chain: the page is searched for the first, the
/// matches of each for the next.
#[derive(Debug, Clone, PartialEq, Eq)]
pub enum Action {
    /// Send the login form and report the answer with `Reply`.
    Login(Request),
    /// Request the landing page and report, with `Label`, the text of what
    /// `label` leads to.
    Count { request: Request, label: Vec<String> },
    /// Request listing page number `page` and report, with `Links`, the
    /// attributes `title` and `target` of what `links` leads to.
    List { page: u32, request: Request, links: Vec<String>, title: String, target: String },
    /// Report with `Exists` whether this directory exists.
    Probe(ItemDir),
    /// Request the current item's page and report, with `Media`, the
    /// attribute `target` of what `images` and of what `videos` lead to.
    Detail { request: Request, images: Vec<String>, videos: Vec<String>, target: String },
    /// Write these manifests, side by side, and report with `Written` when
    /// all are done.
    Write(Vec<ManifestJob>),
    /// Rest for this many milliseconds, then report `Woke`.
    Pause(u64),
    /// Nothing is left to do.
    Finished(Outcome),
    /// The event does not answer what was asked; nothing changed.
    Ignored,
}

/// An action as a mathematical value.
pub enum ActionView {
    Login(RequestView),
    Count { request: RequestView, label: Seq<Seq<char>> },
    List {
        page: int,
        request: RequestView,
        links: Seq<Seq<char>>,
        title: Seq<char>,
        target: Seq<char>,
    },
    Probe(ItemDirView),
    Detail {
        request: RequestView,
        images: Seq<Seq<char>>,
        videos: Seq<Seq<char>>,
        target: Seq<char>,
    },
    Write(Seq<JobView>),
    Pause(nat),
    Finished(Outcome),
    Ignored,
}

impl View for Action {
    type V = ActionView;

    open spec fn view(&self) -> ActionView {
        match *self {
            Action::Login(request) => ActionView::Login(request@),
            Action::Count { request, label } => ActionView::Count {
                request: request@,
                label: texts_view(label@),
            },
            Action::List { page, request, links, title, target } => ActionView::List {
                page: page as int,
                request: request@,
                links: texts_view(links@),
                title: title@,
                target: target@,
            },
            Action::Probe(dir) => ActionView::Probe(dir@),
            Action::Detail { request, images, videos, target } => ActionView::Detail {
                request: request@,
                images: texts_view(images@),
                videos: texts_view(videos@),
                target: target@,
            },
            Action::Write(jobs) => ActionView::Write(jobs_view(jobs@)),
            Action::Pause(ms) => ActionView::Pause(ms as nat),
            Action::Finished(outcome) => ActionView::Finished(outcome),
            Action::Ignored => ActionView::Ignored,
        }
    }
}

/// The items among `links`: one for every link that has both a title and a
/// target, in the order of the links.
pub fn collect_items(links: &Vec<(Option<String>, Option<String>)>) -> (items: Vec<CosItem>)
    ensures
        items_view(items@) == linked_items(text_pairs_view(links@)),
{
    let ghost all = text_pairs_view(links@);
    let mut items: Vec<CosItem> = Vec::new();
    let mut i: usize = 0;
    assert(all.take(0) =~= Seq::<(Option<Seq<char>>, Option<Seq<char>>)>::empty());
    assert(items_view(items@) =~= linked_items(all.take(0)));
    while i < links.len()
        invariant
            i <= links.len(),
            all == text_pairs_view(links@),
            items_view(items@) == linked_items(all.take(i as int)),
        decreases links.len() - i,
    {
        let ghost before = items_view(items@);
        let ghost upto = all.take(i as int + 1);
        assert(upto.drop_last() =~= all.take(i as int));
        assert(upto.last() == all[i as int]);
        match &links[i] {
            (Some(title), Some(url)) => {
                items.push(CosItem::new(title.clone(), url.clone()));
                assert(items_view(items@) =~= before.push(
                    ItemView { title: title@, url: url@ },
                ));
            },
            _ => {},
        }
        i += 1;
    }
    assert(all.take(links.len() as int) =~= all);
    items
}

/// The values that are there, in order.
pub fn present_values(values: &Vec<Option<String>>) -> (found: VecDeque<String>)
    ensures
        texts_view(found@) == present(optional_texts_view(values@)),
{
    let ghost all = optional_texts_view(values@);
    let mut found: VecDeque<String> = VecDeque::new();
    let mut i: usize = 0;
    assert(all.take(0) =~= Seq::<Option<Seq<char>>>::empty());
    assert(texts_view(found@) =~= present(all.take(0)));
    while i < values.len()
        invariant
            i <= values.len(),
            all == optional_texts_view(values@),
            texts_view(found@) == present(all.take(i as int)),
        decreases values.len() - i,
    {
        let ghost before = texts_view(found@);
        let ghost upto = all.take(i as int + 1);
        assert(upto.drop_last() =~= all.take(i as int));
        assert(upto.last() == all[i as int]);
        match &values[i] {
            Some(value) => {
                found.push_back(value.clone());
                assert(texts_view(found@) =~= before.push(value@));
            },
            None => {},
        }
        i += 1;
    }
    assert(all.take(values.len() as int) =~= all);
    found
}

fn chain_of_one(selector: &str) -> (chain: Vec<String>)
    ensures
        texts_view(chain@) == seq![selector@],
{
    let mut chain: Vec<String> = Vec::new();
    chain.push(String::from_str(selector));
    assert(texts_view(chain@) =~= seq![selector@]);
    chain
}

fn chain_of_three(first: &str, second: &str, third: &str) -> (chain: Vec<String>)
    ensures
        texts_view(chain@) == seq![first@, second@, third@],
{
    let mut chain: Vec<String> = Vec::new();
    chain.push(String::from_str(first));
    chain.push(String::from_str(second));
    chain.push(String::from_str(third));
    assert(texts_view(chain@) =~= seq![first@, second@, third@]);
    chain
}

/// The crawler.
pub struct Cos {
    http_request: Session,
    folder: String,
    tag: String,
    max_page: i32,
    total_page: i32,
    cur_index: u32,
    queue: VecDeque<CosItem>,
    current: CosItem,
    phase: Phase,
}

impl View for Cos {
    type V = CosView;

    closed spec fn view(&self) -> CosView {
        CosView {
            session: self.http_request@,
            folder: self.folder@,
            tag: self.tag@,
            max_page: self.max_page as int,
            total_page: self.total_page as int,
            cur_index: self.cur_index as int,
            queue: items_view(self.queue@),
            current: self.current@,
            phase: self.phase,
        }
    }
}

/// The file in which the session's jar is kept between runs.
pub open spec fn session_file() -> Seq<char> {
    "./session.json"@
}

impl Cos {
    /// The file in which the session's jar is kept between runs.
    pub fn session_path() -> (path: &'static str)
        ensures
            path@ == session_file(),
    {
        "./session.json"
    }

    /// A crawler that writes under `folder`, with the session restored from
    /// `saved`: the content of the session file, or `None` if it could not
    /// be read.
    pub fn new(folder: String, saved: Option<Vec<u8>>) -> (cos: Cos)
        ensures
            cos@.folder == folder@,
            cos@.phase == Phase::Idle,
            cos@.queue.len() == 0,
            cos@.total_page == -1,
            cos@.max_page == NO_PAGE_LIMIT,
            cos@.tag.len() == 0,
            cos@.session.path == session_file(),
            cos@.session.loaded == (saved matches Some(bytes) && jar_accepted(bytes@)),
            !cos@.session.loaded ==> jar_is_empty(cos@.session.jar),
            cos@.session.loaded ==> restores(saved->0@, cos@.session.jar),
            jar_writable(cos@.session.jar),
    {
        let session = Session::try_new(String::from_str("./session.json"), saved);
        let cos = Cos {
            http_request: session,
            folder,
            tag: String::new(),
            max_page: NO_PAGE_LIMIT,
            total_page: -1,
            cur_index: 1,
            queue: VecDeque::new(),
            current: CosItem::new(String::new(), String::new()),
            phase: Phase::Idle,
        };
        assert(items_view(cos.queue@) =~= Seq::<ItemView>::empty());
        cos
    }

    /// The session of the crawler.
    pub fn session(&self) -> (session: &Session)
        ensures
            session@ == self@.session,
            jar_writable(session@.jar),
    {
        // The jar is handed out for what its contract says of every jar
        // that a session holds.
        let _ = self.http_request.get_cookie_store();
        &self.http_request
    }

    /// The phase the crawl is in.
    pub fn phase(&self) -> (phase: Phase)
        ensures
            phase == self@.phase,
    {
        self.phase
    }

    /// Number of items found and not yet dealt with.
    pub fn queued(&self) -> (n: usize)
        ensures
            n == self@.queue.len(),
    {
        self.queue.len()
    }

    /// The request that logs in, or `None` if the session was restored and
    /// needs none.
    pub fn login(&self) -> (request: Option<Request>)
        ensures
            request is None <==> self@.session.loaded,
            request matches Some(r) ==> r@ == login_request("<username>"@, "<password>"@),
    {
        self.http_request.login("<username>", "<password>")
    }

    /// The request that ends the session on the site.
    pub fn logout(&self) -> (request: Request)
        ensures
            request@ == get_request(crate::session::logout_url()),
    {
        self.http_request.logout()
    }

    /// Reads the number of pages from the label that the driver reported for
    /// the landing page, or from `None` if the page could not be had or
    /// loaded. With a count, `total_page` is set to it and the result is
    /// `true`. In every other case the result is `false` and `total_page`
    /// is -1, whatever it was.
    pub fn init_total_page(label: Option<&str>, total_page: &mut i32) -> (found: bool)
        ensures
            match announced_pages(
                match label {
                    Some(text) => Some(text@),
                    None => None,
                },
            ) {
                Some(total) => found && *final(total_page) == total,
                None => !found && *final(total_page) == -1,
            },
    {
        let count = match label {
            Some(text) => parse_page_count(text),
            None => None,
        };
        match count {
            Some(total) => {
                *total_page = total;
                true
            },
            None => {
                *total_page = -1;
                false
            },
        }
    }

    /// Starts a run for `tag`: the crawl itself if the session was restored,
    /// the login otherwise.
    pub fn pull(&mut self, tag: &str) -> (action: Action)
        ensures
            (final(self)@, action@) == old(self)@.pull(tag@),
    {
        match self.login() {
            None => self.produce_by_page(tag, NO_PAGE_LIMIT),
            Some(request) => {
                self.tag = String::from_str(tag);
                self.max_page = NO_PAGE_LIMIT;
                self.phase = Phase::LoggingIn;
                Action::Login(request)
            },
        }
    }

    /// Starts the crawl of `tag`, up to page `max_page` (-1: every page),
    /// by asking for the landing page.
    pub fn produce_by_page(&mut self, tag: &str, max_page: i32) -> (action: Action)
        ensures
            (final(self)@, action@) == old(self)@.begin(tag@, max_page as int),
    {
        let mut url = String::from_str("https://www.cosjun.cn/");
        url.append(tag);
        url.append("?ref=cosjun");
        assert(url@ =~= landing_url(tag@));
        self.tag = String::from_str(tag);
        self.max_page = max_page;
        self.total_page = -1;
        self.cur_index = 1;
        self.queue.clear();
        assert(items_view(self.queue@) =~= Seq::<ItemView>::empty());
        self.phase = Phase::Counting;
        Action::Count {
            request: self.http_request.http_get(url.as_str()),
            label: chain_of_three(".numeric-pagination", ".page-numbers", ":nth-last-child(2)"),
        }
    }

    fn finish(&mut self, outcome: Outcome) -> (action: Action)
        ensures
            (final(self)@, action@) == old(self)@.finish(outcome),
    {
        self.phase = Phase::Done;
        Action::Finished(outcome)
    }

    fn current_dir(&self) -> (dir: ItemDir)
        ensures
            dir@ == self@.current_dir(),
    {
        ItemDir {
            root: self.folder.clone(),
            tag: self.tag.clone(),
            title: self.current.title.clone(),
        }
    }

    fn list_from(&mut self, page: i64) -> (action: Action)
        requires
            1 <= page <= i32::MAX + 1,
        ensures
            (final(self)@, action@) == old(self)@.list_from(page as int),
    {
        if page <= self.total_page as i64 && (self.max_page == NO_PAGE_LIMIT || page
            <= self.max_page as i64) {
            let mut url = String::from_str("https://www.cosjun.cn/");
            url.append(self.tag.as_str());
            url.append("/page/");
            push_decimal(&mut url, page as u64);
            url.append("?ref=cosjun");
            assert(url@ =~= page_url(self.tag@, page as nat));
            self.cur_index = page as u32;
            self.phase = Phase::Listing;
            Action::List {
                page: page as u32,
                request: self.http_request.http_get(url.as_str()),
                links: chain_of_three(".entry-wrapper", ".entry-title", "a"),
                title: String::from_str("title"),
                target: String::from_str("href"),
            }
        } else {
            self.next_item()
        }
    }

    fn next_item(&mut self) -> (action: Action)
        ensures
            (final(self)@, action@) == old(self)@.next_item(),
    {
        let ghost before = self.queue@;
        match self.queue.pop_front() {
            None => {
                assert(items_view(self.queue@) =~= items_view(before));
                self.finish(Outcome::Completed)
            },
            Some(item) => {
                assert(items_view(self.queue@) =~= items_view(before).drop_first());
                assert(item@ == items_view(before).first());
                self.current = item;
                self.phase = Phase::Probing;
                Action::Probe(self.current_dir())
            },
        }
    }

    fn item_rest(&mut self) -> (action: Action)
        ensures
            (final(self)@, action@) == old(self)@.item_rest(),
    {
        self.phase = Phase::ItemRest;
        Action::Pause(ITEM_PAUSE_MS)
    }

    /// Appends a copy of every item of `found` to the queue.
    fn enqueue(&mut self, found: &Vec<CosItem>)
        ensures
            final(self)@ == (CosView {
                queue: old(self)@.queue + items_view(found@),
                ..old(self)@
            }),
    {
        let ghost start = items_view(self.queue@);
        let mut i: usize = 0;
        assert(items_view(found@).take(0) =~= Seq::<ItemView>::empty());
        assert(items_view(self.queue@) =~= start + items_view(found@).take(0));
        while i < found.len()
            invariant
                i <= found.len(),
                self@ == (CosView {
                    queue: start + items_view(found@).take(i as int),
                    ..old(self)@
                }),
            decreases found.len() - i,
        {
            let ghost before = items_view(self.queue@);
            let item = CosItem::new(found[i].title.clone(), found[i].url.clone());
            self.queue.push_back(item);
            assert(items_view(self.queue@) =~= before.push(found[i as int]@));
            assert(items_view(found@).take(i as int + 1) =~= items_view(found@).take(
                i as int,
            ).push(found[i as int]@));
            assert(items_view(self.queue@) =~= start + items_view(found@).take(i as int + 1));
            i += 1;
        }
        assert(items_view(found@).take(found.len() as int) =~= items_view(found@));
    }

    /// The manifests to write for the current item.
    fn manifest_jobs(&self, images: VecDeque<String>, videos: VecDeque<String>) -> (jobs: Vec<
        ManifestJob,
    >)
        ensures
            jobs_view(jobs@) == manifest_jobs(
                self@.current_dir(),
                texts_view(images@),
                texts_view(videos@),
            ),
    {
        let mut jobs: Vec<ManifestJob> = Vec::new();
        if images.len() > 0 {
            jobs.push(
                ManifestJob {
                    kind: String::from_str("img"),
                    dir: self.current_dir(),
                    category: String::from_str("imgs"),
                    urls: images,
                },
            );
        }
        if videos.len() > 0 {
            jobs.push(
                ManifestJob {
                    kind: String::from_str("video"),
                    dir: self.current_dir(),
                    category: String::from_str("videos"),
                    urls: videos,
                },
            );
        }
        assert(jobs_view(jobs@) =~= manifest_jobs(
            self@.current_dir(),
            texts_view(images@),
            texts_view(videos@),
        ));
        jobs
    }

    /// Takes one event and answers with the next action.
    pub fn step(&mut self, event: Event) -> (action: Action)
        ensures
            (final(self)@, action@) == old(self)@.step(event@),
    {
        match self.phase {
            Phase::LoggingIn => match event {
                Event::Reply(reply) => {
                    let ok = match &reply {
                        Some(body) => self.http_request.logged_in(Some(body.as_str())),
                        None => self.http_request.logged_in(None),
                    };
                    if ok {
                        let tag = self.tag.clone();
                        self.produce_by_page(tag.as_str(), self.max_page)
                    } else {
                        self.finish(Outcome::LoginFailed)
                    }
                },
                _ => Action::Ignored,
            },
            Phase::Counting => match event {
                Event::Label(label) => {
                    let found = match &label {
                        Some(text) => Cos::init_total_page(
                            Some(text.as_str()),
                            &mut self.total_page,
                        ),
                        None => Cos::init_total_page(None, &mut self.total_page),
                    };
                    if found {
                        self.list_from(1)
                    } else {
                        self.finish(Outcome::NoPageCount)
                    }
                },
                _ => Action::Ignored,
            },
            Phase::Listing => match event {
                Event::Links(links) => {
                    match links {
                        Some(links) => {
                            let found = collect_items(&links);
                            self.enqueue(&found);
                        },
                        None => {
                            assert(self@.queue + Seq::<ItemView>::empty() =~= self@.queue);
                        },
                    }
                    self.phase = Phase::ListRest;
                    Action::Pause(PAGE_PAUSE_MS)
                },
                _ => Action::Ignored,
            },
            Phase::ListRest => match event {
                Event::Woke => {
                    if self.cur_index <= 0x7fff_ffff {
                        self.list_from(self.cur_index as i64 + 1)
                    } else {
                        self.next_item()
                    }
                },
                _ => Action::Ignored,
            },
            Phase::Probing => match event {
                Event::Exists(true) => self.next_item(),
                Event::Exists(false) => {
                    self.phase = Phase::Fetching;
                    Action::Detail {
                        request: self.http_request.http_get(self.current.url.as_str()),
                        images: chain_of_one(".gallery-icon > a"),
                        videos: chain_of_one("video > a"),
                        target: String::from_str("href"),
                    }
                },
                _ => Action::Ignored,
            },
            Phase::Fetching => match event {
                Event::Media(Some((images, videos))) => {
                    let jobs = self.manifest_jobs(
                        present_values(&images),
                        present_values(&videos),
                    );
                    if jobs.len() > 0 {
                        self.phase = Phase::Writing;
                        Action::Write(jobs)
                    } else {
                        self.item_rest()
                    }
                },
                Event::Media(None) => self.item_rest(),
                _ => Action::Ignored,
            },
            Phase::Writing => match event {
                Event::Written => self.item_rest(),
                _ => Action::Ignored,
            },
            Phase::ItemRest => match event {
                Event::Woke => self.next_item(),
                _ => Action::Ignored,
            },
            Phase::Idle => Action::Ignored,
            Phase::Done => Action::Ignored,
        }
    }
}

} // verus!
