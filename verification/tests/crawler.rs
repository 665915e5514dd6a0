use cosjun::api::{
    collect_items, download_files, present_values, Action, Cos, CosItem, Event, ItemDir, Links,
    ManifestJob, Outcome, Phase, ITEM_PAUSE_MS, NO_PAGE_LIMIT, PAGE_PAUSE_MS,
};
use cosjun::session::{Method, Session};
use std::collections::VecDeque;
use visdom::types::Elements;
use visdom::Vis;

fn select<'a>(root: &Elements<'a>, chain: &[String]) -> Elements<'a> {
    let mut found = root.find(&chain[0]);
    for selector in chain.iter().skip(1) {
        found = found.find(selector);
    }
    found
}

fn attribute(found: Elements<'_>, name: &str) -> Vec<Option<String>> {
    found.into_iter().map(|e| e.get_attribute(name).map(|v| v.to_string())).collect()
}

/// Answers `action` from the page `html`, as a driver does.
fn answer(action: &Action, html: &str) -> Event {
    let root = Vis::load(html).unwrap();
    match action {
        Action::Count { label, .. } => Event::Label(Some(select(&root, label).text())),
        Action::List { links, title, target, .. } => {
            let found = select(&root, links);
            let pairs: Links = found
                .into_iter()
                .map(|e| {
                    (
                        e.get_attribute(title).map(|v| v.to_string()),
                        e.get_attribute(target).map(|v| v.to_string()),
                    )
                })
                .collect();
            Event::Links(Some(pairs))
        }
        Action::Detail { images, videos, target, .. } => Event::Media(Some((
            attribute(select(&root, images), target),
            attribute(select(&root, videos), target),
        ))),
        other => panic!("no page answers {:?}", other),
    }
}

fn landing(pages: &str) -> String {
    format!(
        "<html><body><div class=\"numeric-pagination\"><ul class=\"page-numbers\">\
         <li><span class=\"page-numbers current\">1</span></li>\
         <li><a class=\"page-numbers\" href=\"/t/page/2\">2</a></li>\
         <li><a class=\"page-numbers\" href=\"/t/page/9\">{}</a></li>\
         <li><a class=\"next page-numbers\" href=\"/t/page/2\">Next</a></li>\
         </ul></div></body></html>",
        pages
    )
}

fn listing(entries: &[(&str, &str)]) -> String {
    let mut html = String::from("<html><body>");
    for (title, url) in entries {
        html.push_str(&format!(
            "<div class=\"entry-wrapper\"><h2 class=\"entry-title\">\
             <a href=\"{}\" title=\"{}\">{}</a></h2></div>",
            url, title, title
        ));
    }
    html.push_str("</body></html>");
    html
}

fn item_page(images: &[&str], videos: &[&str]) -> String {
    let mut html = String::from("<html><body>");
    for url in images {
        html.push_str(&format!(
            "<div class=\"gallery-icon\"><a href=\"{}\"><img src=\"thumb\"></a></div>",
            url
        ));
    }
    for url in videos {
        html.push_str(&format!("<video controls><a href=\"{}\">video</a></video>", url));
    }
    html.push_str("</body></html>");
    html
}

fn item(title: &str, url: &str) -> CosItem {
    CosItem::new(title.to_string(), url.to_string())
}

fn texts(names: &[&str]) -> Vec<String> {
    names.iter().map(|s| s.to_string()).collect()
}

fn queue(names: &[&str]) -> VecDeque<String> {
    names.iter().map(|s| s.to_string()).collect()
}

fn get(url: &str) -> cosjun::session::Request {
    Session::try_new("x".to_string(), None).http_get(url)
}

fn reply(body: &str) -> Event {
    Event::Reply(Some(body.to_string()))
}

fn label(text: &str) -> Event {
    Event::Label(Some(text.to_string()))
}

fn links(entries: &[(&str, &str)]) -> Event {
    Event::Links(Some(
        entries
            .iter()
            .map(|(title, url)| (Some(title.to_string()), Some(url.to_string())))
            .collect(),
    ))
}

fn media(images: &[&str], videos: &[&str]) -> Event {
    let some = |urls: &[&str]| urls.iter().map(|u| Some(u.to_string())).collect::<Vec<_>>();
    Event::Media(Some((some(images), some(videos))))
}

fn count(tag: &str) -> Action {
    Action::Count {
        request: get(&format!("https://www.cosjun.cn/{}?ref=cosjun", tag)),
        label: texts(&[".numeric-pagination", ".page-numbers", ":nth-last-child(2)"]),
    }
}

fn list(tag: &str, page: u32) -> Action {
    Action::List {
        page,
        request: get(&format!("https://www.cosjun.cn/{}/page/{}?ref=cosjun", tag, page)),
        links: texts(&[".entry-wrapper", ".entry-title", "a"]),
        title: "title".to_string(),
        target: "href".to_string(),
    }
}

fn detail(url: &str) -> Action {
    Action::Detail {
        request: get(url),
        images: texts(&[".gallery-icon > a"]),
        videos: texts(&["video > a"]),
        target: "href".to_string(),
    }
}

fn dir(title: &str) -> ItemDir {
    ItemDir { root: "/out".to_string(), tag: "tag".to_string(), title: title.to_string() }
}

#[test]
fn item_keeps_title_and_url() {
    let it = CosItem::new("a title".to_string(), "https://x/y".to_string());
    assert_eq!(it.title, "a title");
    assert_eq!(it.url, "https://x/y");
}

#[test]
fn new_crawler_is_idle() {
    let cos = Cos::new("/out".to_string(), None);
    assert_eq!(cos.phase(), Phase::Idle);
    assert_eq!(cos.queued(), 0);
    assert!(!cos.session().state().have_session());
    assert_eq!(cos.session().state().cookie_store_path(), "./session.json");
    assert_eq!(Cos::session_path(), "./session.json");
}

#[test]
fn init_total_page_sets_the_count_or_the_sentinel() {
    let mut total = -1;
    assert!(Cos::init_total_page(Some("9"), &mut total));
    assert_eq!(total, 9);
    assert!(!Cos::init_total_page(Some("x"), &mut total));
    assert_eq!(total, -1);
    let mut total = 5;
    assert!(!Cos::init_total_page(None, &mut total));
    assert_eq!(total, -1);
    let mut total = 5;
    assert!(!Cos::init_total_page(Some(""), &mut total));
    assert_eq!(total, -1);
}

#[test]
fn collect_items_keeps_complete_links() {
    let links = vec![
        (Some("t1".to_string()), Some("u1".to_string())),
        (None, Some("u2".to_string())),
        (Some("t3".to_string()), None),
        (None, None),
        (Some(String::new()), Some(String::new())),
        (Some("t6".to_string()), Some("u6".to_string())),
    ];
    assert_eq!(collect_items(&links), vec![item("t1", "u1"), item("", ""), item("t6", "u6")]);
    assert_eq!(collect_items(&Vec::new()), Vec::<CosItem>::new());
}

#[test]
fn present_values_keeps_what_is_there() {
    let values = vec![Some("a".to_string()), None, Some("b".to_string()), None];
    assert_eq!(present_values(&values), queue(&["a", "b"]));
    assert_eq!(present_values(&vec![None, None]), VecDeque::<String>::new());
}

#[test]
fn manifest_has_one_line_per_address() {
    let urls = texts(&["https://i/1.jpg", "https://i/2.jpg", "https://i/3.jpg"]);
    let manifest = download_files("img", urls.iter().cloned().collect());
    assert_eq!(manifest.name, "info.txt");
    assert_eq!(
        manifest.lines,
        texts(&["https://i/1.jpg\n", "https://i/2.jpg\n", "https://i/3.jpg\n"])
    );
    assert_eq!(
        manifest.messages,
        texts(&["downloading img #1", "downloading img #2", "downloading img #3"])
    );
    assert_eq!(manifest.done, "Down!");
    // Read back line by line, the file holds these addresses and no other.
    let file: String = manifest.lines.concat();
    assert_eq!(file.lines().map(|l| l.to_string()).collect::<Vec<_>>(), urls);
}

#[test]
fn manifest_of_nothing_is_empty() {
    let manifest = download_files("video", VecDeque::new());
    assert!(manifest.lines.is_empty());
    assert!(manifest.messages.is_empty());
    assert_eq!(manifest.name, "info.txt");
}

#[test]
fn pull_logs_in_first_without_a_restored_session() {
    let mut cos = Cos::new("/out".to_string(), None);
    let action = cos.pull("tag");
    match action {
        Action::Login(request) => {
            assert_eq!(request.method, Method::Post);
            assert_eq!(
                request.body.as_deref(),
                Some("action=user_login&username=<username>&password=<password>")
            );
            assert_eq!(Some(request), cos.login());
        }
        other => panic!("unexpected {:?}", other),
    }
    assert_eq!(cos.phase(), Phase::LoggingIn);
    assert_eq!(cos.step(reply("{\"status\":\"1\"}")), count("tag"));
    assert_eq!(cos.phase(), Phase::Counting);
}

#[test]
fn pull_crawls_at_once_with_a_restored_session() {
    let mut cos = Cos::new("/out".to_string(), Some(Vec::new()));
    assert_eq!(cos.login(), None);
    assert_eq!(cos.pull("tag"), count("tag"));
}

#[test]
fn failed_login_ends_the_run() {
    let mut cos = Cos::new("/out".to_string(), None);
    cos.pull("tag");
    assert_eq!(cos.step(reply("{\"status\":\"0\"}")), Action::Finished(Outcome::LoginFailed));
    assert_eq!(cos.phase(), Phase::Done);
    let mut cos = Cos::new("/out".to_string(), None);
    cos.pull("tag");
    assert_eq!(cos.step(Event::Reply(None)), Action::Finished(Outcome::LoginFailed));
}

#[test]
fn missing_page_count_ends_the_crawl() {
    let mut cos = Cos::new("/out".to_string(), None);
    cos.produce_by_page("tag", NO_PAGE_LIMIT);
    assert_eq!(cos.step(Event::Label(None)), Action::Finished(Outcome::NoPageCount));
    let mut cos = Cos::new("/out".to_string(), None);
    cos.produce_by_page("tag", NO_PAGE_LIMIT);
    assert_eq!(cos.step(label("Next")), Action::Finished(Outcome::NoPageCount));
    assert_eq!(cos.phase(), Phase::Done);
    let mut cos = Cos::new("/out".to_string(), None);
    cos.produce_by_page("tag", NO_PAGE_LIMIT);
    assert_eq!(cos.step(label(" 9 ")), Action::Finished(Outcome::NoPageCount));
}

/// Runs the listing of a crawl and returns the page numbers asked for.
fn pages_of_crawl(total: &str, max_page: i32) -> Vec<u32> {
    let mut cos = Cos::new("/out".to_string(), None);
    assert_eq!(cos.produce_by_page("tag", max_page), count("tag"));
    let mut pages = Vec::new();
    let mut action = cos.step(label(total));
    loop {
        match action {
            Action::List { page, .. } => {
                assert_eq!(action, list("tag", page));
                pages.push(page);
                assert_eq!(cos.step(Event::Links(None)), Action::Pause(PAGE_PAUSE_MS));
                action = cos.step(Event::Woke);
            }
            Action::Finished(Outcome::Completed) => return pages,
            other => panic!("unexpected {:?}", other),
        }
    }
}

#[test]
fn walk_visits_each_page_once_in_order() {
    assert_eq!(pages_of_crawl("3", NO_PAGE_LIMIT), vec![1, 2, 3]);
    assert_eq!(pages_of_crawl("3", 2), vec![1, 2]);
    assert_eq!(pages_of_crawl("3", 3), vec![1, 2, 3]);
    assert_eq!(pages_of_crawl("3", 10), vec![1, 2, 3]);
    assert_eq!(pages_of_crawl("1", NO_PAGE_LIMIT), vec![1]);
    assert_eq!(pages_of_crawl("12", 11), (1..=11).collect::<Vec<u32>>());
}

#[test]
fn walk_visits_nothing_without_pages_or_with_limit_zero() {
    assert_eq!(pages_of_crawl("0", NO_PAGE_LIMIT), Vec::<u32>::new());
    assert_eq!(pages_of_crawl("-4", NO_PAGE_LIMIT), Vec::<u32>::new());
    assert_eq!(pages_of_crawl("3", 0), Vec::<u32>::new());
    assert_eq!(pages_of_crawl("3", -2), Vec::<u32>::new());
}

#[test]
fn crawl_of_three_items_from_page_to_manifests() {
    let mut cos = Cos::new("/out".to_string(), None);
    cos.produce_by_page("tag", NO_PAGE_LIMIT);
    assert_eq!(cos.step(label("2")), list("tag", 1));
    assert_eq!(
        cos.step(links(&[("a", "https://s/a"), ("b", "https://s/b")])),
        Action::Pause(PAGE_PAUSE_MS)
    );
    assert_eq!(cos.queued(), 2);
    assert_eq!(cos.step(Event::Woke), list("tag", 2));
    // A page that cannot be had adds nothing, and the listing goes on.
    assert_eq!(cos.step(Event::Links(None)), Action::Pause(PAGE_PAUSE_MS));
    assert_eq!(cos.queued(), 2);

    // Item a: new, with two images and no video.
    assert_eq!(cos.step(Event::Woke), Action::Probe(dir("a")));
    assert_eq!(cos.step(Event::Exists(false)), detail("https://s/a"));
    assert_eq!(
        cos.step(media(&["https://i/a1.jpg", "https://i/a2.jpg"], &[])),
        Action::Write(vec![ManifestJob {
            kind: "img".to_string(),
            dir: dir("a"),
            category: "imgs".to_string(),
            urls: queue(&["https://i/a1.jpg", "https://i/a2.jpg"]),
        }])
    );
    assert_eq!(cos.step(Event::Written), Action::Pause(ITEM_PAUSE_MS));

    // Item b: images and a video.
    assert_eq!(cos.step(Event::Woke), Action::Probe(dir("b")));
    assert_eq!(cos.step(Event::Exists(false)), detail("https://s/b"));
    assert_eq!(
        cos.step(media(&["https://i/b1.jpg"], &["https://v/b1.mp4"])),
        Action::Write(vec![
            ManifestJob {
                kind: "img".to_string(),
                dir: dir("b"),
                category: "imgs".to_string(),
                urls: queue(&["https://i/b1.jpg"]),
            },
            ManifestJob {
                kind: "video".to_string(),
                dir: dir("b"),
                category: "videos".to_string(),
                urls: queue(&["https://v/b1.mp4"]),
            },
        ])
    );
    assert_eq!(cos.step(Event::Written), Action::Pause(ITEM_PAUSE_MS));
    assert_eq!(cos.step(Event::Woke), Action::Finished(Outcome::Completed));
    assert_eq!(cos.phase(), Phase::Done);
}

#[test]
fn item_with_videos_only_writes_one_manifest() {
    let mut cos = Cos::new("/out".to_string(), None);
    cos.produce_by_page("tag", 1);
    cos.step(label("1"));
    cos.step(links(&[("v", "https://s/v")]));
    cos.step(Event::Woke);
    cos.step(Event::Exists(false));
    assert_eq!(
        cos.step(Event::Media(Some((vec![None], vec![None, Some("https://v/1.mp4".to_string())])))),
        Action::Write(vec![ManifestJob {
            kind: "video".to_string(),
            dir: dir("v"),
            category: "videos".to_string(),
            urls: queue(&["https://v/1.mp4"]),
        }])
    );
}

#[test]
fn items_are_dealt_with_in_the_order_found() {
    let mut cos = Cos::new("/out".to_string(), None);
    cos.produce_by_page("tag", NO_PAGE_LIMIT);
    cos.step(label("2"));
    cos.step(links(&[("p1a", "u1"), ("p1b", "u2")]));
    cos.step(Event::Woke);
    cos.step(links(&[("p2a", "u3")]));
    let mut seen = Vec::new();
    let mut action = cos.step(Event::Woke);
    while let Action::Probe(dir) = action {
        seen.push(dir.title);
        action = cos.step(Event::Exists(true));
    }
    assert_eq!(seen, texts(&["p1a", "p1b", "p2a"]));
    assert_eq!(action, Action::Finished(Outcome::Completed));
}

#[test]
fn existing_item_is_skipped_without_request_or_rest() {
    let mut cos = Cos::new("/out".to_string(), None);
    cos.produce_by_page("tag", 1);
    cos.step(label("1"));
    cos.step(links(&[("a", "https://s/a"), ("b", "https://s/b")]));
    assert_eq!(cos.step(Event::Woke), Action::Probe(dir("a")));
    assert_eq!(cos.step(Event::Exists(true)), Action::Probe(dir("b")));
    assert_eq!(cos.step(Event::Exists(true)), Action::Finished(Outcome::Completed));
}

#[test]
fn second_run_over_the_same_items_writes_nothing() {
    for run in 0..2 {
        let mut cos = Cos::new("/out".to_string(), None);
        cos.produce_by_page("tag", 1);
        cos.step(label("1"));
        cos.step(links(&[("a", "https://s/a")]));
        assert_eq!(cos.step(Event::Woke), Action::Probe(dir("a")));
        // The first run finds no directory and makes it; the second finds it.
        let action = cos.step(Event::Exists(run == 1));
        if run == 0 {
            assert_eq!(action, detail("https://s/a"));
        } else {
            assert_eq!(action, Action::Finished(Outcome::Completed));
        }
    }
}

#[test]
fn item_without_page_or_media_writes_nothing() {
    let mut cos = Cos::new("/out".to_string(), None);
    cos.produce_by_page("tag", 1);
    cos.step(label("1"));
    cos.step(links(&[("a", "https://s/a"), ("b", "https://s/b")]));
    cos.step(Event::Woke);
    cos.step(Event::Exists(false));
    assert_eq!(cos.step(Event::Media(None)), Action::Pause(ITEM_PAUSE_MS));
    assert_eq!(cos.step(Event::Woke), Action::Probe(dir("b")));
    cos.step(Event::Exists(false));
    assert_eq!(cos.step(media(&[], &[])), Action::Pause(ITEM_PAUSE_MS));
    assert_eq!(cos.step(Event::Woke), Action::Finished(Outcome::Completed));
}

#[test]
fn crawler_ignores_events_out_of_turn() {
    let mut cos = Cos::new("/out".to_string(), None);
    assert_eq!(cos.step(Event::Woke), Action::Ignored);
    assert_eq!(cos.step(Event::Reply(None)), Action::Ignored);
    cos.produce_by_page("tag", 1);
    assert_eq!(cos.step(Event::Woke), Action::Ignored);
    assert_eq!(cos.step(Event::Reply(None)), Action::Ignored);
    assert_eq!(cos.step(Event::Exists(true)), Action::Ignored);
    assert_eq!(cos.step(Event::Written), Action::Ignored);
    assert_eq!(cos.step(Event::Links(None)), Action::Ignored);
    assert_eq!(cos.phase(), Phase::Counting);
}

#[test]
fn logout_request_of_the_crawler() {
    let cos = Cos::new("/out".to_string(), None);
    assert_eq!(cos.logout(), cos.session().logout());
}

#[test]
fn selectors_find_the_page_count_in_a_landing_page() {
    let mut cos = Cos::new("/out".to_string(), None);
    let action = cos.produce_by_page("tag", NO_PAGE_LIMIT);
    assert_eq!(answer(&action, &landing("9")), label("9"));
    assert_eq!(answer(&action, &landing("128")), label("128"));
    assert_eq!(answer(&action, "<p>nothing here</p>"), label(""));
    assert_eq!(cos.step(answer(&action, &landing("3"))), list("tag", 1));
}

#[test]
fn selectors_find_the_entries_of_a_listing_page() {
    let mut cos = Cos::new("/out".to_string(), None);
    cos.produce_by_page("tag", 1);
    let action = cos.step(label("1"));
    let html = listing(&[("a", "https://s/a"), ("b", "https://s/b"), ("c", "https://s/c")]);
    assert_eq!(
        answer(&action, &html),
        links(&[("a", "https://s/a"), ("b", "https://s/b"), ("c", "https://s/c")])
    );
    let html = "<div class=\"entry-wrapper\"><h2 class=\"entry-title\">\
                <a href=\"https://s/a\" title=\"a\">a</a>\
                <a href=\"https://s/untitled\">x</a>\
                <a title=\"nowhere\">y</a>\
                <a href=\"https://s/d\" title=\"d\">d</a>\
                </h2></div>\
                <h2 class=\"entry-title\"><a href=\"https://s/outside\" title=\"outside\">o</a></h2>";
    let found = answer(&action, html);
    assert_eq!(
        found,
        Event::Links(Some(vec![
            (Some("a".to_string()), Some("https://s/a".to_string())),
            (None, Some("https://s/untitled".to_string())),
            (Some("nowhere".to_string()), None),
            (Some("d".to_string()), Some("https://s/d".to_string())),
        ]))
    );
    assert_eq!(cos.step(found), Action::Pause(PAGE_PAUSE_MS));
    assert_eq!(cos.queued(), 2);
}

#[test]
fn selectors_find_the_media_of_an_item_page() {
    let mut cos = Cos::new("/out".to_string(), None);
    cos.produce_by_page("tag", 1);
    cos.step(label("1"));
    cos.step(links(&[("a", "https://s/a")]));
    cos.step(Event::Woke);
    let action = cos.step(Event::Exists(false));
    let html = item_page(&["https://i/1.jpg", "https://i/2.jpg"], &["https://v/1.mp4"]);
    assert_eq!(
        answer(&action, &html),
        media(&["https://i/1.jpg", "https://i/2.jpg"], &["https://v/1.mp4"])
    );
    assert_eq!(answer(&action, "<p>no media</p>"), media(&[], &[]));
    let html = "<div class=\"gallery-icon\"><a>no target</a><a href=\"https://i/3.jpg\">x</a></div>\
                <div class=\"gallery-icon\"><p><a href=\"https://i/nested.jpg\">deep</a></p></div>";
    assert_eq!(
        answer(&action, html),
        Event::Media(Some((vec![None, Some("https://i/3.jpg".to_string())], Vec::new())))
    );
}

#[test]
fn three_items_with_two_images_each_end_to_end() {
    let mut cos = Cos::new("/out".to_string(), None);
    let mut action = cos.produce_by_page("tag", NO_PAGE_LIMIT);
    action = cos.step(answer(&action, &landing("1")));
    let page = listing(&[("a", "https://s/a"), ("b", "https://s/b"), ("c", "https://s/c")]);
    assert_eq!(cos.step(answer(&action, &page)), Action::Pause(PAGE_PAUSE_MS));
    action = cos.step(Event::Woke);
    let mut written = Vec::new();
    loop {
        action = match action {
            Action::Probe(_) => cos.step(Event::Exists(false)),
            Action::Detail { ref request, .. } => {
                let name = request.url.rsplit('/').next().unwrap().to_string();
                let one = format!("https://i/{}1.jpg", name);
                let two = format!("https://i/{}2.jpg", name);
                let page = item_page(&[one.as_str(), two.as_str()], &[]);
                cos.step(answer(&action, &page))
            }
            Action::Write(jobs) => {
                for job in jobs {
                    let manifest = download_files(&job.kind, job.urls);
                    written.push((job.dir.title, job.category, manifest.lines.concat()));
                }
                cos.step(Event::Written)
            }
            Action::Pause(ms) => {
                assert_eq!(ms, ITEM_PAUSE_MS);
                cos.step(Event::Woke)
            }
            Action::Finished(outcome) => {
                assert_eq!(outcome, Outcome::Completed);
                break;
            }
            other => panic!("unexpected {:?}", other),
        };
    }
    let manifest = |t: &str| {
        (t.to_string(), "imgs".to_string(), format!("https://i/{}1.jpg\nhttps://i/{}2.jpg\n", t, t))
    };
    assert_eq!(written, vec![manifest("a"), manifest("b"), manifest("c")]);
}
