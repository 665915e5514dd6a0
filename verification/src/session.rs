//! The session that a crawl runs in: a cookie jar restored from what the last
//! run saved, and the requests that every exchange with the site is made of.
//!
//! The jar is a `cookie_store::CookieStore`. Reading and writing its file,
//! and sending the requests described here, is the driver's part.

use vstd::prelude::*;
use vstd::multiset::Multiset;
use vstd::string::*;
use cookie_store::CookieStore;
use crate::text::{contains_bytes, contains_text, lines_of, text_view};

verus! {

/// Makes `cookie_store::CookieStore` known as a type. Nothing inside a jar
/// is visible here; what is said of jars goes through the names below.
#[verifier::external_type_specification]
#[verifier::external_body]
pub struct ExCookieStore(cookie_store::CookieStore);

/// What names a cookie in a jar: its domain, its path and its name, the
/// three keys under which `cookie_store` files it.
pub type CookieKey = (Seq<char>, Seq<char>, Seq<char>);

/// The cookies that a jar holds, expired and non-persistent ones included.
pub uninterp spec fn jar_cookies(jar: CookieStore) -> Set<CookieKey>;

/// The JSON text of each cookie that a jar holds, expired and non-persistent
/// ones included, as `serde_json` writes it on one line.
pub uninterp spec fn jar_lines(jar: CookieStore) -> Multiset<Seq<u8>>;

/// Whether the jar can be saved: every cookie of it can be put into its
/// line of JSON. A cookie cannot where the expiry of its `Set-Cookie` data,
/// moved to UTC, leaves the dates that the `time` crate holds: the cookie's
/// `Display` panics there. An expiry that is in UTC already is not moved.
pub uninterp spec fn jar_writable(jar: CookieStore) -> bool;

/// For each cookie that a jar holds, how far the expiry of its `Set-Cookie`
/// data is from UTC, in seconds; `None` for a cookie without one.
pub uninterp spec fn jar_offsets(jar: CookieStore) -> Multiset<Option<i32>>;

/// What `CookieStore::load_json` makes of the bytes `saved`: `None` if it
/// refuses them; otherwise the cookies that their lines write, by the keys
/// under which a jar files them.
pub uninterp spec fn saved_cookies(saved: Seq<u8>) -> Option<Set<CookieKey>>;

/// Among the cookies that the lines of `saved` write, those without an
/// expiry, which therefore never expire; empty if `CookieStore::load_json`
/// refuses the bytes.
pub uninterp spec fn saved_lasting(saved: Seq<u8>) -> Set<CookieKey>;

/// Whether `CookieStore::load_json` makes a jar of the bytes `saved`.
pub open spec fn jar_accepted(saved: Seq<u8>) -> bool {
    saved_cookies(saved) is Some
}

/// Whether the jar holds no cookie.
pub open spec fn jar_is_empty(jar: CookieStore) -> bool {
    jar_cookies(jar) == Set::<CookieKey>::empty()
}

/// Whether every expiry in the jar is in UTC.
pub open spec fn jar_in_utc(jar: CookieStore) -> bool {
    forall|offset: Option<i32>| #[trigger]
        jar_offsets(jar).count(offset) > 0 ==> offset is None || offset == Some(0i32)
}

/// What is known of a jar restored from the bytes `saved`: it holds every
/// cookie of them that never expires, and no cookie that they do not write.
/// Which of the others it holds depends on the time of the restoring.
pub open spec fn restores(saved: Seq<u8>, jar: CookieStore) -> bool {
    &&& saved_lasting(saved).subset_of(jar_cookies(jar))
    &&& saved_cookies(saved) matches Some(written) && jar_cookies(jar).subset_of(written)
}

/// The lines of a saved jar.
pub open spec fn saved_lines(saved: Seq<u8>) -> Seq<Seq<u8>> {
    lines_of(saved, 0x0au8)
}

/// What a jar gives when it is saved: the lines of the bytes are the JSON
/// texts of its cookies, each once, in some order, and only an empty jar
/// gives no bytes.
pub open spec fn saves_as(jar: CookieStore, saved: Seq<u8>) -> bool {
    &&& saved_lines(saved).to_multiset() == jar_lines(jar)
    &&& saved.len() == 0 <==> jar_is_empty(jar)
}

/// Calls `CookieStore::default`.
///
/// Trusted: the jar it returns holds no cookie, and so can be written.
#[verifier::external_body]
fn empty_jar() -> (jar: CookieStore)
    ensures
        jar_cookies(jar) == Set::<CookieKey>::empty(),
        jar_writable(jar),
{
    CookieStore::default()
}

/// Calls `CookieStore::load_json` on `saved`, and drops the error's detail.
///
/// Trusted: whether a jar comes back depends on the bytes alone. The jar
/// holds no cookie but those that the lines write, and every one of them
/// that has no expiry: only a cookie that has expired by now is left out,
/// which depends on the clock, so no more is claimed. Its cookies come out
/// of the cookie parser with their expiry in UTC, so the jar can be saved.
#[verifier::external_body]
fn load_jar(saved: &Vec<u8>) -> (jar: Option<CookieStore>)
    ensures
        jar is Some == saved_cookies(saved@) is Some,
        jar matches Some(j) ==> jar_writable(j),
        jar matches Some(j) ==> jar_cookies(j).subset_of(saved_cookies(saved@)->0),
        jar matches Some(j) ==> saved_lasting(saved@).subset_of(jar_cookies(j)),
{
    CookieStore::load_json(saved.as_slice()).ok()
}

/// Calls `CookieStore::save_incl_expired_and_nonpersistent_json` with a
/// vector as the writer, and drops the error's detail.
///
/// Trusted: on a jar that can be saved the call returns the bytes. Every
/// cookie of the jar is written as one line of JSON, ended by a line feed
/// and holding none, so that the lines are those of the jar; in which order
/// is not claimed, it follows the walk of a hash map. Only a jar without
/// cookies gives no bytes.
#[verifier::external_body]
fn jar_json(jar: &CookieStore) -> (saved: Option<Vec<u8>>)
    requires
        jar_writable(*jar),
    ensures
        saved is Some,
        saved matches Some(bytes) ==> saved_lines(bytes@).to_multiset() == jar_lines(*jar),
        saved matches Some(bytes) ==> (bytes@.len() == 0 <==> jar_cookies(*jar) == Set::<
            CookieKey,
        >::empty()),
{
    let mut out: Vec<u8> = Vec::new();
    jar.save_incl_expired_and_nonpersistent_json(&mut out).ok().map(|_| out)
}

/// Calls `CookieStore::iter_any` and, on each cookie, `expires_datetime`,
/// then `offset` and `whole_seconds` on the expiry if there is one.
///
/// Trusted: the offsets are those of the jar's cookies, in the order of a
/// hash map's walk; and a jar whose expiries are all in UTC can be saved,
/// since none of them has to be moved.
#[verifier::external_body]
fn expiry_offsets(jar: &CookieStore) -> (offsets: Vec<Option<i32>>)
    ensures
        offsets@.to_multiset() == jar_offsets(*jar),
        (forall|i: int|
            0 <= i < offsets.len() ==> (#[trigger] offsets[i]) is None || offsets[i] == Some(0i32))
            ==> jar_writable(*jar),
{
    jar.iter_any().map(|c| c.expires_datetime().map(|t| t.offset().whole_seconds())).collect()
}

/// How many redirects a request may follow.
pub const REDIRECT_LIMIT: usize = 5;

/// The two kinds of request that the crawler sends.
#[derive(Debug, Clone, Copy, PartialEq, Eq)]
pub enum Method {
    Get,
    Post,
}

/// A request for the driver to send.
#[derive(Debug, Clone, PartialEq, Eq)]
pub struct Request {
    pub method: Method,
    pub url: String,
    /// Header names and values, in the order in which they are set.
    pub headers: Vec<(String, String)>,
    /// The body, for a `Post`.
    pub body: Option<String>,
    /// Whether the request insists on HTTP/1.1.
    pub http11: bool,
    /// How many redirects the driver may follow at most for this request.
    pub redirects: usize,
}

/// A request as a mathematical value.
pub struct RequestView {
    pub method: Method,
    pub url: Seq<char>,
    pub headers: Seq<(Seq<char>, Seq<char>)>,
    pub body: Option<Seq<char>>,
    pub http11: bool,
    pub redirects: nat,
}

/// The texts of a list of headers, in order.
pub open spec fn headers_view(v: Seq<(String, String)>) -> Seq<(Seq<char>, Seq<char>)> {
    Seq::new(v.len(), |i: int| (v[i].0@, v[i].1@))
}

impl View for Request {
    type V = RequestView;

    open spec fn view(&self) -> RequestView {
        RequestView {
            method: self.method,
            url: self.url@,
            headers: headers_view(self.headers@),
            body: text_view(self.body),
            http11: self.http11,
            redirects: self.redirects as nat,
        }
    }
}

/// The browser that every request claims to come from.
pub open spec fn user_agent() -> Seq<char> {
    "Mozilla/5.0 (X11; Linux x86_64) AppleWebKit/537.36 (KHTML, like Gecko) Chrome/109.0.0.0 Safari/537.36"@
}

/// The headers that every request carries.
pub open spec fn fixed_headers() -> Seq<(Seq<char>, Seq<char>)> {
    seq![
        ("User-Agent"@, user_agent()),
        ("Referer"@, "https://www.cosjun.cn/"@),
        ("Sec-Ch-Ua-Platform"@, "Linux"@),
        ("Accept_Language"@, "zh-CN,zh;q=0.9"@),
    ]
}

/// The headers of the login form.
pub open spec fn login_headers() -> Seq<(Seq<char>, Seq<char>)> {
    seq![("Content-Type"@, "application/x-www-form-urlencoded; charset=UTF-8"@)] + fixed_headers()
        + seq![("Accept"@, "*/*"@)]
}

/// The `GET` of `url`: the fixed headers, at most five redirects.
pub open spec fn get_request(url: Seq<char>) -> RequestView {
    RequestView {
        method: Method::Get,
        url,
        headers: fixed_headers(),
        body: None,
        http11: false,
        redirects: REDIRECT_LIMIT as nat,
    }
}

/// The login form for `username` and `password`, both sent as they are.
pub open spec fn login_form(username: Seq<char>, password: Seq<char>) -> Seq<char> {
    "action=user_login&username="@ + username + "&password="@ + password
}

/// The `POST` that logs `username` in.
pub open spec fn login_request(username: Seq<char>, password: Seq<char>) -> RequestView {
    RequestView {
        method: Method::Post,
        url: "https://www.cosjun.cn/wp-admin/admin-ajax.php"@,
        headers: login_headers(),
        body: Some(login_form(username, password)),
        http11: true,
        redirects: REDIRECT_LIMIT as nat,
    }
}

/// The address that ends the session on the site.
pub open spec fn logout_url() -> Seq<char> {
    "https://www.cosjun.cn/wp-login.php?action=logout&redirect_to=https%3A%2F%2Fwww.cosjun.cn"@
}

/// What the site's answer to a login holds if, and only if, it let the
/// user in.
pub open spec fn login_marker() -> Seq<char> {
    "\"status\":\"1\""@
}

/// Whether an answer to the login form means that the user is logged in:
/// there is an answer, and the marker stands in it.
pub open spec fn login_accepted(reply: Option<Seq<char>>) -> bool {
    match reply {
        Some(body) => contains_bytes(
            vstd::utf8::encode_utf8(body),
            vstd::utf8::encode_utf8(login_marker()),
        ),
        None => false,
    }
}

fn header(name: &str, value: &str) -> (h: (String, String))
    ensures
        h.0@ == name@,
        h.1@ == value@,
{
    (String::from_str(name), String::from_str(value))
}

fn push_fixed_headers(headers: &mut Vec<(String, String)>)
    ensures
        headers_view(final(headers)@) == headers_view(old(headers)@) + fixed_headers(),
{
    headers.push(
        header(
            "User-Agent",
            "Mozilla/5.0 (X11; Linux x86_64) AppleWebKit/537.36 (KHTML, like Gecko) Chrome/109.0.0.0 Safari/537.36",
        ),
    );
    headers.push(header("Referer", "https://www.cosjun.cn/"));
    headers.push(header("Sec-Ch-Ua-Platform", "Linux"));
    headers.push(header("Accept_Language", "zh-CN,zh;q=0.9"));
    assert(headers_view(headers@) =~= headers_view(old(headers)@) + fixed_headers());
}

/// The cookie jar of a run and where it is kept between runs.
pub struct State {
    cookie_store_path: String,
    cookie_store: CookieStore,
    load_session: bool,
}

/// A session's state as a mathematical value.
pub struct StateView {
    /// The file that the jar is saved to.
    pub path: Seq<char>,
    pub jar: CookieStore,
    /// Whether the jar was restored from a saved one.
    pub loaded: bool,
}

impl View for State {
    type V = StateView;

    closed spec fn view(&self) -> StateView {
        StateView {
            path: self.cookie_store_path@,
            jar: self.cookie_store,
            loaded: self.load_session,
        }
    }
}

impl State {
    /// A state only ever holds a jar that can be written.
    #[verifier::type_invariant]
    spec fn writable(self) -> bool {
        jar_writable(self.cookie_store)
    }

    /// The state for the jar file `cookie_store_path`, of which `saved` is
    /// the content, or `None` if it could not be read.
    ///
    /// This never fails: without a content that `cookie_store` accepts the
    /// jar is empty and the session counts as not restored. A restored jar
    /// holds every cookie of the content that never expires, and none that
    /// the content does not write.
    pub fn try_new(cookie_store_path: String, saved: Option<Vec<u8>>) -> (state: State)
        ensures
            state@.path == cookie_store_path@,
            state@.loaded == (saved matches Some(bytes) && jar_accepted(bytes@)),
            !state@.loaded ==> jar_is_empty(state@.jar),
            state@.loaded ==> restores(saved->0@, state@.jar),
            jar_writable(state@.jar),
    {
        let loaded = match saved {
            Some(bytes) => load_jar(&bytes),
            None => None,
        };
        State::restored(cookie_store_path, loaded)
    }

    /// The state for the jar file `cookie_store_path` and the jar `loaded`
    /// from it, if one was: that jar and a restored session, or else an
    /// empty jar and none. The jar must be one that can be saved, which
    /// [`State::accepts`] tells.
    pub fn restored(cookie_store_path: String, loaded: Option<CookieStore>) -> (state: State)
        requires
            loaded matches Some(jar) ==> jar_writable(jar),
        ensures
            state@.path == cookie_store_path@,
            state@.loaded == loaded is Some,
            loaded matches Some(jar) ==> state@.jar == jar,
            loaded is None ==> jar_is_empty(state@.jar),
            jar_writable(state@.jar),
    {
        match loaded {
            Some(jar) => State { cookie_store_path, cookie_store: jar, load_session: true },
            None => State { cookie_store_path, cookie_store: empty_jar(), load_session: false },
        }
    }

    /// Whether a state takes `jar`: whether every expiry in it is in UTC.
    /// Such a jar can be saved.
    pub fn accepts(jar: &CookieStore) -> (ok: bool)
        ensures
            ok == jar_in_utc(*jar),
            ok ==> jar_writable(*jar),
    {
        let offsets = expiry_offsets(jar);
        proof {
            offsets@.to_multiset_ensures();
        }
        let mut i: usize = 0;
        while i < offsets.len()
            invariant
                i <= offsets.len(),
                offsets@.to_multiset() == jar_offsets(*jar),
                forall|a: Option<i32>|
                    offsets@.contains(a) <==> #[trigger] offsets@.to_multiset().count(a) > 0,
                forall|j: int|
                    0 <= j < i ==> (#[trigger] offsets[j]) is None || offsets[j] == Some(0i32),
            decreases offsets.len() - i,
        {
            match offsets[i] {
                Some(offset) => {
                    if offset != 0 {
                        assert(offsets@.contains(offsets[i as int]));
                        assert(jar_offsets(*jar).count(offsets[i as int]) > 0);
                        return false;
                    }
                },
                None => {},
            }
            i += 1;
        }
        assert forall|offset: Option<i32>| #[trigger]
            jar_offsets(*jar).count(offset) > 0 implies offset is None || offset == Some(0i32) by {
            assert(offsets@.contains(offset));
            let j = choose|j: int| 0 <= j < offsets.len() && offsets[j] == offset;
            assert(offsets[j] is None || offsets[j] == Some(0i32));
        }
        true
    }

    /// Whether the jar was restored from a saved one.
    pub fn have_session(&self) -> (have: bool)
        ensures
            have == self@.loaded,
    {
        self.load_session
    }

    /// The file that the jar is saved to.
    pub fn cookie_store_path(&self) -> (path: &str)
        ensures
            path@ == self@.path,
    {
        self.cookie_store_path.as_str()
    }

    /// The jar.
    pub fn get_cookie_store(&self) -> (jar: &CookieStore)
        ensures
            *jar == self@.jar,
            jar_writable(*jar),
    {
        proof {
            use_type_invariant(self);
        }
        &self.cookie_store
    }

    /// Puts `jar` in place of the jar held so far; path and restored flag
    /// stay. The jar must be one that can be saved.
    pub fn set_cookie_store(&mut self, jar: CookieStore)
        requires
            jar_writable(jar),
        ensures
            final(self)@ == (StateView { jar, ..old(self)@ }),
    {
        self.cookie_store = jar;
    }

    /// Puts `jar` in place of the jar held so far if every expiry in it is
    /// in UTC, and tells whether it did; otherwise nothing changes.
    pub fn adopt(&mut self, jar: CookieStore) -> (taken: bool)
        ensures
            taken == jar_in_utc(jar),
            taken ==> final(self)@ == (StateView { jar, ..old(self)@ }),
            !taken ==> final(self)@ == old(self)@,
            jar_writable(final(self)@.jar),
    {
        proof {
            use_type_invariant(&*self);
        }
        if State::accepts(&jar) {
            self.set_cookie_store(jar);
            true
        } else {
            false
        }
    }

    /// The jar as it is written to its file at the end of a run: every
    /// cookie it holds on a line of its own, the expired and the
    /// non-persistent ones too. The result is always `Some`.
    pub fn save(&self) -> (saved: Option<Vec<u8>>)
        ensures
            saved matches Some(bytes) && saves_as(self@.jar, bytes@),
    {
        proof {
            use_type_invariant(self);
        }
        jar_json(&self.cookie_store)
    }
}

/// A session with the site.
pub struct Session {
    state: State,
}

impl View for Session {
    type V = StateView;

    closed spec fn view(&self) -> StateView {
        self.state@
    }
}

impl Session {
    /// The session whose jar file is `cookie_store_path`, with content
    /// `saved`, or `None` if it could not be read.
    pub fn try_new(cookie_store_path: String, saved: Option<Vec<u8>>) -> (session: Session)
        ensures
            session@.path == cookie_store_path@,
            session@.loaded == (saved matches Some(bytes) && jar_accepted(bytes@)),
            !session@.loaded ==> jar_is_empty(session@.jar),
            session@.loaded ==> restores(saved->0@, session@.jar),
            jar_writable(session@.jar),
    {
        Session { state: State::try_new(cookie_store_path, saved) }
    }

    /// The session around `state`.
    pub fn with_state(state: State) -> (session: Session)
        ensures
            session@ == state@,
            jar_writable(session@.jar),
    {
        proof {
            use_type_invariant(&state);
        }
        Session { state }
    }

    /// The state of the session.
    pub fn state(&self) -> (state: &State)
        ensures
            state@ == self@,
            jar_writable(state@.jar),
    {
        proof {
            use_type_invariant(&self.state);
        }
        &self.state
    }

    /// The jar of the session.
    pub fn get_cookie_store(&self) -> (jar: &CookieStore)
        ensures
            *jar == self@.jar,
            jar_writable(*jar),
    {
        self.state.get_cookie_store()
    }

    /// The request that fetches `url`, with the fixed headers.
    pub fn http_get(&self, url: &str) -> (request: Request)
        ensures
            request@ == get_request(url@),
    {
        let mut headers: Vec<(String, String)> = Vec::new();
        assert(headers_view(headers@) =~= Seq::<(Seq<char>, Seq<char>)>::empty());
        push_fixed_headers(&mut headers);
        assert(headers_view(headers@) =~= fixed_headers());
        Request {
            method: Method::Get,
            url: String::from_str(url),
            headers,
            body: None,
            http11: false,
            redirects: REDIRECT_LIMIT,
        }
    }

    /// The request that logs in, or `None` if the session was restored and
    /// needs none.
    pub fn login(&self, username: &str, password: &str) -> (request: Option<Request>)
        ensures
            request is None <==> self@.loaded,
            request matches Some(r) ==> r@ == login_request(username@, password@),
    {
        if self.state.have_session() {
            return None;
        }
        let mut form = String::from_str("action=user_login&username=");
        form.append(username);
        form.append("&password=");
        form.append(password);
        assert(form@ =~= login_form(username@, password@));
        let mut headers: Vec<(String, String)> = Vec::new();
        headers.push(header("Content-Type", "application/x-www-form-urlencoded; charset=UTF-8"));
        assert(headers_view(headers@) =~= seq![
            ("Content-Type"@, "application/x-www-form-urlencoded; charset=UTF-8"@),
        ]);
        push_fixed_headers(&mut headers);
        let ghost filled = headers_view(headers@);
        headers.push(header("Accept", "*/*"));
        assert(headers_view(headers@) =~= filled + seq![("Accept"@, "*/*"@)]);
        assert(headers_view(headers@) =~= login_headers());
        Some(
            Request {
                method: Method::Post,
                url: String::from_str("https://www.cosjun.cn/wp-admin/admin-ajax.php"),
                headers,
                body: Some(form),
                http11: true,
                redirects: REDIRECT_LIMIT,
            },
        )
    }

    /// Whether the user is logged in, given what came back for the request
    /// of [`Session::login`], if one was sent: the body of the answer, or
    /// `None` if the exchange failed.
    pub fn logged_in(&self, reply: Option<&str>) -> (ok: bool)
        ensures
            ok == (self@.loaded || login_accepted(
                match reply {
                    Some(body) => Some(body@),
                    None => None,
                },
            )),
    {
        if self.state.have_session() {
            return true;
        }
        match reply {
            Some(body) => contains_text(body, "\"status\":\"1\""),
            None => false,
        }
    }

    /// The request that ends the session on the site.
    pub fn logout(&self) -> (request: Request)
        ensures
            request@ == get_request(logout_url()),
    {
        self.http_get(
            "https://www.cosjun.cn/wp-login.php?action=logout&redirect_to=https%3A%2F%2Fwww.cosjun.cn",
        )
    }
}

} // verus!
