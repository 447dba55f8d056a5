//! The session with the server: its login state, the requests of each remote
//! operation, and what is made of the server's answers.

use vstd::prelude::*;

use crate::common::GetTorrentListParams;
use crate::error::ClientError;
use crate::text::{bool_text, join, opt_text, push_bool, push_joined, text_eq, views};
use crate::torrent::TorrentInfo;
use crate::upload::{PartContent, MultipartForm, TorrentUpload};

verus! {

/// Where and as whom a session logged in.
pub struct ConnectionInfo {
    pub url: String,
    pub username: String,
    pub password: String,
}

/// The HTTP method of a request.
#[derive(Debug, Clone, Copy, PartialEq, Eq, Structural)]
pub enum HttpMethod {
    Get,
    Post,
}

/// The body of a request.
#[derive(Debug)]
pub enum RequestBody {
    /// No body.
    Empty,
    /// Form fields, sent URL-encoded, in order.
    Form(Vec<(String, String)>),
    /// A multipart form.
    Multipart(MultipartForm),
}

/// A request to the server: what the transport is to send.
#[derive(Debug)]
pub struct ApiRequest {
    pub method: HttpMethod,
    /// The full URL, with the query string if there is one.
    pub url: String,
    /// The session cookie to send, verbatim.
    pub cookie: Option<String>,
    pub body: RequestBody,
}

/// The body of a request as plain values.
pub enum BodyView {
    Empty,
    Form(Seq<(Seq<char>, Seq<char>)>),
    Multipart(Seq<(Seq<char>, PartContent)>),
}

/// A request as plain values.
pub struct RequestView {
    pub method: HttpMethod,
    pub url: Seq<char>,
    pub cookie: Option<Seq<char>>,
    pub body: BodyView,
}

/// The views of a list of form fields.
pub open spec fn fields_view(fields: Seq<(String, String)>) -> Seq<(Seq<char>, Seq<char>)> {
    fields.map_values(|f: (String, String)| (f.0@, f.1@))
}

impl View for ApiRequest {
    type V = RequestView;

    open spec fn view(&self) -> RequestView {
        RequestView {
            method: self.method,
            url: self.url@,
            cookie: opt_text(self.cookie),
            body: match self.body {
                RequestBody::Empty => BodyView::Empty,
                RequestBody::Form(f) => BodyView::Form(fields_view(f@)),
                RequestBody::Multipart(m) => BodyView::Multipart(m@),
            },
        }
    }
}

/// The login state of a session as plain values: where and as whom it logged
/// in (URL, user name, password), and its session cookie.
pub struct SessionView {
    pub connection: Option<(Seq<char>, Seq<char>, Seq<char>)>,
    pub token: Option<Seq<char>>,
}

impl SessionView {
    /// Whether the session may make authenticated requests: it holds both a
    /// session cookie and the connection it was given for.
    pub open spec fn is_authenticated(self) -> bool {
        self.connection is Some && self.token is Some
    }

    /// The authenticated request `method path` with `body`, sent with the session cookie.
    pub open spec fn request(self, method: HttpMethod, path: Seq<char>, body: BodyView) -> RequestView {
        RequestView {
            method,
            url: (self.connection->0).0 + path,
            cookie: self.token,
            body,
        }
    }

    /// Whether `r` is what an authenticated operation owes: the request `method path`
    /// with `body` when the session has logged in, an authorization error otherwise.
    pub open spec fn answers(
        self,
        r: Result<ApiRequest, ClientError>,
        method: HttpMethod,
        path: Seq<char>,
        body: BodyView,
    ) -> bool {
        match r {
            Ok(req) => self.is_authenticated() && req@ == self.request(method, path, body),
            Err(e) => !self.is_authenticated() && e is Authorization,
        }
    }
}

/// A session that has not logged in answers every authenticated operation with an
/// authorization error, and so with no request to send.
pub proof fn lemma_refused_before_login(
    s: SessionView,
    r: Result<ApiRequest, ClientError>,
    method: HttpMethod,
    path: Seq<char>,
    body: BodyView,
)
    requires
        !s.is_authenticated(),
        s.answers(r, method, path, body),
    ensures
        r is Err,
        r->Err_0 is Authorization,
{
}

/// The path of the torrent list, with the encoded query when there is one.
pub open spec fn list_path(query: Seq<char>) -> Seq<char> {
    if query.len() == 0 {
        "/api/v2/torrents/info"@
    } else {
        "/api/v2/torrents/info"@ + "?"@ + query
    }
}

/// The hashes of a list of torrents, in order.
pub open spec fn hashes_of(torrents: Seq<TorrentInfo>) -> Seq<Seq<char>> {
    torrents.map_values(|t: TorrentInfo| t.hash@)
}

/// The segments of `s` between its `;` separators, in order (one segment when
/// there is no separator).
pub open spec fn split_segments(s: Seq<char>) -> Seq<Seq<char>>
    decreases s.len(),
{
    if s.len() == 0 {
        seq![Seq::empty()]
    } else {
        let init = split_segments(s.drop_last());
        if s.last() == ';' {
            init.push(Seq::empty())
        } else {
            init.update(init.len() - 1, init.last().push(s.last()))
        }
    }
}

/// Whether `s` begins with `prefix`.
pub open spec fn has_prefix(s: Seq<char>, prefix: Seq<char>) -> bool {
    prefix.len() <= s.len() && s.take(prefix.len() as int) == prefix
}

/// The first of `segments` that begins with `prefix`, if there is one.
pub open spec fn first_with_prefix(segments: Seq<Seq<char>>, prefix: Seq<char>) -> Option<Seq<char>>
    decreases segments.len(),
{
    if segments.len() == 0 {
        None
    } else if has_prefix(segments[0], prefix) {
        Some(segments[0])
    } else {
        first_with_prefix(segments.drop_first(), prefix)
    }
}

/// The session cookie in a `Set-Cookie` header: its first `;`-separated segment
/// that begins with `SID=`.
pub open spec fn session_cookie_of(header: Seq<char>) -> Option<Seq<char>> {
    first_with_prefix(split_segments(header), "SID="@)
}

/// The body with which the server accepts a login.
pub open spec fn login_accepted() -> Seq<char> {
    "Ok."@
}

/// Whether `status` is a success status.
pub open spec fn is_success(status: u16) -> bool {
    200 <= status <= 299
}

proof fn lemma_first_with_prefix_push(segments: Seq<Seq<char>>, x: Seq<char>, prefix: Seq<char>)
    ensures
        first_with_prefix(segments.push(x), prefix) == match first_with_prefix(segments, prefix) {
            Some(found) => Some(found),
            None => if has_prefix(x, prefix) {
                Some(x)
            } else {
                None
            },
        },
    decreases segments.len(),
{
    if segments.len() > 0 {
        assert(segments.push(x)[0] == segments[0]);
        assert(segments.push(x).drop_first() =~= segments.drop_first().push(x));
        lemma_first_with_prefix_push(segments.drop_first(), x, prefix);
    } else {
        assert(segments.push(x)[0] == x);
        assert(segments.push(x).drop_first() =~= Seq::<Seq<char>>::empty());
        assert(first_with_prefix(Seq::<Seq<char>>::empty(), prefix) is None);
    }
}

fn chars_of(s: &str) -> (r: Vec<char>)
    ensures
        r@ == s@,
{
    let mut r: Vec<char> = Vec::new();
    for c in it: s.chars()
        invariant
            it.seq() == s@,
            r@ == s@.take(it.index() as int),
    {
        r.push(c);
        assert(r@ =~= s@.take(it.index() + 1));
    }
    assert(r@ =~= s@);
    r
}

fn starts_with_sid(chars: &Vec<char>, start: usize, end: usize) -> (r: bool)
    requires
        start <= end <= chars@.len(),
    ensures
        r == has_prefix(chars@.subrange(start as int, end as int), "SID="@),
{
    proof {
        reveal_strlit("SID=");
    }
    let ghost seg = chars@.subrange(start as int, end as int);
    if end - start < 4 {
        return false;
    }
    let r = chars[start] == 'S' && chars[start + 1] == 'I' && chars[start + 2] == 'D' && chars[start
        + 3] == '=';
    assert("SID="@ =~= seq!['S', 'I', 'D', '=']);
    assert(seg.take(4)[0] == seg[0] && seg.take(4)[1] == seg[1] && seg.take(4)[2] == seg[2]
        && seg.take(4)[3] == seg[3]);
    assert(r ==> seg.take(4) =~= "SID="@);
    r
}

/// Finds the session cookie in a `Set-Cookie` header: the first segment between
/// `;` separators that begins with `SID=`, as it stands.
pub fn session_cookie(header: &str) -> (r: Option<String>)
    ensures
        opt_text(r) == session_cookie_of(header@),
{
    let chars = chars_of(header);
    let n = chars.len();
    let ghost s = header@;
    let mut found: Option<String> = None;
    let mut start: usize = 0;
    let mut i: usize = 0;
    let ghost mut done: Seq<Seq<char>> = Seq::empty();
    assert(s.take(0) =~= Seq::<char>::empty());
    assert(s.subrange(0, 0) =~= Seq::<char>::empty());
    assert(split_segments(s.take(0)) =~= done.push(s.subrange(0, 0)));
    while i < n
        invariant
            s == header@,
            chars@ == s,
            n == s.len(),
            start <= i <= n,
            split_segments(s.take(i as int)) == done.push(s.subrange(start as int, i as int)),
            opt_text(found) == first_with_prefix(done, "SID="@),
        decreases n - i,
    {
        let ghost cur = s.subrange(start as int, i as int);
        let ghost init = split_segments(s.take(i as int));
        assert(s.take(i + 1).drop_last() =~= s.take(i as int));
        assert(s.take(i + 1).last() == s[i as int]);
        assert(init.last() == cur);
        if chars[i] == ';' {
            if found.is_none() && starts_with_sid(&chars, start, i) {
                let segment = header.substring_char(start, i);
                found = Some(segment.to_string());
            }
            proof {
                lemma_first_with_prefix_push(done, cur, "SID="@);
                done = done.push(cur);
            }
            start = i + 1;
            assert(s.subrange(start as int, i + 1) =~= Seq::<char>::empty());
            assert(split_segments(s.take(i + 1)) =~= done.push(s.subrange(start as int, i + 1)));
        } else {
            assert(s.subrange(start as int, i + 1) =~= cur.push(s[i as int]));
            assert(split_segments(s.take(i + 1)) =~= done.push(s.subrange(start as int, i + 1)));
        }
        i = i + 1;
    }
    assert(s.take(n as int) =~= s);
    proof {
        lemma_first_with_prefix_push(done, s.subrange(start as int, n as int), "SID="@);
    }
    if found.is_none() && starts_with_sid(&chars, start, n) {
        let segment = header.substring_char(start, n);
        found = Some(segment.to_string());
    }
    found
}


/// The answer to a request whose body is of no interest: success for a status in
/// `200..=299`, a transport error for any other.
pub fn check_status(status: u16) -> (r: Result<(), ClientError>)
    ensures
        r is Ok <==> is_success(status),
        r is Err ==> r == Err::<(), ClientError>(ClientError::Status(status)),
{
    if 200 <= status && status <= 299 {
        Ok(())
    } else {
        Err(ClientError::Status(status))
    }
}

fn form_field(key: &str, value: &str) -> (r: (String, String))
    ensures
        r.0@ == key@,
        r.1@ == value@,
{
    (key.to_string(), value.to_string())
}

fn url_of(base: &str, path: &str) -> (r: String)
    ensures
        r@ == base@ + path@,
{
    let mut url = base.to_string();
    url.append(path);
    url
}

/// An HTTP session with the server: the connection it logged in with and its
/// session cookie, both absent until a login succeeds.
pub struct Session {
    connection_info: Option<ConnectionInfo>,
    auth_string: Option<String>,
}

impl View for Session {
    type V = SessionView;

    closed spec fn view(&self) -> SessionView {
        SessionView {
            connection: match self.connection_info {
                Some(c) => Some((c.url@, c.username@, c.password@)),
                None => None,
            },
            token: opt_text(self.auth_string),
        }
    }
}

impl Session {
    /// A session that has not logged in.
    pub fn new() -> (r: Session)
        ensures
            r@.connection is None,
            r@.token is None,
            !r@.is_authenticated(),
    {
        Session { connection_info: None, auth_string: None }
    }

    /// Whether the session may make authenticated requests.
    pub fn is_authenticated(&self) -> (r: bool)
        ensures
            r == self@.is_authenticated(),
    {
        self.connection_info.is_some() && self.auth_string.is_some()
    }

    /// The session cookie, once a login has succeeded.
    pub fn auth_string(&self) -> (r: Option<&str>)
        ensures
            match r {
                Some(t) => self@.token == Some(t@),
                None => self@.token is None,
            },
    {
        match &self.auth_string {
            Some(t) => Some(t.as_str()),
            None => None,
        }
    }

    /// The connection the session logged in with, once a login has succeeded.
    pub fn connection_info(&self) -> (r: Option<&ConnectionInfo>)
        ensures
            match r {
                Some(c) => self@.connection == Some((c.url@, c.username@, c.password@)),
                None => self@.connection is None,
            },
    {
        match &self.connection_info {
            Some(c) => Some(c),
            None => None,
        }
    }

    /// The login request: the user name and password as form fields.
    pub fn login_request(url: &str, username: &str, password: &str) -> (r: ApiRequest)
        ensures
            r@ == (RequestView {
                method: HttpMethod::Post,
                url: url@ + "/api/v2/auth/login"@,
                cookie: None,
                body: BodyView::Form(seq![("username"@, username@), ("password"@, password@)]),
            }),
    {
        let mut fields: Vec<(String, String)> = Vec::new();
        fields.push(form_field("username", username));
        fields.push(form_field("password", password));
        assert(fields_view(fields@) =~= seq![("username"@, username@), ("password"@, password@)]);
        ApiRequest {
            method: HttpMethod::Post,
            url: url_of(url, "/api/v2/auth/login"),
            cookie: None,
            body: RequestBody::Form(fields),
        }
    }

    /// Takes in the server's answer to the login request for `url`, `username` and
    /// `password`. The login succeeds only when the body is exactly `Ok.`, whatever
    /// the status; then a status outside `200..=299` is a transport error, and a
    /// `Set-Cookie` header without a `SID=` segment is a decode error. On success
    /// the session holds that segment as its cookie and the given connection, in
    /// place of any it held; on failure it is left as it was.
    pub fn finish_login(
        &mut self,
        url: &str,
        username: &str,
        password: &str,
        status: u16,
        body: &str,
        set_cookie: Option<&str>,
    ) -> (r: Result<(), ClientError>)
        ensures
            body@ != login_accepted() ==> r == Err::<(), ClientError>(ClientError::Authorization),
            body@ == login_accepted() && !is_success(status) ==> r == Err::<(), ClientError>(
                ClientError::Status(status),
            ),
            body@ == login_accepted() && is_success(status) ==> match set_cookie {
                Some(h) => match session_cookie_of(h@) {
                    Some(token) => r is Ok && final(self)@ == (SessionView {
                        connection: Some((url@, username@, password@)),
                        token: Some(token),
                    }),
                    None => r == Err::<(), ClientError>(ClientError::MissingSessionCookie),
                },
                None => r == Err::<(), ClientError>(ClientError::MissingSessionCookie),
            },
            r is Err ==> final(self)@ == old(self)@,
    {
        if !text_eq(body, "Ok.") {
            return Err(ClientError::Authorization);
        }
        if !(200 <= status && status <= 299) {
            return Err(ClientError::Status(status));
        }
        let token = match set_cookie {
            Some(header) => session_cookie(header),
            None => None,
        };
        match token {
            Some(token) => {
                self.auth_string = Some(token);
                self.connection_info = Some(
                    ConnectionInfo {
                        url: url.to_string(),
                        username: username.to_string(),
                        password: password.to_string(),
                    },
                );
                Ok(())
            },
            None => Err(ClientError::MissingSessionCookie),
        }
    }

    /// The authenticated request `method path` with `body`; an authorization error,
    /// with no request, when the session has not logged in.
    fn authorized(&self, method: HttpMethod, path: &str, body: RequestBody) -> (r: Result<
        ApiRequest,
        ClientError,
    >)
        ensures
            match r {
                Ok(req) => self@.is_authenticated() && req@ == self@.request(
                    method,
                    path@,
                    match body {
                        RequestBody::Empty => BodyView::Empty,
                        RequestBody::Form(f) => BodyView::Form(fields_view(f@)),
                        RequestBody::Multipart(m) => BodyView::Multipart(m@),
                    },
                ),
                Err(e) => !self@.is_authenticated() && e is Authorization,
            },
    {
        match (&self.connection_info, &self.auth_string) {
            (Some(conn), Some(token)) => Ok(
                ApiRequest {
                    method,
                    url: url_of(conn.url.as_str(), path),
                    cookie: Some(token.clone()),
                    body,
                },
            ),
            _ => Err(ClientError::Authorization),
        }
    }

    /// The request for the torrent list, filtered and paged by `params`.
    pub fn torrent_list_request(&self, params: &GetTorrentListParams) -> (r: Result<
        ApiRequest,
        ClientError,
    >)
        ensures
            self@.answers(r, HttpMethod::Post, list_path(params@.query_text()), BodyView::Empty),
    {
        let query = params.to_params();
        let mut path = "/api/v2/torrents/info".to_string();
        if !query.as_str().is_empty() {
            path.append("?");
            path.append(query.as_str());
        }
        self.authorized(HttpMethod::Post, path.as_str(), RequestBody::Empty)
    }

    /// The request for the trackers of `torrent`.
    pub fn torrent_trackers_request(&self, torrent: &TorrentInfo) -> (r: Result<
        ApiRequest,
        ClientError,
    >)
        ensures
            self@.answers(
                r,
                HttpMethod::Post,
                "/api/v2/torrents/trackers"@,
                BodyView::Form(seq![("hash"@, torrent.hash@)]),
            ),
    {
        let mut fields: Vec<(String, String)> = Vec::new();
        fields.push(form_field("hash", torrent.hash.as_str()));
        assert(fields_view(fields@) =~= seq![("hash"@, torrent.hash@)]);
        self.authorized(HttpMethod::Post, "/api/v2/torrents/trackers", RequestBody::Form(fields))
    }

    /// The request that adds the tracker `tracker_url` to `torrent`.
    pub fn add_tracker_request(&self, torrent: &TorrentInfo, tracker_url: &str) -> (r: Result<
        ApiRequest,
        ClientError,
    >)
        ensures
            self@.answers(
                r,
                HttpMethod::Post,
                "/api/v2/torrents/addTrackers"@,
                BodyView::Form(seq![("hash"@, torrent.hash@), ("urls"@, tracker_url@)]),
            ),
    {
        let mut fields: Vec<(String, String)> = Vec::new();
        fields.push(form_field("hash", torrent.hash.as_str()));
        fields.push(form_field("urls", tracker_url));
        assert(fields_view(fields@) =~= seq![("hash"@, torrent.hash@), ("urls"@, tracker_url@)]);
        self.authorized(HttpMethod::Post, "/api/v2/torrents/addTrackers", RequestBody::Form(fields))
    }

    /// The request that replaces the tracker `old_url` of `torrent` by `new_url`.
    pub fn replace_tracker_request(
        &self,
        torrent: &TorrentInfo,
        old_url: &str,
        new_url: &str,
    ) -> (r: Result<ApiRequest, ClientError>)
        ensures
            self@.answers(
                r,
                HttpMethod::Post,
                "/api/v2/torrents/editTracker"@,
                BodyView::Form(
                    seq![("hash"@, torrent.hash@), ("origUrl"@, old_url@), ("newUrl"@, new_url@)],
                ),
            ),
    {
        let mut fields: Vec<(String, String)> = Vec::new();
        fields.push(form_field("hash", torrent.hash.as_str()));
        fields.push(form_field("origUrl", old_url));
        fields.push(form_field("newUrl", new_url));
        assert(fields_view(fields@) =~= seq![
            ("hash"@, torrent.hash@),
            ("origUrl"@, old_url@),
            ("newUrl"@, new_url@),
        ]);
        self.authorized(HttpMethod::Post, "/api/v2/torrents/editTracker", RequestBody::Form(fields))
    }

    /// The request that removes the tracker `tracker_url` from `torrent`.
    pub fn remove_tracker_request(&self, torrent: &TorrentInfo, tracker_url: &str) -> (r: Result<
        ApiRequest,
        ClientError,
    >)
        ensures
            self@.answers(
                r,
                HttpMethod::Post,
                "/api/v2/torrents/removeTrackers"@,
                BodyView::Form(seq![("hash"@, torrent.hash@), ("urls"@, tracker_url@)]),
            ),
    {
        let mut fields: Vec<(String, String)> = Vec::new();
        fields.push(form_field("hash", torrent.hash.as_str()));
        fields.push(form_field("urls", tracker_url));
        assert(fields_view(fields@) =~= seq![("hash"@, torrent.hash@), ("urls"@, tracker_url@)]);
        self.authorized(
            HttpMethod::Post,
            "/api/v2/torrents/removeTrackers",
            RequestBody::Form(fields),
        )
    }

    /// The request that adds the torrents of `upload`: an authorization error when
    /// the session has not logged in, else `EmptyUpload` when the upload names
    /// neither a URL nor a file, else the upload's multipart form.
    pub fn add_torrent_request(&self, upload: &TorrentUpload) -> (r: Result<
        ApiRequest,
        ClientError,
    >)
        ensures
            !self@.is_authenticated() ==> r is Err && r->Err_0 is Authorization,
            self@.is_authenticated() && !upload@.has_source() ==> r is Err && r->Err_0 is EmptyUpload,
            self@.is_authenticated() && upload@.has_source() ==> r is Ok && r->Ok_0@ == self@.request(
                HttpMethod::Post,
                "/api/v2/torrents/add"@,
                BodyView::Multipart(upload@.form_parts()),
            ),
    {
        if !self.is_authenticated() {
            return Err(ClientError::Authorization);
        }
        match upload.to_multipart_form() {
            Ok(form) => self.authorized(
                HttpMethod::Post,
                "/api/v2/torrents/add",
                RequestBody::Multipart(form),
            ),
            Err(e) => Err(e),
        }
    }

    /// The request that removes `torrent`, with its files when `delete_files` holds.
    pub fn remove_torrent_request(&self, torrent: &TorrentInfo, delete_files: bool) -> (r: Result<
        ApiRequest,
        ClientError,
    >)
        ensures
            self@.answers(
                r,
                HttpMethod::Post,
                "/api/v2/torrents/delete"@,
                BodyView::Form(
                    seq![("hashes"@, torrent.hash@), ("deleteFiles"@, bool_text(delete_files))],
                ),
            ),
    {
        let mut flag = String::new();
        push_bool(&mut flag, delete_files);
        let mut fields: Vec<(String, String)> = Vec::new();
        fields.push(form_field("hashes", torrent.hash.as_str()));
        fields.push(form_field("deleteFiles", flag.as_str()));
        assert(fields_view(fields@) =~= seq![
            ("hashes"@, torrent.hash@),
            ("deleteFiles"@, bool_text(delete_files)),
        ]);
        self.authorized(HttpMethod::Post, "/api/v2/torrents/delete", RequestBody::Form(fields))
    }

    /// The request that removes all of `torrents` at once: their hashes joined by
    /// `|` in one field, and `delete_files` for the whole batch.
    pub fn remove_torrents_request(&self, torrents: &Vec<TorrentInfo>, delete_files: bool) -> (r:
        Result<ApiRequest, ClientError>)
        ensures
            self@.answers(
                r,
                HttpMethod::Post,
                "/api/v2/torrents/delete"@,
                BodyView::Form(
                    seq![
                        ("hashes"@, join(hashes_of(torrents@), "|"@)),
                        ("deleteFiles"@, bool_text(delete_files)),
                    ],
                ),
            ),
    {
        let mut hashes: Vec<String> = Vec::new();
        let mut i: usize = 0;
        while i < torrents.len()
            invariant
                i <= torrents.len(),
                views(hashes@) == hashes_of(torrents@).take(i as int),
            decreases torrents.len() - i,
        {
            let ghost prev = hashes@;
            hashes.push(torrents[i].hash.clone());
            assert(views(hashes@) =~= views(prev).push(torrents@[i as int].hash@));
            assert(views(hashes@) =~= hashes_of(torrents@).take(i + 1));
            i = i + 1;
        }
        assert(hashes_of(torrents@).take(i as int) =~= hashes_of(torrents@));
        let mut joined = String::new();
        push_joined(&mut joined, &hashes, "|");
        let mut flag = String::new();
        push_bool(&mut flag, delete_files);
        let mut fields: Vec<(String, String)> = Vec::new();
        fields.push(form_field("hashes", joined.as_str()));
        fields.push(form_field("deleteFiles", flag.as_str()));
        assert(fields_view(fields@) =~= seq![
            ("hashes"@, join(hashes_of(torrents@), "|"@)),
            ("deleteFiles"@, bool_text(delete_files)),
        ]);
        self.authorized(HttpMethod::Post, "/api/v2/torrents/delete", RequestBody::Form(fields))
    }

    /// The request for all tags.
    pub fn tags_request(&self) -> (r: Result<ApiRequest, ClientError>)
        ensures
            self@.answers(r, HttpMethod::Get, "/api/v2/torrents/tags"@, BodyView::Empty),
    {
        self.authorized(HttpMethod::Get, "/api/v2/torrents/tags", RequestBody::Empty)
    }

    /// The request that creates the tag `tag`.
    pub fn create_tag_request(&self, tag: &str) -> (r: Result<ApiRequest, ClientError>)
        ensures
            self@.answers(
                r,
                HttpMethod::Post,
                "/api/v2/torrents/createTags"@,
                BodyView::Form(seq![("tags"@, tag@)]),
            ),
    {
        let mut fields: Vec<(String, String)> = Vec::new();
        fields.push(form_field("tags", tag));
        assert(fields_view(fields@) =~= seq![("tags"@, tag@)]);
        self.authorized(HttpMethod::Post, "/api/v2/torrents/createTags", RequestBody::Form(fields))
    }

    /// The request that deletes the tag `tag`.
    pub fn delete_tag_request(&self, tag: &str) -> (r: Result<ApiRequest, ClientError>)
        ensures
            self@.answers(
                r,
                HttpMethod::Post,
                "/api/v2/torrents/deleteTags"@,
                BodyView::Form(seq![("tags"@, tag@)]),
            ),
    {
        let mut fields: Vec<(String, String)> = Vec::new();
        fields.push(form_field("tags", tag));
        assert(fields_view(fields@) =~= seq![("tags"@, tag@)]);
        self.authorized(HttpMethod::Post, "/api/v2/torrents/deleteTags", RequestBody::Form(fields))
    }
}

} // verus!
