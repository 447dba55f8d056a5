use qbittorrent::client::{check_status, session_cookie, ApiRequest, HttpMethod, RequestBody, Session};
use qbittorrent::common::{GetTorrentListParams, TorrentListFilter};
use qbittorrent::error::ClientError;
use qbittorrent::torrent::TorrentInfo;
use qbittorrent::upload::TorrentUpload;

const URL: &str = "http://localhost:8080";

fn torrent(hash: &str) -> TorrentInfo {
    TorrentInfo { hash: hash.to_string(), ..TorrentInfo::default() }
}

fn logged_in() -> Session {
    let mut session = Session::new();
    session
        .finish_login(URL, "admin", "adminadmin", 200, "Ok.", Some("SID=abc123;Path=/"))
        .unwrap();
    session
}

fn form(request: &ApiRequest) -> Vec<(String, String)> {
    match &request.body {
        RequestBody::Form(fields) => fields.clone(),
        _ => panic!("expected form fields"),
    }
}

fn pair(name: &str, value: &str) -> (String, String) {
    (name.to_string(), value.to_string())
}

fn is_authorization<T>(r: &Result<T, ClientError>) -> bool {
    matches!(r, Err(ClientError::Authorization))
}

#[test]
fn login_stores_cookie_and_connection() {
    let session = logged_in();
    assert!(session.is_authenticated());
    assert_eq!(session.auth_string(), Some("SID=abc123"));
    let conn = session.connection_info().unwrap();
    assert_eq!(conn.url, URL);
    assert_eq!(conn.username, "admin");
    assert_eq!(conn.password, "adminadmin");
}

#[test]
fn login_request_carries_credentials() {
    let request = Session::login_request(URL, "admin", "adminadmin");
    assert_eq!(request.method, HttpMethod::Post);
    assert_eq!(request.url, "http://localhost:8080/api/v2/auth/login");
    assert_eq!(request.cookie, None);
    assert_eq!(form(&request), vec![pair("username", "admin"), pair("password", "adminadmin")]);
}

#[test]
fn login_refused_body_is_authorization_error() {
    let mut session = Session::new();
    let r = session.finish_login(URL, "admin", "wrong", 200, "Fails.", Some("SID=x"));
    assert!(is_authorization(&r));
    assert!(!session.is_authenticated());
    assert_eq!(session.auth_string(), None);
    assert!(session.connection_info().is_none());

    let r = session.finish_login(URL, "admin", "wrong", 403, "Forbidden", None);
    assert!(is_authorization(&r));
    assert!(!session.is_authenticated());
}

#[test]
fn failed_relogin_keeps_previous_session() {
    let mut session = logged_in();
    let r = session.finish_login("http://other:1", "bob", "pw", 200, "Fails.", Some("SID=new"));
    assert!(is_authorization(&r));
    assert_eq!(session.auth_string(), Some("SID=abc123"));
    assert_eq!(session.connection_info().unwrap().url, URL);
}

#[test]
fn successful_relogin_replaces_session() {
    let mut session = logged_in();
    session
        .finish_login("http://other:1", "bob", "pw", 200, "Ok.", Some("SID=new"))
        .unwrap();
    assert_eq!(session.auth_string(), Some("SID=new"));
    let conn = session.connection_info().unwrap();
    assert_eq!(conn.url, "http://other:1");
    assert_eq!(conn.username, "bob");
    assert_eq!(conn.password, "pw");
}

#[test]
fn login_error_status_with_ok_body() {
    let mut session = Session::new();
    let r = session.finish_login(URL, "admin", "adminadmin", 500, "Ok.", Some("SID=x"));
    assert!(matches!(r, Err(ClientError::Status(500))));
    assert!(!session.is_authenticated());
}

#[test]
fn login_without_session_cookie_is_decode_error() {
    let mut session = Session::new();
    let r = session.finish_login(URL, "admin", "adminadmin", 200, "Ok.", Some("Path=/;HttpOnly"));
    assert!(matches!(r, Err(ClientError::MissingSessionCookie)));
    let r = session.finish_login(URL, "admin", "adminadmin", 200, "Ok.", None);
    assert!(matches!(r, Err(ClientError::MissingSessionCookie)));
    assert!(!session.is_authenticated());
}

#[test]
fn session_cookie_segments() {
    assert_eq!(session_cookie("SID=abc123;Path=/"), Some("SID=abc123".to_string()));
    assert_eq!(session_cookie("a=1;SID=xyz;b"), Some("SID=xyz".to_string()));
    assert_eq!(session_cookie("SID=first;SID=second"), Some("SID=first".to_string()));
    assert_eq!(session_cookie("SID="), Some("SID=".to_string()));
    assert_eq!(session_cookie("SI"), None);
    assert_eq!(session_cookie(""), None);
    assert_eq!(session_cookie("Path=/; SID=x"), None);
}

#[test]
fn operations_before_login_are_refused() {
    let session = Session::new();
    assert!(!session.is_authenticated());
    let t = torrent("a");
    let params = GetTorrentListParams::builder().build();
    let mut upload = TorrentUpload::builder();
    upload.url("u".to_string());
    assert!(is_authorization(&session.torrent_list_request(&params)));
    assert!(is_authorization(&session.torrent_trackers_request(&t)));
    assert!(is_authorization(&session.add_tracker_request(&t, "http://tr")));
    assert!(is_authorization(&session.replace_tracker_request(&t, "a", "b")));
    assert!(is_authorization(&session.remove_tracker_request(&t, "http://tr")));
    assert!(is_authorization(&session.add_torrent_request(upload.build())));
    assert!(is_authorization(&session.remove_torrent_request(&t, true)));
    assert!(is_authorization(&session.remove_torrents_request(&vec![t], false)));
    assert!(is_authorization(&session.tags_request()));
    assert!(is_authorization(&session.create_tag_request("x")));
    assert!(is_authorization(&session.delete_tag_request("x")));
}

#[test]
fn remove_torrents_joins_hashes() {
    let session = logged_in();
    let torrents = vec![torrent("a"), torrent("b"), torrent("c")];
    let request = session.remove_torrents_request(&torrents, true).unwrap();
    assert_eq!(request.method, HttpMethod::Post);
    assert_eq!(request.url, "http://localhost:8080/api/v2/torrents/delete");
    assert_eq!(request.cookie, Some("SID=abc123".to_string()));
    assert_eq!(form(&request), vec![pair("hashes", "a|b|c"), pair("deleteFiles", "true")]);
}

#[test]
fn remove_single_torrent() {
    let session = logged_in();
    let request = session.remove_torrent_request(&torrent("h1"), false).unwrap();
    assert_eq!(form(&request), vec![pair("hashes", "h1"), pair("deleteFiles", "false")]);
    let request = session.remove_torrents_request(&Vec::new(), false).unwrap();
    assert_eq!(form(&request), vec![pair("hashes", ""), pair("deleteFiles", "false")]);
}

#[test]
fn torrent_list_request_carries_query() {
    let session = logged_in();
    let params = GetTorrentListParams::builder()
        .filter(TorrentListFilter::Downloading)
        .limit(2)
        .build();
    let request = session.torrent_list_request(&params).unwrap();
    assert_eq!(request.method, HttpMethod::Post);
    assert_eq!(
        request.url,
        "http://localhost:8080/api/v2/torrents/info?&filter=downloading&limit=2"
    );
    assert!(matches!(request.body, RequestBody::Empty));
    let request = session.torrent_list_request(&GetTorrentListParams::builder().build()).unwrap();
    assert_eq!(request.url, "http://localhost:8080/api/v2/torrents/info");
}

#[test]
fn tracker_requests() {
    let session = logged_in();
    let t = torrent("h");
    let request = session.torrent_trackers_request(&t).unwrap();
    assert_eq!(request.url, "http://localhost:8080/api/v2/torrents/trackers");
    assert_eq!(form(&request), vec![pair("hash", "h")]);
    let request = session.add_tracker_request(&t, "http://tr").unwrap();
    assert_eq!(request.url, "http://localhost:8080/api/v2/torrents/addTrackers");
    assert_eq!(form(&request), vec![pair("hash", "h"), pair("urls", "http://tr")]);
    let request = session.replace_tracker_request(&t, "http://a", "http://b").unwrap();
    assert_eq!(request.url, "http://localhost:8080/api/v2/torrents/editTracker");
    assert_eq!(
        form(&request),
        vec![pair("hash", "h"), pair("origUrl", "http://a"), pair("newUrl", "http://b")]
    );
    let request = session.remove_tracker_request(&t, "http://tr").unwrap();
    assert_eq!(request.url, "http://localhost:8080/api/v2/torrents/removeTrackers");
    assert_eq!(form(&request), vec![pair("hash", "h"), pair("urls", "http://tr")]);
}

#[test]
fn tag_requests() {
    let session = logged_in();
    let request = session.tags_request().unwrap();
    assert_eq!(request.method, HttpMethod::Get);
    assert_eq!(request.url, "http://localhost:8080/api/v2/torrents/tags");
    assert_eq!(request.cookie, Some("SID=abc123".to_string()));
    let request = session.create_tag_request("new").unwrap();
    assert_eq!(request.url, "http://localhost:8080/api/v2/torrents/createTags");
    assert_eq!(form(&request), vec![pair("tags", "new")]);
    let request = session.delete_tag_request("old").unwrap();
    assert_eq!(request.url, "http://localhost:8080/api/v2/torrents/deleteTags");
    assert_eq!(form(&request), vec![pair("tags", "old")]);
}

#[test]
fn add_torrent_request_checks_upload() {
    let session = logged_in();
    let empty = TorrentUpload::builder();
    assert!(matches!(
        session.add_torrent_request(empty.build()),
        Err(ClientError::EmptyUpload)
    ));
    let mut upload = TorrentUpload::builder();
    upload.url("magnet:?xt=1".to_string()).paused(true);
    let request = session.add_torrent_request(upload.build()).unwrap();
    assert_eq!(request.url, "http://localhost:8080/api/v2/torrents/add");
    match &request.body {
        RequestBody::Multipart(form) => {
            let names: Vec<&str> = form.parts.iter().map(|p| p.name.as_str()).collect();
            assert_eq!(names, vec!["urls", "paused"]);
        }
        _ => panic!("expected a multipart body"),
    }
}

#[test]
fn status_check() {
    assert!(check_status(200).is_ok());
    assert!(check_status(204).is_ok());
    assert!(check_status(299).is_ok());
    assert!(matches!(check_status(199), Err(ClientError::Status(199))));
    assert!(matches!(check_status(300), Err(ClientError::Status(300))));
    assert!(matches!(check_status(404), Err(ClientError::Status(404))));
}
