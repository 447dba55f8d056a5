use qbittorrent::error::ClientError;
use qbittorrent::torrent::Decimal;
use qbittorrent::upload::{FormPart, MultipartForm, PartBody, TorrentUpload};

fn text_parts(form: &MultipartForm) -> Vec<(String, String)> {
    form.parts
        .iter()
        .filter_map(|p| match &p.body {
            PartBody::Text(t) => Some((p.name.clone(), t.clone())),
            PartBody::File { .. } => None,
        })
        .collect()
}

fn text_of(form: &MultipartForm, name: &str) -> Option<String> {
    text_parts(form).into_iter().find(|(n, _)| n == name).map(|(_, v)| v)
}

fn pair(name: &str, value: &str) -> (String, String) {
    (name.to_string(), value.to_string())
}

#[test]
fn upload_without_source_fails() {
    let upload = TorrentUpload::builder().category("c".to_string()).build().to_multipart_form();
    assert!(matches!(upload, Err(ClientError::EmptyUpload)));
    let upload = TorrentUpload::builder().build().to_multipart_form();
    assert!(matches!(upload, Err(ClientError::EmptyUpload)));
}

#[test]
fn upload_with_urls_only_succeeds() {
    let mut builder = TorrentUpload::builder();
    builder.url("magnet:?xt=1".to_string()).url("http://x/y.torrent".to_string());
    let form = builder.build().to_multipart_form().unwrap();
    assert_eq!(form.parts.len(), 1);
    assert_eq!(
        text_parts(&form),
        vec![pair("urls", "magnet:?xt=1\nhttp://x/y.torrent")]
    );
}

#[test]
fn upload_with_files_only_succeeds() {
    let mut builder = TorrentUpload::builder();
    builder
        .torrent_data("one.torrent".to_string(), vec![1, 2, 3])
        .torrent_data("two.torrent".to_string(), vec![]);
    let form = builder.build().to_multipart_form().unwrap();
    assert_eq!(form.parts.len(), 2);
    let names: Vec<&str> = form.parts.iter().map(|p| p.name.as_str()).collect();
    assert_eq!(names, vec!["torrents", "torrents"]);
    match &form.parts[0] {
        FormPart { body: PartBody::File { file_name, content_type, data }, .. } => {
            assert_eq!(file_name, "one.torrent");
            assert_eq!(content_type, "application/x-bittorrent");
            assert_eq!(data, &vec![1u8, 2, 3]);
        }
        _ => panic!("expected a file part"),
    }
    match &form.parts[1] {
        FormPart { body: PartBody::File { file_name, data, .. }, .. } => {
            assert_eq!(file_name, "two.torrent");
            assert!(data.is_empty());
        }
        _ => panic!("expected a file part"),
    }
}

#[test]
fn upload_limit_goes_to_up_limit() {
    let mut builder = TorrentUpload::builder();
    builder.url("u".to_string()).upload_limit(500);
    let form = builder.build().to_multipart_form().unwrap();
    assert_eq!(text_of(&form, "upLimit"), Some("500".to_string()));
    assert_eq!(text_parts(&form), vec![pair("urls", "u"), pair("upLimit", "500")]);
}

#[test]
fn every_option_under_its_wire_name() {
    let mut builder = TorrentUpload::builder();
    builder
        .first_last_piece_prio(true)
        .sequential_download(false)
        .auto_tmm(true)
        .seeding_time_limit(3600)
        .ratio_limit(Decimal { millionths: 1_500_000 })
        .download_limit(-1)
        .upload_limit(500)
        .rename("new name".to_string())
        .root_folder(false)
        .paused(true)
        .skip_hash_check(true)
        .tags(vec!["a".to_string(), "b".to_string()])
        .category("movies".to_string())
        .cookie("k=v".to_string())
        .save_path("/data".to_string())
        .url("u".to_string());
    let form = builder.build().to_multipart_form().unwrap();
    assert_eq!(
        text_parts(&form),
        vec![
            pair("urls", "u"),
            pair("savepath", "/data"),
            pair("cookie", "k=v"),
            pair("category", "movies"),
            pair("tags", "a,b"),
            pair("skip_checking", "true"),
            pair("paused", "true"),
            pair("root_folder", "false"),
            pair("rename", "new name"),
            pair("upLimit", "500"),
            pair("dlLimit", "-1"),
            pair("ratioLimit", "1.5"),
            pair("seedingTimeLimit", "3600"),
            pair("autoTMM", "true"),
            pair("sequentialDownload", "false"),
            pair("firstLastPiecePrio", "true"),
        ]
    );
}

#[test]
fn urls_then_files_then_options() {
    let mut builder = TorrentUpload::builder();
    builder
        .paused(false)
        .torrent_data("f.torrent".to_string(), vec![9])
        .url("u".to_string());
    let form = builder.build().to_multipart_form().unwrap();
    let names: Vec<&str> = form.parts.iter().map(|p| p.name.as_str()).collect();
    assert_eq!(names, vec!["urls", "torrents", "paused"]);
}

#[test]
fn appended_tags_accumulate() {
    let mut builder = TorrentUpload::builder();
    builder.url("u".to_string()).tag("a".to_string()).tag("b".to_string()).tag("c".to_string());
    let upload = builder.build();
    assert_eq!(
        upload.tags,
        Some(vec!["a".to_string(), "b".to_string(), "c".to_string()])
    );
    let form = upload.to_multipart_form().unwrap();
    assert_eq!(text_of(&form, "tags"), Some("a,b,c".to_string()));
}

fn ratio_text(millionths: i64) -> Option<String> {
    let mut builder = TorrentUpload::builder();
    builder.url("u".to_string()).ratio_limit(Decimal { millionths });
    text_of(&builder.build().to_multipart_form().unwrap(), "ratioLimit")
}

#[test]
fn ratio_limit_text() {
    assert_eq!(ratio_text(1_500_000), Some("1.5".to_string()));
    assert_eq!(ratio_text(2_000_000), Some("2".to_string()));
    assert_eq!(ratio_text(-1_000_000), Some("-1".to_string()));
    assert_eq!(ratio_text(-2_500_000), Some("-2.5".to_string()));
    assert_eq!(ratio_text(1_250_000), Some("1.25".to_string()));
    assert_eq!(ratio_text(10), Some("0.00001".to_string()));
    assert_eq!(ratio_text(0), Some("0".to_string()));
    assert_eq!(ratio_text(123_456_789), Some("123.456789".to_string()));
    assert_eq!(
        ratio_text(i64::MIN),
        Some("-9223372036854.775808".to_string())
    );
}

#[test]
fn numeric_option_extremes() {
    let mut builder = TorrentUpload::builder();
    builder
        .url("u".to_string())
        .upload_limit(i64::MIN)
        .download_limit(i64::MAX)
        .seeding_time_limit(u64::MAX);
    let form = builder.build().to_multipart_form().unwrap();
    assert_eq!(text_of(&form, "upLimit"), Some("-9223372036854775808".to_string()));
    assert_eq!(text_of(&form, "dlLimit"), Some("9223372036854775807".to_string()));
    assert_eq!(
        text_of(&form, "seedingTimeLimit"),
        Some("18446744073709551615".to_string())
    );
}
