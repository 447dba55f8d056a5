use qbittorrent::common::{GetTorrentListParams, TorrentListFilter};

const ALL_FILTERS: [TorrentListFilter; 12] = [
    TorrentListFilter::All,
    TorrentListFilter::Downloading,
    TorrentListFilter::Seeding,
    TorrentListFilter::Completed,
    TorrentListFilter::Paused,
    TorrentListFilter::Active,
    TorrentListFilter::Inactive,
    TorrentListFilter::Resumed,
    TorrentListFilter::Stalled,
    TorrentListFilter::StalledUploading,
    TorrentListFilter::StalledDownloading,
    TorrentListFilter::Errored,
];

#[test]
fn empty_params_encode_to_nothing() {
    let params = GetTorrentListParams::builder().build();
    assert_eq!(params.to_params(), "");
}

#[test]
fn filter_uses_its_wire_name() {
    let params = GetTorrentListParams::builder()
        .filter(TorrentListFilter::StalledUploading)
        .build();
    assert_eq!(params.to_params(), "&filter=stalled_uploading");
}

#[test]
fn all_fields_in_fixed_order() {
    let params = GetTorrentListParams::builder()
        .hashes(vec!["a".to_string(), "b".to_string()])
        .offset(5)
        .limit(10)
        .reverse()
        .tag("hd")
        .category("movies")
        .filter(TorrentListFilter::All)
        .build();
    assert_eq!(
        params.to_params(),
        "&filter=all&category=movies&tag=hd&reverse=true&limit=10&offset=5&hashes=a|b"
    );
}

#[test]
fn offset_is_encoded_from_offset() {
    let params = GetTorrentListParams::builder().offset(7).build();
    assert_eq!(params.to_params(), "&offset=7");
    let params = GetTorrentListParams::builder().limit(3).build();
    assert_eq!(params.to_params(), "&limit=3");
}

#[test]
fn negative_and_extreme_numbers() {
    let params = GetTorrentListParams::builder().limit(-1).offset(i32::MIN).build();
    assert_eq!(params.to_params(), "&limit=-1&offset=-2147483648");
    let params = GetTorrentListParams::builder().limit(i32::MAX).offset(0).build();
    assert_eq!(params.to_params(), "&limit=2147483647&offset=0");
}

#[test]
fn appended_hashes_accumulate() {
    let params = GetTorrentListParams::builder().hash("a").hash("b").hash("c").build();
    assert_eq!(
        params.hashes,
        Some(vec!["a".to_string(), "b".to_string(), "c".to_string()])
    );
    assert_eq!(params.to_params(), "&hashes=a|b|c");
}

#[test]
fn hashes_replace_then_append() {
    let params = GetTorrentListParams::builder()
        .hash("x")
        .hashes(vec!["a".to_string()])
        .hash("b")
        .build();
    assert_eq!(params.to_params(), "&hashes=a|b");
}

#[test]
fn empty_hash_list_is_a_set_field() {
    let params = GetTorrentListParams::builder().hashes(Vec::new()).build();
    assert_eq!(params.to_params(), "&hashes=");
}

#[test]
fn build_snapshots_the_options() {
    let mut builder = GetTorrentListParams::builder();
    builder.category("first");
    let first = builder.build();
    builder.category("second");
    let second = builder.build();
    assert_eq!(first.to_params(), "&category=first");
    assert_eq!(second.to_params(), "&category=second");
}

#[test]
fn filter_names_round_trip() {
    for filter in ALL_FILTERS {
        assert_eq!(TorrentListFilter::from_name(filter.to_string()), Some(filter));
    }
}

#[test]
fn filter_wire_names() {
    assert_eq!(TorrentListFilter::StalledDownloading.to_string(), "stalled_downloading");
    assert_eq!(TorrentListFilter::Errored.to_string(), "errored");
    assert_eq!(TorrentListFilter::from_name("bogus"), None);
    assert_eq!(TorrentListFilter::from_name("All"), None);
    assert_eq!(TorrentListFilter::from_name(""), None);
}
