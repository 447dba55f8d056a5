use qbittorrent::torrent::{TorrentInfo, TorrentState, TrackerStatus};

const ALL_STATES: [TorrentState; 19] = [
    TorrentState::Error,
    TorrentState::MissingFiles,
    TorrentState::Uploading,
    TorrentState::PausedUP,
    TorrentState::QueuedUP,
    TorrentState::StalledUP,
    TorrentState::CheckingUP,
    TorrentState::ForcedUP,
    TorrentState::Allocating,
    TorrentState::Downloading,
    TorrentState::MetaDownloading,
    TorrentState::PausedDL,
    TorrentState::QueuedDL,
    TorrentState::StalledDL,
    TorrentState::CheckingDL,
    TorrentState::ForcedDL,
    TorrentState::CheckingResumeData,
    TorrentState::Moving,
    TorrentState::Unknown,
];

#[test]
fn state_names_round_trip() {
    for state in ALL_STATES {
        assert_eq!(TorrentState::from_name(state.as_str()), state);
    }
}

#[test]
fn state_wire_names() {
    assert_eq!(TorrentState::from_name("pausedUP"), TorrentState::PausedUP);
    assert_eq!(TorrentState::from_name("metaDL"), TorrentState::MetaDownloading);
    assert_eq!(TorrentState::MetaDownloading.as_str(), "metaDL");
    assert_eq!(TorrentState::CheckingResumeData.as_str(), "checkingResumeData");
}

#[test]
fn unlisted_state_decodes_to_unknown() {
    assert_eq!(TorrentState::from_name("stoppedUP"), TorrentState::Unknown);
    assert_eq!(TorrentState::from_name("PAUSEDUP"), TorrentState::Unknown);
    assert_eq!(TorrentState::from_name(""), TorrentState::Unknown);
}

#[test]
fn default_state_is_unknown() {
    assert_eq!(TorrentState::default(), TorrentState::Unknown);
    let info = TorrentInfo::default();
    assert_eq!(info.state, TorrentState::Unknown);
    assert_eq!(info.hash, "");
    assert!(info.tags.is_empty());
}

#[test]
fn tracker_status_codes() {
    let all = [
        TrackerStatus::Disabled,
        TrackerStatus::NotContacted,
        TrackerStatus::Working,
        TrackerStatus::Updating,
        TrackerStatus::NotWorking,
    ];
    for (i, status) in all.iter().enumerate() {
        assert_eq!(status.code() as usize, i);
        assert_eq!(TrackerStatus::from_code(i as u8), Some(*status));
    }
    assert_eq!(TrackerStatus::from_code(5), None);
    assert_eq!(TrackerStatus::from_code(255), None);
}
