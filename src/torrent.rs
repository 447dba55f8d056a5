//! The response model: what the server reports of a torrent and of its trackers.

use vstd::prelude::*;

use crate::text::text_eq;

verus! {

/// A decimal number with six digits after the point, held as its count of
/// millionths: `Decimal { millionths: 1_500_000 }` is 1.5.
#[derive(Debug, Clone, Copy, PartialEq, Eq, Structural)]
pub struct Decimal {
    pub millionths: i64,
}

/// The state of a torrent, as the server reports it.
#[derive(Debug, Clone, Copy, PartialEq, Eq, Structural)]
pub enum TorrentState {
    /// Some error occurred, applies to paused torrents
    Error,
    /// Torrent data files are missing
    MissingFiles,
    /// Torrent is being seeded and data is being transferred
    Uploading,
    /// Torrent is paused and has finished downloading
    PausedUP,
    /// Queuing is enabled and torrent is queued for upload
    QueuedUP,
    /// Torrent is being seeded, but no connection were made
    StalledUP,
    /// Torrent has finished downloading and is being checked
    CheckingUP,
    /// Torrent is forced to uploading and ignores the queue limit
    ForcedUP,
    /// Torrent is allocating disk space for download
    Allocating,
    /// Torrent is being downloaded and data is being transferred
    Downloading,
    /// Torrent has just started downloading and is fetching metadata
    MetaDownloading,
    /// Torrent is paused and has not finished downloading
    PausedDL,
    /// Queuing is enabled and torrent is queued for download
    QueuedDL,
    /// Torrent is being downloaded, but no connection were made
    StalledDL,
    /// Same as checkingUP, but torrent has not finished downloading
    CheckingDL,
    /// Torrent is forced to downloading and ignores the queue limit
    ForcedDL,
    /// Checking resume data on startup
    CheckingResumeData,
    /// Torrent is moving to another location
    Moving,
    /// Unknown status
    Unknown,
}

impl TorrentState {
    /// The name the server uses for this state.
    pub open spec fn wire_name(self) -> Seq<char> {
        match self {
            TorrentState::Error => "error"@,
            TorrentState::MissingFiles => "missingFiles"@,
            TorrentState::Uploading => "uploading"@,
            TorrentState::PausedUP => "pausedUP"@,
            TorrentState::QueuedUP => "queuedUP"@,
            TorrentState::StalledUP => "stalledUP"@,
            TorrentState::CheckingUP => "checkingUP"@,
            TorrentState::ForcedUP => "forcedUP"@,
            TorrentState::Allocating => "allocating"@,
            TorrentState::Downloading => "downloading"@,
            TorrentState::MetaDownloading => "metaDL"@,
            TorrentState::PausedDL => "pausedDL"@,
            TorrentState::QueuedDL => "queuedDL"@,
            TorrentState::StalledDL => "stalledDL"@,
            TorrentState::CheckingDL => "checkingDL"@,
            TorrentState::ForcedDL => "forcedDL"@,
            TorrentState::CheckingResumeData => "checkingResumeData"@,
            TorrentState::Moving => "moving"@,
            TorrentState::Unknown => "unknown"@,
        }
    }

    /// The state whose wire name is `name`; `Unknown` for any text that names no state.
    pub open spec fn named(name: Seq<char>) -> TorrentState {
        if name == "error"@ {
            TorrentState::Error
        } else if name == "missingFiles"@ {
            TorrentState::MissingFiles
        } else if name == "uploading"@ {
            TorrentState::Uploading
        } else if name == "pausedUP"@ {
            TorrentState::PausedUP
        } else if name == "queuedUP"@ {
            TorrentState::QueuedUP
        } else if name == "stalledUP"@ {
            TorrentState::StalledUP
        } else if name == "checkingUP"@ {
            TorrentState::CheckingUP
        } else if name == "forcedUP"@ {
            TorrentState::ForcedUP
        } else if name == "allocating"@ {
            TorrentState::Allocating
        } else if name == "downloading"@ {
            TorrentState::Downloading
        } else if name == "metaDL"@ {
            TorrentState::MetaDownloading
        } else if name == "pausedDL"@ {
            TorrentState::PausedDL
        } else if name == "queuedDL"@ {
            TorrentState::QueuedDL
        } else if name == "stalledDL"@ {
            TorrentState::StalledDL
        } else if name == "checkingDL"@ {
            TorrentState::CheckingDL
        } else if name == "forcedDL"@ {
            TorrentState::ForcedDL
        } else if name == "checkingResumeData"@ {
            TorrentState::CheckingResumeData
        } else if name == "moving"@ {
            TorrentState::Moving
        } else {
            TorrentState::Unknown
        }
    }

    /// Decodes a state from its wire name. A name outside the known states gives
    /// `Unknown`: the server may report states that this library does not know.
    pub fn from_name(name: &str) -> (r: TorrentState)
        ensures
            r == TorrentState::named(name@),
    {
        if text_eq(name, "error") {
            TorrentState::Error
        } else if text_eq(name, "missingFiles") {
            TorrentState::MissingFiles
        } else if text_eq(name, "uploading") {
            TorrentState::Uploading
        } else if text_eq(name, "pausedUP") {
            TorrentState::PausedUP
        } else if text_eq(name, "queuedUP") {
            TorrentState::QueuedUP
        } else if text_eq(name, "stalledUP") {
            TorrentState::StalledUP
        } else if text_eq(name, "checkingUP") {
            TorrentState::CheckingUP
        } else if text_eq(name, "forcedUP") {
            TorrentState::ForcedUP
        } else if text_eq(name, "allocating") {
            TorrentState::Allocating
        } else if text_eq(name, "downloading") {
            TorrentState::Downloading
        } else if text_eq(name, "metaDL") {
            TorrentState::MetaDownloading
        } else if text_eq(name, "pausedDL") {
            TorrentState::PausedDL
        } else if text_eq(name, "queuedDL") {
            TorrentState::QueuedDL
        } else if text_eq(name, "stalledDL") {
            TorrentState::StalledDL
        } else if text_eq(name, "checkingDL") {
            TorrentState::CheckingDL
        } else if text_eq(name, "forcedDL") {
            TorrentState::ForcedDL
        } else if text_eq(name, "checkingResumeData") {
            TorrentState::CheckingResumeData
        } else if text_eq(name, "moving") {
            TorrentState::Moving
        } else {
            TorrentState::Unknown
        }
    }

    /// The wire name of this state.
    pub fn as_str(&self) -> (r: &str)
        ensures
            r@ == self.wire_name(),
    {
        match *self {
            TorrentState::Error => "error",
            TorrentState::MissingFiles => "missingFiles",
            TorrentState::Uploading => "uploading",
            TorrentState::PausedUP => "pausedUP",
            TorrentState::QueuedUP => "queuedUP",
            TorrentState::StalledUP => "stalledUP",
            TorrentState::CheckingUP => "checkingUP",
            TorrentState::ForcedUP => "forcedUP",
            TorrentState::Allocating => "allocating",
            TorrentState::Downloading => "downloading",
            TorrentState::MetaDownloading => "metaDL",
            TorrentState::PausedDL => "pausedDL",
            TorrentState::QueuedDL => "queuedDL",
            TorrentState::StalledDL => "stalledDL",
            TorrentState::CheckingDL => "checkingDL",
            TorrentState::ForcedDL => "forcedDL",
            TorrentState::CheckingResumeData => "checkingResumeData",
            TorrentState::Moving => "moving",
            TorrentState::Unknown => "unknown",
        }
    }
}

impl Default for TorrentState {
    fn default() -> (r: TorrentState)
        ensures
            r == TorrentState::Unknown,
    {
        TorrentState::Unknown
    }
}

proof fn lemma_state_names_revealed()
    ensures
        "error"@ == seq!['e', 'r', 'r', 'o', 'r'],
        "missingFiles"@ == seq!['m', 'i', 's', 's', 'i', 'n', 'g', 'F', 'i', 'l', 'e', 's'],
        "uploading"@ == seq!['u', 'p', 'l', 'o', 'a', 'd', 'i', 'n', 'g'],
        "pausedUP"@ == seq!['p', 'a', 'u', 's', 'e', 'd', 'U', 'P'],
        "queuedUP"@ == seq!['q', 'u', 'e', 'u', 'e', 'd', 'U', 'P'],
        "stalledUP"@ == seq!['s', 't', 'a', 'l', 'l', 'e', 'd', 'U', 'P'],
        "checkingUP"@ == seq!['c', 'h', 'e', 'c', 'k', 'i', 'n', 'g', 'U', 'P'],
        "forcedUP"@ == seq!['f', 'o', 'r', 'c', 'e', 'd', 'U', 'P'],
        "allocating"@ == seq!['a', 'l', 'l', 'o', 'c', 'a', 't', 'i', 'n', 'g'],
        "downloading"@ == seq!['d', 'o', 'w', 'n', 'l', 'o', 'a', 'd', 'i', 'n', 'g'],
        "metaDL"@ == seq!['m', 'e', 't', 'a', 'D', 'L'],
        "pausedDL"@ == seq!['p', 'a', 'u', 's', 'e', 'd', 'D', 'L'],
        "queuedDL"@ == seq!['q', 'u', 'e', 'u', 'e', 'd', 'D', 'L'],
        "stalledDL"@ == seq!['s', 't', 'a', 'l', 'l', 'e', 'd', 'D', 'L'],
        "checkingDL"@ == seq!['c', 'h', 'e', 'c', 'k', 'i', 'n', 'g', 'D', 'L'],
        "forcedDL"@ == seq!['f', 'o', 'r', 'c', 'e', 'd', 'D', 'L'],
        "checkingResumeData"@ == seq!['c', 'h', 'e', 'c', 'k', 'i', 'n', 'g', 'R', 'e', 's', 'u', 'm', 'e', 'D', 'a', 't', 'a'],
        "moving"@ == seq!['m', 'o', 'v', 'i', 'n', 'g'],
        "unknown"@ == seq!['u', 'n', 'k', 'n', 'o', 'w', 'n'],
{
    reveal_strlit("error");
    reveal_strlit("missingFiles");
    reveal_strlit("uploading");
    reveal_strlit("pausedUP");
    reveal_strlit("queuedUP");
    reveal_strlit("stalledUP");
    reveal_strlit("checkingUP");
    reveal_strlit("forcedUP");
    reveal_strlit("allocating");
    reveal_strlit("downloading");
    reveal_strlit("metaDL");
    reveal_strlit("pausedDL");
    reveal_strlit("queuedDL");
    reveal_strlit("stalledDL");
    reveal_strlit("checkingDL");
    reveal_strlit("forcedDL");
    reveal_strlit("checkingResumeData");
    reveal_strlit("moving");
    reveal_strlit("unknown");
}

/// Decoding the wire name of any state gives back that state.
pub proof fn lemma_state_name_round_trip(s: TorrentState)
    ensures
        TorrentState::named(s.wire_name()) == s,
{
    lemma_state_names_revealed();
    match s {
        TorrentState::Error => {
        },
        TorrentState::MissingFiles => {
            assert("missingFiles"@.len() != "error"@.len());
        },
        TorrentState::Uploading => {
            assert("uploading"@.len() != "error"@.len());
            assert("uploading"@.len() != "missingFiles"@.len());
        },
        TorrentState::PausedUP => {
            assert("pausedUP"@.len() != "error"@.len());
            assert("pausedUP"@.len() != "missingFiles"@.len());
            assert("pausedUP"@.len() != "uploading"@.len());
        },
        TorrentState::QueuedUP => {
            assert("queuedUP"@.len() != "error"@.len());
            assert("queuedUP"@.len() != "missingFiles"@.len());
            assert("queuedUP"@.len() != "uploading"@.len());
            assert("queuedUP"@[0] != "pausedUP"@[0]);
        },
        TorrentState::StalledUP => {
            assert("stalledUP"@.len() != "error"@.len());
            assert("stalledUP"@.len() != "missingFiles"@.len());
            assert("stalledUP"@[0] != "uploading"@[0]);
            assert("stalledUP"@.len() != "pausedUP"@.len());
            assert("stalledUP"@.len() != "queuedUP"@.len());
        },
        TorrentState::CheckingUP => {
            assert("checkingUP"@.len() != "error"@.len());
            assert("checkingUP"@.len() != "missingFiles"@.len());
            assert("checkingUP"@.len() != "uploading"@.len());
            assert("checkingUP"@.len() != "pausedUP"@.len());
            assert("checkingUP"@.len() != "queuedUP"@.len());
            assert("checkingUP"@.len() != "stalledUP"@.len());
        },
        TorrentState::ForcedUP => {
            assert("forcedUP"@.len() != "error"@.len());
            assert("forcedUP"@.len() != "missingFiles"@.len());
            assert("forcedUP"@.len() != "uploading"@.len());
            assert("forcedUP"@[0] != "pausedUP"@[0]);
            assert("forcedUP"@[0] != "queuedUP"@[0]);
            assert("forcedUP"@.len() != "stalledUP"@.len());
            assert("forcedUP"@.len() != "checkingUP"@.len());
        },
        TorrentState::Allocating => {
            assert("allocating"@.len() != "error"@.len());
            assert("allocating"@.len() != "missingFiles"@.len());
            assert("allocating"@.len() != "uploading"@.len());
            assert("allocating"@.len() != "pausedUP"@.len());
            assert("allocating"@.len() != "queuedUP"@.len());
            assert("allocating"@.len() != "stalledUP"@.len());
            assert("allocating"@[0] != "checkingUP"@[0]);
            assert("allocating"@.len() != "forcedUP"@.len());
        },
        TorrentState::Downloading => {
            assert("downloading"@.len() != "error"@.len());
            assert("downloading"@.len() != "missingFiles"@.len());
            assert("downloading"@.len() != "uploading"@.len());
            assert("downloading"@.len() != "pausedUP"@.len());
            assert("downloading"@.len() != "queuedUP"@.len());
            assert("downloading"@.len() != "stalledUP"@.len());
            assert("downloading"@.len() != "checkingUP"@.len());
            assert("downloading"@.len() != "forcedUP"@.len());
            assert("downloading"@.len() != "allocating"@.len());
        },
        TorrentState::MetaDownloading => {
            assert("metaDL"@.len() != "error"@.len());
            assert("metaDL"@.len() != "missingFiles"@.len());
            assert("metaDL"@.len() != "uploading"@.len());
            assert("metaDL"@.len() != "pausedUP"@.len());
            assert("metaDL"@.len() != "queuedUP"@.len());
            assert("metaDL"@.len() != "stalledUP"@.len());
            assert("metaDL"@.len() != "checkingUP"@.len());
            assert("metaDL"@.len() != "forcedUP"@.len());
            assert("metaDL"@.len() != "allocating"@.len());
            assert("metaDL"@.len() != "downloading"@.len());
        },
        TorrentState::PausedDL => {
            assert("pausedDL"@.len() != "error"@.len());
            assert("pausedDL"@.len() != "missingFiles"@.len());
            assert("pausedDL"@.len() != "uploading"@.len());
            assert("pausedDL"@[6] != "pausedUP"@[6]);
            assert("pausedDL"@[0] != "queuedUP"@[0]);
            assert("pausedDL"@.len() != "stalledUP"@.len());
            assert("pausedDL"@.len() != "checkingUP"@.len());
            assert("pausedDL"@[0] != "forcedUP"@[0]);
            assert("pausedDL"@.len() != "allocating"@.len());
            assert("pausedDL"@.len() != "downloading"@.len());
            assert("pausedDL"@.len() != "metaDL"@.len());
        },
        TorrentState::QueuedDL => {
            assert("queuedDL"@.len() != "error"@.len());
            assert("queuedDL"@.len() != "missingFiles"@.len());
            assert("queuedDL"@.len() != "uploading"@.len());
            assert("queuedDL"@[0] != "pausedUP"@[0]);
            assert("queuedDL"@[6] != "queuedUP"@[6]);
            assert("queuedDL"@.len() != "stalledUP"@.len());
            assert("queuedDL"@.len() != "checkingUP"@.len());
            assert("queuedDL"@[0] != "forcedUP"@[0]);
            assert("queuedDL"@.len() != "allocating"@.len());
            assert("queuedDL"@.len() != "downloading"@.len());
            assert("queuedDL"@.len() != "metaDL"@.len());
            assert("queuedDL"@[0] != "pausedDL"@[0]);
        },
        TorrentState::StalledDL => {
            assert("stalledDL"@.len() != "error"@.len());
            assert("stalledDL"@.len() != "missingFiles"@.len());
            assert("stalledDL"@[0] != "uploading"@[0]);
            assert("stalledDL"@.len() != "pausedUP"@.len());
            assert("stalledDL"@.len() != "queuedUP"@.len());
            assert("stalledDL"@[7] != "stalledUP"@[7]);
            assert("stalledDL"@.len() != "checkingUP"@.len());
            assert("stalledDL"@.len() != "forcedUP"@.len());
            assert("stalledDL"@.len() != "allocating"@.len());
            assert("stalledDL"@.len() != "downloading"@.len());
            assert("stalledDL"@.len() != "metaDL"@.len());
            assert("stalledDL"@.len() != "pausedDL"@.len());
            assert("stalledDL"@.len() != "queuedDL"@.len());
        },
        TorrentState::CheckingDL => {
            assert("checkingDL"@.len() != "error"@.len());
            assert("checkingDL"@.len() != "missingFiles"@.len());
            assert("checkingDL"@.len() != "uploading"@.len());
            assert("checkingDL"@.len() != "pausedUP"@.len());
            assert("checkingDL"@.len() != "queuedUP"@.len());
            assert("checkingDL"@.len() != "stalledUP"@.len());
            assert("checkingDL"@[8] != "checkingUP"@[8]);
            assert("checkingDL"@.len() != "forcedUP"@.len());
            assert("checkingDL"@[0] != "allocating"@[0]);
            assert("checkingDL"@.len() != "downloading"@.len());
            assert("checkingDL"@.len() != "metaDL"@.len());
            assert("checkingDL"@.len() != "pausedDL"@.len());
            assert("checkingDL"@.len() != "queuedDL"@.len());
            assert("checkingDL"@.len() != "stalledDL"@.len());
        },
        TorrentState::ForcedDL => {
            assert("forcedDL"@.len() != "error"@.len());
            assert("forcedDL"@.len() != "missingFiles"@.len());
            assert("forcedDL"@.len() != "uploading"@.len());
            assert("forcedDL"@[0] != "pausedUP"@[0]);
            assert("forcedDL"@[0] != "queuedUP"@[0]);
            assert("forcedDL"@.len() != "stalledUP"@.len());
            assert("forcedDL"@.len() != "checkingUP"@.len());
            assert("forcedDL"@[6] != "forcedUP"@[6]);
            assert("forcedDL"@.len() != "allocating"@.len());
            assert("forcedDL"@.len() != "downloading"@.len());
            assert("forcedDL"@.len() != "metaDL"@.len());
            assert("forcedDL"@[0] != "pausedDL"@[0]);
            assert("forcedDL"@[0] != "queuedDL"@[0]);
            assert("forcedDL"@.len() != "stalledDL"@.len());
            assert("forcedDL"@.len() != "checkingDL"@.len());
        },
        TorrentState::CheckingResumeData => {
            assert("checkingResumeData"@.len() != "error"@.len());
            assert("checkingResumeData"@.len() != "missingFiles"@.len());
            assert("checkingResumeData"@.len() != "uploading"@.len());
            assert("checkingResumeData"@.len() != "pausedUP"@.len());
            assert("checkingResumeData"@.len() != "queuedUP"@.len());
            assert("checkingResumeData"@.len() != "stalledUP"@.len());
            assert("checkingResumeData"@.len() != "checkingUP"@.len());
            assert("checkingResumeData"@.len() != "forcedUP"@.len());
            assert("checkingResumeData"@.len() != "allocating"@.len());
            assert("checkingResumeData"@.len() != "downloading"@.len());
            assert("checkingResumeData"@.len() != "metaDL"@.len());
            assert("checkingResumeData"@.len() != "pausedDL"@.len());
            assert("checkingResumeData"@.len() != "queuedDL"@.len());
            assert("checkingResumeData"@.len() != "stalledDL"@.len());
            assert("checkingResumeData"@.len() != "checkingDL"@.len());
            assert("checkingResumeData"@.len() != "forcedDL"@.len());
        },
        TorrentState::Moving => {
            assert("moving"@.len() != "error"@.len());
            assert("moving"@.len() != "missingFiles"@.len());
            assert("moving"@.len() != "uploading"@.len());
            assert("moving"@.len() != "pausedUP"@.len());
            assert("moving"@.len() != "queuedUP"@.len());
            assert("moving"@.len() != "stalledUP"@.len());
            assert("moving"@.len() != "checkingUP"@.len());
            assert("moving"@.len() != "forcedUP"@.len());
            assert("moving"@.len() != "allocating"@.len());
            assert("moving"@.len() != "downloading"@.len());
            assert("moving"@[1] != "metaDL"@[1]);
            assert("moving"@.len() != "pausedDL"@.len());
            assert("moving"@.len() != "queuedDL"@.len());
            assert("moving"@.len() != "stalledDL"@.len());
            assert("moving"@.len() != "checkingDL"@.len());
            assert("moving"@.len() != "forcedDL"@.len());
            assert("moving"@.len() != "checkingResumeData"@.len());
        },
        TorrentState::Unknown => {
            assert("unknown"@.len() != "error"@.len());
            assert("unknown"@.len() != "missingFiles"@.len());
            assert("unknown"@.len() != "uploading"@.len());
            assert("unknown"@.len() != "pausedUP"@.len());
            assert("unknown"@.len() != "queuedUP"@.len());
            assert("unknown"@.len() != "stalledUP"@.len());
            assert("unknown"@.len() != "checkingUP"@.len());
            assert("unknown"@.len() != "forcedUP"@.len());
            assert("unknown"@.len() != "allocating"@.len());
            assert("unknown"@.len() != "downloading"@.len());
            assert("unknown"@.len() != "metaDL"@.len());
            assert("unknown"@.len() != "pausedDL"@.len());
            assert("unknown"@.len() != "queuedDL"@.len());
            assert("unknown"@.len() != "stalledDL"@.len());
            assert("unknown"@.len() != "checkingDL"@.len());
            assert("unknown"@.len() != "forcedDL"@.len());
            assert("unknown"@.len() != "checkingResumeData"@.len());
            assert("unknown"@.len() != "moving"@.len());
        },
    }
}

/// A wire name that names none of the states decodes to `Unknown`, never to an error.
pub proof fn lemma_unlisted_state_is_unknown(name: Seq<char>)
    requires
        forall|s: TorrentState| #[trigger] s.wire_name() != name,
    ensures
        TorrentState::named(name) == TorrentState::Unknown,
{
    assert(TorrentState::Error.wire_name() != name);
    assert(TorrentState::MissingFiles.wire_name() != name);
    assert(TorrentState::Uploading.wire_name() != name);
    assert(TorrentState::PausedUP.wire_name() != name);
    assert(TorrentState::QueuedUP.wire_name() != name);
    assert(TorrentState::StalledUP.wire_name() != name);
    assert(TorrentState::CheckingUP.wire_name() != name);
    assert(TorrentState::ForcedUP.wire_name() != name);
    assert(TorrentState::Allocating.wire_name() != name);
    assert(TorrentState::Downloading.wire_name() != name);
    assert(TorrentState::MetaDownloading.wire_name() != name);
    assert(TorrentState::PausedDL.wire_name() != name);
    assert(TorrentState::QueuedDL.wire_name() != name);
    assert(TorrentState::StalledDL.wire_name() != name);
    assert(TorrentState::CheckingDL.wire_name() != name);
    assert(TorrentState::ForcedDL.wire_name() != name);
    assert(TorrentState::CheckingResumeData.wire_name() != name);
    assert(TorrentState::Moving.wire_name() != name);
}

/// What the server reports of one torrent at the time of the request.
#[derive(Debug)]
pub struct TorrentInfo {
    /// Time (Unix epoch) when the torrent was added to the client.
    pub added_on: u64,
    /// Amount of data left to download (bytes).
    pub amount_left: u64,
    /// Whether this torrent is managed by automatic torrent management.
    pub auto_tmm: bool,
    /// Percentage of file pieces currently available.
    pub availability: Decimal,
    /// Category of the torrent.
    pub category: String,
    /// Amount of transfer data completed (bytes).
    pub completed: u64,
    /// Time (Unix epoch) when the torrent completed.
    pub completion_on: u64,
    /// Absolute path of the torrent content.
    pub content_path: String,
    /// Download speed limit (bytes/s); -1 if unlimited.
    pub dl_limit: i64,
    /// Download speed (bytes/s).
    pub dlspeed: u64,
    /// Amount of data downloaded.
    pub downloaded: u64,
    /// Amount of data downloaded this session.
    pub downloaded_session: u64,
    /// Estimated time to completion (seconds).
    pub eta: i64,
    /// Whether the first and last pieces are prioritized.
    pub f_l_piece_prio: bool,
    /// Whether force start is enabled for this torrent.
    pub force_start: bool,
    /// Torrent hash.
    pub hash: String,
    /// Last time (Unix epoch) when a chunk was downloaded or uploaded.
    pub last_activity: i64,
    /// Magnet URI of this torrent.
    pub magnet_uri: String,
    /// Share ratio at which the torrent stops seeding.
    pub max_ratio: Decimal,
    /// Seeding time (seconds) after which the torrent stops seeding.
    pub max_seeding_time: i32,
    /// Torrent name.
    pub name: String,
    /// Number of seeds in the swarm.
    pub num_complete: i32,
    /// Number of leechers in the swarm.
    pub num_incomplete: i32,
    /// Number of leechers connected to.
    pub num_leechs: i32,
    /// Number of seeds connected to.
    pub num_seeds: i32,
    /// Queue priority; -1 if queuing is disabled or the torrent is in seed mode.
    pub priority: i32,
    /// Progress, as a fraction of one.
    pub progress: Decimal,
    /// Share ratio.
    pub ratio: Decimal,
    /// Share ratio limit of this torrent.
    pub ratio_limit: Decimal,
    /// Path where the torrent's data is stored.
    pub save_path: String,
    /// Time spent complete (seconds).
    pub seeding_time: i32,
    /// Seeding time limit of this torrent; -2 under automatic management, -1 when unset.
    pub seeding_time_limit: i32,
    /// Time (Unix epoch) when the torrent was last seen complete.
    pub seen_complete: i32,
    /// Whether sequential download is enabled.
    pub seq_dl: bool,
    /// Total size (bytes) of the files selected for download.
    pub size: i64,
    /// State of the torrent.
    pub state: TorrentState,
    /// Whether super seeding is enabled.
    pub super_seeding: bool,
    /// Tags of the torrent, in the order the server lists them.
    pub tags: Vec<String>,
    /// Total active time (seconds).
    pub time_active: i32,
    /// Total size (bytes) of all files of the torrent.
    pub total_size: i64,
    /// First tracker with working status; empty if none works.
    pub tracker: String,
    /// Upload speed limit (bytes/s); -1 if unlimited.
    pub up_limit: i64,
    /// Amount of data uploaded.
    pub uploaded: u64,
    /// Amount of data uploaded this session.
    pub uploaded_session: u64,
    /// Upload speed (bytes/s).
    pub upspeed: u64,
}

impl Default for TorrentInfo {
    /// A torrent with empty texts, zero counters and state `Unknown`.
    fn default() -> (r: TorrentInfo)
        ensures
            r.hash@ == Seq::<char>::empty(),
            r.name@ == Seq::<char>::empty(),
            r.tags@.len() == 0,
            r.state == TorrentState::Unknown,
            r.size == 0,
            r.progress.millionths == 0,
    {
        TorrentInfo {
            added_on: 0,
            amount_left: 0,
            auto_tmm: false,
            availability: Decimal { millionths: 0 },
            category: String::new(),
            completed: 0,
            completion_on: 0,
            content_path: String::new(),
            dl_limit: 0,
            dlspeed: 0,
            downloaded: 0,
            downloaded_session: 0,
            eta: 0,
            f_l_piece_prio: false,
            force_start: false,
            hash: String::new(),
            last_activity: 0,
            magnet_uri: String::new(),
            max_ratio: Decimal { millionths: 0 },
            max_seeding_time: 0,
            name: String::new(),
            num_complete: 0,
            num_incomplete: 0,
            num_leechs: 0,
            num_seeds: 0,
            priority: 0,
            progress: Decimal { millionths: 0 },
            ratio: Decimal { millionths: 0 },
            ratio_limit: Decimal { millionths: 0 },
            save_path: String::new(),
            seeding_time: 0,
            seeding_time_limit: 0,
            seen_complete: 0,
            seq_dl: false,
            size: 0,
            state: TorrentState::Unknown,
            super_seeding: false,
            tags: Vec::new(),
            time_active: 0,
            total_size: 0,
            tracker: String::new(),
            up_limit: 0,
            uploaded: 0,
            uploaded_session: 0,
            upspeed: 0,
        }
    }
}

/// The status of a tracker of a torrent.
#[derive(Debug, Clone, Copy, PartialEq, Eq, Structural)]
pub enum TrackerStatus {
    /// The tracker is disabled (used for DHT, PeX and LSD).
    Disabled,
    /// The tracker has not been contacted yet.
    NotContacted,
    /// The tracker has been contacted and is working.
    Working,
    /// The tracker is updating.
    Updating,
    /// The tracker has been contacted, but it is not working or does not send proper replies.
    NotWorking,
}

impl TrackerStatus {
    /// The number that stands for this status on the wire.
    pub open spec fn wire_code(self) -> u8 {
        match self {
            TrackerStatus::Disabled => 0,
            TrackerStatus::NotContacted => 1,
            TrackerStatus::Working => 2,
            TrackerStatus::Updating => 3,
            TrackerStatus::NotWorking => 4,
        }
    }

    /// The status with wire number `code`, if there is one.
    pub open spec fn with_code(code: u8) -> Option<TrackerStatus> {
        if code == 0 {
            Some(TrackerStatus::Disabled)
        } else if code == 1 {
            Some(TrackerStatus::NotContacted)
        } else if code == 2 {
            Some(TrackerStatus::Working)
        } else if code == 3 {
            Some(TrackerStatus::Updating)
        } else if code == 4 {
            Some(TrackerStatus::NotWorking)
        } else {
            None
        }
    }

    /// The wire number of this status.
    pub fn code(&self) -> (r: u8)
        ensures
            r == self.wire_code(),
    {
        match *self {
            TrackerStatus::Disabled => 0,
            TrackerStatus::NotContacted => 1,
            TrackerStatus::Working => 2,
            TrackerStatus::Updating => 3,
            TrackerStatus::NotWorking => 4,
        }
    }

    /// Decodes a status from its wire number; `None` for a number that names no status.
    pub fn from_code(code: u8) -> (r: Option<TrackerStatus>)
        ensures
            r == TrackerStatus::with_code(code),
            r is None <==> code > 4,
    {
        if code == 0 {
            Some(TrackerStatus::Disabled)
        } else if code == 1 {
            Some(TrackerStatus::NotContacted)
        } else if code == 2 {
            Some(TrackerStatus::Working)
        } else if code == 3 {
            Some(TrackerStatus::Updating)
        } else if code == 4 {
            Some(TrackerStatus::NotWorking)
        } else {
            None
        }
    }
}

/// Decoding the wire number of any tracker status gives back that status.
pub proof fn lemma_tracker_code_round_trip(s: TrackerStatus)
    ensures
        TrackerStatus::with_code(s.wire_code()) == Some(s),
{
}

/// One tracker of a torrent, as the server reports it.
#[derive(Debug)]
pub struct TorrentTracker {
    /// Tracker URL.
    pub url: String,
    /// Tracker status.
    pub status: TrackerStatus,
    /// Priority tier: lower tiers are tried first. A negative tier marks an entry
    /// to which no tier applies (such as DHT).
    pub tier: i32,
    /// Number of peers of the torrent, as reported by the tracker.
    pub num_peers: i32,
    /// Number of seeds of the torrent, as reported by the tracker.
    pub num_seeds: i32,
    /// Number of leechers of the torrent, as reported by the tracker.
    pub num_leeches: i32,
    /// Number of completed downloads of the torrent, as reported by the tracker.
    pub num_downloaded: i32,
    /// Free text from the tracker.
    pub message: String,
}

} // verus!
