//! A request to add torrents, its builder, and its encoding as a multipart form.

use vstd::prelude::*;

use crate::error::ClientError;
use crate::text::{
    bool_text, copy_opt_text, int_decimal, join, millionths_text, nat_decimal, opt_text, push_bool,
    push_int, push_joined, push_millionths, push_nat, views,
};
use crate::torrent::Decimal;

verus! {

/// The content of one part of a multipart form.
#[derive(Debug)]
pub enum PartBody {
    /// A text value.
    Text(String),
    /// A file, with its name, its content type and its bytes.
    File { file_name: String, content_type: String, data: Vec<u8> },
}

/// One named part of a multipart form.
#[derive(Debug)]
pub struct FormPart {
    pub name: String,
    pub body: PartBody,
}

/// A multipart form: its parts in the order they are sent.
#[derive(Debug)]
pub struct MultipartForm {
    pub parts: Vec<FormPart>,
}

/// The content of a form part as plain values.
pub enum PartContent {
    Text(Seq<char>),
    File(Seq<char>, Seq<char>, Seq<u8>),
}

impl View for FormPart {
    type V = (Seq<char>, PartContent);

    open spec fn view(&self) -> (Seq<char>, PartContent) {
        (
            self.name@,
            match self.body {
                PartBody::Text(t) => PartContent::Text(t@),
                PartBody::File { file_name, content_type, data } => PartContent::File(
                    file_name@,
                    content_type@,
                    data@,
                ),
            },
        )
    }
}

/// The views of a list of form parts.
pub open spec fn parts_view(parts: Seq<FormPart>) -> Seq<(Seq<char>, PartContent)> {
    parts.map_values(|p: FormPart| p@)
}

impl View for MultipartForm {
    type V = Seq<(Seq<char>, PartContent)>;

    open spec fn view(&self) -> Seq<(Seq<char>, PartContent)> {
        parts_view(self.parts@)
    }
}

/// The content type of a torrent file.
pub open spec fn torrent_content_type() -> Seq<char> {
    "application/x-bittorrent"@
}

/// A text part named `name` when there is a value; no part otherwise.
pub open spec fn text_part(name: Seq<char>, value: Option<Seq<char>>) -> Seq<(Seq<char>, PartContent)> {
    match value {
        Some(v) => seq![(name, PartContent::Text(v))],
        None => Seq::empty(),
    }
}

/// The view of an optional list of strings.
pub open spec fn opt_texts(o: Option<Vec<String>>) -> Option<Seq<Seq<char>>> {
    match o {
        Some(v) => Some(views(v@)),
        None => None,
    }
}

/// The views of a list of named files.
pub open spec fn files_view(files: Seq<(String, Vec<u8>)>) -> Seq<(Seq<char>, Seq<u8>)> {
    files.map_values(|f: (String, Vec<u8>)| (f.0@, f.1@))
}

/// A request to add torrents, as plain values.
pub struct UploadView {
    pub urls: Seq<Seq<char>>,
    pub torrents: Seq<(Seq<char>, Seq<u8>)>,
    pub save_path: Option<Seq<char>>,
    pub cookie: Option<Seq<char>>,
    pub category: Option<Seq<char>>,
    pub tags: Option<Seq<Seq<char>>>,
    pub skip_hash_check: Option<bool>,
    pub paused: Option<bool>,
    pub root_folder: Option<bool>,
    pub rename: Option<Seq<char>>,
    pub upload_limit: Option<i64>,
    pub download_limit: Option<i64>,
    pub ratio_limit: Option<Decimal>,
    pub seeding_time_limit: Option<u64>,
    pub auto_tmm: Option<bool>,
    pub sequential_download: Option<bool>,
    pub first_last_piece_prio: Option<bool>,
}

/// The wire name of optional field `i` of an upload.
pub open spec fn option_name(i: int) -> Seq<char> {
    if i == 0 {
        "savepath"@
    } else if i == 1 {
        "cookie"@
    } else if i == 2 {
        "category"@
    } else if i == 3 {
        "tags"@
    } else if i == 4 {
        "skip_checking"@
    } else if i == 5 {
        "paused"@
    } else if i == 6 {
        "root_folder"@
    } else if i == 7 {
        "rename"@
    } else if i == 8 {
        "upLimit"@
    } else if i == 9 {
        "dlLimit"@
    } else if i == 10 {
        "ratioLimit"@
    } else if i == 11 {
        "seedingTimeLimit"@
    } else if i == 12 {
        "autoTMM"@
    } else if i == 13 {
        "sequentialDownload"@
    } else {
        "firstLastPiecePrio"@
    }
}

/// The number of optional fields of an upload.
pub open spec fn option_count() -> int {
    15
}

impl UploadView {
    /// Nothing to add and no option set.
    pub open spec fn empty() -> UploadView {
        UploadView {
            urls: Seq::empty(),
            torrents: Seq::empty(),
            save_path: None,
            cookie: None,
            category: None,
            tags: None,
            skip_hash_check: None,
            paused: None,
            root_folder: None,
            rename: None,
            upload_limit: None,
            download_limit: None,
            ratio_limit: None,
            seeding_time_limit: None,
            auto_tmm: None,
            sequential_download: None,
            first_last_piece_prio: None,
        }
    }

    /// Whether the upload names a source: a URL or a file.
    pub open spec fn has_source(self) -> bool {
        self.urls.len() > 0 || self.torrents.len() > 0
    }

    /// The text of optional field `i`, if it is set.
    pub open spec fn option_value(self, i: int) -> Option<Seq<char>> {
        if i == 0 {
            self.save_path
        } else if i == 1 {
            self.cookie
        } else if i == 2 {
            self.category
        } else if i == 3 {
            match self.tags {
                Some(v) => Some(join(v, ","@)),
                None => None,
            }
        } else if i == 4 {
            match self.skip_hash_check {
                Some(v) => Some(bool_text(v)),
                None => None,
            }
        } else if i == 5 {
            match self.paused {
                Some(v) => Some(bool_text(v)),
                None => None,
            }
        } else if i == 6 {
            match self.root_folder {
                Some(v) => Some(bool_text(v)),
                None => None,
            }
        } else if i == 7 {
            self.rename
        } else if i == 8 {
            match self.upload_limit {
                Some(v) => Some(int_decimal(v as int)),
                None => None,
            }
        } else if i == 9 {
            match self.download_limit {
                Some(v) => Some(int_decimal(v as int)),
                None => None,
            }
        } else if i == 10 {
            match self.ratio_limit {
                Some(v) => Some(millionths_text(v.millionths as int)),
                None => None,
            }
        } else if i == 11 {
            match self.seeding_time_limit {
                Some(v) => Some(nat_decimal(v as nat)),
                None => None,
            }
        } else if i == 12 {
            match self.auto_tmm {
                Some(v) => Some(bool_text(v)),
                None => None,
            }
        } else if i == 13 {
            match self.sequential_download {
                Some(v) => Some(bool_text(v)),
                None => None,
            }
        } else if i == 14 {
            match self.first_last_piece_prio {
                Some(v) => Some(bool_text(v)),
                None => None,
            }
        } else {
            None
        }
    }

    /// The part that carries the URLs, one per line; none when there is no URL.
    pub open spec fn url_parts(self) -> Seq<(Seq<char>, PartContent)> {
        if self.urls.len() == 0 {
            Seq::empty()
        } else {
            seq![("urls"@, PartContent::Text(join(self.urls, "\n"@)))]
        }
    }

    /// One part named `torrents` for each file, in order.
    pub open spec fn file_parts(self) -> Seq<(Seq<char>, PartContent)> {
        self.torrents.map_values(
            |f: (Seq<char>, Seq<u8>)| ("torrents"@, PartContent::File(f.0, torrent_content_type(), f.1)),
        )
    }

    /// The parts of the form up to optional field `k`: the URLs, the files,
    /// then one text part for each set optional field before `k`, in field order.
    pub open spec fn form_parts_upto(self, k: int) -> Seq<(Seq<char>, PartContent)>
        decreases k,
    {
        if k <= 0 {
            self.url_parts() + self.file_parts()
        } else {
            self.form_parts_upto(k - 1) + text_part(option_name(k - 1), self.option_value(k - 1))
        }
    }

    /// The parts of the form: the URLs, the files, then one text part for each
    /// set optional field, in field order.
    pub open spec fn form_parts(self) -> Seq<(Seq<char>, PartContent)> {
        self.form_parts_upto(option_count())
    }
}

/// The number of parts named `name`.
pub open spec fn count_named(parts: Seq<(Seq<char>, PartContent)>, name: Seq<char>) -> nat
    decreases parts.len(),
{
    if parts.len() == 0 {
        0
    } else {
        count_named(parts.drop_last(), name) + if parts.last().0 == name {
            1nat
        } else {
            0nat
        }
    }
}

proof fn lemma_option_names_distinct()
    ensures
        forall|m: int, n: int|
            0 <= m < option_count() && 0 <= n < option_count() && m != n ==> #[trigger] option_name(m)
                != #[trigger] option_name(n),
        forall|m: int| 0 <= m < option_count() ==> #[trigger] option_name(m) != "urls"@,
        forall|m: int| 0 <= m < option_count() ==> #[trigger] option_name(m) != "torrents"@,
{
    reveal_strlit("savepath");
    reveal_strlit("cookie");
    reveal_strlit("category");
    reveal_strlit("tags");
    reveal_strlit("skip_checking");
    reveal_strlit("paused");
    reveal_strlit("root_folder");
    reveal_strlit("rename");
    reveal_strlit("upLimit");
    reveal_strlit("dlLimit");
    reveal_strlit("ratioLimit");
    reveal_strlit("seedingTimeLimit");
    reveal_strlit("autoTMM");
    reveal_strlit("sequentialDownload");
    reveal_strlit("firstLastPiecePrio");
    reveal_strlit("urls");
    reveal_strlit("torrents");
    assert(option_name(0).len() != option_name(1).len());
    assert(option_name(0)[0] != option_name(2)[0]);
    assert(option_name(1).len() != option_name(2).len());
    assert(option_name(0).len() != option_name(3).len());
    assert(option_name(1).len() != option_name(3).len());
    assert(option_name(2).len() != option_name(3).len());
    assert(option_name(0).len() != option_name(4).len());
    assert(option_name(1).len() != option_name(4).len());
    assert(option_name(2).len() != option_name(4).len());
    assert(option_name(3).len() != option_name(4).len());
    assert(option_name(0).len() != option_name(5).len());
    assert(option_name(1)[0] != option_name(5)[0]);
    assert(option_name(2).len() != option_name(5).len());
    assert(option_name(3).len() != option_name(5).len());
    assert(option_name(4).len() != option_name(5).len());
    assert(option_name(0).len() != option_name(6).len());
    assert(option_name(1).len() != option_name(6).len());
    assert(option_name(2).len() != option_name(6).len());
    assert(option_name(3).len() != option_name(6).len());
    assert(option_name(4).len() != option_name(6).len());
    assert(option_name(5).len() != option_name(6).len());
    assert(option_name(0).len() != option_name(7).len());
    assert(option_name(1)[0] != option_name(7)[0]);
    assert(option_name(2).len() != option_name(7).len());
    assert(option_name(3).len() != option_name(7).len());
    assert(option_name(4).len() != option_name(7).len());
    assert(option_name(5)[0] != option_name(7)[0]);
    assert(option_name(6).len() != option_name(7).len());
    assert(option_name(0).len() != option_name(8).len());
    assert(option_name(1).len() != option_name(8).len());
    assert(option_name(2).len() != option_name(8).len());
    assert(option_name(3).len() != option_name(8).len());
    assert(option_name(4).len() != option_name(8).len());
    assert(option_name(5).len() != option_name(8).len());
    assert(option_name(6).len() != option_name(8).len());
    assert(option_name(7).len() != option_name(8).len());
    assert(option_name(0).len() != option_name(9).len());
    assert(option_name(1).len() != option_name(9).len());
    assert(option_name(2).len() != option_name(9).len());
    assert(option_name(3).len() != option_name(9).len());
    assert(option_name(4).len() != option_name(9).len());
    assert(option_name(5).len() != option_name(9).len());
    assert(option_name(6).len() != option_name(9).len());
    assert(option_name(7).len() != option_name(9).len());
    assert(option_name(8)[0] != option_name(9)[0]);
    assert(option_name(0).len() != option_name(10).len());
    assert(option_name(1).len() != option_name(10).len());
    assert(option_name(2).len() != option_name(10).len());
    assert(option_name(3).len() != option_name(10).len());
    assert(option_name(4).len() != option_name(10).len());
    assert(option_name(5).len() != option_name(10).len());
    assert(option_name(6).len() != option_name(10).len());
    assert(option_name(7).len() != option_name(10).len());
    assert(option_name(8).len() != option_name(10).len());
    assert(option_name(9).len() != option_name(10).len());
    assert(option_name(0).len() != option_name(11).len());
    assert(option_name(1).len() != option_name(11).len());
    assert(option_name(2).len() != option_name(11).len());
    assert(option_name(3).len() != option_name(11).len());
    assert(option_name(4).len() != option_name(11).len());
    assert(option_name(5).len() != option_name(11).len());
    assert(option_name(6).len() != option_name(11).len());
    assert(option_name(7).len() != option_name(11).len());
    assert(option_name(8).len() != option_name(11).len());
    assert(option_name(9).len() != option_name(11).len());
    assert(option_name(10).len() != option_name(11).len());
    assert(option_name(0).len() != option_name(12).len());
    assert(option_name(1).len() != option_name(12).len());
    assert(option_name(2).len() != option_name(12).len());
    assert(option_name(3).len() != option_name(12).len());
    assert(option_name(4).len() != option_name(12).len());
    assert(option_name(5).len() != option_name(12).len());
    assert(option_name(6).len() != option_name(12).len());
    assert(option_name(7).len() != option_name(12).len());
    assert(option_name(8)[0] != option_name(12)[0]);
    assert(option_name(9)[0] != option_name(12)[0]);
    assert(option_name(10).len() != option_name(12).len());
    assert(option_name(11).len() != option_name(12).len());
    assert(option_name(0).len() != option_name(13).len());
    assert(option_name(1).len() != option_name(13).len());
    assert(option_name(2).len() != option_name(13).len());
    assert(option_name(3).len() != option_name(13).len());
    assert(option_name(4).len() != option_name(13).len());
    assert(option_name(5).len() != option_name(13).len());
    assert(option_name(6).len() != option_name(13).len());
    assert(option_name(7).len() != option_name(13).len());
    assert(option_name(8).len() != option_name(13).len());
    assert(option_name(9).len() != option_name(13).len());
    assert(option_name(10).len() != option_name(13).len());
    assert(option_name(11).len() != option_name(13).len());
    assert(option_name(12).len() != option_name(13).len());
    assert(option_name(0).len() != option_name(14).len());
    assert(option_name(1).len() != option_name(14).len());
    assert(option_name(2).len() != option_name(14).len());
    assert(option_name(3).len() != option_name(14).len());
    assert(option_name(4).len() != option_name(14).len());
    assert(option_name(5).len() != option_name(14).len());
    assert(option_name(6).len() != option_name(14).len());
    assert(option_name(7).len() != option_name(14).len());
    assert(option_name(8).len() != option_name(14).len());
    assert(option_name(9).len() != option_name(14).len());
    assert(option_name(10).len() != option_name(14).len());
    assert(option_name(11).len() != option_name(14).len());
    assert(option_name(12).len() != option_name(14).len());
    assert(option_name(13)[0] != option_name(14)[0]);
    assert(option_name(0).len() != "urls"@.len());
    assert(option_name(1).len() != "urls"@.len());
    assert(option_name(2).len() != "urls"@.len());
    assert(option_name(3)[0] != "urls"@[0]);
    assert(option_name(4).len() != "urls"@.len());
    assert(option_name(5).len() != "urls"@.len());
    assert(option_name(6).len() != "urls"@.len());
    assert(option_name(7).len() != "urls"@.len());
    assert(option_name(8).len() != "urls"@.len());
    assert(option_name(9).len() != "urls"@.len());
    assert(option_name(10).len() != "urls"@.len());
    assert(option_name(11).len() != "urls"@.len());
    assert(option_name(12).len() != "urls"@.len());
    assert(option_name(13).len() != "urls"@.len());
    assert(option_name(14).len() != "urls"@.len());
    assert(option_name(0)[0] != "torrents"@[0]);
    assert(option_name(1).len() != "torrents"@.len());
    assert(option_name(2)[0] != "torrents"@[0]);
    assert(option_name(3).len() != "torrents"@.len());
    assert(option_name(4).len() != "torrents"@.len());
    assert(option_name(5).len() != "torrents"@.len());
    assert(option_name(6).len() != "torrents"@.len());
    assert(option_name(7).len() != "torrents"@.len());
    assert(option_name(8).len() != "torrents"@.len());
    assert(option_name(9).len() != "torrents"@.len());
    assert(option_name(10).len() != "torrents"@.len());
    assert(option_name(11).len() != "torrents"@.len());
    assert(option_name(12).len() != "torrents"@.len());
    assert(option_name(13).len() != "torrents"@.len());
    assert(option_name(14).len() != "torrents"@.len());
}

proof fn lemma_count_concat(a: Seq<(Seq<char>, PartContent)>, b: Seq<(Seq<char>, PartContent)>, name: Seq<char>)
    ensures
        count_named(a + b, name) == count_named(a, name) + count_named(b, name),
    decreases b.len(),
{
    if b.len() > 0 {
        assert((a + b).drop_last() =~= a + b.drop_last());
        lemma_count_concat(a, b.drop_last(), name);
    } else {
        assert(a + b =~= a);
    }
}

proof fn lemma_no_option_in_sources(u: UploadView, name: Seq<char>)
    requires
        name != "urls"@,
        name != "torrents"@,
    ensures
        count_named(u.form_parts_upto(0), name) == 0,
        forall|j: int|
            0 <= j < u.form_parts_upto(0).len() ==> (#[trigger] u.form_parts_upto(0)[j]).0 != name,
{
    let files = u.file_parts();
    assert forall|j: int| 0 <= j < files.len() implies (#[trigger] files[j]).0 != name by {
        assert(files[j].0 == "torrents"@);
    }
    lemma_count_prefix_without(files, name, files.len() as int);
    assert(files.take(files.len() as int) =~= files);
    lemma_count_concat(u.url_parts(), files, name);
    assert(count_named(Seq::<(Seq<char>, PartContent)>::empty(), name) == 0);
    if u.urls.len() > 0 {
        assert(u.url_parts().drop_last() =~= Seq::<(Seq<char>, PartContent)>::empty());
        assert(u.url_parts().last().0 == "urls"@);
    }
    assert(u.form_parts_upto(0) == u.url_parts() + files);
}

proof fn lemma_count_prefix_without(parts: Seq<(Seq<char>, PartContent)>, name: Seq<char>, k: int)
    requires
        0 <= k <= parts.len(),
        forall|j: int| 0 <= j < parts.len() ==> (#[trigger] parts[j]).0 != name,
    ensures
        count_named(parts.take(k), name) == 0,
    decreases k,
{
    if k > 0 {
        assert(parts.take(k).drop_last() =~= parts.take(k - 1));
        lemma_count_prefix_without(parts, name, k - 1);
    }
}

proof fn lemma_option_parts_upto(u: UploadView, m: int, k: int)
    requires
        0 <= m < option_count(),
        0 <= k <= option_count(),
    ensures
        count_named(u.form_parts_upto(k), option_name(m)) == if m < k && u.option_value(m) is Some {
            1nat
        } else {
            0nat
        },
        forall|j: int|
            0 <= j < u.form_parts_upto(k).len() && (#[trigger] u.form_parts_upto(k)[j]).0
                == option_name(m) ==> m < k && u.option_value(m) is Some && u.form_parts_upto(k)[j].1
                == PartContent::Text(u.option_value(m)->0),
    decreases k,
{
    lemma_option_names_distinct();
    if k == 0 {
        lemma_no_option_in_sources(u, option_name(m));
    } else {
        lemma_option_parts_upto(u, m, k - 1);
        let before = u.form_parts_upto(k - 1);
        let added = text_part(option_name(k - 1), u.option_value(k - 1));
        lemma_count_concat(before, added, option_name(m));
        assert(count_named(Seq::<(Seq<char>, PartContent)>::empty(), option_name(m)) == 0);
        if u.option_value(k - 1) is Some {
            assert(added.drop_last() =~= Seq::<(Seq<char>, PartContent)>::empty());
            assert(added.last().0 == option_name(k - 1));
            if k - 1 != m {
                assert(option_name(k - 1) != option_name(m));
            }
        } else {
            assert(added.len() == 0);
        }
        assert(u.form_parts_upto(k) == before + added);
        assert forall|j: int|
            0 <= j < u.form_parts_upto(k).len() && (#[trigger] u.form_parts_upto(k)[j]).0
                == option_name(m) implies m < k && u.option_value(m) is Some
                && u.form_parts_upto(k)[j].1 == PartContent::Text(u.option_value(m)->0) by {
            if j < before.len() {
                assert(u.form_parts_upto(k)[j] == before[j]);
            } else {
                assert(u.form_parts_upto(k)[j] == added[j - before.len()]);
            }
        }
    }
}

/// Each optional field of an upload maps to its own wire name: the form holds
/// exactly one part under that name when the field is set, holding the field's
/// text, and none when it is unset. No two optional fields share a wire name,
/// and none is named `urls` or `torrents`.
pub proof fn lemma_option_wire_names(u: TorrentUpload, m: int)
    requires
        0 <= m < option_count(),
    ensures
        count_named(u@.form_parts(), option_name(m)) == if u@.option_value(m) is Some {
            1nat
        } else {
            0nat
        },
        forall|j: int|
            0 <= j < u@.form_parts().len() && (#[trigger] u@.form_parts()[j]).0 == option_name(m)
                ==> u@.form_parts()[j].1 == PartContent::Text(u@.option_value(m)->0),
        forall|n: int| 0 <= n < option_count() && n != m ==> option_name(m) != #[trigger] option_name(n),
        option_name(m) != "urls"@,
        option_name(m) != "torrents"@,
{
    lemma_option_parts_upto(u@, m, option_count());
    lemma_option_names_distinct();
}

/// A request to add one or more torrents, by URL or as files, with the options
/// to add them with.
#[derive(Debug)]
pub struct TorrentUpload {
    /// URLs of torrent files or magnet links.
    pub urls: Vec<String>,
    /// Torrent files to upload, each with its file name and bytes.
    pub torrents: Vec<(String, Vec<u8>)>,
    /// Download folder.
    pub save_path: Option<String>,
    /// Cookie sent to download the torrent file.
    pub cookie: Option<String>,
    /// Category of the torrent.
    pub category: Option<String>,
    /// Tags of the torrent.
    pub tags: Option<Vec<String>>,
    /// Skip hash checking.
    pub skip_hash_check: Option<bool>,
    /// Add the torrent in the paused state.
    pub paused: Option<bool>,
    /// Create the root folder.
    pub root_folder: Option<bool>,
    /// New name of the torrent.
    pub rename: Option<String>,
    /// Upload speed limit (bytes/s).
    pub upload_limit: Option<i64>,
    /// Download speed limit (bytes/s).
    pub download_limit: Option<i64>,
    /// Share ratio limit.
    pub ratio_limit: Option<Decimal>,
    /// Seeding time limit (seconds).
    pub seeding_time_limit: Option<u64>,
    /// Whether automatic torrent management is used.
    pub auto_tmm: Option<bool>,
    /// Download the pieces in order.
    pub sequential_download: Option<bool>,
    /// Download the first and last pieces first.
    pub first_last_piece_prio: Option<bool>,
}

impl View for TorrentUpload {
    type V = UploadView;

    open spec fn view(&self) -> UploadView {
        UploadView {
            urls: views(self.urls@),
            torrents: files_view(self.torrents@),
            save_path: opt_text(self.save_path),
            cookie: opt_text(self.cookie),
            category: opt_text(self.category),
            tags: opt_texts(self.tags),
            skip_hash_check: self.skip_hash_check,
            paused: self.paused,
            root_folder: self.root_folder,
            rename: opt_text(self.rename),
            upload_limit: self.upload_limit,
            download_limit: self.download_limit,
            ratio_limit: self.ratio_limit,
            seeding_time_limit: self.seeding_time_limit,
            auto_tmm: self.auto_tmm,
            sequential_download: self.sequential_download,
            first_last_piece_prio: self.first_last_piece_prio,
        }
    }
}

impl Default for TorrentUpload {
    fn default() -> (r: TorrentUpload)
        ensures
            r@ == UploadView::empty(),
    {
        let r = TorrentUpload {
            urls: Vec::new(),
            torrents: Vec::new(),
            save_path: None,
            cookie: None,
            category: None,
            tags: None,
            skip_hash_check: None,
            paused: None,
            root_folder: None,
            rename: None,
            upload_limit: None,
            download_limit: None,
            ratio_limit: None,
            seeding_time_limit: None,
            auto_tmm: None,
            sequential_download: None,
            first_last_piece_prio: None,
        };
        assert(r@.urls =~= Seq::<Seq<char>>::empty());
        assert(r@.torrents =~= Seq::<(Seq<char>, Seq<u8>)>::empty());
        r
    }
}

fn push_text_part(parts: &mut Vec<FormPart>, name: &str, value: Option<String>)
    ensures
        parts_view(final(parts)@) == parts_view(old(parts)@) + text_part(name@, opt_text(value)),
{
    match value {
        Some(v) => {
            parts.push(FormPart { name: name.to_string(), body: PartBody::Text(v) });
        },
        None => {},
    }
    assert(parts_view(parts@) =~= parts_view(old(parts)@) + text_part(name@, opt_text(value)));
}

fn bool_value(o: Option<bool>) -> (r: Option<String>)
    ensures
        opt_text(r) == match o {
            Some(b) => Some(bool_text(b)),
            None => None,
        },
{
    match o {
        Some(b) => {
            let mut t = String::new();
            push_bool(&mut t, b);
            Some(t)
        },
        None => None,
    }
}

fn int_value(o: Option<i64>) -> (r: Option<String>)
    ensures
        opt_text(r) == match o {
            Some(n) => Some(int_decimal(n as int)),
            None => None,
        },
{
    match o {
        Some(n) => {
            let mut t = String::new();
            push_int(&mut t, n);
            Some(t)
        },
        None => None,
    }
}

fn nat_value(o: Option<u64>) -> (r: Option<String>)
    ensures
        opt_text(r) == match o {
            Some(n) => Some(nat_decimal(n as nat)),
            None => None,
        },
{
    match o {
        Some(n) => {
            let mut t = String::new();
            push_nat(&mut t, n);
            Some(t)
        },
        None => None,
    }
}

fn decimal_value(o: Option<Decimal>) -> (r: Option<String>)
    ensures
        opt_text(r) == match o {
            Some(d) => Some(millionths_text(d.millionths as int)),
            None => None,
        },
{
    match o {
        Some(d) => {
            let mut t = String::new();
            push_millionths(&mut t, d.millionths);
            Some(t)
        },
        None => None,
    }
}

fn list_value(o: &Option<Vec<String>>) -> (r: Option<String>)
    ensures
        opt_text(r) == match opt_texts(*o) {
            Some(v) => Some(join(v, ","@)),
            None => None,
        },
{
    match o {
        Some(v) => {
            let mut t = String::new();
            push_joined(&mut t, v, ",");
            Some(t)
        },
        None => None,
    }
}

impl TorrentUpload {
    /// A builder with nothing set.
    pub fn builder() -> (r: TorrentUploadBuilder)
        ensures
            r@ == UploadView::empty(),
    {
        TorrentUploadBuilder { params: TorrentUpload::default() }
    }

    /// Encodes the upload as a multipart form: a part `urls` with the URLs one per
    /// line, a part `torrents` for each file, then a text part for each set option
    /// under its wire name. Fails with `EmptyUpload`, before any request, when
    /// the upload has neither a URL nor a file.
    pub fn to_multipart_form(&self) -> (r: Result<MultipartForm, ClientError>)
        ensures
            match r {
                Ok(form) => self@.has_source() && form@ == self@.form_parts(),
                Err(e) => !self@.has_source() && e is EmptyUpload,
            },
    {
        let ghost v = self@;
        if self.urls.len() == 0 && self.torrents.len() == 0 {
            return Err(ClientError::EmptyUpload);
        }
        let mut parts: Vec<FormPart> = Vec::new();
        if self.urls.len() > 0 {
            let mut urls = String::new();
            push_joined(&mut urls, &self.urls, "\n");
            parts.push(FormPart { name: "urls".to_string(), body: PartBody::Text(urls) });
        }
        assert(parts_view(parts@) =~= v.url_parts());
        let mut i: usize = 0;
        while i < self.torrents.len()
            invariant
                v == self@,
                i <= self.torrents.len(),
                parts_view(parts@) == v.url_parts() + v.file_parts().take(i as int),
            decreases self.torrents.len() - i,
        {
            let file = &self.torrents[i];
            let ghost prev = parts@;
            let data = file.1.clone();
            assert(data@ =~= file.1@);
            parts.push(
                FormPart {
                    name: "torrents".to_string(),
                    body: PartBody::File {
                        file_name: file.0.clone(),
                        content_type: "application/x-bittorrent".to_string(),
                        data,
                    },
                },
            );
            assert(v.torrents[i as int] == (file.0@, file.1@));
            assert(parts_view(parts@).last() == v.file_parts()[i as int]);
            assert(parts_view(parts@) =~= parts_view(prev).push(v.file_parts()[i as int]));
            assert(v.file_parts().take(i + 1) =~= v.file_parts().take(i as int).push(
                v.file_parts()[i as int],
            ));
            assert(parts_view(parts@) =~= v.url_parts() + v.file_parts().take(i + 1));
            i = i + 1;
        }
        assert(v.file_parts().take(i as int) =~= v.file_parts());
        assert(parts_view(parts@) == v.form_parts_upto(0));
        push_text_part(&mut parts, "savepath", copy_opt_text(&self.save_path));
        assert(parts_view(parts@) == v.form_parts_upto(1));
        push_text_part(&mut parts, "cookie", copy_opt_text(&self.cookie));
        assert(parts_view(parts@) == v.form_parts_upto(2));
        push_text_part(&mut parts, "category", copy_opt_text(&self.category));
        assert(parts_view(parts@) == v.form_parts_upto(3));
        push_text_part(&mut parts, "tags", list_value(&self.tags));
        assert(parts_view(parts@) == v.form_parts_upto(4));
        push_text_part(&mut parts, "skip_checking", bool_value(self.skip_hash_check));
        assert(parts_view(parts@) == v.form_parts_upto(5));
        push_text_part(&mut parts, "paused", bool_value(self.paused));
        assert(parts_view(parts@) == v.form_parts_upto(6));
        push_text_part(&mut parts, "root_folder", bool_value(self.root_folder));
        assert(parts_view(parts@) == v.form_parts_upto(7));
        push_text_part(&mut parts, "rename", copy_opt_text(&self.rename));
        assert(parts_view(parts@) == v.form_parts_upto(8));
        push_text_part(&mut parts, "upLimit", int_value(self.upload_limit));
        assert(parts_view(parts@) == v.form_parts_upto(9));
        push_text_part(&mut parts, "dlLimit", int_value(self.download_limit));
        assert(parts_view(parts@) == v.form_parts_upto(10));
        push_text_part(&mut parts, "ratioLimit", decimal_value(self.ratio_limit));
        assert(parts_view(parts@) == v.form_parts_upto(11));
        push_text_part(&mut parts, "seedingTimeLimit", nat_value(self.seeding_time_limit));
        assert(parts_view(parts@) == v.form_parts_upto(12));
        push_text_part(&mut parts, "autoTMM", bool_value(self.auto_tmm));
        assert(parts_view(parts@) == v.form_parts_upto(13));
        push_text_part(&mut parts, "sequentialDownload", bool_value(self.sequential_download));
        assert(parts_view(parts@) == v.form_parts_upto(14));
        push_text_part(&mut parts, "firstLastPiecePrio", bool_value(self.first_last_piece_prio));
        assert(parts_view(parts@) == v.form_parts_upto(15));
        Ok(MultipartForm { parts })
    }
}

/// Accumulates a request to add torrents one call at a time.
#[derive(Debug)]
pub struct TorrentUploadBuilder {
    params: TorrentUpload,
}

impl View for TorrentUploadBuilder {
    type V = UploadView;

    closed spec fn view(&self) -> UploadView {
        self.params@
    }
}

impl TorrentUploadBuilder {
    /// Adds the URL of a torrent file or a magnet link, after those added before.
    pub fn url(&mut self, url: String) -> (r: &mut Self)
        ensures
            r@ == (UploadView { urls: old(self)@.urls.push(url@), ..old(self)@ }),
            *final(self) == *final(r),
    {
        let ghost before = self@;
        self.params.urls.push(url);
        assert(views(self.params.urls@) =~= before.urls.push(url@));
        self
    }

    /// Adds a torrent file given by its file name and bytes, after those added before.
    pub fn torrent_data(&mut self, filename: String, data: Vec<u8>) -> (r: &mut Self)
        ensures
            r@ == (UploadView { torrents: old(self)@.torrents.push((filename@, data@)), ..old(self)@ }),
            *final(self) == *final(r),
    {
        let ghost before = self@;
        self.params.torrents.push((filename, data));
        assert(files_view(self.params.torrents@) =~= before.torrents.push((filename@, data@)));
        self
    }

    /// Adds one tag, after those added before.
    pub fn tag(&mut self, tag: String) -> (r: &mut Self)
        ensures
            r@ == (UploadView {
                tags: Some(
                    match old(self)@.tags {
                        Some(t) => t,
                        None => Seq::empty(),
                    }.push(tag@),
                ),
                ..old(self)@
            }),
            *final(self) == *final(r),
    {
        let ghost before = self@;
        let ghost item = tag@;
        match self.params.tags.take() {
            Some(mut list) => {
                list.push(tag);
                assert(views(list@) =~= before.tags->0.push(item));
                self.params.tags = Some(list);
            },
            None => {
                let mut list: Vec<String> = Vec::new();
                list.push(tag);
                assert(views(list@) =~= Seq::<Seq<char>>::empty().push(item));
                self.params.tags = Some(list);
            },
        }
        self
    }

    /// Sets the tags, in place of any given before.
    pub fn tags(&mut self, tags: Vec<String>) -> (r: &mut Self)
        ensures
            r@ == (UploadView { tags: Some(views(tags@)), ..old(self)@ }),
            *final(self) == *final(r),
    {
        self.params.tags = Some(tags);
        self
    }

    /// Sets the option: download folder.
    pub fn save_path(&mut self, save_path: String) -> (r: &mut Self)
        ensures
            r@ == (UploadView { save_path: Some(save_path@), ..old(self)@ }),
            *final(self) == *final(r),
    {
        self.params.save_path = Some(save_path);
        self
    }

    /// Sets the option: cookie sent to download the torrent file.
    pub fn cookie(&mut self, cookie: String) -> (r: &mut Self)
        ensures
            r@ == (UploadView { cookie: Some(cookie@), ..old(self)@ }),
            *final(self) == *final(r),
    {
        self.params.cookie = Some(cookie);
        self
    }

    /// Sets the option: category of the torrent.
    pub fn category(&mut self, category: String) -> (r: &mut Self)
        ensures
            r@ == (UploadView { category: Some(category@), ..old(self)@ }),
            *final(self) == *final(r),
    {
        self.params.category = Some(category);
        self
    }

    /// Sets the option: skip hash checking.
    pub fn skip_hash_check(&mut self, skip_hash_check: bool) -> (r: &mut Self)
        ensures
            r@ == (UploadView { skip_hash_check: Some(skip_hash_check), ..old(self)@ }),
            *final(self) == *final(r),
    {
        self.params.skip_hash_check = Some(skip_hash_check);
        self
    }

    /// Sets the option: add the torrent in the paused state.
    pub fn paused(&mut self, paused: bool) -> (r: &mut Self)
        ensures
            r@ == (UploadView { paused: Some(paused), ..old(self)@ }),
            *final(self) == *final(r),
    {
        self.params.paused = Some(paused);
        self
    }

    /// Sets the option: create the root folder.
    pub fn root_folder(&mut self, root_folder: bool) -> (r: &mut Self)
        ensures
            r@ == (UploadView { root_folder: Some(root_folder), ..old(self)@ }),
            *final(self) == *final(r),
    {
        self.params.root_folder = Some(root_folder);
        self
    }

    /// Sets the option: new name of the torrent.
    pub fn rename(&mut self, rename: String) -> (r: &mut Self)
        ensures
            r@ == (UploadView { rename: Some(rename@), ..old(self)@ }),
            *final(self) == *final(r),
    {
        self.params.rename = Some(rename);
        self
    }

    /// Sets the option: upload speed limit (bytes/s).
    pub fn upload_limit(&mut self, upload_limit: i64) -> (r: &mut Self)
        ensures
            r@ == (UploadView { upload_limit: Some(upload_limit), ..old(self)@ }),
            *final(self) == *final(r),
    {
        self.params.upload_limit = Some(upload_limit);
        self
    }

    /// Sets the option: download speed limit (bytes/s).
    pub fn download_limit(&mut self, download_limit: i64) -> (r: &mut Self)
        ensures
            r@ == (UploadView { download_limit: Some(download_limit), ..old(self)@ }),
            *final(self) == *final(r),
    {
        self.params.download_limit = Some(download_limit);
        self
    }

    /// Sets the option: share ratio limit.
    pub fn ratio_limit(&mut self, ratio_limit: Decimal) -> (r: &mut Self)
        ensures
            r@ == (UploadView { ratio_limit: Some(ratio_limit), ..old(self)@ }),
            *final(self) == *final(r),
    {
        self.params.ratio_limit = Some(ratio_limit);
        self
    }

    /// Sets the option: seeding time limit (seconds).
    pub fn seeding_time_limit(&mut self, seeding_time_limit: u64) -> (r: &mut Self)
        ensures
            r@ == (UploadView { seeding_time_limit: Some(seeding_time_limit), ..old(self)@ }),
            *final(self) == *final(r),
    {
        self.params.seeding_time_limit = Some(seeding_time_limit);
        self
    }

    /// Sets the option: whether automatic torrent management is used.
    pub fn auto_tmm(&mut self, auto_tmm: bool) -> (r: &mut Self)
        ensures
            r@ == (UploadView { auto_tmm: Some(auto_tmm), ..old(self)@ }),
            *final(self) == *final(r),
    {
        self.params.auto_tmm = Some(auto_tmm);
        self
    }

    /// Sets the option: download the pieces in order.
    pub fn sequential_download(&mut self, sequential_download: bool) -> (r: &mut Self)
        ensures
            r@ == (UploadView { sequential_download: Some(sequential_download), ..old(self)@ }),
            *final(self) == *final(r),
    {
        self.params.sequential_download = Some(sequential_download);
        self
    }

    /// Sets the option: download the first and last pieces first.
    pub fn first_last_piece_prio(&mut self, first_last_piece_prio: bool) -> (r: &mut Self)
        ensures
            r@ == (UploadView { first_last_piece_prio: Some(first_last_piece_prio), ..old(self)@ }),
            *final(self) == *final(r),
    {
        self.params.first_last_piece_prio = Some(first_last_piece_prio);
        self
    }

    /// The request as configured so far.
    pub fn build(&self) -> (r: &TorrentUpload)
        ensures
            r@ == self@,
    {
        &self.params
    }
}

} // verus!
