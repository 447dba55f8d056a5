//! The filter and paging options of a torrent list query, and their encoding
//! as a query string.

use vstd::prelude::*;

use crate::text::{
    bool_text, copy_opt_text, copy_texts, int_decimal, join, opt_text, push_bool, push_int,
    push_joined, text_eq, views,
};

verus! {

/// The state filter of a torrent list query.
#[derive(Debug, Clone, Copy, PartialEq, Eq, Structural)]
pub enum TorrentListFilter {
    All,
    Downloading,
    Seeding,
    Completed,
    Paused,
    Active,
    Inactive,
    Resumed,
    Stalled,
    StalledUploading,
    StalledDownloading,
    Errored,
}

impl TorrentListFilter {
    /// The name the remote expects for this filter.
    pub open spec fn wire_name(self) -> Seq<char> {
        match self {
            TorrentListFilter::All => "all"@,
            TorrentListFilter::Downloading => "downloading"@,
            TorrentListFilter::Seeding => "seeding"@,
            TorrentListFilter::Completed => "completed"@,
            TorrentListFilter::Paused => "paused"@,
            TorrentListFilter::Active => "active"@,
            TorrentListFilter::Inactive => "inactive"@,
            TorrentListFilter::Resumed => "resumed"@,
            TorrentListFilter::Stalled => "stalled"@,
            TorrentListFilter::StalledUploading => "stalled_uploading"@,
            TorrentListFilter::StalledDownloading => "stalled_downloading"@,
            TorrentListFilter::Errored => "errored"@,
        }
    }

    /// The filter whose wire name is `name`, if there is one.
    pub open spec fn named(name: Seq<char>) -> Option<TorrentListFilter> {
        if name == "all"@ {
            Some(TorrentListFilter::All)
        } else if name == "downloading"@ {
            Some(TorrentListFilter::Downloading)
        } else if name == "seeding"@ {
            Some(TorrentListFilter::Seeding)
        } else if name == "completed"@ {
            Some(TorrentListFilter::Completed)
        } else if name == "paused"@ {
            Some(TorrentListFilter::Paused)
        } else if name == "active"@ {
            Some(TorrentListFilter::Active)
        } else if name == "inactive"@ {
            Some(TorrentListFilter::Inactive)
        } else if name == "resumed"@ {
            Some(TorrentListFilter::Resumed)
        } else if name == "stalled"@ {
            Some(TorrentListFilter::Stalled)
        } else if name == "stalled_uploading"@ {
            Some(TorrentListFilter::StalledUploading)
        } else if name == "stalled_downloading"@ {
            Some(TorrentListFilter::StalledDownloading)
        } else if name == "errored"@ {
            Some(TorrentListFilter::Errored)
        } else {
            None
        }
    }

    /// The filter whose wire name is `name`; `None` for any other text.
    pub fn from_name(name: &str) -> (r: Option<TorrentListFilter>)
        ensures
            r == TorrentListFilter::named(name@),
    {
        if text_eq(name, "all") {
            Some(TorrentListFilter::All)
        } else if text_eq(name, "downloading") {
            Some(TorrentListFilter::Downloading)
        } else if text_eq(name, "seeding") {
            Some(TorrentListFilter::Seeding)
        } else if text_eq(name, "completed") {
            Some(TorrentListFilter::Completed)
        } else if text_eq(name, "paused") {
            Some(TorrentListFilter::Paused)
        } else if text_eq(name, "active") {
            Some(TorrentListFilter::Active)
        } else if text_eq(name, "inactive") {
            Some(TorrentListFilter::Inactive)
        } else if text_eq(name, "resumed") {
            Some(TorrentListFilter::Resumed)
        } else if text_eq(name, "stalled") {
            Some(TorrentListFilter::Stalled)
        } else if text_eq(name, "stalled_uploading") {
            Some(TorrentListFilter::StalledUploading)
        } else if text_eq(name, "stalled_downloading") {
            Some(TorrentListFilter::StalledDownloading)
        } else if text_eq(name, "errored") {
            Some(TorrentListFilter::Errored)
        } else {
            None
        }
    }

    /// The wire name of this filter.
    pub fn to_string(&self) -> (r: &str)
        ensures
            r@ == self.wire_name(),
    {
        match *self {
            TorrentListFilter::All => "all",
            TorrentListFilter::Downloading => "downloading",
            TorrentListFilter::Seeding => "seeding",
            TorrentListFilter::Completed => "completed",
            TorrentListFilter::Paused => "paused",
            TorrentListFilter::Active => "active",
            TorrentListFilter::Inactive => "inactive",
            TorrentListFilter::Resumed => "resumed",
            TorrentListFilter::Stalled => "stalled",
            TorrentListFilter::StalledUploading => "stalled_uploading",
            TorrentListFilter::StalledDownloading => "stalled_downloading",
            TorrentListFilter::Errored => "errored",
        }
    }
}

/// Decoding the wire name of any filter gives back that filter.
pub proof fn lemma_filter_name_round_trip(f: TorrentListFilter)
    ensures
        TorrentListFilter::named(f.wire_name()) == Some(f),
{
    reveal_strlit("all");
    reveal_strlit("downloading");
    reveal_strlit("seeding");
    reveal_strlit("completed");
    reveal_strlit("paused");
    reveal_strlit("active");
    reveal_strlit("inactive");
    reveal_strlit("resumed");
    reveal_strlit("stalled");
    reveal_strlit("stalled_uploading");
    reveal_strlit("stalled_downloading");
    reveal_strlit("errored");
    match f {
        TorrentListFilter::All => {
        },
        TorrentListFilter::Downloading => {
            assert("downloading"@.len() != "all"@.len());
        },
        TorrentListFilter::Seeding => {
            assert("seeding"@.len() != "all"@.len());
            assert("seeding"@.len() != "downloading"@.len());
        },
        TorrentListFilter::Completed => {
            assert("completed"@.len() != "all"@.len());
            assert("completed"@.len() != "downloading"@.len());
            assert("completed"@.len() != "seeding"@.len());
        },
        TorrentListFilter::Paused => {
            assert("paused"@.len() != "all"@.len());
            assert("paused"@.len() != "downloading"@.len());
            assert("paused"@.len() != "seeding"@.len());
            assert("paused"@.len() != "completed"@.len());
        },
        TorrentListFilter::Active => {
            assert("active"@.len() != "all"@.len());
            assert("active"@.len() != "downloading"@.len());
            assert("active"@.len() != "seeding"@.len());
            assert("active"@.len() != "completed"@.len());
            assert("active"@[0] != "paused"@[0]);
        },
        TorrentListFilter::Inactive => {
            assert("inactive"@.len() != "all"@.len());
            assert("inactive"@.len() != "downloading"@.len());
            assert("inactive"@.len() != "seeding"@.len());
            assert("inactive"@.len() != "completed"@.len());
            assert("inactive"@.len() != "paused"@.len());
            assert("inactive"@.len() != "active"@.len());
        },
        TorrentListFilter::Resumed => {
            assert("resumed"@.len() != "all"@.len());
            assert("resumed"@.len() != "downloading"@.len());
            assert("resumed"@[0] != "seeding"@[0]);
            assert("resumed"@.len() != "completed"@.len());
            assert("resumed"@.len() != "paused"@.len());
            assert("resumed"@.len() != "active"@.len());
            assert("resumed"@.len() != "inactive"@.len());
        },
        TorrentListFilter::Stalled => {
            assert("stalled"@.len() != "all"@.len());
            assert("stalled"@.len() != "downloading"@.len());
            assert("stalled"@[1] != "seeding"@[1]);
            assert("stalled"@.len() != "completed"@.len());
            assert("stalled"@.len() != "paused"@.len());
            assert("stalled"@.len() != "active"@.len());
            assert("stalled"@.len() != "inactive"@.len());
            assert("stalled"@[0] != "resumed"@[0]);
        },
        TorrentListFilter::StalledUploading => {
            assert("stalled_uploading"@.len() != "all"@.len());
            assert("stalled_uploading"@.len() != "downloading"@.len());
            assert("stalled_uploading"@.len() != "seeding"@.len());
            assert("stalled_uploading"@.len() != "completed"@.len());
            assert("stalled_uploading"@.len() != "paused"@.len());
            assert("stalled_uploading"@.len() != "active"@.len());
            assert("stalled_uploading"@.len() != "inactive"@.len());
            assert("stalled_uploading"@.len() != "resumed"@.len());
            assert("stalled_uploading"@.len() != "stalled"@.len());
        },
        TorrentListFilter::StalledDownloading => {
            assert("stalled_downloading"@.len() != "all"@.len());
            assert("stalled_downloading"@.len() != "downloading"@.len());
            assert("stalled_downloading"@.len() != "seeding"@.len());
            assert("stalled_downloading"@.len() != "completed"@.len());
            assert("stalled_downloading"@.len() != "paused"@.len());
            assert("stalled_downloading"@.len() != "active"@.len());
            assert("stalled_downloading"@.len() != "inactive"@.len());
            assert("stalled_downloading"@.len() != "resumed"@.len());
            assert("stalled_downloading"@.len() != "stalled"@.len());
            assert("stalled_downloading"@.len() != "stalled_uploading"@.len());
        },
        TorrentListFilter::Errored => {
            assert("errored"@.len() != "all"@.len());
            assert("errored"@.len() != "downloading"@.len());
            assert("errored"@[0] != "seeding"@[0]);
            assert("errored"@.len() != "completed"@.len());
            assert("errored"@.len() != "paused"@.len());
            assert("errored"@.len() != "active"@.len());
            assert("errored"@.len() != "inactive"@.len());
            assert("errored"@[0] != "resumed"@[0]);
            assert("errored"@[0] != "stalled"@[0]);
            assert("errored"@.len() != "stalled_uploading"@.len());
            assert("errored"@.len() != "stalled_downloading"@.len());
        },
    }
}

/// The options of a torrent list query as plain values.
pub struct ListQuery {
    pub filter: Option<TorrentListFilter>,
    pub category: Option<Seq<char>>,
    pub tag: Option<Seq<char>>,
    pub reverse: Option<bool>,
    pub limit: Option<i32>,
    pub offset: Option<i32>,
    pub hashes: Option<Seq<Seq<char>>>,
}

/// The key of query field `i`; the fields come in this order.
pub open spec fn param_key(i: int) -> Seq<char> {
    if i == 0 {
        "filter"@
    } else if i == 1 {
        "category"@
    } else if i == 2 {
        "tag"@
    } else if i == 3 {
        "reverse"@
    } else if i == 4 {
        "limit"@
    } else if i == 5 {
        "offset"@
    } else {
        "hashes"@
    }
}

/// The number of query fields.
pub open spec fn param_count() -> int {
    7
}

/// The text `&key=value` of a set field; nothing for an unset one.
pub open spec fn segment(key: Seq<char>, value: Option<Seq<char>>) -> Seq<char> {
    match value {
        Some(v) => "&"@ + key + "="@ + v,
        None => Seq::empty(),
    }
}

/// The segments of a list of set fields, each given by its index and value, one after another.
pub open spec fn segments_text(fields: Seq<(int, Seq<char>)>) -> Seq<char>
    decreases fields.len(),
{
    if fields.len() == 0 {
        Seq::empty()
    } else {
        segment(param_key(fields[0].0), Some(fields[0].1)) + segments_text(fields.drop_first())
    }
}

impl ListQuery {
    /// No field set.
    pub open spec fn empty() -> ListQuery {
        ListQuery {
            filter: None,
            category: None,
            tag: None,
            reverse: None,
            limit: None,
            offset: None,
            hashes: None,
        }
    }

    /// The text of field `i`, if it is set.
    pub open spec fn field_value(self, i: int) -> Option<Seq<char>> {
        if i == 0 {
            match self.filter {
                Some(f) => Some(f.wire_name()),
                None => None,
            }
        } else if i == 1 {
            self.category
        } else if i == 2 {
            self.tag
        } else if i == 3 {
            match self.reverse {
                Some(b) => Some(bool_text(b)),
                None => None,
            }
        } else if i == 4 {
            match self.limit {
                Some(n) => Some(int_decimal(n as int)),
                None => None,
            }
        } else if i == 5 {
            match self.offset {
                Some(n) => Some(int_decimal(n as int)),
                None => None,
            }
        } else if i == 6 {
            match self.hashes {
                Some(h) => Some(join(h, "|"@)),
                None => None,
            }
        } else {
            None
        }
    }

    /// The encoded query: the segment of each field, in field order.
    pub open spec fn query_text(self) -> Seq<char> {
        segment(param_key(0), self.field_value(0)) + segment(param_key(1), self.field_value(1))
            + segment(param_key(2), self.field_value(2)) + segment(param_key(3), self.field_value(3))
            + segment(param_key(4), self.field_value(4)) + segment(param_key(5), self.field_value(5))
            + segment(param_key(6), self.field_value(6))
    }

    /// The set fields from index `i` on, each with its index and value, in field order.
    pub open spec fn set_fields_from(self, i: int) -> Seq<(int, Seq<char>)>
        decreases param_count() - i,
    {
        if i >= param_count() || i < 0 {
            Seq::empty()
        } else {
            let rest = self.set_fields_from(i + 1);
            match self.field_value(i) {
                Some(v) => seq![(i, v)] + rest,
                None => rest,
            }
        }
    }

    /// The set fields, each with its index and value, in field order.
    pub open spec fn set_fields(self) -> Seq<(int, Seq<char>)> {
        self.set_fields_from(0)
    }
}

proof fn lemma_key_prefixes()
    ensures
        "&filter="@ == "&"@ + param_key(0) + "="@,
        "&category="@ == "&"@ + param_key(1) + "="@,
        "&tag="@ == "&"@ + param_key(2) + "="@,
        "&reverse="@ == "&"@ + param_key(3) + "="@,
        "&limit="@ == "&"@ + param_key(4) + "="@,
        "&offset="@ == "&"@ + param_key(5) + "="@,
        "&hashes="@ == "&"@ + param_key(6) + "="@,
{
    reveal_strlit("&");
    reveal_strlit("=");
    reveal_strlit("&filter=");
    reveal_strlit("filter");
    reveal_strlit("&category=");
    reveal_strlit("category");
    reveal_strlit("&tag=");
    reveal_strlit("tag");
    reveal_strlit("&reverse=");
    reveal_strlit("reverse");
    reveal_strlit("&limit=");
    reveal_strlit("limit");
    reveal_strlit("&offset=");
    reveal_strlit("offset");
    reveal_strlit("&hashes=");
    reveal_strlit("hashes");
    assert("&filter="@ =~= "&"@ + param_key(0) + "="@);
    assert("&category="@ =~= "&"@ + param_key(1) + "="@);
    assert("&tag="@ =~= "&"@ + param_key(2) + "="@);
    assert("&reverse="@ =~= "&"@ + param_key(3) + "="@);
    assert("&limit="@ =~= "&"@ + param_key(4) + "="@);
    assert("&offset="@ =~= "&"@ + param_key(5) + "="@);
    assert("&hashes="@ =~= "&"@ + param_key(6) + "="@);
}

spec fn text_from(q: ListQuery, i: int) -> Seq<char>
    decreases param_count() - i,
{
    if i >= param_count() || i < 0 {
        Seq::empty()
    } else {
        segment(param_key(i), q.field_value(i)) + text_from(q, i + 1)
    }
}

proof fn lemma_set_fields_from(q: ListQuery, i: int)
    requires
        0 <= i <= param_count(),
    ensures
        forall|j: int|
            0 <= j < q.set_fields_from(i).len() ==> i <= #[trigger] q.set_fields_from(i)[j].0
                < param_count() && q.field_value(q.set_fields_from(i)[j].0) == Some(
                q.set_fields_from(i)[j].1,
            ),
        forall|j: int, k: int|
            0 <= j < k < q.set_fields_from(i).len() ==> #[trigger] q.set_fields_from(i)[j].0
                < #[trigger] q.set_fields_from(i)[k].0,
        forall|m: int|
            i <= m < param_count() && (#[trigger] q.field_value(m)) is Some ==> exists|j: int|
                0 <= j < q.set_fields_from(i).len() && q.set_fields_from(i)[j].0 == m,
        segments_text(q.set_fields_from(i)) == text_from(q, i),
    decreases param_count() - i,
{
    if i < param_count() {
        lemma_set_fields_from(q, i + 1);
        let rest = q.set_fields_from(i + 1);
        let fs = q.set_fields_from(i);
        match q.field_value(i) {
            Some(v) => {
                assert(fs == seq![(i, v)] + rest);
                assert(fs.drop_first() =~= rest);
                assert forall|j: int| 1 <= j < fs.len() implies fs[j] == rest[j - 1] by {}
                assert forall|m: int|
                    i <= m < param_count() && (#[trigger] q.field_value(m)) is Some implies exists|j: int|
                        0 <= j < fs.len() && fs[j].0 == m by {
                    if m == i {
                        assert(fs[0].0 == m);
                    } else {
                        let j0 = choose|j: int| 0 <= j < rest.len() && rest[j].0 == m;
                        assert(fs[j0 + 1].0 == m);
                    }
                }
            },
            None => {},
        }
    } else {
        assert(q.set_fields_from(i).len() == 0);
    }
}

proof fn lemma_query_text_unfold(q: ListQuery)
    ensures
        q.query_text() == text_from(q, 0),
{
    let s = |i: int| segment(param_key(i), q.field_value(i));
    let t = |i: int| text_from(q, i);
    assert(t(7) == Seq::<char>::empty());
    assert(t(6) == s(6) + t(7));
    assert(t(5) == s(5) + t(6));
    assert(t(4) == s(4) + t(5));
    assert(t(3) == s(3) + t(4));
    assert(t(2) == s(2) + t(3));
    assert(t(1) == s(1) + t(2));
    assert(t(0) == s(0) + t(1));
    let l0 = s(0);
    let l1 = l0 + s(1);
    let l2 = l1 + s(2);
    let l3 = l2 + s(3);
    let l4 = l3 + s(4);
    let l5 = l4 + s(5);
    let l6 = l5 + s(6);
    assert(l0 + t(1) == t(0));
    vstd::seq_lib::lemma_concat_associative(l0, s(1), t(2));
    assert(l1 + t(2) == t(0));
    vstd::seq_lib::lemma_concat_associative(l1, s(2), t(3));
    assert(l2 + t(3) == t(0));
    vstd::seq_lib::lemma_concat_associative(l2, s(3), t(4));
    assert(l3 + t(4) == t(0));
    vstd::seq_lib::lemma_concat_associative(l3, s(4), t(5));
    assert(l4 + t(5) == t(0));
    vstd::seq_lib::lemma_concat_associative(l4, s(5), t(6));
    assert(l5 + t(6) == t(0));
    vstd::seq_lib::lemma_concat_associative(l5, s(6), t(7));
    assert(l6 + t(7) == t(0));
    assert(l6 + t(7) =~= l6);
    assert(q.query_text() == l6);
}

proof fn lemma_keys_distinct()
    ensures
        forall|m: int, n: int|
            0 <= m < n < param_count() ==> #[trigger] param_key(m) != #[trigger] param_key(n),
{
    reveal_strlit("filter");
    reveal_strlit("category");
    reveal_strlit("tag");
    reveal_strlit("reverse");
    reveal_strlit("limit");
    reveal_strlit("offset");
    reveal_strlit("hashes");
    assert(param_key(0).len() != param_key(1).len());
    assert(param_key(0).len() != param_key(2).len());
    assert(param_key(1).len() != param_key(2).len());
    assert(param_key(0).len() != param_key(3).len());
    assert(param_key(1).len() != param_key(3).len());
    assert(param_key(2).len() != param_key(3).len());
    assert(param_key(0).len() != param_key(4).len());
    assert(param_key(1).len() != param_key(4).len());
    assert(param_key(2).len() != param_key(4).len());
    assert(param_key(3).len() != param_key(4).len());
    assert(param_key(0)[0] != param_key(5)[0]);
    assert(param_key(1).len() != param_key(5).len());
    assert(param_key(2).len() != param_key(5).len());
    assert(param_key(3).len() != param_key(5).len());
    assert(param_key(4).len() != param_key(5).len());
    assert(param_key(0)[0] != param_key(6)[0]);
    assert(param_key(1).len() != param_key(6).len());
    assert(param_key(2).len() != param_key(6).len());
    assert(param_key(3).len() != param_key(6).len());
    assert(param_key(4).len() != param_key(6).len());
    assert(param_key(5)[0] != param_key(6)[0]);
}

/// The encoded query is made of one `&key=value` segment for each set field and
/// none for an unset one, the fields in the order filter, category, tag, reverse,
/// limit, offset, hashes; no two fields share a key.
pub proof fn lemma_one_segment_per_set_field(p: GetTorrentListParams)
    ensures
        p@.query_text() == segments_text(p@.set_fields()),
        forall|j: int|
            0 <= j < p@.set_fields().len() ==> 0 <= #[trigger] p@.set_fields()[j].0 < param_count()
                && p@.field_value(p@.set_fields()[j].0) == Some(p@.set_fields()[j].1),
        forall|j: int, k: int|
            0 <= j < k < p@.set_fields().len() ==> #[trigger] p@.set_fields()[j].0
                < #[trigger] p@.set_fields()[k].0,
        forall|m: int|
            0 <= m < param_count() ==> ((#[trigger] p@.field_value(m)) is Some <==> exists|j: int|
                0 <= j < p@.set_fields().len() && p@.set_fields()[j].0 == m),
        forall|m: int, n: int|
            0 <= m < n < param_count() ==> #[trigger] param_key(m) != #[trigger] param_key(n),
{
    let q = p@;
    lemma_set_fields_from(q, 0);
    lemma_query_text_unfold(q);
    lemma_keys_distinct();
}

/// Filtering and paging options for listing torrents. Every field is optional;
/// a field left unset is left out of the query.
#[derive(Debug, Clone)]
pub struct GetTorrentListParams {
    /// Only torrents in this state.
    pub filter: Option<TorrentListFilter>,
    /// Only torrents of this category.
    pub category: Option<String>,
    /// Only torrents with this tag.
    pub tag: Option<String>,
    /// Reverse the sort order.
    pub reverse: Option<bool>,
    /// At most this many results.
    pub limit: Option<i32>,
    /// Skip this many results.
    pub offset: Option<i32>,
    /// Only torrents with these hashes.
    pub hashes: Option<Vec<String>>,
}

impl View for GetTorrentListParams {
    type V = ListQuery;

    open spec fn view(&self) -> ListQuery {
        ListQuery {
            filter: self.filter,
            category: opt_text(self.category),
            tag: opt_text(self.tag),
            reverse: self.reverse,
            limit: self.limit,
            offset: self.offset,
            hashes: match self.hashes {
                Some(h) => Some(views(h@)),
                None => None,
            },
        }
    }
}

impl Default for GetTorrentListParams {
    fn default() -> (r: GetTorrentListParams)
        ensures
            r@ == ListQuery::empty(),
    {
        GetTorrentListParams {
            filter: None,
            category: None,
            tag: None,
            reverse: None,
            limit: None,
            offset: None,
            hashes: None,
        }
    }
}

impl GetTorrentListParams {
    /// A builder with no option set.
    pub fn builder() -> (r: GetTorrentListParamsBuilder)
        ensures
            r@ == ListQuery::empty(),
    {
        GetTorrentListParamsBuilder { param: GetTorrentListParams::default() }
    }

    /// The query text: `&key=value` for each set option, in the order filter,
    /// category, tag, reverse, limit, offset, hashes, with hashes joined by `|`.
    pub fn to_params(&self) -> (r: String)
        ensures
            r@ == self@.query_text(),
    {
        let ghost q = self@;
        proof {
            lemma_key_prefixes();
        }
        let filter: Option<&str> = match &self.filter {
            Some(f) => Some(f.to_string()),
            None => None,
        };
        let category: Option<&str> = match &self.category {
            Some(c) => Some(c.as_str()),
            None => None,
        };
        let tag: Option<&str> = match &self.tag {
            Some(t) => Some(t.as_str()),
            None => None,
        };
        let mut reverse_text = String::new();
        let mut limit_text = String::new();
        let mut offset_text = String::new();
        let mut hashes_text = String::new();
        if let Some(b) = self.reverse {
            push_bool(&mut reverse_text, b);
        }
        if let Some(n) = self.limit {
            push_int(&mut limit_text, n as i64);
        }
        if let Some(n) = self.offset {
            push_int(&mut offset_text, n as i64);
        }
        if let Some(h) = &self.hashes {
            push_joined(&mut hashes_text, h, "|");
        }
        let reverse: Option<&str> = if self.reverse.is_some() {
            Some(reverse_text.as_str())
        } else {
            None
        };
        let limit: Option<&str> = if self.limit.is_some() {
            Some(limit_text.as_str())
        } else {
            None
        };
        let offset: Option<&str> = if self.offset.is_some() {
            Some(offset_text.as_str())
        } else {
            None
        };
        let hashes: Option<&str> = if self.hashes.is_some() {
            Some(hashes_text.as_str())
        } else {
            None
        };
        assert(segment(param_key(0), q.field_value(0)) == segment_of("&filter="@, filter));
        assert(segment(param_key(1), q.field_value(1)) == segment_of("&category="@, category));
        assert(segment(param_key(2), q.field_value(2)) == segment_of("&tag="@, tag));
        assert(segment(param_key(3), q.field_value(3)) == segment_of("&reverse="@, reverse));
        assert(segment(param_key(4), q.field_value(4)) == segment_of("&limit="@, limit));
        assert(segment(param_key(5), q.field_value(5)) == segment_of("&offset="@, offset));
        assert(segment(param_key(6), q.field_value(6)) == segment_of("&hashes="@, hashes));
        let mut params = String::new();
        push_segment(&mut params, "&filter=", filter);
        assert(params@ =~= segment_of("&filter="@, filter));
        push_segment(&mut params, "&category=", category);
        push_segment(&mut params, "&tag=", tag);
        push_segment(&mut params, "&reverse=", reverse);
        push_segment(&mut params, "&limit=", limit);
        push_segment(&mut params, "&offset=", offset);
        push_segment(&mut params, "&hashes=", hashes);
        params
    }
}

/// The text `prefix` followed by the value, when there is a value.
spec fn segment_of(prefix: Seq<char>, value: Option<&str>) -> Seq<char> {
    match value {
        Some(v) => prefix + v@,
        None => Seq::empty(),
    }
}

fn push_segment(out: &mut String, prefix: &str, value: Option<&str>)
    ensures
        final(out)@ == old(out)@ + segment_of(prefix@, value),
{
    if let Some(v) = value {
        out.append(prefix);
        out.append(v);
    }
    assert(out@ =~= old(out)@ + segment_of(prefix@, value));
}

/// Accumulates the options of a list query one call at a time.
pub struct GetTorrentListParamsBuilder {
    param: GetTorrentListParams,
}

impl View for GetTorrentListParamsBuilder {
    type V = ListQuery;

    closed spec fn view(&self) -> ListQuery {
        self.param@
    }
}

impl GetTorrentListParamsBuilder {
    /// Sets the state filter.
    pub fn filter(&mut self, filter: TorrentListFilter) -> (r: &mut Self)
        ensures
            r@ == (ListQuery { filter: Some(filter), ..old(self)@ }),
            *final(self) == *final(r),
    {
        self.param.filter = Some(filter);
        self
    }

    /// Sets the category.
    pub fn category(&mut self, category: &str) -> (r: &mut Self)
        ensures
            r@ == (ListQuery { category: Some(category@), ..old(self)@ }),
            *final(self) == *final(r),
    {
        self.param.category = Some(category.to_string());
        self
    }

    /// Sets the tag.
    pub fn tag(&mut self, tag: &str) -> (r: &mut Self)
        ensures
            r@ == (ListQuery { tag: Some(tag@), ..old(self)@ }),
            *final(self) == *final(r),
    {
        self.param.tag = Some(tag.to_string());
        self
    }

    /// Asks for the results in reverse order.
    pub fn reverse(&mut self) -> (r: &mut Self)
        ensures
            r@ == (ListQuery { reverse: Some(true), ..old(self)@ }),
            *final(self) == *final(r),
    {
        self.param.reverse = Some(true);
        self
    }

    /// Sets the largest number of results.
    pub fn limit(&mut self, limit: i32) -> (r: &mut Self)
        ensures
            r@ == (ListQuery { limit: Some(limit), ..old(self)@ }),
            *final(self) == *final(r),
    {
        self.param.limit = Some(limit);
        self
    }

    /// Sets the number of results to skip.
    pub fn offset(&mut self, offset: i32) -> (r: &mut Self)
        ensures
            r@ == (ListQuery { offset: Some(offset), ..old(self)@ }),
            *final(self) == *final(r),
    {
        self.param.offset = Some(offset);
        self
    }

    /// Adds one hash to the hashes filtered by, after those added before.
    pub fn hash(&mut self, hash: &str) -> (r: &mut Self)
        ensures
            r@ == (ListQuery {
                hashes: Some(
                    match old(self)@.hashes {
                        Some(h) => h,
                        None => Seq::empty(),
                    }.push(hash@),
                ),
                ..old(self)@
            }),
            *final(self) == *final(r),
    {
        let ghost before = self@;
        let item = hash.to_string();
        match self.param.hashes.take() {
            Some(mut list) => {
                list.push(item);
                assert(views(list@) =~= before.hashes->0.push(hash@));
                self.param.hashes = Some(list);
            },
            None => {
                let mut list: Vec<String> = Vec::new();
                list.push(item);
                assert(views(list@) =~= Seq::<Seq<char>>::empty().push(hash@));
                self.param.hashes = Some(list);
            },
        }
        self
    }

    /// Sets the hashes to filter by, in place of any given before.
    pub fn hashes(&mut self, hashes: Vec<String>) -> (r: &mut Self)
        ensures
            r@ == (ListQuery { hashes: Some(views(hashes@)), ..old(self)@ }),
            *final(self) == *final(r),
    {
        self.param.hashes = Some(hashes);
        self
    }

    /// A copy of the options set so far.
    pub fn build(&self) -> (r: GetTorrentListParams)
        ensures
            r@ == self@,
    {
        GetTorrentListParams {
            filter: self.param.filter,
            category: copy_opt_text(&self.param.category),
            tag: copy_opt_text(&self.param.tag),
            reverse: self.param.reverse,
            limit: self.param.limit,
            offset: self.param.offset,
            hashes: match &self.param.hashes {
                Some(h) => Some(copy_texts(h)),
                None => None,
            },
        }
    }
}

} // verus!
