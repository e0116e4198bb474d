//! Listing helpers: human-readable durations and the query parameters that
//! paged and sorted listings append to a request.

use vstd::prelude::*;
use vstd::string::StringExecFns;
use crate::strutil::{dec_str, int_str, string_push, u64_to_dec, i64_to_dec};

verus! {

/// The value of a 64-bit integer reinterpreted as an unsigned count, as the
/// `as` cast reinterprets it.
pub open spec fn wrap_u64(n: int) -> int {
    if n >= 0 {
        n
    } else {
        n + 0x10000000000000000
    }
}

/// A duration rendered for a listing column: seconds up to two minutes, then
/// minutes up to two hours, hours up to two days, then days.  The seconds
/// value is reinterpreted as unsigned first, as the original cast does.
pub open spec fn human_duration_of(sec: int) -> Seq<char> {
    let s = wrap_u64(sec);
    if s < 120 {
        dec_str(s) + seq!['s']
    } else if s < 7200 {
        dec_str(s / 60) + seq!['m']
    } else if s < 172800 {
        dec_str(s / 3600) + seq!['h']
    } else {
        dec_str(s / 86400) + seq!['d']
    }
}

/// Renders a duration in seconds as a short human-readable figure with a
/// unit letter.
pub fn human_duration(sec: &i64) -> (r: String)
    ensures
        r@ == human_duration_of(*sec as int),
{
    let seconds: u64 = if *sec >= 0 {
        *sec as u64
    } else if *sec == i64::MIN {
        9223372036854775808u64
    } else {
        u64::MAX - ((-*sec) as u64) + 1
    };
    assert(seconds as int == wrap_u64(*sec as int));
    let (number, unit): (u64, char) = if seconds < 120 {
        (seconds, 's')
    } else if seconds < 7200 {
        (seconds / 60, 'm')
    } else if seconds < 172800 {
        (seconds / 3600, 'h')
    } else {
        (seconds / 86400, 'd')
    };
    let mut r = u64_to_dec(number);
    string_push(&mut r, unit);
    r
}

/// A user-agent identity: client name, version, and platform information.
/// The platform string is handed in by the surrounding application.
#[derive(Debug, Clone, PartialEq)]
pub struct UserAgent {
    pub name: String,
    pub version: String,
    pub info: String,
}

impl UserAgent {
    /// A user-agent identity for a client name and version on a platform.
    pub fn new(name: &str, version: &str, info: &str) -> (r: UserAgent)
        ensures
            r.name@ == name@,
            r.version@ == version@,
            r.info@ == info@,
    {
        UserAgent {
            name: <String as StringExecFns>::from_str(name),
            version: <String as StringExecFns>::from_str(version),
            info: <String as StringExecFns>::from_str(info),
        }
    }

    /// The header rendering `name/version (info)`.
    pub fn as_string(&self) -> (r: String)
        ensures
            r@ == self.name@ + "/"@ + self.version@ + " ("@ + self.info@ + ")"@,
    {
        let mut r = self.name.clone();
        r.append("/");
        r.append(self.version.as_str());
        r.append(" (");
        r.append(self.info.as_str());
        r.append(")");
        assert(r@ =~= self.name@ + "/"@ + self.version@ + " ("@ + self.info@ + ")"@);
        r
    }
}

/// The key/value views of a query-parameter list.
pub open spec fn query_view(v: Seq<(String, String)>) -> Seq<(Seq<char>, Seq<char>)> {
    v.map_values(|p: (String, String)| (p.0@, p.1@))
}

/// Paging parameters a caller may attach to a listing request.
#[derive(Debug, Clone, PartialEq)]
pub struct PageQueryParams {
    pub page: Option<u32>,
    pub size: Option<u32>,
}

/// Sorting and filtering parameters a caller may attach to a listing
/// request.
#[derive(Debug, Clone, PartialEq)]
pub struct SortQueryParams {
    pub order: Option<String>,
    pub sort: Option<String>,
    pub updated_after: Option<i64>,
    pub updated_before: Option<i64>,
}

fn clone_query(query: &Vec<(String, String)>) -> (r: Vec<(String, String)>)
    ensures
        query_view(r@) == query_view(query@),
{
    let mut r: Vec<(String, String)> = Vec::new();
    let len = query.len();
    for i in 0..len
        invariant
            len == query@.len(),
            r@.len() == i,
            forall|k: int|
                0 <= k < i ==> ((#[trigger] r@[k]).0@ == query@[k].0@ && r@[k].1@
                    == query@[k].1@),
    {
        let name = query[i].0.clone();
        let value = query[i].1.clone();
        r.push((name, value));
    }
    assert(query_view(r@) =~= query_view(query@));
    r
}

impl PageQueryParams {
    /// The given query with `page` and `size` appended, where set.
    pub fn enrich_query(&self, query: &Vec<(String, String)>) -> (r: Vec<(String, String)>)
        ensures
            query_view(r@) == query_view(query@) + (match self.page {
                Some(p) => seq![("page"@, dec_str(p as int))],
                None => Seq::empty(),
            }) + (match self.size {
                Some(s) => seq![("size"@, dec_str(s as int))],
                None => Seq::empty(),
            }),
    {
        let mut enriched_query = clone_query(query);
        if let Some(page) = self.page {
            enriched_query.push((String::from_str("page"), u64_to_dec(page as u64)));
        }
        if let Some(size) = self.size {
            enriched_query.push((String::from_str("size"), u64_to_dec(size as u64)));
        }
        proof {
            assert(query_view(enriched_query@) =~= query_view(query@) + (match self.page {
                Some(p) => seq![("page"@, dec_str(p as int))],
                None => Seq::<(Seq<char>, Seq<char>)>::empty(),
            }) + (match self.size {
                Some(s) => seq![("size"@, dec_str(s as int))],
                None => Seq::<(Seq<char>, Seq<char>)>::empty(),
            }));
        }
        enriched_query
    }

    /// Whether any paging parameter is set.
    pub fn has_params(&self) -> (r: bool)
        ensures
            r == (self.page is Some || self.size is Some),
    {
        self.page.is_some() || self.size.is_some()
    }
}

impl SortQueryParams {
    /// The given query with `order`, `sort`, `updatedAfter` and
    /// `updatedBefore` appended, where set.
    pub fn enrich_query(&self, query: &Vec<(String, String)>) -> (r: Vec<(String, String)>)
        ensures
            query_view(r@) == query_view(query@) + (match self.order {
                Some(o) => seq![("order"@, o@)],
                None => Seq::empty(),
            }) + (match self.sort {
                Some(s) => seq![("sort"@, s@)],
                None => Seq::empty(),
            }) + (match self.updated_after {
                Some(a) => seq![("updatedAfter"@, int_str(a as int))],
                None => Seq::empty(),
            }) + (match self.updated_before {
                Some(b) => seq![("updatedBefore"@, int_str(b as int))],
                None => Seq::empty(),
            }),
    {
        let mut enriched_query = clone_query(query);
        if let Some(order) = &self.order {
            enriched_query.push((String::from_str("order"), order.clone()));
        }
        if let Some(sort) = &self.sort {
            enriched_query.push((String::from_str("sort"), sort.clone()));
        }
        if let Some(updated_after) = self.updated_after {
            enriched_query.push((String::from_str("updatedAfter"), i64_to_dec(updated_after)));
        }
        if let Some(updated_before) = self.updated_before {
            enriched_query.push((String::from_str("updatedBefore"), i64_to_dec(updated_before)));
        }
        proof {
            assert(query_view(enriched_query@) =~= query_view(query@) + (match self.order {
                Some(o) => seq![("order"@, o@)],
                None => Seq::<(Seq<char>, Seq<char>)>::empty(),
            }) + (match self.sort {
                Some(s) => seq![("sort"@, s@)],
                None => Seq::<(Seq<char>, Seq<char>)>::empty(),
            }) + (match self.updated_after {
                Some(a) => seq![("updatedAfter"@, int_str(a as int))],
                None => Seq::<(Seq<char>, Seq<char>)>::empty(),
            }) + (match self.updated_before {
                Some(b) => seq![("updatedBefore"@, int_str(b as int))],
                None => Seq::<(Seq<char>, Seq<char>)>::empty(),
            }));
        }
        enriched_query
    }

    /// Whether any sorting or filtering parameter is set.
    pub fn has_params(&self) -> (r: bool)
        ensures
            r == (self.order is Some || self.sort is Some || self.updated_after is Some
                || self.updated_before is Some),
    {
        self.order.is_some() || self.sort.is_some() || self.updated_after.is_some()
            || self.updated_before.is_some()
    }
}

} // verus!
