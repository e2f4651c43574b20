//! The request descriptor: a normalized view of one inbound HTTP request
//! (method, path, raw query string, headers), the parsed query parameters,
//! and the two header-lookup capabilities the classifier consumes.

use vstd::prelude::*;

use crate::text::{seq_ieq, spec_contains_sub, str_contains, str_eq, str_ieq};

verus! {

/// The HTTP verb of a request. Only `Get`, `Post` and `Options` can satisfy a
/// rule of the classifier; `Other` stands for any extension method.
#[derive(Clone, Copy, Debug, PartialEq, Eq, Structural)]
pub enum Method {
    Get,
    Head,
    Post,
    Put,
    Delete,
    Connect,
    Options,
    Trace,
    Patch,
    Other,
}

/// A normalized view of one inbound request, fully materialized before
/// classification begins: the method, the URL's path component, the raw query
/// string (empty when the URL has none), and the headers as name/value pairs.
pub struct Request {
    pub method: Method,
    pub path: String,
    pub query: String,
    pub headers: Vec<(String, String)>,
}

/// The value of the first header whose name equals `name` up to ASCII case,
/// if any. Header names compare case-insensitively; absence is a normal
/// outcome, not an error.
pub open spec fn header_lookup(hs: Seq<(String, String)>, name: Seq<char>) -> Option<Seq<char>>
    decreases hs.len(),
{
    if hs.len() == 0 {
        None
    } else if seq_ieq(hs[0].0@, name) {
        Some(hs[0].1@)
    } else {
        header_lookup(hs.subrange(1, hs.len() as int), name)
    }
}

/// Looks a header up by case-insensitive name among name/value pairs.
pub fn header_value<'a>(headers: &'a Vec<(String, String)>, name: &str) -> (r: Option<&'a String>)
    ensures
        match r {
            Some(v) => header_lookup(headers@, name@) == Some(v@),
            None => header_lookup(headers@, name@) is None,
        },
{
    let n = headers.len();
    proof {
        assert(headers@.subrange(0, n as int) =~= headers@);
    }
    let mut i: usize = 0;
    while i < n
        invariant
            n == headers@.len(),
            i <= n,
            header_lookup(headers@, name@) == header_lookup(
                headers@.subrange(i as int, n as int),
                name@,
            ),
        decreases n - i,
    {
        let ghost rest = headers@.subrange(i as int, n as int);
        if str_ieq(headers[i].0.as_str(), name) {
            proof {
                assert(rest[0] == headers@[i as int]);
            }
            return Some(&headers[i].1);
        }
        proof {
            assert(rest[0] == headers@[i as int]);
            assert(rest.subrange(1, rest.len() as int) =~= headers@.subrange(
                i + 1,
                n as int,
            ));
        }
        i += 1;
    }
    proof {
        assert(headers@.subrange(n as int, n as int) =~= Seq::<(String, String)>::empty());
    }
    None
}

impl Request {
    /// True exactly when a header named `name` (up to ASCII case) is present
    /// and its value equals `expected` outright.
    pub fn header_equals(&self, name: &str, expected: &str) -> (r: bool)
        ensures
            r == (header_lookup(self.headers@, name@) matches Some(v) && v == expected@),
    {
        match header_value(&self.headers, name) {
            Some(v) => str_eq(v.as_str(), expected),
            None => false,
        }
    }

    /// True exactly when a header named `name` (up to ASCII case) is present
    /// and its value contains `needle` as a substring. An absent header fails
    /// the condition; it never fails the call.
    pub fn header_contains(&self, name: &str, needle: &str) -> (r: bool)
        ensures
            r == (header_lookup(self.headers@, name@) matches Some(v) && spec_contains_sub(
                v,
                needle@,
            )),
    {
        match header_value(&self.headers, name) {
            Some(v) => str_contains(v.as_str(), needle),
            None => false,
        }
    }
}

/// What `serde_qs` makes of a raw query string: `None` when the string is
/// rejected (malformed encoding, nested or array syntax), otherwise the flat
/// name-to-value map it parses, duplicate names collapsed to one entry.
pub uninterp spec fn parsed_query(s: Seq<char>) -> Option<Map<Seq<char>, Seq<char>>>;

/// The query parameters of a request with raw query string `s`: the parsed
/// map, degraded to the empty map whenever the parse is rejected.
pub open spec fn query_map_of(s: Seq<char>) -> Map<Seq<char>, Seq<char>> {
    match parsed_query(s) {
        Some(m) => m,
        None => Map::empty(),
    }
}

/// The map induced by a sequence of key/value pairs, later pairs winning.
pub open spec fn pairs_view(v: Seq<(String, String)>) -> Map<Seq<char>, Seq<char>>
    decreases v.len(),
{
    if v.len() == 0 {
        Map::empty()
    } else {
        pairs_view(v.drop_last()).insert(v.last().0@, v.last().1@)
    }
}

/// No two pairs carry the same key.
pub open spec fn distinct_keys(v: Seq<(String, String)>) -> bool {
    forall|i: int, j: int| 0 <= i < j < v.len() ==> v[i].0@ != v[j].0@
}

proof fn lemma_pairs_view_contains(v: Seq<(String, String)>, k: Seq<char>)
    ensures
        pairs_view(v).contains_key(k) <==> exists|i: int| 0 <= i < v.len() && v[i].0@ == k,
    decreases v.len(),
{
    if v.len() == 0 {
    } else {
        lemma_pairs_view_contains(v.drop_last(), k);
        if pairs_view(v).contains_key(k) {
            if v.last().0@ == k {
                assert(v[v.len() - 1].0@ == k);
            } else {
                let i = choose|i: int| 0 <= i < v.drop_last().len() && v.drop_last()[i].0@ == k;
                assert(v[i].0@ == k);
            }
        }
        if exists|i: int| 0 <= i < v.len() && v[i].0@ == k {
            let i = choose|i: int| 0 <= i < v.len() && v[i].0@ == k;
            if i < v.len() - 1 {
                assert(v.drop_last()[i].0@ == k);
            }
        }
    }
}

proof fn lemma_pairs_view_value(v: Seq<(String, String)>, i: int)
    requires
        distinct_keys(v),
        0 <= i < v.len(),
    ensures
        pairs_view(v).contains_key(v[i].0@),
        pairs_view(v)[v[i].0@] == v[i].1@,
    decreases v.len(),
{
    if i == v.len() - 1 {
    } else {
        assert(distinct_keys(v.drop_last()));
        lemma_pairs_view_value(v.drop_last(), i);
        assert(v.drop_last()[i] == v[i]);
        assert(v[i].0@ != v.last().0@);
    }
}

/// Relies on `serde_qs::from_str`: parses a raw query string into a flat
/// string-to-string map, a pure function of the string; rejects malformed
/// encodings and nested or array syntax. The map's entries come back as a
/// sequence of pairs with pairwise distinct keys, in no particular order.
#[verifier::external_body]
fn parse_query_pairs(s: &str) -> (r: Option<Vec<(String, String)>>)
    ensures
        r is Some <==> parsed_query(s@) is Some,
        r matches Some(v) ==> parsed_query(s@) == Some(pairs_view(v@)) && distinct_keys(v@),
{
    match serde_qs::from_str::<std::collections::HashMap<String, String>>(s) {
        Ok(m) => Some(m.into_iter().collect()),
        Err(_) => None,
    }
}

/// The pieces of a request URL the classifier reads: the path component and
/// the query parameters parsed into key/value pairs.
pub struct Url {
    pub pathname: String,
    pub query: Vec<(String, String)>,
}

impl Url {
    /// The query pairs carry pairwise distinct keys, so they denote a map.
    pub open spec fn wf(&self) -> bool {
        distinct_keys(self.query@)
    }

    /// The query parameters as a map from name to value.
    pub open spec fn query_map(&self) -> Map<Seq<char>, Seq<char>> {
        pairs_view(self.query@)
    }

    /// Builds the URL view of a request: the path is copied verbatim, and the
    /// raw query string is parsed into flat key/value pairs. A rejected query
    /// string degrades to an empty parameter set; construction never fails.
    pub fn new(req: &Request) -> (u: Url)
        ensures
            u.pathname@ == req.path@,
            u.wf(),
            u.query_map() == query_map_of(req.query@),
    {
        let pairs = match parse_query_pairs(req.query.as_str()) {
            Some(v) => v,
            None => Vec::new(),
        };
        Url { pathname: req.path.clone(), query: pairs }
    }

    /// The value mapped to `name` among the query parameters, if any.
    /// Parameter names compare exactly, case included.
    pub fn query_value<'a>(&'a self, name: &str) -> (r: Option<&'a String>)
        requires
            self.wf(),
        ensures
            match r {
                Some(v) => self.query_map().contains_key(name@) && self.query_map()[name@]
                    == v@,
                None => !self.query_map().contains_key(name@),
            },
    {
        let n = self.query.len();
        let mut i: usize = 0;
        while i < n
            invariant
                self.wf(),
                n == self.query@.len(),
                i <= n,
                forall|j: int| 0 <= j < i ==> self.query@[j].0@ != name@,
            decreases n - i,
        {
            if str_eq(self.query[i].0.as_str(), name) {
                proof {
                    lemma_pairs_view_value(self.query@, i as int);
                }
                return Some(&self.query[i].1);
            }
            i += 1;
        }
        proof {
            lemma_pairs_view_contains(self.query@, name@);
        }
        None
    }
}

} // verus!
