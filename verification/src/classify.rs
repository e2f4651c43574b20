//! The classifier: six rules, three Git smart-HTTP actions (reference
//! discovery, upload-pack, receive-pack) each in a CORS-preflight and an
//! actual-request variant, combined by disjunction into one admit/deny
//! verdict. Every rule is an independent, side-effect-free predicate over the
//! request descriptor; a header or query parameter that is absent or
//! malformed merely fails its rule, it never fails the classification.

use vstd::prelude::*;

use crate::request::{header_lookup, query_map_of, Method, Request, Url};
use crate::text::{spec_contains_sub, spec_ends_with, str_ends_with, str_eq};

verus! {

/// The query parameters name the Git service the request is for: `service`
/// maps to `git-upload-pack` or `git-receive-pack`.
pub open spec fn spec_service_named(q: Map<Seq<char>, Seq<char>>) -> bool {
    q.contains_key("service"@) && (q["service"@] == "git-upload-pack"@ || q["service"@]
        == "git-receive-pack"@)
}

/// The headers announce a CORS preflight for a request that will carry a
/// `content-type` header: `access-control-request-headers` is present and its
/// value contains `content-type`. An absent header fails the condition.
pub open spec fn spec_announces_content_type(hs: Seq<(String, String)>) -> bool {
    header_lookup(hs, "access-control-request-headers"@) matches Some(v) && spec_contains_sub(
        v,
        "content-type"@,
    )
}

/// The `content-type` header is present and equals `expected` exactly.
pub open spec fn spec_content_type_is(hs: Seq<(String, String)>, expected: Seq<char>) -> bool {
    header_lookup(hs, "content-type"@) matches Some(v) && v == expected
}

/// Preflight of reference discovery: OPTIONS on a path ending in
/// `/info/refs`, with the `service` query parameter naming a Git service.
pub open spec fn spec_preflight_info_refs(
    m: Method,
    path: Seq<char>,
    q: Map<Seq<char>, Seq<char>>,
) -> bool {
    m == Method::Options && spec_ends_with(path, "/info/refs"@) && spec_service_named(q)
}

/// Reference discovery: GET on a path ending in `/info/refs`, with the
/// `service` query parameter naming a Git service.
pub open spec fn spec_info_refs(m: Method, path: Seq<char>, q: Map<Seq<char>, Seq<char>>) -> bool {
    m == Method::Get && spec_ends_with(path, "/info/refs"@) && spec_service_named(q)
}

/// Preflight of a pull: OPTIONS on a path ending in `git-upload-pack`,
/// announcing a `content-type` header.
pub open spec fn spec_preflight_pull(m: Method, path: Seq<char>, hs: Seq<(String, String)>) -> bool {
    m == Method::Options && spec_announces_content_type(hs) && spec_ends_with(
        path,
        "git-upload-pack"@,
    )
}

/// A pull: POST on a path ending in `git-upload-pack` with the upload-pack
/// request content type.
pub open spec fn spec_pull(m: Method, path: Seq<char>, hs: Seq<(String, String)>) -> bool {
    m == Method::Post && spec_content_type_is(hs, "application/x-git-upload-pack-request"@)
        && spec_ends_with(path, "git-upload-pack"@)
}

/// Preflight of a push: OPTIONS on a path ending in `git-receive-pack`,
/// announcing a `content-type` header.
pub open spec fn spec_preflight_push(m: Method, path: Seq<char>, hs: Seq<(String, String)>) -> bool {
    m == Method::Options && spec_announces_content_type(hs) && spec_ends_with(
        path,
        "git-receive-pack"@,
    )
}

/// A push: POST on a path ending in `git-receive-pack` with the receive-pack
/// request content type.
pub open spec fn spec_push(m: Method, path: Seq<char>, hs: Seq<(String, String)>) -> bool {
    m == Method::Post && spec_content_type_is(hs, "application/x-git-receive-pack-request"@)
        && spec_ends_with(path, "git-receive-pack"@)
}

/// The full decision: whether any rule matches the request. The two
/// reference-discovery rules are judged over the parameters parsed from the
/// raw query string (empty when the parse is rejected).
pub open spec fn spec_allow(req: Request) -> bool {
    ||| spec_preflight_info_refs(req.method, req.path@, query_map_of(req.query@))
    ||| spec_info_refs(req.method, req.path@, query_map_of(req.query@))
    ||| spec_preflight_pull(req.method, req.path@, req.headers@)
    ||| spec_pull(req.method, req.path@, req.headers@)
    ||| spec_preflight_push(req.method, req.path@, req.headers@)
    ||| spec_push(req.method, req.path@, req.headers@)
}

/// Whether the URL's query parameters name a Git service under `service`.
fn service_named(u: &Url) -> (r: bool)
    requires
        u.wf(),
    ensures
        r == spec_service_named(u.query_map()),
{
    match u.query_value("service") {
        Some(s) => str_eq(s.as_str(), "git-upload-pack") || str_eq(s.as_str(), "git-receive-pack"),
        None => false,
    }
}

/// Decides the preflight reference-discovery rule.
pub fn is_preflight_info_refs(req: &Request, u: &Url) -> (r: bool)
    requires
        u.wf(),
    ensures
        r == spec_preflight_info_refs(req.method, u.pathname@, u.query_map()),
{
    req.method == Method::Options && str_ends_with(u.pathname.as_str(), "/info/refs")
        && service_named(u)
}

/// Decides the reference-discovery rule.
pub fn is_info_refs(req: &Request, u: &Url) -> (r: bool)
    requires
        u.wf(),
    ensures
        r == spec_info_refs(req.method, u.pathname@, u.query_map()),
{
    req.method == Method::Get && str_ends_with(u.pathname.as_str(), "/info/refs")
        && service_named(u)
}

/// Decides the preflight pull rule.
pub fn is_preflight_pull(req: &Request) -> (r: bool)
    ensures
        r == spec_preflight_pull(req.method, req.path@, req.headers@),
{
    req.method == Method::Options && req.header_contains(
        "access-control-request-headers",
        "content-type",
    ) && str_ends_with(req.path.as_str(), "git-upload-pack")
}

/// Decides the pull rule.
pub fn is_pull(req: &Request) -> (r: bool)
    ensures
        r == spec_pull(req.method, req.path@, req.headers@),
{
    req.method == Method::Post && req.header_equals(
        "content-type",
        "application/x-git-upload-pack-request",
    ) && str_ends_with(req.path.as_str(), "git-upload-pack")
}

/// Decides the preflight push rule.
pub fn is_preflight_push(req: &Request) -> (r: bool)
    ensures
        r == spec_preflight_push(req.method, req.path@, req.headers@),
{
    req.method == Method::Options && req.header_contains(
        "access-control-request-headers",
        "content-type",
    ) && str_ends_with(req.path.as_str(), "git-receive-pack")
}

/// Decides the push rule.
pub fn is_push(req: &Request) -> (r: bool)
    ensures
        r == spec_push(req.method, req.path@, req.headers@),
{
    req.method == Method::Post && req.header_equals(
        "content-type",
        "application/x-git-receive-pack-request",
    ) && str_ends_with(req.path.as_str(), "git-receive-pack")
}

/// Admits a request if and only if some rule matches it. Total for every
/// descriptor — an absent header, an absent query string or a rejected query
/// parse only makes rules fail, never the call.
pub fn allow(req: &Request) -> (r: bool)
    ensures
        r == spec_allow(*req),
{
    let u = Url::new(req);
    is_preflight_info_refs(req, &u) || is_info_refs(req, &u) || is_preflight_pull(req) || is_pull(
        req,
    ) || is_preflight_push(req) || is_push(req)
}

/// Any OPTIONS request whose path ends in `/info/refs` and whose query
/// parameters map `service` to one of the two Git pack services is admitted,
/// whatever its headers.
pub proof fn lemma_preflight_info_refs_admitted(req: Request)
    requires
        req.method == Method::Options,
        spec_ends_with(req.path@, "/info/refs"@),
        spec_service_named(query_map_of(req.query@)),
    ensures
        spec_allow(req),
{
}

/// When the query parameters do not map `service` to a Git pack service —
/// the parameter absent or any other value — neither reference-discovery
/// rule matches, whatever the method and path.
pub proof fn lemma_no_service_no_info_refs(m: Method, path: Seq<char>, q: Map<Seq<char>, Seq<char>>)
    requires
        !spec_service_named(q),
    ensures
        !spec_preflight_info_refs(m, path, q),
        !spec_info_refs(m, path, q),
{
}

/// A raw query string the parser rejects degrades to an empty parameter set,
/// under which both reference-discovery rules fail — for every method and
/// path, with no error surfaced.
pub proof fn lemma_rejected_query_denies_info_refs(s: Seq<char>)
    requires
        crate::request::parsed_query(s) is None,
    ensures
        query_map_of(s) =~= Map::<Seq<char>, Seq<char>>::empty(),
        forall|m: Method, path: Seq<char>|
            !spec_preflight_info_refs(m, path, query_map_of(s)) && !spec_info_refs(
                m,
                path,
                query_map_of(s),
            ),
{
    assert forall|m: Method, path: Seq<char>|
        !spec_preflight_info_refs(m, path, query_map_of(s)) && !spec_info_refs(
            m,
            path,
            query_map_of(s),
        ) by {
        assert(!query_map_of(s).contains_key("service"@));
    }
}

/// Classification is a pure function of the descriptor: any two verdicts
/// bound to [`allow`]'s contract for the same request agree, so classifying a
/// descriptor twice yields the same verdict.
pub proof fn lemma_classification_deterministic(req: Request, first: bool, second: bool)
    requires
        first == spec_allow(req),
        second == spec_allow(req),
    ensures
        first == second,
{
}

} // verus!
