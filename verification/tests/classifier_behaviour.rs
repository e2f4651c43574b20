use cors_proxy::request::{Method, Request, Url};

fn descriptor(method: Method, path: &str, query: &str, headers: &[(&str, &str)]) -> Request {
    Request {
        method,
        path: path.to_string(),
        query: query.to_string(),
        headers: headers
            .iter()
            .map(|(k, v)| (k.to_string(), v.to_string()))
            .collect(),
    }
}

#[test]
fn preflight_info_refs_admitted_regardless_of_headers() {
    let req = descriptor(
        Method::Options,
        "/some/repo/info/refs",
        "service=git-receive-pack",
        &[("X-Unrelated", "whatever"), ("Content-Type", "text/plain")],
    );
    assert_eq!(cors_proxy::classify::allow(&req), true);
}

#[test]
fn info_refs_denied_when_service_absent_or_unknown() {
    let absent = descriptor(Method::Get, "/repo/info/refs", "", &[]);
    assert_eq!(cors_proxy::classify::allow(&absent), false);
    let unknown = descriptor(Method::Get, "/repo/info/refs", "service=invalid", &[]);
    assert_eq!(cors_proxy::classify::allow(&unknown), false);
    let preflight_unknown = descriptor(Method::Options, "/repo/info/refs", "service=invalid", &[]);
    assert_eq!(cors_proxy::classify::allow(&preflight_unknown), false);
}

#[test]
fn preflight_pull_admits_announced_content_type_among_others() {
    let req = descriptor(
        Method::Options,
        "/repo/git-upload-pack",
        "",
        &[(
            "access-control-request-headers",
            "content-type, authorization",
        )],
    );
    assert_eq!(cors_proxy::classify::allow(&req), true);
}

#[test]
fn preflight_pull_header_name_lookup_is_case_insensitive() {
    let req = descriptor(
        Method::Options,
        "/repo/git-upload-pack",
        "",
        &[("Access-Control-Request-Headers", "content-type")],
    );
    assert_eq!(cors_proxy::classify::allow(&req), true);
}

#[test]
fn post_upload_pack_without_content_type_is_denied() {
    let req = descriptor(Method::Post, "/repo/git-upload-pack", "", &[]);
    assert_eq!(cors_proxy::classify::allow(&req), false);
}

#[test]
fn post_upload_pack_with_pack_request_content_type_is_admitted() {
    let req = descriptor(
        Method::Post,
        "/repo/git-upload-pack",
        "",
        &[("content-type", "application/x-git-upload-pack-request")],
    );
    assert_eq!(cors_proxy::classify::allow(&req), true);
}

#[test]
fn post_receive_pack_admitted_but_get_denied() {
    let post = descriptor(
        Method::Post,
        "/anything/git-receive-pack",
        "",
        &[("content-type", "application/x-git-receive-pack-request")],
    );
    assert_eq!(cors_proxy::classify::allow(&post), true);
    let get = descriptor(
        Method::Get,
        "/anything/git-receive-pack",
        "",
        &[("content-type", "application/x-git-receive-pack-request")],
    );
    assert_eq!(cors_proxy::classify::allow(&get), false);
}

#[test]
fn unparseable_query_degrades_to_empty_parameters() {
    let req = descriptor(
        Method::Options,
        "/repo/info/refs",
        "service[]=x&service[]=y",
        &[],
    );
    let url = Url::new(&req);
    assert!(url.query.is_empty());
    assert_eq!(cors_proxy::classify::allow(&req), false);
}

#[test]
fn classification_is_idempotent() {
    let req = descriptor(
        Method::Options,
        "/repo/info/refs",
        "service=git-upload-pack",
        &[],
    );
    let first = cors_proxy::classify::allow(&req);
    let second = cors_proxy::classify::allow(&req);
    assert_eq!(first, second);
    assert_eq!(first, true);
}

#[test]
fn query_parsing_decodes_percent_escapes() {
    let req = descriptor(
        Method::Get,
        "/repo/info/refs",
        "service=git%2Dupload%2Dpack",
        &[],
    );
    assert_eq!(cors_proxy::classify::allow(&req), true);
}

#[test]
fn query_lookup_finds_value_among_several_parameters() {
    let req = descriptor(
        Method::Get,
        "/repo/info/refs",
        "a=1&service=git-receive-pack&b=2",
        &[],
    );
    let url = Url::new(&req);
    assert_eq!(url.query.len(), 3);
    assert_eq!(
        url.query_value("service").map(|s| s.as_str()),
        Some("git-receive-pack")
    );
    assert_eq!(url.query_value("missing"), None);
    assert_eq!(cors_proxy::classify::allow(&req), true);
}

#[test]
fn header_value_match_is_exact_not_substring() {
    let req = descriptor(
        Method::Post,
        "/repo/git-upload-pack",
        "",
        &[(
            "content-type",
            "application/x-git-upload-pack-request; charset=utf-8",
        )],
    );
    assert_eq!(cors_proxy::classify::allow(&req), false);
}

#[test]
fn arbitrary_paths_and_methods_are_denied() {
    assert_eq!(cors_proxy::classify::allow(&descriptor(Method::Get, "/", "", &[])), false);
    assert_eq!(cors_proxy::classify::allow(&descriptor(Method::Put, "/repo/git-upload-pack", "", &[])), false);
    assert_eq!(
        cors_proxy::classify::allow(&descriptor(
            Method::Other,
            "/repo/info/refs",
            "service=git-upload-pack",
            &[]
        )),
        false
    );
    assert_eq!(cors_proxy::classify::allow(&descriptor(Method::Get, "/secret/file.txt", "", &[])), false);
}
