use harmonia::narinfo::PathInfo;
use harmonia::query::{Query, Reply, Request, Step, KEY_LEN};
use harmonia::relay::FetchOutcome;
use harmonia::response::{CacheControl, Failure, Response};

const KEY: &str = "abc123abc123abc123abc123abc123ab";
const DIGEST: &str = "1b8m03r63zqhnjf7l5wnldhh7c134ap5vpj0850ymkq1iyzicy5s";
const ROOT: &str = "/nix/store";

fn store_path() -> String {
    format!("/nix/store/{}-pkg", KEY)
}

fn canonical_hash() -> String {
    format!("sha256:{}", DIGEST)
}

fn plain_info() -> PathInfo {
    PathInfo {
        drv: None,
        narhash: canonical_hash(),
        size: 1024,
        refs: vec![],
        sigs: vec![],
        ca: None,
    }
}

fn upstreams(n: usize) -> Vec<Option<String>> {
    (0..n).map(|_| None).collect()
}

fn fetch(endpoint: usize, path: String) -> Request {
    Request::Fetch { endpoint, path, timeout_secs: 5, decompress: false }
}

fn ask(step: Step) -> (Query, Request) {
    match step {
        Step::Ask(query, request) => (query, request),
        Step::Done(response) => panic!("answered too early: {:?}", response),
    }
}

fn done(step: Step) -> Response {
    match step {
        Step::Done(response) => response,
        Step::Ask(_, request) => panic!("still asking: {:?}", request),
    }
}

fn narinfo_reply(status: u16, content_type: Option<&str>) -> Reply {
    Reply::Upstream(FetchOutcome::Replied {
        status,
        content_type: content_type.map(str::to_string),
        content_encoding: None,
    })
}

/// Drives an info query up to the point where the store has reported on the path.
fn after_metadata(want_json: bool, keys: Vec<String>, info: PathInfo) -> Step {
    let (query, request) = ask(Query::info(KEY.to_string(), want_json, keys, upstreams(2)));
    assert_eq!(request, Request::ResolveKey { key: KEY.to_string() });
    let (query, request) = ask(query.advance(Reply::StorePath(Some(store_path()))));
    assert_eq!(request, Request::PathInfo { store_path: store_path() });
    query.advance(Reply::PathInfo(Ok(info)))
}

fn expected_fingerprint(refs: &[String]) -> String {
    format!("1;{};{};1024;{}", store_path(), canonical_hash(), refs.join(","))
}

#[test]
fn key_length_is_that_of_a_store_hash() {
    assert_eq!(KEY_LEN, 32);
    assert_eq!(KEY.len(), KEY_LEN);
}

#[test]
fn local_info_as_text_without_keys() {
    let response = done(after_metadata(false, vec![], plain_info()));
    let expected_body = format!(
        "StorePath: /nix/store/{key}-pkg\nURL: nar/{digest}.nar?hash={key}\nCompression: none\n\
         FileHash: sha256:{digest}\nFileSize: 1024\nNarHash: sha256:{digest}\nNarSize: 1024\n\n",
        key = KEY,
        digest = DIGEST
    );
    assert_eq!(
        response,
        Response::InfoText {
            body: expected_body,
            url: format!("nar/{}.nar?hash={}", DIGEST, KEY),
        }
    );
    assert_eq!(response.status(), 200);
    assert_eq!(response.content_type(), Some("text/x-nix-narinfo".to_string()));
    assert_eq!(
        response.cache_control().map(CacheControl::header_value),
        Some("public, max-age=86400".to_string())
    );
}

#[test]
fn local_info_as_json_without_keys() {
    let response = done(after_metadata(true, vec![], plain_info()));
    assert_eq!(response.status(), 200);
    assert_eq!(response.content_type(), Some("application/json".to_string()));
    assert_eq!(
        response.cache_control().map(CacheControl::header_value),
        Some("public, max-age=86400".to_string())
    );
    match response {
        Response::InfoJson { record } => {
            assert_eq!(record.store_path, store_path());
            assert_eq!(record.url, format!("nar/{}.nar?hash={}", DIGEST, KEY));
            assert_eq!(record.compression, "none");
            assert_eq!(record.nar_hash, canonical_hash());
            assert_eq!(record.nar_size, 1024);
            assert_eq!(record.references, Vec::<String>::new());
            assert_eq!(record.deriver, None);
            assert_eq!(record.system, None);
            assert_eq!(record.sigs, Vec::<String>::new());
            assert_eq!(record.ca, None);
        }
        other => panic!("not a structured record: {:?}", other),
    }
}

#[test]
fn store_signatures_are_carried_without_keys() {
    let mut info = plain_info();
    info.sigs = vec!["old-1:XXXX".to_string()];
    match done(after_metadata(true, vec![], info)) {
        Response::InfoJson { record } => assert_eq!(record.sigs, vec!["old-1:XXXX".to_string()]),
        other => panic!("not a structured record: {:?}", other),
    }
}

#[test]
fn every_key_signs_the_fingerprint_and_replaces_store_signatures() {
    let mut info = plain_info();
    info.sigs = vec!["old-1:XXXX".to_string(), "old-2:YYYY".to_string()];
    info.refs = vec![
        "/nix/store/11111111111111111111111111111111-glibc".to_string(),
        format!("/nix/store/{}-pkg", KEY),
    ];
    let refs = info.refs.clone();
    let keys = vec!["secret-1".to_string(), "secret-2".to_string()];
    let (query, request) = ask(after_metadata(true, keys, info));
    assert_eq!(request, Request::StoreDir);
    let (query, request) = ask(query.advance(Reply::StoreDir(ROOT.to_string())));
    assert_eq!(
        request,
        Request::Sign { key: "secret-1".to_string(), message: expected_fingerprint(&refs) }
    );
    let (query, request) = ask(query.advance(Reply::Signature(Ok("new-1:AAAA".to_string()))));
    assert_eq!(
        request,
        Request::Sign { key: "secret-2".to_string(), message: expected_fingerprint(&refs) }
    );
    match done(query.advance(Reply::Signature(Ok("new-2:BBBB".to_string())))) {
        Response::InfoJson { record } => {
            assert_eq!(record.sigs, vec!["new-1:AAAA".to_string(), "new-2:BBBB".to_string()]);
            assert_eq!(
                record.references,
                vec![
                    "11111111111111111111111111111111-glibc".to_string(),
                    format!("{}-pkg", KEY)
                ]
            );
        }
        other => panic!("not a structured record: {:?}", other),
    }
}

#[test]
fn signed_text_has_one_sig_line_per_key() {
    let mut info = plain_info();
    info.sigs = vec!["old-1:XXXX".to_string()];
    let (query, _) = ask(after_metadata(false, vec!["secret".to_string()], info));
    let (query, _) = ask(query.advance(Reply::StoreDir(ROOT.to_string())));
    match done(query.advance(Reply::Signature(Ok("new-1:AAAA".to_string())))) {
        Response::InfoText { body, .. } => {
            assert!(body.ends_with("NarSize: 1024\nSig: new-1:AAAA\n\n"));
            assert!(!body.contains("old-1"));
        }
        other => panic!("not a text record: {:?}", other),
    }
}

#[test]
fn nothing_is_signed_without_fingerprint() {
    let mut info = plain_info();
    info.sigs = vec!["old-1:XXXX".to_string()];
    info.refs = vec!["/elsewhere/1111-glibc".to_string()];
    let (query, request) = ask(after_metadata(true, vec!["secret".to_string()], info));
    assert_eq!(request, Request::StoreDir);
    match done(query.advance(Reply::StoreDir(ROOT.to_string()))) {
        Response::InfoJson { record } => assert_eq!(record.sigs, Vec::<String>::new()),
        other => panic!("not a structured record: {:?}", other),
    }
}

#[test]
fn base16_hash_is_converted_before_signing() {
    let mut info = plain_info();
    let hex = "0123456789abcdef".repeat(4);
    info.narhash = format!("sha256:{}", hex);
    let (query, _) = ask(after_metadata(true, vec!["secret".to_string()], info));
    let (query, request) = ask(query.advance(Reply::StoreDir(ROOT.to_string())));
    assert_eq!(request, Request::ConvertHash { digest: hex.clone() });
    let (query, request) = ask(query.advance(Reply::Hash(Ok(DIGEST.to_string()))));
    assert_eq!(
        request,
        Request::Sign { key: "secret".to_string(), message: expected_fingerprint(&[]) }
    );
    match done(query.advance(Reply::Signature(Ok("new-1:AAAA".to_string())))) {
        Response::InfoJson { record } => {
            assert_eq!(record.nar_hash, format!("sha256:{}", hex));
            assert_eq!(record.url, format!("nar/{}.nar?hash={}", hex, KEY));
            assert_eq!(record.sigs, vec!["new-1:AAAA".to_string()]);
        }
        other => panic!("not a structured record: {:?}", other),
    }
}

#[test]
fn conversion_to_wrong_length_gives_no_signature() {
    let mut info = plain_info();
    info.narhash = format!("sha256:{}", "0123456789abcdef".repeat(4));
    let (query, _) = ask(after_metadata(true, vec!["secret".to_string()], info));
    let (query, _) = ask(query.advance(Reply::StoreDir(ROOT.to_string())));
    match done(query.advance(Reply::Hash(Ok("short".to_string())))) {
        Response::InfoJson { record } => assert_eq!(record.sigs, Vec::<String>::new()),
        other => panic!("not a structured record: {:?}", other),
    }
}

#[test]
fn platform_is_looked_up_for_valid_deriver_only() {
    let mut info = plain_info();
    info.drv = Some("/nix/store/3333-pkg.drv".to_string());

    let (query, request) = ask(after_metadata(true, vec![], info.clone()));
    assert_eq!(request, Request::IsValidPath { path: "/nix/store/3333-pkg.drv".to_string() });
    let (query, request) = ask(query.advance(Reply::Valid(true)));
    assert_eq!(request, Request::Platform { drv_path: "/nix/store/3333-pkg.drv".to_string() });
    match done(query.advance(Reply::Platform(Ok("x86_64-linux".to_string())))) {
        Response::InfoJson { record } => {
            assert_eq!(record.deriver, Some("3333-pkg.drv".to_string()));
            assert_eq!(record.system, Some("x86_64-linux".to_string()));
        }
        other => panic!("not a structured record: {:?}", other),
    }

    let (query, _) = ask(after_metadata(true, vec![], info));
    match done(query.advance(Reply::Valid(false))) {
        Response::InfoJson { record } => {
            assert_eq!(record.deriver, Some("3333-pkg.drv".to_string()));
            assert_eq!(record.system, None);
        }
        other => panic!("not a structured record: {:?}", other),
    }
}

#[test]
fn store_failures_end_the_query_with_their_cause() {
    let (query, _) = ask(Query::info(KEY.to_string(), false, vec![], upstreams(1)));
    let (query, _) = ask(query.advance(Reply::StorePath(Some(store_path()))));
    let response = done(query.advance(Reply::PathInfo(Err("no info".to_string()))));
    assert_eq!(
        response,
        Response::Failed { cause: Failure::Metadata, message: "no info".to_string() }
    );
    assert_eq!(response.status(), 500);

    let mut info = plain_info();
    info.drv = Some("/nix/store/3333-pkg.drv".to_string());
    let (query, _) = ask(after_metadata(false, vec![], info));
    let (query, _) = ask(query.advance(Reply::Valid(true)));
    assert_eq!(
        done(query.advance(Reply::Platform(Err("unreadable".to_string())))),
        Response::Failed { cause: Failure::Platform, message: "unreadable".to_string() }
    );

    let mut info = plain_info();
    info.narhash = format!("sha256:{}", "0123456789abcdef".repeat(4));
    let (query, _) = ask(after_metadata(false, vec!["secret".to_string()], info));
    let (query, _) = ask(query.advance(Reply::StoreDir(ROOT.to_string())));
    assert_eq!(
        done(query.advance(Reply::Hash(Err("bad digest".to_string())))),
        Response::Failed { cause: Failure::HashConversion, message: "bad digest".to_string() }
    );

    let (query, _) = ask(after_metadata(false, vec!["secret".to_string()], plain_info()));
    let (query, _) = ask(query.advance(Reply::StoreDir(ROOT.to_string())));
    assert_eq!(
        done(query.advance(Reply::Signature(Err("unknown key".to_string())))),
        Response::Failed { cause: Failure::Signing, message: "unknown key".to_string() }
    );

    let (query, _) = ask(Query::listing(KEY.to_string(), upstreams(1)));
    let (query, _) = ask(query.advance(Reply::StorePath(Some(store_path()))));
    assert_eq!(
        done(query.advance(Reply::NarList(Err("no listing".to_string())))),
        Response::Failed { cause: Failure::Listing, message: "no listing".to_string() }
    );
}

#[test]
fn reply_that_does_not_answer_is_a_protocol_failure() {
    let (query, _) = ask(Query::info(KEY.to_string(), false, vec![], upstreams(1)));
    assert_eq!(
        done(query.advance(Reply::Valid(true))),
        Response::Failed { cause: Failure::Protocol, message: String::new() }
    );
    let (query, _) = ask(Query::listing("short".to_string(), upstreams(1)));
    assert_eq!(
        done(query.advance(Reply::StorePath(None))),
        Response::Failed { cause: Failure::Protocol, message: String::new() }
    );
}

#[test]
fn malformed_key_goes_straight_to_relay() {
    for key in ["", "short", "abc123abc123abc123abc123abc123abc", "ééééééééééééééééééééééééééééééé"] {
        let (_, request) = ask(Query::info(key.to_string(), false, vec![], upstreams(2)));
        assert_eq!(request, fetch(0, format!("/{}.narinfo", key)));
        let (_, request) = ask(Query::listing(key.to_string(), upstreams(2)));
        assert_eq!(request, fetch(0, format!("/{}.ls", key)));
    }
}

#[test]
fn malformed_key_without_upstreams_is_a_miss() {
    let response = done(Query::info("short".to_string(), false, vec![], vec![]));
    assert_eq!(response, Response::NotFound { body: "missed hash".to_string() });
    let response = done(Query::listing("short".to_string(), vec![]));
    assert_eq!(response, Response::NotFound { body: "missed hash for narlist".to_string() });
}

#[test]
fn second_upstream_answers_after_first_timed_out() {
    let (query, request) = ask(Query::info(KEY.to_string(), false, vec![], upstreams(2)));
    assert_eq!(request, Request::ResolveKey { key: KEY.to_string() });
    let (query, request) = ask(query.advance(Reply::StorePath(None)));
    assert_eq!(request, fetch(0, format!("/{}.narinfo", KEY)));
    let (query, request) = ask(query.advance(Reply::Upstream(FetchOutcome::Failed)));
    assert_eq!(request, fetch(1, format!("/{}.narinfo", KEY)));
    let response = done(query.advance(narinfo_reply(200, Some("text/x-nix-narinfo"))));
    assert_eq!(
        response,
        Response::Relayed {
            endpoint: 1,
            content_type: "text/x-nix-narinfo".to_string(),
            content_encoding: None,
        }
    );
    assert_eq!(response.status(), 200);
    assert_eq!(
        response.cache_control().map(CacheControl::header_value),
        Some("max-age=86400".to_string())
    );
}

#[test]
fn first_matching_upstream_ends_the_relay() {
    let (query, _) = ask(Query::info(KEY.to_string(), false, vec![], upstreams(3)));
    let (query, _) = ask(query.advance(Reply::StorePath(None)));
    let response = done(query.advance(narinfo_reply(200, Some("text/x-nix-narinfo"))));
    assert_eq!(
        response,
        Response::Relayed {
            endpoint: 0,
            content_type: "text/x-nix-narinfo".to_string(),
            content_encoding: None,
        }
    );
}

#[test]
fn wrong_content_type_does_not_end_the_relay() {
    let (query, _) = ask(Query::info(KEY.to_string(), false, vec![], upstreams(2)));
    let (query, _) = ask(query.advance(Reply::StorePath(None)));
    let (query, request) = ask(query.advance(narinfo_reply(200, Some("text/html"))));
    assert_eq!(request, fetch(1, format!("/{}.narinfo", KEY)));
    let response = done(query.advance(narinfo_reply(200, None)));
    assert_eq!(response, Response::NotFound { body: "missed hash".to_string() });
}

#[test]
fn exhaustion_is_one_miss_whatever_the_number_of_upstreams() {
    for n in [0usize, 1, 2, 5, 17] {
        let mut step = Query::info("not-a-store-hash".to_string(), false, vec![], upstreams(n));
        let mut asked = 0;
        let response = loop {
            match step {
                Step::Done(response) => break response,
                Step::Ask(query, request) => {
                    assert_eq!(
                        request,
                        fetch(asked, "/not-a-store-hash.narinfo".to_string())
                    );
                    asked += 1;
                    step = query.advance(if asked % 2 == 0 {
                        Reply::Upstream(FetchOutcome::Failed)
                    } else {
                        narinfo_reply(404, Some("text/x-nix-narinfo"))
                    });
                }
            }
        };
        assert_eq!(asked, n);
        assert_eq!(response, Response::NotFound { body: "missed hash".to_string() });
        assert_eq!(response.status(), 404);
        assert_eq!(
            response.cache_control().map(CacheControl::header_value),
            Some("no-store".to_string())
        );
    }
}

#[test]
fn structured_info_tries_every_upstream_and_misses() {
    let (query, _) = ask(Query::info(KEY.to_string(), true, vec![], upstreams(2)));
    let (query, _) = ask(query.advance(Reply::StorePath(None)));
    let (query, request) = ask(query.advance(narinfo_reply(200, Some("text/x-nix-narinfo"))));
    assert_eq!(request, fetch(1, format!("/{}.narinfo", KEY)));
    let response = done(query.advance(narinfo_reply(200, Some("text/x-nix-narinfo"))));
    assert_eq!(response, Response::NotFound { body: "missed hash".to_string() });
}

#[test]
fn local_listing_is_served_as_the_store_wrote_it() {
    let (query, request) = ask(Query::listing(KEY.to_string(), upstreams(1)));
    assert_eq!(request, Request::ResolveKey { key: KEY.to_string() });
    let (query, request) = ask(query.advance(Reply::StorePath(Some(store_path()))));
    assert_eq!(request, Request::NarList { store_path: store_path() });
    let body = "{\"version\":1,\"root\":{\"type\":\"directory\",\"entries\":{}}}".to_string();
    let response = done(query.advance(Reply::NarList(Ok(body.clone()))));
    assert_eq!(response, Response::Listing { body });
    assert_eq!(response.status(), 200);
    assert_eq!(response.content_type(), Some("application/json".to_string()));
    assert_eq!(
        response.cache_control().map(CacheControl::header_value),
        Some("max-age=31536000".to_string())
    );
}

#[test]
fn relayed_listing_keeps_content_encoding_and_base_path() {
    let bases = vec![Some("/mirror/".to_string()), None];
    let (query, _) = ask(Query::listing(KEY.to_string(), bases));
    let (query, request) = ask(query.advance(Reply::StorePath(None)));
    assert_eq!(request, fetch(0, format!("/mirror/{}.ls", KEY)));
    let (query, request) = ask(query.advance(narinfo_reply(200, Some("text/x-nix-narinfo"))));
    assert_eq!(request, fetch(1, format!("/{}.ls", KEY)));
    let response = done(query.advance(Reply::Upstream(FetchOutcome::Replied {
        status: 200,
        content_type: Some("application/json".to_string()),
        content_encoding: Some("br".to_string()),
    })));
    assert_eq!(
        response,
        Response::Relayed {
            endpoint: 1,
            content_type: "application/json".to_string(),
            content_encoding: Some("br".to_string()),
        }
    );
    assert_eq!(
        response.cache_control().map(CacheControl::header_value),
        Some("max-age=86400".to_string())
    );
}

#[test]
fn relayed_info_drops_content_encoding() {
    let (query, _) = ask(Query::info(KEY.to_string(), false, vec![], upstreams(1)));
    let (query, _) = ask(query.advance(Reply::StorePath(None)));
    let response = done(query.advance(Reply::Upstream(FetchOutcome::Replied {
        status: 200,
        content_type: Some("text/x-nix-narinfo".to_string()),
        content_encoding: Some("zstd".to_string()),
    })));
    assert_eq!(
        response,
        Response::Relayed {
            endpoint: 0,
            content_type: "text/x-nix-narinfo".to_string(),
            content_encoding: None,
        }
    );
}
