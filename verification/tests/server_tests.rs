use std::collections::hash_map::DefaultHasher;
use std::hash::{Hash, Hasher};

use crixata::cache::CachedPolicyRecord;
use crixata::grade::{compute_grade, Grade, GradeRequest, PolicySummary, UserRights};
use crixata::server::{
    build_cors_headers, compute_hash, domain_from_host, extract_domain, health_reply,
    not_found_reply, policy_version_hash, preflight_reply, route_request, GradeAction,
    GradeContext, GradeEvent, GradeFlow, HeaderPair, HttpMethod, ReplyBody, Route,
};

#[test]
fn test_extract_domain() {
    assert_eq!(extract_domain("https://example.com/privacy"), "example.com");
    assert_eq!(extract_domain("http://github.com/tos"), "github.com");
    assert_eq!(extract_domain("sub.domain.org/terms"), "sub.domain.org");
}

#[test]
fn domain_fallback_strips_scheme_path_and_port() {
    assert_eq!(domain_from_host("https://https://a.org:8080/x", None), "a.org");
    assert_eq!(domain_from_host("http://b.net", None), "b.net");
    assert_eq!(domain_from_host("c.io:99", None), "c.io");
    assert_eq!(domain_from_host("", None), "");
    assert_eq!(domain_from_host("whatever", Some("host.example".to_string())), "host.example");
}

#[test]
fn extract_domain_uses_parsed_host() {
    assert_eq!(extract_domain("https://Example.COM:8443/a"), "example.com");
    assert_eq!(extract_domain("localhost:4343/grade"), "localhost");
}

#[test]
fn routes() {
    assert_eq!(route_request(HttpMethod::Options, "/anything"), Route::Preflight);
    assert_eq!(route_request(HttpMethod::Get, "/health"), Route::Health);
    assert_eq!(route_request(HttpMethod::Get, "/healthz?x=1"), Route::Health);
    assert_eq!(route_request(HttpMethod::Post, "/grade"), Route::Grade);
    assert_eq!(route_request(HttpMethod::Get, "/grade"), Route::NotFound);
    assert_eq!(route_request(HttpMethod::Post, "/health"), Route::NotFound);
    assert_eq!(route_request(HttpMethod::Other, "/grade"), Route::NotFound);
    assert_eq!(route_request(HttpMethod::Get, "/"), Route::NotFound);
}

fn hp(n: &str, v: &str) -> HeaderPair {
    HeaderPair { name: n.to_string(), value: v.to_string() }
}

#[test]
fn cors_echoes_allowed_origin() {
    let h = build_cors_headers(&vec![hp("Host", "x"), hp("origin", "chrome-extension://abc")]);
    assert_eq!(h.len(), 3);
    assert_eq!(h[0].name, "Access-Control-Allow-Origin");
    assert_eq!(h[0].value, "chrome-extension://abc");
    assert_eq!(h[1].name, "Access-Control-Allow-Methods");
    assert_eq!(h[1].value, "GET, POST, OPTIONS");
    assert_eq!(h[2].name, "Access-Control-Allow-Headers");
    assert_eq!(h[2].value, "Content-Type, Authorization");
}

#[test]
fn cors_uses_wildcard_for_other_origins() {
    let h = build_cors_headers(&vec![hp("Origin", "https://evil.example")]);
    assert_eq!(h[0].value, "*");
    let h = build_cors_headers(&vec![]);
    assert_eq!(h[0].value, "*");
    let h = build_cors_headers(&vec![hp("Origin", "https://evil.example"), hp("ORIGIN", "http://localhost:5173")]);
    assert_eq!(h[0].value, "http://localhost:5173");
    let h = build_cors_headers(&vec![hp("Referer", "http://127.0.0.1/")]);
    assert_eq!(h[0].value, "*");
}

#[test]
fn hash_matches_std_str_hash() {
    for text in ["", "policy text", "ünïcödé", "a much longer policy text with words"] {
        let mut hasher = DefaultHasher::new();
        text.hash(&mut hasher);
        assert_eq!(compute_hash(text), hasher.finish());
        assert_eq!(policy_version_hash(text), format!("{:016x}", hasher.finish()));
    }
}

#[test]
fn policy_hash_is_sixteen_hex_digits() {
    let h = policy_version_hash("some text");
    assert_eq!(h.len(), 16);
    assert!(h.chars().all(|c| c.is_ascii_hexdigit() && !c.is_ascii_uppercase()));
}

#[test]
fn fixed_replies() {
    assert_eq!(preflight_reply().status, 204);
    assert!(matches!(preflight_reply().body, ReplyBody::Empty));
    assert_eq!(not_found_reply().status, 404);
    assert!(matches!(not_found_reply().body, ReplyBody::NotFound));
    let h = health_reply(true, false);
    assert_eq!(h.status, 200);
    assert!(matches!(h.body, ReplyBody::Health { sidecar_ready: true, model_downloaded: false }));
}

fn ctx() -> GradeContext {
    GradeContext { graded_at: "2026-01-01T00:00:00Z".into(), model_version: "model-x".into() }
}

fn sample_summary() -> PolicySummary {
    PolicySummary {
        data_collected: vec!["email".into(), "IP address".into(), "usage data".into()],
        data_used_for: vec!["analytics".into()],
        shared_with_third_parties: true,
        third_party_details: "Partners".into(),
        retention_period: "Account lifetime".into(),
        user_rights: UserRights { can_delete_data: true, can_export_data: false, can_opt_out_of_tracking: true },
        tracking_and_ads: "Cookies".into(),
        arbitration_or_class_action_waiver: false,
        policy_clarity_notes: "Vague".into(),
    }
}

fn error_of(a: &GradeAction) -> (u16, String) {
    match a {
        GradeAction::Reply(r) => match &r.body {
            ReplyBody::Error(m) => (r.status, m.clone()),
            _ => panic!("not an error reply"),
        },
        _ => panic!("not a reply"),
    }
}

#[test]
fn unreadable_and_malformed_bodies_get_400() {
    let (f, a) = GradeFlow::new().step(GradeEvent::BodyUnreadable("broken pipe".into()), &ctx());
    assert!(matches!(f, GradeFlow::Finished));
    assert_eq!(error_of(&a), (400, "Failed to read request body: broken pipe".to_string()));
    let (f, a) = GradeFlow::new().step(GradeEvent::BodyMalformed("expected value".into()), &ctx());
    assert!(matches!(f, GradeFlow::Finished));
    assert_eq!(error_of(&a), (400, "Invalid JSON request: expected value".to_string()));
}

#[test]
fn blank_fields_get_400() {
    let req = GradeRequest { url: "  ".into(), title: "t".into(), text: "body".into() };
    let (f, a) = GradeFlow::new().step(GradeEvent::BodyParsed(req), &ctx());
    assert!(matches!(f, GradeFlow::Finished));
    assert_eq!(error_of(&a), (400, "Both 'url' and 'text' must be non-empty.".to_string()));
    let req = GradeRequest { url: "https://a.com".into(), title: "t".into(), text: "\n\t ".into() };
    let (_, a) = GradeFlow::new().step(GradeEvent::BodyParsed(req), &ctx());
    assert_eq!(error_of(&a).0, 400);
}

fn parsed() -> GradeFlow {
    let req = GradeRequest { url: "https://example.com/privacy".into(), title: "Privacy".into(), text: "We collect data.".into() };
    let (f, a) = GradeFlow::new().step(GradeEvent::BodyParsed(req), &ctx());
    match a {
        GradeAction::LookUpCache { domain, url } => {
            assert_eq!(domain, "example.com");
            assert_eq!(url, "https://example.com/privacy");
        }
        _ => panic!("expected a cache lookup"),
    }
    f
}

#[test]
fn cache_hit_is_answered_as_cached() {
    let rec = CachedPolicyRecord {
        domain: "example.com".into(),
        policy_url: "https://example.com/privacy".into(),
        policy_type: "privacy".into(),
        policy_version_hash: "00".into(),
        grade: Grade::B,
        summary: sample_summary(),
        graded_at: "then".into(),
        model_version: "m".into(),
        source: "cache".into(),
    };
    let (f, a) = parsed().step(GradeEvent::CacheLooked(Ok(Some(rec))), &ctx());
    assert!(matches!(f, GradeFlow::Finished));
    match a {
        GradeAction::Reply(r) => {
            assert_eq!(r.status, 200);
            match r.body {
                ReplyBody::Graded(g) => {
                    assert_eq!(g.grade, Grade::B);
                    assert!(g.cached);
                    assert_eq!(g.source, "cache");
                }
                _ => panic!("expected a grade"),
            }
        }
        _ => panic!("expected a reply"),
    }
}

#[test]
fn cache_miss_or_error_checks_sidecar_then_503() {
    let (f, a) = parsed().step(GradeEvent::CacheLooked(Ok(None)), &ctx());
    assert!(matches!(a, GradeAction::CheckSidecar));
    let (f, a) = f.step(GradeEvent::SidecarChecked(false), &ctx());
    assert!(matches!(f, GradeFlow::Finished));
    assert_eq!(
        error_of(&a),
        (503, "Inference sidecar is not ready. Please download the model and verify the engine is running.".to_string())
    );
    let (_, a) = parsed().step(GradeEvent::CacheLooked(Err("db locked".into())), &ctx());
    assert!(matches!(a, GradeAction::CheckSidecar));
}

#[test]
fn fresh_grade_is_stored_and_answered() {
    let (f, _) = parsed().step(GradeEvent::CacheLooked(Ok(None)), &ctx());
    let (f, a) = f.step(GradeEvent::SidecarChecked(true), &ctx());
    match a {
        GradeAction::Extract { text } => assert_eq!(text, "We collect data."),
        _ => panic!("expected extraction"),
    }
    let summary = sample_summary();
    let expected = compute_grade(&summary);
    let (f, a) = f.step(GradeEvent::Extracted(Ok(summary)), &ctx());
    assert!(matches!(f, GradeFlow::Finished));
    match a {
        GradeAction::StoreAndReply { record, reply } => {
            assert_eq!(record.domain, "example.com");
            assert_eq!(record.policy_url, "https://example.com/privacy");
            assert_eq!(record.policy_type, "unknown");
            assert_eq!(record.policy_version_hash, policy_version_hash("We collect data."));
            assert_eq!(record.grade, expected);
            assert_eq!(record.graded_at, "2026-01-01T00:00:00Z");
            assert_eq!(record.model_version, "model-x");
            assert_eq!(record.source, "llm");
            assert_eq!(reply.status, 200);
            match reply.body {
                ReplyBody::Graded(g) => {
                    assert_eq!(g.grade, expected);
                    assert_eq!(g.grade, Grade::B);
                    assert!(!g.cached);
                    assert_eq!(g.source, "llm");
                    assert_eq!(g.summary.data_collected, record.summary.data_collected);
                }
                _ => panic!("expected a grade"),
            }
        }
        _ => panic!("expected store and reply"),
    }
}

#[test]
fn failed_extraction_gets_500() {
    let (f, _) = parsed().step(GradeEvent::CacheLooked(Ok(None)), &ctx());
    let (f, _) = f.step(GradeEvent::SidecarChecked(true), &ctx());
    let (f, a) = f.step(GradeEvent::Extracted(Err("timeout".into())), &ctx());
    assert!(matches!(f, GradeFlow::Finished));
    assert_eq!(error_of(&a), (500, "LLM extraction failed: timeout".to_string()));
}

#[test]
fn grade_flow_ignores_unexpected_event() {
    let (f, a) = GradeFlow::new().step(GradeEvent::SidecarChecked(true), &ctx());
    assert!(matches!(f, GradeFlow::AwaitingBody));
    assert!(matches!(a, GradeAction::Ignore));
    let (f, a) = GradeFlow::Finished.step(GradeEvent::BodyUnreadable("x".into()), &ctx());
    assert!(matches!(f, GradeFlow::Finished));
    assert!(matches!(a, GradeAction::Ignore));
}

#[test]
fn stored_grade_is_repeated_from_cache() {
    let (f, _) = parsed().step(GradeEvent::CacheLooked(Ok(None)), &ctx());
    let (f, _) = f.step(GradeEvent::SidecarChecked(true), &ctx());
    let (_, a) = f.step(GradeEvent::Extracted(Ok(sample_summary())), &ctx());
    let (record, fresh) = match a {
        GradeAction::StoreAndReply { record, reply } => (record, reply),
        _ => panic!("expected store and reply"),
    };
    let summary_back = record.summary.duplicate();
    let read_back = CachedPolicyRecord::from_row(record.to_row(), summary_back);
    let (_, a) = parsed().step(GradeEvent::CacheLooked(Ok(Some(read_back))), &ctx());
    let (fg, fs) = match fresh.body {
        ReplyBody::Graded(g) => (g.grade, g.summary),
        _ => panic!("expected a grade"),
    };
    match a {
        GradeAction::Reply(r) => match r.body {
            ReplyBody::Graded(g) => {
                assert_eq!(g.grade, fg);
                assert!(g.cached);
                assert_eq!(g.source, "llm");
                assert_eq!(g.summary.data_collected, fs.data_collected);
                assert_eq!(g.summary.policy_clarity_notes, fs.policy_clarity_notes);
            }
            _ => panic!("expected a grade"),
        },
        _ => panic!("expected a reply"),
    }
}

#[test]
fn whitespace_matches_std_for_every_char() {
    let listed = |n: u32| {
        (0x09..=0x0D).contains(&n)
            || n == 0x20
            || n == 0x85
            || n == 0xA0
            || n == 0x1680
            || (0x2000..=0x200A).contains(&n)
            || n == 0x2028
            || n == 0x2029
            || n == 0x202F
            || n == 0x205F
            || n == 0x3000
    };
    for n in 0u32..=0x10FFFF {
        if let Some(c) = char::from_u32(n) {
            assert_eq!(c.is_whitespace(), listed(n), "U+{:04X}", n);
        }
    }
}
