use crixata::cache::{CachedPolicyRecord, PolicyRow};
use crixata::grade::{Grade, PolicySummary, UserRights};
use crixata::sync::{count_applied, CacheSyncer, ShardPayload, ShardPolicyEntry};

fn summary() -> PolicySummary {
    PolicySummary {
        data_collected: vec!["email".into()],
        data_used_for: vec![],
        shared_with_third_parties: false,
        third_party_details: String::new(),
        retention_period: String::new(),
        user_rights: UserRights { can_delete_data: true, can_export_data: true, can_opt_out_of_tracking: true },
        tracking_and_ads: String::new(),
        arbitration_or_class_action_waiver: false,
        policy_clarity_notes: String::new(),
    }
}

fn record(grade: Grade) -> CachedPolicyRecord {
    CachedPolicyRecord {
        domain: "example.com".into(),
        policy_url: "https://example.com/privacy".into(),
        policy_type: "privacy".into(),
        policy_version_hash: "abc".into(),
        grade,
        summary: summary(),
        graded_at: "2026-09-04T12:00:00Z".into(),
        model_version: "m1".into(),
        source: "cache".into(),
    }
}

#[test]
fn row_round_trip() {
    for g in [Grade::A, Grade::B, Grade::C, Grade::D] {
        let r = record(g);
        let row = r.to_row();
        assert_eq!(row.grade, g.to_string());
        let back = CachedPolicyRecord::from_row(row, r.summary.duplicate());
        assert_eq!(back.grade, g);
        assert_eq!(back.domain, r.domain);
        assert_eq!(back.policy_url, r.policy_url);
        assert_eq!(back.policy_version_hash, r.policy_version_hash);
        assert_eq!(back.source, r.source);
    }
}

#[test]
fn row_with_unknown_grade_reads_as_d() {
    let row = PolicyRow {
        domain: "d".into(),
        policy_url: "u".into(),
        policy_type: "t".into(),
        policy_version_hash: "h".into(),
        grade: "Z".into(),
        graded_at: "g".into(),
        model_version: "m".into(),
        source: "s".into(),
    };
    assert_eq!(CachedPolicyRecord::from_row(row, summary()).grade, Grade::D);
}

#[test]
fn shard_urls() {
    let s = CacheSyncer::new("https://cdn.example/shards".into());
    assert_eq!(s.shard_url("shard-000"), "https://cdn.example/shards/shard-000.json");
    assert_eq!(s.cdn_base_url, "https://cdn.example/shards");
}

fn entry(url: &str, grade: Grade) -> ShardPolicyEntry {
    ShardPolicyEntry {
        domain: "example.com".into(),
        policy_url: url.into(),
        policy_type: "tos".into(),
        policy_version_hash: format!("h-{}", url),
        grade,
        summary: summary(),
        graded_at: "t".into(),
        model_version: "m".into(),
        source: "cache".into(),
    }
}

#[test]
fn shard_records_keep_order_and_fields() {
    let shard = ShardPayload {
        version: "1".into(),
        shard_id: "shard-000".into(),
        updated_at: "t".into(),
        policies: vec![entry("u1", Grade::A), entry("u2", Grade::C), entry("u3", Grade::D)],
    };
    let recs = shard.into_records();
    assert_eq!(recs.len(), 3);
    assert_eq!(recs[0].policy_url, "u1");
    assert_eq!(recs[1].policy_url, "u2");
    assert_eq!(recs[2].policy_url, "u3");
    assert_eq!(recs[1].grade, Grade::C);
    assert_eq!(recs[2].policy_version_hash, "h-u3");
    assert_eq!(recs[0].policy_type, "tos");
}

#[test]
fn empty_shard_has_no_records() {
    let shard = ShardPayload { version: "1".into(), shard_id: "s".into(), updated_at: "t".into(), policies: vec![] };
    assert!(shard.into_records().is_empty());
}

#[test]
fn applied_count_counts_successes() {
    assert_eq!(count_applied(&vec![]), 0);
    assert_eq!(count_applied(&vec![true, false, true, true]), 3);
    assert_eq!(count_applied(&vec![false, false]), 0);
}
