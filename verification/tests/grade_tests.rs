use crixata::grade::{compute_grade, Grade, PolicySummary, UserRights};

fn summary(shared: bool, waiver: bool, delete: bool, export: bool, opt_out: bool, n: usize) -> PolicySummary {
    PolicySummary {
        data_collected: (0..n).map(|i| format!("item{}", i)).collect(),
        data_used_for: vec!["service".into()],
        shared_with_third_parties: shared,
        third_party_details: String::new(),
        retention_period: "30 days".into(),
        user_rights: UserRights { can_delete_data: delete, can_export_data: export, can_opt_out_of_tracking: opt_out },
        tracking_and_ads: String::new(),
        arbitration_or_class_action_waiver: waiver,
        policy_clarity_notes: String::new(),
    }
}

#[test]
fn perfect_policy_is_a() {
    assert_eq!(compute_grade(&summary(false, false, true, true, true, 0)), Grade::A);
}

#[test]
fn broad_collection_is_at_best_b() {
    // 100 - 15 = 85, but collection beyond six kinds keeps it at B
    assert_eq!(compute_grade(&summary(false, false, true, true, true, 7)), Grade::B);
    // six kinds is still within the minimal band: 100 - 5 = 95
    assert_eq!(compute_grade(&summary(false, false, true, true, true, 6)), Grade::A);
}

#[test]
fn sharing_alone_is_b() {
    // 100 - 25 = 75
    assert_eq!(compute_grade(&summary(true, false, true, true, true, 0)), Grade::B);
}

#[test]
fn waiver_alone_is_c() {
    // 100 - 30 = 70, but a waiver keeps the grade at C or worse
    assert_eq!(compute_grade(&summary(false, true, true, true, true, 2)), Grade::C);
    assert_eq!(compute_grade(&summary(false, true, true, true, true, 8)), Grade::C);
    // 100 - 30 - 20 - 15 - 10 = 25
    assert_eq!(compute_grade(&summary(false, true, false, false, false, 0)), Grade::D);
}

#[test]
fn boundary_scores() {
    // 100 - 15 (opt-out) = 85 -> A
    assert_eq!(compute_grade(&summary(false, false, true, true, false, 3)), Grade::A);
    // 100 - 15 - 5 = 80 -> B
    assert_eq!(compute_grade(&summary(false, false, true, true, false, 4)), Grade::B);
    // 100 - 20 - 15 = 65 -> B
    assert_eq!(compute_grade(&summary(false, false, false, true, false, 0)), Grade::B);
    // 100 - 20 - 15 - 5 = 60 -> C
    assert_eq!(compute_grade(&summary(false, false, false, true, false, 5)), Grade::C);
    // 100 - 25 - 30 = 45 -> C
    assert_eq!(compute_grade(&summary(true, true, true, true, true, 0)), Grade::C);
    // 100 - 25 - 30 - 5 = 40 -> D
    assert_eq!(compute_grade(&summary(true, true, true, true, true, 4)), Grade::D);
}

#[test]
fn worst_policy_is_d() {
    assert_eq!(compute_grade(&summary(true, true, false, false, false, 10)), Grade::D);
}

#[test]
fn sharing_waiver_no_deletion_is_d() {
    assert_eq!(compute_grade(&summary(true, true, false, true, true, 0)), Grade::D);
}

#[test]
fn more_private_never_grades_worse() {
    let better = summary(false, true, true, false, true, 2);
    let worse = summary(true, true, false, false, true, 8);
    let rank = |g: Grade| match g { Grade::A => 0, Grade::B => 1, Grade::C => 2, Grade::D => 3 };
    assert!(rank(compute_grade(&better)) <= rank(compute_grade(&worse)));
}

#[test]
fn grade_text_round_trip() {
    for g in [Grade::A, Grade::B, Grade::C, Grade::D] {
        assert_eq!(Grade::from_text(&g.to_string()), g);
    }
    assert_eq!(Grade::A.to_string(), "A");
    assert_eq!(Grade::D.to_string(), "D");
}

#[test]
fn unknown_grade_text_reads_as_d() {
    assert_eq!(Grade::from_text("E"), Grade::D);
    assert_eq!(Grade::from_text(""), Grade::D);
    assert_eq!(Grade::from_text("AB"), Grade::D);
    assert_eq!(Grade::from_text("a"), Grade::D);
    assert_eq!(Grade::from_text("C"), Grade::C);
}

#[test]
fn duplicate_summary_is_equal() {
    let s = summary(true, false, true, false, true, 3);
    let d = s.duplicate();
    assert_eq!(d.data_collected, s.data_collected);
    assert_eq!(d.data_used_for, s.data_used_for);
    assert_eq!(d.retention_period, s.retention_period);
    assert_eq!(d.user_rights, s.user_rights);
}

#[test]
fn poor_policy_is_d() {
    assert_eq!(compute_grade(&summary(false, true, false, false, true, 7)), Grade::D);
}

#[test]
fn sharing_with_rights_is_b() {
    assert_eq!(compute_grade(&summary(true, false, true, true, true, 6)), Grade::B);
    assert_eq!(compute_grade(&summary(true, false, true, true, true, 7)), Grade::C);
}
