//! The policy summary extracted from a policy text and the deterministic
//! A-D grade computed from it.

use vstd::prelude::*;
use crate::text::{chars_of, push_char};

verus! {

/// The privacy grade of a policy, from best (A) to worst (D).
#[derive(Debug, Clone, Copy, PartialEq, Eq, Structural)]
pub enum Grade {
    A,
    B,
    C,
    D,
}

impl Grade {
    /// The one-letter text of the grade.
    pub open spec fn letter(self) -> Seq<char> {
        match self {
            Grade::A => seq!['A'],
            Grade::B => seq!['B'],
            Grade::C => seq!['C'],
            Grade::D => seq!['D'],
        }
    }

    /// The position of the grade in the order A, B, C, D.
    pub open spec fn rank(self) -> int {
        match self {
            Grade::A => 0,
            Grade::B => 1,
            Grade::C => 2,
            Grade::D => 3,
        }
    }

    /// The one-letter text of the grade ("A", "B", "C" or "D").
    pub fn to_string(&self) -> (s: String)
        ensures
            s@ == self.letter(),
    {
        let mut s = String::new();
        let c = match self {
            Grade::A => 'A',
            Grade::B => 'B',
            Grade::C => 'C',
            Grade::D => 'D',
        };
        push_char(&mut s, c);
        assert(s@ =~= self.letter());
        s
    }

    /// Reads a grade stored as text: "A", "B" and "C" are themselves, any
    /// other text is read as D.
    pub fn from_text(text: &str) -> (g: Grade)
        ensures
            g == grade_from_text(text@),
    {
        let cs = chars_of(text);
        if cs.len() == 1 {
            assert(text@ =~= seq![cs@[0]]);
            let c = cs[0];
            if c == 'A' {
                Grade::A
            } else if c == 'B' {
                Grade::B
            } else if c == 'C' {
                Grade::C
            } else {
                Grade::D
            }
        } else {
            Grade::D
        }
    }
}

/// The grade that a stored text stands for.
pub open spec fn grade_from_text(t: Seq<char>) -> Grade {
    if t == seq!['A'] {
        Grade::A
    } else if t == seq!['B'] {
        Grade::B
    } else if t == seq!['C'] {
        Grade::C
    } else {
        Grade::D
    }
}

/// The rights a policy grants its users over their data.
#[derive(Debug, Clone, Copy, PartialEq, Eq, Structural)]
pub struct UserRights {
    pub can_delete_data: bool,
    pub can_export_data: bool,
    pub can_opt_out_of_tracking: bool,
}

/// The structured summary of a policy that the grade is computed from.
#[derive(Debug)]
pub struct PolicySummary {
    pub data_collected: Vec<String>,
    pub data_used_for: Vec<String>,
    pub shared_with_third_parties: bool,
    pub third_party_details: String,
    pub retention_period: String,
    pub user_rights: UserRights,
    pub tracking_and_ads: String,
    pub arbitration_or_class_action_waiver: bool,
    pub policy_clarity_notes: String,
}

/// The contents of a [`PolicySummary`] as mathematical values.
pub struct SummaryView {
    pub data_collected: Seq<Seq<char>>,
    pub data_used_for: Seq<Seq<char>>,
    pub shared_with_third_parties: bool,
    pub third_party_details: Seq<char>,
    pub retention_period: Seq<char>,
    pub user_rights: UserRights,
    pub tracking_and_ads: Seq<char>,
    pub arbitration_or_class_action_waiver: bool,
    pub policy_clarity_notes: Seq<char>,
}

/// The texts held by a vector of strings.
pub open spec fn strings_view(v: Seq<String>) -> Seq<Seq<char>> {
    v.map_values(|s: String| s@)
}

impl View for PolicySummary {
    type V = SummaryView;

    open spec fn view(&self) -> SummaryView {
        SummaryView {
            data_collected: strings_view(self.data_collected@),
            data_used_for: strings_view(self.data_used_for@),
            shared_with_third_parties: self.shared_with_third_parties,
            third_party_details: self.third_party_details@,
            retention_period: self.retention_period@,
            user_rights: self.user_rights,
            tracking_and_ads: self.tracking_and_ads@,
            arbitration_or_class_action_waiver: self.arbitration_or_class_action_waiver,
            policy_clarity_notes: self.policy_clarity_notes@,
        }
    }
}

/// A copy of a vector of strings.
pub fn copy_strings(v: &Vec<String>) -> (r: Vec<String>)
    ensures
        strings_view(r@) == strings_view(v@),
{
    let mut r: Vec<String> = Vec::new();
    let mut i: usize = 0;
    while i < v.len()
        invariant
            i <= v.len(),
            r@.len() == i,
            forall|k: int| 0 <= k < i ==> #[trigger] r@[k]@ == v@[k]@,
        decreases v.len() - i,
    {
        r.push(v[i].clone());
        i = i + 1;
    }
    assert(strings_view(r@) =~= strings_view(v@));
    r
}

impl PolicySummary {
    /// A copy of the summary.
    pub fn duplicate(&self) -> (r: PolicySummary)
        ensures
            r@ == self@,
    {
        PolicySummary {
            data_collected: copy_strings(&self.data_collected),
            data_used_for: copy_strings(&self.data_used_for),
            shared_with_third_parties: self.shared_with_third_parties,
            third_party_details: self.third_party_details.clone(),
            retention_period: self.retention_period.clone(),
            user_rights: self.user_rights,
            tracking_and_ads: self.tracking_and_ads.clone(),
            arbitration_or_class_action_waiver: self.arbitration_or_class_action_waiver,
            policy_clarity_notes: self.policy_clarity_notes.clone(),
        }
    }
}

/// A request to grade the policy text found at a URL.
#[derive(Debug)]
pub struct GradeRequest {
    pub url: String,
    pub title: String,
    pub text: String,
}

/// The answer to a grade request.
#[derive(Debug)]
pub struct GradeResponse {
    pub grade: Grade,
    pub summary: PolicySummary,
    pub cached: bool,
    pub source: String,
}

/// The points a summary loses against a perfect score of 100.
pub open spec fn penalty_points(s: SummaryView) -> int {
    (if s.shared_with_third_parties { 25int } else { 0 })
    + (if s.arbitration_or_class_action_waiver { 30int } else { 0 })
    + (if !s.user_rights.can_delete_data { 20int } else { 0 })
    + (if !s.user_rights.can_opt_out_of_tracking { 15int } else { 0 })
    + (if !s.user_rights.can_export_data { 10int } else { 0 })
    + (if s.data_collected.len() > 6 { 15int } else if s.data_collected.len() > 3 { 5int } else { 0 })
}

/// The privacy score of a summary: 100 less its penalties.
pub open spec fn privacy_score(s: SummaryView) -> int {
    100 - penalty_points(s)
}

/// The grade band that a score falls in.
pub open spec fn grade_for_score(score: int) -> Grade {
    if score >= 85 {
        Grade::A
    } else if score >= 65 {
        Grade::B
    } else if score >= 45 {
        Grade::C
    } else {
        Grade::D
    }
}

/// The best grade that the rubric's criteria allow: forced arbitration or a
/// class-action waiver is at best C; collection beyond the minimal band
/// (more than six kinds of data) is at best B.
pub open spec fn rubric_cap(s: SummaryView) -> Grade {
    if s.arbitration_or_class_action_waiver {
        Grade::C
    } else if s.data_collected.len() > 6 {
        Grade::B
    } else {
        Grade::A
    }
}

/// The worse of two grades.
pub open spec fn worse_grade(a: Grade, b: Grade) -> Grade {
    if a.rank() >= b.rank() {
        a
    } else {
        b
    }
}

/// The grade of a summary under the rubric: the band of its score, no better
/// than the criteria allow.
pub open spec fn rubric_grade(s: SummaryView) -> Grade {
    worse_grade(grade_for_score(privacy_score(s)), rubric_cap(s))
}

/// Computes the deterministic A-D privacy grade of a summary: third-party
/// sharing costs 25 points, an arbitration or class-action waiver 30, no
/// right to delete 20, no tracking opt-out 15, no export 10, and collecting
/// more than six kinds of data 15 (more than three, 5); 85 and above is A,
/// 65 to 84 B, 45 to 64 C, and below D. A waiver keeps the grade at C or
/// worse, and collecting more than six kinds of data at B or worse.
pub fn compute_grade(summary: &PolicySummary) -> (g: Grade)
    ensures
        g == rubric_grade(summary@),
{
    let mut score: i32 = 100;
    if summary.shared_with_third_parties {
        score -= 25;
    }
    if summary.arbitration_or_class_action_waiver {
        score -= 30;
    }
    if !summary.user_rights.can_delete_data {
        score -= 20;
    }
    if !summary.user_rights.can_opt_out_of_tracking {
        score -= 15;
    }
    if !summary.user_rights.can_export_data {
        score -= 10;
    }
    let n = summary.data_collected.len();
    assert(summary@.data_collected.len() == n);
    if n > 6 {
        score -= 15;
    } else if n > 3 {
        score -= 5;
    }
    assert(score == privacy_score(summary@));
    let banded = if score >= 85 {
        Grade::A
    } else if score >= 65 {
        Grade::B
    } else if score >= 45 {
        Grade::C
    } else {
        Grade::D
    };
    if summary.arbitration_or_class_action_waiver {
        match banded {
            Grade::A | Grade::B => Grade::C,
            other => other,
        }
    } else if n > 6 {
        match banded {
            Grade::A => Grade::B,
            other => other,
        }
    } else {
        banded
    }
}

/// `a` is at least as protective of privacy as `b` on every point that the
/// rubric weighs.
pub open spec fn at_least_as_private(a: SummaryView, b: SummaryView) -> bool {
    &&& a.shared_with_third_parties ==> b.shared_with_third_parties
    &&& a.arbitration_or_class_action_waiver ==> b.arbitration_or_class_action_waiver
    &&& b.user_rights.can_delete_data ==> a.user_rights.can_delete_data
    &&& b.user_rights.can_opt_out_of_tracking ==> a.user_rights.can_opt_out_of_tracking
    &&& b.user_rights.can_export_data ==> a.user_rights.can_export_data
    &&& a.data_collected.len() <= b.data_collected.len()
}

/// A stored grade reads back as itself: reading the text of a grade gives
/// that grade.
pub proof fn law_grade_text_round_trip(g: Grade)
    ensures
        grade_from_text(g.letter()) == g,
{
    assert(seq!['A'] != seq!['B']) by { assert(seq!['A'][0] != seq!['B'][0]); }
    assert(seq!['A'] != seq!['C']) by { assert(seq!['A'][0] != seq!['C'][0]); }
    assert(seq!['B'] != seq!['C']) by { assert(seq!['B'][0] != seq!['C'][0]); }
    assert(seq!['D'] != seq!['A']) by { assert(seq!['D'][0] != seq!['A'][0]); }
    assert(seq!['D'] != seq!['B']) by { assert(seq!['D'][0] != seq!['B'][0]); }
    assert(seq!['D'] != seq!['C']) by { assert(seq!['D'][0] != seq!['C'][0]); }
}

/// A policy that is at least as protective as another on every point never
/// gets a worse grade.
pub proof fn law_grade_monotone(a: SummaryView, b: SummaryView)
    requires
        at_least_as_private(a, b),
    ensures
        rubric_grade(a).rank() <= rubric_grade(b).rank(),
{
}

/// The score of any summary lies between -15 and 100.
pub proof fn law_score_bounds(s: SummaryView)
    ensures
        -15 <= privacy_score(s) <= 100,
{
}

/// A policy that shares data with third parties, or imposes arbitration or a
/// class-action waiver, is never graded A.
pub proof fn law_sharing_or_waiver_excludes_a(s: SummaryView)
    requires
        s.shared_with_third_parties || s.arbitration_or_class_action_waiver,
    ensures
        rubric_grade(s) != Grade::A,
{
}

/// A policy with no third-party sharing, no arbitration or class-action
/// waiver, all three user rights and collection within the minimal band
/// (at most six kinds of data) is graded A.
pub proof fn law_clean_policy_is_a(s: SummaryView)
    requires
        !s.shared_with_third_parties,
        !s.arbitration_or_class_action_waiver,
        s.user_rights.can_delete_data,
        s.user_rights.can_export_data,
        s.user_rights.can_opt_out_of_tracking,
        s.data_collected.len() <= 6,
    ensures
        rubric_grade(s) == Grade::A,
{
}

/// A policy that shares data with third parties, imposes a waiver and gives
/// no right to delete data is graded D.
pub proof fn law_sharing_waiver_no_deletion_is_d(s: SummaryView)
    requires
        s.shared_with_third_parties,
        s.arbitration_or_class_action_waiver,
        !s.user_rights.can_delete_data,
    ensures
        rubric_grade(s) == Grade::D,
{
}


/// A policy that collects more than six kinds of data, gives neither a
/// right to delete nor to export data, and imposes a waiver is graded D.
pub proof fn law_poor_policy_is_d(s: SummaryView)
    requires
        s.data_collected.len() > 6,
        !s.user_rights.can_delete_data,
        !s.user_rights.can_export_data,
        s.arbitration_or_class_action_waiver,
    ensures
        rubric_grade(s) == Grade::D,
{
}

/// A policy that shares data with third parties but imposes no waiver,
/// grants all three rights and collects at most six kinds of data is
/// graded B.
pub proof fn law_sharing_with_rights_is_b(s: SummaryView)
    requires
        s.shared_with_third_parties,
        !s.arbitration_or_class_action_waiver,
        s.user_rights.can_delete_data,
        s.user_rights.can_export_data,
        s.user_rights.can_opt_out_of_tracking,
        s.data_collected.len() <= 6,
    ensures
        rubric_grade(s) == Grade::B,
{
}


/// Only a policy with minimal collection, no third-party sharing, a right to
/// delete data and no arbitration or class-action waiver is graded A.
pub proof fn law_a_needs_strong_privacy(s: SummaryView)
    requires
        rubric_grade(s) == Grade::A,
    ensures
        !s.shared_with_third_parties,
        !s.arbitration_or_class_action_waiver,
        s.user_rights.can_delete_data,
        s.data_collected.len() <= 6,
{
}

/// Forced arbitration or a class-action waiver grades a policy C or D.
pub proof fn law_waiver_is_at_best_c(s: SummaryView)
    requires
        s.arbitration_or_class_action_waiver,
    ensures
        rubric_grade(s) == Grade::C || rubric_grade(s) == Grade::D,
{
}

/// A summary with no flaw at all (no sharing, no waiver, every right, at
/// most three kinds of data) scores a perfect 100.
pub proof fn law_flawless_scores_100(s: SummaryView)
    requires
        !s.shared_with_third_parties,
        !s.arbitration_or_class_action_waiver,
        s.user_rights.can_delete_data,
        s.user_rights.can_export_data,
        s.user_rights.can_opt_out_of_tracking,
        s.data_collected.len() <= 3,
    ensures
        privacy_score(s) == 100,
{
}

/// Each point of the rubric costs its documented weight, whatever the rest
/// of the summary: sharing with third parties 25 points, an arbitration or
/// class-action waiver 30, no right to delete 20, no tracking opt-out 15,
/// no right to export 10; collecting four to six kinds of data costs 5 and
/// more than six 15, against at most three.
pub proof fn law_rubric_weights(a: SummaryView, b: SummaryView)
    ensures
        ({
            let ra = a.user_rights;
            let rb = b.user_rights;
            &&& (!a.shared_with_third_parties && b.shared_with_third_parties
                && a.arbitration_or_class_action_waiver == b.arbitration_or_class_action_waiver
                && ra == rb && a.data_collected.len() == b.data_collected.len())
                ==> privacy_score(a) - privacy_score(b) == 25
            &&& (!a.arbitration_or_class_action_waiver && b.arbitration_or_class_action_waiver
                && a.shared_with_third_parties == b.shared_with_third_parties
                && ra == rb && a.data_collected.len() == b.data_collected.len())
                ==> privacy_score(a) - privacy_score(b) == 30
            &&& (a.shared_with_third_parties == b.shared_with_third_parties
                && a.arbitration_or_class_action_waiver == b.arbitration_or_class_action_waiver
                && ra.can_delete_data && !rb.can_delete_data
                && ra.can_export_data == rb.can_export_data
                && ra.can_opt_out_of_tracking == rb.can_opt_out_of_tracking
                && a.data_collected.len() == b.data_collected.len())
                ==> privacy_score(a) - privacy_score(b) == 20
            &&& (a.shared_with_third_parties == b.shared_with_third_parties
                && a.arbitration_or_class_action_waiver == b.arbitration_or_class_action_waiver
                && ra.can_delete_data == rb.can_delete_data
                && ra.can_export_data == rb.can_export_data
                && ra.can_opt_out_of_tracking && !rb.can_opt_out_of_tracking
                && a.data_collected.len() == b.data_collected.len())
                ==> privacy_score(a) - privacy_score(b) == 15
            &&& (a.shared_with_third_parties == b.shared_with_third_parties
                && a.arbitration_or_class_action_waiver == b.arbitration_or_class_action_waiver
                && ra.can_delete_data == rb.can_delete_data
                && ra.can_export_data && !rb.can_export_data
                && ra.can_opt_out_of_tracking == rb.can_opt_out_of_tracking
                && a.data_collected.len() == b.data_collected.len())
                ==> privacy_score(a) - privacy_score(b) == 10
            &&& (a.shared_with_third_parties == b.shared_with_third_parties
                && a.arbitration_or_class_action_waiver == b.arbitration_or_class_action_waiver
                && ra == rb && a.data_collected.len() <= 3
                && 4 <= b.data_collected.len() <= 6)
                ==> privacy_score(a) - privacy_score(b) == 5
            &&& (a.shared_with_third_parties == b.shared_with_third_parties
                && a.arbitration_or_class_action_waiver == b.arbitration_or_class_action_waiver
                && ra == rb && a.data_collected.len() <= 3
                && b.data_collected.len() > 6)
                ==> privacy_score(a) - privacy_score(b) == 15
        }),
{
}

/// Where the rubric's criteria do not cap it (no waiver, at most six kinds of
/// data), the grade is the band of the score: A from 85, B from 65, C from
/// 45, D below.
pub proof fn law_grade_bands(s: SummaryView)
    requires
        !s.arbitration_or_class_action_waiver,
        s.data_collected.len() <= 6,
    ensures
        privacy_score(s) >= 85 ==> rubric_grade(s) == Grade::A,
        65 <= privacy_score(s) < 85 ==> rubric_grade(s) == Grade::B,
        45 <= privacy_score(s) < 65 ==> rubric_grade(s) == Grade::C,
        privacy_score(s) < 45 ==> rubric_grade(s) == Grade::D,
{
}

/// A policy whose only flaws are that it grants neither a right to export
/// data nor a tracking opt-out (75 points) is graded B; one whose only flaw
/// is no tracking opt-out (85 points) is graded A.
pub proof fn law_missing_export_and_opt_out_is_b(s: SummaryView)
    requires
        !s.shared_with_third_parties,
        !s.arbitration_or_class_action_waiver,
        s.user_rights.can_delete_data,
        !s.user_rights.can_opt_out_of_tracking,
        s.data_collected.len() <= 3,
    ensures
        !s.user_rights.can_export_data ==> rubric_grade(s) == Grade::B,
        s.user_rights.can_export_data ==> rubric_grade(s) == Grade::A,
{
}

} // verus!
