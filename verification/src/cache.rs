//! Records of graded policies as the local cache keeps them, and their
//! conversion to and from the text columns of a cache row.

use vstd::prelude::*;
use crate::grade::{grade_from_text, Grade, PolicySummary, SummaryView};

verus! {

/// A graded policy as kept in the local cache, keyed by its version hash.
#[derive(Debug)]
pub struct CachedPolicyRecord {
    pub domain: String,
    pub policy_url: String,
    pub policy_type: String,
    pub policy_version_hash: String,
    pub grade: Grade,
    pub summary: PolicySummary,
    pub graded_at: String,
    pub model_version: String,
    pub source: String,
}

/// The contents of a [`CachedPolicyRecord`] as mathematical values.
pub struct RecordView {
    pub domain: Seq<char>,
    pub policy_url: Seq<char>,
    pub policy_type: Seq<char>,
    pub policy_version_hash: Seq<char>,
    pub grade: Grade,
    pub summary: SummaryView,
    pub graded_at: Seq<char>,
    pub model_version: Seq<char>,
    pub source: Seq<char>,
}

impl View for CachedPolicyRecord {
    type V = RecordView;

    open spec fn view(&self) -> RecordView {
        RecordView {
            domain: self.domain@,
            policy_url: self.policy_url@,
            policy_type: self.policy_type@,
            policy_version_hash: self.policy_version_hash@,
            grade: self.grade,
            summary: self.summary@,
            graded_at: self.graded_at@,
            model_version: self.model_version@,
            source: self.source@,
        }
    }
}

/// The text columns of a row of the policy table; the summary column,
/// which holds the summary as JSON, is kept apart from them.
#[derive(Debug)]
pub struct PolicyRow {
    pub domain: String,
    pub policy_url: String,
    pub policy_type: String,
    pub policy_version_hash: String,
    pub grade: String,
    pub graded_at: String,
    pub model_version: String,
    pub source: String,
}

/// The contents of a [`PolicyRow`] as mathematical values.
pub struct RowView {
    pub domain: Seq<char>,
    pub policy_url: Seq<char>,
    pub policy_type: Seq<char>,
    pub policy_version_hash: Seq<char>,
    pub grade: Seq<char>,
    pub graded_at: Seq<char>,
    pub model_version: Seq<char>,
    pub source: Seq<char>,
}

impl View for PolicyRow {
    type V = RowView;

    open spec fn view(&self) -> RowView {
        RowView {
            domain: self.domain@,
            policy_url: self.policy_url@,
            policy_type: self.policy_type@,
            policy_version_hash: self.policy_version_hash@,
            grade: self.grade@,
            graded_at: self.graded_at@,
            model_version: self.model_version@,
            source: self.source@,
        }
    }
}

/// The row that stores a record: its grade is written as its letter.
pub open spec fn row_of(r: RecordView) -> RowView {
    RowView {
        domain: r.domain,
        policy_url: r.policy_url,
        policy_type: r.policy_type,
        policy_version_hash: r.policy_version_hash,
        grade: r.grade.letter(),
        graded_at: r.graded_at,
        model_version: r.model_version,
        source: r.source,
    }
}

/// The record that a row and its decoded summary stand for.
pub open spec fn record_of(row: RowView, summary: SummaryView) -> RecordView {
    RecordView {
        domain: row.domain,
        policy_url: row.policy_url,
        policy_type: row.policy_type,
        policy_version_hash: row.policy_version_hash,
        grade: grade_from_text(row.grade),
        summary: summary,
        graded_at: row.graded_at,
        model_version: row.model_version,
        source: row.source,
    }
}

impl CachedPolicyRecord {
    /// The text columns that store this record.
    pub fn to_row(&self) -> (r: PolicyRow)
        ensures
            r@ == row_of(self@),
            r.domain@ == self.domain@,
            r.policy_url@ == self.policy_url@,
            r.policy_type@ == self.policy_type@,
            r.policy_version_hash@ == self.policy_version_hash@,
            r.grade@ == self.grade.letter(),
            r.graded_at@ == self.graded_at@,
            r.model_version@ == self.model_version@,
            r.source@ == self.source@,
    {
        PolicyRow {
            domain: self.domain.clone(),
            policy_url: self.policy_url.clone(),
            policy_type: self.policy_type.clone(),
            policy_version_hash: self.policy_version_hash.clone(),
            grade: self.grade.to_string(),
            graded_at: self.graded_at.clone(),
            model_version: self.model_version.clone(),
            source: self.source.clone(),
        }
    }

    /// The record read back from a row and its decoded summary; a grade
    /// column other than "A", "B" or "C" reads as D.
    pub fn from_row(row: PolicyRow, summary: PolicySummary) -> (r: CachedPolicyRecord)
        ensures
            r@ == record_of(row@, summary@),
            r.domain@ == row.domain@,
            r.policy_url@ == row.policy_url@,
            r.policy_type@ == row.policy_type@,
            r.policy_version_hash@ == row.policy_version_hash@,
            r.grade == grade_from_text(row.grade@),
            r.summary@ == summary@,
            r.graded_at@ == row.graded_at@,
            r.model_version@ == row.model_version@,
            r.source@ == row.source@,
    {
        let grade = Grade::from_text(row.grade.as_str());
        CachedPolicyRecord {
            domain: row.domain,
            policy_url: row.policy_url,
            policy_type: row.policy_type,
            policy_version_hash: row.policy_version_hash,
            grade,
            summary,
            graded_at: row.graded_at,
            model_version: row.model_version,
            source: row.source,
        }
    }

    /// A copy of the record.
    pub fn duplicate(&self) -> (r: CachedPolicyRecord)
        ensures
            r@ == self@,
    {
        CachedPolicyRecord {
            domain: self.domain.clone(),
            policy_url: self.policy_url.clone(),
            policy_type: self.policy_type.clone(),
            policy_version_hash: self.policy_version_hash.clone(),
            grade: self.grade,
            summary: self.summary.duplicate(),
            graded_at: self.graded_at.clone(),
            model_version: self.model_version.clone(),
            source: self.source.clone(),
        }
    }
}

/// What is read back of a stored record is that record: the row written for
/// a record, read with the record's summary, gives the record again.
pub proof fn law_row_round_trip(r: RecordView)
    ensures
        record_of(row_of(r), r.summary) == r,
{
    crate::grade::law_grade_text_round_trip(r.grade);
}

/// Each column of the row written for a record holds that record's own
/// field, the grade as its letter: in particular the row is keyed by the
/// record's own domain and policy URL, so a lookup by the record's policy
/// URL finds it.
pub proof fn law_row_columns_hold_record_fields(r: RecordView)
    ensures
        row_of(r).domain == r.domain,
        row_of(r).policy_url == r.policy_url,
        row_of(r).policy_type == r.policy_type,
        row_of(r).policy_version_hash == r.policy_version_hash,
        row_of(r).grade == r.grade.letter(),
        row_of(r).graded_at == r.graded_at,
        row_of(r).model_version == r.model_version,
        row_of(r).source == r.source,
{
}

/// Each field of the record read from a row comes from the column of the
/// same name; the grade is read from its letter and the summary is the one
/// given.
pub proof fn law_record_fields_come_from_row_columns(row: RowView, summary: SummaryView)
    ensures
        record_of(row, summary).domain == row.domain,
        record_of(row, summary).policy_url == row.policy_url,
        record_of(row, summary).policy_type == row.policy_type,
        record_of(row, summary).policy_version_hash == row.policy_version_hash,
        record_of(row, summary).grade == grade_from_text(row.grade),
        record_of(row, summary).summary == summary,
        record_of(row, summary).graded_at == row.graded_at,
        record_of(row, summary).model_version == row.model_version,
        record_of(row, summary).source == row.source,
{
}

} // verus!
