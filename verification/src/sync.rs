//! Shards of pre-graded policies published for cache synchronisation, and
//! the cache records they are applied as.

use vstd::prelude::*;
use crate::cache::{CachedPolicyRecord, RecordView};
use crate::grade::{Grade, PolicySummary};

verus! {

/// One pre-graded policy in a published shard.
#[derive(Debug)]
pub struct ShardPolicyEntry {
    pub domain: String,
    pub policy_url: String,
    pub policy_type: String,
    pub policy_version_hash: String,
    pub grade: Grade,
    pub summary: PolicySummary,
    pub graded_at: String,
    pub model_version: String,
    pub source: String,
}

/// A published shard of pre-graded policies.
#[derive(Debug)]
pub struct ShardPayload {
    pub version: String,
    pub shard_id: String,
    pub updated_at: String,
    pub policies: Vec<ShardPolicyEntry>,
}

/// The record that a shard entry is applied to the cache as: the same
/// fields, one for one.
pub open spec fn entry_record(e: ShardPolicyEntry) -> RecordView {
    RecordView {
        domain: e.domain@,
        policy_url: e.policy_url@,
        policy_type: e.policy_type@,
        policy_version_hash: e.policy_version_hash@,
        grade: e.grade,
        summary: e.summary@,
        graded_at: e.graded_at@,
        model_version: e.model_version@,
        source: e.source@,
    }
}

/// Fetches shards from a content delivery network base URL.
pub struct CacheSyncer {
    pub cdn_base_url: String,
}

/// The URL of a shard: the base URL, a slash, the shard id and ".json".
pub open spec fn shard_url_of(base: Seq<char>, shard_id: Seq<char>) -> Seq<char> {
    base + seq!['/'] + shard_id + seq!['.', 'j', 's', 'o', 'n']
}

impl CacheSyncer {
    /// A syncer for shards published under `cdn_base_url`.
    pub fn new(cdn_base_url: String) -> (r: CacheSyncer)
        ensures
            r.cdn_base_url@ == cdn_base_url@,
    {
        CacheSyncer { cdn_base_url }
    }

    /// The URL that the shard `shard_id` is fetched from.
    pub fn shard_url(&self, shard_id: &str) -> (r: String)
        ensures
            r@ == shard_url_of(self.cdn_base_url@, shard_id@),
    {
        let mut r = self.cdn_base_url.clone();
        r.append("/");
        r.append(shard_id);
        r.append(".json");
        proof {
            reveal_strlit("/");
            reveal_strlit(".json");
        }
        assert(r@ =~= shard_url_of(self.cdn_base_url@, shard_id@));
        r
    }
}

impl ShardPolicyEntry {
    /// The cache record that this entry is applied as.
    pub fn into_record(self) -> (r: CachedPolicyRecord)
        ensures
            r@ == entry_record(self),
    {
        CachedPolicyRecord {
            domain: self.domain,
            policy_url: self.policy_url,
            policy_type: self.policy_type,
            policy_version_hash: self.policy_version_hash,
            grade: self.grade,
            summary: self.summary,
            graded_at: self.graded_at,
            model_version: self.model_version,
            source: self.source,
        }
    }
}

impl ShardPayload {
    /// The cache records that the shard's policies are applied as, in the
    /// shard's order.
    pub fn into_records(self) -> (r: Vec<CachedPolicyRecord>)
        ensures
            r@.len() == self.policies@.len(),
            forall|i: int| 0 <= i < r@.len() ==> #[trigger] r@[i]@ == entry_record(self.policies@[i]),
    {
        let ghost entries = self.policies@;
        let mut policies = self.policies;
        let mut out: Vec<CachedPolicyRecord> = Vec::new();
        let mut rest: Vec<CachedPolicyRecord> = Vec::new();
        while policies.len() > 0
            invariant
                policies@.len() + rest@.len() == entries.len(),
                forall|i: int| 0 <= i < policies@.len() ==> #[trigger] policies@[i] == entries[i],
                forall|i: int| 0 <= i < rest@.len() ==>
                    #[trigger] rest@[i]@ == entry_record(entries[entries.len() - 1 - i]),
            decreases policies@.len(),
        {
            let e = policies.pop().unwrap();
            rest.push(e.into_record());
        }
        while rest.len() > 0
            invariant
                out@.len() + rest@.len() == entries.len(),
                forall|i: int| 0 <= i < rest@.len() ==>
                    #[trigger] rest@[i]@ == entry_record(entries[entries.len() - 1 - i]),
                forall|i: int| 0 <= i < out@.len() ==> #[trigger] out@[i]@ == entry_record(entries[i]),
            decreases rest@.len(),
        {
            let r = rest.pop().unwrap();
            out.push(r);
        }
        out
    }
}


/// How many of the outcomes are successes.
pub open spec fn count_true(s: Seq<bool>) -> nat
    decreases s.len(),
{
    if s.len() == 0 {
        0
    } else {
        count_true(s.drop_last()) + if s.last() { 1nat } else { 0nat }
    }
}

/// How many policies of a shard were stored, given whether storing each
/// one succeeded.
pub fn count_applied(outcomes: &Vec<bool>) -> (r: usize)
    ensures
        r == count_true(outcomes@),
{
    let mut n: usize = 0;
    let mut i: usize = 0;
    while i < outcomes.len()
        invariant
            i <= outcomes@.len(),
            n == count_true(outcomes@.take(i as int)),
            n <= i,
        decreases outcomes.len() - i,
    {
        assert(outcomes@.take(i + 1).drop_last() =~= outcomes@.take(i as int));
        if outcomes[i] {
            n = n + 1;
        }
        i = i + 1;
    }
    assert(outcomes@.take(outcomes@.len() as int) =~= outcomes@);
    n
}

} // verus!
