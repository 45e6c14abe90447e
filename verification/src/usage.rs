//! Token counts from the backend's metadata.

use crate::json::{count_or_zero, json_member, json_u64, member, parse_as_u64, resolve_count,
    u64_or_zero};
use crate::model::Usage;
use vstd::prelude::*;

verus! {

/// The count under `key` in the object `usage`: zero where there is no such
/// object, no such member, or the member is not an integer that fits in a
/// `u64`.
pub open spec fn usage_count(usage: Option<serde_json::Value>, key: Seq<char>) -> u64 {
    match usage {
        Some(u) => u64_or_zero(json_member(u, key)),
        None => 0,
    }
}

/// The token counts that `metadata` reports under its member `usage`, each
/// one zero where it cannot be read.
pub open spec fn usage_of(metadata: serde_json::Value) -> Usage {
    let usage = json_member(metadata, "usage"@);
    Usage {
        completion_tokens: usage_count(usage, "completion_tokens"@),
        prompt_tokens: usage_count(usage, "prompt_tokens"@),
        total_tokens: usage_count(usage, "total_tokens"@),
    }
}

impl Usage {
    /// The usage with every count zero.
    pub open spec fn zero() -> Usage {
        Usage { completion_tokens: 0, prompt_tokens: 0, total_tokens: 0 }
    }

    /// The usage with the given counts, zero standing in for each one that is
    /// missing.
    pub fn from_counts(completion: Option<u64>, prompt: Option<u64>, total: Option<u64>) -> (u:
        Usage)
        ensures
            u == (Usage {
                completion_tokens: count_or_zero(completion),
                prompt_tokens: count_or_zero(prompt),
                total_tokens: count_or_zero(total),
            }),
    {
        Usage {
            completion_tokens: resolve_count(completion),
            prompt_tokens: resolve_count(prompt),
            total_tokens: resolve_count(total),
        }
    }

    /// Reads the token counts from the backend's metadata. Never fails: what
    /// is missing or malformed counts as zero.
    pub fn from_metadata(metadata: &serde_json::Value) -> (u: Usage)
        ensures
            u == usage_of(*metadata),
    {
        let usage = member(metadata, "usage");
        Usage {
            completion_tokens: read_count(usage, "completion_tokens"),
            prompt_tokens: read_count(usage, "prompt_tokens"),
            total_tokens: read_count(usage, "total_tokens"),
        }
    }
}

impl Default for Usage {
    fn default() -> (u: Usage)
        ensures
            u == Usage::zero(),
    {
        Usage { completion_tokens: 0, prompt_tokens: 0, total_tokens: 0 }
    }
}

/// Reads the count under `key` in `usage`, if there is such an object.
fn read_count(usage: Option<&serde_json::Value>, key: &str) -> (n: u64)
    ensures
        n == usage_count(
            match usage {
                Some(u) => Some(*u),
                None => None,
            },
            key@,
        ),
{
    match usage {
        Some(u) => parse_as_u64(member(u, key)),
        None => 0,
    }
}

/// Where the metadata has no member `usage`, every count is zero.
pub proof fn lemma_usage_missing_is_zero(metadata: serde_json::Value)
    requires
        json_member(metadata, "usage"@) is None,
    ensures
        usage_of(metadata) == Usage::zero(),
{
}

/// A count under a key that the usage object lacks, or whose value is not an
/// integer that fits in a `u64`, is zero.
pub proof fn lemma_usage_count_malformed_is_zero(usage: serde_json::Value, key: Seq<char>)
    requires
        json_member(usage, key) is None || json_u64(json_member(usage, key).unwrap()) is None,
    ensures
        usage_count(Some(usage), key) == 0,
{
}

/// A count under a key whose value is an integer that fits in a `u64` is
/// that integer.
pub proof fn lemma_usage_count_reads_number(usage: serde_json::Value, key: Seq<char>, n: u64)
    requires
        json_member(usage, key) matches Some(v) && json_u64(v) == Some(n),
    ensures
        usage_count(Some(usage), key) == n,
{
}

} // verus!
