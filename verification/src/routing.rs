//! The routing-key filter: which queue messages this dispatcher claims.

use vstd::prelude::*;
use vstd::string::StrSliceExecFns;

verus! {

/// The routing-key prefix that marks an application-command interaction.
pub open spec fn routing_prefix() -> Seq<char> {
    "INTERACTION.APPLICATION_COMMAND"@
}

/// The primary topic pattern this dispatcher subscribes to.
pub open spec fn primary_routing_pattern() -> Seq<char> {
    "INTERACTION.APPLICATION_COMMAND.*"@
}

/// A routing key is of interest exactly when it starts with [`routing_prefix`].
pub open spec fn key_matches(key: Seq<char>) -> bool {
    key.len() >= routing_prefix().len() && key.subrange(0, routing_prefix().len() as int)
        == routing_prefix()
}

/// Decides whether a routing key marks an application-command interaction.
pub fn routing_key_matches(key: &str) -> (r: bool)
    ensures
        r == key_matches(key@),
{
    proof {
        reveal_strlit("INTERACTION.APPLICATION_COMMAND");
    }
    let prefix = "INTERACTION.APPLICATION_COMMAND";
    let n = prefix.unicode_len();
    let key_len = key.unicode_len();
    if key_len < n {
        return false;
    }
    let mut i: usize = 0;
    while i < n
        invariant
            n == routing_prefix().len(),
            prefix@ == routing_prefix(),
            key@.len() >= n,
            0 <= i <= n,
            forall|j: int| 0 <= j < i ==> key@[j] == routing_prefix()[j],
        decreases n - i,
    {
        if key.get_char(i) != prefix.get_char(i) {
            proof {
                assert(key_matches(key@) ==> key@.subrange(
                    0,
                    routing_prefix().len() as int,
                )[i as int] == routing_prefix()[i as int]);
            }
            return false;
        }
        i += 1;
    }
    proof {
        assert(key@.subrange(0, routing_prefix().len() as int) =~= routing_prefix());
    }
    true
}

/// The full list of topic patterns to subscribe to: the primary
/// application-command pattern followed by the caller's extra patterns,
/// in their given order.
pub fn routing_keys(extra: &Vec<String>) -> (r: Vec<String>)
    ensures
        r@.len() == 1 + extra@.len(),
        r@[0]@ == primary_routing_pattern(),
        forall|i: int| 0 <= i < extra@.len() ==> r@[i + 1] == extra@[i],
{
    let mut r: Vec<String> = Vec::new();
    r.push("INTERACTION.APPLICATION_COMMAND.*".to_owned());
    let mut i: usize = 0;
    while i < extra.len()
        invariant
            r@.len() == 1 + i,
            r@[0]@ == primary_routing_pattern(),
            0 <= i <= extra@.len(),
            forall|j: int| 0 <= j < i ==> r@[j + 1] == extra@[j],
        decreases extra@.len() - i,
    {
        r.push(extra[i].clone());
        i += 1;
    }
    r
}

} // verus!
