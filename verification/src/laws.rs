//! The dispatcher's standing guarantees, stated once over the models that the
//! functions' own contracts use.

use crate::dispatch::{acked_first_and_once, no_respond, responds_exactly_once, Dispatch};
use crate::registry::Registry;
use vstd::prelude::*;

verus! {

/// A registry holds exactly one definition per name: two positions bearing
/// the same name are the same position.
pub proof fn lemma_registry_entry_unique<H, E>(reg: Registry<H, E>, i: int, j: int)
    requires
        reg.wf(),
        0 <= i < reg.commands@.len(),
        0 <= j < reg.commands@.len(),
        reg.commands@[i].name@ == reg.commands@[j].name@,
    ensures
        i == j,
{
}

/// Once a claimed message leaves the pre-acknowledgment phase, its history
/// shows the acknowledgment first and exactly once; in particular any
/// decoding of the payload came strictly after it. This holds of every
/// reachable machine, whatever the dispatch's downstream outcome.
pub proof fn lemma_ack_once_before_parse(d: Dispatch)
    requires
        d.wf(),
        !(d.phase is NeedAck),
    ensures
        acked_first_and_once(d.history@),
        forall|i: int|
            0 <= i < d.history@.len() && (#[trigger] d.history@[i]) is Parse ==> 0 < i
                && d.history@[0] is Ack,
{
}

/// A finished dispatch that owed a generic error response sent exactly one
/// response: an ephemeral one carrying the owed error text.
pub proof fn lemma_owed_response_sent_once(d: Dispatch, text: Seq<char>)
    requires
        d.wf(),
        d.phase is Done,
        d.owed@ == Some(text),
    ensures
        responds_exactly_once(d.history@, text),
{
}

/// A finished dispatch that owed no generic response sent none: a successful
/// handler, a successful error handler, a dropped event and a rejected
/// message all pass in silence.
pub proof fn lemma_no_owed_response_none_sent(d: Dispatch)
    requires
        d.wf(),
        d.phase is Done,
        d.owed@ is None,
    ensures
        no_respond(d.history@),
{
}

} // verus!
