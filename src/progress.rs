use vstd::prelude::*;
use crate::duration::{duration_text, intuitive_duration};

verus! {

pub open spec fn finish_text(status: Seq<char>, ms: nat) -> Seq<char> {
    "✅  "@ + status + " -> finished in "@ + duration_text(ms)
}

pub open spec fn failure_text(status: Seq<char>, ms: nat) -> Seq<char> {
    "❌  "@ + status + " -> failed after "@ + duration_text(ms)
}

/// The message shown when a stage has succeeded after `millis` milliseconds;
/// `status` is the text shown while it ran.
pub fn finish_message(status: &str, millis: u64) -> (r: String)
    ensures
        r@ == finish_text(status@, millis as nat),
{
    let mut s = String::from_str("✅  ");
    s.append(status);
    s.append(" -> finished in ");
    let took = intuitive_duration(millis);
    s.append(took.as_str());
    s
}

/// The message shown when a stage has failed after `millis` milliseconds.
pub fn failure_message(status: &str, millis: u64) -> (r: String)
    ensures
        r@ == failure_text(status@, millis as nat),
{
    let mut s = String::from_str("❌  ");
    s.append(status);
    s.append(" -> failed after ");
    let took = intuitive_duration(millis);
    s.append(took.as_str());
    s
}

} // verus!
