//! The `response` command: how long a block lasts, as shown.

use crate::text::{chars_of, dec_nat, dec_u64, push_str, string_of};
use vstd::prelude::*;

verus! {

/// How the duration of an IP block is told in the confirmation line:
/// `permanently` for 0, else `for N seconds`.
pub open spec fn block_duration_phrase_spec(duration: u64) -> Seq<char> {
    if duration == 0 {
        "permanently"@
    } else {
        "for "@ + dec_nat(duration as nat) + " seconds"@
    }
}

/// How the duration of an IP block is given in JSON output: `permanent` for
/// 0, else `N seconds`.
pub open spec fn block_duration_json_spec(duration: u64) -> Seq<char> {
    if duration == 0 {
        "permanent"@
    } else {
        dec_nat(duration as nat) + " seconds"@
    }
}

/// The duration of an IP block in the confirmation line.
pub fn block_duration_phrase(duration: u64) -> (r: String)
    ensures
        r@ == block_duration_phrase_spec(duration),
{
    if duration == 0 {
        return "permanently".to_owned();
    }
    let mut v = chars_of("for ");
    let d = dec_u64(duration);
    crate::text::push_all(&mut v, d.as_slice());
    push_str(&mut v, " seconds");
    string_of(v.as_slice())
}

/// The duration of an IP block in JSON output.
pub fn block_duration_json(duration: u64) -> (r: String)
    ensures
        r@ == block_duration_json_spec(duration),
{
    if duration == 0 {
        return "permanent".to_owned();
    }
    let mut v = dec_u64(duration);
    push_str(&mut v, " seconds");
    string_of(v.as_slice())
}

} // verus!
