//! Text shown beside the playback snapshot.

use vstd::prelude::*;
use crate::api::{append_decimal, decimal_text, digit_char, digit_str};

verus! {

/// A duration in whole seconds written as minutes and two-digit seconds, such
/// as "3:07" or "125:00".
pub open spec fn time_text(seconds: u32) -> Seq<char> {
    decimal_text((seconds / 60) as nat) + seq![':', digit_char(((seconds % 60) / 10) as nat), digit_char((seconds % 10) as nat)]
}

/// Writes a duration in whole seconds as minutes and two-digit seconds.
pub fn format_time(seconds: u32) -> (r: String)
    ensures
        r@ == time_text(seconds),
{
    let mut r = String::new();
    append_decimal(&mut r, seconds / 60);
    r.append(":");
    r.append(digit_str((seconds % 60) / 10));
    r.append(digit_str(seconds % 10));
    proof {
        reveal_strlit(":");
        assert((seconds % 60) % 10 == seconds % 10);
        assert(r@ =~= time_text(seconds));
    }
    r
}

} // verus!
