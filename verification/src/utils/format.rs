//! The text of a duration.

use vstd::prelude::*;
use crate::utils::text::{decimal_two, push_decimal_two};

verus! {

/// A duration of `seconds` seconds as minutes and seconds, each with at
/// least two digits and with a colon between them.
pub open spec fn duration_text(seconds: nat) -> Seq<char> {
    decimal_two(seconds / 60) + seq![':'] + decimal_two(seconds % 60)
}

/// Writes a duration of whole seconds as `MM:SS`. The minutes are not
/// wrapped into hours.
pub fn format_duration(seconds: u64) -> (text: String)
    ensures
        text@ == duration_text(seconds as nat),
{
    let mut text = String::new();
    push_decimal_two(&mut text, seconds / 60);
    text.push(':');
    push_decimal_two(&mut text, seconds % 60);
    text
}

} // verus!
