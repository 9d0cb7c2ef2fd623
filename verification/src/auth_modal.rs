//! GitHub sign-in modal (device flow): the line under the user code, with
//! the time left before the code expires.

use vstd::prelude::*;
use vstd::string::*;
use crate::text::{decimal2, u64_to_string_2};

verus! {

pub const PANEL_W: u32 = 440;
pub const PANEL_H: u32 = 280;

/// With `remaining_secs` whole seconds left: `None` at zero (the modal
/// closes), otherwise `Code copied to clipboard. Expires in {mm}:{ss}.`
pub open spec fn expiry_line_spec(remaining_secs: u64) -> Option<Seq<char>> {
    if remaining_secs == 0 {
        None
    } else {
        Some("Code copied to clipboard. Expires in "@ + decimal2((remaining_secs / 60) as nat) + ":"@
            + decimal2((remaining_secs % 60) as nat) + "."@)
    }
}

/// The expiry line for `remaining_secs` seconds left, or `None` once expired.
pub fn expiry_line(remaining_secs: u64) -> (r: Option<String>)
    ensures
        match (r, expiry_line_spec(remaining_secs)) {
            (Some(s), Some(t)) => s@ == t,
            (None, None) => true,
            _ => false,
        },
{
    if remaining_secs == 0 {
        return None;
    }
    let mut s = String::from_str("Code copied to clipboard. Expires in ");
    let m = u64_to_string_2(remaining_secs / 60);
    s.append(m.as_str());
    s.append(":");
    let sec = u64_to_string_2(remaining_secs % 60);
    s.append(sec.as_str());
    s.append(".");
    Some(s)
}

} // verus!
