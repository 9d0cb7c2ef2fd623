//! GitHub device-flow modal: panel size and the expiry countdown line.

use vstd::prelude::*;
use vstd::string::*;
use crate::text::{decimal, decimal2, u64_to_string, u64_to_string_2};

verus! {

pub const PANEL_W: u32 = 480;
pub const PANEL_H: u32 = 280;

/// The countdown for a code valid `expires_in_ms` that was shown
/// `elapsed_ms` ago: `None` once it has expired, otherwise
/// `Expires in {m}:{ss}` for the whole seconds left.
pub open spec fn countdown_spec(elapsed_ms: u64, expires_in_ms: u64) -> Option<Seq<char>> {
    if elapsed_ms >= expires_in_ms {
        None
    } else {
        let secs = ((expires_in_ms - elapsed_ms) / 1000) as nat;
        Some("Expires in "@ + decimal(secs / 60) + ":"@ + decimal2(secs % 60))
    }
}

/// The countdown line, or `None` when the code has expired.
pub fn countdown_label(elapsed_ms: u64, expires_in_ms: u64) -> (r: Option<String>)
    ensures
        match (r, countdown_spec(elapsed_ms, expires_in_ms)) {
            (Some(s), Some(t)) => s@ == t,
            (None, None) => true,
            _ => false,
        },
{
    if elapsed_ms >= expires_in_ms {
        return None;
    }
    let secs = (expires_in_ms - elapsed_ms) / 1000;
    let mut s = String::from_str("Expires in ");
    let m = u64_to_string(secs / 60);
    s.append(m.as_str());
    s.append(":");
    let ss = u64_to_string_2(secs % 60);
    s.append(ss.as_str());
    Some(s)
}

} // verus!
