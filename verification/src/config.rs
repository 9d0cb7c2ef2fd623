//! The parts of a parsed profile config that the shell's logic reads.

use vstd::prelude::*;

verus! {

/// Where a profile's shell runs.
#[derive(Debug, Clone, Copy, PartialEq, Eq, Structural)]
pub enum Kind {
    Local,
    Codespace,
    DevTunnel,
}

/// Per-profile answer to OSC 52 clipboard writes.
#[derive(Debug, Clone, Copy, PartialEq, Eq, Structural)]
pub enum ClipboardPolicy {
    Allow,
    Block,
}

/// One `[profile.<name>]` block of the config, as the shell reads it.
#[derive(Debug)]
pub struct ProfileEntry {
    pub name: String,
    /// `None` when the block does not say; such profiles are local.
    pub kind: Option<Kind>,
    /// `#RRGGBB` tint for the window chrome, if any.
    pub tint: Option<String>,
    pub clipboard_write: Option<ClipboardPolicy>,
}

impl Clone for ProfileEntry {
    fn clone(&self) -> (r: Self)
        ensures
            r == *self,
    {
        let tint = match &self.tint {
            Some(t) => Some(t.clone()),
            None => None,
        };
        ProfileEntry { name: self.name.clone(), kind: self.kind, tint, clipboard_write: self.clipboard_write }
    }
}

/// The profile named `name` among `profiles` (the first one, should names repeat).
pub open spec fn profile_named(profiles: Seq<ProfileEntry>, name: Seq<char>) -> Option<ProfileEntry>
    decreases profiles.len(),
{
    if profiles.len() == 0 {
        None
    } else if profiles[0].name@ == name {
        Some(profiles[0])
    } else {
        profile_named(profiles.drop_first(), name)
    }
}

/// Looks up the profile named `name`.
pub fn find_profile<'a>(profiles: &'a Vec<ProfileEntry>, name: &str) -> (r: Option<&'a ProfileEntry>)
    ensures
        r == (match profile_named(profiles@, name@) {
            Some(p) => Some(&p),
            None => None::<&ProfileEntry>,
        }),
{
    let target = String::from_str(name);
    assert(profiles@.subrange(0, profiles@.len() as int) =~= profiles@);
    let mut i: usize = 0;
    while i < profiles.len()
        invariant
            i <= profiles@.len(),
            target@ == name@,
            profile_named(profiles@, name@) == profile_named(profiles@.subrange(i as int, profiles@.len() as int), name@),
        decreases profiles@.len() - i,
    {
        let ghost rest = profiles@.subrange(i as int, profiles@.len() as int);
        assert(rest.drop_first() =~= profiles@.subrange(i + 1, profiles@.len() as int));
        if profiles[i].name == target {
            return Some(&profiles[i]);
        }
        i = i + 1;
    }
    None
}

} // verus!
