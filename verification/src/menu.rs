//! Menu rows whose labels and enabled state the shell decides: the
//! Microsoft sign-in section and the Switch Profile submenu. Installing them
//! into the AppKit menu bar happens in the app.

use vstd::prelude::*;
use vstd::string::*;
use crate::config::{Kind, ProfileEntry};

verus! {

/// Whether Microsoft tokens are present.
#[derive(Debug, Clone, Copy, PartialEq, Eq, Structural)]
pub enum SignInState {
    SignedIn,
    SignedOut,
}

/// The sign-in section for `state`: one enabled row, offering to sign in
/// when signed out and to sign out when signed in.
pub fn microsoft_signin_menu_rows(state: SignInState) -> (rows: Vec<(String, bool)>)
    ensures
        rows@.len() == 1,
        rows@[0].0@ == (match state {
            SignInState::SignedOut => "Sign in with Microsoft"@,
            SignInState::SignedIn => "Sign out of Microsoft"@,
        }),
        rows@[0].1,
{
    let label = match state {
        SignInState::SignedOut => String::from_str("Sign in with Microsoft"),
        SignInState::SignedIn => String::from_str("Sign out of Microsoft"),
    };
    let mut rows: Vec<(String, bool)> = Vec::new();
    rows.push((label, true));
    rows
}

/// Remote profiles (codespace, dev tunnel) are listed but not yet switchable.
pub open spec fn is_remote(kind: Option<Kind>) -> bool {
    kind == Some(Kind::Codespace) || kind == Some(Kind::DevTunnel)
}

/// The Switch Profile row for one profile: local (or unspecified) profiles
/// are enabled under their name; remote ones read `{name} (phase 6+)` and
/// are disabled.
pub open spec fn submenu_row_spec(p: ProfileEntry) -> (Seq<char>, bool) {
    if is_remote(p.kind) {
        (p.name@ + " (phase 6+)"@, false)
    } else {
        (p.name@, true)
    }
}

/// The Switch Profile rows for `profiles`, one per profile, in the given
/// order (the config keeps profiles sorted by name).
pub fn submenu_rows_for(profiles: &Vec<ProfileEntry>) -> (rows: Vec<(String, bool)>)
    ensures
        rows@.len() == profiles@.len(),
        forall|i: int| 0 <= i < rows@.len() ==> {
            &&& (#[trigger] rows@[i]).0@ == submenu_row_spec(profiles@[i]).0
            &&& rows@[i].1 == submenu_row_spec(profiles@[i]).1
        },
{
    let mut rows: Vec<(String, bool)> = Vec::new();
    let mut i: usize = 0;
    while i < profiles.len()
        invariant
            i <= profiles@.len(),
            rows@.len() == i,
            forall|j: int| 0 <= j < i ==> {
                &&& (#[trigger] rows@[j]).0@ == submenu_row_spec(profiles@[j]).0
                &&& rows@[j].1 == submenu_row_spec(profiles@[j]).1
            },
        decreases profiles@.len() - i,
    {
        let p = &profiles[i];
        let remote = match p.kind {
            Some(Kind::Codespace) => true,
            Some(Kind::DevTunnel) => true,
            _ => false,
        };
        if remote {
            let mut label = p.name.clone();
            label.append(" (phase 6+)");
            rows.push((label, false));
        } else {
            rows.push((p.name.clone(), true));
        }
        i = i + 1;
    }
    rows
}

/// The Switch Profile rows are a function of the profiles' names and kinds
/// alone: building them twice, or from a copy of the config, or from a
/// config that differs only in tints or clipboard policies, gives the same rows.
pub proof fn lemma_submenu_rows_depend_on_names_and_kinds(a: Seq<ProfileEntry>, b: Seq<ProfileEntry>)
    requires
        a.len() == b.len(),
        forall|i: int| 0 <= i < a.len() ==> (#[trigger] a[i]).name@ == b[i].name@ && a[i].kind == b[i].kind,
    ensures
        forall|i: int| 0 <= i < a.len() ==> #[trigger] submenu_row_spec(a[i]) == submenu_row_spec(b[i]),
{
}

} // verus!
