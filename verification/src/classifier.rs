//! Focus signal classification.
//!
//! A bus message is focus-relevant when its interface and member name say it
//! announces a focus change or a window activation. The member literal that
//! the focus interface is matched against is configuration data, registered
//! verbatim with the upstream filter: downstream behaviour depends on exact
//! equality, so it is reproduced here character for character.

use vstd::prelude::*;

verus! {

/// Compare two string slices by their characters.
fn str_eq(a: &str, b: &str) -> (r: bool)
    ensures
        r == (a@ == b@),
{
    let sa: String = a.to_owned();
    let sb: String = b.to_owned();
    sa == sb
}

/// A message is focus-relevant exactly when it is a focus-interface signal
/// carrying the configured focus member literal, or a window-interface
/// signal carrying an activation member (either case variant). Everything
/// else — deactivation signals included — is irrelevant.
pub open spec fn spec_is_focus_signal(interface: Seq<char>, member: Seq<char>) -> bool {
    ||| (interface == "org.a11y.atspi.Event.Focus"@ && member == "Focis"@)
    ||| (interface == "org.a11y.atspi.Event.Window"@ && (member == "Activate"@ || member
        == "activate"@))
}

/// Decide whether a bus message announces a focus change or a window
/// activation; when it does, hand back its subject path verbatim. Total:
/// unmatched interface/member combinations simply yield `None`.
pub fn classify(interface: &str, member: &str, path: &str) -> (r: Option<String>)
    ensures
        match r {
            Some(p) => spec_is_focus_signal(interface@, member@) && p@ == path@,
            None => !spec_is_focus_signal(interface@, member@),
        },
{
    let relevant = (str_eq(interface, "org.a11y.atspi.Event.Focus") && str_eq(member, "Focis")) || (
    str_eq(interface, "org.a11y.atspi.Event.Window") && (str_eq(member, "Activate") || str_eq(
        member,
        "activate",
    )));
    if relevant {
        Some(path.to_owned())
    } else {
        None
    }
}

} // verus!
