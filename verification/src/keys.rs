//! The modifier keys the daemon tracks, and their scan codes.

use vstd::prelude::*;

verus! {

/// Scan code of the left Control key in the standard input-event keymap.
pub const LEFT_CTRL_CODE: u32 = 29;

/// Scan code of the right Control key in the standard input-event keymap.
pub const RIGHT_CTRL_CODE: u32 = 97;

/// The two tracked modifier keys: the left and right Control keys.
#[derive(Clone, Copy, Debug, PartialEq, Eq, Structural)]
pub enum Key {
    LeftCtrl,
    RightCtrl,
}

impl Key {
    /// The scan code of this key.
    pub fn key(self) -> (code: u32)
        ensures
            code == self.spec_key(),
    {
        match self {
            Key::LeftCtrl => LEFT_CTRL_CODE,
            Key::RightCtrl => RIGHT_CTRL_CODE,
        }
    }

    /// The scan code of this key, for use in specifications.
    pub open spec fn spec_key(self) -> u32 {
        match self {
            Key::LeftCtrl => LEFT_CTRL_CODE,
            Key::RightCtrl => RIGHT_CTRL_CODE,
        }
    }
}

/// A key code engages or releases the modifier state exactly when it is one
/// of the two Control scan codes.
pub open spec fn is_modifier_code(code: u32) -> bool {
    code == LEFT_CTRL_CODE || code == RIGHT_CTRL_CODE
}

} // verus!
