//! The command codes a central sends, and the key each one stands for.

use vstd::prelude::*;

verus! {

/// A key that a received command asks to press and release.
#[derive(Clone, Copy, Debug, PartialEq, Eq, Structural)]
pub enum KeyAction {
    /// Advance: the right arrow key.
    RightArrow,
    /// Go back: the left arrow key.
    LeftArrow,
}

/// The command code of a payload: its first byte, or zero for an empty payload.
pub open spec fn command_code(value: Seq<u8>) -> u8 {
    if value.len() == 0 {
        0u8
    } else {
        value[0]
    }
}

/// The key that a command code stands for, if it stands for one.
pub open spec fn key_for_code(code: u8) -> Option<KeyAction> {
    if code == 1u8 {
        Some(KeyAction::RightArrow)
    } else if code == 2u8 {
        Some(KeyAction::LeftArrow)
    } else {
        None
    }
}

/// Interprets a received payload. Only the first byte counts: `0x01` asks for
/// the right arrow, `0x02` for the left arrow. Any other first byte, and an
/// empty payload, is an unknown command and asks for nothing.
pub fn handle_command(value: &[u8]) -> (key: Option<KeyAction>)
    ensures
        key == key_for_code(command_code(value@)),
{
    let code: u8 = if value.len() == 0 {
        0u8
    } else {
        value[0]
    };
    if code == 1u8 {
        Some(KeyAction::RightArrow)
    } else if code == 2u8 {
        Some(KeyAction::LeftArrow)
    } else {
        None
    }
}

} // verus!
