//! Keyboard convention of the host driver: a movement key stands for its
//! lowercase ASCII byte, which the host writes into the designated input
//! cell of RAM for the running program to poll.  Deciding which byte a
//! pressed key stands for is pure computation and lives here; polling the
//! keyboard is entirely a host concern.

use vstd::prelude::*;

verus! {

/// Address of the input cell the game program polls.
pub const INPUT_CELL: u16 = 0xff;

/// The byte the input convention assigns to a key, given the key's ASCII
/// code: the four movement keys W, S, A and D, in either case, stand for
/// their lowercase ASCII bytes; every other key stands for nothing.
pub open spec fn spec_input_byte(key: u8) -> Option<u8> {
    if key == 0x77 || key == 0x57 {
        Some(0x77u8)
    } else if key == 0x73 || key == 0x53 {
        Some(0x73u8)
    } else if key == 0x61 || key == 0x41 {
        Some(0x61u8)
    } else if key == 0x64 || key == 0x44 {
        Some(0x64u8)
    } else {
        None
    }
}

/// Maps a pressed key's ASCII code to the byte to write into the input
/// cell, or `None` for a key outside the movement set.
pub fn input_byte_for_key(key: u8) -> (r: Option<u8>)
    ensures
        r == spec_input_byte(key),
{
    if key == 0x77 || key == 0x57 {
        Some(0x77)
    } else if key == 0x73 || key == 0x53 {
        Some(0x73)
    } else if key == 0x61 || key == 0x41 {
        Some(0x61)
    } else if key == 0x64 || key == 0x44 {
        Some(0x64)
    } else {
        None
    }
}

} // verus!
