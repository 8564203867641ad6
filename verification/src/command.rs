//! Keyboard commands.

use vstd::prelude::*;

verus! {

/// The key that ends the session.
pub const QUIT_KEY: u8 = 113;

/// The key that clears the recorded hits.
pub const RESET_KEY: u8 = 114;

/// The key code that a poll reports when no key was pressed.
pub const NO_KEY: i32 = -1;

/// What a polled key asks for.
#[derive(Clone, Copy, Debug, PartialEq, Eq, Structural)]
pub enum Command {
    /// Stop the acquisition session.
    Quit,
    /// Clear the recorded hits.
    Reset,
    /// Nothing: another key, or no key at all.
    Ignore,
}

/// The low byte of a key code, as a number from 0 to 255.
pub open spec fn low_byte(key: i32) -> int {
    key as int % 256
}

/// The command for a key code. Only the low byte of the code counts: `q`
/// quits, `r` resets, and every other byte, that of "no key" among them, is
/// ignored.
pub open spec fn command_of(key: i32) -> Command {
    if low_byte(key) == QUIT_KEY {
        Command::Quit
    } else if low_byte(key) == RESET_KEY {
        Command::Reset
    } else {
        Command::Ignore
    }
}

/// Decodes the key code that one poll of the keyboard returned.
pub fn decode_key(key: i32) -> (command: Command)
    ensures
        command == command_of(key),
        key == 'q' as i32 ==> command == Command::Quit,
        key == 'r' as i32 ==> command == Command::Reset,
        key == NO_KEY ==> command == Command::Ignore,
{
    let low: u8 = #[verifier::truncate]
    (key as u8);
    proof {
        let rem: i32 = (key % 256i32) as i32;
        assert(low as i32 == (if rem < 0i32 {
            (rem + 256i32) as i32
        } else {
            rem
        })) by (bit_vector)
            requires
                low == key as u8,
                rem == key % 256i32,
        ;
        assert(low == low_byte(key));
    }
    if low == QUIT_KEY {
        Command::Quit
    } else if low == RESET_KEY {
        Command::Reset
    } else {
        Command::Ignore
    }
}

} // verus!
