//! What the engine asks of a keyboard.

use vstd::prelude::*;
use std::time::Duration;

verus! {

/// A key.
#[derive(Clone, Copy, PartialEq, Eq, Debug, Structural)]
pub enum KeyCode {
    Backspace,
    Enter,
    Left,
    Right,
    Up,
    Down,
    Esc,
    Char(char),
}

/// The error type of `std::io`, carried through untouched by `poll_input`.
#[verifier::external_type_specification]
#[verifier::external_body]
pub struct ExIoError(std::io::Error);

/// A source of key states. `poll_input` takes a fresh snapshot; the queries
/// answer from the last snapshot, so that everyone who asks within one frame
/// sees the same keys.
pub trait KeyInput: Send {
    /// Takes a snapshot of the keys.
    fn poll_input(&mut self) -> Result<(), std::io::Error>;

    /// Whether the key is held.
    fn is_press(&self, key: &KeyCode) -> bool;

    /// Whether the key went down with the last snapshot.
    fn is_down(&self, key: &KeyCode) -> bool;

    /// Whether the key came up with the last snapshot.
    fn is_up(&self, key: &KeyCode) -> bool;

    /// How long the key has been held since it last went down.
    fn calc_elapsed(&self, key: &KeyCode) -> Duration;
}

/// The length of a `Duration` in whole nanoseconds, as `Duration::as_nanos`
/// gives it. Nothing is claimed of the number.
#[verifier::external_body]
pub(crate) fn duration_nanos(elapsed: &Duration) -> u128 {
    elapsed.as_nanos()
}

} // verus!
