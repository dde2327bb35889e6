//! Keyboard state of the game's five keys, and the keys the game reacts to.
use vstd::prelude::*;
use vstd::std_specs::cmp::PartialEqSpec;
use vstd::std_specs::cmp::PartialEqSpecImpl;

verus! {

/// The state of one key, as the game tracks it between frames.
///
/// A key that has just gone down is `KeyChangeDown` until the next update
/// acts on it and turns it into `KeyDown`; likewise `KeyChangeUp` becomes `KeyUp`.
#[derive(Clone, Copy, Debug)]
pub enum KeyState {
    KeyChangeDown,
    KeyDown,
    KeyChangeUp,
    KeyUp,
}

/// The keys that the game reacts to; every other key is `Other`.
#[derive(Clone, Copy, Debug, PartialEq, Eq, Structural)]
pub enum Key {
    /// moves the piece left
    A,
    /// moves the piece right
    D,
    /// rotates the piece one way
    S,
    /// rotates the piece the other way
    W,
    /// drops the piece
    Space,
    Other,
}

/// The number by which the game tells key states apart.
pub open spec fn key_state_number(k: KeyState) -> int {
    match k {
        KeyState::KeyChangeDown => 0,
        KeyState::KeyDown => 1,
        KeyState::KeyChangeUp => 2,
        KeyState::KeyUp => 3,
    }
}

impl PartialEq for KeyState {
    fn eq(&self, other: &Self) -> (res: bool) {
        let a: u8 = match self {
            KeyState::KeyChangeDown => 0,
            KeyState::KeyDown => 1,
            KeyState::KeyChangeUp => 2,
            KeyState::KeyUp => 3,
        };
        let b: u8 = match other {
            KeyState::KeyChangeDown => 0,
            KeyState::KeyDown => 1,
            KeyState::KeyChangeUp => 2,
            KeyState::KeyUp => 3,
        };
        a == b
    }
}

impl PartialEqSpecImpl for KeyState {
    open spec fn obeys_eq_spec() -> bool {
        true
    }

    open spec fn eq_spec(&self, other: &KeyState) -> bool {
        key_state_number(*self) == key_state_number(*other)
    }
}

/// Two key states compare equal exactly when they are the same state.
pub proof fn lemma_key_state_eq_is_identity(a: KeyState, b: KeyState)
    ensures
        PartialEqSpec::eq_spec(&a, &b) <==> a == b,
{
}

/// What an update does to a key: a fresh change is acknowledged.
pub open spec fn settled(k: KeyState) -> KeyState {
    match k {
        KeyState::KeyChangeDown => KeyState::KeyDown,
        KeyState::KeyChangeUp => KeyState::KeyUp,
        _ => k,
    }
}

/// What pressing a key does to its state: a key already held stays held.
pub open spec fn pressed(k: KeyState) -> KeyState {
    match k {
        KeyState::KeyDown => KeyState::KeyDown,
        _ => KeyState::KeyChangeDown,
    }
}

/// Whether a key has just gone down and not yet been acted on.
pub open spec fn is_fresh_down(k: KeyState) -> bool {
    k == KeyState::KeyChangeDown
}

} // verus!
