//! Reading the controls off the keyboard state that the engine keeps.
//!
//! The engine records which keys are down and which went down since the
//! last frame. This module asks it about the five keys the game listens to
//! and binds them to the controls of locomotion.

use bevy::input::keyboard::KeyCode;
use bevy::input::Input;
use vstd::prelude::*;
use crate::locomotion::Controls;

verus! {

/// The engine's record of which inputs are down, went down and came up.
/// Nothing of its inside is known here; `held_keys` and `fresh_keys` name
/// what the game reads of it.
#[verifier::external_type_specification]
#[verifier::external_body]
#[verifier::reject_recursive_types(T)]
pub struct ExInput<T: Copy + Eq + std::hash::Hash + Send + Sync + 'static>(Input<T>);

/// The engine's names for the keys of a keyboard. Nothing of its inside is
/// known here.
#[verifier::external_type_specification]
#[verifier::external_body]
pub struct ExKeyCode(KeyCode);

/// The keys the game listens to: the four arrows and the space bar.
#[derive(Clone, Copy, Debug, PartialEq, Eq, Structural)]
pub enum Key {
    Up,
    Down,
    Left,
    Right,
    Space,
}

/// Those keys of the game that a keyboard state records as being down.
pub uninterp spec fn held_keys(input: Input<KeyCode>) -> Set<Key>;

/// Those keys of the game that a keyboard state records as having gone
/// down since it was last cleared.
pub uninterp spec fn fresh_keys(input: Input<KeyCode>) -> Set<Key>;

/// Calls `Input::pressed` of the engine with the key code of the same name
/// as `key`. Believed, not proved: the answer is whether the keyboard state
/// records that key as being down, which is what `held_keys` names.
#[verifier::external_body]
fn key_held(input: &Input<KeyCode>, key: Key) -> (held: bool)
    ensures
        held == held_keys(*input).contains(key),
{
    input.pressed(
        match key {
            Key::Up => KeyCode::Up,
            Key::Down => KeyCode::Down,
            Key::Left => KeyCode::Left,
            Key::Right => KeyCode::Right,
            Key::Space => KeyCode::Space,
        },
    )
}

/// Calls `Input::just_pressed` of the engine with the key code of the same
/// name as `key`. Believed, not proved: the answer is whether the keyboard
/// state records that key as having gone down since it was last cleared,
/// which is what `fresh_keys` names.
#[verifier::external_body]
fn key_fresh(input: &Input<KeyCode>, key: Key) -> (fresh: bool)
    ensures
        fresh == fresh_keys(*input).contains(key),
{
    input.just_pressed(
        match key {
            Key::Up => KeyCode::Up,
            Key::Down => KeyCode::Down,
            Key::Left => KeyCode::Left,
            Key::Right => KeyCode::Right,
            Key::Space => KeyCode::Space,
        },
    )
}

/// The arrow keys steer: up is forward, down is back, left and right are
/// themselves.
pub open spec fn controls_of(held: Set<Key>) -> Controls {
    Controls {
        forward: held.contains(Key::Up),
        back: held.contains(Key::Down),
        left: held.contains(Key::Left),
        right: held.contains(Key::Right),
    }
}

/// Reads the direction controls off the keyboard state.
pub fn read_controls(input: &Input<KeyCode>) -> (controls: Controls)
    ensures
        controls == controls_of(held_keys(*input)),
{
    Controls {
        forward: key_held(input, Key::Up),
        back: key_held(input, Key::Down),
        left: key_held(input, Key::Left),
        right: key_held(input, Key::Right),
    }
}

/// Tells whether the jump control, the space bar, went down since the
/// keyboard state was last cleared: the edge, not the level.
pub fn read_jump(input: &Input<KeyCode>) -> (just_pressed: bool)
    ensures
        just_pressed == fresh_keys(*input).contains(Key::Space),
{
    key_fresh(input, Key::Space)
}

} // verus!
