//! The keypad: which key of the host keyboard stands for which of the sixteen
//! keys, and what an input event does to the key vector.
//!
//! The four rows of the keypad lie on the four rows of keys under the digits
//! `1` to `4`:
//!
//! ```text
//! 1 2 3 C      1 2 3 4
//! 4 5 6 D      Q W E R
//! 7 8 9 E      A S D F
//! A 0 B F      Z X C V
//! ```

use crate::consts::N_KEYS;
use vstd::prelude::*;

verus! {

/// A key of the host keyboard, as far as the keypad cares.
#[derive(Debug, Clone, Copy, PartialEq, Eq, Structural)]
pub enum HostKey {
    Num1,
    Num2,
    Num3,
    Num4,
    Q,
    W,
    E,
    R,
    A,
    S,
    D,
    F,
    Z,
    X,
    C,
    V,
    Escape,
    /// Any other key.
    Other,
}

/// One event of the input source.
#[derive(Debug, Clone, Copy, PartialEq, Eq, Structural)]
pub enum InputEvent {
    /// The user asked to end the program.
    Quit,
    /// A key went down.
    KeyDown(HostKey),
    /// A key went up.
    KeyUp(HostKey),
    /// Anything else.
    Other,
}

/// The key of the keypad that a host key stands for, if any.
pub open spec fn keypad_index(key: HostKey) -> Option<u8> {
    match key {
        HostKey::Num1 => Some(0x1u8),
        HostKey::Num2 => Some(0x2u8),
        HostKey::Num3 => Some(0x3u8),
        HostKey::Num4 => Some(0xCu8),
        HostKey::Q => Some(0x4u8),
        HostKey::W => Some(0x5u8),
        HostKey::E => Some(0x6u8),
        HostKey::R => Some(0xDu8),
        HostKey::A => Some(0x7u8),
        HostKey::S => Some(0x8u8),
        HostKey::D => Some(0x9u8),
        HostKey::F => Some(0xEu8),
        HostKey::Z => Some(0xAu8),
        HostKey::X => Some(0x0u8),
        HostKey::C => Some(0xBu8),
        HostKey::V => Some(0xFu8),
        HostKey::Escape | HostKey::Other => None,
    }
}

/// The event ends the program: a quit request, or the escape key going down.
pub open spec fn ends_program(event: InputEvent) -> bool {
    event == InputEvent::Quit || event == InputEvent::KeyDown(HostKey::Escape)
}

/// The key vector after an event: a key of the keypad going down is held, one
/// going up is released, and every other event changes nothing.
pub open spec fn keys_after(keys: Seq<bool>, event: InputEvent) -> Seq<bool> {
    match event {
        InputEvent::KeyDown(key) => match keypad_index(key) {
            Some(k) => keys.update(k as int, true),
            None => keys,
        },
        InputEvent::KeyUp(key) => match keypad_index(key) {
            Some(k) => keys.update(k as int, false),
            None => keys,
        },
        _ => keys,
    }
}

/// The key of the keypad that `key` stands for, if any.
pub fn key_index(key: HostKey) -> (index: Option<u8>)
    ensures
        index == keypad_index(key),
        index matches Some(k) ==> k < N_KEYS,
{
    match key {
        HostKey::Num1 => Some(0x1),
        HostKey::Num2 => Some(0x2),
        HostKey::Num3 => Some(0x3),
        HostKey::Num4 => Some(0xC),
        HostKey::Q => Some(0x4),
        HostKey::W => Some(0x5),
        HostKey::E => Some(0x6),
        HostKey::R => Some(0xD),
        HostKey::A => Some(0x7),
        HostKey::S => Some(0x8),
        HostKey::D => Some(0x9),
        HostKey::F => Some(0xE),
        HostKey::Z => Some(0xA),
        HostKey::X => Some(0x0),
        HostKey::C => Some(0xB),
        HostKey::V => Some(0xF),
        HostKey::Escape | HostKey::Other => None,
    }
}

/// Applies one event to the key vector and says whether the program is to
/// end. An event that ends the program leaves the keys as they were.
pub fn handle_keypress(is_key_pressed: &mut [bool; N_KEYS], event: InputEvent) -> (quit: bool)
    ensures
        quit == ends_program(event),
        final(is_key_pressed)@ == keys_after(old(is_key_pressed)@, event),
{
    match event {
        InputEvent::Quit => true,
        InputEvent::KeyDown(key) => {
            if let Some(k) = key_index(key) {
                is_key_pressed[k as usize] = true;
                false
            } else {
                key == HostKey::Escape
            }
        },
        InputEvent::KeyUp(key) => {
            if let Some(k) = key_index(key) {
                is_key_pressed[k as usize] = false;
            }
            false
        },
        InputEvent::Other => false,
    }
}

/// Every key of the keypad has exactly one host key.
pub proof fn lemma_keypad_is_covered(k: u8)
    requires
        k < N_KEYS,
    ensures
        exists|key: HostKey| keypad_index(key) == Some(k),
        forall|a: HostKey, b: HostKey|
            keypad_index(a) == Some(k) && keypad_index(b) == Some(k) ==> a == b,
{
    let keys = seq![
        HostKey::X,
        HostKey::Num1,
        HostKey::Num2,
        HostKey::Num3,
        HostKey::Q,
        HostKey::W,
        HostKey::E,
        HostKey::A,
        HostKey::S,
        HostKey::D,
        HostKey::Z,
        HostKey::C,
        HostKey::Num4,
        HostKey::R,
        HostKey::F,
        HostKey::V,
    ];
    assert(keypad_index(keys[k as int]) == Some(k));
}

} // verus!
