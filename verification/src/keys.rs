//! Mapping from host keyboard keys to CHIP-8 keypad codes.
//!
//! The emulated machine has a hexadecimal keypad of sixteen buttons, `0x0`
//! through `0xF`. A fixed 4x4 block of the host keyboard (`1234` / `QWER` /
//! `ASDF` / `ZXCV`) stands for it; every other host key is unmapped, which is
//! a normal outcome and not an error.

use vstd::prelude::*;

verus! {

/// Identity of a physical key on the host keyboard, as far as the shell
/// cares: the digit and letter keys by name, and everything else as `Other`.
#[derive(Clone, Copy, PartialEq, Eq, Structural, Debug)]
pub enum HostKey {
    D0,
    D1,
    D2,
    D3,
    D4,
    D5,
    D6,
    D7,
    D8,
    D9,
    A,
    B,
    C,
    D,
    E,
    F,
    G,
    H,
    I,
    J,
    K,
    L,
    M,
    N,
    O,
    P,
    Q,
    R,
    S,
    T,
    U,
    V,
    W,
    X,
    Y,
    Z,
    /// Any host key that is none of the named digit or letter keys.
    Other,
}

/// The fixed keyboard-to-keypad table: `Some(code)` for the sixteen keys of
/// the 4x4 block, `None` for every other host key.
pub open spec fn keymap_spec(k: HostKey) -> Option<u8> {
    match k {
        HostKey::D1 => Some(0x1),
        HostKey::D2 => Some(0x2),
        HostKey::D3 => Some(0x3),
        HostKey::Q => Some(0x4),
        HostKey::W => Some(0x5),
        HostKey::E => Some(0x6),
        HostKey::A => Some(0x7),
        HostKey::S => Some(0x8),
        HostKey::D => Some(0x9),
        HostKey::Z => Some(0xA),
        HostKey::X => Some(0x0),
        HostKey::C => Some(0xB),
        HostKey::D4 => Some(0xC),
        HostKey::R => Some(0xD),
        HostKey::F => Some(0xE),
        HostKey::V => Some(0xF),
        _ => None,
    }
}

/// Whether some host key resolves to the keypad code `c`.
pub open spec fn code_has_key(c: u8) -> bool {
    exists|k: HostKey| #[trigger] keymap_spec(k) == Some(c)
}

/// The sixteen host keys that stand for keypad buttons.
pub open spec fn keypad_keys() -> Set<HostKey> {
    set![
        HostKey::D1,
        HostKey::D2,
        HostKey::D3,
        HostKey::D4,
        HostKey::Q,
        HostKey::W,
        HostKey::E,
        HostKey::R,
        HostKey::A,
        HostKey::S,
        HostKey::D,
        HostKey::F,
        HostKey::Z,
        HostKey::X,
        HostKey::C,
        HostKey::V,
    ]
}

/// Resolves a host key to its keypad code, or `None` for a key outside the
/// 4x4 block. Pure and total: the table is fixed at build time.
pub fn keymap(k: HostKey) -> (r: Option<u8>)
    ensures
        r == keymap_spec(k),
        r matches Some(c) ==> c < 16,
{
    match k {
        HostKey::D1 => Some(0x1),
        HostKey::D2 => Some(0x2),
        HostKey::D3 => Some(0x3),
        HostKey::Q => Some(0x4),
        HostKey::W => Some(0x5),
        HostKey::E => Some(0x6),
        HostKey::A => Some(0x7),
        HostKey::S => Some(0x8),
        HostKey::D => Some(0x9),
        HostKey::Z => Some(0xA),
        HostKey::X => Some(0x0),
        HostKey::C => Some(0xB),
        HostKey::D4 => Some(0xC),
        HostKey::R => Some(0xD),
        HostKey::F => Some(0xE),
        HostKey::V => Some(0xF),
        _ => None,
    }
}

/// The keypad table is a bijection between the sixteen keypad keys and the
/// sixteen keypad codes: every keypad key gets a code below 16, distinct keys
/// get distinct codes, every code below 16 is hit, and only keypad keys map.
pub proof fn lemma_keymap_bijective()
    ensures
        forall|k: HostKey| keypad_keys().contains(k) ==> #[trigger] keymap_spec(k) is Some,
        forall|k: HostKey| #[trigger] keymap_spec(k) is Some ==> keypad_keys().contains(k),
        forall|k: HostKey| #[trigger] keymap_spec(k) matches Some(c) ==> c < 16,
        forall|k1: HostKey, k2: HostKey|
            #[trigger] keymap_spec(k1) is Some && keymap_spec(k1) == #[trigger] keymap_spec(k2)
                ==> k1 == k2,
        forall|c: u8| c < 16 ==> #[trigger] code_has_key(c),
{
    assert forall|c: u8| c < 16 implies #[trigger] code_has_key(c) by {
        if c == 0x0 {
            assert(keymap_spec(HostKey::X) == Some(0x0u8));
        } else if c == 0x1 {
            assert(keymap_spec(HostKey::D1) == Some(0x1u8));
        } else if c == 0x2 {
            assert(keymap_spec(HostKey::D2) == Some(0x2u8));
        } else if c == 0x3 {
            assert(keymap_spec(HostKey::D3) == Some(0x3u8));
        } else if c == 0x4 {
            assert(keymap_spec(HostKey::Q) == Some(0x4u8));
        } else if c == 0x5 {
            assert(keymap_spec(HostKey::W) == Some(0x5u8));
        } else if c == 0x6 {
            assert(keymap_spec(HostKey::E) == Some(0x6u8));
        } else if c == 0x7 {
            assert(keymap_spec(HostKey::A) == Some(0x7u8));
        } else if c == 0x8 {
            assert(keymap_spec(HostKey::S) == Some(0x8u8));
        } else if c == 0x9 {
            assert(keymap_spec(HostKey::D) == Some(0x9u8));
        } else if c == 0xA {
            assert(keymap_spec(HostKey::Z) == Some(0xAu8));
        } else if c == 0xB {
            assert(keymap_spec(HostKey::C) == Some(0xBu8));
        } else if c == 0xC {
            assert(keymap_spec(HostKey::D4) == Some(0xCu8));
        } else if c == 0xD {
            assert(keymap_spec(HostKey::R) == Some(0xDu8));
        } else if c == 0xE {
            assert(keymap_spec(HostKey::F) == Some(0xEu8));
        } else {
            assert(keymap_spec(HostKey::V) == Some(0xFu8));
        }
    }
}

/// Every host key outside the sixteen keypad keys is unmapped.
pub proof fn lemma_non_keypad_keys_unmapped()
    ensures
        forall|k: HostKey| !keypad_keys().contains(k) ==> #[trigger] keymap_spec(k) is None,
{
}

} // verus!
