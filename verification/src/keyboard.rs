//! The key pad: sixteen keys, each up or down.
//!
//! The machine has no notion of the key codes of a platform. Whoever delivers
//! a key event hands over a key map as well: pairs of an outside key code and
//! the key of the pad that it stands for.

use vstd::prelude::*;
use crate::config::CHIP8_TOTAL_KEYS;
use crate::errors::VMError;

verus! {

/// The key of the pad that `keymap` gives for the outside code `key`: that of
/// the first pair with this code.
pub open spec fn spec_map_to_vkey(key: i32, keymap: Seq<(i32, usize)>) -> Result<usize, VMError>
    decreases keymap.len(),
{
    if keymap.len() == 0 {
        Err(VMError::KeyMapNotFound)
    } else if keymap[0].0 == key {
        Ok(keymap[0].1)
    } else {
        spec_map_to_vkey(key, keymap.subrange(1, keymap.len() as int))
    }
}

/// The outside code that `inverse_keymap` gives for the key `key` of the pad:
/// that of the first pair with this key.
pub open spec fn spec_ch8_key2sdl_key(key: usize, inverse_keymap: Seq<(usize, i32)>) -> Option<i32>
    decreases inverse_keymap.len(),
{
    if inverse_keymap.len() == 0 {
        None
    } else if inverse_keymap[0].0 == key {
        Some(inverse_keymap[0].1)
    } else {
        spec_ch8_key2sdl_key(key, inverse_keymap.subrange(1, inverse_keymap.len() as int))
    }
}

/// Looks the key `key` of the pad up in `inverse_keymap`, which pairs keys of
/// the pad with the outside codes they are known by.
pub fn ch8_key2sdl_key(key: usize, inverse_keymap: &[(usize, i32)]) -> (code: Option<i32>)
    ensures
        code == spec_ch8_key2sdl_key(key, inverse_keymap@),
{
    let mut k: usize = 0;
    assert(inverse_keymap@.subrange(0, inverse_keymap@.len() as int) =~= inverse_keymap@);
    while k < inverse_keymap.len()
        invariant
            k <= inverse_keymap@.len(),
            spec_ch8_key2sdl_key(key, inverse_keymap@) == spec_ch8_key2sdl_key(
                key,
                inverse_keymap@.subrange(k as int, inverse_keymap@.len() as int),
            ),
        decreases inverse_keymap@.len() - k,
    {
        let ghost rest = inverse_keymap@.subrange(k as int, inverse_keymap@.len() as int);
        assert(rest[0] == inverse_keymap@[k as int]);
        if inverse_keymap[k].0 == key {
            return Some(inverse_keymap[k].1);
        }
        assert(rest.subrange(1, rest.len() as int) =~= inverse_keymap@.subrange(
            k as int + 1,
            inverse_keymap@.len() as int,
        ));
        k += 1;
    }
    None
}

/// Whether the release of the outside key `released` ends the wait for the key
/// `awaited` of the pad: it does where `inverse_keymap` knows the key by that code.
pub fn ends_key_wait(awaited: u8, released: i32, inverse_keymap: &[(usize, i32)]) -> (ends: bool)
    ensures
        ends == (spec_ch8_key2sdl_key(awaited as usize, inverse_keymap@) == Some(released)),
{
    match ch8_key2sdl_key(awaited as usize, inverse_keymap) {
        Some(code) => code == released,
        None => false,
    }
}

/// The pad `keys` after the outside key `key` went down (`down`) or up. A code
/// that the map does not list, or lists with a key that the pad does not have,
/// changes nothing.
pub open spec fn spec_key_event(keys: Seq<bool>, key: i32, keymap: Seq<(i32, usize)>, down: bool) -> Seq<bool> {
    match spec_map_to_vkey(key, keymap) {
        Ok(vkey) => if vkey < CHIP8_TOTAL_KEYS {
            keys.update(vkey as int, down)
        } else {
            keys
        },
        Err(_) => keys,
    }
}

/// Whether key `vkey` of the pad `keys` is down. A key that the pad does not
/// have is never down.
pub open spec fn spec_is_key_down(keys: Seq<bool>, vkey: u8) -> bool {
    vkey < CHIP8_TOTAL_KEYS && keys[vkey as int]
}

/// The key pad of the machine.
pub struct Keyboard {
    keyboard: [bool; CHIP8_TOTAL_KEYS],
}

impl View for Keyboard {
    type V = Seq<bool>;

    /// For each of the sixteen keys whether it is down.
    closed spec fn view(&self) -> Seq<bool> {
        self.keyboard@
    }
}

impl Keyboard {
    /// Every pad has sixteen keys.
    pub broadcast proof fn lemma_len(&self)
        ensures
            #[trigger] self@.len() == CHIP8_TOTAL_KEYS,
    {
    }

    /// Records that the outside key `key` went down.
    pub fn key_down(&mut self, key: i32, keymap: &[(i32, usize)])
        ensures
            final(self)@ == spec_key_event(old(self)@, key, keymap@, true),
    {
        match self.map_to_vkey(key, keymap) {
            Ok(vkey) => {
                if vkey < CHIP8_TOTAL_KEYS {
                    self.keyboard[vkey] = true;
                }
            },
            Err(_) => {},
        }
    }

    /// Records that the outside key `key` went up.
    pub fn key_up(&mut self, key: i32, keymap: &[(i32, usize)])
        ensures
            final(self)@ == spec_key_event(old(self)@, key, keymap@, false),
    {
        match self.map_to_vkey(key, keymap) {
            Ok(vkey) => {
                if vkey < CHIP8_TOTAL_KEYS {
                    self.keyboard[vkey] = false;
                }
            },
            Err(_) => {},
        }
    }

    /// Whether key `vkey` of the pad is down.
    pub fn is_key_down(&self, vkey: u8) -> (down: bool)
        ensures
            down == spec_is_key_down(self@, vkey),
    {
        (vkey as usize) < CHIP8_TOTAL_KEYS && self.keyboard[vkey as usize]
    }

    /// Whether key `vkey` of the pad is up.
    pub fn is_key_up(&self, vkey: u8) -> (up: bool)
        ensures
            up == !spec_is_key_down(self@, vkey),
    {
        !self.is_key_down(vkey)
    }

    /// Looks the outside code `key` up in `keymap`.
    pub fn map_to_vkey(&self, key: i32, keymap: &[(i32, usize)]) -> (res: Result<usize, VMError>)
        ensures
            res == spec_map_to_vkey(key, keymap@),
    {
        let mut k: usize = 0;
        assert(keymap@.subrange(0, keymap@.len() as int) =~= keymap@);
        while k < keymap.len()
            invariant
                k <= keymap@.len(),
                spec_map_to_vkey(key, keymap@) == spec_map_to_vkey(
                    key,
                    keymap@.subrange(k as int, keymap@.len() as int),
                ),
            decreases keymap@.len() - k,
        {
            let ghost rest = keymap@.subrange(k as int, keymap@.len() as int);
            assert(rest[0] == keymap@[k as int]);
            if keymap[k].0 == key {
                return Ok(keymap[k].1);
            }
            assert(rest.subrange(1, rest.len() as int) =~= keymap@.subrange(
                k as int + 1,
                keymap@.len() as int,
            ));
            k += 1;
        }
        Err(VMError::KeyMapNotFound)
    }
}

impl Default for Keyboard {
    /// A pad with every key up.
    fn default() -> (k: Keyboard)
        ensures
            k@ == Seq::new(CHIP8_TOTAL_KEYS as nat, |i: int| false),
    {
        let k = Keyboard { keyboard: [false; CHIP8_TOTAL_KEYS] };
        assert(k.keyboard@ =~= Seq::new(CHIP8_TOTAL_KEYS as nat, |i: int| false));
        k
    }
}

} // verus!
