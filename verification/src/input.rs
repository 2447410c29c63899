//! The keypad: sixteen keys, numbered `0x0` to `0xF`, read off a keyboard.
//!
//! A pressed key of the keyboard is known by its key code, the character
//! code of the unshifted key. The sixteen keys of the keypad lie on the
//! keyboard as
//!
//! ```text
//! 1 2 3 4        1 2 3 C
//! Q W E R   for  4 5 6 D
//! A S D F        7 8 9 E
//! Z X C V        A 0 B F
//! ```

use vstd::prelude::*;
use std::collections::HashSet;
use vstd::std_specs::iter::IteratorSpec;

verus! {

/// Key code of the key `1`.
pub const KEY_1: i32 = 0x31;

/// Key code of the key `2`.
pub const KEY_2: i32 = 0x32;

/// Key code of the key `3`.
pub const KEY_3: i32 = 0x33;

/// Key code of the key `4`.
pub const KEY_4: i32 = 0x34;

/// Key code of the key `Q`.
pub const KEY_Q: i32 = 0x71;

/// Key code of the key `W`.
pub const KEY_W: i32 = 0x77;

/// Key code of the key `E`.
pub const KEY_E: i32 = 0x65;

/// Key code of the key `R`.
pub const KEY_R: i32 = 0x72;

/// Key code of the key `A`.
pub const KEY_A: i32 = 0x61;

/// Key code of the key `S`.
pub const KEY_S: i32 = 0x73;

/// Key code of the key `D`.
pub const KEY_D: i32 = 0x64;

/// Key code of the key `F`.
pub const KEY_F: i32 = 0x66;

/// Key code of the key `Z`.
pub const KEY_Z: i32 = 0x7A;

/// Key code of the key `X`.
pub const KEY_X: i32 = 0x78;

/// Key code of the key `C`.
pub const KEY_C: i32 = 0x63;

/// Key code of the key `V`.
pub const KEY_V: i32 = 0x76;

/// The key codes of the keypad's keys, by key number.
pub open spec fn layout() -> Seq<i32> {
    seq![
        KEY_X, KEY_1, KEY_2, KEY_3, KEY_Q, KEY_W, KEY_E, KEY_A,
        KEY_S, KEY_D, KEY_Z, KEY_C, KEY_4, KEY_R, KEY_F, KEY_V,
    ]
}

/// Whether one of the pressed keys is the keypad key numbered `k`.
pub open spec fn is_held(keys: Set<i32>, k: int) -> bool {
    keys.contains(layout()[k])
}

/// Whether one of the pressed keys is a key of the keypad.
pub open spec fn any_held(keys: Set<i32>) -> bool {
    exists|k: int| 0 <= k < 16 && #[trigger] is_held(keys, k)
}

/// Finds the keypad key that a key code stands for: the one key whose
/// place in the layout holds that code, or none where no place does.
pub fn key_number(code: i32) -> (hex: Option<usize>)
    ensures
        match hex {
            Some(k) => k < 16 && layout()[k as int] == code,
            None => forall|k: int| 0 <= k < 16 ==> layout()[k] != code,
        },
{
    if code == KEY_1 {
        Some(0x1)
    } else if code == KEY_2 {
        Some(0x2)
    } else if code == KEY_3 {
        Some(0x3)
    } else if code == KEY_4 {
        Some(0xC)
    } else if code == KEY_Q {
        Some(0x4)
    } else if code == KEY_W {
        Some(0x5)
    } else if code == KEY_E {
        Some(0x6)
    } else if code == KEY_R {
        Some(0xD)
    } else if code == KEY_A {
        Some(0x7)
    } else if code == KEY_S {
        Some(0x8)
    } else if code == KEY_D {
        Some(0x9)
    } else if code == KEY_F {
        Some(0xE)
    } else if code == KEY_Z {
        Some(0xA)
    } else if code == KEY_X {
        Some(0x0)
    } else if code == KEY_C {
        Some(0xB)
    } else if code == KEY_V {
        Some(0xF)
    } else {
        None
    }
}

/// The keypad as the processor reads it, and the keys of the keyboard that
/// were last reported as pressed.
pub struct Keypad {
    /// Whether each key of the keypad is held, by key number.
    pub keypad: [bool; 16],
    /// Whether any key of the keypad is held.
    pub key_pressed: bool,
    /// The key codes last reported as pressed.
    pub keys: HashSet<i32>,
}

impl Keypad {
    /// A keypad with no key held and no key reported.
    pub fn new() -> (pad: Self)
        ensures
            pad.keys@ == Set::<i32>::empty(),
            !pad.key_pressed,
            forall|k: int| 0 <= k < 16 ==> !pad.keypad@[k],
    {
        Self { keypad: [false; 16], key_pressed: false, keys: HashSet::new() }
    }

    /// Releases every key of the keypad; the reported keys stay.
    pub fn reset_keypad(&mut self)
        ensures
            final(self).keys == old(self).keys,
            !final(self).key_pressed,
            forall|k: int| 0 <= k < 16 ==> !final(self).keypad@[k],
    {
        self.keypad = [false; 16];
        self.key_pressed = false;
    }

    /// Takes the key codes that are pressed now; the keypad stays.
    pub fn update_keys(&mut self, pressed_keys: HashSet<i32>)
        ensures
            final(self).keys == pressed_keys,
            final(self).keypad == old(self).keypad,
            final(self).key_pressed == old(self).key_pressed,
    {
        self.keys = pressed_keys;
    }

    /// Holds down every key of the keypad that one of the reported key
    /// codes stands for. Keys that were held stay held, and the summary flag
    /// is set as soon as any key of the keypad is among the reported ones.
    pub fn update_keypad(&mut self)
        ensures
            final(self).keys == old(self).keys,
            forall|k: int|
                0 <= k < 16 ==> final(self).keypad@[k] == (old(self).keypad@[k] || is_held(
                    old(self).keys@,
                    k,
                )),
            final(self).key_pressed == (old(self).key_pressed || any_held(old(self).keys@)),
    {
        broadcast use vstd::std_specs::hash::group_hash_axioms;

        let ghost all: Seq<i32> = self.keys.iter().remaining().unref();
        let ghost mut seen: Seq<i32> = Seq::empty();
        for key in it: self.keys.iter()
            invariant
                self.keys == old(self).keys,
                it.seq().unref() == all,
                all.to_set() == old(self).keys@,
                seen == all.take(it.index() as int),
                forall|k: int|
                    0 <= k < 16 ==> self.keypad@[k] == (old(self).keypad@[k] || seen.contains(
                        layout()[k],
                    )),
                self.key_pressed == (old(self).key_pressed || exists|k: int|
                    0 <= k < 16 && seen.contains(#[trigger] layout()[k])),
        {
            let hex_key = key_number(*key);
            proof {
                let longer = seen.push(*key);
                assert(longer[seen.len() as int] == *key);
                assert forall|c: i32| longer.contains(c) == (seen.contains(c) || c == *key) by {
                    if longer.contains(c) {
                        let j = choose|j: int| 0 <= j < longer.len() && longer[j] == c;
                        if j < seen.len() {
                            assert(seen[j] == c);
                        }
                    }
                    if seen.contains(c) {
                        let j = choose|j: int| 0 <= j < seen.len() && seen[j] == c;
                        assert(longer[j] == c);
                    }
                }
                seen = longer;
            }
            if let Some(i) = hex_key {
                self.keypad[i] = true;
                if !self.key_pressed {
                    self.key_pressed = true;
                }
            }
        }
        proof {
            assert(seen.len() == all.len());
            assert(seen =~= all);
            assert forall|k: int| 0 <= k < 16 implies seen.contains(layout()[k]) == is_held(
                old(self).keys@,
                k,
            ) by {
                assert(seen.to_set().contains(layout()[k]) == seen.contains(layout()[k]));
            }
            if any_held(old(self).keys@) {
                let k = choose|k: int| 0 <= k < 16 && #[trigger] is_held(old(self).keys@, k);
                assert(seen.contains(layout()[k]));
            }
            if exists|k: int| 0 <= k < 16 && seen.contains(#[trigger] layout()[k]) {
                let k = choose|k: int| 0 <= k < 16 && seen.contains(#[trigger] layout()[k]);
                assert(is_held(old(self).keys@, k));
            }
        }
    }
}

} // verus!
