//! The 16-key hexadecimal keypad and the map from physical key labels to it.

use vstd::prelude::*;

verus! {

/// Number of keys on the pad.
pub const KEY_COUNT: usize = 16;

/// The pad key that a physical key label stands for, on the usual layout
/// where the left four columns of a QWERTY board play the pad:
///
/// ```text
/// 1 2 3 4      1 2 3 C
/// Q W E R  ->  4 5 6 D
/// A S D F      7 8 9 E
/// Z X C V      A 0 B F
/// ```
pub open spec fn pad_code(label: char) -> Option<u8> {
    match label {
        '1' => Some(0x1u8),
        '2' => Some(0x2u8),
        '3' => Some(0x3u8),
        '4' => Some(0xCu8),
        'Q' => Some(0x4u8),
        'W' => Some(0x5u8),
        'E' => Some(0x6u8),
        'R' => Some(0xDu8),
        'A' => Some(0x7u8),
        'S' => Some(0x8u8),
        'D' => Some(0x9u8),
        'F' => Some(0xEu8),
        'Z' => Some(0xAu8),
        'X' => Some(0x0u8),
        'C' => Some(0xBu8),
        'V' => Some(0xFu8),
        _ => None,
    }
}

/// Whether some label among `pressed` stands for pad key `key`.
pub open spec fn named_by(pressed: Seq<char>, key: int) -> bool {
    exists|j: int| 0 <= j < pressed.len() && pad_code(#[trigger] pressed[j]) == Some(key as u8)
}

/// Looks up the pad key of a physical key label.
pub fn key_for_label(label: char) -> (r: Option<u8>)
    ensures
        r == pad_code(label),
        r matches Some(k) ==> k < 16,
{
    match label {
        '1' => Some(0x1),
        '2' => Some(0x2),
        '3' => Some(0x3),
        '4' => Some(0xC),
        'Q' => Some(0x4),
        'W' => Some(0x5),
        'E' => Some(0x6),
        'R' => Some(0xD),
        'A' => Some(0x7),
        'S' => Some(0x8),
        'D' => Some(0x9),
        'F' => Some(0xE),
        'Z' => Some(0xA),
        'X' => Some(0x0),
        'C' => Some(0xB),
        'V' => Some(0xF),
        _ => None,
    }
}

/// The state of the 16 pad keys, one flag per key.
pub struct Keyboard {
    keys: [bool; 16],
}

impl View for Keyboard {
    type V = Seq<bool>;

    /// Entry `k` tells whether pad key `k` is down.
    closed spec fn view(&self) -> Seq<bool> {
        self.keys@
    }
}

impl Keyboard {
    /// The view always has one entry per key.
    pub broadcast proof fn lemma_view_len(kb: &Keyboard)
        ensures
            (#[trigger] kb@).len() == 16,
    {
    }

    /// A pad with every key up.
    pub fn new() -> (kb: Keyboard)
        ensures
            kb@ == Seq::new(16, |k: int| false),
    {
        let kb = Keyboard { keys: [false; 16] };
        assert(kb@ =~= Seq::new(16, |k: int| false));
        kb
    }

    /// Marks pad key `key` as down.
    pub fn key_down(&mut self, key: u8)
        requires
            key < 16,
        ensures
            final(self)@ == old(self)@.update(key as int, true),
    {
        self.keys[key as usize] = true;
    }

    /// Marks pad key `key` as up.
    pub fn key_up(&mut self, key: u8)
        requires
            key < 16,
        ensures
            final(self)@ == old(self)@.update(key as int, false),
    {
        self.keys[key as usize] = false;
    }

    /// Whether pad key `key` is down; a value past the last key names no key
    /// and is never down.
    pub fn is_key_pressed(&self, key: u8) -> (r: bool)
        ensures
            r == (key < 16 && self@[key as int]),
    {
        if key < 16 {
            self.keys[key as usize]
        } else {
            false
        }
    }

    /// Marks every key as up.
    pub fn reset_keys(&mut self)
        ensures
            final(self)@ == Seq::new(16, |k: int| false),
    {
        self.keys = [false; 16];
        assert(self@ =~= Seq::new(16, |k: int| false));
    }

    /// Replaces the pad state by the keys that the physical labels in
    /// `pressed` stand for; labels outside the layout are ignored.
    pub fn get_input(&mut self, pressed: &Vec<char>)
        ensures
            final(self)@ == Seq::new(16, |k: int| named_by(pressed@, k)),
    {
        self.reset_keys();
        let mut j: usize = 0;
        while j < pressed.len()
            invariant
                j <= pressed@.len(),
                self@.len() == 16,
                forall|k: int|
                    0 <= k < 16 ==> #[trigger] self@[k] == exists|i: int|
                        0 <= i < j && pad_code(#[trigger] pressed@[i]) == Some(k as u8),
            decreases pressed@.len() - j,
        {
            match key_for_label(pressed[j]) {
                Some(key) => {
                    self.key_down(key);
                },
                None => {},
            }
            assert forall|k: int| 0 <= k < 16 implies #[trigger] self@[k] == exists|i: int|
                0 <= i < j + 1 && pad_code(#[trigger] pressed@[i]) == Some(k as u8) by {
                if pad_code(pressed@[j as int]) == Some(k as u8) {
                    assert(0 <= j < j + 1);
                }
            }
            j += 1;
        }
        assert(self@ =~= Seq::new(16, |k: int| named_by(pressed@, k)));
    }
}

} // verus!
