//! The state of the sixteen-key hexadecimal keypad.
use vstd::prelude::*;

verus! {

/// Whether key `k` is down in `mask`, where bit `k` stands for key `k`; keys
/// past 15 are never down.
pub open spec fn key_down(mask: u16, k: u8) -> bool {
    k < 16 && (mask >> k as u16) & 1 == 1
}

/// The lowest key that is down in `mask`, if any.
pub open spec fn lowest_key_down(mask: u16) -> Option<u8> {
    if exists|k: u8| #[trigger] key_down(mask, k) {
        Some(choose|k: u8| key_down(mask, k) && forall|j: u8| j < k ==> !#[trigger] key_down(mask, j))
    } else {
        None
    }
}

/// Which keys are down; the view is the mask with bit `k` set for key `k`.
pub struct Keypad {
    pressed: u16,
}

impl View for Keypad {
    type V = u16;

    closed spec fn view(&self) -> u16 {
        self.pressed
    }
}

impl Keypad {
    /// No key down.
    pub fn new() -> (k: Keypad)
        ensures
            k@ == 0,
    {
        Keypad { pressed: 0 }
    }

    /// The keys whose bits are set in `mask`.
    pub fn from_mask(mask: u16) -> (k: Keypad)
        ensures
            k@ == mask,
    {
        Keypad { pressed: mask }
    }

    /// Marks `key` (below 16) as down or up.
    pub fn set_key(&mut self, key: u8, down: bool)
        requires
            key < 16,
        ensures
            key_down(final(self)@, key) == down,
            forall|j: u8| j != key ==> key_down(final(self)@, j) == key_down(old(self)@, j),
    {
        let bit: u16 = 1u16 << key as u16;
        let old_mask = self.pressed;
        let new_mask = if down {
            old_mask | bit
        } else {
            old_mask & !bit
        };
        assert(((new_mask >> key as u16) & 1 == 1) == down) by (bit_vector)
            requires
                key < 16,
                bit == 1u16 << key as u16,
                new_mask == if down {
                    old_mask | bit
                } else {
                    old_mask & !bit
                },
        ;
        assert forall|j: u8| j != key implies key_down(new_mask, j) == key_down(old_mask, j) by {
            if j < 16 {
                assert(((new_mask >> j as u16) & 1) == ((old_mask >> j as u16) & 1)) by (bit_vector)
                    requires
                        key < 16,
                        j < 16,
                        j != key,
                        bit == 1u16 << key as u16,
                        new_mask == if down {
                            old_mask | bit
                        } else {
                            old_mask & !bit
                        },
                ;
            }
        }
        self.pressed = new_mask;
    }

    /// Whether `key` is down; keys past 15 never are.
    pub fn is_pressed(&self, key: u8) -> (r: bool)
        ensures
            r == key_down(self@, key),
    {
        key < 16 && (self.pressed >> key as u16) & 1 == 1
    }

    /// The lowest key that is down, if any.
    pub fn poll_pressed(&self) -> (r: Option<u8>)
        ensures
            r == lowest_key_down(self@),
    {
        let mut k: u8 = 0;
        while k < 16
            invariant
                k <= 16,
                forall|j: u8| j < k ==> !#[trigger] key_down(self@, j),
            decreases 16 - k,
        {
            if self.is_pressed(k) {
                proof {
                    lemma_lowest_key_down_is(self@, k);
                }
                return Some(k);
            }
            k += 1;
        }
        assert(!exists|j: u8| #[trigger] key_down(self@, j));
        None
    }
}

/// A key that is down, with none below it down, is the lowest one.
proof fn lemma_lowest_key_down_is(mask: u16, k: u8)
    requires
        key_down(mask, k),
        forall|j: u8| j < k ==> !#[trigger] key_down(mask, j),
    ensures
        lowest_key_down(mask) == Some(k),
{
    let c = choose|c: u8| key_down(mask, c) && forall|j: u8| j < c ==> !#[trigger] key_down(mask, j);
    assert(key_down(mask, c));
    if c < k {
        assert(!key_down(mask, c));
    }
    if k < c {
        assert(!key_down(mask, k));
    }
}

} // verus!
