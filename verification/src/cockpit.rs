//! The operator console's capture pipeline: turning raw gamepad input
//! into wire events.
//!
//! The input library reports button values in fractions of one and axis
//! values in fractions of one around zero, both here in ten-thousandths;
//! the wire carries every control value as one unsigned byte.  Button
//! values clamp to their range and scale to 0..255; axis values clamp,
//! shift to positive and scale likewise.  The library's opaque gamepad
//! identifiers are turned into wire bytes by an explicit injective
//! assignment table: each identifier keeps the small number it was given
//! when first seen.

use vstd::prelude::*;
use crate::protocol::CockpitToLinkage;

verus! {

/// A clamped button value of `tt` ten-thousandths of one, scaled to its
/// wire byte (truncating toward zero).
pub open spec fn spec_button_wire(tt: int) -> int {
    let clamped: int = if tt < 0 {
        0
    } else if tt > 10000 {
        10000
    } else {
        tt
    };
    clamped * 255 / 10000
}

/// A clamped axis value of `tt` ten-thousandths around zero, shifted to
/// positive and scaled to its wire byte (truncating toward zero).
pub open spec fn spec_axis_wire(tt: int) -> int {
    let clamped: int = if tt < -10000 {
        -10000
    } else if tt > 10000 {
        10000
    } else {
        tt
    };
    (clamped + 10000) * 255 / 20000
}

/// Scales a captured button value, in ten-thousandths of one, to its
/// wire byte.
pub fn button_wire_value(tt: i32) -> (r: u8)
    ensures
        r == spec_button_wire(tt as int),
{
    let clamped: u32 = if tt < 0 {
        0
    } else if tt > 10000 {
        10000
    } else {
        tt as u32
    };
    proof {
        vstd::arithmetic::div_mod::lemma_div_is_ordered(
            (clamped as int) * 255,
            (10000 * 255) as int,
            10000,
        );
        vstd::arithmetic::div_mod::lemma_div_by_multiple(255, 10000);
    }
    (clamped * 255 / 10000) as u8
}

/// Scales a captured axis value, in ten-thousandths around zero, to its
/// wire byte.
pub fn axis_wire_value(tt: i32) -> (r: u8)
    ensures
        r == spec_axis_wire(tt as int),
{
    let clamped: i32 = if tt < -10000 {
        -10000
    } else if tt > 10000 {
        10000
    } else {
        tt
    };
    let shifted: u32 = (clamped + 10000) as u32;
    proof {
        vstd::arithmetic::div_mod::lemma_div_is_ordered(
            (shifted as int) * 255,
            (20000 * 255) as int,
            20000,
        );
        vstd::arithmetic::div_mod::lemma_div_by_multiple(255, 20000);
    }
    (shifted * 255 / 20000) as u8
}

/// Builds the wire event for one captured gamepad event, ready to be
/// encoded onto the robot connection.
pub fn gamepad_event(gamepad_id: u8, event_type: u8, control: u8, value: u8) -> (r:
    CockpitToLinkage)
    ensures
        r == (CockpitToLinkage::GamepadInputEvent { gamepad_id, event_type, control, value }),
{
    CockpitToLinkage::GamepadInputEvent { gamepad_id, event_type, control, value }
}

/// An explicit injective assignment of wire bytes to the input
/// library's opaque gamepad identifiers: each identifier is given the
/// next free byte when first seen and keeps it afterwards.
#[derive(Debug)]
pub struct GamepadIdMap {
    raw_ids: Vec<u64>,
}

impl GamepadIdMap {
    /// The identifiers seen so far, in order of first sight; the wire
    /// byte of each is its position.
    pub closed spec fn view(&self) -> Seq<u64> {
        self.raw_ids@
    }

    /// An empty assignment table.
    pub fn new() -> (r: GamepadIdMap)
        ensures
            r@ == Seq::<u64>::empty(),
    {
        GamepadIdMap { raw_ids: Vec::new() }
    }

    /// The wire byte of the given identifier: its position among the
    /// identifiers seen so far, assigned on first sight.  Fails only
    /// once every byte is taken.
    pub fn wire_id(&mut self, raw: u64) -> (r: Option<u8>)
        ensures
            match r {
                Some(id) => {
                    &&& (id as int) < final(self)@.len()
                    &&& final(self)@[id as int] == raw
                    &&& (forall|j: int| 0 <= j < id ==> final(self)@[j] != raw)
                    &&& (old(self)@.contains(raw) ==> final(self)@ == old(self)@)
                    &&& (!old(self)@.contains(raw) ==> final(self)@ == old(self)@.push(raw))
                },
                None => old(self)@.len() >= 256 && final(self)@ == old(self)@,
            },
    {
        let mut i: usize = 0;
        while i < self.raw_ids.len()
            invariant
                i <= self.raw_ids.len(),
                forall|j: int| 0 <= j < i ==> self.raw_ids@[j] != raw,
            decreases self.raw_ids.len() - i,
        {
            if self.raw_ids[i] == raw {
                proof {
                    assert(self@[i as int] == raw);
                    assert(self@.contains(raw));
                }
                if i < 256 {
                    return Some(i as u8);
                } else {
                    return None;
                }
            }
            i = i + 1;
        }
        proof {
            if self@.contains(raw) {
                let w = choose|j: int| 0 <= j < self@.len() && self@[j] == raw;
                assert(self.raw_ids@[w] != raw);
            }
        }
        if self.raw_ids.len() >= 256 {
            return None;
        }
        let id: u8 = self.raw_ids.len() as u8;
        self.raw_ids.push(raw);
        Some(id)
    }
}

} // verus!
