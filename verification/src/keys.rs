//! The buttons and modifier keys that are held down during a mouse event.

use vstd::prelude::*;

verus! {

/// No button and no modifier key.
pub const NONE: i32 = 0;

/// The left mouse button.
pub const LEFT_BUTTON: i32 = 1;

/// The right mouse button.
pub const RIGHT_BUTTON: i32 = 2;

/// The shift key.
pub const SHIFT: i32 = 4;

/// The control key.
pub const CONTROL: i32 = 8;

/// The middle mouse button.
pub const MIDDLE_BUTTON: i32 = 16;

/// A set of held buttons and modifier keys, one bit each.
#[derive(Clone, Copy, Debug, PartialEq, Eq, Structural)]
pub struct VirtualKeys {
    pub bits: i32,
}

impl VirtualKeys {
    /// Whether every bit of `mask` is set.
    pub open spec fn holds(self, mask: i32) -> bool {
        self.bits & mask == mask
    }

    /// Tells whether every key of `other` is held.
    pub fn contains(&self, other: VirtualKeys) -> (r: bool)
        ensures
            r == self.holds(other.bits),
            r <==> self.bits & other.bits == other.bits,
    {
        self.bits & other.bits == other.bits
    }

    /// The keys that are in either set.
    pub fn union(self, other: VirtualKeys) -> (r: VirtualKeys)
        ensures
            r.bits == self.bits | other.bits,
    {
        VirtualKeys { bits: self.bits | other.bits }
    }
}

/// The keys that the low bits of a mouse message's flags name: 1 and 2 are the
/// left and right buttons, 4 is shift, 8 is control, 16 is the middle button.
pub open spec fn keys_of(flags: u32) -> VirtualKeys {
    VirtualKeys { bits: (flags & 0x1f) as i32 }
}

/// Translates the flags of a mouse message into the set of held keys. Flags that
/// name none of the five keys are ignored.
pub fn virtual_keys(flags: u32) -> (keys: VirtualKeys)
    ensures
        keys == keys_of(flags),
        keys.holds(LEFT_BUTTON) <==> flags & 1 != 0,
        keys.holds(RIGHT_BUTTON) <==> flags & 2 != 0,
        keys.holds(MIDDLE_BUTTON) <==> flags & 16 != 0,
        keys.holds(SHIFT) <==> flags & 4 != 0,
        keys.holds(CONTROL) <==> flags & 8 != 0,
        keys.bits & 1 == 1 <==> flags & 1 != 0,
        keys.bits & 2 == 2 <==> flags & 2 != 0,
        keys.bits & 4 == 4 <==> flags & 4 != 0,
        keys.bits & 8 == 8 <==> flags & 8 != 0,
        keys.bits & 16 == 16 <==> flags & 16 != 0,
        keys.bits as int == flags as int % 32,
{
    let mut keys = VirtualKeys { bits: NONE };
    if flags & 1 != 0 {
        keys = keys.union(VirtualKeys { bits: LEFT_BUTTON });
    }
    if flags & 2 != 0 {
        keys = keys.union(VirtualKeys { bits: RIGHT_BUTTON });
    }
    if flags & 16 != 0 {
        keys = keys.union(VirtualKeys { bits: MIDDLE_BUTTON });
    }
    if flags & 4 != 0 {
        keys = keys.union(VirtualKeys { bits: SHIFT });
    }
    if flags & 8 != 0 {
        keys = keys.union(VirtualKeys { bits: CONTROL });
    }
    proof {
        lemma_collected_bits(flags, keys.bits);
        law_keys_mirror_flags(flags);
    }
    keys
}

/// Collecting the five keys one by one gives the low five bits of the flags.
proof fn lemma_collected_bits(flags: u32, bits: i32)
    by (bit_vector)
    requires
        bits == ({
            let a: i32 = if flags & 1 != 0 { 0i32 | 1i32 } else { 0i32 };
            let b: i32 = if flags & 2 != 0 { a | 2i32 } else { a };
            let c: i32 = if flags & 16 != 0 { b | 16i32 } else { b };
            let d: i32 = if flags & 4 != 0 { c | 4i32 } else { c };
            let e: i32 = if flags & 8 != 0 { d | 8i32 } else { d };
            e
        }),
    ensures
        bits == (flags & 0x1f) as i32,
        bits & 1i32 == 1i32 <==> flags & 1 != 0,
        bits & 2i32 == 2i32 <==> flags & 2 != 0,
        bits & 16i32 == 16i32 <==> flags & 16 != 0,
        bits & 4i32 == 4i32 <==> flags & 4 != 0,
        bits & 8i32 == 8i32 <==> flags & 8 != 0,
{
}

/// Flags given together name the keys that they name one by one.
pub proof fn law_flags_combine(a: u32, b: u32)
    ensures
        keys_of(a | b).bits == keys_of(a).bits | keys_of(b).bits,
{
    assert(((a | b) & 0x1f) as i32 == (a & 0x1f) as i32 | (b & 0x1f) as i32) by (bit_vector);
}

/// A key that is held stays held when more flags are set.
pub proof fn law_more_flags_hold_more_keys(a: u32, b: u32, mask: i32)
    requires
        keys_of(a).holds(mask),
    ensures
        keys_of(a | b).holds(mask),
{
    assert(((a | b) & 0x1f) as i32 & mask == mask) by (bit_vector)
        requires
            (a & 0x1f) as i32 & mask == mask,
    ;
}

/// Only the five known keys are ever held.
pub proof fn law_only_known_keys(flags: u32)
    ensures
        0 <= keys_of(flags).bits < 32,
{
    assert(0 <= (flags & 0x1f) as i32 && ((flags & 0x1f) as i32) < 32) by (bit_vector);
}

/// The held keys are the flags modulo 32: each key is held exactly when its own
/// flag is set, and no other flag matters.
pub proof fn law_keys_mirror_flags(flags: u32)
    ensures
        keys_of(flags).bits as int == flags as int % 32,
        keys_of(flags).bits & 1 == 1 <==> flags & 1 != 0,
        keys_of(flags).bits & 2 == 2 <==> flags & 2 != 0,
        keys_of(flags).bits & 4 == 4 <==> flags & 4 != 0,
        keys_of(flags).bits & 8 == 8 <==> flags & 8 != 0,
        keys_of(flags).bits & 16 == 16 <==> flags & 16 != 0,
{
    let bits: i32 = (flags & 0x1f) as i32;
    lemma_masked_flags(flags, bits);
}

/// What masking out the low five bits leaves.
proof fn lemma_masked_flags(flags: u32, bits: i32)
    by (bit_vector)
    requires
        bits == (flags & 0x1f) as i32,
    ensures
        bits as int == flags as int % 32,
        bits & 1i32 == 1i32 <==> flags & 1 != 0,
        bits & 2i32 == 2i32 <==> flags & 2 != 0,
        bits & 4i32 == 4i32 <==> flags & 4 != 0,
        bits & 8i32 == 8i32 <==> flags & 8 != 0,
        bits & 16i32 == 16i32 <==> flags & 16 != 0,
{
}

} // verus!
