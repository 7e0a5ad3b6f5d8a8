//! In-memory mirror of a write-only shift register's latched output bits.
//!
//! Bit positions at the public interface are 1-based; position `0` and
//! positions above the register width are rejected with
//! [`ErrorKind::OutOfRange`] rather than silently wrapped or clamped.

use vstd::prelude::*;

verus! {

/// Number of latched output bits mirrored by the `data` buffer.
///
/// LED boards are three daisy-chained 8-bit registers with the first 24
/// outputs connected; relay boards are two with the first 9 connected.
/// The buffer itself latches the full 64-bit word.
pub const REGISTER_WIDTH: u64 = 64;

/// The kinds of shift register hardware driven by the node.
#[derive(Debug, Clone, Copy, PartialEq, Eq, Structural)]
pub enum ShiftRegisterType {
    /// Three daisy-chained 8-bit registers driving indicator LEDs.
    LED,
    /// Two daisy-chained 8-bit registers driving relays.
    RELAIS,
}

/// Errors surfaced by the register operations.
#[derive(Debug, Clone, Copy, PartialEq, Eq, Structural)]
pub enum ErrorKind {
    /// A 1-based bit position outside `[1, REGISTER_WIDTH]`.
    OutOfRange,
}

/// Buffer mirroring the latched output state of one shift register chain.
///
/// Shift registers are write-only hardware, so the current state of single
/// bits can only be answered from this mirror.
pub struct ShiftRegister {
    pub register_type: ShiftRegisterType,
    pub data: u64,
}

/// Whether the 1-based `pos` names a bit the register holds.
pub open spec fn pos_in_range(pos: u64) -> bool {
    1 <= pos <= REGISTER_WIDTH
}

/// The single-bit mask for the 1-based position `pos`.
pub open spec fn mask(pos: u64) -> u64 {
    1u64 << ((pos - 1) as u64)
}

/// The value of the bit at the 1-based position `pos` of `data`.
pub open spec fn bit_of(data: u64, pos: u64) -> bool {
    data & mask(pos) != 0
}

impl ShiftRegister {
    /// Creates a register mirror with all bits cleared.
    pub fn new(register_type: ShiftRegisterType) -> (r: Self)
        ensures
            r.register_type == register_type,
            r.data == 0,
            forall|p: u64| pos_in_range(p) ==> !bit_of(r.data, p),
    {
        proof {
            assert(forall|p: u64| pos_in_range(p) ==> (0u64 & mask(p)) == 0) by (bit_vector);
        }
        ShiftRegister { register_type, data: 0 }
    }

    /// Sets the bit at the 1-based position `num`; all other bits keep
    /// their value.
    pub fn set(&mut self, num: u64) -> (r: Result<(), ErrorKind>)
        ensures
            r is Ok <==> pos_in_range(num),
            pos_in_range(num) ==> final(self).data == old(self).data | mask(num),
            !pos_in_range(num) ==> r == Err::<(), ErrorKind>(ErrorKind::OutOfRange)
                && *final(self) == *old(self),
            final(self).register_type == old(self).register_type,
    {
        if 1 <= num && num <= REGISTER_WIDTH {
            self.data = self.data | (1u64 << (num - 1));
            Ok(())
        } else {
            Err(ErrorKind::OutOfRange)
        }
    }

    /// Reads the bit at the 1-based position `num`.
    pub fn get(&self, num: u64) -> (r: Result<bool, ErrorKind>)
        ensures
            pos_in_range(num) ==> r == Ok::<bool, ErrorKind>(bit_of(self.data, num)),
            !pos_in_range(num) ==> r == Err::<bool, ErrorKind>(ErrorKind::OutOfRange),
    {
        if 1 <= num && num <= REGISTER_WIDTH {
            Ok(self.data & (1u64 << (num - 1)) != 0)
        } else {
            Err(ErrorKind::OutOfRange)
        }
    }

    /// Clears the bit at the 1-based position `num`; all other bits keep
    /// their value.
    pub fn clear(&mut self, num: u64) -> (r: Result<(), ErrorKind>)
        ensures
            r is Ok <==> pos_in_range(num),
            pos_in_range(num) ==> final(self).data == old(self).data & !mask(num),
            !pos_in_range(num) ==> r == Err::<(), ErrorKind>(ErrorKind::OutOfRange)
                && *final(self) == *old(self),
            final(self).register_type == old(self).register_type,
    {
        if 1 <= num && num <= REGISTER_WIDTH {
            self.data = self.data & !(1u64 << (num - 1));
            Ok(())
        } else {
            Err(ErrorKind::OutOfRange)
        }
    }

    /// Flips the bit at the 1-based position `num`; all other bits keep
    /// their value.
    pub fn toggle(&mut self, num: u64) -> (r: Result<(), ErrorKind>)
        ensures
            r is Ok <==> pos_in_range(num),
            pos_in_range(num) ==> final(self).data == old(self).data ^ mask(num),
            !pos_in_range(num) ==> r == Err::<(), ErrorKind>(ErrorKind::OutOfRange)
                && *final(self) == *old(self),
            final(self).register_type == old(self).register_type,
    {
        if 1 <= num && num <= REGISTER_WIDTH {
            self.data = self.data ^ (1u64 << (num - 1));
            Ok(())
        } else {
            Err(ErrorKind::OutOfRange)
        }
    }
}

/// Setting a bit makes it read back as set, and touches no other bit.
pub proof fn lemma_set_then_get(data: u64, p: u64)
    requires
        pos_in_range(p),
    ensures
        bit_of(data | mask(p), p),
        forall|q: u64| pos_in_range(q) && q != p ==> bit_of(data | mask(p), q) == bit_of(data, q),
{
    assert((data | (1u64 << ((p - 1) as u64))) & (1u64 << ((p - 1) as u64)) != 0) by (bit_vector)
        requires 1 <= p <= 64;
    assert(forall|q: u64| 1 <= q <= 64 && q != p ==> ((data | (1u64 << ((p - 1) as u64))) & (
    #[trigger] (1u64 << ((q - 1) as u64))) != 0) == (data & (1u64 << ((q - 1) as u64)) != 0)) by (bit_vector)
        requires 1 <= p <= 64;
}

/// Clearing a bit makes it read back as cleared, and touches no other bit.
pub proof fn lemma_clear_then_get(data: u64, p: u64)
    requires
        pos_in_range(p),
    ensures
        !bit_of(data & !mask(p), p),
        forall|q: u64| pos_in_range(q) && q != p ==> bit_of(data & !mask(p), q) == bit_of(data, q),
{
    assert((data & !(1u64 << ((p - 1) as u64))) & (1u64 << ((p - 1) as u64)) == 0) by (bit_vector)
        requires 1 <= p <= 64;
    assert(forall|q: u64| 1 <= q <= 64 && q != p ==> ((data & !(1u64 << ((p - 1) as u64))) & (
    #[trigger] (1u64 << ((q - 1) as u64))) != 0) == (data & (1u64 << ((q - 1) as u64)) != 0)) by (bit_vector)
        requires 1 <= p <= 64;
}

/// Toggling a bit flips it, touches no other bit, and toggling it twice
/// restores the whole register word.
pub proof fn lemma_toggle_twice_restores(data: u64, p: u64)
    requires
        pos_in_range(p),
    ensures
        bit_of(data ^ mask(p), p) == !bit_of(data, p),
        forall|q: u64| pos_in_range(q) && q != p ==> bit_of(data ^ mask(p), q) == bit_of(data, q),
        (data ^ mask(p)) ^ mask(p) == data,
{
    assert(((data ^ (1u64 << ((p - 1) as u64))) & (1u64 << ((p - 1) as u64)) != 0) == !(data & (
    1u64 << ((p - 1) as u64)) != 0)) by (bit_vector)
        requires 1 <= p <= 64;
    assert(forall|q: u64| 1 <= q <= 64 && q != p ==> ((data ^ (1u64 << ((p - 1) as u64))) & (
    #[trigger] (1u64 << ((q - 1) as u64))) != 0) == (data & (1u64 << ((q - 1) as u64)) != 0)) by (bit_vector)
        requires 1 <= p <= 64;
    assert((data ^ (1u64 << ((p - 1) as u64))) ^ (1u64 << ((p - 1) as u64)) == data) by (bit_vector);
}

} // verus!
