//! The status byte that a motor sends with every response.

use vstd::prelude::*;

verus! {

/// A corrupted data packet was received. Resets by itself.
pub const COMMUNICATION: u8 = 0b0000_0001;

/// A component is hotter than the lower temperature limit. Resets by itself.
pub const OVERHEAT: u8 = 0b0000_0010;

/// The absolute position could not be read.
pub const ABSOLUTE_POSITION: u8 = 0b0000_0100;

/// The watchdog timed out, or an emergency stop was signalled.
pub const WATCHDOG_ESTOP: u8 = 0b0000_1000;

/// A joint limit was exceeded.
pub const JOINT_LIMIT: u8 = 0b0001_0000;

/// The input voltage is out of range, or the MOSFET driver reports a fault.
pub const HARDWARE: u8 = 0b0010_0000;

/// The configuration saved in flash is corrupted.
pub const INITIALIZATION: u8 = 0b0100_0000;

/// Every bit that names a flag. Bit 7 names none.
pub const KNOWN_FLAGS: u8 = 0b0111_1111;

/// The bits that report a warning: the instruction was still carried out.
pub const WARNING_FLAGS: u8 = 0b0000_0011;

/// The bits that report an error: every known bit that is no warning.
pub const ERROR_FLAGS: u8 = 0b0111_1100;

/// A set of status flags, held as the bits of one byte.
#[derive(Debug, Clone, Copy, PartialEq, Eq, Structural)]
pub struct ErrorFlags {
    /// One bit for each flag in the set.
    pub bits: u8,
}

impl ErrorFlags {
    /// Whether `self` and `other` share a bit.
    pub open spec fn spec_intersects(&self, other: ErrorFlags) -> bool {
        self.bits & other.bits != 0
    }

    /// Whether every bit of `other` is in `self`.
    pub open spec fn spec_contains(&self, other: ErrorFlags) -> bool {
        self.bits & other.bits == other.bits
    }

    /// The set without any flag.
    pub fn empty() -> (flags: ErrorFlags)
        ensures
            flags.bits == 0,
    {
        ErrorFlags { bits: 0 }
    }

    /// The set of every known flag.
    pub fn all() -> (flags: ErrorFlags)
        ensures
            flags.bits == KNOWN_FLAGS,
    {
        ErrorFlags { bits: KNOWN_FLAGS }
    }

    /// The set that holds only the communication warning.
    pub fn communication() -> (flags: ErrorFlags)
        ensures
            flags.bits == COMMUNICATION,
    {
        ErrorFlags { bits: COMMUNICATION }
    }

    /// The set that holds only the overheat warning.
    pub fn overheat() -> (flags: ErrorFlags)
        ensures
            flags.bits == OVERHEAT,
    {
        ErrorFlags { bits: OVERHEAT }
    }

    /// The set that holds only the absolute-position error.
    pub fn absolute_position() -> (flags: ErrorFlags)
        ensures
            flags.bits == ABSOLUTE_POSITION,
    {
        ErrorFlags { bits: ABSOLUTE_POSITION }
    }

    /// The set that holds only the watchdog / emergency-stop error.
    pub fn watchdog_estop() -> (flags: ErrorFlags)
        ensures
            flags.bits == WATCHDOG_ESTOP,
    {
        ErrorFlags { bits: WATCHDOG_ESTOP }
    }

    /// The set that holds only the joint-limit error.
    pub fn joint_limit() -> (flags: ErrorFlags)
        ensures
            flags.bits == JOINT_LIMIT,
    {
        ErrorFlags { bits: JOINT_LIMIT }
    }

    /// The set that holds only the hardware error.
    pub fn hardware() -> (flags: ErrorFlags)
        ensures
            flags.bits == HARDWARE,
    {
        ErrorFlags { bits: HARDWARE }
    }

    /// The set that holds only the initialization error.
    pub fn initialization() -> (flags: ErrorFlags)
        ensures
            flags.bits == INITIALIZATION,
    {
        ErrorFlags { bits: INITIALIZATION }
    }

    /// The set of the two warnings.
    pub fn warnings() -> (flags: ErrorFlags)
        ensures
            flags.bits == WARNING_FLAGS,
    {
        ErrorFlags { bits: WARNING_FLAGS }
    }

    /// The set of the five errors.
    pub fn errors() -> (flags: ErrorFlags)
        ensures
            flags.bits == ERROR_FLAGS,
    {
        ErrorFlags { bits: ERROR_FLAGS }
    }

    /// Reads a set from a raw byte. A byte with a bit that names no flag gives
    /// `None`.
    pub fn from_bits(bits: u8) -> (flags: Option<ErrorFlags>)
        ensures
            flags == if bits <= KNOWN_FLAGS {
                Some(ErrorFlags { bits })
            } else {
                None
            },
    {
        assert((bits & 0b0111_1111 == bits) <==> bits <= 0b0111_1111) by (bit_vector);
        if bits & KNOWN_FLAGS == bits {
            Some(ErrorFlags { bits })
        } else {
            None
        }
    }

    /// Reads a set from a raw byte and drops every bit that names no flag.
    pub fn from_bits_truncate(bits: u8) -> (flags: ErrorFlags)
        ensures
            flags.bits == bits & KNOWN_FLAGS,
    {
        ErrorFlags { bits: bits & KNOWN_FLAGS }
    }

    /// The raw byte of the set.
    pub fn bits(&self) -> (bits: u8)
        ensures
            bits == self.bits,
    {
        self.bits
    }

    /// Whether the set holds no flag.
    pub fn is_empty(&self) -> (empty: bool)
        ensures
            empty == (self.bits == 0),
    {
        self.bits == 0
    }

    /// Whether `self` and `other` share a flag.
    #[verifier::when_used_as_spec(spec_intersects)]
    pub fn intersects(&self, other: ErrorFlags) -> (shared: bool)
        ensures
            shared == self.spec_intersects(other),
    {
        self.bits & other.bits != 0
    }

    /// Whether every flag of `other` is in `self`.
    #[verifier::when_used_as_spec(spec_contains)]
    pub fn contains(&self, other: ErrorFlags) -> (held: bool)
        ensures
            held == self.spec_contains(other),
    {
        self.bits & other.bits == other.bits
    }

    /// The flags that are in `self`, in `other`, or in both.
    pub fn union(self, other: ErrorFlags) -> (flags: ErrorFlags)
        ensures
            flags.bits == self.bits | other.bits,
    {
        ErrorFlags { bits: self.bits | other.bits }
    }

    /// The known flags that are not in `self`.
    pub fn complement(self) -> (flags: ErrorFlags)
        ensures
            flags.bits == !self.bits & KNOWN_FLAGS,
    {
        ErrorFlags { bits: !self.bits & KNOWN_FLAGS }
    }
}

/// The errors are the complement of the warnings, and the two sets are made of
/// the seven named flags.
pub proof fn lemma_flag_sets()
    ensures
        WARNING_FLAGS == COMMUNICATION | OVERHEAT,
        ERROR_FLAGS == !WARNING_FLAGS & KNOWN_FLAGS,
        ERROR_FLAGS == ABSOLUTE_POSITION | WATCHDOG_ESTOP | JOINT_LIMIT | HARDWARE | INITIALIZATION,
        WARNING_FLAGS & ERROR_FLAGS == 0,
        WARNING_FLAGS | ERROR_FLAGS == KNOWN_FLAGS,
{
    assert(0b0000_0011u8 == 0b0000_0001u8 | 0b0000_0010u8) by (bit_vector);
    assert(0b0111_1100u8 == !0b0000_0011u8 & 0b0111_1111u8) by (bit_vector);
    assert(0b0111_1100u8 == 0b0000_0100u8 | 0b0000_1000u8 | 0b0001_0000u8 | 0b0010_0000u8
        | 0b0100_0000u8) by (bit_vector);
    assert(0b0000_0011u8 & 0b0111_1100u8 == 0) by (bit_vector);
    assert(0b0000_0011u8 | 0b0111_1100u8 == 0b0111_1111u8) by (bit_vector);
}

} // verus!
