//! How long a message takes on the line, from which the deadline of a read is
//! made.

use vstd::arithmetic::div_mod::{lemma_fundamental_div_mod, lemma_hoist_over_denominator};
use vstd::prelude::*;

verus! {

/// The bits that one byte takes on the line: a start bit, eight data bits and
/// a stop bit.
pub const BITS_PER_BYTE: u64 = 10;

/// The number of nanoseconds in a second.
pub const NANOS_PER_SEC: u64 = 1_000_000_000;

/// The margin that is added to the transfer time of a response: one
/// millisecond.
pub const GUARD_NANOS: u64 = 1_000_000;

/// A span of time in whole seconds and nanoseconds, the latter below one
/// second.
#[derive(Debug, Clone, Copy, PartialEq, Eq)]
pub struct TransferTime {
    /// The whole seconds.
    pub secs: u64,
    /// The nanoseconds beyond the whole seconds.
    pub nanos: u32,
}

impl View for TransferTime {
    type V = nat;

    /// The span in nanoseconds.
    open spec fn view(&self) -> nat {
        self.secs as nat * NANOS_PER_SEC as nat + self.nanos as nat
    }
}

/// The nanoseconds that `message_size` bytes take at `baud_rate` bits per
/// second, rounded up to a whole nanosecond.
pub open spec fn transfer_nanos(message_size: nat, baud_rate: nat) -> nat
    recommends
        baud_rate > 0,
{
    ((message_size * BITS_PER_BYTE as nat * NANOS_PER_SEC as nat + baud_rate - 1) / (
    baud_rate as int)) as nat
}

/// Splitting the bits into whole seconds and a rest, and rounding up only the
/// rest, rounds up the whole.
proof fn lemma_transfer_nanos_split(bits: nat, baud_rate: nat)
    requires
        baud_rate > 0,
    ensures
        (bits * NANOS_PER_SEC as nat + baud_rate - 1) / (baud_rate as int) == (bits / baud_rate)
            * NANOS_PER_SEC as nat + ((bits % baud_rate) * NANOS_PER_SEC as nat + baud_rate - 1) / (
        baud_rate as int),
{
    let d = baud_rate as int;
    let q = bits as int / d;
    let r = bits as int % d;
    let n = NANOS_PER_SEC as int;
    lemma_fundamental_div_mod(bits as int, d);
    assert(bits * n == (q * n) * d + r * n) by (nonlinear_arith)
        requires
            bits == d * q + r,
    ;
    lemma_hoist_over_denominator(r * n + d - 1, q * n, baud_rate);
}

/// Computes the time that a message of `message_size` bytes takes on a line
/// of `baud_rate` bits per second. The size counts every byte of the message,
/// headers and checksum too.
pub fn message_transfer_time(message_size: u32, baud_rate: u32) -> (time: TransferTime)
    requires
        baud_rate > 0,
    ensures
        time@ == transfer_nanos(message_size as nat, baud_rate as nat),
        time.nanos < NANOS_PER_SEC,
{
    let baud_rate_wide = baud_rate as u64;
    let bits = message_size as u64 * BITS_PER_BYTE;
    let secs = bits / baud_rate_wide;
    let subsec_bits = bits % baud_rate_wide;
    assert(subsec_bits * NANOS_PER_SEC + baud_rate_wide - 1 <= 0xFFFF_FFFF * 1_000_000_001)
        by (nonlinear_arith)
        requires
            subsec_bits < baud_rate_wide <= 0xFFFF_FFFF,
            NANOS_PER_SEC == 1_000_000_000,
    ;
    let nanos = (subsec_bits * NANOS_PER_SEC + baud_rate_wide - 1) / baud_rate_wide;
    proof {
        lemma_transfer_nanos_split(bits as nat, baud_rate as nat);
        assert(nanos <= NANOS_PER_SEC) by (nonlinear_arith)
            requires
                nanos == (subsec_bits * NANOS_PER_SEC + baud_rate_wide - 1) / (
                baud_rate_wide as int),
                subsec_bits < baud_rate_wide,
                baud_rate_wide > 0,
                NANOS_PER_SEC == 1_000_000_000,
        ;
        assert(secs <= bits);
    }
    if nanos == NANOS_PER_SEC {
        TransferTime { secs: secs + 1, nanos: 0 }
    } else {
        TransferTime { secs, nanos: nanos as u32 }
    }
}

} // verus!
