//! The bit layout of a stamp and the packing arithmetic that fills it.
//!
//! A stamp is a single `u64` holding three fields, most significant first:
//! generation (6 bits), time (42 bits), counter (16 bits). The time field
//! carries a sub-second tick count derived from a (seconds, nanoseconds)
//! reading; the counter field is reserved bit space and is always emitted
//! as zero.

use vstd::arithmetic::div_mod::lemma_mod_add_multiples_vanish;
use vstd::arithmetic::div_mod::lemma_mod_bound;
use vstd::arithmetic::div_mod::lemma_small_mod;
use vstd::prelude::*;

verus! {

/// Generation tag for every stamp this deployment issues.
pub const CURRENT_GENERATION: u64 = 0;

/// Width of the generation field, in bits.
pub const GENERATION_BITS: u64 = 6;

/// Width of the time field, in bits.
pub const TIME_BITS: u64 = 42;

/// Width of the reserved counter field, in bits.
pub const COUNTER_BITS: u64 = 16;

/// Seconds between the Unix epoch and 2020-01-01T00:00:00Z. Reserved for
/// extending the useful range of the time field; the packing below does
/// not subtract it from raw readings.
pub const SECOND_EPOCH: u64 = 1_577_836_800;

/// Sub-second resolution shift applied to both components of a reading.
pub const TIME_SHIFT_BITS: u64 = 10;

/// Nanoseconds in one second.
pub const SEC_IN_NANOS: u64 = 1_000_000_000;

/// Mask selecting the time field in its final position: the low `TIME_BITS`
/// bits, moved over the counter field. The constants lemma below proves the
/// literal equal to that shifted form.
pub const TIME_MASK: u64 = 0x3FF_FFFF_FFFF_0000;

/// The generation constant, pre-shifted into the most significant field.
pub const GENERATION_IN_POSITION: u64 = CURRENT_GENERATION << (TIME_BITS + COUNTER_BITS);

/// The sub-second tick count a reading contributes to the time field:
/// both components scaled up by the sub-second resolution, minus a fixed
/// adjustment of one full second's worth of scaled nanosecond units.
/// May be negative for readings close to zero; the time field wraps it.
pub open spec fn raw_ticks(secs: u64, nanos: u64) -> int {
    secs * (1u64 << TIME_SHIFT_BITS) + nanos * (1u64 << TIME_SHIFT_BITS) - SEC_IN_NANOS
}

/// The value of the 42-bit time field: `raw_ticks` reduced modulo the
/// field's width, so out-of-range tick counts wrap silently instead of
/// failing (fixed-width semantics).
pub open spec fn time_field_of(secs: u64, nanos: u64) -> int {
    raw_ticks(secs, nanos) % ((1u64 << TIME_BITS) as int)
}

/// The packed stamp for a reading: the generation in the top bits, the
/// time field shifted over the reserved counter bits, and the counter
/// bits themselves zero.
pub open spec fn stamp_of(secs: u64, nanos: u64) -> u64 {
    (GENERATION_IN_POSITION + time_field_of(secs, nanos) * (1u64 << COUNTER_BITS)) as u64
}

/// Whether a reading's tick count fits the 42-bit time field without
/// wrapping.
pub open spec fn in_time_range(secs: u64, nanos: u64) -> bool {
    0 <= raw_ticks(secs, nanos) < (1u64 << TIME_BITS)
}

/// The layout constants, folded to literal form: what each shift-derived
/// quantity in the spec model evaluates to. Callers reasoning about
/// concrete readings start here.
pub proof fn lemma_layout_constants()
    ensures
        (1u64 << TIME_SHIFT_BITS) == 0x400,
        (1u64 << TIME_BITS) == 0x400_0000_0000,
        (1u64 << COUNTER_BITS) == 0x1_0000,
        TIME_MASK == (((1u64 << TIME_BITS) - 1) as u64) << COUNTER_BITS,
        GENERATION_IN_POSITION == 0,
{
    assert((1u64 << 10u64) == 0x400) by (bit_vector);
    assert((1u64 << 42u64) == 0x400_0000_0000) by (bit_vector);
    assert((1u64 << 16u64) == 0x1_0000) by (bit_vector);
    assert((((1u64 << 42u64) - 1) as u64) << 16u64 == 0x3FF_FFFF_FFFF_0000) by (bit_vector);
    assert(0u64 << 58u64 == 0) by (bit_vector);
}

/// The wrapped packing arithmetic lands exactly on `stamp_of`.
proof fn lemma_pack(secs: u64, nanos: u64, combined: u64, stamped: u64)
    requires
        combined == (secs << TIME_SHIFT_BITS).wrapping_add(
            (nanos << TIME_SHIFT_BITS).wrapping_sub(SEC_IN_NANOS),
        ),
        stamped == GENERATION_IN_POSITION | ((combined << COUNTER_BITS) & TIME_MASK),
    ensures
        stamped == stamp_of(secs, nanos),
{
    lemma_layout_constants();
    // The shift and mask pick out `combined`'s low 42 bits, moved over the
    // counter field.
    assert(stamped == (combined % 0x400_0000_0000) * 0x1_0000) by (bit_vector)
        requires
            stamped == 0u64 | ((combined << 16u64) & 0x3FF_FFFF_FFFF_0000u64),
    ;
    // Modulo the time field's width, the wrapped sum equals the reading's
    // tick count, shifted into nonnegative form by one field width.
    assert(combined % 0x400_0000_0000 == (secs * 0x400 + nanos * 0x400 + 0x3FF_C465_3600)
        % 0x400_0000_0000) by (bit_vector)
        requires
            combined == (secs << 10u64).wrapping_add(
                (nanos << 10u64).wrapping_sub(1_000_000_000u64),
            ),
    ;
    // One added field width vanishes modulo the field width.
    lemma_mod_add_multiples_vanish(raw_ticks(secs, nanos), 0x400_0000_0000);
    assert(0x400_0000_0000 + raw_ticks(secs, nanos) == secs * 0x400 + nanos * 0x400
        + 0x3FF_C465_3600);
    lemma_mod_bound(raw_ticks(secs, nanos), 0x400_0000_0000);
}

/// Packs a raw (seconds, nanoseconds) reading into a stamp value.
///
/// Both components are shifted up by `TIME_SHIFT_BITS`, one second's worth
/// of shifted nanosecond units is subtracted as a fixed adjustment, and
/// the sum is placed in the 42-bit time field, wrapping silently if it
/// does not fit. The generation constant occupies the top bits and the
/// counter bits are left zero.
#[must_use]
pub fn stamp_time(secs: u64, nanos: u64) -> (r: u64)
    ensures
        r == stamp_of(secs, nanos),
{
    let shifted_secs: u64 = secs << TIME_SHIFT_BITS;
    let shifted_nanos: u64 = nanos << TIME_SHIFT_BITS;
    let combined: u64 = shifted_secs.wrapping_add(shifted_nanos.wrapping_sub(SEC_IN_NANOS));
    let stamped: u64 = GENERATION_IN_POSITION | ((combined << COUNTER_BITS) & TIME_MASK);
    proof {
        lemma_pack(secs, nanos, combined, stamped);
    }
    stamped
}

/// A packed 64-bit identifier with fields, MSB to LSB: generation (6 bits),
/// time (42 bits), counter (16 bits, always zero).
#[derive(Clone, Copy, PartialEq, Eq, Structural, Debug)]
pub struct Stamp(pub u64);

/// A point in monotonic time: whole seconds and nanoseconds since boot.
#[derive(Clone, Copy, PartialEq, Eq, Structural, Debug)]
pub struct Inst {
    /// Whole seconds of the reading.
    pub secs: u64,
    /// Nanoseconds of the reading.
    pub nanos: u64,
}

impl Inst {
    /// An instant with the given components.
    pub fn new(secs: u64, nanos: u64) -> (r: Self)
        ensures
            r.secs == secs,
            r.nanos == nanos,
    {
        Inst { secs, nanos }
    }

    /// The zero instant.
    pub fn zero() -> (r: Self)
        ensures
            r.secs == 0,
            r.nanos == 0,
    {
        Inst::new(0, 0)
    }

    /// Consumes the instant into its packed stamp.
    #[must_use]
    pub fn stamp(self) -> (r: Stamp)
        ensures
            r.0 == stamp_of(self.secs, self.nanos),
    {
        Stamp(stamp_time(self.secs, self.nanos))
    }
}

/// Determinism law: packing is a function of the reading alone, so equal
/// readings always yield equal stamps.
pub proof fn lemma_stamp_deterministic(s1: u64, n1: u64, s2: u64, n2: u64)
    requires
        s1 == s2,
        n1 == n2,
    ensures
        stamp_of(s1, n1) == stamp_of(s2, n2),
{
}

/// Layout law: the three field widths fill the 64-bit stamp exactly.
pub proof fn lemma_field_widths_fill_stamp()
    ensures
        GENERATION_BITS + TIME_BITS + COUNTER_BITS == 64,
{
}

/// Field isolation law: in every stamp the packer can produce, the
/// generation field holds exactly the fixed generation constant, and the
/// reserved counter bits are zero.
pub proof fn lemma_field_isolation(secs: u64, nanos: u64)
    ensures
        stamp_of(secs, nanos) >> ((TIME_BITS + COUNTER_BITS) as u64) == CURRENT_GENERATION,
        stamp_of(secs, nanos) & (((1u64 << COUNTER_BITS) - 1) as u64) == 0,
{
    lemma_layout_constants();
    let field: int = time_field_of(secs, nanos);
    let v: u64 = stamp_of(secs, nanos);
    lemma_mod_bound(raw_ticks(secs, nanos), 0x400_0000_0000);
    assert(0 <= field < 0x400_0000_0000);
    let fu: u64 = field as u64;
    assert(v >> 58u64 == 0 && v & (((1u64 << 16u64) - 1) as u64) == 0) by (bit_vector)
        requires
            v == fu * 0x1_0000,
            fu < 0x400_0000_0000,
    ;
}

/// Granularity law: tick counts move in whole sub-second tick units, so a
/// strictly greater tick count is greater by at least one full unit.
pub proof fn lemma_tick_granularity(sa: u64, na: u64, sb: u64, nb: u64)
    requires
        raw_ticks(sa, na) < raw_ticks(sb, nb),
    ensures
        raw_ticks(sa, na) + (1u64 << TIME_SHIFT_BITS) <= raw_ticks(sb, nb),
{
    lemma_layout_constants();
    let gap: int = (sb + nb) - (sa + na);
    assert(raw_ticks(sb, nb) - raw_ticks(sa, na) == gap * 0x400);
    assert(gap >= 1);
}

/// Monotonicity law: of two readings whose tick counts both fit the time
/// field, the one with the strictly greater tick count (greater by at
/// least one sub-second tick unit, the field's granularity) packs to a
/// strictly greater stamp.
///
/// Tick-count order is not wall-clock order: `raw_ticks` weighs seconds
/// and nanoseconds equally, so across a second boundary a wall-clock
/// later reading can carry a smaller tick count and pack to a smaller
/// stamp.
pub proof fn lemma_stamp_monotonic(sa: u64, na: u64, sb: u64, nb: u64)
    requires
        in_time_range(sa, na),
        in_time_range(sb, nb),
        raw_ticks(sa, na) < raw_ticks(sb, nb),
    ensures
        stamp_of(sa, na) < stamp_of(sb, nb),
{
    lemma_layout_constants();
    lemma_small_mod(raw_ticks(sa, na) as nat, 0x400_0000_0000);
    lemma_small_mod(raw_ticks(sb, nb) as nat, 0x400_0000_0000);
}

} // verus!
