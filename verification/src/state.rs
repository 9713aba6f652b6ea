//! The machine state as a mathematical value: the registers, the cycle
//! count and the bus, with the register pairs and the flags read out of it.

use crate::bus::BusView;
use vstd::prelude::*;

verus! {

/// The four condition flags.
pub struct Flags {
    pub zero: bool,
    pub subtract: bool,
    pub half_carry: bool,
    pub carry: bool,
}

/// Weight of the zero flag in the flags register (bit 7).
pub const ZERO_BIT: u8 = 0x80;

/// Weight of the subtract flag in the flags register (bit 6).
pub const SUBTRACT_BIT: u8 = 0x40;

/// Weight of the half-carry flag in the flags register (bit 5).
pub const HALF_CARRY_BIT: u8 = 0x20;

/// Weight of the carry flag in the flags register (bit 4).
pub const CARRY_BIT: u8 = 0x10;

/// 1 for a flag that is set, 0 for one that is clear.
pub open spec fn bit(state: bool) -> int {
    if state {
        1
    } else {
        0
    }
}

impl Flags {
    /// The top nibble of the flags register that holds these flags.
    pub open spec fn byte(self) -> int {
        128 * bit(self.zero) + 64 * bit(self.subtract) + 32 * bit(self.half_carry) + 16 * bit(
            self.carry,
        )
    }
}

/// The flags that a value of the flags register holds.
#[verifier::opaque]
pub open spec fn flags_of(f: u8) -> Flags {
    Flags {
        zero: (f / 128) % 2 == 1,
        subtract: (f / 64) % 2 == 1,
        half_carry: (f / 32) % 2 == 1,
        carry: (f / 16) % 2 == 1,
    }
}

/// The flags register after the four flags have been put into its top
/// nibble; the low nibble stays as it is.
#[verifier::opaque]
pub open spec fn put_flags(f: u8, flags: Flags) -> u8 {
    (flags.byte() + f % 16) as u8
}

/// The 16-bit value of a register pair: the first register is the high
/// byte, the second the low byte.
pub open spec fn pair(high: u8, low: u8) -> u16 {
    (high as int * 256 + low as int) as u16
}

/// High byte of a 16-bit value.
pub open spec fn high_byte(value: u16) -> u8 {
    (value / 256) as u8
}

/// Low byte of a 16-bit value.
pub open spec fn low_byte(value: u16) -> u8 {
    (value % 256) as u8
}

/// The state of the machine.
pub struct CpuView {
    pub a: u8,
    pub f: u8,
    pub b: u8,
    pub c: u8,
    pub d: u8,
    pub e: u8,
    pub h: u8,
    pub l: u8,
    pub sp: u16,
    pub pc: u16,
    pub cycles: u64,
    pub bus: BusView,
}

impl CpuView {
    /// The low nibble of the flags register is zero, and every bank of the
    /// bus has the storage its shape calls for.
    pub open spec fn wf(self) -> bool {
        &&& self.f % 16 == 0
        &&& self.bus.wf()
    }

    /// The pair AF: A as high byte, the flags register as low byte.
    pub open spec fn af(self) -> u16 {
        pair(self.a, self.f)
    }

    /// The pair BC: B as high byte, C as low byte.
    pub open spec fn bc(self) -> u16 {
        pair(self.b, self.c)
    }

    /// The pair DE: D as high byte, E as low byte.
    pub open spec fn de(self) -> u16 {
        pair(self.d, self.e)
    }

    /// The pair HL: H as high byte, L as low byte.
    pub open spec fn hl(self) -> u16 {
        pair(self.h, self.l)
    }

    /// The state after AF has been set: A takes the high byte, the flags
    /// register the top nibble of the low byte.
    pub open spec fn with_af(self, value: u16) -> CpuView {
        CpuView { a: high_byte(value), f: (low_byte(value) - low_byte(value) % 16) as u8, ..self }
    }

    /// The state after BC has been set: B takes the high byte, C the
    /// low byte.
    pub open spec fn with_bc(self, value: u16) -> CpuView {
        CpuView { b: high_byte(value), c: low_byte(value), ..self }
    }

    /// The state after DE has been set: D takes the high byte, E the
    /// low byte.
    pub open spec fn with_de(self, value: u16) -> CpuView {
        CpuView { d: high_byte(value), e: low_byte(value), ..self }
    }

    /// The state after HL has been set: H takes the high byte, L the
    /// low byte.
    pub open spec fn with_hl(self, value: u16) -> CpuView {
        CpuView { h: high_byte(value), l: low_byte(value), ..self }
    }

    /// The four flags.
    pub open spec fn flags(self) -> Flags {
        flags_of(self.f)
    }

    /// The state after the four flags have been set; the low nibble of the
    /// flags register stays as it is.
    pub open spec fn with_flags(self, flags: Flags) -> CpuView {
        CpuView { f: put_flags(self.f, flags), ..self }
    }

    /// The state after the zero flag has been set or cleared.
    pub open spec fn with_zero(self, state: bool) -> CpuView {
        self.with_flags(Flags { zero: state, ..self.flags() })
    }

    /// The state after the subtract flag has been set or cleared.
    pub open spec fn with_subtract(self, state: bool) -> CpuView {
        self.with_flags(Flags { subtract: state, ..self.flags() })
    }

    /// The state after the half-carry flag has been set or cleared.
    pub open spec fn with_half_carry(self, state: bool) -> CpuView {
        self.with_flags(Flags { half_carry: state, ..self.flags() })
    }

    /// The state after the carry flag has been set or cleared.
    pub open spec fn with_carry(self, state: bool) -> CpuView {
        self.with_flags(Flags { carry: state, ..self.flags() })
    }
}

/// A register pair that is set reads back as the value it was set to, and a
/// pair set to the value it holds leaves the state as it is.
pub proof fn lemma_pair_round_trip(s: CpuView, value: u16)
    ensures
        s.with_bc(value).bc() == value,
        s.with_de(value).de() == value,
        s.with_hl(value).hl() == value,
        s.with_bc(s.bc()) == s,
        s.with_de(s.de()) == s,
        s.with_hl(s.hl()) == s,
{
}

/// AF reads back as the value it was set to but for the low nibble, which
/// reads as zero; where the low nibble of the flags register is zero, AF
/// set to the value it holds leaves the state as it is.
pub proof fn lemma_af_round_trip(s: CpuView, value: u16)
    ensures
        s.with_af(value).af() == value - value % 16,
        s.with_af(value).f % 16 == 0,
        s.f % 16 == 0 ==> s.with_af(s.af()) == s,
{
}

/// Setting the pair of one set of registers leaves every other register,
/// the cycle count and the bus alone.
pub proof fn lemma_pairs_independent(s: CpuView, value: u16)
    ensures
        s.with_bc(value).de() == s.de() && s.with_bc(value).hl() == s.hl() && s.with_bc(
            value,
        ).af() == s.af(),
        s.with_de(value).bc() == s.bc() && s.with_de(value).hl() == s.hl() && s.with_de(
            value,
        ).af() == s.af(),
        s.with_hl(value).bc() == s.bc() && s.with_hl(value).de() == s.de() && s.with_hl(
            value,
        ).af() == s.af(),
        s.with_af(value).bc() == s.bc() && s.with_af(value).de() == s.de() && s.with_af(
            value,
        ).hl() == s.hl(),
{
}

/// A byte put together from four bits and a low nibble gives the four bits
/// and the nibble back.
proof fn lemma_compose_bits(z: u8, n: u8, h: u8, c: u8, low: u8)
    by (bit_vector)
    requires
        z <= 1,
        n <= 1,
        h <= 1,
        c <= 1,
        low < 16,
    ensures
        128 * z + 64 * n + 32 * h + 16 * c + low < 256,
        ((128 * z + 64 * n + 32 * h + 16 * c + low) as u8 / 128) % 2 == z,
        ((128 * z + 64 * n + 32 * h + 16 * c + low) as u8 / 64) % 2 == n,
        ((128 * z + 64 * n + 32 * h + 16 * c + low) as u8 / 32) % 2 == h,
        ((128 * z + 64 * n + 32 * h + 16 * c + low) as u8 / 16) % 2 == c,
        (128 * z + 64 * n + 32 * h + 16 * c + low) as u8 % 16 == low,
{
}

/// A byte is its four top bits, each at its weight, and its low nibble.
proof fn lemma_split_bits(f: u8)
    by (bit_vector)
    ensures
        f == 128 * ((f / 128) % 2) + 64 * ((f / 64) % 2) + 32 * ((f / 32) % 2) + 16 * ((f / 16)
            % 2) + f % 16,
        (f / 128) % 2 <= 1,
        (f / 64) % 2 <= 1,
        (f / 32) % 2 <= 1,
        (f / 16) % 2 <= 1,
{
}

/// The flags put into a flags register are the flags read out of it; the
/// low nibble stays; flags put in twice are the flags put in last; and the
/// flags a register holds, put into it, leave it as it is.
pub proof fn lemma_put_flags(f: u8, first: Flags, flags: Flags)
    ensures
        flags_of(put_flags(f, flags)) == flags,
        put_flags(f, flags) % 16 == f % 16,
        put_flags(put_flags(f, first), flags) == put_flags(f, flags),
        put_flags(f, flags_of(f)) == f,
{
    reveal(flags_of);
    reveal(put_flags);
    lemma_compose_bits(
        bit(flags.zero) as u8,
        bit(flags.subtract) as u8,
        bit(flags.half_carry) as u8,
        bit(flags.carry) as u8,
        f % 16,
    );
    lemma_compose_bits(
        bit(first.zero) as u8,
        bit(first.subtract) as u8,
        bit(first.half_carry) as u8,
        bit(first.carry) as u8,
        f % 16,
    );
    lemma_split_bits(f);
}

/// The flags that are set are the flags that are read, whatever the
/// register held, and its low nibble stays.
pub proof fn lemma_flags_round_trip(s: CpuView, flags: Flags)
    ensures
        s.with_flags(flags).flags() == flags,
        s.with_flags(flags).f % 16 == s.f % 16,
        s.with_flags(s.flags()) == s,
{
    lemma_put_flags(s.f, flags, flags);
}

/// Setting one flag changes that flag and no other.
pub proof fn lemma_flag_set_alone(s: CpuView, state: bool)
    ensures
        s.with_zero(state).flags() == (Flags { zero: state, ..s.flags() }),
        s.with_subtract(state).flags() == (Flags { subtract: state, ..s.flags() }),
        s.with_half_carry(state).flags() == (Flags { half_carry: state, ..s.flags() }),
        s.with_carry(state).flags() == (Flags { carry: state, ..s.flags() }),
        s.with_zero(state).f % 16 == s.f % 16,
        s.with_subtract(state).f % 16 == s.f % 16,
        s.with_half_carry(state).f % 16 == s.f % 16,
        s.with_carry(state).f % 16 == s.f % 16,
{
    lemma_flags_round_trip(s, Flags { zero: state, ..s.flags() });
    lemma_flags_round_trip(s, Flags { subtract: state, ..s.flags() });
    lemma_flags_round_trip(s, Flags { half_carry: state, ..s.flags() });
    lemma_flags_round_trip(s, Flags { carry: state, ..s.flags() });
}

/// `lemma_put_flags` of every flags register and every choice of flags at
/// once.
pub proof fn lemma_flags_updates()
    ensures
        forall|f: u8, flags: Flags| #![trigger put_flags(f, flags)]
            flags_of(put_flags(f, flags)) == flags && put_flags(f, flags) % 16 == f % 16,
        forall|f: u8, first: Flags, flags: Flags| #![trigger put_flags(put_flags(f, first), flags)]
            put_flags(put_flags(f, first), flags) == put_flags(f, flags),
{
    assert forall|f: u8, flags: Flags| #![trigger put_flags(f, flags)]
        flags_of(put_flags(f, flags)) == flags && put_flags(f, flags) % 16 == f % 16 by {
        lemma_put_flags(f, flags, flags);
    }
    assert forall|f: u8, first: Flags, flags: Flags| #![trigger put_flags(put_flags(f, first), flags)]
        put_flags(put_flags(f, first), flags) == put_flags(f, flags) by {
        lemma_put_flags(f, first, flags);
    }
}

} // verus!
