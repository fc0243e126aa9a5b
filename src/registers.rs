use vstd::prelude::*;

verus! {

/// The register file: program counter, stack pointer, three general
/// registers and the six persisted status flags.
#[derive(Clone, Copy, Debug, PartialEq, Eq, Structural)]
pub struct CpuRegister {
    pub a: u8,
    pub x: u8,
    pub y: u8,
    pub sp: u8,
    pub pc: u16,
    pub carry: bool,
    pub zero: bool,
    pub interrupt_disabled: bool,
    pub decimal: bool,
    pub overflow: bool,
    pub negative: bool,
}

/// 1 for a set flag, 0 for a clear one.
pub open spec fn flag_bit(b: bool) -> u8 {
    if b { 1 } else { 0 }
}

/// The status byte: bit 0 carry, 1 zero, 2 interrupt-disabled, 3 decimal,
/// 4 break context, 5 always set, 6 overflow, 7 negative.
pub open spec fn status_byte_of(r: CpuRegister, is_instruction: bool) -> u8 {
    flag_bit(r.carry) | (flag_bit(r.zero) << 1u8) | (flag_bit(r.interrupt_disabled) << 2u8)
        | (flag_bit(r.decimal) << 3u8) | (flag_bit(is_instruction) << 4u8) | 0x20u8
        | (flag_bit(r.overflow) << 6u8) | (flag_bit(r.negative) << 7u8)
}

/// `r` with its six persisted flags taken from the status byte `v`; bits 4
/// and 5 are ignored.
pub open spec fn with_status_flags(r: CpuRegister, v: u8) -> CpuRegister {
    CpuRegister {
        carry: v & 0x01 != 0,
        zero: v & 0x02 != 0,
        interrupt_disabled: v & 0x04 != 0,
        decimal: v & 0x08 != 0,
        overflow: v & 0x40 != 0,
        negative: v & 0x80 != 0,
        ..r
    }
}

/// `r` with zero and negative set from `v`.
pub open spec fn with_zn(r: CpuRegister, v: u8) -> CpuRegister {
    CpuRegister { zero: v == 0, negative: v >= 0x80, ..r }
}

/// The six persisted flags, in bit order.
pub open spec fn flags_of(r: CpuRegister) -> (bool, bool, bool, bool, bool, bool) {
    (r.carry, r.zero, r.interrupt_disabled, r.decimal, r.overflow, r.negative)
}

impl CpuRegister {
    /// All registers zero, all flags clear.
    pub fn new() -> (r: CpuRegister)
        ensures
            r.a == 0 && r.x == 0 && r.y == 0 && r.sp == 0 && r.pc == 0,
            flags_of(r) == (false, false, false, false, false, false),
    {
        CpuRegister {
            a: 0,
            x: 0,
            y: 0,
            sp: 0,
            pc: 0,
            carry: false,
            zero: false,
            interrupt_disabled: false,
            decimal: false,
            overflow: false,
            negative: false,
        }
    }

    /// Packs the flags into the status byte; bit 4 is set only when
    /// `is_instruction` (a software break rather than a hardware interrupt).
    pub fn status_byte(&self, is_instruction: bool) -> (r: u8)
        ensures
            r == status_byte_of(*self, is_instruction),
    {
        let c: u8 = if self.carry { 1 } else { 0 };
        let z: u8 = if self.zero { 1 } else { 0 };
        let i: u8 = if self.interrupt_disabled { 1 } else { 0 };
        let d: u8 = if self.decimal { 1 } else { 0 };
        let b: u8 = if is_instruction { 1 } else { 0 };
        let o: u8 = if self.overflow { 1 } else { 0 };
        let n: u8 = if self.negative { 1 } else { 0 };
        c | (z << 1u8) | (i << 2u8) | (d << 3u8) | (b << 4u8) | 0x20u8 | (o << 6u8) | (n << 7u8)
    }

    /// Sets the six persisted flags from the status byte `v`.
    pub fn set_status_flags(&mut self, v: u8)
        ensures
            *final(self) == with_status_flags(*old(self), v),
    {
        self.carry = v & 0x01 != 0;
        self.zero = v & 0x02 != 0;
        self.interrupt_disabled = v & 0x04 != 0;
        self.decimal = v & 0x08 != 0;
        self.overflow = v & 0x40 != 0;
        self.negative = v & 0x80 != 0;
    }
}

impl Default for CpuRegister {
    fn default() -> (r: CpuRegister)
        ensures
            r.a == 0 && r.x == 0 && r.y == 0 && r.sp == 0 && r.pc == 0,
            flags_of(r) == (false, false, false, false, false, false),
    {
        CpuRegister::new()
    }
}

/// Decoding an encoded status byte restores the six persisted flags,
/// whatever the break context was and whatever the flags were before.
pub proof fn lemma_status_round_trip(r: CpuRegister, before: CpuRegister, is_instruction: bool)
    ensures
        flags_of(with_status_flags(before, status_byte_of(r, is_instruction))) == flags_of(r),
{
    let c = flag_bit(r.carry);
    let z = flag_bit(r.zero);
    let i = flag_bit(r.interrupt_disabled);
    let d = flag_bit(r.decimal);
    let b = flag_bit(is_instruction);
    let o = flag_bit(r.overflow);
    let n = flag_bit(r.negative);
    let v = status_byte_of(r, is_instruction);
    assert(v == c | (z << 1u8) | (i << 2u8) | (d << 3u8) | (b << 4u8) | 0x20u8 | (o << 6u8) | (n
        << 7u8));
    assert({
        let w = c | (z << 1u8) | (i << 2u8) | (d << 3u8) | (b << 4u8) | 0x20u8 | (o << 6u8) | (n
            << 7u8);
        &&& (w & 0x01 != 0) == (c == 1)
        &&& (w & 0x02 != 0) == (z == 1)
        &&& (w & 0x04 != 0) == (i == 1)
        &&& (w & 0x08 != 0) == (d == 1)
        &&& (w & 0x40 != 0) == (o == 1)
        &&& (w & 0x80 != 0) == (n == 1)
    }) by (bit_vector)
        requires
            c <= 1,
            z <= 1,
            i <= 1,
            d <= 1,
            b <= 1,
            o <= 1,
            n <= 1,
    ;
}

} // verus!
