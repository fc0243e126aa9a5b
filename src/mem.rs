use vstd::prelude::*;

use crate::constant::{MIRROR_MASK, MIRROR_REGION_END};

verus! {

/// The byte that a read at `addr` returns from the raw memory `m`: addresses
/// below 0x2000 keep their low 11 bits only, all others map one to one.
pub open spec fn read_byte(m: Seq<u8>, addr: u16) -> u8 {
    if addr < 0x2000 {
        m[addr as int % 2048]
    } else {
        m[addr as int]
    }
}

/// The address that follows `pos`, wrapping from 0xFFFF to 0.
pub open spec fn next_addr(pos: u16) -> u16 {
    ((pos as int + 1) % 0x10000) as u16
}

/// Little-endian 16-bit read: low byte at `pos`, high byte at the next
/// address (0xFFFF is followed by 0).
pub open spec fn read_word(m: Seq<u8>, pos: u16) -> u16 {
    (read_byte(m, next_addr(pos)) as int * 256 + read_byte(m, pos) as int) as u16
}

/// Little-endian 16-bit write: low byte at `pos`, high byte at the next
/// address (0xFFFF is followed by 0). Writes are not mirrored.
pub open spec fn write_word(m: Seq<u8>, pos: u16, v: u16) -> Seq<u8> {
    m.update(pos as int, (v as int % 256) as u8).update(next_addr(pos) as int, (v as int / 256) as u8)
}

/// The physical index that a read of `addr` uses.
pub fn mirror_addr(addr: u16) -> (r: u16)
    ensures
        addr < 0x2000 ==> r as int == addr as int % 2048,
        addr >= 0x2000 ==> r == addr,
{
    if addr < MIRROR_REGION_END {
        assert(addr & 0x7FF == addr % 2048) by (bit_vector);
        addr & MIRROR_MASK
    } else {
        addr
    }
}

/// Byte-addressable memory over a 64KB address space.
pub trait Mem: Sized {
    /// The memory is usable: it holds 65536 bytes.
    spec fn mem_ready(&self) -> bool;

    /// The raw bytes, indexed by physical address.
    spec fn mem_bytes(&self) -> Seq<u8>;

    /// `self` holds what `o` holds apart from memory.
    spec fn mem_rest_same(&self, o: &Self) -> bool;

    /// Keeping everything but memory is transitive.
    proof fn lemma_mem_rest_trans(a: &Self, b: &Self, c: &Self)
        requires
            b.mem_rest_same(a),
            c.mem_rest_same(b),
        ensures
            c.mem_rest_same(a),
    ;

    /// Read data from memory.
    fn mem_read(&self, addr: u16) -> (r: u8)
        requires
            self.mem_ready(),
        ensures
            r == read_byte(self.mem_bytes(), addr),
    ;

    /// Write data to memory.
    fn mem_write(&mut self, addr: u16, data: u8)
        requires
            old(self).mem_ready(),
        ensures
            final(self).mem_ready(),
            final(self).mem_rest_same(old(self)),
            final(self).mem_bytes() == old(self).mem_bytes().update(addr as int, data),
    ;

    /// Read 16-bit little-endian data from memory.
    fn mem_read_u16(&self, pos: u16) -> (r: u16)
        requires
            self.mem_ready(),
        ensures
            r == read_word(self.mem_bytes(), pos),
    {
        let lo = self.mem_read(pos) as u16;
        let hi = self.mem_read(pos.wrapping_add(1)) as u16;
        assert((hi << 8) | lo == hi * 256 + lo) by (bit_vector)
            requires
                hi < 256,
                lo < 256,
        ;
        (hi << 8) | lo
    }

    /// Write 16-bit little-endian data to memory.
    fn mem_write_u16(&mut self, pos: u16, data: u16)
        requires
            old(self).mem_ready(),
        ensures
            final(self).mem_ready(),
            final(self).mem_rest_same(old(self)),
            final(self).mem_bytes() == write_word(old(self).mem_bytes(), pos, data),
    {
        let hi = (data >> 8) as u8;
        let lo = (data & 0xff) as u8;
        assert(data >> 8 == data / 256 && data & 0xff == data % 256) by (bit_vector);
        self.mem_write(pos, lo);
        let ghost mid = *self;
        self.mem_write(pos.wrapping_add(1), hi);
        proof {
            Self::lemma_mem_rest_trans(old(self), &mid, self);
        }
    }
}

/// Reads below 0x2000 see the 2KB bank at `a mod 2048`; reads from 0x2000 up
/// return the stored byte.
pub proof fn lemma_read_mirroring(m: Seq<u8>, a: u16)
    ensures
        a < 0x2000 ==> read_byte(m, a) == read_byte(m, (a as int % 2048) as u16),
        a >= 0x2000 ==> read_byte(m, a) == m[a as int],
{
}

/// A 16-bit write followed by a 16-bit read at the same position gives the
/// value back, with the low byte stored at `p` and the high byte at `p + 1`,
/// wherever neither byte falls in the part of the mirrored region that reads
/// redirect (0x0800 up to 0x2000).
pub proof fn lemma_word_round_trip(m: Seq<u8>, p: u16, v: u16)
    requires
        m.len() == 0x10000,
        p <= 0xFFFE,
        p < 0x07FF || p >= 0x2000,
    ensures
        read_word(write_word(m, p, v), p) == v,
        write_word(m, p, v)[p as int] == (v as int % 256) as u8,
        write_word(m, p, v)[p as int + 1] == (v as int / 256) as u8,
{
}

} // verus!
