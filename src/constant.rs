use vstd::prelude::*;

verus! {

/// Size of the whole address space, in bytes.
pub const MEMORY_MAX: usize = 0x10000;

/// Addresses below this bound are read through the mirroring mask.
pub const MIRROR_REGION_END: u16 = 0x2000;

/// Size of the physical bank that the mirrored region aliases.
pub const MIRROR_BANK_SIZE: u16 = 0x0800;

/// Mask that keeps the low 11 bits of a mirrored address.
pub const MIRROR_MASK: u16 = 0x07FF;

/// Location of the little-endian reset vector.
pub const PC_ADDRESS_RESET: u16 = 0xFFFC;

/// Location of the vector that the test load path writes.
pub const ADDRESS_TEST_PROGRAM: u16 = 0xFFF0;

/// Program-counter value at which the run loop stops.
pub const ADDRESS_BRK: u16 = 0xFFFE;

/// First address of the program ROM.
pub const PRG_ROM_ADDRESS: u16 = 0x8000;

/// Base of the stack page.
pub const SP_BASE_ADDRESS: u16 = 0x0100;

/// Bit of a byte that the negative flag copies.
pub const NEGATIVE_FLAG: u8 = 0x80;

} // verus!
