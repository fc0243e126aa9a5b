use vstd::prelude::*;

verus! {

/// The operation identities of the instruction set.
#[derive(Clone, Copy, Debug, PartialEq, Eq, Structural)]
pub enum Operation {
    ADC, AND, ASL,
    BCC, BCS, BEQ, BIT, BMI, BNE, BPL, BRK, BVC, BVS,
    CLC, CLD, CLI, CLV, CMP, CPX, CPY,
    DEC, DEX, DEY,
    EOR,
    INC, INX, INY,
    JMP, JSR,
    LDA, LDX, LDY, LSR,
    NOP,
    ORA,
    PHA, PHP, PLA, PLP,
    ROL, ROR, RTI, RTS,
    SBC, SEC, SED, SEI, STA, STX, STY,
    TAX, TAY, TSX, TXA, TXS, TYA,
}

/// How an instruction finds its operand.
#[derive(Clone, Copy, Debug, PartialEq, Eq, Structural)]
pub enum AddressingMode {
    Implied,
    Accumulator,
    Immediate,
    ZeroPage,
    ZeroPageX,
    ZeroPageY,
    Absolute,
    AbsoluteX,
    AbsoluteY,
    Indirect,
    IndirectX,
    IndirectY,
    Relative,
}

/// One row of the opcode table.
#[derive(Clone, Copy, Debug, PartialEq, Eq, Structural)]
pub struct OpcodeEntry {
    pub opcode: Operation,
    pub address_mode: AddressingMode,
    pub cycle: u8,
    /// One more cycle when indexed addressing crosses a page boundary.
    pub extra_cycle: bool,
}

/// A decoded instruction, with its resolved operand.
#[derive(Clone, Copy, Debug, PartialEq, Eq, Structural)]
pub struct CpuInstruction {
    pub opcode: Operation,
    pub cycle: u8,
    pub address_mode: AddressingMode,
    pub extra_cycle: bool,
    /// `None`: the accumulator is the operand; `Some(a)`: memory at `a`.
    pub write_target: Option<u16>,
    /// The raw argument that the addressing mode resolved.
    pub mode_args: u16,
}

/// The mapping from opcode byte to table row; a byte may have no row.
pub struct OpcodeTable {
    pub entries: Vec<Option<OpcodeEntry>>,
}

impl OpcodeTable {
    /// The table has one slot per byte value.
    pub open spec fn wf(&self) -> bool {
        self.entries@.len() == 256
    }

    /// The row of `opcode`.
    pub open spec fn entry(&self, opcode: u8) -> Option<OpcodeEntry> {
        self.entries@[opcode as int]
    }

    /// A table with no rows.
    pub fn new() -> (r: OpcodeTable)
        ensures
            r.wf(),
            forall|b: u8| #[trigger] r.entry(b) == None::<OpcodeEntry>,
    {
        let mut entries: Vec<Option<OpcodeEntry>> = Vec::new();
        let mut i: usize = 0;
        while i < 256
            invariant
                i <= 256,
                entries@.len() == i,
                forall|j: int| 0 <= j < i ==> entries@[j] == None::<OpcodeEntry>,
            decreases 256 - i,
        {
            entries.push(None);
            i = i + 1;
        }
        OpcodeTable { entries }
    }

    /// Gives `opcode` the row `entry`.
    pub fn set(&mut self, opcode: u8, entry: OpcodeEntry)
        requires
            old(self).wf(),
        ensures
            final(self).wf(),
            final(self).entries@ == old(self).entries@.update(opcode as int, Some(entry)),
    {
        self.entries.set(opcode as usize, Some(entry));
    }

    /// The row of `opcode`, if it has one.
    pub fn get(&self, opcode: u8) -> (r: Option<OpcodeEntry>)
        requires
            self.wf(),
        ensures
            r == self.entry(opcode),
    {
        self.entries[opcode as usize]
    }
}

} // verus!
