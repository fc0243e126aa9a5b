use vstd::prelude::*;

use crate::constant::{ADDRESS_BRK, ADDRESS_TEST_PROGRAM, MEMORY_MAX, NEGATIVE_FLAG, PC_ADDRESS_RESET, PRG_ROM_ADDRESS};
use crate::mem::{lemma_word_round_trip, mirror_addr, next_addr, read_word, write_word, Mem};
use crate::model::{
    add16, add8, arith_spec, branch, compare, control_spec, data_spec, decode_spec, misc_spec, execute_spec, instr_len, operand, resolve, run_steps, step_spec,
    run_loop, spend_cycle, store_target, target_value, zero_page_word, CpuError, Machine, RunEnd,
    StepOutcome, TraceEntry,
};
use crate::opcode::{AddressingMode, CpuInstruction, OpcodeEntry, OpcodeTable, Operation};
use crate::registers::{flags_of, status_byte_of, with_status_flags, with_zn, CpuRegister};
use crate::stack::{get_sp_offset, pop_value, slot, sp_dec, sp_inc, Stacked};

verus! {

/// Observer of fetched instructions; it only records.
pub struct CpuDebugger {
    pub trace: Vec<TraceEntry>,
}

impl CpuDebugger {
    /// An observer that has seen nothing.
    pub fn new() -> (r: CpuDebugger)
        ensures
            r.trace@ == Seq::<TraceEntry>::empty(),
    {
        CpuDebugger { trace: Vec::new() }
    }

    /// Records one fetched instruction with the registers it was fetched in.
    pub fn debug_instr(&mut self, registers: CpuRegister, instr: CpuInstruction)
        ensures
            final(self).trace@ == old(self).trace@.push(TraceEntry { registers, instr }),
    {
        self.trace.push(TraceEntry { registers, instr });
    }
}

/// `a + b` modulo 256.
fn wrap_add8(a: u8, b: u8) -> (r: u8)
    ensures
        r == add8(a, b),
{
    a.wrapping_add(b)
}

/// `a + b` modulo 65536.
fn wrap_add16(a: u16, b: u8) -> (r: u16)
    ensures
        r == add16(a, b),
{
    a.wrapping_add(b as u16)
}

/// The bytes of `m` with `p` copied in from the program ROM base on.
pub open spec fn loaded(m: Seq<u8>, p: Seq<u8>) -> Seq<u8> {
    Seq::new(m.len(), |i: int| if 0x8000 <= i < 0x8000 + p.len() { p[i - 0x8000] } else { m[i] })
}

/// The execution engine: registers, 64KB of memory, the opcode table, the
/// pending-cycle counter, the last executed instruction and an observer.
pub struct Cpu6502 {
    pub debugger: CpuDebugger,
    pub clocks_to_pause: u8,
    pub registers: CpuRegister,
    /// Raw memory, indexed by physical address; the stack is page 0x01.
    pub mapper: Vec<u8>,
    /// The instruction executed last.
    pub instr: Option<CpuInstruction>,
    pub opcode_table: OpcodeTable,
}

impl Cpu6502 {
    /// Memory holds 65536 bytes and the table 256 slots.
    pub open spec fn wf(&self) -> bool {
        self.mapper@.len() == 0x10000 && self.opcode_table.wf()
    }

    /// The state that instructions change.
    pub open spec fn machine(&self) -> Machine {
        Machine {
            regs: self.registers,
            mem: self.mapper@,
            clocks: self.clocks_to_pause,
            last: self.instr,
            trace: self.debugger.trace@,
        }
    }

    /// Everything but registers and memory is the same in `self` and `o`.
    pub open spec fn same_rest(&self, o: &Cpu6502) -> bool {
        &&& self.debugger.trace@ == o.debugger.trace@
        &&& self.clocks_to_pause == o.clocks_to_pause
        &&& self.instr == o.instr
        &&& self.opcode_table.entries@ == o.opcode_table.entries@
    }

    /// An engine with zeroed memory and registers, driven by `opcode_table`.
    pub fn new(opcode_table: OpcodeTable) -> (r: Cpu6502)
        requires
            opcode_table.wf(),
        ensures
            r.wf(),
            r.mapper@ == Seq::new(0x10000, |i: int| 0u8),
            r.registers.a == 0 && r.registers.x == 0 && r.registers.y == 0,
            r.registers.sp == 0 && r.registers.pc == 0,
            flags_of(r.registers) == (false, false, false, false, false, false),
            r.clocks_to_pause == 0,
            r.instr == None::<CpuInstruction>,
            r.debugger.trace@ == Seq::<TraceEntry>::empty(),
            r.opcode_table.entries@ == opcode_table.entries@,
    {
        let mut mapper: Vec<u8> = Vec::new();
        let mut i: usize = 0;
        while i < MEMORY_MAX
            invariant
                i <= MEMORY_MAX,
                mapper@ == Seq::new(i as nat, |j: int| 0u8),
            decreases MEMORY_MAX - i,
        {
            mapper.push(0);
            i = i + 1;
            assert(mapper@ =~= Seq::new(i as nat, |j: int| 0u8));
        }
        Cpu6502 {
            debugger: CpuDebugger::new(),
            clocks_to_pause: 0,
            registers: CpuRegister::new(),
            mapper,
            instr: None,
            opcode_table,
        }
    }

    /// Writes `v` at the stack slot and decrements the pointer.
    fn push_byte(&mut self, v: u8)
        requires
            old(self).wf(),
        ensures
            final(self).wf(),
            final(self).same_rest(old(self)),
            final(self).registers == (CpuRegister { sp: sp_dec(old(self).registers.sp), ..old(self).registers }),
            final(self).mapper@ == old(self).mapper@.update(slot(old(self).registers.sp), v),
    {
        let sp = self.registers.sp;
        self.mapper.set(get_sp_offset(sp) as usize, v);
        self.registers.sp = sp.wrapping_sub(1);
    }

    /// Increments the pointer and reads at the stack slot.
    fn pop_byte(&mut self) -> (r: u8)
        requires
            old(self).wf(),
        ensures
            final(self).wf(),
            final(self).same_rest(old(self)),
            final(self).registers == (CpuRegister { sp: sp_inc(old(self).registers.sp), ..old(self).registers }),
            final(self).mapper@ == old(self).mapper@,
            r == pop_value(old(self).registers.sp, old(self).mapper@),
    {
        self.registers.sp = self.registers.sp.wrapping_add(1);
        self.mem_read(get_sp_offset(self.registers.sp))
    }
}

impl Mem for Cpu6502 {
    open spec fn mem_ready(&self) -> bool {
        self.mapper@.len() == 0x10000
    }

    open spec fn mem_bytes(&self) -> Seq<u8> {
        self.mapper@
    }

    open spec fn mem_rest_same(&self, o: &Cpu6502) -> bool {
        self.registers == o.registers && self.same_rest(o)
    }

    proof fn lemma_mem_rest_trans(a: &Cpu6502, b: &Cpu6502, c: &Cpu6502) {
    }

    fn mem_read(&self, addr: u16) -> (r: u8) {
        self.mapper[mirror_addr(addr) as usize]
    }

    fn mem_write(&mut self, addr: u16, data: u8) {
        self.mapper.set(addr as usize, data);
    }
}

impl Stacked for Cpu6502 {
    open spec fn stack_ready(&self) -> bool {
        self.wf()
    }

    open spec fn stack_pointer(&self) -> u8 {
        self.registers.sp
    }

    open spec fn stack_bytes(&self) -> Seq<u8> {
        self.mapper@
    }

    open spec fn stack_rest_same(&self, o: &Cpu6502) -> bool {
        (CpuRegister { sp: o.registers.sp, ..self.registers }) == o.registers && self.same_rest(o)
    }

    proof fn lemma_stack_rest_trans(a: &Cpu6502, b: &Cpu6502, c: &Cpu6502) {
    }

    fn push_stack(&mut self, val: u8) {
        self.push_byte(val);
    }

    fn pop_stack(&mut self) -> (r: u8) {
        self.pop_byte()
    }
}

impl Cpu6502 {
    /// The uniform operand read: the accumulator for no address, else the
    /// byte at the address.
    pub fn read_write_target(&self, write_target: Option<u16>) -> (r: u8)
        requires
            self.wf(),
        ensures
            r == target_value(self.registers, self.mapper@, write_target),
    {
        match write_target {
            None => self.registers.a,
            Some(ptr) => self.mem_read(ptr),
        }
    }

    /// The uniform operand write: the accumulator for no address, else the
    /// byte at the address.
    pub fn store_write_target(&mut self, v: u8, write_target: Option<u16>)
        requires
            old(self).wf(),
        ensures
            final(self).wf(),
            final(self).same_rest(old(self)),
            (final(self).registers, final(self).mapper@) == store_target(
                old(self).registers,
                old(self).mapper@,
                write_target,
                v,
            ),
    {
        match write_target {
            None => self.registers.a = v,
            Some(ptr) => self.mapper.set(ptr as usize, v),
        }
    }

    /// The value an instruction operates on: its literal in immediate mode,
    /// else the uniform operand read.
    pub fn operand_value(&self, instruction: &CpuInstruction) -> (r: u8)
        requires
            self.wf(),
        ensures
            r == operand(self.registers, self.mapper@, *instruction),
    {
        match instruction.address_mode {
            AddressingMode::Immediate => (instruction.mode_args % 256) as u8,
            _ => self.read_write_target(instruction.write_target),
        }
    }

    /// Whether the high bit of `result` is set.
    pub fn is_negative(&self, result: u8) -> (r: bool)
        ensures
            r == (result >= 0x80),
    {
        assert((result & 0x80 == 0x80) == (result >= 0x80)) by (bit_vector);
        (result & 0x80) == NEGATIVE_FLAG
    }

    /// zero := result is 0; negative := high bit of result.
    pub fn update_zero_and_negative_flags(&mut self, result: u8)
        ensures
            final(self).registers == with_zn(old(self).registers, result),
            final(self).mapper@ == old(self).mapper@,
            final(self).same_rest(old(self)),
    {
        self.registers.zero = result == 0;
        self.registers.negative = self.is_negative(result);
    }

    /// Sets zero and negative from the accumulator.
    pub fn update_accumulator_flags(&mut self)
        ensures
            final(self).registers == with_zn(old(self).registers, old(self).registers.a),
            final(self).mapper@ == old(self).mapper@,
            final(self).same_rest(old(self)),
    {
        let a = self.registers.a;
        self.update_zero_and_negative_flags(a);
    }

    /// Sets the six persisted flags from a status byte; bits 4 and 5 are
    /// ignored.
    pub fn set_status_register_from_byte(&mut self, v: u8)
        ensures
            final(self).registers == with_status_flags(old(self).registers, v),
            final(self).mapper@ == old(self).mapper@,
            final(self).same_rest(old(self)),
    {
        self.registers.set_status_flags(v);
    }

    /// The status byte; bit 4 is set only for a software break.
    pub fn status_register_byte(&self, is_instruction: bool) -> (r: u8)
        ensures
            r == status_byte_of(self.registers, is_instruction),
    {
        self.registers.status_byte(is_instruction)
    }

    /// The pointer stored in the zero page at `p` and `p + 1` (mod 256).
    fn zero_page_pointer(&self, p: u8) -> (r: u16)
        requires
            self.wf(),
        ensures
            r == zero_page_word(self.mapper@, p),
    {
        let lo = self.mem_read(p as u16) as u16;
        let hi = self.mem_read(p.wrapping_add(1) as u16) as u16;
        assert((hi << 8) | lo == hi * 256 + lo) by (bit_vector)
            requires
                hi < 256,
                lo < 256,
        ;
        (hi << 8) | lo
    }

    /// Operand location, raw argument and argument byte count of `mode` for
    /// the instruction at the program counter.
    #[verifier::spinoff_prover]
    #[verifier::rlimit(100)]
    fn decode_addressing_mode(&self, mode: AddressingMode) -> (r: (Option<u16>, u16, u16))
        requires
            self.wf(),
        ensures
            r == resolve(self.registers, self.mapper@, mode),
            r.2 <= 2,
    {
        reveal(resolve);
        let pc1 = self.registers.pc.wrapping_add(1);
        assert(pc1 == next_addr(self.registers.pc));
        match mode {
            AddressingMode::Implied | AddressingMode::Accumulator => (None, 0, 0),
            AddressingMode::Immediate | AddressingMode::Relative => {
                let a = self.mem_read(pc1);
                (None, a as u16, 1)
            },
            AddressingMode::ZeroPage => {
                let a = self.mem_read(pc1);
                (Some(a as u16), a as u16, 1)
            },
            AddressingMode::ZeroPageX => {
                let a = self.mem_read(pc1);
                (Some(wrap_add8(a, self.registers.x) as u16), a as u16, 1)
            },
            AddressingMode::ZeroPageY => {
                let a = self.mem_read(pc1);
                (Some(wrap_add8(a, self.registers.y) as u16), a as u16, 1)
            },
            AddressingMode::Absolute => {
                let w = self.mem_read_u16(pc1);
                (Some(w), w, 2)
            },
            AddressingMode::AbsoluteX => {
                let w = self.mem_read_u16(pc1);
                (Some(wrap_add16(w, self.registers.x)), w, 2)
            },
            AddressingMode::AbsoluteY => {
                let w = self.mem_read_u16(pc1);
                (Some(wrap_add16(w, self.registers.y)), w, 2)
            },
            AddressingMode::Indirect => {
                let w = self.mem_read_u16(pc1);
                (Some(self.mem_read_u16(w)), w, 2)
            },
            AddressingMode::IndirectX => {
                let a = self.mem_read(pc1);
                let p = self.zero_page_pointer(wrap_add8(a, self.registers.x));
                (Some(p), a as u16, 1)
            },
            AddressingMode::IndirectY => {
                let a = self.mem_read(pc1);
                let p = self.zero_page_pointer(a);
                (Some(wrap_add16(p, self.registers.y)), a as u16, 1)
            },
        }
    }

    /// Looks `opcode` up in the table and resolves its addressing mode
    /// against the current state: the operand location, the raw argument,
    /// the total instruction length and the instruction (whose operand
    /// fields are left for the caller to fill in).
    pub fn decode_instruction(&self, opcode: u8) -> (r: Result<(Option<u16>, u16, u16, CpuInstruction), CpuError>)
        requires
            self.wf(),
        ensures
            match self.opcode_table.entry(opcode) {
                None => r == Err::<(Option<u16>, u16, u16, CpuInstruction), CpuError>(CpuError::Decode(opcode)),
                Some(e) => {
                    let i = decode_spec(self.registers, self.mapper@, e);
                    r == Ok::<(Option<u16>, u16, u16, CpuInstruction), CpuError>((
                        i.write_target,
                        i.mode_args,
                        instr_len(self.registers, self.mapper@, e),
                        CpuInstruction { write_target: None, mode_args: 0, ..i },
                    ))
                },
            },
    {
        match self.opcode_table.get(opcode) {
            None => Err(CpuError::Decode(opcode)),
            Some(e) => {
                let (addr, addr_value, num_bytes) = self.decode_addressing_mode(e.address_mode);
                Ok((
                    addr,
                    addr_value,
                    num_bytes + 1,
                    CpuInstruction {
                        opcode: e.opcode,
                        cycle: e.cycle,
                        address_mode: e.address_mode,
                        extra_cycle: e.extra_cycle,
                        write_target: None,
                        mode_args: 0,
                    },
                ))
            },
        }
    }
}

impl Cpu6502 {
    /// Runs the handler of `instruction.opcode`. Handlers reach their operand
    /// through the uniform accessor; an operation without a handler is a
    /// dispatch failure and changes nothing.
    pub fn execute_instruction(&mut self, instruction: &CpuInstruction) -> (r: Result<(), CpuError>)
        requires
            old(self).wf(),
        ensures
            final(self).wf(),
            final(self).same_rest(old(self)),
            match execute_spec(old(self).registers, old(self).mapper@, *instruction) {
                None => {
                    &&& r == Err::<(), CpuError>(CpuError::Dispatch(instruction.opcode))
                    &&& final(self).registers == old(self).registers
                    &&& final(self).mapper@ == old(self).mapper@
                },
                Some((r2, m2)) => {
                    &&& r == Ok::<(), CpuError>(())
                    &&& final(self).registers == r2
                    &&& final(self).mapper@ == m2
                },
            },
    {
        match instruction.opcode {
            Operation::LDA
            | Operation::LDX
            | Operation::LDY
            | Operation::STA
            | Operation::STX
            | Operation::STY
            | Operation::TAX
            | Operation::TAY
            | Operation::TXA
            | Operation::TYA
            | Operation::TSX
            | Operation::TXS => self.execute_data(instruction),
            Operation::INX
            | Operation::INY
            | Operation::DEX
            | Operation::DEY
            | Operation::INC
            | Operation::DEC
            | Operation::AND
            | Operation::ORA
            | Operation::EOR => self.execute_arith(instruction),
            Operation::CLC
            | Operation::SEC
            | Operation::CLD
            | Operation::SED
            | Operation::CLI
            | Operation::SEI
            | Operation::CLV
            | Operation::NOP
            | Operation::JMP
            | Operation::PHA
            | Operation::PHP
            | Operation::PLA
            | Operation::PLP => self.execute_misc(instruction),
            Operation::BCC
            | Operation::BCS
            | Operation::BNE
            | Operation::BEQ
            | Operation::BPL
            | Operation::BMI
            | Operation::BVC
            | Operation::BVS
            | Operation::CMP
            | Operation::CPX
            | Operation::CPY
            | Operation::JSR
            | Operation::RTS => self.execute_control(instruction),
            _ => {
                return Err(CpuError::Dispatch(instruction.opcode));
            },
        }
        Ok(())
    }

    /// Loads, stores and register transfers.
    /// Any other operation changes nothing.
    #[verifier::spinoff_prover]
    #[verifier::rlimit(100)]
    fn execute_data(&mut self, instruction: &CpuInstruction)
        requires
            old(self).wf(),
        ensures
            final(self).wf(),
            final(self).same_rest(old(self)),
            (final(self).registers, final(self).mapper@) == data_spec(old(self).registers, old(self).mapper@, *instruction),
    {
        reveal(data_spec);
        let t = instruction.write_target;
        match instruction.opcode {
            Operation::LDA => {
                let v = self.operand_value(instruction);
                self.registers.a = v;
                self.update_zero_and_negative_flags(v);
            },
            Operation::LDX => {
                let v = self.operand_value(instruction);
                self.registers.x = v;
                self.update_zero_and_negative_flags(v);
            },
            Operation::LDY => {
                let v = self.operand_value(instruction);
                self.registers.y = v;
                self.update_zero_and_negative_flags(v);
            },
            Operation::STA => {
                let v = self.registers.a;
                self.store_write_target(v, t);
            },
            Operation::STX => {
                let v = self.registers.x;
                self.store_write_target(v, t);
            },
            Operation::STY => {
                let v = self.registers.y;
                self.store_write_target(v, t);
            },
            Operation::TAX => {
                self.registers.x = self.registers.a;
                self.update_zero_and_negative_flags(self.registers.x);
            },
            Operation::TAY => {
                self.registers.y = self.registers.a;
                self.update_zero_and_negative_flags(self.registers.y);
            },
            Operation::TXA => {
                self.registers.a = self.registers.x;
                self.update_accumulator_flags();
            },
            Operation::TYA => {
                self.registers.a = self.registers.y;
                self.update_accumulator_flags();
            },
            Operation::TSX => {
                self.registers.x = self.registers.sp;
                self.update_zero_and_negative_flags(self.registers.x);
            },
            Operation::TXS => {
                self.registers.sp = self.registers.x;
            },
            _ => {},
        }
    }

    /// Increments, decrements and bitwise logic.
    /// Any other operation changes nothing.
    #[verifier::spinoff_prover]
    #[verifier::rlimit(100)]
    fn execute_arith(&mut self, instruction: &CpuInstruction)
        requires
            old(self).wf(),
        ensures
            final(self).wf(),
            final(self).same_rest(old(self)),
            (final(self).registers, final(self).mapper@) == arith_spec(old(self).registers, old(self).mapper@, *instruction),
    {
        reveal(arith_spec);
        let t = instruction.write_target;
        match instruction.opcode {
            Operation::INX => {
                self.registers.x = self.registers.x.wrapping_add(1);
                self.update_zero_and_negative_flags(self.registers.x);
            },
            Operation::INY => {
                self.registers.y = self.registers.y.wrapping_add(1);
                self.update_zero_and_negative_flags(self.registers.y);
            },
            Operation::DEX => {
                self.registers.x = self.registers.x.wrapping_sub(1);
                self.update_zero_and_negative_flags(self.registers.x);
            },
            Operation::DEY => {
                self.registers.y = self.registers.y.wrapping_sub(1);
                self.update_zero_and_negative_flags(self.registers.y);
            },
            Operation::INC => {
                let w = self.read_write_target(t).wrapping_add(1);
                self.store_write_target(w, t);
                self.update_zero_and_negative_flags(w);
            },
            Operation::DEC => {
                let w = self.read_write_target(t).wrapping_sub(1);
                self.store_write_target(w, t);
                self.update_zero_and_negative_flags(w);
            },
            Operation::AND => {
                let v = self.operand_value(instruction);
                self.registers.a = self.registers.a & v;
                self.update_accumulator_flags();
            },
            Operation::ORA => {
                let v = self.operand_value(instruction);
                self.registers.a = self.registers.a | v;
                self.update_accumulator_flags();
            },
            Operation::EOR => {
                let v = self.operand_value(instruction);
                self.registers.a = self.registers.a ^ v;
                self.update_accumulator_flags();
            },
            _ => {},
        }
    }

    /// Flag operations, no-operation, jump and stack transfers.
    /// Any other operation changes nothing.
    #[verifier::spinoff_prover]
    #[verifier::rlimit(100)]
    fn execute_misc(&mut self, instruction: &CpuInstruction)
        requires
            old(self).wf(),
        ensures
            final(self).wf(),
            final(self).same_rest(old(self)),
            (final(self).registers, final(self).mapper@) == misc_spec(old(self).registers, old(self).mapper@, *instruction),
    {
        reveal(misc_spec);
        let t = instruction.write_target;
        match instruction.opcode {
            Operation::CLC => self.registers.carry = false,
            Operation::SEC => self.registers.carry = true,
            Operation::CLD => self.registers.decimal = false,
            Operation::SED => self.registers.decimal = true,
            Operation::CLI => self.registers.interrupt_disabled = false,
            Operation::SEI => self.registers.interrupt_disabled = true,
            Operation::CLV => self.registers.overflow = false,
            Operation::NOP => {},
            Operation::JMP => {
                self.registers.pc = match t {
                    Some(p) => p,
                    None => instruction.mode_args,
                };
            },
            Operation::PHA => {
                let a = self.registers.a;
                self.push_byte(a);
            },
            Operation::PHP => {
                let b = self.status_register_byte(true);
                self.push_byte(b);
            },
            Operation::PLA => {
                let v = self.pop_byte();
                self.registers.a = v;
                self.update_zero_and_negative_flags(v);
            },
            Operation::PLP => {
                let v = self.pop_byte();
                self.set_status_register_from_byte(v);
            },
            _ => {},
        }
    }

    /// Branches, comparisons, subroutine call and return.
    /// Any other operation changes nothing.
    #[verifier::spinoff_prover]
    #[verifier::rlimit(100)]
    fn execute_control(&mut self, instruction: &CpuInstruction)
        requires
            old(self).wf(),
        ensures
            final(self).wf(),
            final(self).same_rest(old(self)),
            (final(self).registers, final(self).mapper@) == control_spec(old(self).registers, old(self).mapper@, *instruction),
    {
        reveal(control_spec);
        match instruction.opcode {
            Operation::BCC => self.branch_if(!self.registers.carry, instruction),
            Operation::BCS => self.branch_if(self.registers.carry, instruction),
            Operation::BNE => self.branch_if(!self.registers.zero, instruction),
            Operation::BEQ => self.branch_if(self.registers.zero, instruction),
            Operation::BPL => self.branch_if(!self.registers.negative, instruction),
            Operation::BMI => self.branch_if(self.registers.negative, instruction),
            Operation::BVC => self.branch_if(!self.registers.overflow, instruction),
            Operation::BVS => self.branch_if(self.registers.overflow, instruction),
            Operation::CMP => {
                let v = self.operand_value(instruction);
                self.compare_with(self.registers.a, v);
            },
            Operation::CPX => {
                let v = self.operand_value(instruction);
                self.compare_with(self.registers.x, v);
            },
            Operation::CPY => {
                let v = self.operand_value(instruction);
                self.compare_with(self.registers.y, v);
            },
            Operation::JSR => {
                let ret = self.registers.pc.wrapping_sub(1);
                assert(ret as int == (old(self).registers.pc as int + 0xFFFF) % 0x10000);
                assert((ret & 0xFF00) >> 8 == ret / 256 && ret & 0xFF == ret % 256) by (bit_vector);
                self.push_byte(((ret & 0xFF00) >> 8) as u8);
                self.push_byte((ret & 0xFF) as u8);
                self.registers.pc = match instruction.write_target {
                    Some(p) => p,
                    None => instruction.mode_args,
                };
            },
            Operation::RTS => {
                let lo = self.pop_byte() as u16;
                let hi = self.pop_byte() as u16;
                assert((hi << 8) | lo == hi * 256 + lo) by (bit_vector)
                    requires
                        hi < 256,
                        lo < 256,
                ;
                self.registers.pc = ((hi << 8) | lo).wrapping_add(1);
            },
            _ => {},
        }
    }

    /// Moves the program counter by the signed argument when `taken`.
    fn branch_if(&mut self, taken: bool, instruction: &CpuInstruction)
        requires
            old(self).wf(),
        ensures
            final(self).wf(),
            final(self).same_rest(old(self)),
            final(self).registers == branch(old(self).registers, *instruction, taken),
            final(self).mapper@ == old(self).mapper@,
    {
        if taken {
            let o = instruction.mode_args % 256;
            let pc = self.registers.pc;
            self.registers.pc = if o >= 128 {
                pc.wrapping_sub(256 - o)
            } else {
                pc.wrapping_add(o)
            };
        }
    }

    /// Sets carry, zero and negative from comparing `reg` with `v`.
    fn compare_with(&mut self, reg: u8, v: u8)
        requires
            old(self).wf(),
        ensures
            final(self).wf(),
            final(self).same_rest(old(self)),
            final(self).registers == compare(old(self).registers, reg, v),
            final(self).mapper@ == old(self).mapper@,
    {
        self.registers.carry = reg >= v;
        let d = reg.wrapping_sub(v);
        self.update_zero_and_negative_flags(d);
    }
}

/// A component that advances by one step per clock.
pub trait Clocked {
    /// The component is in a state from which it can step.
    spec fn clock_ready(&self) -> bool;

    /// What a step from `self` to `next` that returned `r` satisfies.
    spec fn clocked_spec(&self, next: &Self, r: Result<bool, CpuError>) -> bool;

    /// One step; `Ok(true)` to continue, `Ok(false)` once halted.
    fn clocked(&mut self) -> (r: Result<bool, CpuError>)
        requires
            old(self).clock_ready(),
        ensures
            final(self).clock_ready(),
            old(self).clocked_spec(final(self), r),
    ;
}

impl Clocked for Cpu6502 {
    open spec fn clock_ready(&self) -> bool {
        self.wf()
    }

    /// The step follows `step_spec`.
    open spec fn clocked_spec(&self, next: &Cpu6502, r: Result<bool, CpuError>) -> bool {
        &&& next.opcode_table.entries@ == self.opcode_table.entries@
        &&& match step_spec(self.machine(), self.opcode_table.entries@) {
            StepOutcome::DecodeFault(o) => {
                &&& r == Err::<bool, CpuError>(CpuError::Decode(o))
                &&& next.machine() == self.machine()
            },
            StepOutcome::Halt(s1) => {
                &&& r == Ok::<bool, CpuError>(false)
                &&& next.machine() == s1
            },
            StepOutcome::DispatchFault(s1, op) => {
                &&& r == Err::<bool, CpuError>(CpuError::Dispatch(op))
                &&& next.machine() == s1
            },
            StepOutcome::Continue(s1) => {
                &&& r == Ok::<bool, CpuError>(true)
                &&& next.machine() == s1
            },
        }
    }

    #[verifier::spinoff_prover]
    #[verifier::rlimit(60)]
    fn clocked(&mut self) -> (r: Result<bool, CpuError>) {
        let ghost s0 = self.machine();
        let ghost tbl = self.opcode_table.entries@;
        let pc = self.registers.pc;
        let opcode = self.mem_read(pc);
        let (addr, addr_value, num_bytes, mut instr) = match self.decode_instruction(opcode) {
            Err(e) => {
                return Err(e);
            },
            Ok(d) => d,
        };
        instr.mode_args = addr_value;
        instr.write_target = addr;
        if instr.opcode == Operation::BRK {
            self.debugger.debug_instr(self.registers, instr);
            return Ok(false);
        }
        self.instr = Some(instr);
        self.debugger.debug_instr(self.registers, instr);
        self.registers.pc = pc.wrapping_add(num_bytes);
        proof {
            let e = tbl[opcode as int].unwrap();
            assert(instr == decode_spec(s0.regs, s0.mem, e));
            assert(self.registers == CpuRegister {
                pc: ((s0.regs.pc as int + instr_len(s0.regs, s0.mem, e) as int) % 0x10000) as u16,
                ..s0.regs
            });
        }
        match self.execute_instruction(&instr) {
            Err(e) => {
                return Err(e);
            },
            Ok(()) => {},
        }
        self.clocks_to_pause = self.clocks_to_pause.wrapping_add(instr.cycle.wrapping_sub(1));
        Ok(true)
    }
}

impl Cpu6502 {
    /// Forgets the last executed instruction, zeroes the accumulator and X,
    /// and loads the program counter from the reset vector. Y, the stack
    /// pointer and the flags are left as they are.
    pub fn reset(&mut self)
        requires
            old(self).wf(),
        ensures
            final(self).wf(),
            final(self).registers == (CpuRegister {
                a: 0,
                x: 0,
                pc: read_word(old(self).mapper@, PC_ADDRESS_RESET),
                ..old(self).registers
            }),
            final(self).mapper@ == old(self).mapper@,
            final(self).instr == None::<CpuInstruction>,
            final(self).debugger.trace@ == old(self).debugger.trace@,
            final(self).clocks_to_pause == old(self).clocks_to_pause,
            final(self).opcode_table.entries@ == old(self).opcode_table.entries@,
    {
        self.instr = None;
        self.registers.a = 0;
        self.registers.x = 0;
        self.registers.pc = self.mem_read_u16(PC_ADDRESS_RESET);
    }

    /// Little-endian 16-bit store that leaves every other field alone.
    fn store_u16(&mut self, pos: u16, data: u16)
        requires
            old(self).wf(),
        ensures
            final(self).wf(),
            final(self).same_rest(old(self)),
            final(self).registers == old(self).registers,
            final(self).mapper@ == write_word(old(self).mapper@, pos, data),
    {
        assert(data >> 8 == data / 256 && data & 0xff == data % 256) by (bit_vector);
        self.mapper.set(pos as usize, (data & 0xff) as u8);
        self.mapper.set(pos.wrapping_add(1) as usize, (data >> 8) as u8);
    }

    /// Copies `program` into memory from the program ROM base on.
    fn copy_program(&mut self, program: &Vec<u8>)
        requires
            old(self).wf(),
            program@.len() <= 0x8000,
        ensures
            final(self).wf(),
            final(self).same_rest(old(self)),
            final(self).registers == old(self).registers,
            final(self).mapper@ == loaded(old(self).mapper@, program@),
    {
        let ghost m0 = self.mapper@;
        let base = PRG_ROM_ADDRESS as usize;
        let mut i: usize = 0;
        while i < program.len()
            invariant
                self.wf(),
                self.same_rest(old(self)),
                self.registers == old(self).registers,
                m0 == old(self).mapper@,
                base == 0x8000,
                i <= program@.len() <= 0x8000,
                self.mapper@ == loaded(m0, program@.take(i as int)),
            decreases program@.len() - i,
        {
            self.mapper.set(base + i, program[i]);
            i = i + 1;
            assert(self.mapper@ =~= loaded(m0, program@.take(i as int)));
        }
        assert(program@.take(i as int) =~= program@);
    }

    /// Loads `program` at the program ROM base, points the reset vector at
    /// it and resets. A program longer than the space from the base to the
    /// end of memory is rejected and changes nothing.
    pub fn load_program(&mut self, program: Vec<u8>) -> (r: Result<(), CpuError>)
        requires
            old(self).wf(),
        ensures
            final(self).wf(),
            final(self).debugger.trace@ == old(self).debugger.trace@,
            final(self).clocks_to_pause == old(self).clocks_to_pause,
            final(self).opcode_table.entries@ == old(self).opcode_table.entries@,
            program@.len() > 0x8000 ==> {
                &&& r == Err::<(), CpuError>(CpuError::Load(program@.len() as usize))
                &&& final(self).registers == old(self).registers
                &&& final(self).mapper@ == old(self).mapper@
                &&& final(self).instr == old(self).instr
            },
            program@.len() <= 0x8000 ==> {
                &&& r == Ok::<(), CpuError>(())
                &&& final(self).mapper@ == write_word(loaded(old(self).mapper@, program@), PC_ADDRESS_RESET, PRG_ROM_ADDRESS)
                &&& final(self).registers == (CpuRegister { a: 0, x: 0, pc: PRG_ROM_ADDRESS, ..old(self).registers })
                &&& final(self).instr == None::<CpuInstruction>
            },
    {
        if program.len() > 0x8000 {
            return Err(CpuError::Load(program.len()));
        }
        self.copy_program(&program);
        self.store_u16(PC_ADDRESS_RESET, PRG_ROM_ADDRESS);
        proof {
            lemma_word_round_trip(loaded(old(self).mapper@, program@), PC_ADDRESS_RESET, PRG_ROM_ADDRESS);
        }
        self.reset();
        Ok(())
    }

    /// Loads `program` at the program ROM base and points the test vector at
    /// it, without a reset. A program longer than the space from the base to
    /// the end of memory is rejected and changes nothing.
    pub fn load_test_program(&mut self, program: Vec<u8>) -> (r: Result<(), CpuError>)
        requires
            old(self).wf(),
        ensures
            final(self).wf(),
            final(self).same_rest(old(self)),
            final(self).registers == old(self).registers,
            program@.len() > 0x8000 ==> {
                &&& r == Err::<(), CpuError>(CpuError::Load(program@.len() as usize))
                &&& final(self).mapper@ == old(self).mapper@
            },
            program@.len() <= 0x8000 ==> {
                &&& r == Ok::<(), CpuError>(())
                &&& final(self).mapper@ == write_word(loaded(old(self).mapper@, program@), ADDRESS_TEST_PROGRAM, PRG_ROM_ADDRESS)
                &&& read_word(final(self).mapper@, ADDRESS_TEST_PROGRAM) == PRG_ROM_ADDRESS
            },
    {
        if program.len() > 0x8000 {
            return Err(CpuError::Load(program.len()));
        }
        self.copy_program(&program);
        self.store_u16(ADDRESS_TEST_PROGRAM, PRG_ROM_ADDRESS);
        proof {
            lemma_word_round_trip(loaded(old(self).mapper@, program@), ADDRESS_TEST_PROGRAM, PRG_ROM_ADDRESS);
        }
        Ok(())
    }
}

impl Cpu6502 {
    /// Steps until a break is fetched or the program counter reaches the
    /// terminal address, spending one pending cycle before each step; stops
    /// after `u64::MAX` steps at the latest. A failed step ends the run with
    /// its error. The outcome is `run_loop` with that budget.
    pub fn run(&mut self) -> (r: Result<(), CpuError>)
        requires
            old(self).wf(),
        ensures
            final(self).wf(),
            final(self).opcode_table.entries@ == old(self).opcode_table.entries@,
            ({
                let (s, end) = run_loop(old(self).machine(), old(self).opcode_table.entries@, u64::MAX as nat);
                &&& final(self).machine() == s
                &&& match end {
                    RunEnd::Fault(e) => r == Err::<(), CpuError>(e),
                    _ => r == Ok::<(), CpuError>(()),
                }
            }),
    {
        let ghost tbl = self.opcode_table.entries@;
        let ghost goal = run_loop(self.machine(), tbl, u64::MAX as nat);
        let mut clock_status = true;
        let mut budget: u64 = u64::MAX;
        while clock_status && self.registers.pc != ADDRESS_BRK && budget > 0
            invariant
                self.wf(),
                self.opcode_table.entries@ == tbl,
                tbl == old(self).opcode_table.entries@,
                goal == run_loop(old(self).machine(), tbl, u64::MAX as nat),
                clock_status ==> run_loop(self.machine(), tbl, budget as nat) == goal,
                !clock_status ==> goal == (self.machine(), RunEnd::Halted),
            decreases budget,
        {
            let ghost before = self.machine();
            if self.clocks_to_pause > 0 {
                self.clocks_to_pause = self.clocks_to_pause - 1;
            }
            assert(self.machine() == spend_cycle(before));
            let status = self.clocked();
            match status {
                Err(e) => {
                    return Err(e);
                },
                Ok(st) => {
                    clock_status = st;
                },
            }
            budget = budget - 1;
        }
        Ok(())
    }

    /// Runs at most `steps` steps. `Ok(true)`: all of them ran; `Ok(false)`:
    /// a break was fetched first; `Err`: a step failed.
    pub fn bounded_run(&mut self, steps: usize) -> (r: Result<bool, CpuError>)
        requires
            old(self).wf(),
        ensures
            final(self).wf(),
            final(self).opcode_table.entries@ == old(self).opcode_table.entries@,
            ({
                let (s, end) = run_steps(old(self).machine(), old(self).opcode_table.entries@, steps as nat);
                &&& final(self).machine() == s
                &&& match end {
                    RunEnd::Halted => r == Ok::<bool, CpuError>(false),
                    RunEnd::Fault(e) => r == Err::<bool, CpuError>(e),
                    _ => r == Ok::<bool, CpuError>(true),
                }
            }),
    {
        let ghost tbl = self.opcode_table.entries@;
        let ghost goal = run_steps(self.machine(), tbl, steps as nat);
        let mut i: usize = 0;
        while i < steps
            invariant
                self.wf(),
                self.opcode_table.entries@ == tbl,
                tbl == old(self).opcode_table.entries@,
                goal == run_steps(old(self).machine(), tbl, steps as nat),
                i <= steps,
                run_steps(self.machine(), tbl, (steps - i) as nat) == goal,
            decreases steps - i,
        {
            let ghost before = self.machine();
            let status = self.clocked();
            assert(run_steps(before, tbl, (steps - i) as nat) == match step_spec(before, tbl) {
                StepOutcome::DecodeFault(o) => (before, RunEnd::Fault(CpuError::Decode(o))),
                StepOutcome::Halt(s1) => (s1, RunEnd::Halted),
                StepOutcome::DispatchFault(s1, op) => (s1, RunEnd::Fault(CpuError::Dispatch(op))),
                StepOutcome::Continue(s1) => run_steps(s1, tbl, (steps - i - 1) as nat),
            });
            match status {
                Err(e) => {
                    return Err(e);
                },
                Ok(false) => {
                    return Ok(false);
                },
                Ok(true) => {},
            }
            i = i + 1;
        }
        Ok(true)
    }
}

impl Default for Cpu6502 {
    /// Zeroed memory and registers, and an opcode table with no rows.
    fn default() -> (r: Cpu6502)
        ensures
            r.wf(),
            r.mapper@ == Seq::new(0x10000, |i: int| 0u8),
            r.registers.a == 0 && r.registers.x == 0 && r.registers.y == 0,
            r.registers.sp == 0 && r.registers.pc == 0,
            flags_of(r.registers) == (false, false, false, false, false, false),
            r.clocks_to_pause == 0,
            r.instr == None::<CpuInstruction>,
            r.debugger.trace@ == Seq::<TraceEntry>::empty(),
            forall|b: u8| #[trigger] r.opcode_table.entry(b) == None::<OpcodeEntry>,
    {
        let table = OpcodeTable::new();
        let r = Cpu6502::new(table);
        assert forall|b: u8| #[trigger] r.opcode_table.entry(b) == None::<OpcodeEntry> by {
            assert(table.entry(b) == None::<OpcodeEntry>);
        }
        r
    }
}

} // verus!
