use vstd::prelude::*;

use crate::constant::ADDRESS_BRK;
use crate::mem::{next_addr, read_byte, read_word};
use crate::opcode::{AddressingMode, CpuInstruction, OpcodeEntry, Operation};
use crate::registers::{status_byte_of, with_status_flags, with_zn, CpuRegister};
use crate::stack::{pop16_value, pop_value, push16_spec, push_spec, sp_inc};

verus! {

/// The engine's state: registers, raw memory, the pending-cycle counter,
/// the last executed instruction and the observer's record.
pub struct Machine {
    pub regs: CpuRegister,
    pub mem: Seq<u8>,
    pub clocks: u8,
    /// The instruction executed last.
    pub last: Option<CpuInstruction>,
    /// What the observer has recorded.
    pub trace: Seq<TraceEntry>,
}

/// What the observer saw of one fetched instruction: the registers before
/// the step changed anything, and the decoded instruction.
#[derive(Clone, Copy, Debug, PartialEq, Eq, Structural)]
pub struct TraceEntry {
    pub registers: CpuRegister,
    pub instr: CpuInstruction,
}

/// Why a run stopped, or which subsystem failed.
#[derive(Clone, Copy, Debug, PartialEq, Eq, Structural)]
pub enum CpuError {
    /// The opcode byte has no row in the opcode table.
    Decode(u8),
    /// The operation has no handler.
    Dispatch(Operation),
    /// The program does not fit between the ROM base and the end of memory.
    Load(usize),
}

/// The 16-bit pointer stored in the zero page at `p` and `p + 1` (mod 256).
pub open spec fn zero_page_word(m: Seq<u8>, p: u8) -> u16 {
    (read_byte(m, ((p as int + 1) % 256) as u16) as int * 256 + read_byte(m, p as u16) as int) as u16
}

/// `a + b` modulo 65536.
pub open spec fn add16(a: u16, b: u8) -> u16 {
    ((a as int + b as int) % 0x10000) as u16
}

/// `a + b` modulo 256.
pub open spec fn add8(a: u8, b: u8) -> u8 {
    ((a as int + b as int) % 256) as u8
}

/// The operand location, the raw argument and the number of argument bytes
/// of `mode` for an instruction whose opcode stands at `r.pc`.
#[verifier::opaque]
pub open spec fn resolve(r: CpuRegister, m: Seq<u8>, mode: AddressingMode) -> (Option<u16>, u16, u16) {
    let arg8 = read_byte(m, next_addr(r.pc));
    let arg16 = read_word(m, next_addr(r.pc));
    match mode {
        AddressingMode::Implied | AddressingMode::Accumulator => (None, 0, 0),
        AddressingMode::Immediate | AddressingMode::Relative => (None, arg8 as u16, 1),
        AddressingMode::ZeroPage => (Some(arg8 as u16), arg8 as u16, 1),
        AddressingMode::ZeroPageX => (Some(add8(arg8, r.x) as u16), arg8 as u16, 1),
        AddressingMode::ZeroPageY => (Some(add8(arg8, r.y) as u16), arg8 as u16, 1),
        AddressingMode::Absolute => (Some(arg16), arg16, 2),
        AddressingMode::AbsoluteX => (Some(add16(arg16, r.x)), arg16, 2),
        AddressingMode::AbsoluteY => (Some(add16(arg16, r.y)), arg16, 2),
        AddressingMode::Indirect => (Some(read_word(m, arg16)), arg16, 2),
        AddressingMode::IndirectX => (Some(zero_page_word(m, add8(arg8, r.x))), arg8 as u16, 1),
        AddressingMode::IndirectY => (Some(add16(zero_page_word(m, arg8), r.y)), arg8 as u16, 1),
    }
}

/// The instruction that `e` decodes to at `r.pc`, with its resolved operand.
pub open spec fn decode_spec(r: CpuRegister, m: Seq<u8>, e: OpcodeEntry) -> CpuInstruction {
    let (target, args, _) = resolve(r, m, e.address_mode);
    CpuInstruction {
        opcode: e.opcode,
        cycle: e.cycle,
        address_mode: e.address_mode,
        extra_cycle: e.extra_cycle,
        write_target: target,
        mode_args: args,
    }
}

/// Total byte length of the instruction that `e` decodes to.
pub open spec fn instr_len(r: CpuRegister, m: Seq<u8>, e: OpcodeEntry) -> u16 {
    (resolve(r, m, e.address_mode).2 + 1) as u16
}

/// What the uniform accessor reads: the accumulator for no address, else the
/// byte at the address.
pub open spec fn target_value(r: CpuRegister, m: Seq<u8>, t: Option<u16>) -> u8 {
    match t {
        None => r.a,
        Some(p) => read_byte(m, p),
    }
}

/// What the uniform accessor writes.
pub open spec fn store_target(r: CpuRegister, m: Seq<u8>, t: Option<u16>, v: u8) -> (CpuRegister, Seq<u8>) {
    match t {
        None => (CpuRegister { a: v, ..r }, m),
        Some(p) => (r, m.update(p as int, v)),
    }
}

/// The value an instruction operates on: the literal for immediate mode,
/// else what the uniform accessor reads.
pub open spec fn operand(r: CpuRegister, m: Seq<u8>, i: CpuInstruction) -> u8 {
    if i.address_mode == AddressingMode::Immediate {
        (i.mode_args % 256) as u8
    } else {
        target_value(r, m, i.write_target)
    }
}

/// The program counter after a taken branch: the already advanced counter
/// plus the argument read as a signed byte, modulo 65536.
pub open spec fn branch_target(pc: u16, offset: u16) -> u16 {
    let o = offset as int % 256;
    let d = if o >= 128 { o - 256 } else { o };
    ((pc as int + d + 0x10000) % 0x10000) as u16
}

/// `r` after a branch that is taken exactly when `taken`.
pub open spec fn branch(r: CpuRegister, i: CpuInstruction, taken: bool) -> CpuRegister {
    if taken {
        CpuRegister { pc: branch_target(r.pc, i.mode_args), ..r }
    } else {
        r
    }
}

/// `r` after comparing `reg` with `v`: carry when `reg >= v`, zero and
/// negative from `reg - v` modulo 256.
pub open spec fn compare(r: CpuRegister, reg: u8, v: u8) -> CpuRegister {
    with_zn(CpuRegister { carry: reg >= v, ..r }, ((reg as int - v as int + 256) % 256) as u8)
}

/// Loads, stores and register transfers.
/// Any other operation leaves registers and memory as they are.
#[verifier::opaque]
pub open spec fn data_spec(r: CpuRegister, m: Seq<u8>, i: CpuInstruction) -> (CpuRegister, Seq<u8>) {
    let v = operand(r, m, i);
    match i.opcode {
        Operation::LDA => (with_zn(CpuRegister { a: v, ..r }, v), m),
        Operation::LDX => (with_zn(CpuRegister { x: v, ..r }, v), m),
        Operation::LDY => (with_zn(CpuRegister { y: v, ..r }, v), m),
        Operation::STA => store_target(r, m, i.write_target, r.a),
        Operation::STX => store_target(r, m, i.write_target, r.x),
        Operation::STY => store_target(r, m, i.write_target, r.y),
        Operation::TAX => (with_zn(CpuRegister { x: r.a, ..r }, r.a), m),
        Operation::TAY => (with_zn(CpuRegister { y: r.a, ..r }, r.a), m),
        Operation::TXA => (with_zn(CpuRegister { a: r.x, ..r }, r.x), m),
        Operation::TYA => (with_zn(CpuRegister { a: r.y, ..r }, r.y), m),
        Operation::TSX => (with_zn(CpuRegister { x: r.sp, ..r }, r.sp), m),
        Operation::TXS => (CpuRegister { sp: r.x, ..r }, m),
        _ => (r, m),
    }
}

/// Increments, decrements and bitwise logic.
/// Any other operation leaves registers and memory as they are.
#[verifier::opaque]
pub open spec fn arith_spec(r: CpuRegister, m: Seq<u8>, i: CpuInstruction) -> (CpuRegister, Seq<u8>) {
    let v = operand(r, m, i);
    match i.opcode {
        Operation::INX => (with_zn(CpuRegister { x: add8(r.x, 1), ..r }, add8(r.x, 1)), m),
        Operation::INY => (with_zn(CpuRegister { y: add8(r.y, 1), ..r }, add8(r.y, 1)), m),
        Operation::DEX => (with_zn(CpuRegister { x: add8(r.x, 255), ..r }, add8(r.x, 255)), m),
        Operation::DEY => (with_zn(CpuRegister { y: add8(r.y, 255), ..r }, add8(r.y, 255)), m),
        Operation::INC => {
            let w = add8(target_value(r, m, i.write_target), 1);
            let (r1, m1) = store_target(r, m, i.write_target, w);
            (with_zn(r1, w), m1)
        },
        Operation::DEC => {
            let w = add8(target_value(r, m, i.write_target), 255);
            let (r1, m1) = store_target(r, m, i.write_target, w);
            (with_zn(r1, w), m1)
        },
        Operation::AND => (with_zn(CpuRegister { a: r.a & v, ..r }, r.a & v), m),
        Operation::ORA => (with_zn(CpuRegister { a: r.a | v, ..r }, r.a | v), m),
        Operation::EOR => (with_zn(CpuRegister { a: r.a ^ v, ..r }, r.a ^ v), m),
        _ => (r, m),
    }
}

/// Flag operations, no-operation, jump and stack transfers.
/// Any other operation leaves registers and memory as they are.
#[verifier::opaque]
pub open spec fn misc_spec(r: CpuRegister, m: Seq<u8>, i: CpuInstruction) -> (CpuRegister, Seq<u8>) {
    match i.opcode {
        Operation::CLC => (CpuRegister { carry: false, ..r }, m),
        Operation::SEC => (CpuRegister { carry: true, ..r }, m),
        Operation::CLD => (CpuRegister { decimal: false, ..r }, m),
        Operation::SED => (CpuRegister { decimal: true, ..r }, m),
        Operation::CLI => (CpuRegister { interrupt_disabled: false, ..r }, m),
        Operation::SEI => (CpuRegister { interrupt_disabled: true, ..r }, m),
        Operation::CLV => (CpuRegister { overflow: false, ..r }, m),
        Operation::NOP => (r, m),
        Operation::JMP => (CpuRegister { pc: match i.write_target { Some(p) => p, None => i.mode_args }, ..r }, m),
        Operation::PHA => {
            let (sp1, m1) = push_spec(r.sp, m, r.a);
            (CpuRegister { sp: sp1, ..r }, m1)
        },
        Operation::PHP => {
            let (sp1, m1) = push_spec(r.sp, m, status_byte_of(r, true));
            (CpuRegister { sp: sp1, ..r }, m1)
        },
        Operation::PLA => {
            let w = pop_value(r.sp, m);
            (with_zn(CpuRegister { a: w, sp: sp_inc(r.sp), ..r }, w), m)
        },
        Operation::PLP => (with_status_flags(CpuRegister { sp: sp_inc(r.sp), ..r }, pop_value(r.sp, m)), m),
        _ => (r, m),
    }
}

/// Branches, comparisons, subroutine call and return.
/// Any other operation leaves registers and memory as they are.
#[verifier::opaque]
pub open spec fn control_spec(r: CpuRegister, m: Seq<u8>, i: CpuInstruction) -> (CpuRegister, Seq<u8>) {
    let v = operand(r, m, i);
    match i.opcode {
        Operation::BCC => (branch(r, i, !r.carry), m),
        Operation::BCS => (branch(r, i, r.carry), m),
        Operation::BNE => (branch(r, i, !r.zero), m),
        Operation::BEQ => (branch(r, i, r.zero), m),
        Operation::BPL => (branch(r, i, !r.negative), m),
        Operation::BMI => (branch(r, i, r.negative), m),
        Operation::BVC => (branch(r, i, !r.overflow), m),
        Operation::BVS => (branch(r, i, r.overflow), m),
        Operation::CMP => (compare(r, r.a, v), m),
        Operation::CPX => (compare(r, r.x, v), m),
        Operation::CPY => (compare(r, r.y, v), m),
        Operation::JSR => {
            let (sp1, m1) = push16_spec(r.sp, m, ((r.pc as int + 0xFFFF) % 0x10000) as u16);
            let to = match i.write_target { Some(p) => p, None => i.mode_args };
            (CpuRegister { sp: sp1, pc: to, ..r }, m1)
        },
        Operation::RTS => (
            CpuRegister {
                sp: sp_inc(sp_inc(r.sp)),
                pc: ((pop16_value(r.sp, m) as int + 1) % 0x10000) as u16,
                ..r
            },
            m,
        ),
        _ => (r, m),
    }
}

/// Registers and memory after the handler of `i.opcode` runs, or `None`
/// where the operation has no handler.
pub open spec fn execute_spec(r: CpuRegister, m: Seq<u8>, i: CpuInstruction) -> Option<(CpuRegister, Seq<u8>)> {
    match i.opcode {
        Operation::LDA | Operation::LDX | Operation::LDY | Operation::STA | Operation::STX | Operation::STY | Operation::TAX | Operation::TAY | Operation::TXA | Operation::TYA | Operation::TSX | Operation::TXS => Some(data_spec(r, m, i)),
        Operation::INX | Operation::INY | Operation::DEX | Operation::DEY | Operation::INC | Operation::DEC | Operation::AND | Operation::ORA | Operation::EOR => Some(arith_spec(r, m, i)),
        Operation::CLC | Operation::SEC | Operation::CLD | Operation::SED | Operation::CLI | Operation::SEI | Operation::CLV | Operation::NOP | Operation::JMP | Operation::PHA | Operation::PHP | Operation::PLA | Operation::PLP => Some(misc_spec(r, m, i)),
        Operation::BCC | Operation::BCS | Operation::BNE | Operation::BEQ | Operation::BPL | Operation::BMI | Operation::BVC | Operation::BVS | Operation::CMP | Operation::CPX | Operation::CPY | Operation::JSR | Operation::RTS => Some(control_spec(r, m, i)),
        _ => None,
    }
}

/// What one fetch-decode-execute step does.
pub enum StepOutcome {
    /// The opcode byte has no table row; nothing changes.
    DecodeFault(u8),
    /// The break operation was fetched; only the trace grows.
    Halt(Machine),
    /// The operation has no handler; the program counter has advanced.
    DispatchFault(Machine, Operation),
    /// The instruction ran.
    Continue(Machine),
}

/// One step from `s` with the opcode table `table`: fetch at the program
/// counter, decode, record the instruction in the trace with the registers
/// before the step, stop on break; else advance the program counter past
/// the instruction, make it the last executed one, run its handler and add
/// `cycle - 1` pending cycles.
pub open spec fn step_spec(s: Machine, table: Seq<Option<OpcodeEntry>>) -> StepOutcome {
    let opcode = read_byte(s.mem, s.regs.pc);
    match table[opcode as int] {
        None => StepOutcome::DecodeFault(opcode),
        Some(e) => {
            let i = decode_spec(s.regs, s.mem, e);
            let seen = s.trace.push(TraceEntry { registers: s.regs, instr: i });
            if e.opcode == Operation::BRK {
                StepOutcome::Halt(Machine { trace: seen, ..s })
            } else {
                let pc1 = ((s.regs.pc as int + instr_len(s.regs, s.mem, e) as int) % 0x10000) as u16;
                let r1 = CpuRegister { pc: pc1, ..s.regs };
                let clocks = ((s.clocks as int + e.cycle as int + 255) % 256) as u8;
                match execute_spec(r1, s.mem, i) {
                    None => StepOutcome::DispatchFault(
                        Machine { regs: r1, last: Some(i), trace: seen, ..s },
                        i.opcode,
                    ),
                    Some((r2, m2)) => StepOutcome::Continue(
                        Machine { regs: r2, mem: m2, clocks, last: Some(i), trace: seen },
                    ),
                }
            }
        },
    }
}

/// How a run ended.
#[derive(Clone, Copy, Debug, PartialEq, Eq, Structural)]
pub enum RunEnd {
    /// Every step of the budget ran.
    Budget,
    /// A break operation was fetched.
    Halted,
    /// The program counter reached the terminal address.
    Sentinel,
    /// A step failed.
    Fault(CpuError),
}

/// The machine and the way it ended after at most `n` steps from `s`.
pub open spec fn run_steps(s: Machine, table: Seq<Option<OpcodeEntry>>, n: nat) -> (Machine, RunEnd)
    decreases n,
{
    if n == 0 {
        (s, RunEnd::Budget)
    } else {
        match step_spec(s, table) {
            StepOutcome::DecodeFault(o) => (s, RunEnd::Fault(CpuError::Decode(o))),
            StepOutcome::Halt(s1) => (s1, RunEnd::Halted),
            StepOutcome::DispatchFault(s1, op) => (s1, RunEnd::Fault(CpuError::Dispatch(op))),
            StepOutcome::Continue(s1) => run_steps(s1, table, (n - 1) as nat),
        }
    }
}

/// `s` with one pending cycle spent, if any is pending.
pub open spec fn spend_cycle(s: Machine) -> Machine {
    Machine { clocks: if s.clocks > 0 { (s.clocks - 1) as u8 } else { 0 }, ..s }
}

/// The free-running loop with at most `n` iterations: stop at the terminal
/// address; else spend a pending cycle and step, stopping on a break or a
/// fault.
pub open spec fn run_loop(s: Machine, table: Seq<Option<OpcodeEntry>>, n: nat) -> (Machine, RunEnd)
    decreases n,
{
    if s.regs.pc == ADDRESS_BRK {
        (s, RunEnd::Sentinel)
    } else if n == 0 {
        (s, RunEnd::Budget)
    } else {
        let s0 = spend_cycle(s);
        match step_spec(s0, table) {
            StepOutcome::DecodeFault(o) => (s0, RunEnd::Fault(CpuError::Decode(o))),
            StepOutcome::Halt(s1) => (s1, RunEnd::Halted),
            StepOutcome::DispatchFault(s1, op) => (s1, RunEnd::Fault(CpuError::Dispatch(op))),
            StepOutcome::Continue(s1) => run_loop(s1, table, (n - 1) as nat),
        }
    }
}

} // verus!
