//! Fetch, decode and execute: the step function and the dispatch from the
//! opcode table to the instructions.
use vstd::prelude::*;
use crate::addressing::{AddressingMode, get_zp_word, AccumulatorAM, ImmediateAM, ZeroPageAM, ZeroPageXAM, ZeroPageYAM, AbsoluteAM, AbsoluteXAM, AbsoluteYAM, IndexedIndirectAM, IndirectIndexedAM, zp_word};
use crate::cpu::{CPU, push, lo, hi, word};
use crate::memory::{is_mapped, mapped};
use crate::ops::{
    adc, sbc, load_a, load_x, load_y, asl, lsr, rol, ror, modified, compare, bit_test, branch_if,
    jsr, rts, brk, rti, pla, plp, jmp_target, indirect_high, IRQ_VECTOR,
};
use crate::status::{Flag, is_set, with_flag, CARRY, ZERO, INTERRUPT, DECIMAL, OVERFLOW, NEGATIVE};
use crate::table::{Op, Mode, OpInfo, opcode_info, decode};

verus! {

/// An instruction's operand in any of the ten addressing modes.
#[derive(Clone, Copy, Debug)]
pub enum Operand {
    Accumulator(AccumulatorAM),
    Immediate(ImmediateAM),
    ZeroPage(ZeroPageAM),
    ZeroPageX(ZeroPageXAM),
    ZeroPageY(ZeroPageYAM),
    Absolute(AbsoluteAM),
    AbsoluteX(AbsoluteXAM),
    AbsoluteY(AbsoluteYAM),
    IndexedIndirect(IndexedIndirectAM),
    IndirectIndexed(IndirectIndexedAM),
}

impl AddressingMode for Operand {
    open spec fn readable(&self, cpu: CPU) -> bool {
        match self {
            Operand::Accumulator(m) => m.readable(cpu),
            Operand::Immediate(m) => m.readable(cpu),
            Operand::ZeroPage(m) => m.readable(cpu),
            Operand::ZeroPageX(m) => m.readable(cpu),
            Operand::ZeroPageY(m) => m.readable(cpu),
            Operand::Absolute(m) => m.readable(cpu),
            Operand::AbsoluteX(m) => m.readable(cpu),
            Operand::AbsoluteY(m) => m.readable(cpu),
            Operand::IndexedIndirect(m) => m.readable(cpu),
            Operand::IndirectIndexed(m) => m.readable(cpu),
        }
    }

    open spec fn operand(&self, cpu: CPU) -> u8 {
        match self {
            Operand::Accumulator(m) => m.operand(cpu),
            Operand::Immediate(m) => m.operand(cpu),
            Operand::ZeroPage(m) => m.operand(cpu),
            Operand::ZeroPageX(m) => m.operand(cpu),
            Operand::ZeroPageY(m) => m.operand(cpu),
            Operand::Absolute(m) => m.operand(cpu),
            Operand::AbsoluteX(m) => m.operand(cpu),
            Operand::AbsoluteY(m) => m.operand(cpu),
            Operand::IndexedIndirect(m) => m.operand(cpu),
            Operand::IndirectIndexed(m) => m.operand(cpu),
        }
    }

    open spec fn writable(&self, cpu: CPU) -> bool {
        match self {
            Operand::Accumulator(m) => m.writable(cpu),
            Operand::Immediate(m) => m.writable(cpu),
            Operand::ZeroPage(m) => m.writable(cpu),
            Operand::ZeroPageX(m) => m.writable(cpu),
            Operand::ZeroPageY(m) => m.writable(cpu),
            Operand::Absolute(m) => m.writable(cpu),
            Operand::AbsoluteX(m) => m.writable(cpu),
            Operand::AbsoluteY(m) => m.writable(cpu),
            Operand::IndexedIndirect(m) => m.writable(cpu),
            Operand::IndirectIndexed(m) => m.writable(cpu),
        }
    }

    open spec fn stored(&self, cpu: CPU, v: u8) -> CPU {
        match self {
            Operand::Accumulator(m) => m.stored(cpu, v),
            Operand::Immediate(m) => m.stored(cpu, v),
            Operand::ZeroPage(m) => m.stored(cpu, v),
            Operand::ZeroPageX(m) => m.stored(cpu, v),
            Operand::ZeroPageY(m) => m.stored(cpu, v),
            Operand::Absolute(m) => m.stored(cpu, v),
            Operand::AbsoluteX(m) => m.stored(cpu, v),
            Operand::AbsoluteY(m) => m.stored(cpu, v),
            Operand::IndexedIndirect(m) => m.stored(cpu, v),
            Operand::IndirectIndexed(m) => m.stored(cpu, v),
        }
    }

    open spec fn spec_address(&self) -> u16 {
        match self {
            Operand::Accumulator(m) => m.spec_address(),
            Operand::Immediate(m) => m.spec_address(),
            Operand::ZeroPage(m) => m.spec_address(),
            Operand::ZeroPageX(m) => m.spec_address(),
            Operand::ZeroPageY(m) => m.spec_address(),
            Operand::Absolute(m) => m.spec_address(),
            Operand::AbsoluteX(m) => m.spec_address(),
            Operand::AbsoluteY(m) => m.spec_address(),
            Operand::IndexedIndirect(m) => m.spec_address(),
            Operand::IndirectIndexed(m) => m.spec_address(),
        }
    }

    fn load(&self, cpu: &CPU) -> (r: u8) {
        match self {
            Operand::Accumulator(m) => m.load(cpu),
            Operand::Immediate(m) => m.load(cpu),
            Operand::ZeroPage(m) => m.load(cpu),
            Operand::ZeroPageX(m) => m.load(cpu),
            Operand::ZeroPageY(m) => m.load(cpu),
            Operand::Absolute(m) => m.load(cpu),
            Operand::AbsoluteX(m) => m.load(cpu),
            Operand::AbsoluteY(m) => m.load(cpu),
            Operand::IndexedIndirect(m) => m.load(cpu),
            Operand::IndirectIndexed(m) => m.load(cpu),
        }
    }

    fn save(&self, cpu: &mut CPU, storeval: u8) {
        match self {
            Operand::Accumulator(m) => m.save(cpu, storeval),
            Operand::Immediate(m) => m.save(cpu, storeval),
            Operand::ZeroPage(m) => m.save(cpu, storeval),
            Operand::ZeroPageX(m) => m.save(cpu, storeval),
            Operand::ZeroPageY(m) => m.save(cpu, storeval),
            Operand::Absolute(m) => m.save(cpu, storeval),
            Operand::AbsoluteX(m) => m.save(cpu, storeval),
            Operand::AbsoluteY(m) => m.save(cpu, storeval),
            Operand::IndexedIndirect(m) => m.save(cpu, storeval),
            Operand::IndirectIndexed(m) => m.save(cpu, storeval),
        }
    }

    fn address(&self) -> (r: u16) {
        match self {
            Operand::Accumulator(m) => m.address(),
            Operand::Immediate(m) => m.address(),
            Operand::ZeroPage(m) => m.address(),
            Operand::ZeroPageX(m) => m.address(),
            Operand::ZeroPageY(m) => m.address(),
            Operand::Absolute(m) => m.address(),
            Operand::AbsoluteX(m) => m.address(),
            Operand::AbsoluteY(m) => m.address(),
            Operand::IndexedIndirect(m) => m.address(),
            Operand::IndirectIndexed(m) => m.address(),
        }
    }
}

impl Operand {
    /// Whether an access to the operand touches only mapped memory.
    pub fn accessible(&self, cpu: &CPU) -> (r: bool)
        ensures
            r == self.readable(*cpu),
    {
        match self {
            Operand::Absolute(m) => mapped(m.address),
            Operand::AbsoluteX(m) => mapped(m.address.wrapping_add(cpu.x as u16)),
            Operand::AbsoluteY(m) => mapped(m.address.wrapping_add(cpu.y as u16)),
            Operand::IndexedIndirect(m) => {
                let t = get_zp_word(&cpu.memory, m.address.wrapping_add(cpu.x));
                mapped(t)
            },
            Operand::IndirectIndexed(m) => {
                let base = get_zp_word(&cpu.memory, m.address);
                mapped(base.wrapping_add(cpu.y as u16))
            },
            _ => true,
        }
    }

    /// Whether the operand can be written; an immediate operand cannot.
    pub fn assignable(&self, cpu: &CPU) -> (r: bool)
        ensures
            r == self.writable(*cpu),
    {
        match self {
            Operand::Immediate(_) => false,
            _ => self.accessible(cpu),
        }
    }

    /// Whether indexing moves the effective address to another page.
    pub open spec fn spec_crosses(self, cpu: CPU) -> bool {
        match self {
            Operand::AbsoluteX(m) => hi(m.address) != hi(m.target(cpu)),
            Operand::AbsoluteY(m) => hi(m.address) != hi(m.target(cpu)),
            Operand::IndirectIndexed(m) => hi(zp_word(cpu.memory, m.address)) != hi(m.target(cpu)),
            _ => false,
        }
    }

    /// Whether indexing moves the effective address to another page.
    pub fn crosses_page(&self, cpu: &CPU) -> (r: bool)
        ensures
            r == self.spec_crosses(*cpu),
    {
        match self {
            Operand::AbsoluteX(m) => {
                let t = m.address.wrapping_add(cpu.x as u16);
                ((m.address >> 8u16) as u8) != ((t >> 8u16) as u8)
            },
            Operand::AbsoluteY(m) => {
                let t = m.address.wrapping_add(cpu.y as u16);
                ((m.address >> 8u16) as u8) != ((t >> 8u16) as u8)
            },
            Operand::IndirectIndexed(m) => {
                let base = get_zp_word(&cpu.memory, m.address);
                let t = base.wrapping_add(cpu.y as u16);
                ((base >> 8u16) as u8) != ((t >> 8u16) as u8)
            },
            _ => false,
        }
    }
}

/// The operand that addressing mode `mode` makes of the operand word `arg`.
/// A relative branch carries its offset as an immediate byte; an indirect
/// jump carries its pointer as an absolute address.
pub open spec fn operand_for(mode: Mode, arg: u16) -> Operand {
    match mode {
        Mode::Implied => Operand::Accumulator(AccumulatorAM),
        Mode::Accumulator => Operand::Accumulator(AccumulatorAM),
        Mode::Immediate => Operand::Immediate(ImmediateAM { address: lo(arg) }),
        Mode::Relative => Operand::Immediate(ImmediateAM { address: lo(arg) }),
        Mode::ZeroPage => Operand::ZeroPage(ZeroPageAM { address: lo(arg) }),
        Mode::ZeroPageX => Operand::ZeroPageX(ZeroPageXAM { address: lo(arg) }),
        Mode::ZeroPageY => Operand::ZeroPageY(ZeroPageYAM { address: lo(arg) }),
        Mode::Absolute => Operand::Absolute(AbsoluteAM { address: arg }),
        Mode::Indirect => Operand::Absolute(AbsoluteAM { address: arg }),
        Mode::AbsoluteX => Operand::AbsoluteX(AbsoluteXAM { address: arg }),
        Mode::AbsoluteY => Operand::AbsoluteY(AbsoluteYAM { address: arg }),
        Mode::IndexedIndirect => Operand::IndexedIndirect(IndexedIndirectAM { address: lo(arg) }),
        Mode::IndirectIndexed => Operand::IndirectIndexed(IndirectIndexedAM { address: lo(arg) }),
    }
}

/// Builds the operand that addressing mode `mode` makes of `arg`.
pub fn make_operand(mode: Mode, arg: u16) -> (r: Operand)
    ensures
        r == operand_for(mode, arg),
{
    let b = (arg & 0xFF) as u8;
    match mode {
        Mode::Implied => Operand::Accumulator(AccumulatorAM),
        Mode::Accumulator => Operand::Accumulator(AccumulatorAM),
        Mode::Immediate => Operand::Immediate(ImmediateAM { address: b }),
        Mode::Relative => Operand::Immediate(ImmediateAM { address: b }),
        Mode::ZeroPage => Operand::ZeroPage(ZeroPageAM { address: b }),
        Mode::ZeroPageX => Operand::ZeroPageX(ZeroPageXAM { address: b }),
        Mode::ZeroPageY => Operand::ZeroPageY(ZeroPageYAM { address: b }),
        Mode::Absolute => Operand::Absolute(AbsoluteAM { address: arg }),
        Mode::Indirect => Operand::Absolute(AbsoluteAM { address: arg }),
        Mode::AbsoluteX => Operand::AbsoluteX(AbsoluteXAM { address: arg }),
        Mode::AbsoluteY => Operand::AbsoluteY(AbsoluteYAM { address: arg }),
        Mode::IndexedIndirect => Operand::IndexedIndirect(IndexedIndirectAM { address: b }),
        Mode::IndirectIndexed => Operand::IndirectIndexed(IndirectIndexedAM { address: b }),
    }
}

/// Why an instruction could not run.
#[derive(Clone, Copy, Debug, PartialEq, Eq, Structural)]
pub enum CpuError {
    /// The opcode is outside the official instruction set.
    IllegalOpcode(u8),
    /// The instruction would touch the unmodelled part of the memory map.
    UnmappedAccess,
}

/// Whether every memory access of the instruction is mapped.
pub open spec fn can_execute(c: CPU, info: OpInfo, am: Operand) -> bool {
    match info.op {
        Op::ADC | Op::AND | Op::BIT | Op::CMP | Op::CPX | Op::CPY | Op::EOR | Op::LDA | Op::LDX
        | Op::LDY | Op::ORA | Op::SBC | Op::BCC | Op::BCS | Op::BEQ | Op::BMI | Op::BNE | Op::BPL
        | Op::BVC | Op::BVS => am.readable(c),
        Op::STA | Op::STX | Op::STY => am.writable(c),
        Op::ASL | Op::LSR | Op::ROL | Op::ROR | Op::DEC | Op::INC => am.readable(c) && am.writable(c),
        Op::JMP => info.mode != Mode::Indirect || (is_mapped(am.spec_address()) && is_mapped(
            indirect_high(am.spec_address()),
        )),
        _ => true,
    }
}

/// The processor after instruction `info` on operand `am`.
pub open spec fn execute(c: CPU, info: OpInfo, am: Operand) -> CPU {
    let m = am.operand(c);
    match info.op {
        Op::ADC => adc(c, m),
        Op::AND => load_a(c, c.a & m),
        Op::ASL => asl(c, am),
        Op::BCC => branch_if(c, !is_set(c.status, CARRY), m),
        Op::BCS => branch_if(c, is_set(c.status, CARRY), m),
        Op::BEQ => branch_if(c, is_set(c.status, ZERO), m),
        Op::BIT => bit_test(c, m),
        Op::BMI => branch_if(c, is_set(c.status, NEGATIVE), m),
        Op::BNE => branch_if(c, !is_set(c.status, ZERO), m),
        Op::BPL => branch_if(c, !is_set(c.status, NEGATIVE), m),
        Op::BRK => brk(c),
        Op::BVC => branch_if(c, !is_set(c.status, OVERFLOW), m),
        Op::BVS => branch_if(c, is_set(c.status, OVERFLOW), m),
        Op::CLC => c.with_status(with_flag(c.status, CARRY, false)),
        Op::CLD => c.with_status(with_flag(c.status, DECIMAL, false)),
        Op::CLI => c.with_status(with_flag(c.status, INTERRUPT, false)),
        Op::CLV => c.with_status(with_flag(c.status, OVERFLOW, false)),
        Op::CMP => compare(c, c.a, m),
        Op::CPX => compare(c, c.x, m),
        Op::CPY => compare(c, c.y, m),
        Op::DEC => modified(c, am, m.wrapping_sub(1)),
        Op::DEX => load_x(c, c.x.wrapping_sub(1)),
        Op::DEY => load_y(c, c.y.wrapping_sub(1)),
        Op::EOR => load_a(c, c.a ^ m),
        Op::INC => modified(c, am, m.wrapping_add(1)),
        Op::INX => load_x(c, c.x.wrapping_add(1)),
        Op::INY => load_y(c, c.y.wrapping_add(1)),
        Op::JMP => if info.mode == Mode::Indirect {
            CPU { pc: jmp_target(c, am.spec_address()), ..c }
        } else {
            CPU { pc: am.spec_address(), ..c }
        },
        Op::JSR => jsr(c, am.spec_address()),
        Op::LDA => load_a(c, m),
        Op::LDX => load_x(c, m),
        Op::LDY => load_y(c, m),
        Op::LSR => lsr(c, am),
        Op::NOP => c,
        Op::ORA => load_a(c, c.a | m),
        Op::PHA => push(c, c.a),
        Op::PHP => push(c, c.status),
        Op::PLA => pla(c),
        Op::PLP => plp(c),
        Op::ROL => rol(c, am),
        Op::ROR => ror(c, am),
        Op::RTI => rti(c),
        Op::RTS => rts(c),
        Op::SBC => sbc(c, m),
        Op::SEC => c.with_status(with_flag(c.status, CARRY, true)),
        Op::SED => c.with_status(with_flag(c.status, DECIMAL, true)),
        Op::SEI => c.with_status(with_flag(c.status, INTERRUPT, true)),
        Op::STA => am.stored(c, c.a),
        Op::STX => am.stored(c, c.x),
        Op::STY => am.stored(c, c.y),
        Op::TAX => load_x(c, c.a),
        Op::TAY => load_y(c, c.a),
        Op::TSX => load_x(c, c.sp),
        Op::TXA => load_a(c, c.x),
        Op::TXS => CPU { sp: c.x, ..c },
        Op::TYA => load_a(c, c.y),
    }
}

/// The state an instruction runs from: `pc` already past the instruction,
/// except for JSR and BRK, which compute their return address from their
/// own address.
pub open spec fn start(c: CPU, info: OpInfo) -> CPU {
    if info.op == Op::JSR || info.op == Op::BRK {
        c
    } else {
        CPU { pc: c.pc.wrapping_add(info.size as u16), ..c }
    }
}

/// Whether the instruction crossed a page: a taken branch that lands in
/// another page, or an indexed access whose index carries into the high byte.
pub open spec fn crossed(s: CPU, info: OpInfo, am: Operand, after: CPU) -> bool {
    if info.mode == Mode::Relative {
        hi(s.pc) != hi(after.pc)
    } else {
        am.spec_crosses(s)
    }
}

/// Highest cycle count from which a step cannot overflow the counter.
pub const CYCLE_LIMIT: u64 = 0xFFFF_FFFF_FFFF_FE00;

/// The outcome of running opcode `op` with operand word `arg` from `c`.
pub open spec fn parse_spec(c: CPU, op: u8, arg: u16) -> Result<CPU, CpuError> {
    match opcode_info(op) {
        None => Err(CpuError::IllegalOpcode(op)),
        Some(info) => {
            let am = operand_for(info.mode, arg);
            let s = start(c, info);
            if !can_execute(s, info, am) {
                Err(CpuError::UnmappedAccess)
            } else {
                let after = execute(s, info, am);
                let extra: int = if crossed(s, info, am, after) {
                    info.page_cycles as int
                } else {
                    0
                };
                Ok(CPU { cycles: (c.cycles + info.cycles + extra) as u64, ..after })
            }
        },
    }
}

/// Whether a call that went from `before` to `after` returning `r` did what
/// `expected` says: on success that state, on an error that error with the
/// processor untouched.
pub open spec fn settles(
    before: CPU,
    after: CPU,
    r: Result<(), CpuError>,
    expected: Result<CPU, CpuError>,
) -> bool {
    match expected {
        Ok(c) => r is Ok && after == c,
        Err(e) => r == Err::<(), CpuError>(e) && after == before,
    }
}

/// Where the reset vector is stored.
pub const RESET_VECTOR: u16 = 0xFFFC;

/// Where the program starts after a reset: the word at the reset vector.
pub open spec fn reset_pc(c: CPU) -> u16 {
    word(c.memory.read(RESET_VECTOR), c.memory.read((RESET_VECTOR + 1) as u16))
}

/// Interrupt request codes held in `CPU::interrupt`.
pub const INTERRUPT_NONE: u8 = 0;
pub const INTERRUPT_NMI: u8 = 1;
pub const INTERRUPT_IRQ: u8 = 2;
/// Where the non-maskable interrupt vector is stored.
pub const NMI_VECTOR: u16 = 0xFFFA;

/// Entering an interrupt through `vector`: push `pc` high byte first and the
/// status with Break clear, disable interrupts, clear the request and charge
/// seven cycles.
pub open spec fn interrupt_entry(c: CPU, vector: u16) -> CPU {
    let c1 = push(push(push(c, hi(c.pc)), lo(c.pc)), (c.status & 0xEF) | 0x20);
    CPU {
        pc: word(c1.memory.read(vector), c1.memory.read((vector + 1) as u16)),
        status: with_flag(c.status, INTERRUPT, true),
        interrupt: INTERRUPT_NONE,
        cycles: (c.cycles + 7) as u64,
        ..c1
    }
}

/// Whether the operand bytes of an instruction of `size` bytes at `c.pc`
/// are mapped.
pub open spec fn operands_mapped(c: CPU, size: u8) -> bool {
    &&& (size < 2 || is_mapped(c.pc.wrapping_add(1)))
    &&& (size < 3 || is_mapped(c.pc.wrapping_add(2)))
}

/// The operand word of an instruction of `size` bytes at `c.pc`, low byte first.
pub open spec fn fetch_arg(c: CPU, size: u8) -> u16 {
    if size < 2 {
        0
    } else if size == 2 {
        c.memory.read(c.pc.wrapping_add(1)) as u16
    } else {
        word(c.memory.read(c.pc.wrapping_add(1)), c.memory.read(c.pc.wrapping_add(2)))
    }
}

/// The outcome of one step from `c`: a stall cycle, an interrupt entry, or
/// one instruction fetched at `pc`, decoded and executed.
pub open spec fn step_spec(c: CPU) -> Result<CPU, CpuError> {
    if c.stall > 0 {
        Ok(CPU { stall: (c.stall - 1) as u8, cycles: (c.cycles + 1) as u64, ..c })
    } else if c.interrupt == INTERRUPT_NMI {
        Ok(interrupt_entry(c, NMI_VECTOR))
    } else if c.interrupt == INTERRUPT_IRQ && !is_set(c.status, INTERRUPT) {
        Ok(interrupt_entry(c, IRQ_VECTOR))
    } else if !is_mapped(c.pc) {
        Err(CpuError::UnmappedAccess)
    } else {
        let op = c.memory.read(c.pc);
        match opcode_info(op) {
            None => Err(CpuError::IllegalOpcode(op)),
            Some(info) => if !operands_mapped(c, info.size) {
                Err(CpuError::UnmappedAccess)
            } else {
                parse_spec(c, op, fetch_arg(c, info.size))
            },
        }
    }
}

/// A step never moves the cycle counter backwards, and running an
/// instruction always charges at least one cycle.
pub proof fn lemma_cycles_monotone(c: CPU)
    requires
        c.cycles <= CYCLE_LIMIT,
    ensures
        step_spec(c) matches Ok(c2) ==> c2.cycles > c.cycles,
{
    if c.stall == 0 && c.interrupt != INTERRUPT_NMI && !(c.interrupt == INTERRUPT_IRQ
        && !is_set(c.status, INTERRUPT)) && is_mapped(c.pc) {
        let op = c.memory.read(c.pc);
        if let Some(info) = opcode_info(op) {
            assert(info.cycles >= 2);
        }
    }
}

#[allow(non_snake_case)]
impl CPU {
    /// Whether every memory access of instruction `info` on `am` is mapped.
    fn accesses_mapped(&self, info: OpInfo, am: &Operand) -> (r: bool)
        ensures
            r == can_execute(*self, info, *am),
    {
        match info.op {
            Op::ADC | Op::AND | Op::BIT | Op::CMP | Op::CPX | Op::CPY | Op::EOR | Op::LDA
            | Op::LDX | Op::LDY | Op::ORA | Op::SBC | Op::BCC | Op::BCS | Op::BEQ | Op::BMI
            | Op::BNE | Op::BPL | Op::BVC | Op::BVS => am.accessible(self),
            Op::STA | Op::STX | Op::STY => am.assignable(self),
            Op::ASL | Op::LSR | Op::ROL | Op::ROR | Op::DEC | Op::INC => am.accessible(self)
                && am.assignable(self),
            Op::JMP => {
                if info.mode != Mode::Indirect {
                    true
                } else {
                    let p = am.address();
                    let q = (p & 0xFF00) | (((p & 0xFF) as u8).wrapping_add(1) as u16);
                    mapped(p) && mapped(q)
                }
            },
            _ => true,
        }
    }

    /// Runs instruction `info` on `am`.
    fn run(&mut self, info: OpInfo, am: Operand)
        requires
            can_execute(*old(self), info, am),
        ensures
            *final(self) == execute(*old(self), info, am),
    {
        match info.op {
            Op::ADC => self.ADC(am),
            Op::AND => self.AND(am),
            Op::ASL => self.ASL(am),
            Op::BCC => self.BCC(am),
            Op::BCS => self.BCS(am),
            Op::BEQ => self.BEQ(am),
            Op::BIT => self.BIT(am),
            Op::BMI => self.BMI(am),
            Op::BNE => self.BNE(am),
            Op::BPL => self.BPL(am),
            Op::BRK => self.BRK(),
            Op::BVC => self.BVC(am),
            Op::BVS => self.BVS(am),
            Op::CLC => self.CLC(),
            Op::CLD => self.CLD(),
            Op::CLI => self.CLI(),
            Op::CLV => self.CLV(),
            Op::CMP => self.CMP(am),
            Op::CPX => self.CPX(am),
            Op::CPY => self.CPY(am),
            Op::DEC => self.DEC(am),
            Op::DEX => self.DEX(),
            Op::DEY => self.DEY(),
            Op::EOR => self.EOR(am),
            Op::INC => self.INC(am),
            Op::INX => self.INX(),
            Op::INY => self.INY(),
            Op::JMP => {
                if info.mode == Mode::Indirect {
                    self.JMP(am);
                } else {
                    self.pc = am.address();
                }
            },
            Op::JSR => self.JSR(am),
            Op::LDA => self.LDA(am),
            Op::LDX => self.LDX(am),
            Op::LDY => self.LDY(am),
            Op::LSR => self.LSR(am),
            Op::NOP => self.NOP(),
            Op::ORA => self.ORA(am),
            Op::PHA => self.PHA(),
            Op::PHP => self.PHP(),
            Op::PLA => self.PLA(),
            Op::PLP => self.PLP(),
            Op::ROL => self.ROL(am),
            Op::ROR => self.ROR(am),
            Op::RTI => self.RTI(),
            Op::RTS => self.RTS(),
            Op::SBC => self.SBC(am),
            Op::SEC => self.SEC(),
            Op::SED => self.SED(),
            Op::SEI => self.SEI(),
            Op::STA => self.STA(am),
            Op::STX => self.STX(am),
            Op::STY => self.STY(am),
            Op::TAX => self.TAX(),
            Op::TAY => self.TAY(),
            Op::TSX => self.TSX(),
            Op::TXA => self.TXA(),
            Op::TXS => self.TXS(),
            Op::TYA => self.TYA(),
        }
    }

    /// Runs opcode `OP`, which must be in the table, with operand word `arg`,
    /// `pc` being at the opcode: decodes it, moves `pc` past the instruction, executes it and charges
    /// its cycles.
    pub fn parse_opcode(&mut self, OP: u8, arg: u16) -> (r: Result<(), CpuError>)
        requires
            old(self).cycles <= CYCLE_LIMIT,
            opcode_info(OP) is Some,
        ensures
            settles(*old(self), *final(self), r, parse_spec(*old(self), OP, arg)),
    {
        let info = match decode(OP) {
            Some(info) => info,
            None => {
                return Err(CpuError::IllegalOpcode(OP));
            },
        };
        let am = make_operand(info.mode, arg);
        let pc0 = self.pc;
        if !(info.op == Op::JSR || info.op == Op::BRK) {
            self.pc = self.pc.wrapping_add(info.size as u16);
        }
        if !self.accesses_mapped(info, &am) {
            self.pc = pc0;
            return Err(CpuError::UnmappedAccess);
        }
        let crosses = am.crosses_page(self);
        let pc_s = self.pc;
        self.run(info, am);
        let crossed = if info.mode == Mode::Relative {
            ((pc_s >> 8u16) as u8) != ((self.pc >> 8u16) as u8)
        } else {
            crosses
        };
        let extra: u64 = if crossed {
            info.page_cycles as u64
        } else {
            0
        };
        self.cycles = self.cycles + info.cycles as u64 + extra;
        Ok(())
    }

    /// Enters the interrupt whose vector is stored at `vector`.
    fn enter_interrupt(&mut self, vector: u16)
        requires
            vector >= 0x4020,
            vector < 0xFFFF,
            old(self).cycles <= CYCLE_LIMIT,
        ensures
            *final(self) == interrupt_entry(*old(self), vector),
    {
        let pc = self.pc;
        let p = (self.status & 0xEF) | 0x20;
        self.stack_push((pc >> 8u16) as u8);
        self.stack_push((pc & 0xFF) as u8);
        self.stack_push(p);
        self.set_status(INTERRUPT, true);
        let low = self.memory.get(vector);
        let high = self.memory.get(vector + 1);
        self.pc = ((high as u16) << 8u16) | (low as u16);
        self.interrupt = INTERRUPT_NONE;
        self.cycles = self.cycles + 7;
    }

    /// Reset: the program counter takes the value of the reset vector.
    pub fn reset(&mut self)
        ensures
            *final(self) == (CPU { pc: reset_pc(*old(self)), ..*old(self) }),
    {
        let low = self.memory.get(RESET_VECTOR);
        let high = self.memory.get(RESET_VECTOR + 1);
        self.pc = ((high as u16) << 8u16) | (low as u16);
    }

    /// One step: spends a stall cycle if any are pending; else enters a
    /// pending interrupt; else fetches the instruction at `pc` and runs it.
    pub fn step(&mut self) -> (r: Result<(), CpuError>)
        requires
            old(self).cycles <= CYCLE_LIMIT,
        ensures
            settles(*old(self), *final(self), r, step_spec(*old(self))),
    {
        if self.stall > 0 {
            self.stall = self.stall - 1;
            self.cycles = self.cycles + 1;
            return Ok(());
        }
        if self.interrupt == INTERRUPT_NMI {
            self.enter_interrupt(NMI_VECTOR);
            return Ok(());
        }
        if self.interrupt == INTERRUPT_IRQ && !self.get_status(Flag::Interrupt) {
            self.enter_interrupt(IRQ_VECTOR);
            return Ok(());
        }
        if !mapped(self.pc) {
            return Err(CpuError::UnmappedAccess);
        }
        let op = self.memory.get(self.pc);
        let info = match decode(op) {
            Some(info) => info,
            None => {
                return Err(CpuError::IllegalOpcode(op));
            },
        };
        let a1 = self.pc.wrapping_add(1);
        let a2 = self.pc.wrapping_add(2);
        if (info.size >= 2 && !mapped(a1)) || (info.size >= 3 && !mapped(a2)) {
            return Err(CpuError::UnmappedAccess);
        }
        let arg: u16 = if info.size < 2 {
            0
        } else if info.size == 2 {
            self.memory.get(a1) as u16
        } else {
            let low = self.memory.get(a1);
            let high = self.memory.get(a2);
            ((high as u16) << 8u16) | (low as u16)
        };
        self.parse_opcode(op, arg)
    }
}

} // verus!
