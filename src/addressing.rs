//! Addressing modes: where an instruction's operand lives and how it is read
//! and written. Zero-page modes wrap within page 0, absolute modes within the
//! 16-bit space.
use vstd::prelude::*;
use crate::cpu::{CPU, word};
use crate::memory::{MEM, is_mapped};

verus! {

/// The location of an instruction's operand.
pub trait AddressingMode: Sized {
    /// Whether reading the operand touches only mapped memory.
    spec fn readable(&self, cpu: CPU) -> bool;

    /// The operand's value.
    spec fn operand(&self, cpu: CPU) -> u8;

    /// Whether the operand is a location that can be written.
    spec fn writable(&self, cpu: CPU) -> bool;

    /// The processor after writing `v` to the operand.
    spec fn stored(&self, cpu: CPU, v: u8) -> CPU;

    /// The raw address that the instruction carries.
    spec fn spec_address(&self) -> u16;

    fn load(&self, cpu: &CPU) -> (r: u8)
        requires
            self.readable(*cpu),
        ensures
            r == self.operand(*cpu),
    ;

    fn save(&self, cpu: &mut CPU, storeval: u8)
        requires
            self.writable(*old(cpu)),
        ensures
            *final(cpu) == self.stored(*old(cpu), storeval),
    ;

    fn address(&self) -> (r: u16)
        ensures
            r == self.spec_address(),
    ;
}

/// The processor with its memory after a store of `v` at `target`.
pub open spec fn store_at(cpu: CPU, target: u16, v: u8) -> CPU {
    CPU { memory: cpu.memory.written(target, v), ..cpu }
}

/// The operand is the accumulator.
#[derive(Clone, Copy, Debug)]
pub struct AccumulatorAM;

/// The operand is the byte that follows the opcode.
#[derive(Clone, Copy, Debug)]
pub struct ImmediateAM {
    pub address: u8,
}

/// The operand is at a 16-bit address.
#[derive(Clone, Copy, Debug)]
pub struct AbsoluteAM {
    pub address: u16,
}

/// The operand is at a 16-bit address plus X.
#[derive(Clone, Copy, Debug)]
pub struct AbsoluteXAM {
    pub address: u16,
}

/// The operand is at a 16-bit address plus Y.
#[derive(Clone, Copy, Debug)]
pub struct AbsoluteYAM {
    pub address: u16,
}

/// The operand is in the zero page.
#[derive(Clone, Copy, Debug)]
pub struct ZeroPageAM {
    pub address: u8,
}

/// The operand is in the zero page at an address plus X.
#[derive(Clone, Copy, Debug)]
pub struct ZeroPageXAM {
    pub address: u8,
}

/// The operand is in the zero page at an address plus Y.
#[derive(Clone, Copy, Debug)]
pub struct ZeroPageYAM {
    pub address: u8,
}

/// `(zp,X)`: the operand is at the word stored in the zero page at `address + X`.
#[derive(Clone, Copy, Debug)]
pub struct IndexedIndirectAM {
    pub address: u8,
}

/// `(zp),Y`: the operand is at the word stored in the zero page at `address`, plus Y.
#[derive(Clone, Copy, Debug)]
pub struct IndirectIndexedAM {
    pub address: u8,
}

/// The word stored in the zero page at `p`, low byte first; the high byte
/// comes from `p + 1` within the zero page.
pub open spec fn zp_word(mem: MEM, p: u8) -> u16 {
    word(mem.read(p as u16), mem.read(p.wrapping_add(1) as u16))
}

pub(crate) fn get_zp_word(mem: &MEM, p: u8) -> (r: u16)
    ensures
        r == zp_word(*mem, p),
{
    let low = mem.get_zp(p);
    let high = mem.get_zp(p.wrapping_add(1));
    ((high as u16) << 8u16) | (low as u16)
}

impl AddressingMode for AccumulatorAM {
    open spec fn readable(&self, cpu: CPU) -> bool {
        true
    }

    open spec fn operand(&self, cpu: CPU) -> u8 {
        cpu.a
    }

    open spec fn writable(&self, cpu: CPU) -> bool {
        true
    }

    open spec fn stored(&self, cpu: CPU, v: u8) -> CPU {
        CPU { a: v, ..cpu }
    }

    open spec fn spec_address(&self) -> u16 {
        0
    }

    fn load(&self, cpu: &CPU) -> (r: u8) {
        cpu.a
    }

    fn save(&self, cpu: &mut CPU, storeval: u8) {
        cpu.a = storeval;
    }

    fn address(&self) -> (r: u16) {
        0
    }
}

impl AddressingMode for ImmediateAM {
    open spec fn readable(&self, cpu: CPU) -> bool {
        true
    }

    open spec fn operand(&self, cpu: CPU) -> u8 {
        self.address
    }

    /// There is no location to write.
    open spec fn writable(&self, cpu: CPU) -> bool {
        false
    }

    open spec fn stored(&self, cpu: CPU, v: u8) -> CPU {
        cpu
    }

    open spec fn spec_address(&self) -> u16 {
        self.address as u16
    }

    fn load(&self, cpu: &CPU) -> (r: u8) {
        self.address
    }

    fn save(&self, cpu: &mut CPU, storeval: u8) {
    }

    fn address(&self) -> (r: u16) {
        self.address as u16
    }
}

impl AddressingMode for AbsoluteAM {
    open spec fn readable(&self, cpu: CPU) -> bool {
        is_mapped(self.address)
    }

    open spec fn operand(&self, cpu: CPU) -> u8 {
        cpu.memory.read(self.address)
    }

    open spec fn writable(&self, cpu: CPU) -> bool {
        is_mapped(self.address)
    }

    open spec fn stored(&self, cpu: CPU, v: u8) -> CPU {
        store_at(cpu, self.address, v)
    }

    open spec fn spec_address(&self) -> u16 {
        self.address
    }

    fn load(&self, cpu: &CPU) -> (r: u8) {
        cpu.memory.get(self.address)
    }

    fn save(&self, cpu: &mut CPU, storeval: u8) {
        cpu.memory.set(self.address, storeval);
    }

    fn address(&self) -> (r: u16) {
        self.address
    }
}

impl AbsoluteXAM {
    /// The effective address.
    pub open spec fn target(self, cpu: CPU) -> u16 {
        self.address.wrapping_add(cpu.x as u16)
    }
}

impl AddressingMode for AbsoluteXAM {
    open spec fn readable(&self, cpu: CPU) -> bool {
        is_mapped(self.target(cpu))
    }

    open spec fn operand(&self, cpu: CPU) -> u8 {
        cpu.memory.read(self.target(cpu))
    }

    open spec fn writable(&self, cpu: CPU) -> bool {
        is_mapped(self.target(cpu))
    }

    open spec fn stored(&self, cpu: CPU, v: u8) -> CPU {
        store_at(cpu, self.target(cpu), v)
    }

    open spec fn spec_address(&self) -> u16 {
        self.address
    }

    fn load(&self, cpu: &CPU) -> (r: u8) {
        cpu.memory.get(self.address.wrapping_add(cpu.x as u16))
    }

    fn save(&self, cpu: &mut CPU, storeval: u8) {
        let t = self.address.wrapping_add(cpu.x as u16);
        cpu.memory.set(t, storeval);
    }

    fn address(&self) -> (r: u16) {
        self.address
    }
}

impl AbsoluteYAM {
    /// The effective address.
    pub open spec fn target(self, cpu: CPU) -> u16 {
        self.address.wrapping_add(cpu.y as u16)
    }
}

impl AddressingMode for AbsoluteYAM {
    open spec fn readable(&self, cpu: CPU) -> bool {
        is_mapped(self.target(cpu))
    }

    open spec fn operand(&self, cpu: CPU) -> u8 {
        cpu.memory.read(self.target(cpu))
    }

    open spec fn writable(&self, cpu: CPU) -> bool {
        is_mapped(self.target(cpu))
    }

    open spec fn stored(&self, cpu: CPU, v: u8) -> CPU {
        store_at(cpu, self.target(cpu), v)
    }

    open spec fn spec_address(&self) -> u16 {
        self.address
    }

    fn load(&self, cpu: &CPU) -> (r: u8) {
        cpu.memory.get(self.address.wrapping_add(cpu.y as u16))
    }

    fn save(&self, cpu: &mut CPU, storeval: u8) {
        let t = self.address.wrapping_add(cpu.y as u16);
        cpu.memory.set(t, storeval);
    }

    fn address(&self) -> (r: u16) {
        self.address
    }
}

impl AddressingMode for ZeroPageAM {
    open spec fn readable(&self, cpu: CPU) -> bool {
        true
    }

    open spec fn operand(&self, cpu: CPU) -> u8 {
        cpu.memory.read(self.address as u16)
    }

    open spec fn writable(&self, cpu: CPU) -> bool {
        true
    }

    open spec fn stored(&self, cpu: CPU, v: u8) -> CPU {
        store_at(cpu, self.address as u16, v)
    }

    open spec fn spec_address(&self) -> u16 {
        self.address as u16
    }

    fn load(&self, cpu: &CPU) -> (r: u8) {
        cpu.memory.get_zp(self.address)
    }

    fn save(&self, cpu: &mut CPU, storeval: u8) {
        cpu.memory.set_zp(self.address, storeval);
    }

    fn address(&self) -> (r: u16) {
        self.address as u16
    }
}

impl AddressingMode for ZeroPageXAM {
    open spec fn readable(&self, cpu: CPU) -> bool {
        true
    }

    open spec fn operand(&self, cpu: CPU) -> u8 {
        cpu.memory.read(self.address.wrapping_add(cpu.x) as u16)
    }

    open spec fn writable(&self, cpu: CPU) -> bool {
        true
    }

    open spec fn stored(&self, cpu: CPU, v: u8) -> CPU {
        store_at(cpu, self.address.wrapping_add(cpu.x) as u16, v)
    }

    open spec fn spec_address(&self) -> u16 {
        self.address as u16
    }

    fn load(&self, cpu: &CPU) -> (r: u8) {
        cpu.memory.get_zp(self.address.wrapping_add(cpu.x))
    }

    fn save(&self, cpu: &mut CPU, storeval: u8) {
        let t = self.address.wrapping_add(cpu.x);
        cpu.memory.set_zp(t, storeval);
    }

    fn address(&self) -> (r: u16) {
        self.address as u16
    }
}

impl AddressingMode for ZeroPageYAM {
    open spec fn readable(&self, cpu: CPU) -> bool {
        true
    }

    open spec fn operand(&self, cpu: CPU) -> u8 {
        cpu.memory.read(self.address.wrapping_add(cpu.y) as u16)
    }

    open spec fn writable(&self, cpu: CPU) -> bool {
        true
    }

    open spec fn stored(&self, cpu: CPU, v: u8) -> CPU {
        store_at(cpu, self.address.wrapping_add(cpu.y) as u16, v)
    }

    open spec fn spec_address(&self) -> u16 {
        self.address as u16
    }

    fn load(&self, cpu: &CPU) -> (r: u8) {
        cpu.memory.get_zp(self.address.wrapping_add(cpu.y))
    }

    fn save(&self, cpu: &mut CPU, storeval: u8) {
        let t = self.address.wrapping_add(cpu.y);
        cpu.memory.set_zp(t, storeval);
    }

    fn address(&self) -> (r: u16) {
        self.address as u16
    }
}

impl IndexedIndirectAM {
    /// The effective address: the zero-page word at `address + X`.
    pub open spec fn target(self, cpu: CPU) -> u16 {
        zp_word(cpu.memory, self.address.wrapping_add(cpu.x))
    }
}

impl AddressingMode for IndexedIndirectAM {
    open spec fn readable(&self, cpu: CPU) -> bool {
        is_mapped(self.target(cpu))
    }

    open spec fn operand(&self, cpu: CPU) -> u8 {
        cpu.memory.read(self.target(cpu))
    }

    open spec fn writable(&self, cpu: CPU) -> bool {
        is_mapped(self.target(cpu))
    }

    open spec fn stored(&self, cpu: CPU, v: u8) -> CPU {
        store_at(cpu, self.target(cpu), v)
    }

    open spec fn spec_address(&self) -> u16 {
        self.address as u16
    }

    fn load(&self, cpu: &CPU) -> (r: u8) {
        let t = get_zp_word(&cpu.memory, self.address.wrapping_add(cpu.x));
        cpu.memory.get(t)
    }

    fn save(&self, cpu: &mut CPU, storeval: u8) {
        let t = get_zp_word(&cpu.memory, self.address.wrapping_add(cpu.x));
        cpu.memory.set(t, storeval);
    }

    fn address(&self) -> (r: u16) {
        self.address as u16
    }
}

impl IndirectIndexedAM {
    /// The effective address: the zero-page word at `address`, plus Y.
    pub open spec fn target(self, cpu: CPU) -> u16 {
        zp_word(cpu.memory, self.address).wrapping_add(cpu.y as u16)
    }
}

impl AddressingMode for IndirectIndexedAM {
    open spec fn readable(&self, cpu: CPU) -> bool {
        is_mapped(self.target(cpu))
    }

    open spec fn operand(&self, cpu: CPU) -> u8 {
        cpu.memory.read(self.target(cpu))
    }

    open spec fn writable(&self, cpu: CPU) -> bool {
        is_mapped(self.target(cpu))
    }

    open spec fn stored(&self, cpu: CPU, v: u8) -> CPU {
        store_at(cpu, self.target(cpu), v)
    }

    open spec fn spec_address(&self) -> u16 {
        self.address as u16
    }

    fn load(&self, cpu: &CPU) -> (r: u8) {
        let base = get_zp_word(&cpu.memory, self.address);
        cpu.memory.get(base.wrapping_add(cpu.y as u16))
    }

    fn save(&self, cpu: &mut CPU, storeval: u8) {
        let base = get_zp_word(&cpu.memory, self.address);
        let t = base.wrapping_add(cpu.y as u16);
        cpu.memory.set(t, storeval);
    }

    fn address(&self) -> (r: u16) {
        self.address as u16
    }
}

} // verus!
