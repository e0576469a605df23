//! The CPU's memory map: 2 KiB of internal RAM at `$0000–$07FF` and the
//! cartridge from `$4020` up. The I/O registers in between are not modelled.
use vstd::prelude::*;
use vstd::array::spec_array_update;
use crate::mapper::{MAP, Mapper, EMPTY_MAP};

verus! {

/// Size of the internal RAM.
pub const RAM_SIZE: u16 = 0x0800;
/// First address of cartridge space.
pub const CART_START: u16 = 0x4020;

/// Whether `address` lies in a modelled part of the memory map.
pub open spec fn is_mapped(address: u16) -> bool {
    address < RAM_SIZE || address >= CART_START
}

/// Whether `address` lies in a modelled part of the memory map.
pub fn mapped(address: u16) -> (r: bool)
    ensures
        r == is_mapped(address),
{
    address < RAM_SIZE || address >= CART_START
}

/// The address of the stack slot that stack pointer `sp` designates.
pub open spec fn stack_address(sp: u8) -> u16 {
    (0x0100 + sp) as u16
}

pub struct MEM {
    pub ram: [u8; 2048],
    pub cart: Mapper,
    pub ppu: u8,
    pub apu: u8,
    pub input: u8,
}

impl MEM {
    /// The byte that a load from `address` returns.
    pub open spec fn read(self, address: u16) -> u8 {
        if address < RAM_SIZE {
            self.ram@[address as int]
        } else {
            self.cart.prg_byte(address)
        }
    }

    /// The memory after a store of `val` at `address`. Cartridge space is
    /// read-only, so a store there changes nothing.
    pub open spec fn written(self, address: u16, val: u8) -> MEM {
        if address < RAM_SIZE {
            MEM { ram: spec_array_update(self.ram, address as int, val), ..self }
        } else {
            self
        }
    }

    /// Whether every RAM byte is zero.
    pub open spec fn ram_cleared(self) -> bool {
        forall|i: int| 0 <= i < 2048 ==> self.ram@[i] == 0
    }

    /// Cleared RAM and no cartridge.
    pub fn new_empty() -> (r: MEM)
        ensures
            r.ram_cleared(),
            r.cart == Mapper::Empty(EMPTY_MAP),
            r.ppu == 0 && r.apu == 0 && r.input == 0,
    {
        MEM { ram: [0u8; 2048], cart: Mapper::Empty(EMPTY_MAP), ppu: 0, apu: 0, input: 0 }
    }

    /// Cleared RAM in front of `mapper`.
    pub fn new(mapper: Mapper, ppu: u8, apu: u8, input: u8) -> (r: MEM)
        ensures
            r.ram_cleared(),
            r.cart == mapper,
            r.ppu == ppu && r.apu == apu && r.input == input,
    {
        MEM { ram: [0u8; 2048], cart: mapper, ppu, apu, input }
    }

    pub fn get(&self, address: u16) -> (r: u8)
        requires
            is_mapped(address),
        ensures
            r == self.read(address),
    {
        if address < RAM_SIZE {
            self.ram[address as usize]
        } else {
            self.cart.get(address)
        }
    }

    /// A load from the zero page.
    pub fn get_zp(&self, address: u8) -> (r: u8)
        ensures
            r == self.read(address as u16),
    {
        self.ram[address as usize]
    }

    pub fn set(&mut self, address: u16, val: u8)
        requires
            is_mapped(address),
        ensures
            *final(self) == old(self).written(address, val),
    {
        if address < RAM_SIZE {
            self.ram[address as usize] = val;
        } else {
            self.cart.set(address, val);
        }
    }

    /// A store into the zero page.
    pub fn set_zp(&mut self, address: u8, val: u8)
        ensures
            *final(self) == old(self).written(address as u16, val),
    {
        self.ram[address as usize] = val;
    }

    /// Writes `val` into the stack slot of stack pointer `sp`.
    pub fn mem_stack_push(&mut self, sp: u8, val: u8)
        ensures
            *final(self) == old(self).written(stack_address(sp), val),
    {
        self.ram[0x0100 + sp as usize] = val;
    }

    /// Reads the stack slot of stack pointer `sp`.
    pub fn mem_stack_pop(&self, sp: u8) -> (r: u8)
        ensures
            r == self.read(stack_address(sp)),
    {
        self.ram[0x0100 + sp as usize]
    }
}

} // verus!
