//! The console: a cartridge behind its mapper, the memory map and the CPU.
use vstd::prelude::*;
use crate::cartridge::CART;
use crate::cpu::{CPU, reset_state};
use crate::dispatch::{CpuError, CYCLE_LIMIT, settles, step_spec};
use crate::mapper::{Mapper, Nrom, MMC1, new_map};
use crate::memory::MEM;

verus! {

/// The mapper number that an iNES header names: the high nibble of flag
/// byte 7 over the high nibble of flag byte 6.
pub open spec fn mapper_number(head: Seq<u8>) -> u8 {
    (head[7] & 0xF0) | (head[6] >> 4u8)
}

/// The mapper number that the header of `cart` names.
pub fn mapper_num(cart: &CART) -> (r: u8)
    ensures
        r == mapper_number(cart.head@),
{
    (cart.head[7] & 0xF0) | (cart.head[6] >> 4u8)
}

pub struct NES {
    pub cpu: CPU,
}

impl NES {
    /// Boots a console on `cart`: the mapper its header names, cleared RAM,
    /// and the CPU in its power-on state. The header must name a mapper this
    /// library implements (see `mapper_num`).
    pub fn new(cart: CART) -> (r: NES)
        requires
            mapper_number(cart.head@) <= 1,
        ensures
            r.cpu == reset_state(r.cpu.memory),
            r.cpu.memory.ram_cleared(),
            r.cpu.memory.cart == if mapper_number(cart.head@) == 0 {
                Mapper::Nrom(Nrom { cart })
            } else {
                Mapper::MMC1(MMC1 { cart })
            },
            r.cpu.memory.ppu == 0 && r.cpu.memory.apu == 0 && r.cpu.memory.input == 0,
    {
        let map_num = mapper_num(&cart);
        let mapper = new_map(map_num, cart);
        let memory = MEM::new(mapper, 0, 0, 0);
        NES { cpu: CPU::new(memory) }
    }

    /// Runs one CPU step.
    pub fn step(&mut self) -> (r: Result<(), CpuError>)
        requires
            old(self).cpu.cycles <= CYCLE_LIMIT,
        ensures
            settles(old(self).cpu, final(self).cpu, r, step_spec(old(self).cpu)),
    {
        self.cpu.step()
    }

    /// Stops the console; there is nothing to release.
    pub fn shutdown(&mut self)
        ensures
            *final(self) == *old(self),
    {
    }

    /// Saving the console state is not supported; the console is unchanged.
    pub fn save(&mut self)
        ensures
            *final(self) == *old(self),
    {
    }

    /// Loading a console state is not supported; the console is unchanged.
    pub fn load(&mut self)
        ensures
            *final(self) == *old(self),
    {
    }
}

} // verus!
