//! Cartridge mappers: how the cartridge's banks appear in the CPU's address
//! space from `$4020` up.
use vstd::prelude::*;
use crate::cartridge::{CART, rom_byte};

verus! {

/// A cartridge mapper. The mappers of this library model read-only
/// cartridge space: a write leaves the mapper as it was.
pub trait MAP: Sized {
    /// The byte that PRG space shows at `address`.
    spec fn prg_byte(&self, address: u16) -> u8;

    /// The byte that CHR space shows at `address`.
    spec fn chr_byte(&self, address: u16) -> u8;

    fn get(&self, address: u16) -> (r: u8)
        ensures
            r == self.prg_byte(address),
    ;

    fn set(&mut self, address: u16, val: u8)
        ensures
            *final(self) == *old(self),
    ;

    fn get_chr(&self, address: u16) -> (r: u8)
        ensures
            r == self.chr_byte(address),
    ;

    fn set_chr(&mut self, address: u16, val: u8)
        ensures
            *final(self) == *old(self),
    ;
}

/// No cartridge: every address reads as 0.
#[allow(non_camel_case_types)]
pub struct EMPTY_MAP;

impl MAP for EMPTY_MAP {
    open spec fn prg_byte(&self, address: u16) -> u8 {
        0
    }

    open spec fn chr_byte(&self, address: u16) -> u8 {
        0
    }

    fn get(&self, address: u16) -> (r: u8) {
        0
    }

    fn set(&mut self, address: u16, val: u8) {
    }

    fn get_chr(&self, address: u16) -> (r: u8) {
        0
    }

    fn set_chr(&mut self, address: u16, val: u8) {
    }
}

/// Index of `i` in a ROM bank, reading 0 past its end.
fn rom_get(rom: &Vec<u8>, i: usize) -> (r: u8)
    ensures
        r == rom_byte(rom@, i as int),
{
    if i < rom.len() {
        rom[i]
    } else {
        0
    }
}

/// The CHR byte at `address`: an 8 KiB window, 0 past the end of the bank.
pub open spec fn chr_window(cart: CART, address: u16) -> u8 {
    rom_byte(cart.chr@, (address & 0x1FFF) as int)
}

fn chr_get(cart: &CART, address: u16) -> (r: u8)
    ensures
        r == chr_window(*cart, address),
{
    rom_get(&cart.chr, (address & 0x1FFF) as usize)
}

/// Mapper 0 (NROM): PRG ROM at `$8000–$FFFF`; a 16 KiB image is mirrored
/// into both halves, a 32 KiB image fills the window. There is no PRG RAM.
pub struct Nrom {
    pub cart: CART,
}

impl MAP for Nrom {
    open spec fn prg_byte(&self, address: u16) -> u8 {
        if address < 0x8000 {
            0
        } else if self.cart.prg@.len() > 0x4000 {
            rom_byte(self.cart.prg@, (address & 0x7FFF) as int)
        } else {
            rom_byte(self.cart.prg@, (address & 0x3FFF) as int)
        }
    }

    open spec fn chr_byte(&self, address: u16) -> u8 {
        chr_window(self.cart, address)
    }

    fn get(&self, address: u16) -> (r: u8) {
        if address < 0x8000 {
            0
        } else if self.cart.prg.len() > 0x4000 {
            rom_get(&self.cart.prg, (address & 0x7FFF) as usize)
        } else {
            rom_get(&self.cart.prg, (address & 0x3FFF) as usize)
        }
    }

    fn set(&mut self, address: u16, val: u8) {
    }

    fn get_chr(&self, address: u16) -> (r: u8) {
        chr_get(&self.cart, address)
    }

    fn set_chr(&mut self, address: u16, val: u8) {
    }
}

/// Mapper 1 (MMC1) in its power-on layout: the first 16 KiB bank at
/// `$8000–$BFFF` and the last one at `$C000–$FFFF`. Bank-switching writes
/// are not modelled.
pub struct MMC1 {
    pub cart: CART,
}

impl MAP for MMC1 {
    open spec fn prg_byte(&self, address: u16) -> u8 {
        if address < 0x8000 {
            0
        } else if address < 0xC000 {
            rom_byte(self.cart.prg@, (address & 0x3FFF) as int)
        } else {
            rom_byte(self.cart.prg@, self.cart.prg@.len() - 0x4000 + (address & 0x3FFF) as int)
        }
    }

    open spec fn chr_byte(&self, address: u16) -> u8 {
        chr_window(self.cart, address)
    }

    fn get(&self, address: u16) -> (r: u8) {
        let len = self.cart.prg.len();
        if address < 0x8000 {
            0
        } else if address < 0xC000 {
            rom_get(&self.cart.prg, (address & 0x3FFF) as usize)
        } else {
            let off = (address & 0x3FFF) as usize;
            assert(address & 0x3FFF <= 0x3FFF) by (bit_vector);
            if len >= 0x4000 - off {
                rom_get(&self.cart.prg, len - (0x4000 - off))
            } else {
                0
            }
        }
    }

    fn set(&mut self, address: u16, val: u8) {
    }

    fn get_chr(&self, address: u16) -> (r: u8) {
        chr_get(&self.cart, address)
    }

    fn set_chr(&mut self, address: u16, val: u8) {
    }
}

/// The mapper that a console runs with: one of the mappers above.
pub enum Mapper {
    Empty(EMPTY_MAP),
    Nrom(Nrom),
    MMC1(MMC1),
}

impl MAP for Mapper {
    open spec fn prg_byte(&self, address: u16) -> u8 {
        match self {
            Mapper::Empty(m) => m.prg_byte(address),
            Mapper::Nrom(m) => m.prg_byte(address),
            Mapper::MMC1(m) => m.prg_byte(address),
        }
    }

    open spec fn chr_byte(&self, address: u16) -> u8 {
        match self {
            Mapper::Empty(m) => m.chr_byte(address),
            Mapper::Nrom(m) => m.chr_byte(address),
            Mapper::MMC1(m) => m.chr_byte(address),
        }
    }

    fn get(&self, address: u16) -> (r: u8) {
        match self {
            Mapper::Empty(m) => m.get(address),
            Mapper::Nrom(m) => m.get(address),
            Mapper::MMC1(m) => m.get(address),
        }
    }

    fn set(&mut self, address: u16, val: u8) {
    }

    fn get_chr(&self, address: u16) -> (r: u8) {
        match self {
            Mapper::Empty(m) => m.get_chr(address),
            Mapper::Nrom(m) => m.get_chr(address),
            Mapper::MMC1(m) => m.get_chr(address),
        }
    }

    fn set_chr(&mut self, address: u16, val: u8) {
    }
}

/// The mapper numbered `map_num` in the iNES header, over `cart`. Only
/// mappers 0 (NROM) and 1 (MMC1) are implemented.
pub fn new_map(map_num: u8, cart: CART) -> (r: Mapper)
    requires
        map_num <= 1,
    ensures
        map_num == 0 ==> r == Mapper::Nrom(Nrom { cart }),
        map_num == 1 ==> r == Mapper::MMC1(MMC1 { cart }),
{
    if map_num == 0 {
        Mapper::Nrom(Nrom { cart })
    } else {
        Mapper::MMC1(MMC1 { cart })
    }
}

} // verus!
