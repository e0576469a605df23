//! The register file, the status-register accessors and the stack.
use vstd::prelude::*;
use crate::mapper::{Mapper, EMPTY_MAP};
use crate::memory::{MEM, stack_address};
use crate::status::{Flag, is_set, with_flag, zn, lemma_zn, ZERO, NEGATIVE};

verus! {

/// Status after power-on: the unused bit, and Zero for the cleared accumulator.
pub const STATUS_AT_RESET: u8 = 0x22;
/// Stack pointer after power-on: the top of the stack page.
pub const SP_AT_RESET: u8 = 0xFF;

/// The processor: its registers and the memory it owns.
pub struct CPU {
    pub memory: MEM,
    /// Program counter.
    pub pc: u16,
    /// Cycles run since power-on; the other chips time themselves by it.
    pub cycles: u64,
    /// Stack pointer: the stack is the page `$0100–$01FF`.
    pub sp: u8,
    /// Accumulator.
    pub a: u8,
    pub x: u8,
    pub y: u8,
    /// Flags, one per bit (see `status`).
    pub status: u8,
    /// Pending interrupt request.
    pub interrupt: u8,
    /// Cycles to stall before the next instruction.
    pub stall: u8,
}

/// Low byte of a word.
pub open spec fn lo(w: u16) -> u8 {
    (w & 0xFF) as u8
}

/// High byte of a word.
pub open spec fn hi(w: u16) -> u8 {
    (w >> 8u16) as u8
}

/// The word whose low byte is `l` and high byte is `h`.
pub open spec fn word(l: u8, h: u8) -> u16 {
    ((h as u16) << 8u16) | (l as u16)
}

/// The processor after pushing `v`: the byte goes to the slot that `sp`
/// designates, then `sp` moves down one (wrapping).
pub open spec fn push(c: CPU, v: u8) -> CPU {
    CPU { sp: c.sp.wrapping_sub(1), memory: c.memory.written(stack_address(c.sp), v), ..c }
}

/// The processor after a pull: `sp` moves up one (wrapping) first.
pub open spec fn pulled(c: CPU) -> CPU {
    CPU { sp: c.sp.wrapping_add(1), ..c }
}

/// The byte that a pull returns.
pub open spec fn top(c: CPU) -> u8 {
    c.memory.read(stack_address(c.sp.wrapping_add(1)))
}

/// The power-on state in front of `memory`.
pub open spec fn reset_state(memory: MEM) -> CPU {
    CPU {
        memory,
        pc: 0,
        cycles: 0,
        sp: SP_AT_RESET,
        a: 0,
        x: 0,
        y: 0,
        status: STATUS_AT_RESET,
        interrupt: 0,
        stall: 0,
    }
}

/// A pushed byte is the next one pulled, and the stack pointer comes back.
pub proof fn lemma_stack_round_trip(c: CPU, v: u8)
    ensures
        top(push(c, v)) == v,
        pulled(push(c, v)).sp == c.sp,
{
    assert(stack_address(c.sp.wrapping_sub(1).wrapping_add(1)) == stack_address(c.sp));
}

impl CPU {
    /// This state with status register `s`.
    pub open spec fn with_status(self, s: u8) -> CPU {
        CPU { status: s, ..self }
    }

    /// A processor in its power-on state in front of `memory`.
    pub fn new(memory: MEM) -> (r: CPU)
        ensures
            r == reset_state(memory),
    {
        CPU {
            memory,
            pc: 0,
            cycles: 0,
            sp: SP_AT_RESET,
            a: 0,
            x: 0,
            y: 0,
            status: STATUS_AT_RESET,
            interrupt: 0,
            stall: 0,
        }
    }

    /// A processor in its power-on state with cleared RAM and no cartridge.
    pub fn new_empty() -> (r: CPU)
        ensures
            r == reset_state(r.memory),
            r.memory.ram_cleared(),
            r.memory.cart == Mapper::Empty(EMPTY_MAP),
            r.memory.ppu == 0 && r.memory.apu == 0 && r.memory.input == 0,
    {
        CPU::new(MEM::new_empty())
    }

    /// Replaces the memory.
    pub fn new_memory(&mut self, mem: MEM)
        ensures
            *final(self) == (CPU { memory: mem, ..*old(self) }),
    {
        self.memory = mem;
    }

    /// Sets bit `status_num` of the status register to `val`.
    pub fn set_status(&mut self, status_num: u8, val: bool)
        requires
            status_num < 8,
        ensures
            *final(self) == old(self).with_status(with_flag(old(self).status, status_num, val)),
    {
        self.status = if val {
            self.status | (1u8 << status_num)
        } else {
            self.status & !(1u8 << status_num)
        };
    }

    /// Sets the flag `flag` to `val`.
    pub fn set_status_old(&mut self, flag: Flag, val: bool)
        ensures
            *final(self) == old(self).with_status(with_flag(old(self).status, flag.spec_bit(), val)),
    {
        let bit = flag.bit();
        self.set_status(bit, val);
    }

    /// Whether the flag `flag` is set.
    pub fn get_status(&self, flag: Flag) -> (r: bool)
        ensures
            r == is_set(self.status, flag.spec_bit()),
    {
        let bit = flag.bit();
        self.status & (1u8 << bit) != 0
    }

    /// Sets Zero iff `val == 0` and Negative iff bit 7 of `val` is set; no
    /// other bit of the status changes.
    pub fn set_zn(&mut self, val: u8)
        ensures
            *final(self) == old(self).with_status(zn(old(self).status, val)),
            is_set(final(self).status, ZERO) == (val == 0),
            is_set(final(self).status, NEGATIVE) == (val & 0x80 != 0),
            forall|i: u8| #![auto]
                i < 8 && i != ZERO && i != NEGATIVE ==> is_set(final(self).status, i) == is_set(old(self).status, i),
    {
        proof {
            lemma_zn(self.status, val);
        }
        self.status = (self.status & 0x7D) | (if val == 0 {
            0x02u8
        } else {
            0u8
        }) | (val & 0x80);
    }

    /// Writes `val` to the slot that `sp` designates, then decrements `sp`.
    pub fn stack_push(&mut self, val: u8)
        ensures
            *final(self) == push(*old(self), val),
    {
        self.memory.mem_stack_push(self.sp, val);
        self.sp = self.sp.wrapping_sub(1);
    }

    /// Increments `sp`, then reads the slot it designates.
    pub fn stack_pop(&mut self) -> (r: u8)
        ensures
            r == top(*old(self)),
            *final(self) == pulled(*old(self)),
    {
        self.sp = self.sp.wrapping_add(1);
        self.memory.mem_stack_pop(self.sp)
    }
}

} // verus!
