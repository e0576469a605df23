//! Instruction semantics. Each instruction is stated as a function from the
//! processor before to the processor after; the methods on `CPU` carry them
//! out. Decimal mode is never honoured: arithmetic is always binary.
use vstd::prelude::*;
use crate::addressing::{AddressingMode, ImmediateAM};
use crate::cpu::{CPU, push, pulled, top, lo, hi, word};
use crate::memory::is_mapped;
use crate::status::{
    is_set, with_flag, zn, lemma_with_flag, lemma_zn, Flag, CARRY, ZERO, INTERRUPT, DECIMAL, OVERFLOW, NEGATIVE,
};

verus! {

/// Where the interrupt vector used by BRK is stored (low byte first).
pub const IRQ_VECTOR: u16 = 0xFFFE;

/// The processor with `m` loaded into the accumulator.
pub open spec fn load_a(c: CPU, m: u8) -> CPU {
    CPU { a: m, status: zn(c.status, m), ..c }
}

/// The processor with `m` loaded into X.
pub open spec fn load_x(c: CPU, m: u8) -> CPU {
    CPU { x: m, status: zn(c.status, m), ..c }
}

/// The processor with `m` loaded into Y.
pub open spec fn load_y(c: CPU, m: u8) -> CPU {
    CPU { y: m, status: zn(c.status, m), ..c }
}

/// The carry as a number, 0 or 1.
pub open spec fn carry_in(c: CPU) -> int {
    if is_set(c.status, CARRY) {
        1
    } else {
        0
    }
}

/// `A + m + Carry`, as an unbounded number.
pub open spec fn adc_sum(c: CPU, m: u8) -> int {
    c.a as int + m as int + carry_in(c)
}

/// Add with carry: `A' = (A + m + C) mod 256`, Carry when the sum exceeds
/// 255, Overflow when both inputs share a sign that the result lacks.
pub open spec fn adc(c: CPU, m: u8) -> CPU {
    let sum = adc_sum(c, m);
    let r = (if sum > 255 {
        sum - 256
    } else {
        sum
    }) as u8;
    let v = (!(c.a ^ m) & (c.a ^ r) & 0x80) != 0;
    CPU { a: r, status: zn(with_flag(with_flag(c.status, CARRY, sum > 255), OVERFLOW, v), r), ..c }
}

/// Subtract with borrow: add with carry of the one's complement.
pub open spec fn sbc(c: CPU, m: u8) -> CPU {
    adc(c, m ^ 0xFF)
}

/// Subtraction is addition of the one's complement, flags included, whatever
/// the carry going in.
pub proof fn lemma_sbc_is_adc_of_complement(c: CPU, m: u8)
    ensures
        sbc(c, m) == adc(c, m ^ 0xFF),
{
}

/// With Carry set (no borrow pending), SBC leaves `A - m` modulo 256 in the
/// accumulator and sets Carry exactly when no borrow occurs, that is when
/// `m <= A`.
pub proof fn lemma_sbc_subtracts(c: CPU, m: u8)
    requires
        is_set(c.status, CARRY),
    ensures
        sbc(c, m).a as int == (c.a as int - m as int + 256) % 256,
        is_set(sbc(c, m).status, CARRY) == (m <= c.a),
{
    let n = m ^ 0xFF;
    assert(n == 255 - m) by (bit_vector)
        requires
            n == m ^ 0xFF,
    ;
    let sum = adc_sum(c, n);
    assert(sum == c.a as int - m as int + 256);
    let r = (if sum > 255 {
        sum - 256
    } else {
        sum
    }) as u8;
    let v = (!(c.a ^ n) & (c.a ^ r) & 0x80) != 0;
    let s1 = with_flag(c.status, CARRY, sum > 255);
    let s2 = with_flag(s1, OVERFLOW, v);
    lemma_with_flag(c.status, CARRY, sum > 255, CARRY);
    lemma_with_flag(s1, OVERFLOW, v, CARRY);
    lemma_zn(s2, r);
}

/// The processor after a shift or rotate that writes `r` to the operand and
/// moves `carry` into Carry.
pub open spec fn shifted<AM: AddressingMode>(c: CPU, am: AM, r: u8, carry: bool) -> CPU {
    let c1 = am.stored(c, r);
    c1.with_status(zn(with_flag(c1.status, CARRY, carry), r))
}

/// The processor after a read-modify-write that writes `r` to the operand.
pub open spec fn modified<AM: AddressingMode>(c: CPU, am: AM, r: u8) -> CPU {
    let c1 = am.stored(c, r);
    c1.with_status(zn(c1.status, r))
}

pub open spec fn asl<AM: AddressingMode>(c: CPU, am: AM) -> CPU {
    let m = am.operand(c);
    shifted(c, am, m << 1u8, m & 0x80 != 0)
}

pub open spec fn lsr<AM: AddressingMode>(c: CPU, am: AM) -> CPU {
    let m = am.operand(c);
    shifted(c, am, m >> 1u8, m & 0x01 != 0)
}

pub open spec fn rol<AM: AddressingMode>(c: CPU, am: AM) -> CPU {
    let m = am.operand(c);
    let low: u8 = if is_set(c.status, CARRY) {
        0x01
    } else {
        0x00
    };
    shifted(c, am, (m << 1u8) | low, m & 0x80 != 0)
}

pub open spec fn ror<AM: AddressingMode>(c: CPU, am: AM) -> CPU {
    let m = am.operand(c);
    let high: u8 = if is_set(c.status, CARRY) {
        0x80
    } else {
        0x00
    };
    shifted(c, am, (m >> 1u8) | high, m & 0x01 != 0)
}

/// Compare `reg` with `m`: Carry when `m <= reg`, Zero when equal, Negative
/// from bit 7 of `reg - m`.
pub open spec fn compare(c: CPU, reg: u8, m: u8) -> CPU {
    c.with_status(with_flag(zn(c.status, reg.wrapping_sub(m)), CARRY, m <= reg))
}

/// BIT: Negative and Overflow from bits 7 and 6 of `m`, Zero when `A & m == 0`.
pub open spec fn bit_test(c: CPU, m: u8) -> CPU {
    c.with_status(
        with_flag(
            with_flag(with_flag(c.status, NEGATIVE, m & 0x80 != 0), OVERFLOW, m & 0x40 != 0),
            ZERO,
            m & c.a == 0,
        ),
    )
}

/// Where a branch by offset byte `off`, read as two's complement, lands from `pc`.
pub open spec fn branch_target(pc: u16, off: u8) -> u16 {
    if off < 128 {
        pc.wrapping_add(off as u16)
    } else {
        pc.wrapping_sub((256 - off) as u16)
    }
}

/// The offset byte of a branch read as a two's-complement number.
pub open spec fn signed_offset(off: u8) -> int {
    if off < 128 {
        off as int
    } else {
        off as int - 256
    }
}

/// A branch moves `pc` by its offset byte read as a signed number in
/// `-128..=127`, modulo 65536.
pub proof fn lemma_branch_is_signed(pc: u16, off: u8)
    ensures
        branch_target(pc, off) as int == (pc as int + signed_offset(off)) % 65536,
{
}

/// The processor after a branch that is taken when `cond` holds.
pub open spec fn branch_if(c: CPU, cond: bool, off: u8) -> CPU {
    if cond {
        CPU { pc: branch_target(c.pc, off), ..c }
    } else {
        c
    }
}

/// JSR at `c.pc` to `target`: the address of its last byte goes on the
/// stack, high byte first.
pub open spec fn jsr(c: CPU, target: u16) -> CPU {
    let ret = c.pc.wrapping_add(2);
    CPU { pc: target, ..push(push(c, hi(ret)), lo(ret)) }
}

/// RTS: pull the low then the high byte, and go one past that address.
pub open spec fn rts(c: CPU) -> CPU {
    let c1 = pulled(c);
    let c2 = pulled(c1);
    CPU { pc: word(top(c), top(c1)).wrapping_add(1), ..c2 }
}

/// Where an indirect jump through pointer `p` reads the target's high byte:
/// the next address within the same page, as the hardware does.
pub open spec fn indirect_high(p: u16) -> u16 {
    (p & 0xFF00) | (lo(p).wrapping_add(1) as u16)
}

/// The indirect-jump quirk: the target's high byte is read from the same
/// page as the pointer, at the next low byte modulo 256.
pub proof fn lemma_indirect_high_same_page(p: u16)
    ensures
        hi(indirect_high(p)) == hi(p),
        lo(indirect_high(p)) == lo(p).wrapping_add(1),
{
    let x = lo(p).wrapping_add(1);
    assert((((p & 0xFF00) | (x as u16)) >> 8u16) as u8 == (p >> 8u16) as u8) by (bit_vector);
    assert((((p & 0xFF00) | (x as u16)) & 0xFF) as u8 == x) by (bit_vector);
}

/// The target of an indirect jump through pointer `p`.
pub open spec fn jmp_target(c: CPU, p: u16) -> u16 {
    word(c.memory.read(p), c.memory.read(indirect_high(p)))
}

/// BRK at `c.pc`: push the address past its padding byte, then the status
/// with Break set; disable interrupts and go through the interrupt vector.
pub open spec fn brk(c: CPU) -> CPU {
    let ret = c.pc.wrapping_add(2);
    let c1 = push(push(push(c, hi(ret)), lo(ret)), c.status | 0x10);
    CPU {
        pc: word(c1.memory.read(IRQ_VECTOR), c1.memory.read((IRQ_VECTOR + 1) as u16)),
        status: with_flag(c.status, INTERRUPT, true),
        ..c1
    }
}

/// RTI: pull the status, then the program counter low byte first. Bits 4
/// (Break) and 5 of the pulled byte are ignored: the register keeps its own.
pub open spec fn rti(c: CPU) -> CPU {
    let c1 = pulled(c);
    let c2 = pulled(c1);
    let c3 = pulled(c2);
    CPU { status: (top(c) & 0xCF) | (c.status & 0x30), pc: word(top(c1), top(c2)), ..c3 }
}

/// PLA: pull into the accumulator.
pub open spec fn pla(c: CPU) -> CPU {
    CPU { a: top(c), status: zn(c.status, top(c)), ..pulled(c) }
}

/// PLP: pull into the status register.
pub open spec fn plp(c: CPU) -> CPU {
    pulled(c).with_status(top(c))
}

#[allow(non_snake_case)]
impl CPU {
    /// CLC: clear Carry.
    pub fn CLC(&mut self)
        ensures
            *final(self) == old(self).with_status(with_flag(old(self).status, CARRY, false)),
    {
        self.set_status(CARRY, false);
    }

    /// CLD: clear Decimal.
    pub fn CLD(&mut self)
        ensures
            *final(self) == old(self).with_status(with_flag(old(self).status, DECIMAL, false)),
    {
        self.set_status(DECIMAL, false);
    }

    /// CLI: clear Interrupt-disable.
    pub fn CLI(&mut self)
        ensures
            *final(self) == old(self).with_status(with_flag(old(self).status, INTERRUPT, false)),
    {
        self.set_status(INTERRUPT, false);
    }

    /// CLV: clear Overflow.
    pub fn CLV(&mut self)
        ensures
            *final(self) == old(self).with_status(with_flag(old(self).status, OVERFLOW, false)),
    {
        self.set_status(OVERFLOW, false);
    }

    /// SEC: set Carry.
    pub fn SEC(&mut self)
        ensures
            *final(self) == old(self).with_status(with_flag(old(self).status, CARRY, true)),
    {
        self.set_status(CARRY, true);
    }

    /// SED: set Decimal.
    pub fn SED(&mut self)
        ensures
            *final(self) == old(self).with_status(with_flag(old(self).status, DECIMAL, true)),
    {
        self.set_status(DECIMAL, true);
    }

    /// SEI: set Interrupt-disable.
    pub fn SEI(&mut self)
        ensures
            *final(self) == old(self).with_status(with_flag(old(self).status, INTERRUPT, true)),
    {
        self.set_status(INTERRUPT, true);
    }

    /// LDA: load the accumulator.
    pub fn LDA<AM: AddressingMode>(&mut self, am: AM)
        requires
            am.readable(*old(self)),
        ensures
            *final(self) == load_a(*old(self), am.operand(*old(self))),
    {
        self.a = am.load(self);
        let a = self.a;
        self.set_zn(a);
    }

    /// LDX: load X.
    pub fn LDX<AM: AddressingMode>(&mut self, am: AM)
        requires
            am.readable(*old(self)),
        ensures
            *final(self) == load_x(*old(self), am.operand(*old(self))),
    {
        self.x = am.load(self);
        let x = self.x;
        self.set_zn(x);
    }

    /// LDY: load Y.
    pub fn LDY<AM: AddressingMode>(&mut self, am: AM)
        requires
            am.readable(*old(self)),
        ensures
            *final(self) == load_y(*old(self), am.operand(*old(self))),
    {
        self.y = am.load(self);
        let y = self.y;
        self.set_zn(y);
    }

    /// ADC: add with carry, in binary whatever Decimal says.
    pub fn ADC<AM: AddressingMode>(&mut self, am: AM)
        requires
            am.readable(*old(self)),
        ensures
            *final(self) == adc(*old(self), am.operand(*old(self))),
    {
        let m = am.load(self);
        let a = self.a;
        let c: u16 = if self.get_status(Flag::Carry) {
            1
        } else {
            0
        };
        let sum: u16 = a as u16 + m as u16 + c;
        let r: u8 = if sum > 255 {
            (sum - 256) as u8
        } else {
            sum as u8
        };
        let v = (!(a ^ m) & (a ^ r) & 0x80) != 0;
        self.set_status(CARRY, sum > 255);
        self.set_status(OVERFLOW, v);
        self.a = r;
        self.set_zn(r);
    }

    /// SBC: subtract with borrow; Carry set going in means no borrow.
    pub fn SBC<AM: AddressingMode>(&mut self, am: AM)
        requires
            am.readable(*old(self)),
        ensures
            *final(self) == sbc(*old(self), am.operand(*old(self))),
    {
        let b = am.load(self);
        self.ADC(ImmediateAM { address: b ^ 0xFF });
    }

    /// AND: accumulator AND operand.
    pub fn AND<AM: AddressingMode>(&mut self, am: AM)
        requires
            am.readable(*old(self)),
        ensures
            *final(self) == load_a(*old(self), old(self).a & am.operand(*old(self))),
    {
        let a = self.a;
        let b = am.load(self);
        self.LDA(ImmediateAM { address: a & b });
    }

    /// ORA: accumulator OR operand.
    pub fn ORA<AM: AddressingMode>(&mut self, am: AM)
        requires
            am.readable(*old(self)),
        ensures
            *final(self) == load_a(*old(self), old(self).a | am.operand(*old(self))),
    {
        let a = self.a;
        let b = am.load(self);
        self.LDA(ImmediateAM { address: a | b });
    }

    /// EOR: accumulator XOR operand.
    pub fn EOR<AM: AddressingMode>(&mut self, am: AM)
        requires
            am.readable(*old(self)),
        ensures
            *final(self) == load_a(*old(self), old(self).a ^ am.operand(*old(self))),
    {
        let a = self.a;
        let b = am.load(self);
        self.LDA(ImmediateAM { address: a ^ b });
    }

    /// ASL: shift left; bit 7 goes to Carry, 0 comes in.
    pub fn ASL<AM: AddressingMode>(&mut self, am: AM)
        requires
            am.readable(*old(self)),
            am.writable(*old(self)),
        ensures
            *final(self) == asl(*old(self), am),
    {
        let b = am.load(self);
        let r = b << 1u8;
        am.save(self, r);
        self.set_status(CARRY, b & 0x80 != 0);
        self.set_zn(r);
    }

    /// LSR: shift right; bit 0 goes to Carry, 0 comes in.
    pub fn LSR<AM: AddressingMode>(&mut self, am: AM)
        requires
            am.readable(*old(self)),
            am.writable(*old(self)),
        ensures
            *final(self) == lsr(*old(self), am),
    {
        let b = am.load(self);
        let r = b >> 1u8;
        am.save(self, r);
        self.set_status(CARRY, b & 0x01 != 0);
        self.set_zn(r);
    }

    /// ROL: rotate left through Carry.
    pub fn ROL<AM: AddressingMode>(&mut self, am: AM)
        requires
            am.readable(*old(self)),
            am.writable(*old(self)),
        ensures
            *final(self) == rol(*old(self), am),
    {
        let b = am.load(self);
        let low: u8 = if self.get_status(Flag::Carry) {
            0x01
        } else {
            0x00
        };
        let r = (b << 1u8) | low;
        am.save(self, r);
        self.set_status(CARRY, b & 0x80 != 0);
        self.set_zn(r);
    }

    /// ROR: rotate right through Carry.
    pub fn ROR<AM: AddressingMode>(&mut self, am: AM)
        requires
            am.readable(*old(self)),
            am.writable(*old(self)),
        ensures
            *final(self) == ror(*old(self), am),
    {
        let b = am.load(self);
        let high: u8 = if self.get_status(Flag::Carry) {
            0x80
        } else {
            0x00
        };
        let r = (b >> 1u8) | high;
        am.save(self, r);
        self.set_status(CARRY, b & 0x01 != 0);
        self.set_zn(r);
    }

    /// DEC: decrement the operand (wrapping).
    pub fn DEC<AM: AddressingMode>(&mut self, am: AM)
        requires
            am.readable(*old(self)),
            am.writable(*old(self)),
        ensures
            *final(self) == modified(*old(self), am, am.operand(*old(self)).wrapping_sub(1)),
    {
        let r = am.load(self).wrapping_sub(1);
        am.save(self, r);
        self.set_zn(r);
    }

    /// DEX: decrement X (wrapping).
    pub fn DEX(&mut self)
        ensures
            *final(self) == load_x(*old(self), old(self).x.wrapping_sub(1)),
    {
        let r = self.x.wrapping_sub(1);
        self.x = r;
        self.set_zn(r);
    }

    /// DEY: decrement Y (wrapping).
    pub fn DEY(&mut self)
        ensures
            *final(self) == load_y(*old(self), old(self).y.wrapping_sub(1)),
    {
        let r = self.y.wrapping_sub(1);
        self.y = r;
        self.set_zn(r);
    }

    /// INC: increment the operand (wrapping).
    pub fn INC<AM: AddressingMode>(&mut self, am: AM)
        requires
            am.readable(*old(self)),
            am.writable(*old(self)),
        ensures
            *final(self) == modified(*old(self), am, am.operand(*old(self)).wrapping_add(1)),
    {
        let r = am.load(self).wrapping_add(1);
        am.save(self, r);
        self.set_zn(r);
    }

    /// INX: increment X (wrapping).
    pub fn INX(&mut self)
        ensures
            *final(self) == load_x(*old(self), old(self).x.wrapping_add(1)),
    {
        let r = self.x.wrapping_add(1);
        self.x = r;
        self.set_zn(r);
    }

    /// INY: increment Y (wrapping).
    pub fn INY(&mut self)
        ensures
            *final(self) == load_y(*old(self), old(self).y.wrapping_add(1)),
    {
        let r = self.y.wrapping_add(1);
        self.y = r;
        self.set_zn(r);
    }

    /// STA: store the accumulator.
    pub fn STA<AM: AddressingMode>(&mut self, am: AM)
        requires
            am.writable(*old(self)),
        ensures
            *final(self) == am.stored(*old(self), old(self).a),
    {
        let a = self.a;
        am.save(self, a);
    }

    /// STX: store X.
    pub fn STX<AM: AddressingMode>(&mut self, am: AM)
        requires
            am.writable(*old(self)),
        ensures
            *final(self) == am.stored(*old(self), old(self).x),
    {
        let x = self.x;
        am.save(self, x);
    }

    /// STY: store Y.
    pub fn STY<AM: AddressingMode>(&mut self, am: AM)
        requires
            am.writable(*old(self)),
        ensures
            *final(self) == am.stored(*old(self), old(self).y),
    {
        let y = self.y;
        am.save(self, y);
    }

    /// TAX: copy the accumulator to X.
    pub fn TAX(&mut self)
        ensures
            *final(self) == load_x(*old(self), old(self).a),
    {
        let a = self.a;
        self.x = a;
        self.set_zn(a);
    }

    /// TAY: copy the accumulator to Y.
    pub fn TAY(&mut self)
        ensures
            *final(self) == load_y(*old(self), old(self).a),
    {
        let a = self.a;
        self.y = a;
        self.set_zn(a);
    }

    /// TXA: copy X to the accumulator.
    pub fn TXA(&mut self)
        ensures
            *final(self) == load_a(*old(self), old(self).x),
    {
        let x = self.x;
        self.a = x;
        self.set_zn(x);
    }

    /// TYA: copy Y to the accumulator.
    pub fn TYA(&mut self)
        ensures
            *final(self) == load_a(*old(self), old(self).y),
    {
        let y = self.y;
        self.a = y;
        self.set_zn(y);
    }

    /// TXS: copy X to the stack pointer; no flag changes.
    pub fn TXS(&mut self)
        ensures
            *final(self) == (CPU { sp: old(self).x, ..*old(self) }),
    {
        self.sp = self.x;
    }

    /// TSX: copy the stack pointer to X.
    pub fn TSX(&mut self)
        ensures
            *final(self) == load_x(*old(self), old(self).sp),
    {
        let sp = self.sp;
        self.x = sp;
        self.set_zn(sp);
    }

    /// BIT: test accumulator bits against the operand; the accumulator is kept.
    pub fn BIT<AM: AddressingMode>(&mut self, am: AM)
        requires
            am.readable(*old(self)),
        ensures
            *final(self) == bit_test(*old(self), am.operand(*old(self))),
    {
        let m = am.load(self);
        let a = self.a;
        self.set_status(NEGATIVE, m & 0x80 != 0);
        self.set_status(OVERFLOW, m & 0x40 != 0);
        self.set_status(ZERO, m & a == 0);
    }

    /// NOP: no operation.
    pub fn NOP(&self) {
    }

    /// BRK, with `pc` at the BRK opcode.
    pub fn BRK(&mut self)
        ensures
            *final(self) == brk(*old(self)),
    {
        let ret = self.pc.wrapping_add(2);
        let p = self.status | 0x10;
        self.stack_push((ret >> 8u16) as u8);
        self.stack_push((ret & 0xFF) as u8);
        self.stack_push(p);
        self.set_status(INTERRUPT, true);
        let low = self.memory.get(IRQ_VECTOR);
        let high = self.memory.get(IRQ_VECTOR + 1);
        self.pc = ((high as u16) << 8u16) | (low as u16);
    }

    /// RTI: return from an interrupt.
    pub fn RTI(&mut self)
        ensures
            *final(self) == rti(*old(self)),
    {
        let kept = self.status & 0x30;
        let p = self.stack_pop();
        let low = self.stack_pop();
        let high = self.stack_pop();
        self.status = (p & 0xCF) | kept;
        self.pc = ((high as u16) << 8u16) | (low as u16);
    }

    /// PHA: push the accumulator.
    pub fn PHA(&mut self)
        ensures
            *final(self) == push(*old(self), old(self).a),
    {
        let a = self.a;
        self.stack_push(a);
    }

    /// PLA: pull the accumulator.
    pub fn PLA(&mut self)
        ensures
            *final(self) == pla(*old(self)),
    {
        let a = self.stack_pop();
        self.a = a;
        self.set_zn(a);
    }

    /// PHP: push the status unchanged.
    pub fn PHP(&mut self)
        ensures
            *final(self) == push(*old(self), old(self).status),
    {
        let p = self.status;
        self.stack_push(p);
    }

    /// PLP: pull the status.
    pub fn PLP(&mut self)
        ensures
            *final(self) == plp(*old(self)),
    {
        let p = self.stack_pop();
        self.status = p;
    }

    /// RTS: return from a subroutine.
    pub fn RTS(&mut self)
        ensures
            *final(self) == rts(*old(self)),
    {
        let low = self.stack_pop();
        let high = self.stack_pop();
        self.pc = (((high as u16) << 8u16) | (low as u16)).wrapping_add(1);
    }

    /// CMP: compare the accumulator with the operand.
    pub fn CMP<AM: AddressingMode>(&mut self, am: AM)
        requires
            am.readable(*old(self)),
        ensures
            *final(self) == compare(*old(self), old(self).a, am.operand(*old(self))),
    {
        let m = am.load(self);
        let a = self.a;
        self.compare_with(a, m);
    }

    /// CPX: compare X with the operand.
    pub fn CPX<AM: AddressingMode>(&mut self, am: AM)
        requires
            am.readable(*old(self)),
        ensures
            *final(self) == compare(*old(self), old(self).x, am.operand(*old(self))),
    {
        let m = am.load(self);
        let x = self.x;
        self.compare_with(x, m);
    }

    /// CPY: compare Y with the operand.
    pub fn CPY<AM: AddressingMode>(&mut self, am: AM)
        requires
            am.readable(*old(self)),
        ensures
            *final(self) == compare(*old(self), old(self).y, am.operand(*old(self))),
    {
        let m = am.load(self);
        let y = self.y;
        self.compare_with(y, m);
    }

    fn compare_with(&mut self, reg: u8, m: u8)
        ensures
            *final(self) == compare(*old(self), reg, m),
    {
        self.set_zn(reg.wrapping_sub(m));
        self.set_status(CARRY, m <= reg);
    }

    /// JSR, with `pc` at the JSR opcode: push the address of its last byte,
    /// then jump to the operand's address.
    pub fn JSR<AM: AddressingMode>(&mut self, am: AM)
        ensures
            *final(self) == jsr(*old(self), am.spec_address()),
    {
        let target = am.address();
        let ret = self.pc.wrapping_add(2);
        self.stack_push((ret >> 8u16) as u8);
        self.stack_push((ret & 0xFF) as u8);
        self.pc = target;
    }

    /// Indirect JMP through the pointer at the operand's address. The high
    /// byte of the target comes from the same page as the low byte.
    pub fn JMP<AM: AddressingMode>(&mut self, am: AM)
        requires
            is_mapped(am.spec_address()),
            is_mapped(indirect_high(am.spec_address())),
        ensures
            *final(self) == (CPU { pc: jmp_target(*old(self), am.spec_address()), ..*old(self) }),
    {
        let p = am.address();
        let low = self.memory.get(p);
        let q = (p & 0xFF00) | (((p & 0xFF) as u8).wrapping_add(1) as u16);
        let high = self.memory.get(q);
        self.pc = ((high as u16) << 8u16) | (low as u16);
    }

    /// Moves `pc` by `offset` read as a two's-complement byte.
    pub fn branch_base(&mut self, offset: u8)
        ensures
            *final(self) == (CPU { pc: branch_target(old(self).pc, offset), ..*old(self) }),
    {
        if offset < 128 {
            self.pc = self.pc.wrapping_add(offset as u16);
        } else {
            self.pc = self.pc.wrapping_sub(256u16 - offset as u16);
        }
    }

    fn branch_when<AM: AddressingMode>(&mut self, am: AM, cond: bool)
        requires
            am.readable(*old(self)),
        ensures
            *final(self) == branch_if(*old(self), cond, am.operand(*old(self))),
    {
        let offset = am.load(self);
        if cond {
            self.branch_base(offset);
        }
    }

    /// BCC: branch when Carry is clear.
    pub fn BCC<AM: AddressingMode>(&mut self, am: AM)
        requires
            am.readable(*old(self)),
        ensures
            *final(self) == branch_if(
                *old(self),
                !is_set(old(self).status, CARRY),
                am.operand(*old(self)),
            ),
    {
        let c = self.get_status(Flag::Carry);
        self.branch_when(am, !c);
    }

    /// BCS: branch when Carry is set.
    pub fn BCS<AM: AddressingMode>(&mut self, am: AM)
        requires
            am.readable(*old(self)),
        ensures
            *final(self) == branch_if(*old(self), is_set(old(self).status, CARRY), am.operand(*old(self))),
    {
        let c = self.get_status(Flag::Carry);
        self.branch_when(am, c);
    }

    /// BEQ: branch when Zero is set.
    pub fn BEQ<AM: AddressingMode>(&mut self, am: AM)
        requires
            am.readable(*old(self)),
        ensures
            *final(self) == branch_if(*old(self), is_set(old(self).status, ZERO), am.operand(*old(self))),
    {
        let z = self.get_status(Flag::Zero);
        self.branch_when(am, z);
    }

    /// BMI: branch when Negative is set.
    pub fn BMI<AM: AddressingMode>(&mut self, am: AM)
        requires
            am.readable(*old(self)),
        ensures
            *final(self) == branch_if(*old(self), is_set(old(self).status, NEGATIVE), am.operand(*old(self))),
    {
        let n = self.get_status(Flag::Negative);
        self.branch_when(am, n);
    }

    /// BNE: branch when Zero is clear.
    pub fn BNE<AM: AddressingMode>(&mut self, am: AM)
        requires
            am.readable(*old(self)),
        ensures
            *final(self) == branch_if(*old(self), !is_set(old(self).status, ZERO), am.operand(*old(self))),
    {
        let z = self.get_status(Flag::Zero);
        self.branch_when(am, !z);
    }

    /// BPL: branch when Negative is clear.
    pub fn BPL<AM: AddressingMode>(&mut self, am: AM)
        requires
            am.readable(*old(self)),
        ensures
            *final(self) == branch_if(*old(self), !is_set(old(self).status, NEGATIVE), am.operand(*old(self))),
    {
        let n = self.get_status(Flag::Negative);
        self.branch_when(am, !n);
    }

    /// BVC: branch when Overflow is clear.
    pub fn BVC<AM: AddressingMode>(&mut self, am: AM)
        requires
            am.readable(*old(self)),
        ensures
            *final(self) == branch_if(*old(self), !is_set(old(self).status, OVERFLOW), am.operand(*old(self))),
    {
        let v = self.get_status(Flag::Overflow);
        self.branch_when(am, !v);
    }

    /// BVS: branch when Overflow is set.
    pub fn BVS<AM: AddressingMode>(&mut self, am: AM)
        requires
            am.readable(*old(self)),
        ensures
            *final(self) == branch_if(*old(self), is_set(old(self).status, OVERFLOW), am.operand(*old(self))),
    {
        let v = self.get_status(Flag::Overflow);
        self.branch_when(am, v);
    }
}

} // verus!
