use nes_core::{
    AbsoluteXAM, AddressingMode, CartError, CpuError, Flag, ImmediateAM, IndexedIndirectAM,
    Instructions, Mapper, Mode, Op, CART, CPU, MAP, NES, mapper_num, new_map,
};

fn flags(cpu: &CPU) -> [bool; 8] {
    [
        cpu.get_status(Flag::Carry),
        cpu.get_status(Flag::Zero),
        cpu.get_status(Flag::Interrupt),
        cpu.get_status(Flag::Decimal),
        cpu.get_status(Flag::Break),
        cpu.get_status(Flag::Unused),
        cpu.get_status(Flag::Overflow),
        cpu.get_status(Flag::Negative),
    ]
}

#[test]
fn set_zn_touches_only_zero_and_negative() {
    for v in 0..=255u8 {
        for s in [0x00u8, 0xFF, 0x5A, 0xA5] {
            let mut cpu = CPU::new_empty();
            cpu.status = s;
            cpu.set_zn(v);
            assert_eq!(cpu.get_status(Flag::Zero), v == 0);
            assert_eq!(cpu.get_status(Flag::Negative), v & 0x80 != 0);
            assert_eq!(cpu.status & 0x7D, s & 0x7D);
        }
    }
}

#[test]
fn sbc_is_adc_of_complement() {
    for a in [0u8, 1, 0x7F, 0x80, 0xFF, 0x42] {
        for b in [0u8, 1, 0x7F, 0x80, 0xFF, 0x13] {
            let mut x = CPU::new_empty();
            x.a = a;
            x.SEC();
            x.SBC(ImmediateAM { address: b });
            let mut y = CPU::new_empty();
            y.a = a;
            y.SEC();
            y.ADC(ImmediateAM { address: b ^ 0xFF });
            assert_eq!(x.a, y.a);
            assert_eq!(x.status, y.status);
            assert_eq!(x.a, a.wrapping_sub(b));
            assert_eq!(x.get_status(Flag::Carry), a >= b);
        }
    }
}

#[test]
fn stack_round_trip() {
    for v in [0u8, 0x7F, 0xFF] {
        for sp in [0xFFu8, 0x80, 0x00] {
            let mut cpu = CPU::new_empty();
            cpu.sp = sp;
            cpu.stack_push(v);
            assert_eq!(cpu.stack_pop(), v);
            assert_eq!(cpu.sp, sp);
        }
    }
}

#[test]
fn branch_backwards_by_128() {
    let mut cpu = CPU::new_empty();
    cpu.pc = 0x4020;
    cpu.branch_base(0x80);
    assert_eq!(cpu.pc, 0x3FA0);
    cpu.pc = 0x4020;
    cpu.branch_base(0xFF);
    assert_eq!(cpu.pc, 0x401F);
    cpu.pc = 0x4020;
    cpu.branch_base(0x7F);
    assert_eq!(cpu.pc, 0x409F);
}

#[test]
fn indexed_indirect_reads_pointer_target() {
    let mut cpu = CPU::new_empty();
    cpu.x = 0;
    cpu.memory.set(0xA5, 0x01);
    cpu.memory.set(0xA6, 0x00);
    cpu.memory.set(0x0001, 0x77);
    assert_eq!(IndexedIndirectAM { address: 0xA5 }.load(&cpu), 0x77);
}

#[test]
fn indexed_indirect_pointer_wraps_in_zero_page() {
    let mut cpu = CPU::new_empty();
    cpu.x = 0x01;
    cpu.memory.set(0xFF, 0x34);
    cpu.memory.set(0x00, 0x02);
    cpu.memory.set(0x0100, 0x99);
    cpu.memory.set(0x0234, 0x66);
    assert_eq!(IndexedIndirectAM { address: 0xFE }.load(&cpu), 0x66);
}

#[test]
fn adc_signed_overflow() {
    let mut cpu = CPU::new_empty();
    cpu.a = 126;
    cpu.CLC();
    cpu.ADC(ImmediateAM { address: 5 });
    assert_eq!(cpu.a, 131);
    assert_eq!(cpu.get_status(Flag::Carry), false);
    assert_eq!(cpu.get_status(Flag::Overflow), true);
    assert_eq!(cpu.get_status(Flag::Negative), true);
    assert_eq!(cpu.get_status(Flag::Zero), false);
}

#[test]
fn adc_carry_in_and_zero_result() {
    let mut cpu = CPU::new_empty();
    cpu.a = 0xFF;
    cpu.SEC();
    cpu.ADC(ImmediateAM { address: 0x00 });
    assert_eq!(cpu.a, 0x00);
    assert_eq!(cpu.get_status(Flag::Carry), true);
    assert_eq!(cpu.get_status(Flag::Zero), true);
    assert_eq!(cpu.get_status(Flag::Overflow), false);
}

#[test]
fn indirect_jump_wraps_within_page() {
    let mut cpu = CPU::new_empty();
    cpu.memory.set(0x02FF, 0x01);
    cpu.memory.set(0x0200, 0x80);
    cpu.memory.set(0x0300, 0x40);
    cpu.JMP(nes_core::AbsoluteAM { address: 0x02FF });
    assert_eq!(cpu.pc, 0x8001);
}

#[test]
fn set_status_leaves_other_bits() {
    let mut cpu = CPU::new_empty();
    cpu.status = 0b1010_1010;
    cpu.set_status(0, true);
    assert_eq!(cpu.status, 0b1010_1011);
    cpu.set_status(7, false);
    assert_eq!(cpu.status, 0b0010_1011);
    let before = flags(&cpu);
    cpu.set_status(3, true);
    let after = flags(&cpu);
    for i in 0..8 {
        if i != 3 {
            assert_eq!(before[i], after[i]);
        }
    }
}

#[test]
fn cmp_equal_sets_zero_and_carry() {
    let mut cpu = CPU::new_empty();
    cpu.a = 0x40;
    cpu.CMP(ImmediateAM { address: 0x40 });
    assert!(cpu.get_status(Flag::Zero));
    assert!(cpu.get_status(Flag::Carry));
    assert!(!cpu.get_status(Flag::Negative));
    assert_eq!(cpu.a, 0x40);
}

#[test]
fn absolute_x_wraps_at_64k() {
    let mut cpu = CPU::new_empty();
    cpu.x = 0x02;
    cpu.memory.set(0x0001, 0x3C);
    assert_eq!(AbsoluteXAM { address: 0xFFFF }.load(&cpu), 0x3C);
}

#[test]
fn step_runs_lda_immediate() {
    let mut cpu = CPU::new_empty();
    cpu.memory.set(0x0000, 0xA9);
    cpu.memory.set(0x0001, 0x42);
    assert_eq!(cpu.step(), Ok(()));
    assert_eq!(cpu.a, 0x42);
    assert_eq!(cpu.pc, 0x0002);
    assert_eq!(cpu.cycles, 2);
    assert!(!cpu.get_status(Flag::Zero));
}

#[test]
fn step_charges_page_crossing() {
    let mut cpu = CPU::new_empty();
    // LDA $00FF,X with X = 1 reads $0100: a page is crossed.
    cpu.memory.set(0x0000, 0xBD);
    cpu.memory.set(0x0001, 0xFF);
    cpu.memory.set(0x0002, 0x00);
    cpu.memory.set(0x0100, 0x99);
    cpu.x = 1;
    assert_eq!(cpu.step(), Ok(()));
    assert_eq!(cpu.a, 0x99);
    assert_eq!(cpu.cycles, 5);
    // STA $00FF,X never pays the extra cycle.
    cpu.memory.set(0x0003, 0x9D);
    cpu.memory.set(0x0004, 0xFF);
    cpu.memory.set(0x0005, 0x00);
    assert_eq!(cpu.step(), Ok(()));
    assert_eq!(cpu.cycles, 10);
}

#[test]
fn step_branch_is_relative_to_next_instruction() {
    let mut cpu = CPU::new_empty();
    cpu.pc = 0x0010;
    // BNE -4 with Zero clear: from 0x0012 back to 0x000E.
    cpu.status = 0x20;
    cpu.memory.set(0x0010, 0xD0);
    cpu.memory.set(0x0011, 0xFC);
    assert_eq!(cpu.step(), Ok(()));
    assert_eq!(cpu.pc, 0x000E);
    assert_eq!(cpu.cycles, 2);
}

#[test]
fn step_jsr_rts_round_trip() {
    let mut cpu = CPU::new_empty();
    cpu.pc = 0x0300;
    cpu.memory.set(0x0300, 0x20);
    cpu.memory.set(0x0301, 0x00);
    cpu.memory.set(0x0302, 0x04);
    cpu.memory.set(0x0400, 0x60);
    assert_eq!(cpu.step(), Ok(()));
    assert_eq!(cpu.pc, 0x0400);
    assert_eq!(cpu.memory.get(0x01FF), 0x03);
    assert_eq!(cpu.memory.get(0x01FE), 0x02);
    assert_eq!(cpu.step(), Ok(()));
    assert_eq!(cpu.pc, 0x0303);
    assert_eq!(cpu.cycles, 12);
}

#[test]
fn step_rejects_illegal_opcode() {
    let mut cpu = CPU::new_empty();
    cpu.memory.set(0x0000, 0x02);
    assert_eq!(cpu.step(), Err(CpuError::IllegalOpcode(0x02)));
    assert_eq!(cpu.pc, 0);
    assert_eq!(cpu.cycles, 0);
}

#[test]
fn step_rejects_unmapped_access() {
    let mut cpu = CPU::new_empty();
    cpu.pc = 0x2000;
    assert_eq!(cpu.step(), Err(CpuError::UnmappedAccess));
    cpu.pc = 0;
    // LDA $2000 reads the unmodelled I/O range.
    cpu.memory.set(0x0000, 0xAD);
    cpu.memory.set(0x0001, 0x00);
    cpu.memory.set(0x0002, 0x20);
    assert_eq!(cpu.step(), Err(CpuError::UnmappedAccess));
    assert_eq!(cpu.pc, 0);
    assert_eq!(cpu.a, 0);
}

#[test]
fn step_spends_stall_cycles_first() {
    let mut cpu = CPU::new_empty();
    cpu.stall = 2;
    cpu.memory.set(0x0000, 0xE8);
    assert_eq!(cpu.step(), Ok(()));
    assert_eq!(cpu.stall, 1);
    assert_eq!(cpu.cycles, 1);
    assert_eq!(cpu.pc, 0);
    assert_eq!(cpu.step(), Ok(()));
    assert_eq!(cpu.step(), Ok(()));
    assert_eq!(cpu.x, 1);
    assert_eq!(cpu.cycles, 4);
}

#[test]
fn step_enters_nmi() {
    let mut cpu = CPU::new_empty();
    cpu.pc = 0x1234 & 0x07FF;
    cpu.interrupt = 1;
    assert_eq!(cpu.step(), Ok(()));
    assert_eq!(cpu.interrupt, 0);
    assert_eq!(cpu.sp, 0xFC);
    assert_eq!(cpu.cycles, 7);
    assert!(cpu.get_status(Flag::Interrupt));
    assert_eq!(cpu.memory.get(0x01FF), 0x02);
    assert_eq!(cpu.memory.get(0x01FE), 0x34);
}

#[test]
fn masked_irq_waits() {
    let mut cpu = CPU::new_empty();
    cpu.SEI();
    cpu.interrupt = 2;
    cpu.memory.set(0x0000, 0xEA);
    assert_eq!(cpu.step(), Ok(()));
    assert_eq!(cpu.interrupt, 2);
    assert_eq!(cpu.pc, 1);
}

#[test]
fn instruction_table_layout() {
    let t = Instructions::new();
    assert_eq!(t.sizes.len(), 256);
    assert_eq!(t.names[0xA9], Some(Op::LDA));
    assert_eq!(t.modes[0xA9], Some(Mode::Immediate));
    assert_eq!(t.sizes[0xA9], 2);
    assert_eq!(t.speeds[0xA9], 2);
    assert_eq!(t.paging[0xBD], 1);
    assert_eq!(t.paging[0x9D], 0);
    assert_eq!(t.names[0x02], None);
    assert_eq!(t.sizes[0x02], 0);
    assert_eq!(t.speeds[0x00], 7);
    assert_eq!(t.modes[0x6C], Some(Mode::Indirect));
    assert_eq!(t.names.iter().filter(|n| n.is_some()).count(), 151);
}

fn image(prg_banks: u8, chr_banks: u8, flags6: u8, flags7: u8) -> Vec<u8> {
    let mut d = vec![0x4E, 0x45, 0x53, 0x1A, prg_banks, chr_banks, flags6, flags7];
    d.resize(16, 0);
    if flags6 & 0x04 != 0 {
        d.extend(std::iter::repeat(0xEE).take(512));
    }
    for i in 0..(prg_banks as usize * 16384) {
        d.push((i % 251) as u8);
    }
    for i in 0..(chr_banks as usize * 8192) {
        d.push((i % 13) as u8 + 0x80);
    }
    d
}

#[test]
fn cartridge_reads_sections() {
    let mut cart = CART::new("test.nes");
    let d = image(1, 1, 0x04, 0);
    assert_eq!(cart.load_image(&d), Ok(()));
    assert!(cart.ines_fmt);
    assert!(!cart.nes2_fmt);
    assert_eq!(cart.section_sizes[0], 512);
    assert_eq!(cart.section_sizes[1], 1);
    assert_eq!(cart.section_sizes[2], 1);
    assert_eq!(cart.train[0], 0xEE);
    assert_eq!(cart.prg.len(), 16384);
    assert_eq!(cart.chr.len(), 8192);
    assert_eq!(cart.prg[250], 250);
    assert_eq!(cart.prg[251], 0);
    assert_eq!(cart.chr[13], 0x80);
}

#[test]
fn cartridge_refuses_bad_images() {
    let mut cart = CART::new("test.nes");
    let mut d = image(1, 0, 0, 0);
    d.pop();
    assert_eq!(cart.load_image(&d), Err(CartError::Truncated));
    assert_eq!(cart.load_image(&vec![0x4E, 0x45]), Err(CartError::Truncated));
    let d = image(1, 0, 0, 0x08);
    assert_eq!(cart.load_image(&d), Err(CartError::Nes2Unsupported));
    assert_eq!(cart.prg.len(), 0);
    assert!(!cart.ines_fmt);
}

#[test]
fn cartridge_reads_short_chr() {
    let mut cart = CART::new("test.nes");
    let mut d = image(1, 1, 0, 0);
    d.truncate(16 + 16384 + 100);
    assert_eq!(cart.load_image(&d), Ok(()));
    assert_eq!(cart.prg.len(), 16384);
    assert_eq!(cart.chr.len(), 100);
    assert_eq!(cart.section_sizes[2], 1);
    assert_eq!(cart.chr[13], 0x80);
}

#[test]
fn php_pushes_status_unchanged() {
    let mut cpu = CPU::new_empty();
    cpu.status = 0b1000_0001;
    cpu.PHP();
    assert_eq!(cpu.stack_pop(), 0b1000_0001);
}

#[test]
fn nrom_mirrors_a_single_bank() {
    let mut cart = CART::new("test.nes");
    cart.load_image(&image(1, 0, 0, 0)).unwrap();
    let m = new_map(0, cart);
    assert_eq!(m.get(0x8005), 5);
    assert_eq!(m.get(0xC005), 5);
    assert_eq!(m.get(0x6000), 0);
}

#[test]
fn mmc1_fixes_the_last_bank_high() {
    let mut cart = CART::new("test.nes");
    let mut d = image(2, 0, 0, 0x00);
    d[16 + 16384] = 0xAB;
    cart.load_image(&d).unwrap();
    let m = new_map(1, cart);
    assert_eq!(m.get(0xC000), 0xAB);
    assert_eq!(m.get(0x8000), 0);
    assert!(matches!(m, Mapper::MMC1(_)));
}

#[test]
fn mapper_number_from_header() {
    let mut cart = CART::new("test.nes");
    cart.load_image(&image(1, 0, 0x20, 0x40)).unwrap();
    assert_eq!(mapper_num(&cart), 0x42);
    let mut cart = CART::new("test.nes");
    cart.load_image(&image(1, 0, 0x10, 0)).unwrap();
    assert_eq!(mapper_num(&cart), 1);
    assert!(matches!(NES::new(cart).cpu.memory.cart, Mapper::MMC1(_)));
}

#[test]
fn console_boots_in_power_on_state_then_resets() {
    let mut cart = CART::new("test.nes");
    let mut d = image(1, 0, 0, 0);
    // $FFFC/$FFFD mirror bytes $3FFC/$3FFD of a 16 KiB bank.
    d[16 + 0x3FFC] = 0x00;
    d[16 + 0x3FFD] = 0x80;
    // At $8000: LDX #$07.
    d[16] = 0xA2;
    d[17] = 0x07;
    cart.load_image(&d).unwrap();
    let mut nes = NES::new(cart);
    assert_eq!(nes.cpu.pc, 0x0000);
    assert_eq!(nes.cpu.sp, 0xFF);
    assert_eq!(nes.cpu.status, 0x22);
    nes.cpu.reset();
    assert_eq!(nes.cpu.pc, 0x8000);
    assert_eq!(nes.step(), Ok(()));
    assert_eq!(nes.cpu.x, 7);
    assert_eq!(nes.cpu.pc, 0x8002);
}
