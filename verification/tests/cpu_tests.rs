//! Instruction-level scenarios from the post-boot state: loads, arithmetic
//! flags, stack traffic, rotates, and the timer interacting with stepping.

use dmg_core::gameboy::GameBoy;

#[test]
fn ld_a_immediate_scenario() {
    let mut gb = GameBoy::new();
    gb.power_on();
    gb.memory.write_byte(0x0100, 0x3E);
    gb.memory.write_byte(0x0101, 0x42);
    let cycles = gb.cpu.execute(&mut gb.memory);
    assert_eq!(gb.cpu.registers.a, 0x42);
    assert_eq!(gb.cpu.pc, 0x0102);
    assert_eq!(cycles, 8);
}

#[test]
fn add_half_carry_scenario() {
    let mut gb = GameBoy::new();
    gb.power_on();
    gb.cpu.registers.a = 0x0F;
    gb.cpu.registers.b = 0x01;
    gb.memory.write_byte(0x0100, 0x80);
    let cycles = gb.cpu.execute(&mut gb.memory);
    assert_eq!(gb.cpu.registers.a, 0x10);
    assert!(gb.cpu.registers.f.h);
    assert!(!gb.cpu.registers.f.c);
    assert!(!gb.cpu.registers.f.z);
    assert_eq!(cycles, 4);
}

#[test]
fn inc_a_wraps_scenario() {
    let mut gb = GameBoy::new();
    gb.power_on();
    gb.cpu.registers.a = 0xFF;
    gb.memory.write_byte(0x0100, 0x3C);
    let cycles = gb.cpu.execute(&mut gb.memory);
    assert_eq!(gb.cpu.registers.a, 0x00);
    assert!(gb.cpu.registers.f.z);
    assert!(gb.cpu.registers.f.h);
    assert!(!gb.cpu.registers.f.n);
    assert_eq!(cycles, 4);
}

#[test]
fn timer_overflow_after_four_steps() {
    let mut gb = GameBoy::new();
    gb.power_on();
    gb.memory.write_byte(0xFF07, 0x05);
    gb.memory.write_byte(0xFF05, 0xFF);
    gb.memory.write_byte(0xFF06, 0x00);
    gb.memory.write_byte(0xFF0F, 0x00);
    // Memory is zeroed, so PC walks over NOPs from 0x0100.
    for _ in 0..4 {
        gb.step();
    }
    assert_eq!(gb.memory.read_byte(0xFF05), 0x00);
    assert_eq!(gb.memory.read_byte(0xFF0F) & 0x04, 0x04);
}

#[test]
fn ldi_hl_a_scenario() {
    let mut gb = GameBoy::new();
    gb.power_on();
    gb.cpu.registers.set_hl(0xC000);
    gb.cpu.registers.a = 0x55;
    gb.memory.write_byte(0x0100, 0x22);
    gb.cpu.execute(&mut gb.memory);
    assert_eq!(gb.memory.read_byte(0xC000), 0x55);
    assert_eq!(gb.cpu.registers.hl(), 0xC001);
}

#[test]
fn push_pop_bc_scenario() {
    let mut gb = GameBoy::new();
    gb.power_on();
    gb.cpu.registers.set_bc(0x1234);
    assert_eq!(gb.cpu.sp, 0xFFFE);
    gb.memory.write_byte(0x0100, 0xC5);
    gb.memory.write_byte(0x0101, 0xC1);
    let cycles = gb.cpu.execute(&mut gb.memory);
    assert_eq!(gb.cpu.sp, 0xFFFC);
    assert_eq!(gb.memory.read_byte(0xFFFC), 0x34);
    assert_eq!(gb.memory.read_byte(0xFFFD), 0x12);
    assert_eq!(cycles, 16);
    gb.cpu.registers.set_bc(0x0000);
    gb.cpu.execute(&mut gb.memory);
    assert_eq!(gb.cpu.registers.bc(), 0x1234);
    assert_eq!(gb.cpu.sp, 0xFFFE);
}

#[test]
fn push_pop_af_low_nibble_reads_zero() {
    let mut gb = GameBoy::new();
    gb.power_on();
    // AF = A 0x5A with all four flags set: byte form 0xF0.
    gb.cpu.registers.set_af(0x5AFF);
    assert_eq!(gb.cpu.registers.af(), 0x5AF0);
    gb.memory.write_byte(0x0100, 0xF5);
    gb.memory.write_byte(0x0101, 0xF1);
    gb.cpu.execute(&mut gb.memory);
    gb.cpu.registers.set_af(0x0000);
    gb.cpu.execute(&mut gb.memory);
    assert_eq!(gb.cpu.registers.af(), 0x5AF0);
}

#[test]
fn rlc_then_rrc_restores_a() {
    let mut gb = GameBoy::new();
    gb.power_on();
    gb.cpu.registers.a = 0xA7;
    gb.memory.write_byte(0x0100, 0xCB);
    gb.memory.write_byte(0x0101, 0x07); // RLC A
    let cycles = gb.cpu.execute(&mut gb.memory);
    assert_eq!(cycles, 8);
    assert_eq!(gb.cpu.registers.a, 0x4F);
    assert!(gb.cpu.registers.f.c);
    gb.memory.write_byte(0x0102, 0xCB);
    gb.memory.write_byte(0x0103, 0x0F); // RRC A
    gb.cpu.execute(&mut gb.memory);
    assert_eq!(gb.cpu.registers.a, 0xA7);
}

#[test]
fn sla_then_srl_clears_high_bit() {
    let mut gb = GameBoy::new();
    gb.power_on();
    gb.cpu.registers.b = 0xC3;
    gb.memory.write_byte(0x0100, 0xCB);
    gb.memory.write_byte(0x0101, 0x20); // SLA B
    gb.cpu.execute(&mut gb.memory);
    assert_eq!(gb.cpu.registers.b, 0x86);
    gb.memory.write_byte(0x0102, 0xCB);
    gb.memory.write_byte(0x0103, 0x38); // SRL B
    gb.cpu.execute(&mut gb.memory);
    assert_eq!(gb.cpu.registers.b, 0x43); // 0xC3 with bit 7 cleared
}

#[test]
fn swap_twice_is_identity() {
    let mut gb = GameBoy::new();
    gb.power_on();
    gb.cpu.registers.c = 0x3E;
    gb.memory.write_byte(0x0100, 0xCB);
    gb.memory.write_byte(0x0101, 0x31); // SWAP C
    gb.cpu.execute(&mut gb.memory);
    assert_eq!(gb.cpu.registers.c, 0xE3);
    gb.memory.write_byte(0x0102, 0xCB);
    gb.memory.write_byte(0x0103, 0x31);
    gb.cpu.execute(&mut gb.memory);
    assert_eq!(gb.cpu.registers.c, 0x3E);
}

#[test]
fn sub_sets_borrow_flags() {
    let mut gb = GameBoy::new();
    gb.power_on();
    gb.cpu.registers.a = 0x10;
    gb.memory.write_byte(0x0100, 0xD6); // SUB A,n
    gb.memory.write_byte(0x0101, 0x21);
    let cycles = gb.cpu.execute(&mut gb.memory);
    assert_eq!(gb.cpu.registers.a, 0xEF);
    assert!(gb.cpu.registers.f.n);
    assert!(gb.cpu.registers.f.h);
    assert!(gb.cpu.registers.f.c);
    assert!(!gb.cpu.registers.f.z);
    assert_eq!(cycles, 8);
}

#[test]
fn and_or_xor_flag_rules() {
    let mut gb = GameBoy::new();
    gb.power_on();
    gb.cpu.registers.a = 0xF0;
    gb.memory.write_byte(0x0100, 0xE6); // AND A,n
    gb.memory.write_byte(0x0101, 0x0F);
    gb.cpu.execute(&mut gb.memory);
    assert_eq!(gb.cpu.registers.a, 0x00);
    assert!(gb.cpu.registers.f.z);
    assert!(gb.cpu.registers.f.h);
    assert!(!gb.cpu.registers.f.c);
    gb.memory.write_byte(0x0102, 0xF6); // OR A,n
    gb.memory.write_byte(0x0103, 0x55);
    gb.cpu.execute(&mut gb.memory);
    assert_eq!(gb.cpu.registers.a, 0x55);
    assert!(!gb.cpu.registers.f.z);
    assert!(!gb.cpu.registers.f.h);
    gb.memory.write_byte(0x0104, 0xEE); // XOR A,n
    gb.memory.write_byte(0x0105, 0x55);
    gb.cpu.execute(&mut gb.memory);
    assert_eq!(gb.cpu.registers.a, 0x00);
    assert!(gb.cpu.registers.f.z);
}

#[test]
fn daa_after_bcd_add() {
    let mut gb = GameBoy::new();
    gb.power_on();
    // 0x15 + 0x27 = 0x3C, DAA corrects to 0x42.
    gb.cpu.registers.a = 0x15;
    gb.memory.write_byte(0x0100, 0xC6); // ADD A,n
    gb.memory.write_byte(0x0101, 0x27);
    gb.memory.write_byte(0x0102, 0x27); // DAA
    gb.cpu.execute(&mut gb.memory);
    assert_eq!(gb.cpu.registers.a, 0x3C);
    gb.cpu.execute(&mut gb.memory);
    assert_eq!(gb.cpu.registers.a, 0x42);
    assert!(!gb.cpu.registers.f.c);
}

#[test]
fn jr_taken_and_not_taken_cycles() {
    let mut gb = GameBoy::new();
    gb.power_on(); // Z is set after power-on
    gb.memory.write_byte(0x0100, 0x28); // JR Z,+2
    gb.memory.write_byte(0x0101, 0x02);
    let cycles = gb.cpu.execute(&mut gb.memory);
    assert_eq!(cycles, 12);
    assert_eq!(gb.cpu.pc, 0x0104);
    gb.memory.write_byte(0x0104, 0x20); // JR NZ,+2: not taken
    gb.memory.write_byte(0x0105, 0x02);
    let cycles = gb.cpu.execute(&mut gb.memory);
    assert_eq!(cycles, 8);
    assert_eq!(gb.cpu.pc, 0x0106);
}

#[test]
fn call_and_ret_roundtrip() {
    let mut gb = GameBoy::new();
    gb.power_on();
    gb.memory.write_byte(0x0100, 0xCD); // CALL 0xC050
    gb.memory.write_byte(0x0101, 0x50);
    gb.memory.write_byte(0x0102, 0xC0);
    let cycles = gb.cpu.execute(&mut gb.memory);
    assert_eq!(cycles, 24);
    assert_eq!(gb.cpu.pc, 0xC050);
    assert_eq!(gb.cpu.sp, 0xFFFC);
    gb.memory.write_byte(0xC050, 0xC9); // RET
    let cycles = gb.cpu.execute(&mut gb.memory);
    assert_eq!(cycles, 16);
    assert_eq!(gb.cpu.pc, 0x0103);
    assert_eq!(gb.cpu.sp, 0xFFFE);
}

#[test]
fn halt_stops_run() {
    let mut gb = GameBoy::new();
    gb.power_on();
    gb.memory.write_byte(0x0100, 0x76); // HALT
    gb.run(100);
    assert!(gb.cpu.halted);
    assert_eq!(gb.cpu.pc, 0x0101);
}

#[test]
fn flags_byte_roundtrip() {
    let mut gb = GameBoy::new();
    gb.power_on();
    gb.cpu.registers.f.set_from_u8(0xB7);
    // Low nibble is dropped; byte form reads back 0xB0.
    assert_eq!(gb.cpu.registers.f.to_u8(), 0xB0);
    assert!(gb.cpu.registers.f.z);
    assert!(!gb.cpu.registers.f.n);
    assert!(gb.cpu.registers.f.h);
    assert!(gb.cpu.registers.f.c);
}

#[test]
fn bit_res_set_on_register() {
    let mut gb = GameBoy::new();
    gb.power_on();
    gb.cpu.registers.d = 0x80;
    gb.memory.write_byte(0x0100, 0xCB);
    gb.memory.write_byte(0x0101, 0x7A); // BIT 7,D
    let cycles = gb.cpu.execute(&mut gb.memory);
    assert_eq!(cycles, 8);
    assert!(!gb.cpu.registers.f.z);
    gb.memory.write_byte(0x0102, 0xCB);
    gb.memory.write_byte(0x0103, 0xBA); // RES 7,D
    gb.cpu.execute(&mut gb.memory);
    assert_eq!(gb.cpu.registers.d, 0x00);
    gb.memory.write_byte(0x0104, 0xCB);
    gb.memory.write_byte(0x0105, 0xE2); // SET 4,D
    gb.cpu.execute(&mut gb.memory);
    assert_eq!(gb.cpu.registers.d, 0x10);
}

#[test]
fn write_read_roundtrip_regions() {
    let mut gb = GameBoy::new();
    gb.power_on();
    for addr in [0x8000u16, 0x9FFF, 0xC000, 0xDFFF, 0xE000, 0xFE00, 0xFF80, 0xFFFE, 0xFFFF] {
        gb.memory.write_byte(addr, 0xA5);
        assert_eq!(gb.memory.read_byte(addr), 0xA5, "round trip at {addr:#06X}");
    }
    // DIV reads back as zero immediately after any write.
    gb.memory.write_byte(0xFF04, 0xA5);
    assert_eq!(gb.memory.read_byte(0xFF04), 0x00);
}
