//! Machine stepping: the timer-overflow interrupt request in the IF byte.

use dmg_core::gameboy::GameBoy;

#[test]
fn timer_interrupt_sets_if_flag() {
    let mut gb = GameBoy::new();

    // Setup timer to overflow quickly
    // Frequency 01 = 16 cycles, TIMA = 0xFF, TMA = 0x00
    gb.memory.write_byte(0xFF07, 0x05); // Enable timer, frequency 16
    gb.memory.write_byte(0xFF05, 0xFF); // TIMA = 0xFF (will overflow after 16 cycles)
    gb.memory.write_byte(0xFF06, 0x00); // TMA = 0x00

    // Clear IF register
    gb.memory.write_byte(0xFF0F, 0x00);

    // Write a NOP instruction at PC (0x00 opcode, 4 cycles)
    gb.memory.data[0] = 0x00; // NOP

    // Execute 4 NOPs = 16 cycles total, causing timer overflow
    for _ in 0..4 {
        gb.step();
    }

    // Check that bit 2 of IF register is set
    let if_register = gb.memory.read_byte(0xFF0F);
    assert_eq!(
        if_register & 0x04,
        0x04,
        "Bit 2 of IF register (0xFF0F) should be set after timer overflow"
    );
}

#[test]
fn timer_interrupt_preserves_other_if_bits() {
    let mut gb = GameBoy::new();

    // Setup timer to overflow
    gb.memory.write_byte(0xFF07, 0x05);
    gb.memory.write_byte(0xFF05, 0xFF);
    gb.memory.write_byte(0xFF06, 0x00);

    // Set other interrupt flags (bits 0, 1, 3, 4)
    gb.memory.write_byte(0xFF0F, 0x1B); // 0b00011011 (all except timer)

    // Execute instructions to trigger timer overflow
    gb.memory.data[0] = 0x00; // NOP
    for _ in 0..4 {
        gb.step();
    }

    // Check that bit 2 is now set AND other bits are preserved
    let if_register = gb.memory.read_byte(0xFF0F);
    assert_eq!(
        if_register,
        0x1F, // 0b00011111 (all 5 interrupt bits set)
        "Timer interrupt should set bit 2 while preserving other IF bits"
    );
}

#[test]
fn no_timer_interrupt_without_overflow() {
    let mut gb = GameBoy::new();

    // Setup timer but don't overflow
    gb.memory.write_byte(0xFF07, 0x05); // Enable timer, frequency 16
    gb.memory.write_byte(0xFF05, 0x00); // TIMA = 0x00 (won't overflow)
    gb.memory.write_byte(0xFF06, 0x00);

    // Clear IF register
    gb.memory.write_byte(0xFF0F, 0x00);

    // Execute instructions (not enough cycles to overflow)
    gb.memory.data[0] = 0x00; // NOP
    for _ in 0..2 {
        // Only 8 cycles, need 16 for overflow
        gb.step();
    }

    // Check that IF register is still 0
    let if_register = gb.memory.read_byte(0xFF0F);
    assert_eq!(
        if_register, 0x00,
        "IF register should remain 0 when timer doesn't overflow"
    );
}

#[test]
fn timer_interrupt_only_sets_bit_2() {
    let mut gb = GameBoy::new();

    // Setup timer to overflow
    gb.memory.write_byte(0xFF07, 0x05);
    gb.memory.write_byte(0xFF05, 0xFF);
    gb.memory.write_byte(0xFF06, 0x00);

    // Clear IF register
    gb.memory.write_byte(0xFF0F, 0x00);

    // Execute instructions to trigger timer overflow
    gb.memory.data[0] = 0x00; // NOP
    for _ in 0..4 {
        gb.step();
    }

    // Check that ONLY bit 2 is set
    let if_register = gb.memory.read_byte(0xFF0F);
    assert_eq!(
        if_register, 0x04,
        "Only bit 2 (timer interrupt) should be set in IF register"
    );
}

#[test]
fn multiple_timer_overflows_still_set_same_bit() {
    let mut gb = GameBoy::new();

    // Setup timer with TMA = 0xFF so it overflows every 16 cycles
    gb.memory.write_byte(0xFF07, 0x05);
    gb.memory.write_byte(0xFF05, 0xFF);
    gb.memory.write_byte(0xFF06, 0xFF); // TMA = 0xFF, so it immediately overflows again

    // Clear IF register
    gb.memory.write_byte(0xFF0F, 0x00);

    // Execute enough instructions to trigger multiple overflows
    gb.memory.data[0] = 0x00; // NOP
    for _ in 0..8 {
        // 32 cycles = 2 overflows
        gb.step();
    }

    // Check that bit 2 is set (but not "double set" or anything weird)
    let if_register = gb.memory.read_byte(0xFF0F);
    assert_eq!(
        if_register & 0x04,
        0x04,
        "Multiple overflows should still just set bit 2 once"
    );

    // Verify it's exactly 0x04, not some weird value
    assert_eq!(if_register, 0x04);
}

#[test]
fn timer_disabled_no_interrupt() {
    let mut gb = GameBoy::new();

    // Setup timer but keep it disabled
    gb.memory.write_byte(0xFF07, 0x01); // Timer DISABLED (bit 2 = 0)
    gb.memory.write_byte(0xFF05, 0xFF);
    gb.memory.write_byte(0xFF06, 0x00);

    // Clear IF register
    gb.memory.write_byte(0xFF0F, 0x00);

    // Execute many instructions
    gb.memory.data[0] = 0x00; // NOP
    for _ in 0..100 {
        gb.step();
    }

    // Check that IF register is still 0 (no interrupt)
    let if_register = gb.memory.read_byte(0xFF0F);
    assert_eq!(
        if_register, 0x00,
        "Disabled timer should not trigger interrupt"
    );
}

#[test]
fn timer_interrupt_with_slow_frequency() {
    let mut gb = GameBoy::new();

    // Use slowest frequency (1024 cycles)
    gb.memory.write_byte(0xFF07, 0x04); // Enable, frequency 1024
    gb.memory.write_byte(0xFF05, 0xFF);
    gb.memory.write_byte(0xFF06, 0x00);

    // Clear IF register
    gb.memory.write_byte(0xFF0F, 0x00);

    // Execute 256 NOPs = 1024 cycles
    gb.memory.data[0] = 0x00; // NOP
    for _ in 0..256 {
        gb.step();
    }

    // Check that bit 2 is set
    let if_register = gb.memory.read_byte(0xFF0F);
    assert_eq!(
        if_register & 0x04,
        0x04,
        "Timer should trigger interrupt at frequency 1024"
    );
}
