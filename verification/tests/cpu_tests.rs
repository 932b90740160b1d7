use nes_core::bus::Bus;
use nes_core::cpu::CPU;

fn fresh_cpu() -> CPU {
    CPU::new(Bus::new())
}

#[test]
fn test_0xa9_lda_immediate_load_data() {
    let mut cpu = fresh_cpu();
    cpu.load_and_run(vec![0xa9, 0x05, 0x00]).unwrap();
    assert_eq!(cpu.register_a, 0x05);
    assert!(cpu.status & 0b0000_0010 == 0b00);
    assert!(cpu.status & 0b1000_0000 == 0);
}

#[test]
fn test_0xa9_lda_zero_flag() {
    let mut cpu = fresh_cpu();
    cpu.load_and_run(vec![0xa9, 0x00, 0x00]).unwrap();
    assert!(cpu.status & 0b0000_0010 == 0b10);
}

#[test]
fn test_0xaa_tax_move_a_to_x() {
    let mut cpu = fresh_cpu();
    cpu.load_and_run(vec![0xa9, 0x0a, 0xaa, 0x00]).unwrap();
    assert_eq!(cpu.register_x, 10)
}

#[test]
fn test_5_ops_working_together() {
    let mut cpu = fresh_cpu();
    cpu.load_and_run(vec![0xa9, 0xc0, 0xaa, 0xe8, 0x00]).unwrap();
    assert_eq!(cpu.register_x, 0xc1)
}

#[test]
fn test_inx_overflow() {
    let mut cpu = fresh_cpu();
    cpu.load_and_run(vec![0xa9, 0xff, 0xaa, 0xe8, 0xe8, 0x00]).unwrap();
    assert_eq!(cpu.register_x, 1)
}

#[test]
fn test_lda_from_memory() {
    let mut cpu = fresh_cpu();
    cpu.mem_write(0x10, 0x55);
    cpu.load_and_run(vec![0xa5, 0x10, 0x00]).unwrap();
    assert_eq!(cpu.register_a, 0x55);
}

#[test]
fn test_adc_immediate_basic_addition() {
    let mut cpu = fresh_cpu();
    cpu.register_a = 0x05;
    cpu.load_and_run(vec![0xA9, 0x05, 0x69, 0x03, 0x00]).unwrap(); // LDA #$05 ADC #$03 BRK
    assert_eq!(cpu.register_a, 0x08); // 5 + 3 = 8
    assert!(cpu.status & 0b0000_0001 == 0);
    assert!(cpu.status & 0b0000_0010 == 0);
    assert!(cpu.status & 0b1000_0000 == 0);
}

#[test]
fn test_adc_with_carry_set() {
    let mut cpu = fresh_cpu();
    cpu.load_and_run(vec![0xA9, 0xFF, 0x69, 0x01, 0xA9, 0x05, 0x69, 0x03, 0x00]).unwrap(); // LDA #$FF ADC #$01 LDA #$05 ADC #$03 BRK
    assert_eq!(cpu.register_a, 0x09);
    assert!(cpu.status & 0b0000_0001 == 0);
}

#[test]
fn test_adc_overflow() {
    let mut cpu = fresh_cpu();
    cpu.load_and_run(vec![0xA9, 0x50, 0x69, 0x50, 0x00]).unwrap(); // LDA #$50 ADC #$50 BRK
    assert_eq!(cpu.register_a, 0xa0); // 0x50 + 0x50 = 0xa0
    assert!(cpu.status & 0b0100_0000 != 0);
    assert!(cpu.status & 0b1000_0000 != 0);
}

#[test]
fn test_and() {
    let mut cpu = fresh_cpu();
    cpu.load_and_run(vec![0xA9, 0x11, 0x29, 0x10, 0x00]).unwrap(); // LDA $#11 AND $#10 BRK
    assert_eq!(cpu.register_a, 0x10); // 0x11 & 0x10 = 0x10
    assert!(cpu.status & 0b0000_0010 == 0);
    assert!(cpu.status & 0b1000_0000 == 0);
}

#[test]
fn test_and_negative_flag() {
    let mut cpu = fresh_cpu();
    cpu.load_and_run(vec![0xA9, 0xCC, 0x29, 0xAA, 0x00]).unwrap(); // LDA #$CC AND #$AA BRK
    assert_eq!(cpu.register_a, 0x88);
    assert!(cpu.status & 0b0000_0010 == 0);
    assert!(cpu.status & 0b1000_0000 != 0);
}

#[test]
fn test_asl_accumulator() {
    let mut cpu = fresh_cpu();
    cpu.load_and_run(vec![0xA9, 0x4D, 0x0A, 0x00]).unwrap(); // LDA #$4D ASL BRK
    assert_eq!(cpu.register_a, 0x9A);
    assert!(cpu.status & 0b0000_0001 == 0);
    assert!(cpu.status & 0b0000_0010 == 0);
    assert!(cpu.status & 0b1000_0000 != 0);
}

#[test]
fn test_asl_zero_page() {
    let mut cpu = fresh_cpu();
    cpu.mem_write(0x10, 0x81);
    cpu.load_and_run(vec![0x06, 0x10, 0x00]).unwrap(); // ASL $10 BRK
    assert_eq!(cpu.mem_read(0x10), 0x02);
    assert!(cpu.status & 0b0000_0001 != 0);
    assert!(cpu.status & 0b0000_0010 == 0);
    assert!(cpu.status & 0b1000_0000 == 0);
}

#[test]
fn test_0x24_bit_zero_flag_set() {
    let mut cpu = fresh_cpu();
    cpu.mem_write(0x10, 0x92); // 0b1001_0010 so negative should be set
    cpu.load_and_run(vec![0xA9, 0x00, 0x24, 0x10, 0x00]).unwrap(); // LDA #$00, BIT $10 BRK
    assert!(cpu.status & 0b0000_0010 != 0);
    assert!(cpu.status & 0b0100_0000 == 0);
    assert!(cpu.status & 0b1000_0000 != 0);
}

#[test]
fn test_0x24_bit_zero_flag_clear() {
    let mut cpu = fresh_cpu();
    cpu.mem_write(0x10, 0x01); // 0b0000_0001
    cpu.load_and_run(vec![0xA9, 0x01, 0x24, 0x10, 0x00]).unwrap(); // LDA #$01, BIT $10 BRK
    assert!(cpu.status & 0b0000_0010 == 0);
    assert!(cpu.status & 0b0100_0000 == 0);
    assert!(cpu.status & 0b1000_0000 == 0);
}

#[test]
fn test_sbc_immediate_basic_subtraction() {
    let mut cpu = fresh_cpu();
    cpu.load_and_run(vec![0xA9, 0x10, 0xE9, 0x05, 0x00]).unwrap(); // LDA #$10 SBC #$05 BRK
    assert_eq!(cpu.register_a, 0x0A);
    assert!(cpu.status & 0b0000_0001 == 1);
    assert!(cpu.status & 0b0000_0010 == 0);
    assert!(cpu.status & 0b1000_0000 == 0);
}

#[test]
fn test_sbc_with_borrow() {
    let mut cpu = fresh_cpu();
    cpu.load_and_run(vec![0xA9, 0x05, 0xE9, 0x10, 0x00]).unwrap(); // LDA #$05 SBC #$10 BRK
    assert_eq!(cpu.register_a, 0xF4); // A=$f4
    assert!(cpu.status & 0b0000_0001 == 0); // NV-BDIZC
                                            // 10110000
    assert!(cpu.status & 0b1000_0000 != 0);
}

#[test]
fn test_sbc() {
    let mut cpu = fresh_cpu();
    cpu.load_and_run(vec![0xA9, 0x05, 0xE9, 0x05, 0x00]).unwrap(); // LDA #$05 SBC #$05 BRK
    assert_eq!(cpu.register_a, 0xff);
    assert!(cpu.status & 0b0000_0001 == 0);
    assert!(cpu.status & 0b0000_0010 == 0);
    assert!(cpu.status & 0b1000_0000 != 0);
}

#[test]
fn test_ora() {
    let mut cpu = fresh_cpu();
    cpu.load_and_run(vec![0xA9, 0x12, 0x09, 0x08, 0x00]).unwrap(); // LDA #$12 ORA #$08 BRK
    assert_eq!(cpu.register_a, 0x1A); // 0x12 | 0x08 = 0x1A
}

#[test]
fn test_eor() {
    let mut cpu = fresh_cpu();
    cpu.load_and_run(vec![0xA9, 0x15, 0x49, 0x0F, 0x00]).unwrap(); // LDA #$15 EOR #$0F BRK
    assert_eq!(cpu.register_a, 0x1A); // 0x15 ^ 0x0F = 0x1A
}

#[test]
fn test_cmp_equal() {
    let mut cpu = fresh_cpu();
    cpu.load_and_run(vec![0xA9, 0x05, 0xC9, 0x05, 0x00]).unwrap(); // LDA #$05 CMP #$05 BRK
    assert_eq!(cpu.register_a, 0x05);
    assert!(cpu.status & 0b0000_0001 != 0);
    assert!(cpu.status & 0b0000_0010 != 0);
}

#[test]
fn test_lsr_accumulator() {
    let mut cpu = fresh_cpu();
    cpu.load_and_run(vec![0xA9, 0x02, 0x4A, 0x00]).unwrap(); // LDA #$02 LSR BRK
    assert_eq!(cpu.register_a, 0x01);
    assert!(cpu.status & 0b0000_0001 == 0);
    assert!(cpu.status & 0b0000_0010 == 0);
}

#[test]
fn test_lsr_zero_page() {
    let mut cpu = fresh_cpu();
    cpu.mem_write(0x10, 0x01);
    cpu.load_and_run(vec![0x46, 0x10, 0x00]).unwrap(); // LSR $10 BRK
    assert_eq!(cpu.mem_read(0x10), 0x00);
    assert!(cpu.status & 0b0000_0001 != 0);
    assert!(cpu.status & 0b0000_0010 != 0);
}

#[test]
fn test_rol_accumulator() {
    let mut cpu = fresh_cpu();
    cpu.load_and_run(vec![0xa9, 0x81, 0x2A, 0x00]).unwrap(); // LDA #$81 ROL BRK
    assert_eq!(cpu.register_a, 0x02);
    assert!(cpu.status & 0b0000_0001 != 0);
    assert!(cpu.status & 0b0000_0010 == 0);
}

#[test]
fn test_rol_with_carry_in() {
    let mut cpu = fresh_cpu();
    cpu.load_and_run(vec![0x38, 0xA9, 0x40, 0x2A, 0x00]).unwrap(); // SEC LDA #$40 ROL BRK
    assert_eq!(cpu.register_a, 0x81);
    assert!(cpu.status & 0b0000_0001 == 0);
}

#[test]
fn test_ror_accumulator() {
    let mut cpu = fresh_cpu();
    cpu.load_and_run(vec![0xa9, 0x01, 0x6a, 0x00]).unwrap(); // LDA #$01 ROR BRK
    assert_eq!(cpu.register_a, 0x00);
    assert!(cpu.status & 0b0000_0001 != 0);
    assert!(cpu.status & 0b0000_0010 != 0);
}

#[test]
fn test_ror_with_carry_in() {
    let mut cpu = fresh_cpu();
    cpu.load_and_run(vec![0x38, 0xa9, 0x02, 0x6A, 0x00]).unwrap(); // SEC LDA #$02 ROR BRK
    assert_eq!(cpu.register_a, 0x81);
    assert!(cpu.status & 0b0000_0001 == 0);
    assert!(cpu.status & 0b1000_0000 != 0);
}

#[test]
fn test_pha_pla() {
    let mut cpu = fresh_cpu();
    cpu.load_and_run(vec![0xA9, 0x45, 0x48, 0xA9, 0x00, 0x68, 0x00]).unwrap(); // LDA #$45 PHA LDA #$00 PLA BRK
    assert_eq!(cpu.register_a, 0x45);
}

#[test]
fn test_jmp_absolute() {
    let mut cpu = fresh_cpu();
    cpu.load_and_run(vec![0x4C, 0x10, 0x00, 0x00]).unwrap(); // JMP $0010 BRK
    assert_eq!(cpu.program_counter, 0x0011);
}

#[test]
fn test_indirect_indexed_page_wrap() {
    // Base pointer at zero-page 0xFF: the high byte comes from 0x00.
    let mut cpu = fresh_cpu();
    cpu.mem_write(0x00FF, 0x34); // pointer low byte
    cpu.mem_write(0x0000, 0x12); // pointer high byte, wrapped fetch
    cpu.mem_write(0x1236, 0x77); // 0x1234 + Y(2)
    // LDY #$02; LDA ($FF),Y; BRK
    cpu.load_and_run(vec![0xA0, 0x02, 0xB1, 0xFF, 0x00]).unwrap();
    assert_eq!(cpu.register_a, 0x77);
}

#[test]
fn test_invalid_opcode_reported() {
    let mut cpu = fresh_cpu();
    // 0x02 is not part of the official instruction set.
    let err = cpu.load_and_run(vec![0x02, 0x00]).unwrap_err();
    match err {
        nes_core::cpu::EmuError::InvalidOpcode { opcode, address } => {
            assert_eq!(opcode, 0x02);
            assert_eq!(address, 0x0600);
        }
    }
}

#[test]
fn test_ram_mirroring_via_bus() {
    let mut bus = Bus::new();
    bus.mem_write(0x0042, 0xAB);
    assert_eq!(bus.mem_read(0x0042), 0xAB);
    assert_eq!(bus.mem_read(0x0842), 0xAB);
    assert_eq!(bus.mem_read(0x1042), 0xAB);
    assert_eq!(bus.mem_read(0x1842), 0xAB);
    bus.mem_write(0x1F00, 0x5C);
    assert_eq!(bus.mem_read(0x0700), 0x5C);
}

#[test]
fn test_joypad_shift_register() {
    let mut joypad = nes_core::joypad::Joypad::new();
    joypad.set_button_pressed_status(nes_core::joypad::JOYPAD_BUTTON_A, true);
    joypad.set_button_pressed_status(nes_core::joypad::JOYPAD_START, true);
    joypad.write(1);
    joypad.write(0);
    let mut reads = Vec::new();
    for _ in 0..10 {
        reads.push(joypad.read());
    }
    // A, B, Select, Start, Up, Down, Left, Right, then 1 forever.
    assert_eq!(reads, vec![1, 0, 0, 1, 0, 0, 0, 0, 1, 1]);
}

#[test]
fn test_apu_write_only_register_read_counted() {
    let mut bus = Bus::new();
    let before = bus.illegal_reads;
    assert_eq!(bus.mem_read(0x4000), 0);
    assert_eq!(bus.illegal_reads, before + 1);
    assert_eq!(bus.mem_read(0x4014), 0);
    assert_eq!(bus.illegal_reads, before + 2);
    // The status register at 0x4015 is readable and not counted.
    let _ = bus.mem_read(0x4015);
    assert_eq!(bus.illegal_reads, before + 2);
}

#[test]
fn test_store_leaves_flags_untouched() {
    // LDA #$00 sets Z; LDX #$01 clears it; STA $10 must not set it again.
    let mut cpu = fresh_cpu();
    cpu.load_and_run(vec![0xA9, 0x00, 0xA2, 0x01, 0x85, 0x10, 0x00]).unwrap();
    assert_eq!(cpu.mem_read(0x10), 0x00);
    assert!(cpu.status & 0b0000_0010 == 0);
}

#[test]
fn test_tya_sets_zero_and_negative_flags() {
    // LDY #$00; LDA #$01; TYA: the transfer sets Z from the copied value.
    let mut cpu = fresh_cpu();
    cpu.load_and_run(vec![0xA0, 0x00, 0xA9, 0x01, 0x98, 0x00]).unwrap();
    assert_eq!(cpu.register_a, 0x00);
    assert!(cpu.status & 0b0000_0010 != 0);
    assert!(cpu.status & 0b1000_0000 == 0);
}
