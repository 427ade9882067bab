use chip8::cpu::{CPU, FONT};
use chip8::fault::Fault;

#[test]
fn new_machine_is_in_its_initial_state() {
    let cpu = CPU::new();
    assert_eq!(cpu.pc, 0x200);
    assert_eq!(cpu.i_reg, 0x200);
    assert_eq!(cpu.sp, 0);
    assert_eq!(cpu.vf, 0);
    assert_eq!(cpu.delay_timer, 255);
    assert_eq!(cpu.sound_timer, 255);
    assert_eq!(cpu.registers, [0u8; 16]);
    assert_eq!(cpu.stack, [0u16; 16]);
    assert!(cpu.buf.iter().all(|&c| c == 0));
    assert_eq!(&cpu.mem[0x50..0xA0], &FONT[..]);
    assert!(cpu.mem[..0x50].iter().all(|&b| b == 0));
    assert!(cpu.mem[0xA0..].iter().all(|&b| b == 0));
    assert!(cpu.is_wf());
}

#[test]
fn program_is_copied_to_0x200() {
    let program: [u8; 4] = [0x12, 0x34, 0x56, 0x78];
    let cpu = CPU::new_with_memory(&program);
    assert_eq!(&cpu.mem[0x200..0x204], &program[..]);
    assert_eq!(cpu.mem[0x204], 0);
    assert_eq!(cpu.mem[0x1FF], 0);
    assert_eq!(&cpu.mem[0x50..0xA0], &FONT[..]);
}

#[test]
fn largest_program_fills_memory_to_its_end() {
    let program = vec![0xAAu8; 4096 - 0x200];
    let cpu = CPU::load(&program).unwrap();
    assert_eq!(cpu.mem[0x200], 0xAA);
    assert_eq!(cpu.mem[4095], 0xAA);
}

#[test]
fn oversized_program_is_rejected() {
    let program = vec![0u8; 4096 - 0x200 + 1];
    match CPU::load(&program) {
        Err(fault) => assert_eq!(fault, Fault::ProgramTooLarge(3585)),
        Ok(_) => panic!("an oversized program was loaded"),
    }
}

#[test]
fn decode_splits_every_byte_pair() {
    let cpu = CPU::new();
    for hi in 0u16..256 {
        for lo in 0u16..256 {
            let (a, b, c, d) = cpu.decode(hi as u8, lo as u8);
            assert!(a < 16 && b < 16 && c < 16 && d < 16);
            assert_eq!((a as u16) * 16 + b as u16, hi);
            assert_eq!((c as u16) * 16 + d as u16, lo);
        }
    }
}

#[test]
fn to_nnn_joins_nibbles() {
    let cpu = CPU::new();
    assert_eq!(cpu.to_nnn(0, 0, 0), 0);
    assert_eq!(cpu.to_nnn(0xF, 0xF, 0xF), 0xFFF);
    assert_eq!(cpu.to_nnn(0x2, 0x0, 0x0), 0x200);
}

#[test]
fn jump_takes_any_address() {
    let mut cpu = CPU::new();
    cpu.jp1nnn(0xFFFF);
    assert_eq!(cpu.pc, 0xFFFF);
    cpu.jp1nnn(0);
    assert_eq!(cpu.pc, 0);
}

#[test]
fn add7xnn_wraps_and_keeps_flag() {
    let mut cpu = CPU::new();
    cpu.vf = 7;
    cpu.set6xnn(3, 250);
    cpu.add7xnn(3, 10);
    assert_eq!(cpu.registers[3], 4);
    assert_eq!(cpu.vf, 7);
}

#[test]
fn call_then_return_restores_stack_pointer() {
    let mut cpu = CPU::new();
    cpu.stack[0] = 0x200;
    cpu.call2nnn(0x345);
    assert_eq!(cpu.sp, 1);
    assert_eq!(cpu.stack[1], 0x345);
    assert_eq!(cpu.pc, 0x345);
    cpu.ret00ee();
    assert_eq!(cpu.sp, 0);
    assert_eq!(cpu.pc, 0x200);
}

#[test]
fn return_reads_the_slot_below_the_call() {
    let mut cpu = CPU::new();
    cpu.call2nnn(0x300);
    cpu.call2nnn(0x400);
    assert_eq!(cpu.sp, 2);
    cpu.ret00ee();
    assert_eq!(cpu.sp, 1);
    assert_eq!(cpu.pc, 0x300);
}

#[test]
fn skips_leave_counter_when_not_triggered() {
    let mut cpu = CPU::new();
    cpu.set6xnn(0, 69);
    cpu.set6xnn(1, 69);
    cpu.set6xnn(2, 42);
    cpu.pc = 500;
    cpu.se3xnn(0, 42);
    assert_eq!(cpu.pc, 500);
    cpu.sne4xnn(0, 69);
    assert_eq!(cpu.pc, 500);
    cpu.se5xy0(0, 2);
    assert_eq!(cpu.pc, 500);
    cpu.sne9xy0(0, 1);
    assert_eq!(cpu.pc, 500);
}

#[test]
fn bitwise_operations_keep_flag() {
    let mut cpu = CPU::new();
    cpu.vf = 9;
    cpu.set6xnn(4, 0b1100);
    cpu.set6xnn(5, 0b1010);
    cpu.or8xy1(4, 5);
    assert_eq!(cpu.registers[4], 0b1110);
    assert_eq!(cpu.vf, 9);
    cpu.set6xnn(4, 0b1100);
    cpu.and8xy2(4, 5);
    assert_eq!(cpu.registers[4], 0b1000);
    assert_eq!(cpu.vf, 9);
    cpu.set6xnn(4, 0b1100);
    cpu.xor8xy3(4, 5);
    assert_eq!(cpu.registers[4], 0b0110);
    assert_eq!(cpu.vf, 9);
    assert_eq!(cpu.registers[5], 0b1010);
}

#[test]
fn add8xy4_keeps_low_byte_on_carry() {
    let mut cpu = CPU::new();
    cpu.set6xnn(0, 255);
    cpu.set6xnn(1, 255);
    cpu.add8xy4(0, 1);
    assert_eq!(cpu.registers[0], 254);
    assert_eq!(cpu.vf, 1);
    cpu.set6xnn(0, 255);
    cpu.set6xnn(1, 0);
    cpu.add8xy4(0, 1);
    assert_eq!(cpu.registers[0], 255);
    assert_eq!(cpu.vf, 0);
}

#[test]
fn subtraction_of_equal_values_clears_flag() {
    let mut cpu = CPU::new();
    cpu.set6xnn(0, 77);
    cpu.set6xnn(1, 77);
    cpu.sub8xy5(0, 1);
    assert_eq!(cpu.registers[0], 0);
    assert_eq!(cpu.vf, 0);
    cpu.set6xnn(0, 77);
    cpu.sub8xy7(0, 1);
    assert_eq!(cpu.registers[0], 0);
    assert_eq!(cpu.vf, 0);
}

#[test]
fn sub8xy7_swaps_operands() {
    let mut cpu = CPU::new();
    cpu.set6xnn(0, 25);
    cpu.set6xnn(1, 50);
    cpu.sub8xy7(0, 1);
    assert_eq!(cpu.registers[0], 25);
    assert_eq!(cpu.vf, 1);
    cpu.set6xnn(0, 50);
    cpu.set6xnn(1, 25);
    cpu.sub8xy7(0, 1);
    assert_eq!(cpu.registers[0], 231);
    assert_eq!(cpu.vf, 0);
}

#[test]
fn shifts_report_the_bit_shifted_out() {
    let mut cpu = CPU::new();
    cpu.set6xnn(1, 0b1000_0101);
    cpu.shr8xy6_usey(0, 1);
    assert_eq!(cpu.registers[0], 0b0100_0010);
    assert_eq!(cpu.registers[1], 0b1000_0101);
    assert_eq!(cpu.vf, 1);
    cpu.shl8xye_usey(0, 1);
    assert_eq!(cpu.registers[0], 0b0000_1010);
    assert_eq!(cpu.vf, 1);
    cpu.set6xnn(2, 0b0100_0010);
    cpu.shr8xy6_usex(2, 1);
    assert_eq!(cpu.registers[2], 0b0010_0001);
    assert_eq!(cpu.vf, 0);
    cpu.shl8xye_usex(2, 1);
    assert_eq!(cpu.registers[2], 0b0100_0010);
    assert_eq!(cpu.vf, 0);
    cpu.set6xnn(3, 127);
    cpu.shl8xye_usex(3, 0);
    assert_eq!(cpu.registers[3], 254);
    assert_eq!(cpu.vf, 0);
    cpu.set6xnn(3, 128);
    cpu.shl8xye_usex(3, 0);
    assert_eq!(cpu.registers[3], 0);
    assert_eq!(cpu.vf, 1);
}

#[test]
fn jpbnnn_adds_v0() {
    let mut cpu = CPU::new();
    cpu.set6xnn(0, 0x10);
    cpu.jpbnnn(0x300);
    assert_eq!(cpu.pc, 0x310);
}

#[test]
fn random_byte_is_masked() {
    let mut cpu = CPU::new();
    for _ in 0..200 {
        cpu.set6xnn(2, 0xFF);
        cpu.rndcxnn(2, 0x0F);
        assert!(cpu.registers[2] <= 0x0F);
        cpu.rndcxnn(2, 0x00);
        assert_eq!(cpu.registers[2], 0);
    }
}

#[test]
fn random_bytes_vary() {
    let mut cpu = CPU::new();
    let mut seen = [false; 256];
    for _ in 0..2000 {
        cpu.rndcxnn(0, 0xFF);
        seen[cpu.registers[0] as usize] = true;
    }
    assert!(seen.iter().filter(|&&s| s).count() > 100);
}

#[test]
fn rndcxnn_with_masks_the_given_byte() {
    let mut cpu = CPU::new();
    cpu.rndcxnn_with(1, 0xF0, 0xAB);
    assert_eq!(cpu.registers[1], 0xA0);
}

#[test]
fn key_tests_fail_without_keypad() {
    let mut cpu = CPU::new();
    assert_eq!(cpu.skpex9e(), Err(Fault::KeypadUnavailable));
    assert_eq!(cpu.skpexa1(), Err(Fault::KeypadUnavailable));
    assert_eq!(cpu.pc, 0x200);
}

#[test]
fn delay_read_is_elapsed_time_modulo_255() {
    let mut cpu = CPU::new();
    cpu.set6xnn(1, 33);
    cpu.ldfx15_at(1, 1_000);
    assert_eq!(cpu.delay_timer, 33);
    assert_eq!(cpu.last_dt_write, 1_000);
    cpu.ldfx07_at(2, 1_000 + 300);
    assert_eq!(cpu.registers[2], 45);
    cpu.ldfx07_at(2, 1_000 + 255);
    assert_eq!(cpu.registers[2], 0);
    cpu.ldfx07_at(2, 1_000);
    assert_eq!(cpu.registers[2], 0);
    cpu.ldfx07_at(2, 1_000 + 254);
    assert_eq!(cpu.registers[2], 254);
}

#[test]
fn sound_timer_write_records_value_and_time() {
    let mut cpu = CPU::new();
    cpu.set6xnn(4, 12);
    cpu.ldfx18_at(4, 77);
    assert_eq!(cpu.sound_timer, 12);
    assert_eq!(cpu.last_st_write, 77);
    assert_eq!(cpu.delay_timer, 255);
}

#[test]
fn timer_instructions_fail_without_a_reading() {
    let mut cpu = CPU::new();
    cpu.set6xnn(0, 5);
    assert_eq!(cpu.ldfx07_on(0, None), Err(Fault::ClockUnavailable));
    assert_eq!(cpu.ldfx15_on(0, None), Err(Fault::ClockUnavailable));
    assert_eq!(cpu.ldfx18_on(0, None), Err(Fault::ClockUnavailable));
    assert_eq!(cpu.registers[0], 5);
    assert_eq!(cpu.delay_timer, 255);
    cpu.last_dt_write = 500;
    assert_eq!(cpu.ldfx07_on(0, Some(499)), Err(Fault::ClockUnavailable));
    assert_eq!(cpu.registers[0], 5);
    assert_eq!(cpu.ldfx07_on(0, Some(510)), Ok(()));
    assert_eq!(cpu.registers[0], 10);
}

#[test]
fn timers_follow_the_wall_clock() {
    let mut cpu = CPU::new();
    cpu.set6xnn(0, 9);
    assert_eq!(cpu.ldfx15(0), Ok(()));
    assert_eq!(cpu.delay_timer, 9);
    assert!(cpu.last_dt_write > 1_000_000_000_000);
    assert_eq!(cpu.ldfx18(0), Ok(()));
    assert_eq!(cpu.sound_timer, 9);
    assert!(cpu.last_st_write >= cpu.last_dt_write);
    assert_eq!(cpu.ldfx07(1), Ok(()));
    assert!(cpu.registers[1] < 255);
}

#[test]
fn addfx1e_adds_register_to_index() {
    let mut cpu = CPU::new();
    cpu.setannn(0x0FFF);
    cpu.set6xnn(7, 0xFF);
    cpu.addfx1e(7);
    assert_eq!(cpu.i_reg, 0x10FE);
    assert_eq!(cpu.vf, 0);
}

#[test]
fn font_lookup() {
    let mut cpu = CPU::new();
    cpu.set6xnn(0, 0xA);
    cpu.ldfx29(0);
    assert_eq!(cpu.i_reg, 0x50 + 50);
    cpu.set6xnn(0, 0x0);
    cpu.ldfx29(0);
    assert_eq!(cpu.i_reg, 0x50);
    cpu.set6xnn(0, 0xF);
    cpu.ldfx29(0);
    assert_eq!(cpu.i_reg, 0x50 + 75);
    cpu.set6xnn(0, 0x10);
    cpu.ldfx29(0);
    assert_eq!(cpu.i_reg, 0x50);
}

#[test]
fn bcd_writes_three_padded_digits() {
    let mut cpu = CPU::new();
    cpu.setannn(0x300);
    cpu.mem[0x300] = 9;
    cpu.mem[0x301] = 9;
    cpu.mem[0x302] = 9;
    cpu.set6xnn(0, 7);
    cpu.ldfx33(0);
    assert_eq!(&cpu.mem[0x300..0x303], &[0u8, 0, 7][..]);
    cpu.set6xnn(0, 42);
    cpu.ldfx33(0);
    assert_eq!(&cpu.mem[0x300..0x303], &[0u8, 4, 2][..]);
    cpu.set6xnn(0, 255);
    cpu.ldfx33(0);
    assert_eq!(&cpu.mem[0x300..0x303], &[2u8, 5, 5][..]);
    assert_eq!(cpu.mem[0x303], 0);
}

#[test]
fn store_and_load_registers() {
    let mut cpu = CPU::new();
    for r in 0u8..16 {
        cpu.set6xnn(r, 100 + r);
    }
    cpu.setannn(0x400);
    cpu.ldfx55(2);
    assert_eq!(&cpu.mem[0x400..0x404], &[100u8, 101, 102, 0][..]);
    assert_eq!(cpu.i_reg, 0x400);
    cpu.ldfx55(15);
    assert_eq!(cpu.mem[0x40F], 115);
    for r in 0u8..16 {
        cpu.set6xnn(r, 0);
    }
    cpu.ldfx65(1);
    assert_eq!(&cpu.registers[0..3], &[100u8, 101, 0][..]);
    cpu.ldfx65(15);
    assert_eq!(cpu.registers[15], 115);
    cpu.setannn(4095);
    cpu.set6xnn(0, 0xEE);
    cpu.ldfx55(0);
    assert_eq!(cpu.mem[4095], 0xEE);
}

#[test]
fn clear_resets_every_cell() {
    let mut cpu = CPU::new();
    cpu.setannn(0x50);
    cpu.drwdxyn(0, 0, 5);
    assert!(cpu.buf.iter().any(|&c| c == 1));
    cpu.cls00e0();
    assert!(cpu.buf.iter().all(|&c| c == 0));
}

#[test]
fn draw_places_glyph_rows() {
    let mut cpu = CPU::new();
    cpu.set6xnn(0, 0);
    cpu.ldfx29(0);
    cpu.set6xnn(1, 3);
    cpu.set6xnn(2, 2);
    cpu.vf = 1;
    cpu.drwdxyn(1, 2, 5);
    assert_eq!(cpu.vf, 0);
    let rows: [u8; 5] = [0xF0, 0x90, 0x90, 0x90, 0xF0];
    let mut lit: usize = 0;
    for (r, bits) in rows.iter().enumerate() {
        for c in 0usize..8 {
            let want = (bits >> (7 - c)) & 1;
            assert_eq!(cpu.buf[(2 + r) * 64 + 3 + c], want);
            assert_eq!(cpu.pixel(3 + c, 2 + r), want == 1);
            lit += want as usize;
        }
    }
    assert_eq!(cpu.buf.iter().filter(|&&c| c == 1).count(), lit);
    assert_eq!(lit, 14);
}

#[test]
fn draw_origin_wraps_modulo_grid() {
    let mut cpu = CPU::new();
    cpu.setannn(0x300);
    cpu.mem[0x300] = 0x80;
    cpu.set6xnn(0, 64 + 5);
    cpu.set6xnn(1, 32 + 4);
    cpu.drwdxyn(0, 1, 1);
    assert_eq!(cpu.buf[4 * 64 + 5], 1);
    assert_eq!(cpu.buf.iter().filter(|&&c| c == 1).count(), 1);
}

#[test]
fn draw_same_sprite_twice_clears_and_collides() {
    let mut cpu = CPU::new();
    cpu.setannn(0x50 + 50);
    cpu.set6xnn(0, 10);
    cpu.set6xnn(1, 10);
    cpu.drwdxyn(0, 1, 5);
    assert_eq!(cpu.vf, 0);
    cpu.drwdxyn(0, 1, 5);
    assert_eq!(cpu.vf, 1);
    assert!(cpu.buf.iter().all(|&c| c == 0));
}

#[test]
fn draw_overwrites_with_clear_bits() {
    let mut cpu = CPU::new();
    cpu.setannn(0x300);
    cpu.mem[0x300] = 0xFF;
    cpu.mem[0x301] = 0x00;
    cpu.drwdxyn(0, 0, 1);
    assert_eq!(&cpu.buf[0..9], &[1u8, 1, 1, 1, 1, 1, 1, 1, 0][..]);
    cpu.setannn(0x301);
    cpu.drwdxyn(0, 0, 1);
    assert_eq!(cpu.vf, 0);
    assert_eq!(&cpu.buf[0..9], &[0u8; 9][..]);
}

#[test]
fn draw_stops_at_right_border() {
    let mut cpu = CPU::new();
    cpu.setannn(0x300);
    cpu.mem[0x300] = 0xFF;
    cpu.mem[0x301] = 0xFF;
    cpu.set6xnn(0, 60);
    cpu.set6xnn(1, 0);
    cpu.drwdxyn(0, 1, 2);
    assert_eq!(&cpu.buf[60..64], &[1u8, 1, 1, 1][..]);
    assert_eq!(&cpu.buf[64..68], &[0u8, 0, 0, 0][..]);
    assert_eq!(&cpu.buf[124..128], &[1u8, 1, 1, 1][..]);
    assert_eq!(&cpu.buf[128..132], &[0u8, 0, 0, 0][..]);
    assert_eq!(cpu.buf.iter().filter(|&&c| c == 1).count(), 8);
}

#[test]
fn draw_of_no_rows_only_resets_flag() {
    let mut cpu = CPU::new();
    cpu.vf = 1;
    cpu.drwdxyn(0, 0, 0);
    assert_eq!(cpu.vf, 0);
    assert!(cpu.buf.iter().all(|&c| c == 0));
}

#[test]
fn draw_reaches_last_row() {
    let mut cpu = CPU::new();
    cpu.setannn(0x300);
    cpu.mem[0x300] = 0x01;
    cpu.set6xnn(0, 56);
    cpu.set6xnn(1, 31);
    cpu.drwdxyn(0, 1, 1);
    assert_eq!(cpu.buf[2047], 1);
    assert!(cpu.pixel(63, 31));
}
