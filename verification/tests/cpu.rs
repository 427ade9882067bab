use chip8::cpu::CPU;

fn new_cpu() -> CPU {
    CPU::new()
}

#[test]
fn decode_instruction_success() {
    let upper_byte: u8 = 0xAB;
    let lower_byte: u8 = 0xCD;
    let cpu = new_cpu();
    let decoded_instruction = cpu.decode(upper_byte, lower_byte);

    assert_eq!(decoded_instruction.0, 0xA);
    assert_eq!(decoded_instruction.1, 0xB);
    assert_eq!(decoded_instruction.2, 0xC);
    assert_eq!(decoded_instruction.3, 0xD);
}

#[test]
fn decode_instruction_fail() {
    let upper_byte: u8 = 0xAB;
    let lower_byte: u8 = 0xCD;
    let cpu = new_cpu();
    let decoded_instruction = cpu.decode(upper_byte, lower_byte);

    assert_ne!(decoded_instruction.0, 0x6);
    assert_ne!(decoded_instruction.1, 0x9);
    assert_ne!(decoded_instruction.2, 0x4);
    assert_ne!(decoded_instruction.3, 0x2);
}

#[test]
fn test_to_nnn() {
    let a: u8 = 0xA;
    let b: u8 = 0xB;
    let c: u8 = 0xC;
    let cpu = new_cpu();

    let new_val = cpu.to_nnn(a, b, c);

    assert_eq!(new_val, 0xABC);
}

#[test]
fn test_jp1nnn() {
    let mut cpu = new_cpu();

    let arbitrary_value: u16 = 69;

    cpu.jp1nnn(arbitrary_value);

    assert_eq!(cpu.pc, arbitrary_value)
}

#[test]
fn test_set6xnn() {
    let mut cpu = new_cpu();

    let arbitrary_value: u8 = 69;

    cpu.set6xnn(0, arbitrary_value);

    assert_eq!(cpu.registers[0], arbitrary_value);
}

#[test]
fn test_add7xnn() {
    let mut cpu = new_cpu();

    let old_value: u8 = 50;

    cpu.set6xnn(0, old_value);

    let added_value: u8 = 69;

    cpu.add7xnn(0, added_value);

    assert_eq!(cpu.registers[0], old_value + added_value);
}

#[test]
fn test_setannn() {
    let mut cpu = new_cpu();

    let arbitrary_value: u16 = 69;

    cpu.setannn(arbitrary_value);

    assert_eq!(cpu.i_reg, arbitrary_value);
}

#[test]
fn test_call2nnn() {
    let mut cpu = new_cpu();

    let arbitrary_address: u16 = 500;

    cpu.call2nnn(arbitrary_address);

    assert_eq!(cpu.sp, 1);
    assert_eq!(cpu.pc, arbitrary_address);
    assert_eq!(cpu.stack[cpu.sp as usize], arbitrary_address);
}

#[test]
fn test_se3xnn() {
    let mut cpu = new_cpu();

    let arbitrary_value: u8 = 69;

    cpu.set6xnn(0, arbitrary_value);

    cpu.pc = 500;

    cpu.se3xnn(0, arbitrary_value);

    assert_eq!(cpu.pc, 502);
}

#[test]
fn call_and_return_subroutine() {
    let mut cpu = new_cpu();

    let arbitrary_subroutine_address: u16 = 500;

    cpu.call2nnn(arbitrary_subroutine_address);
    cpu.ret00ee();

    assert_eq!(cpu.sp, 0);
}

#[test]
fn test_sne4xnn() {
    let mut cpu = new_cpu();

    let arbitrary_value: u8 = 69;

    cpu.set6xnn(0, arbitrary_value);

    cpu.pc = 500;

    cpu.sne4xnn(0, 42);

    assert_eq!(cpu.pc, 502);
}

#[test]
fn test_se5xy0() {
    let mut cpu = new_cpu();

    let x_val: u8 = 69;
    let y_val: u8 = 69;

    cpu.set6xnn(0, x_val);
    cpu.set6xnn(1, y_val);

    cpu.pc = 500;

    cpu.se5xy0(0, 1);

    assert_eq!(cpu.pc, 502);
}

#[test]
fn test_sne9xy0() {
    let mut cpu = new_cpu();

    let x_val: u8 = 69;
    let y_val: u8 = 42;

    cpu.set6xnn(0, x_val);
    cpu.set6xnn(1, y_val);

    cpu.pc = 500;

    cpu.sne9xy0(0, 1);

    assert_eq!(cpu.pc, 502);
}

#[test]
fn test_ld8xy0() {
    let mut cpu = new_cpu();

    let x_val: u8 = 69;
    let y_val: u8 = 42;

    cpu.set6xnn(0, x_val);
    cpu.set6xnn(1, y_val);

    cpu.ld8xy0(0, 1);

    assert_eq!(cpu.registers[0], cpu.registers[1])
}

#[test]
fn test_or8xy1() {
    let mut cpu = new_cpu();

    let x_val: u8 = 0b1000101;
    let y_val: u8 = 0b101010;

    cpu.set6xnn(0, x_val);
    cpu.set6xnn(1, y_val);

    cpu.or8xy1(0, 1);

    assert_eq!(cpu.registers[0], x_val | y_val);
}

#[test]
fn test_and8xy2() {
    let mut cpu = new_cpu();

    let x_val: u8 = 0b1000101;
    let y_val: u8 = 0b101010;

    cpu.set6xnn(0, x_val);
    cpu.set6xnn(1, y_val);

    cpu.and8xy2(0, 1);

    assert_eq!(cpu.registers[0], x_val & y_val);
}

#[test]
fn test_xor8xy3() {
    let mut cpu = new_cpu();

    let x_val: u8 = 0b1000101;
    let y_val: u8 = 0b101010;

    cpu.set6xnn(0, x_val);
    cpu.set6xnn(1, y_val);

    cpu.xor8xy3(0, 1);

    assert_eq!(cpu.registers[0], x_val ^ y_val);
}

#[test]
fn test_add8xy4_without_overflow() {
    let mut cpu = new_cpu();

    let x_val: u8 = 10;
    let y_val: u8 = 10;

    cpu.set6xnn(0, x_val);
    cpu.set6xnn(1, y_val);

    cpu.add8xy4(0, 1);

    assert_eq!(cpu.vf, 0);
    assert_eq!(cpu.registers[0], 20);
}

#[test]
fn test_add8xy4_with_overflow() {
    let mut cpu = new_cpu();

    let x_val: u8 = 255;
    let y_val: u8 = 255;

    cpu.set6xnn(0, x_val);
    cpu.set6xnn(1, y_val);

    cpu.add8xy4(0, 1);

    assert_eq!(cpu.vf, 1);
}

#[test]
fn test_sub8xy5_without_underflow() {
    let mut cpu = new_cpu();

    let x_val: u8 = 50;
    let y_val: u8 = 25;

    cpu.set6xnn(0, x_val);
    cpu.set6xnn(1, y_val);

    cpu.sub8xy5(0, 1);

    assert_eq!(cpu.vf, 1);
    assert_eq!(cpu.registers[0], 25);
}

#[test]
fn test_sub8xy5_with_underflow() {
    let mut cpu = new_cpu();

    let x_val: u8 = 25;
    let y_val: u8 = 50;

    cpu.set6xnn(0, x_val);
    cpu.set6xnn(1, y_val);

    cpu.sub8xy5(0, 1);

    assert_eq!(cpu.vf, 0);
    assert_eq!(cpu.registers[0], 231);
}
