use chip8::instruction::Chip8Instruction;
use chip8::state::Chip8State;

#[test]
fn load_data() {
    let mut ch8core = Chip8State::new();
    assert_eq!(ch8core.ram[0x200], 0);
    assert_eq!(ch8core.ram[0x201], 0);
    assert_eq!(ch8core.ram[0x202], 0);
    assert_eq!(ch8core.ram[0x203], 0);

    let data: &[u8] = &[1, 2, 3, 4];
    ch8core = ch8core.load(data);
    assert_eq!(ch8core.ram[0x199], 0);
    assert_eq!(ch8core.ram[0x200], 1);
    assert_eq!(ch8core.ram[0x201], 2);
    assert_eq!(ch8core.ram[0x202], 3);
    assert_eq!(ch8core.ram[0x203], 4);
    assert_eq!(ch8core.ram[0x204], 0);
}

#[test]
fn nibble_extraction() {
    let op = Chip8Instruction(0xABCD);
    assert_eq!(op.nibble(1), 0x0A);
    assert_eq!(op.nibble(2), 0x0B);
    assert_eq!(op.nibble(3), 0x0C);
    assert_eq!(op.nibble(4), 0x0D);
}

#[test]
fn return_from_subroutine_instruction() {
    let mut ch8core = Chip8State::new();
    let initial_sp = ch8core.sp;
    // set some ret address
    ch8core.ram[ch8core.sp as usize] = 0x0A;
    ch8core.ram[(ch8core.sp + 1) as usize] = 0xBC;
    // load return instruction and execute
    ch8core = ch8core.load(&[0x00, 0xEE]);
    ch8core = ch8core.exec_instruction();
    // check state
    assert_eq!(ch8core.sp, initial_sp - 2);
    assert_eq!(ch8core.pc, 0x0ABC);
}
