use lc3_vm::hw::image::ImageError;
use lc3_vm::hw::instruction::{sign_extend, OpCode};
use lc3_vm::hw::machine::Fault;
use lc3_vm::hw::register::{ConditionFlag, Registers, COND_REG, PC_REG, PC_START};
use lc3_vm::hw::vm::{Event, VM};

fn cond(vm: &VM) -> u16 {
    vm.registers.get_val(COND_REG)
}

/// An image at `origin` holding `words`, as big-endian bytes.
fn image(origin: u16, words: &[u16]) -> Vec<u8> {
    let mut bytes = vec![(origin >> 8) as u8, origin as u8];
    for w in words {
        bytes.push((w >> 8) as u8);
        bytes.push(*w as u8);
    }
    bytes
}

#[test]
fn sign_extend_widths() {
    assert_eq!(sign_extend(31, 5), 0xffff);
    assert_eq!(sign_extend(15, 5), 15);
    assert_eq!(sign_extend(0x1ff, 9), 0xffff);
    assert_eq!(sign_extend(0x100, 9), 0xff00);
    assert_eq!(sign_extend(0x0ff, 9), 0x0ff);
    assert_eq!(sign_extend(0x400, 11), 0xfc00);
    assert_eq!(sign_extend(0x20, 6), 0xffe0);
    assert_eq!(sign_extend(1, 1), 0xffff);
    assert_eq!(sign_extend(0, 1), 0);
    assert_eq!(sign_extend(0x8000, 16), 0x8000);
    assert_eq!(sign_extend(0x1234, 16), 0x1234);
}

#[test]
fn sign_extend_replaces_high_bits() {
    // bits above the width follow bit n-1, whatever they held
    assert_eq!(sign_extend(0xff0f, 5), 0x000f);
    assert_eq!(sign_extend(0x0010, 5), 0xfff0);
}

#[test]
fn decode_all_opcodes() {
    let expected = [
        OpCode::OpBr,
        OpCode::OpAdd,
        OpCode::OpLd,
        OpCode::OpSt,
        OpCode::OpJsr,
        OpCode::OpAnd,
        OpCode::OpLdr,
        OpCode::OpStr,
        OpCode::OpRti,
        OpCode::OpNot,
        OpCode::OpLdi,
        OpCode::OpSti,
        OpCode::OpJmp,
        OpCode::OpRes,
        OpCode::OpLea,
        OpCode::OpTrap,
    ];
    for (code, op) in expected.iter().enumerate() {
        let word: u16 = ((code as u16) << 12) | 0x0abc;
        assert_eq!(OpCode::from_u16(&word), Some(*op));
    }
}

#[test]
fn fresh_registers() {
    let regs = Registers::new();
    for r in 0..8u8 {
        assert_eq!(regs.get_val(r), 0);
    }
    assert_eq!(regs.get_val(PC_REG), PC_START);
    assert_eq!(regs.get_val(COND_REG), ConditionFlag::ZERO.value());
}

#[test]
fn condition_flags_classify_values() {
    let mut regs = Registers::new();
    regs.update_register(3, 0x7fff);
    regs.update_cond_register(3);
    assert_eq!(regs.get_val(COND_REG), 1);
    regs.update_register(3, 0x8000);
    regs.update_cond_register(3);
    assert_eq!(regs.get_val(COND_REG), 4);
    regs.update_register(3, 0);
    regs.update_cond_register(3);
    assert_eq!(regs.get_val(COND_REG), 2);
}

#[test]
fn add_wraps_around() {
    let mut vm = VM::new();
    vm.registers.update_register(1, 0xffff);
    vm.registers.update_register(2, 2);
    // ADD R0 R1 R2
    vm.add(0b0001_000_001_000_010);
    assert_eq!(vm.registers.get_val(0), 1);
    assert_eq!(cond(&vm), ConditionFlag::POS.value());
}

#[test]
fn and_immediate_zero_clears_any_operand() {
    let mut vm = VM::new();
    vm.registers.update_register(5, 0xbeef);
    // AND R4 R5 #0
    vm.and(0b0101_100_101_1_00000);
    assert_eq!(vm.registers.get_val(4), 0);
    assert_eq!(cond(&vm), ConditionFlag::ZERO.value());
}

#[test]
fn not_complements() {
    let mut vm = VM::new();
    vm.registers.update_register(1, 0x00f0);
    // NOT R2 R1
    vm.not(0b1001_010_001_111111);
    assert_eq!(vm.registers.get_val(2), 0xff0f);
    assert_eq!(cond(&vm), ConditionFlag::NEG.value());
}

#[test]
fn br_backwards_and_unconditional() {
    let mut vm = VM::new();
    // condition is ZERO; BRnzp -2
    vm.br(0b0000_111_111111110);
    assert_eq!(vm.registers.get_val(PC_REG), PC_START - 2);
    // BR with no condition bits never branches
    vm.br(0b0000_000_000000101);
    assert_eq!(vm.registers.get_val(PC_REG), PC_START - 2);
}

#[test]
fn jsr_links_and_jumps_by_offset() {
    let mut vm = VM::new();
    // JSR +0x10
    vm.jsr(0b0100_1_00000010000);
    assert_eq!(vm.registers.get_val(7), PC_START);
    assert_eq!(vm.registers.get_val(PC_REG), PC_START + 0x10);
}

#[test]
fn jsrr_links_and_jumps_to_base() {
    let mut vm = VM::new();
    vm.registers.update_register(3, 0x4000);
    // JSRR R3
    vm.jsr(0b0100_0_00_011_000000);
    assert_eq!(vm.registers.get_val(7), PC_START);
    assert_eq!(vm.registers.get_val(PC_REG), 0x4000);
}

#[test]
fn loads_set_condition_flags() {
    let mut vm = VM::new();
    vm.write_memory(0x3005, 0x8001);
    // LD R1 #5
    vm.ld(0b0010_001_000000101);
    assert_eq!(vm.registers.get_val(1), 0x8001);
    assert_eq!(cond(&vm), ConditionFlag::NEG.value());

    vm.write_memory(0x3006, 0x4000);
    vm.write_memory(0x4000, 7);
    // LDI R2 #6
    vm.ldi(0b1010_010_000000110);
    assert_eq!(vm.registers.get_val(2), 7);
    assert_eq!(cond(&vm), ConditionFlag::POS.value());

    // LDR R3 R2 #-1: mem[6] is 0
    vm.ldr(0b0110_011_010_111111);
    assert_eq!(vm.registers.get_val(3), 0);
    assert_eq!(cond(&vm), ConditionFlag::ZERO.value());

    // LEA R4 #-1
    vm.lea(0b1110_100_111111111);
    assert_eq!(vm.registers.get_val(4), PC_START - 1);
    assert_eq!(cond(&vm), ConditionFlag::POS.value());
}

#[test]
fn stores_leave_condition_flags() {
    let mut vm = VM::new();
    // ADD R1 R1 #-1: NEG
    vm.add(0b0001_001_001_1_11111);
    assert_eq!(cond(&vm), ConditionFlag::NEG.value());
    // ST R1 #2
    vm.st(0b0011_001_000000010);
    assert_eq!(vm.read_memory(0x3002), Some(0xffff));
    assert_eq!(cond(&vm), ConditionFlag::NEG.value());
    // STR R1 R0 #3: mem[3]
    vm.str(0b0111_001_000_000011);
    assert_eq!(vm.read_memory(3), Some(0xffff));
    assert_eq!(cond(&vm), ConditionFlag::NEG.value());
    // STI R1 #4: pointer mem[0x3004] is 0, so mem[0]
    vm.sti(0b1011_001_000000100);
    assert_eq!(vm.read_memory(0), Some(0xffff));
    assert_eq!(cond(&vm), ConditionFlag::NEG.value());
}

#[test]
fn store_then_load_round_trips() {
    let mut vm = VM::new();
    vm.registers.update_register(1, 0x1234);
    vm.registers.update_register(2, 0x5000);
    // ST R1 #9 then LD R3 #9
    vm.st(0b0011_001_000001001);
    vm.ld(0b0010_011_000001001);
    assert_eq!(vm.registers.get_val(3), 0x1234);
    // STR R1 R2 #-2 then LDR R4 R2 #-2
    vm.str(0b0111_001_010_111110);
    vm.ldr(0b0110_100_010_111110);
    assert_eq!(vm.registers.get_val(4), 0x1234);
    assert_eq!(vm.read_memory(0x4ffe), Some(0x1234));
    // STI R1 #20 then LDI R5 #20 through pointer 0x6000
    vm.write_memory(0x3014, 0x6000);
    vm.registers.update_register(1, 0x0042);
    vm.sti(0b1011_001_000010100);
    vm.ldi(0b1010_101_000010100);
    assert_eq!(vm.registers.get_val(5), 0x0042);
    assert_eq!(vm.read_memory(0x6000), Some(0x0042));
}

#[test]
fn effective_addresses_wrap() {
    let mut vm = VM::new();
    vm.registers.update_register(2, 0xffff);
    vm.registers.update_register(1, 9);
    // STR R1 R2 #2: 0xffff + 2 wraps to 1
    vm.str(0b0111_001_010_000010);
    assert_eq!(vm.read_memory(1), Some(9));
}

#[test]
fn memory_addresses_wrap() {
    let mut vm = VM::new();
    vm.write_memory(65535, 77);
    assert_eq!(vm.read_memory(65535), Some(77));
    vm.write_memory(65536 + 5, 12);
    assert_eq!(vm.read_memory(5), Some(12));
    assert_eq!(vm.read_memory(65536 + 5), Some(12));
    assert_eq!(vm.read_memory(2 * 65536 - 1), Some(77));
}

#[test]
fn br_each_bit_tests_its_own_flag() {
    let mut vm = VM::new();
    // a fresh machine holds ZERO
    assert_eq!(cond(&vm), ConditionFlag::ZERO.value());
    // BRn #5 does not branch on ZERO
    vm.br(0b0000_100_000000101);
    assert_eq!(vm.registers.get_val(PC_REG), PC_START);
    // BRp #5 does not branch on ZERO
    vm.br(0b0000_001_000000101);
    assert_eq!(vm.registers.get_val(PC_REG), PC_START);
    // BRz #5 branches on ZERO
    vm.br(0b0000_010_000000101);
    assert_eq!(vm.registers.get_val(PC_REG), PC_START + 5);

    // NOT R1 R0: 0xffff, NEG
    vm.not(0b1001_001_000_111111);
    assert_eq!(cond(&vm), ConditionFlag::NEG.value());
    // BRz #1 does not branch on NEG
    vm.br(0b0000_010_000000001);
    assert_eq!(vm.registers.get_val(PC_REG), PC_START + 5);
    // BRn #1 branches on NEG
    vm.br(0b0000_100_000000001);
    assert_eq!(vm.registers.get_val(PC_REG), PC_START + 6);
}

#[test]
fn reserved_and_privileged_fault() {
    let mut vm = VM::new();
    assert_eq!(vm.res(0xd000), Fault::Reserved);
    assert_eq!(vm.rti(0x8000), Fault::Privileged);
    assert_eq!(vm.perform_instruction(0xd000), Event::Fault(Fault::Reserved));
    assert_eq!(vm.perform_instruction(0x8000), Event::Fault(Fault::Privileged));
}

#[test]
fn trap_out_writes_low_byte() {
    let mut vm = VM::new();
    vm.registers.update_register(0, 0x1241);
    assert_eq!(vm.trap(0xf021), Event::Output(vec![0x41]));
    assert_eq!(vm.registers.get_val(7), PC_START);
}

#[test]
fn trap_puts_writes_string() {
    let mut vm = VM::new();
    vm.registers.update_register(0, 0x4000);
    vm.write_memory(0x4000, 'h' as u16);
    vm.write_memory(0x4001, 'i' as u16);
    vm.write_memory(0x4002, 0);
    vm.write_memory(0x4003, 'x' as u16);
    assert_eq!(vm.trap(0xf022), Event::Output(b"hi".to_vec()));
}

#[test]
fn trap_putsp_writes_packed_string() {
    let mut vm = VM::new();
    vm.registers.update_register(0, 0x4000);
    vm.write_memory(0x4000, ('e' as u16) << 8 | 'h' as u16);
    vm.write_memory(0x4001, 'y' as u16);
    vm.write_memory(0x4002, 0);
    assert_eq!(vm.trap(0xf024), Event::Output(b"hey".to_vec()));
}

#[test]
fn trap_reads_and_supplied_char() {
    let mut vm = VM::new();
    assert_eq!(vm.trap(0xf020), Event::ReadChar { echo: false });
    assert_eq!(vm.trap(0xf023), Event::ReadChar { echo: true });
    vm.registers.update_register(0, 0xff00);
    vm.supply_char(b'q');
    assert_eq!(vm.registers.get_val(0), b'q' as u16);
}

#[test]
fn unknown_trap_faults() {
    let mut vm = VM::new();
    assert_eq!(vm.trap(0xf026), Event::Fault(Fault::TrapNotFound(0x26)));
}

#[test]
fn halt_ends_the_run() {
    let mut vm = VM::new();
    // ADD R1 R1 #1; HALT; ADD R1 R1 #1
    let bytes = image(0x3000, &[0x1261, 0xf025, 0x1261]);
    assert_eq!(vm.load_image(&bytes), Ok(()));
    assert_eq!(vm.execute_program(100), Event::Halt);
    assert!(vm.halted);
    assert_eq!(vm.registers.get_val(1), 1);
    assert_eq!(vm.registers.get_val(PC_REG), 0x3002);
    assert_eq!(vm.execute_program(100), Event::Halt);
    assert_eq!(vm.registers.get_val(1), 1);
    assert_eq!(vm.registers.get_val(PC_REG), 0x3002);
}

#[test]
fn one_step_of_loaded_add() {
    let mut vm = VM::new();
    // ADD R2 R3 #31
    let bytes = image(0x3000, &[0b0001_010_011_1_11111]);
    assert_eq!(bytes, vec![0x30, 0x00, 0x14, 0xff]);
    assert_eq!(vm.load_image(&bytes), Ok(()));
    assert_eq!(vm.read_memory(0x3000), Some(0x14ff));
    assert_eq!(vm.execute_program(1), Event::Continue);
    assert_eq!(vm.registers.get_val(2), 0xffff);
    assert_eq!(vm.registers.get_val(3), 0);
    assert_eq!(cond(&vm), ConditionFlag::NEG.value());
    assert_eq!(vm.registers.get_val(PC_REG), 0x3001);
    for r in [0u8, 1, 4, 5, 6, 7] {
        assert_eq!(vm.registers.get_val(r), 0);
    }
}

#[test]
fn run_stops_at_output() {
    let mut vm = VM::new();
    // LEA R0 #2; PUTS; HALT; "ok"
    let bytes = image(0x3000, &[0xe002, 0xf022, 0xf025, 'o' as u16, 'k' as u16, 0]);
    assert_eq!(vm.load_image(&bytes), Ok(()));
    assert_eq!(vm.execute_program(100), Event::Output(b"ok".to_vec()));
    assert_eq!(vm.execute_program(100), Event::Halt);
}

#[test]
fn pc_at_top_halts() {
    let mut vm = VM::new();
    vm.registers.update_register(PC_REG, 0xffff);
    assert_eq!(vm.step(), Event::Halt);
    assert!(vm.halted);
}

#[test]
fn image_errors_and_origin() {
    let mut vm = VM::new();
    assert_eq!(vm.load_image(&[]), Err(ImageError::MissingOrigin));
    assert_eq!(vm.load_image(&[0x30]), Err(ImageError::MissingOrigin));
    assert_eq!(vm.load_image(&[0xff, 0xff, 0, 1, 0, 2]), Err(ImageError::TooLarge));
    assert_eq!(vm.registers.get_val(PC_REG), PC_START);
    // a trailing odd byte is not a word
    assert_eq!(vm.load_image(&[0x40, 0x00, 0x12, 0x34, 0x56]), Ok(()));
    assert_eq!(vm.registers.get_val(PC_REG), 0x4000);
    assert_eq!(vm.read_memory(0x4000), Some(0x1234));
    assert_eq!(vm.read_memory(0x4001), Some(0));
    assert_eq!(vm.load_image(&[0xff, 0xff, 0xab, 0xcd]), Ok(()));
    assert_eq!(vm.read_memory(0xffff), Some(0xabcd));
}
