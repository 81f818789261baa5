use gb_core::cpu::{CPU, RunState};

fn cpu_with(program: &[u8]) -> CPU {
    let mut cpu = CPU::new();
    cpu.memory_bus.load_rom(&program.to_vec());
    cpu
}

// ---------------------------------------------------------------- block 1

#[test]
fn ld_register_to_register() {
    let mut cpu = cpu_with(&[0x41]);
    cpu.registers.c = 0x99;
    cpu.cycle();
    assert_eq!(cpu.registers.b, 0x99, "LD B,C");
    assert_eq!(cpu.registers.pc, 1);
}

#[test]
fn ld_through_hl_in_both_directions() {
    let mut cpu = cpu_with(&[0x70]);
    cpu.registers.b = 0x5A;
    cpu.registers.set_hl(0x2000);
    cpu.cycle();
    assert_eq!(cpu.memory_bus.read_byte(0x2000), 0x5A, "LD [HL],B");

    let mut cpu = cpu_with(&[0x46]);
    cpu.registers.set_hl(0x2000);
    cpu.memory_bus.set_byte(0x2000, 0x6B);
    cpu.cycle();
    assert_eq!(cpu.registers.b, 0x6B, "LD B,[HL]");
}

#[test]
fn halt_suspends_the_core() {
    let mut cpu = cpu_with(&[0x76, 0x00]);
    cpu.cycle();
    assert_eq!(cpu.state, RunState::Halted);
    assert_eq!(cpu.registers.pc, 1);
    cpu.cycle();
    assert_eq!(cpu.registers.pc, 1, "a halted CPU does not fetch");
    cpu.resume();
    cpu.cycle();
    assert_eq!(cpu.registers.pc, 2);
}

// ---------------------------------------------------------------- block 2

#[test]
fn add_reports_zero_carry_and_half_carry() {
    let mut cpu = cpu_with(&[0x80]);
    cpu.registers.a = 0x3A;
    cpu.registers.b = 0xC6;
    cpu.cycle();
    assert_eq!(cpu.registers.a, 0x00);
    assert!(cpu.registers.f.z);
    assert!(cpu.registers.f.c);
    assert!(cpu.registers.f.h);
    assert!(!cpu.registers.f.s);
}

#[test]
fn adc_adds_the_incoming_carry() {
    let mut cpu = cpu_with(&[0x88]);
    cpu.registers.a = 0x00;
    cpu.registers.b = 0x0F;
    cpu.registers.f.c = true;
    cpu.cycle();
    assert_eq!(cpu.registers.a, 0x10);
    assert!(cpu.registers.f.h);
    assert!(!cpu.registers.f.c);
}

#[test]
fn sub_of_equal_values_is_zero() {
    let mut cpu = cpu_with(&[0x90]);
    cpu.registers.a = 0x3E;
    cpu.registers.b = 0x3E;
    cpu.cycle();
    assert_eq!(cpu.registers.a, 0x00);
    assert!(cpu.registers.f.z);
    assert!(cpu.registers.f.s);
    assert!(!cpu.registers.f.c);
    assert!(!cpu.registers.f.h);
}

#[test]
fn sub_borrows_and_wraps() {
    let mut cpu = cpu_with(&[0x90]);
    cpu.registers.a = 0x10;
    cpu.registers.b = 0x20;
    cpu.cycle();
    assert_eq!(cpu.registers.a, 0xF0);
    assert!(cpu.registers.f.c, "borrow sets Carry");
    assert!(!cpu.registers.f.h);
}

#[test]
fn sbc_subtracts_the_incoming_carry() {
    let mut cpu = cpu_with(&[0x98]);
    cpu.registers.a = 0x10;
    cpu.registers.b = 0x00;
    cpu.registers.f.c = true;
    cpu.cycle();
    assert_eq!(cpu.registers.a, 0x0F);
    assert!(cpu.registers.f.h);
    assert!(!cpu.registers.f.c);
}

#[test]
fn and_xor_or_fix_their_flags() {
    let mut cpu = cpu_with(&[0xA0]);
    cpu.registers.a = 0x5A;
    cpu.registers.b = 0x3F;
    cpu.registers.f.c = true;
    cpu.cycle();
    assert_eq!(cpu.registers.a, 0x1A);
    assert!(cpu.registers.f.h, "AND always sets HalfCarry");
    assert!(!cpu.registers.f.c);

    let mut cpu = cpu_with(&[0xAF]);
    cpu.registers.a = 0x5A;
    cpu.cycle();
    assert_eq!(cpu.registers.a, 0x00, "XOR A,A clears the accumulator");
    assert!(cpu.registers.f.z);
    assert!(!cpu.registers.f.h);

    let mut cpu = cpu_with(&[0xB0]);
    cpu.registers.a = 0x5A;
    cpu.registers.b = 0x0F;
    cpu.cycle();
    assert_eq!(cpu.registers.a, 0x5F);
    assert!(!cpu.registers.f.z);
}

#[test]
fn cp_compares_without_touching_the_accumulator() {
    let mut cpu = cpu_with(&[0xB8]);
    cpu.registers.a = 0x3C;
    cpu.registers.b = 0x2F;
    cpu.cycle();
    assert_eq!(cpu.registers.a, 0x3C);
    assert!(!cpu.registers.f.z);
    assert!(cpu.registers.f.s);
    assert!(cpu.registers.f.h, "low nibble borrows: 0xC < 0xF");
    assert!(!cpu.registers.f.c);
}

#[test]
fn alu_takes_the_hl_operand_from_memory() {
    let mut cpu = cpu_with(&[0x86]);
    cpu.registers.a = 0x01;
    cpu.registers.set_hl(0x2000);
    cpu.memory_bus.set_byte(0x2000, 0x41);
    cpu.cycle();
    assert_eq!(cpu.registers.a, 0x42);
}

#[test]
fn immediate_alu_reads_its_operand_from_the_stream() {
    let mut cpu = cpu_with(&[0xC6, 0x05]);
    cpu.registers.a = 0x01;
    cpu.cycle();
    assert_eq!(cpu.registers.a, 0x06);
    assert_eq!(cpu.registers.pc, 2);

    let mut cpu = cpu_with(&[0xFE, 0x42]);
    cpu.registers.a = 0x42;
    cpu.cycle();
    assert_eq!(cpu.registers.a, 0x42);
    assert!(cpu.registers.f.z, "CP n8 against an equal value");

    let mut cpu = cpu_with(&[0xEE, 0xFF]);
    cpu.registers.a = 0x0F;
    cpu.cycle();
    assert_eq!(cpu.registers.a, 0xF0, "XOR n8");
}

// ---------------------------------------------------------------- block 3

#[test]
fn push_and_pop_round_trip_through_the_stack() {
    let mut cpu = cpu_with(&[0xC5, 0xD1]);
    cpu.registers.sp = 0xFFFE;
    cpu.registers.set_bc(0x1234);
    cpu.cycle();
    assert_eq!(cpu.registers.sp, 0xFFFC);
    assert_eq!(cpu.memory_bus.read_byte(0xFFFD), 0x12, "high byte first going down");
    assert_eq!(cpu.memory_bus.read_byte(0xFFFC), 0x34);
    cpu.cycle();
    assert_eq!(cpu.registers.de(), 0x1234, "POP DE sees what PUSH BC wrote");
    assert_eq!(cpu.registers.sp, 0xFFFE);
}

#[test]
fn push_af_packs_the_flag_byte() {
    let mut cpu = cpu_with(&[0xF5, 0xC1]);
    cpu.registers.sp = 0xFFFE;
    cpu.registers.a = 0x12;
    cpu.registers.f.z = true;
    cpu.registers.f.c = true;
    cpu.cycle();
    cpu.cycle();
    assert_eq!(cpu.registers.bc(), 0x1290, "A over the packed flags 0x90");
}

#[test]
fn pop_af_unpacks_the_flags_and_drops_the_low_nibble() {
    let mut cpu = cpu_with(&[0xF1]);
    cpu.registers.sp = 0x8000;
    cpu.memory_bus.set_byte(0x8000, 0xFF);
    cpu.memory_bus.set_byte(0x8001, 0xAB);
    cpu.cycle();
    assert_eq!(cpu.registers.a, 0xAB);
    assert!(cpu.registers.f.z);
    assert!(cpu.registers.f.s);
    assert!(cpu.registers.f.h);
    assert!(cpu.registers.f.c);
    assert_eq!(cpu.registers.sp, 0x8002);
}

#[test]
fn call_pushes_the_return_address_and_ret_comes_back() {
    let mut cpu = cpu_with(&[0xCD, 0x10, 0x00]);
    cpu.registers.sp = 0xFFFE;
    cpu.memory_bus.set_byte(0x0010, 0xC9);
    cpu.cycle();
    assert_eq!(cpu.registers.pc, 0x0010);
    assert_eq!(cpu.registers.sp, 0xFFFC);
    assert_eq!(cpu.memory_bus.read_byte(0xFFFD), 0x00);
    assert_eq!(cpu.memory_bus.read_byte(0xFFFC), 0x03, "return address is the next opcode");
    cpu.cycle();
    assert_eq!(cpu.registers.pc, 0x0003, "RET pops the return address");
    assert_eq!(cpu.registers.sp, 0xFFFE);
}

#[test]
fn conditional_call_and_ret_follow_the_flags() {
    let mut cpu = cpu_with(&[0xC4, 0x10, 0x00]);
    cpu.registers.sp = 0xFFFE;
    cpu.registers.f.z = true;
    cpu.cycle();
    assert_eq!(cpu.registers.pc, 0x0003, "CALL NZ not taken still consumes the word");
    assert_eq!(cpu.registers.sp, 0xFFFE);

    let mut cpu = cpu_with(&[0xC0]);
    cpu.registers.sp = 0x8000;
    cpu.memory_bus.set_byte(0x8000, 0x40);
    cpu.memory_bus.set_byte(0x8001, 0x00);
    cpu.registers.f.z = false;
    cpu.cycle();
    assert_eq!(cpu.registers.pc, 0x0040, "RET NZ taken");
    assert_eq!(cpu.registers.sp, 0x8002);

    let mut cpu = cpu_with(&[0xC0]);
    cpu.registers.sp = 0x8000;
    cpu.registers.f.z = true;
    cpu.cycle();
    assert_eq!(cpu.registers.pc, 0x0001, "RET NZ not taken");
    assert_eq!(cpu.registers.sp, 0x8000);
}

#[test]
fn reti_returns_and_enables_interrupts() {
    let mut cpu = cpu_with(&[0xD9]);
    cpu.registers.sp = 0x8000;
    cpu.memory_bus.set_byte(0x8000, 0x34);
    cpu.memory_bus.set_byte(0x8001, 0x12);
    assert!(!cpu.ime);
    cpu.cycle();
    assert_eq!(cpu.registers.pc, 0x1234);
    assert!(cpu.ime);
}

#[test]
fn absolute_jumps() {
    let mut cpu = cpu_with(&[0xC3, 0x10, 0x20]);
    cpu.cycle();
    assert_eq!(cpu.registers.pc, 0x2010);

    let mut cpu = cpu_with(&[0xCA, 0x10, 0x20]);
    cpu.registers.f.z = false;
    cpu.cycle();
    assert_eq!(cpu.registers.pc, 0x0003, "JP Z not taken");

    let mut cpu = cpu_with(&[0xCA, 0x10, 0x20]);
    cpu.registers.f.z = true;
    cpu.cycle();
    assert_eq!(cpu.registers.pc, 0x2010, "JP Z taken");

    let mut cpu = cpu_with(&[0xE9]);
    cpu.registers.set_hl(0x1234);
    cpu.cycle();
    assert_eq!(cpu.registers.pc, 0x1234, "JP HL");
}

#[test]
fn rst_calls_into_the_low_page() {
    let mut cpu = cpu_with(&[0xFF]);
    cpu.registers.sp = 0xFFFE;
    cpu.cycle();
    assert_eq!(cpu.registers.pc, 0x0038);
    assert_eq!(cpu.memory_bus.read_byte(0xFFFD), 0x00);
    assert_eq!(cpu.memory_bus.read_byte(0xFFFC), 0x01);

    let mut cpu = cpu_with(&[0xD7]);
    cpu.registers.sp = 0xFFFE;
    cpu.cycle();
    assert_eq!(cpu.registers.pc, 0x0010);
}

#[test]
fn high_page_loads_in_both_directions() {
    let mut cpu = cpu_with(&[0xE0, 0x80]);
    cpu.registers.a = 0x42;
    cpu.cycle();
    assert_eq!(cpu.memory_bus.read_byte(0xFF80), 0x42);
    assert_eq!(cpu.registers.pc, 2);

    let mut cpu = cpu_with(&[0xF0, 0x80]);
    cpu.memory_bus.set_byte(0xFF80, 0x99);
    cpu.cycle();
    assert_eq!(cpu.registers.a, 0x99);

    let mut cpu = cpu_with(&[0xE2]);
    cpu.registers.a = 0x55;
    cpu.registers.c = 0x81;
    cpu.cycle();
    assert_eq!(cpu.memory_bus.read_byte(0xFF81), 0x55);

    let mut cpu = cpu_with(&[0xF2]);
    cpu.registers.c = 0x81;
    cpu.memory_bus.set_byte(0xFF81, 0x66);
    cpu.cycle();
    assert_eq!(cpu.registers.a, 0x66);
}

#[test]
fn absolute_accumulator_loads_in_both_directions() {
    let mut cpu = cpu_with(&[0xEA, 0x00, 0x40]);
    cpu.registers.a = 0x24;
    cpu.cycle();
    assert_eq!(cpu.memory_bus.read_byte(0x4000), 0x24);
    assert_eq!(cpu.registers.pc, 3);

    let mut cpu = cpu_with(&[0xFA, 0x00, 0x40]);
    cpu.memory_bus.set_byte(0x4000, 0x12);
    cpu.cycle();
    assert_eq!(cpu.registers.a, 0x12);
}

#[test]
fn add_sp_n8_uses_unsigned_byte_flags() {
    let mut cpu = cpu_with(&[0xE8, 0xFE]);
    cpu.registers.sp = 0x0005;
    cpu.cycle();
    assert_eq!(cpu.registers.sp, 0x0003, "displacement -2");
    assert!(cpu.registers.f.h, "0x5 + 0xE carries out of bit 3");
    assert!(cpu.registers.f.c, "0x05 + 0xFE carries out of bit 7");
    assert!(!cpu.registers.f.z);
    assert!(!cpu.registers.f.s);
}

#[test]
fn ld_hl_sp_n8_leaves_sp_alone() {
    let mut cpu = cpu_with(&[0xF8, 0x01]);
    cpu.registers.sp = 0x00FF;
    cpu.cycle();
    assert_eq!(cpu.registers.hl(), 0x0100);
    assert_eq!(cpu.registers.sp, 0x00FF);
    assert!(cpu.registers.f.h);
    assert!(cpu.registers.f.c);
}

#[test]
fn ld_sp_hl_copies_the_pair() {
    let mut cpu = cpu_with(&[0xF9]);
    cpu.registers.set_hl(0x8000);
    cpu.cycle();
    assert_eq!(cpu.registers.sp, 0x8000);
}

#[test]
fn di_and_ei_drive_the_interrupt_enable_bit() {
    let mut cpu = cpu_with(&[0xFB, 0xF3]);
    cpu.cycle();
    assert!(cpu.ime, "EI");
    cpu.cycle();
    assert!(!cpu.ime, "DI");
}

// ---------------------------------------------------------------- prefixed

#[test]
fn cb_rlc_b_rotates_into_carry() {
    let mut cpu = cpu_with(&[0xCB, 0x00]);
    cpu.registers.b = 0x80;
    cpu.cycle();
    assert_eq!(cpu.registers.b, 0x01);
    assert!(cpu.registers.f.c);
    assert_eq!(cpu.registers.pc, 2);
    assert!(!cpu.registers.f.z);
}

#[test]
fn cb_rotates_and_shifts() {
    let mut cpu = cpu_with(&[0xCB, 0x09]);
    cpu.registers.c = 0x01;
    cpu.cycle();
    assert_eq!(cpu.registers.c, 0x80, "RRC C");
    assert!(cpu.registers.f.c);

    let mut cpu = cpu_with(&[0xCB, 0x10]);
    cpu.registers.b = 0x00;
    cpu.registers.f.c = true;
    cpu.cycle();
    assert_eq!(cpu.registers.b, 0x01, "RL B pulls the old carry in");
    assert!(!cpu.registers.f.c);

    let mut cpu = cpu_with(&[0xCB, 0x19]);
    cpu.registers.c = 0x01;
    cpu.registers.f.c = false;
    cpu.cycle();
    assert_eq!(cpu.registers.c, 0x00, "RR C");
    assert!(cpu.registers.f.z);
    assert!(cpu.registers.f.c);

    let mut cpu = cpu_with(&[0xCB, 0x20]);
    cpu.registers.b = 0xC0;
    cpu.cycle();
    assert_eq!(cpu.registers.b, 0x80, "SLA B");
    assert!(cpu.registers.f.c);

    let mut cpu = cpu_with(&[0xCB, 0x28]);
    cpu.registers.b = 0x81;
    cpu.cycle();
    assert_eq!(cpu.registers.b, 0xC0, "SRA B keeps the sign bit");
    assert!(cpu.registers.f.c);

    let mut cpu = cpu_with(&[0xCB, 0x30]);
    cpu.registers.b = 0xAB;
    cpu.cycle();
    assert_eq!(cpu.registers.b, 0xBA, "SWAP B");
    assert!(!cpu.registers.f.c);

    let mut cpu = cpu_with(&[0xCB, 0x38]);
    cpu.registers.b = 0x81;
    cpu.cycle();
    assert_eq!(cpu.registers.b, 0x40, "SRL B clears the sign bit");
    assert!(cpu.registers.f.c);
}

#[test]
fn cb_operations_reach_memory_through_hl() {
    let mut cpu = cpu_with(&[0xCB, 0x06]);
    cpu.registers.set_hl(0x5000);
    cpu.memory_bus.set_byte(0x5000, 0x80);
    cpu.cycle();
    assert_eq!(cpu.memory_bus.read_byte(0x5000), 0x01, "RLC [HL]");
    assert!(cpu.registers.f.c);
}

#[test]
fn cb_bit_res_and_set() {
    let mut cpu = cpu_with(&[0xCB, 0x40]);
    cpu.registers.b = 0x80;
    cpu.cycle();
    assert!(cpu.registers.f.z, "BIT 0,B on a clear bit sets Zero");
    assert!(cpu.registers.f.h);
    assert!(!cpu.registers.f.s);
    assert_eq!(cpu.registers.b, 0x80, "BIT leaves the operand alone");

    let mut cpu = cpu_with(&[0xCB, 0x78]);
    cpu.registers.b = 0x80;
    cpu.registers.f.c = true;
    cpu.cycle();
    assert!(!cpu.registers.f.z, "BIT 7,B on a set bit clears Zero");
    assert!(cpu.registers.f.c, "BIT leaves Carry alone");

    let mut cpu = cpu_with(&[0xCB, 0xB8]);
    cpu.registers.b = 0xFF;
    cpu.cycle();
    assert_eq!(cpu.registers.b, 0x7F, "RES 7,B");

    let mut cpu = cpu_with(&[0xCB, 0xC0]);
    cpu.registers.b = 0x00;
    cpu.cycle();
    assert_eq!(cpu.registers.b, 0x01, "SET 0,B");
}

// ---------------------------------------------------------------- the bus

#[test]
fn memory_starts_zeroed_and_takes_writes() {
    let mut cpu = CPU::new();
    assert_eq!(cpu.memory_bus.read_byte(0x0000), 0);
    assert_eq!(cpu.memory_bus.read_byte(0xFFFF), 0);
    cpu.memory_bus.set_byte(0x8123, 0xAB);
    assert_eq!(cpu.memory_bus.read_byte(0x8123), 0xAB);
}

#[test]
fn read_word_composes_big_endian_and_wraps() {
    let mut cpu = CPU::new();
    cpu.memory_bus.set_byte(0x0100, 0xAB);
    cpu.memory_bus.set_byte(0x0101, 0xCD);
    assert_eq!(cpu.memory_bus.read_word(0x0100), 0xABCD);
    cpu.memory_bus.set_byte(0xFFFF, 0x12);
    cpu.memory_bus.set_byte(0x0000, 0x34);
    assert_eq!(cpu.memory_bus.read_word(0xFFFF), 0x1234);
}

#[test]
fn load_rom_fills_from_address_zero() {
    let mut cpu = CPU::new();
    cpu.memory_bus.set_byte(0x0004, 0x77);
    cpu.memory_bus.load_rom(&vec![0x01, 0x02, 0x03]);
    assert_eq!(cpu.memory_bus.read_byte(0), 0x01);
    assert_eq!(cpu.memory_bus.read_byte(1), 0x02);
    assert_eq!(cpu.memory_bus.read_byte(2), 0x03);
    assert_eq!(cpu.memory_bus.read_byte(4), 0x77, "bytes past the image are untouched");
}

#[test]
fn a_countdown_loop_runs_to_completion() {
    // LD B,3; then DEC B / JR NZ,-3 until B reaches zero.
    let mut cpu = cpu_with(&[0x06, 0x03, 0x05, 0x20, 0xFD]);
    let mut steps: u32 = 0;
    while cpu.registers.pc != 5 {
        cpu.cycle();
        steps += 1;
        assert!(steps < 32, "the loop must terminate");
    }
    assert_eq!(cpu.registers.b, 0);
    assert!(cpu.registers.f.z);
    assert!(!cpu.end);
    assert_eq!(cpu.state, RunState::Running);
}

#[test]
fn a_fresh_cpu_is_running_with_everything_cleared() {
    let cpu = CPU::new();
    assert_eq!(cpu.state, RunState::Running);
    assert!(!cpu.end);
    assert!(!cpu.ime);
    assert_eq!(cpu.registers.pc, 0);
    assert_eq!(cpu.registers.sp, 0);
}
