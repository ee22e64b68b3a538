use chonkpu_emu::Chonkpu;
use chonkpu_emu::decode;

#[test]
fn warm_up_takes_two_cycles() {
    let rom = [0u16; 256];
    let mut cpu = Chonkpu::new(&rom);
    assert!(cpu.fetch_stage.is_none());
    assert!(cpu.decode_stage.is_none());
    cpu.step();
    assert!(cpu.fetch_stage.is_some());
    assert!(cpu.decode_stage.is_none());
    assert_eq!(cpu.pc, 1);
    cpu.step();
    assert!(cpu.decode_stage.is_some());
    assert_eq!(cpu.pc, 2);
    assert_eq!(cpu.regs, [0u8; 7]);
}

#[test]
fn add_add_store_lands_after_five_steps() {
    // add-immediate r1 += 5, the same again as pipeline filler, then store r1
    // through register 7 (zero) with displacement -8: address 0xF8, cell 8.
    let mut rom = [0u16; 256];
    rom[0] = 0x0A15;
    rom[1] = 0x0A15;
    rom[2] = 0x0318;
    let mut cpu = Chonkpu::new(&rom);
    for _ in 0..5 {
        cpu.step();
    }
    assert_eq!(cpu.ram[8], 10);
    assert_eq!(cpu.read_reg(1), 10);
}

#[test]
fn load_from_port_data_address() {
    // a single load: r1 <- bus[r0], and register 0 reads 0, so this reads
    // port 0's data address and consumes the host's byte.
    let mut rom = [0u16; 256];
    rom[0] = 0x0010;
    let mut cpu = Chonkpu::new(&rom);
    cpu.port_write(0, 42);
    assert!(!cpu.port_writable(0));
    cpu.step();
    cpu.step();
    cpu.step();
    assert_eq!(cpu.read_reg(1), 42);
    assert!(cpu.port_writable(0));
}

#[test]
fn relative_jump_has_two_delay_slots() {
    // jump-relative +4 at address 0; the two instructions already fetched
    // behind it still execute, in program order, before the target does.
    let mut rom = [0u16; 256];
    rom[0] = 0x0704; // pc += 4 (taken at execute time, pc 2 -> 6)
    rom[1] = 0x0A11; // delay slot 1: r1 += 1
    rom[2] = 0x0A22; // delay slot 2: r2 += 2
    rom[6] = 0x0A33; // target: r3 += 3
    let mut cpu = Chonkpu::new(&rom);
    cpu.step();
    cpu.step();
    cpu.step(); // jump executes
    assert_eq!(cpu.pc, 6);
    assert_eq!(cpu.read_reg(1), 0);
    assert_eq!(cpu.read_reg(2), 0);
    assert_eq!(cpu.read_reg(3), 0);
    cpu.step(); // delay slot 1 executes
    assert_eq!(cpu.read_reg(1), 1);
    assert_eq!(cpu.read_reg(2), 0);
    assert_eq!(cpu.read_reg(3), 0);
    cpu.step(); // delay slot 2 executes
    assert_eq!(cpu.read_reg(2), 2);
    assert_eq!(cpu.read_reg(3), 0);
    cpu.step(); // only now the target executes
    assert_eq!(cpu.read_reg(3), 3);
}

#[test]
fn absolute_jump_has_two_delay_slots() {
    let mut rom = [0u16; 256];
    rom[0] = 0x0A16; // r1 = 6: the jump target
    rom[1] = 0x0000; // filler
    rom[2] = 0x0501; // jump-absolute to the address in r1
    rom[3] = 0x0A31; // delay slot 1: r3 += 1
    rom[4] = 0x0A41; // delay slot 2: r4 += 1
    rom[6] = 0x0A51; // target: r5 += 1
    let mut cpu = Chonkpu::new(&rom);
    for _ in 0..5 {
        cpu.step(); // the jump executes on the fifth cycle
    }
    assert_eq!(cpu.pc, 6);
    assert_eq!(cpu.read_reg(3), 0);
    cpu.step();
    assert_eq!(cpu.read_reg(3), 1);
    assert_eq!(cpu.read_reg(5), 0);
    cpu.step();
    assert_eq!(cpu.read_reg(4), 1);
    assert_eq!(cpu.read_reg(5), 0);
    cpu.step();
    assert_eq!(cpu.read_reg(5), 1);
}

#[test]
fn branch_if_nonnegative_taken_and_not_taken() {
    // the branch tests r1's top bit at execute time
    let mut rom = [0u16; 256];
    rom[0] = 0x0614; // if r1 >= 0 (top bit clear): pc += 4
    let mut cpu = Chonkpu::new(&rom);
    cpu.step();
    cpu.step();
    cpu.step();
    assert_eq!(cpu.pc, 6); // taken: 2 + 4

    let mut cpu2 = Chonkpu::new(&rom);
    cpu2.write_reg(1, 0x80);
    cpu2.step();
    cpu2.step();
    cpu2.step();
    assert_eq!(cpu2.pc, 3); // not taken: default increment
}

#[test]
fn program_counter_wraps_modulo_256() {
    let rom = [0u16; 256];
    let mut cpu = Chonkpu::new(&rom);
    for _ in 0..260 {
        cpu.step();
    }
    assert_eq!(cpu.pc, 4);
}

#[test]
fn alu_add_then_halve_exact() {
    // 0x7F + 0x01 = 0x80; arithmetic shift right by one gives 0xC0
    let rom = [0u16; 256];
    let mut cpu = Chonkpu::new(&rom);
    cpu.write_reg(1, 0x7F);
    cpu.write_reg(2, 0x01);
    cpu.decode_stage = Some(decode(0x0C12));
    cpu.step();
    assert_eq!(cpu.read_reg(1), 0xC0);
}

#[test]
fn alu_add_wraps() {
    let rom = [0u16; 256];
    let mut cpu = Chonkpu::new(&rom);
    cpu.write_reg(1, 0xFF);
    cpu.write_reg(2, 0x02);
    cpu.decode_stage = Some(decode(0x0812));
    cpu.step();
    assert_eq!(cpu.read_reg(1), 0x01);
}

#[test]
fn alu_nor_and_halving_forms() {
    let rom = [0u16; 256];
    let mut cpu = Chonkpu::new(&rom);
    cpu.write_reg(1, 0b1010_0000);
    cpu.write_reg(2, 0b0000_0101);
    cpu.decode_stage = Some(decode(0x0912)); // r1 = !(r1 | r2)
    cpu.step();
    assert_eq!(cpu.read_reg(1), 0b0101_1010);

    let mut cpu2 = Chonkpu::new(&rom);
    cpu2.write_reg(1, 0x0F);
    cpu2.decode_stage = Some(decode(0x0B10)); // r1 = !(r1 | 0)
    cpu2.step();
    assert_eq!(cpu2.read_reg(1), 0xF0);
}

#[test]
fn add_immediate_then_halve_wraps_first() {
    // r1 = -1; add-immediate-then-halve with +1 wraps to 0 before halving
    let mut rom = [0u16; 256];
    rom[0] = 0x0B10; // r1 = !(0 | 0) = 0xFF
    rom[1] = 0x0000; // filler
    rom[2] = 0x0E11; // r1 = asr1(r1 + 1)
    let mut cpu = Chonkpu::new(&rom);
    for _ in 0..5 {
        cpu.step();
    }
    assert_eq!(cpu.read_reg(1), 0);
}

#[test]
fn load_indexed_reads_displaced_cell() {
    let rom = [0u16; 256];
    let mut cpu = Chonkpu::new(&rom);
    cpu.write_mem(0xF4, 77);
    cpu.write_reg(7, 0xF2);
    cpu.decode_stage = Some(decode(0x0212)); // r1 = bus[r7 + 2]
    cpu.step();
    assert_eq!(cpu.read_reg(1), 77);
}

#[test]
fn store_writes_through_register_address() {
    let rom = [0u16; 256];
    let mut cpu = Chonkpu::new(&rom);
    cpu.write_reg(1, 0x5C);
    cpu.write_reg(2, 0xF3);
    cpu.decode_stage = Some(decode(0x0112)); // bus[r2] = r1
    cpu.step();
    assert_eq!(cpu.ram[3], 0x5C);
    assert_eq!(cpu.read_reg(1), 0x5C); // stores never write back
}
