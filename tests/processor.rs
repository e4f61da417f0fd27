use psx::bios::BIOS;
use psx::bus::Interface;
use psx::cdrom::CD_ROM;
use psx::cpu::CPU;
use psx::disk::DiskMap;
use psx::interrupt::IRQ;

fn cpu_with(program: &[u32]) -> CPU {
    let mut image = vec![0u8; 512 * 1024];
    for (i, w) in program.iter().enumerate() {
        image[4 * i..4 * i + 4].copy_from_slice(&w.to_le_bytes());
    }
    let bios = BIOS::new(image).ok().unwrap();
    let bus = Interface::new(bios, CD_ROM::new(DiskMap::empty()));
    CPU::new(bus)
}

fn run(cpu: &mut CPU, n: usize) {
    for _ in 0..n {
        cpu.tick().unwrap();
    }
}

#[test]
fn alu_and_r0_stays_zero() {
    let mut cpu = cpu_with(&[
        0x3C01_1234, // lui r1, 0x1234
        0x3421_5678, // ori r1, r1, 0x5678
        0x2000_0005, // addi r0, r0, 5
        0x0020_1025, // or r2, r1, r0
        0x0001_1842, // srl r3, r1, 1
        0x0000_0000,
    ]);
    run(&mut cpu, 6);
    assert_eq!(cpu.R.get(1), 0x1234_5678);
    assert_eq!(cpu.R.get(0), 0);
    assert_eq!(cpu.R.get(2), 0x1234_5678);
    assert_eq!(cpu.R.get(3), 0x091A_2B3C);
}

#[test]
fn load_delay_slot_sees_old_value() {
    let mut cpu = cpu_with(&[
        0x2401_0007, // addiu r1, r0, 7
        0x3C02_1FC0, // lui r2, 0x1FC0
        0x8C41_0000, // lw r1, 0(r2)   (loads this program's first word)
        0x0020_1825, // or r3, r1, r0  (delay slot: old r1)
        0x0020_2025, // or r4, r1, r0  (sees the load)
        0x0000_0000,
        0x0000_0000,
    ]);
    run(&mut cpu, 7);
    assert_eq!(cpu.R.get(3), 7);
    assert_eq!(cpu.R.get(4), 0x2401_0007);
}

#[test]
fn branch_delay_slot_executes() {
    let mut cpu = cpu_with(&[
        0x1000_0002, // beq r0, r0, +2
        0x2401_0001, // addiu r1, r0, 1 (delay slot)
        0x2402_0002, // addiu r2, r0, 2 (skipped)
        0x2403_0003, // addiu r3, r0, 3
        0x0000_0000,
    ]);
    run(&mut cpu, 1);
    assert!(cpu.branch);
    run(&mut cpu, 4);
    assert_eq!(cpu.R.get(1), 1);
    assert_eq!(cpu.R.get(2), 0);
    assert_eq!(cpu.R.get(3), 3);
    assert_eq!(cpu.next_pc, cpu.pc.wrapping_add(4));
}

#[test]
fn overflow_traps_and_division_corner_cases() {
    let mut cpu = cpu_with(&[
        0x3C01_8000, // lui r1, 0x8000
        0x2402_FFFF, // addiu r2, r0, -1
        0x0022_001A, // div r1, r2
        0x0000_0000,
        0x0040_001A, // div r2, r0
        0x0000_0000,
    ]);
    run(&mut cpu, 3);
    assert_eq!(cpu.lo, 0x8000_0000);
    assert_eq!(cpu.hi, 0);
    run(&mut cpu, 2);
    assert_eq!(cpu.lo, 1);
    assert_eq!(cpu.hi, 0xFFFF_FFFF);
    let mut trap = cpu_with(&[
        0x3C01_7FFF, // lui r1, 0x7FFF
        0x2021_FFFF, // addi r1, r1, -1 (fine)
        0x3C01_7FFF,
        0x0021_0820, // add r1, r1, r1 (overflows)
    ]);
    run(&mut trap, 4);
    assert_eq!(trap.pc, 0x8000_0080);
    assert_eq!(trap.bus.cop0.read_register(14), 0xBFC0_000C);
    assert_eq!((trap.bus.cop0.read_register(13) >> 2) & 0x1F, 0x0C);
}

#[test]
fn interrupt_taken_at_next_boundary() {
    let mut cpu = cpu_with(&[0x0000_0000; 8]);
    cpu.bus.cop0.write_register(12, 0x0000_0401);
    cpu.bus.interrupt.write_mask32(0x001, &mut cpu.bus.cop0);
    run(&mut cpu, 1);
    cpu.bus.interrupt.request(IRQ::VBLANK, &mut cpu.bus.cop0);
    let next = cpu.pc;
    run(&mut cpu, 1);
    assert_eq!(cpu.pc, 0x8000_0080);
    assert_eq!(cpu.bus.cop0.read_register(14), next);
    assert_eq!((cpu.bus.cop0.read_register(13) >> 2) & 0x1F, 0);
}

#[test]
fn store_then_load_through_ram() {
    let mut cpu = cpu_with(&[
        0x2401_00AB, // addiu r1, r0, 0xAB
        0xA001_0010, // sb r1, 0x10(r0)
        0x9002_0010, // lbu r2, 0x10(r0)
        0x0000_0000,
        0x0000_0000,
    ]);
    run(&mut cpu, 5);
    assert_eq!(cpu.R.get(2), 0xAB);
    assert_eq!(cpu.bus.dram.read8(0x10), 0xAB);
}

#[test]
fn syscall_and_reserved_instructions_trap() {
    let mut cpu = cpu_with(&[0x0000_000C, 0x0000_0000]);
    run(&mut cpu, 1);
    assert_eq!(cpu.pc, 0x8000_0080);
    assert_eq!((cpu.bus.cop0.read_register(13) >> 2) & 0x1F, 0x08);
    assert_eq!(cpu.bus.cop0.read_register(14), 0xBFC0_0000);
    let mut bad = cpu_with(&[0xFC00_0000, 0x0000_0000]);
    run(&mut bad, 1);
    assert_eq!((bad.bus.cop0.read_register(13) >> 2) & 0x1F, 0x0A);
    assert_eq!(bad.next_pc, 0x8000_0084);
}
