use psx::bios::{BiosError, BIOS};
use psx::bus::mask_region;
use psx::interrupt::{Interrupt, IRQ};
use psx::ram::RAM;
use psx::spu::SPU;
use psx::system_control::SystemControl;
use psx::timer::Timer;

#[test]
fn ram_round_trip_little_endian() {
    let mut ram = RAM::new(16);
    ram.write32(4, 0x1122_3344);
    assert_eq!(ram.read8(4), 0x44);
    assert_eq!(ram.read8(7), 0x11);
    assert_eq!(ram.read16(4), 0x3344);
    assert_eq!(ram.read16(6), 0x1122);
    assert_eq!(ram.read32(4), 0x1122_3344);
    ram.write16(0, 0xBEEF);
    assert_eq!(ram.read8(0), 0xEF);
    assert_eq!(ram.read8(1), 0xBE);
    ram.write8(2, 0x7F);
    assert_eq!(ram.read32(0), 0x007F_BEEF);
}

#[test]
fn bios_size_is_checked() {
    assert!(matches!(BIOS::new(vec![0u8; 1024]), Err(BiosError::InvalidSize)));
    let mut image = vec![0u8; 512 * 1024];
    image[0] = 0x78;
    image[1] = 0x56;
    image[2] = 0x34;
    image[3] = 0x12;
    let bios = BIOS::new(image).ok().unwrap();
    assert_eq!(bios.read32(0), 0x1234_5678);
}

#[test]
fn region_masks() {
    assert_eq!(mask_region(0xBFC0_0000), 0x1FC0_0000);
    assert_eq!(mask_region(0x8000_1234), 0x0000_1234);
    assert_eq!(mask_region(0x0000_1234), 0x0000_1234);
    assert_eq!(mask_region(0xFFFE_0130), 0xFFFE_0130);
}

#[test]
fn raise_exception_outside_delay_slot() {
    let mut cop0 = SystemControl::new();
    cop0.write_register(12, 0x0040_0003);
    let boot_vectors = cop0.raise_exception(0x08, 0x8000_1000, 0x8000_1004, false);
    assert!(boot_vectors);
    assert_eq!(cop0.read_register(14), 0x8000_1000);
    assert_eq!(cop0.read_register(13), 0x08 << 2);
    assert_eq!(cop0.read_register(12) & 0x3F, 0x0C);
}

#[test]
fn raise_exception_in_delay_slot_points_at_branch() {
    let mut cop0 = SystemControl::new();
    let boot_vectors = cop0.raise_exception(0x04, 0x8000_1004, 0x8000_2000, true);
    assert!(!boot_vectors);
    assert_eq!(cop0.read_register(14), 0x8000_1000);
    assert_ne!(cop0.read_register(13) & 0x8000_0000, 0);
    assert_eq!(cop0.read_register(6), 0x8000_2000);
}

#[test]
fn rfe_restores_mode_bits() {
    let mut cop0 = SystemControl::new();
    cop0.write_register(12, 0x0000_0015);
    cop0.raise_exception(0, 0, 4, false);
    assert_eq!(cop0.read_register(12) & 0x3F, 0x14);
    cop0.rfe();
    assert_eq!(cop0.read_register(12) & 0x3F, 0x15);
}

#[test]
fn nested_exceptions_restore_current_pair() {
    let mut cop0 = SystemControl::new();
    cop0.write_register(12, 0x0000_0001);
    cop0.raise_exception(0, 0, 4, false);
    cop0.raise_exception(0, 0, 4, false);
    assert_eq!(cop0.read_register(12) & 0x3F, 0x10);
    cop0.rfe();
    cop0.rfe();
    assert_eq!(cop0.read_register(12) & 0x3, 0x1);
}

#[test]
fn only_listed_cop0_registers_are_writable() {
    let mut cop0 = SystemControl::new();
    cop0.write_register(8, 0xFFFF_FFFF);
    assert_eq!(cop0.read_register(8), 0);
    assert_eq!(cop0.read_register(15), 2);
    cop0.write_register(13, 0xFFFF_FFFF);
    assert_eq!(cop0.read_register(13), 0x300);
}

#[test]
fn interrupt_request_reaches_cop0() {
    let mut cop0 = SystemControl::new();
    cop0.write_register(12, 0x0000_0401);
    let mut irq = Interrupt::new();
    irq.write_mask32(0x001, &mut cop0);
    irq.request(IRQ::VBLANK, &mut cop0);
    assert_eq!(irq.read_status32(), 0x001);
    assert!(cop0.trigger_interrupt());
    irq.acknowledge32(0, &mut cop0);
    assert_eq!(irq.read_status32(), 0);
    assert!(!cop0.trigger_interrupt());
}

#[test]
fn acknowledge_never_sets_bits() {
    let mut cop0 = SystemControl::new();
    let mut irq = Interrupt::new();
    irq.request(IRQ::DMA, &mut cop0);
    irq.request(IRQ::TMR0, &mut cop0);
    irq.acknowledge32(0xFFFF_FFFF, &mut cop0);
    assert_eq!(irq.read_status32(), 0x018);
    irq.acknowledge16(0x0010, &mut cop0);
    assert_eq!(irq.read_status16(), 0x010);
    irq.acknowledge32(0x7EF, &mut cop0);
    assert_eq!(irq.read_status32(), 0);
}

#[test]
fn masked_request_does_not_raise_cop0() {
    let mut cop0 = SystemControl::new();
    let mut irq = Interrupt::new();
    irq.request(IRQ::CDROM, &mut cop0);
    assert_eq!(cop0.read_register(13) & 0x400, 0);
    irq.write_mask16(0x004, &mut cop0);
    assert_eq!(irq.read_mask16(), 0x004);
    assert_ne!(cop0.read_register(13) & 0x400, 0);
}

#[test]
fn timer_target_interrupt() {
    let mut cop0 = SystemControl::new();
    let mut irq = Interrupt::new();
    let mut t = Timer::new();
    t.write32(0x08, 3);
    t.write32(0x04, 0x18);
    assert_eq!(t.read32(0x04) & 0x3FF, 0x18);
    t.tick(&mut irq, &mut cop0);
    t.tick(&mut irq, &mut cop0);
    assert_eq!(t.read32(0x00), 2);
    t.tick(&mut irq, &mut cop0);
    assert_eq!(t.read32(0x00), 0);
    assert_eq!(irq.read_status32() & 0x010, 0x010);
}

#[test]
fn timer_mode_read_clears_status_bits() {
    let mut t = Timer::new();
    t.write16(0x14, 0x3FF);
    assert_eq!(t.read16(0x14), 0x7FF);
    t.mode[1] |= 0x1800;
    assert_eq!(t.read32(0x14) & 0x1800, 0x1800);
    assert_eq!(t.read32(0x14) & 0x1800, 0);
}

#[test]
fn timer_two_divides_by_eight() {
    let mut cop0 = SystemControl::new();
    let mut irq = Interrupt::new();
    let mut t = Timer::new();
    t.write32(0x24, 0x200);
    for _ in 0..9 {
        t.tick(&mut irq, &mut cop0);
    }
    assert_eq!(t.read32(0x20), 1);
    assert_eq!(t.read32(0x00), 9);
}

#[test]
fn timer_overflow_wraps_at_ffff() {
    let mut cop0 = SystemControl::new();
    let mut irq = Interrupt::new();
    let mut t = Timer::new();
    t.write32(0x10, 0xFFFD);
    t.write32(0x14, 0x20);
    t.write32(0x10, 0xFFFD);
    t.tick(&mut irq, &mut cop0);
    assert_eq!(t.read32(0x10), 0xFFFE);
    t.tick(&mut irq, &mut cop0);
    assert_eq!(t.read32(0x10), 0);
    assert_eq!(irq.read_status32() & 0x020, 0x020);
}

#[test]
fn spu_is_plain_storage() {
    let mut spu = SPU::new();
    spu.write_voice32(0x10, 0xAABB_CCDD);
    assert_eq!(spu.read_voice16(0x12), 0xAABB);
    spu.write_control16(0x2, 0x1234);
    assert_eq!(spu.read_control8(0x3), 0x12);
    spu.write_reverb8(0x3F, 0x55);
    assert_eq!(spu.read_reverb8(0x3F), 0x55);
    assert_eq!(spu.read_control32(0x3C), 0);
    spu.write_voice8(0, 1);
    assert_eq!(spu.read_voice8(0), 1);
    assert_eq!(spu.read_control8(0), 0);
    spu.write_reverb32(0, 0x0102_0304);
    spu.write_reverb16(4, 0x0506);
    assert_eq!(spu.read_reverb32(0), 0x0102_0304);
    assert_eq!(spu.read_reverb16(4), 0x0506);
    spu.write_control32(8, 7);
    assert_eq!(spu.read_control16(8), 7);
    spu.write_voice16(8, 9);
    assert_eq!(spu.read_voice32(8), 9);
}

#[test]
fn software_interrupt_bits_trigger() {
    let mut cop0 = SystemControl::new();
    cop0.write_register(12, 0x0000_0301);
    assert!(!cop0.trigger_interrupt());
    cop0.write_register(13, 0x0000_0100);
    assert!(cop0.trigger_interrupt());
    cop0.write_register(13, 0);
    assert_eq!(cop0.read_register(13), 0);
    assert!(!cop0.trigger_interrupt());
}
