use psx::cdrom::{CdRomError, CD_ROM, HINTSTS};
use psx::disk::{DiskAddress, DiskMap, DiskTrait, Sector, SubHeader};
use psx::dma::{DmaError, DMA};
use psx::interrupt::Interrupt;
use psx::ram::RAM;
use psx::system_control::SystemControl;

fn advance(a: &mut DiskAddress, n: usize) {
    for _ in 0..n {
        a.increment();
    }
}

#[test]
fn bcd_increment_carries_seconds() {
    let mut a = DiskAddress::new(0, 0, 0);
    advance(&mut a, 75);
    assert_eq!(a, DiskAddress::new(0x00, 0x01, 0x00));
}

#[test]
fn bcd_increment_carries_minutes() {
    let mut a = DiskAddress::new(0, 0, 0);
    advance(&mut a, 60 * 75);
    assert_eq!(a, DiskAddress::new(0x01, 0x00, 0x00));
}

#[test]
fn bcd_increment_fixes_low_nibble() {
    let mut a = DiskAddress::new(0x00, 0x02, 0x09);
    a.increment();
    assert_eq!(a, DiskAddress::new(0x00, 0x02, 0x10));
    let mut b = DiskAddress::new(0x00, 0x59, 0x74);
    b.increment();
    assert_eq!(b, DiskAddress::new(0x01, 0x00, 0x00));
}

fn raw_sector(min: u8, sec: u8, frame: u8, fill: u8) -> Vec<u8> {
    let mut s = vec![fill; 2352];
    s[12] = min;
    s[13] = sec;
    s[14] = frame;
    s[15] = 2;
    s[16] = 1;
    s[17] = 2;
    s[18] = 0x08;
    s[19] = 0xFF;
    s
}

#[test]
fn sector_split() {
    let raw = raw_sector(0x00, 0x02, 0x16, 0xAB);
    let (addr, sector) = Sector::from_bytes(&raw);
    assert_eq!(addr, DiskAddress::new(0x00, 0x02, 0x16));
    assert_eq!(sector.get_sub_header(), SubHeader { file_num: 1, channel_num: 2, sub_mode: 0x08, coding_info: 0x55 });
    assert_eq!(sector.get_sub_header().get_sub_mode(), 0x08);
    assert_eq!(sector.byte(0), 0x00);
    assert_eq!(sector.byte(2), 0x16);
    assert_eq!(sector.byte(0x923), 0xAB);
    let sub = SubHeader::from_bytes(&[3, 4, 0x20, 0x11]);
    assert_eq!(sub.coding_info, 0x11);
}

#[test]
fn disk_map_lookup() {
    let mut image = raw_sector(0x00, 0x02, 0x00, 1);
    image.extend(raw_sector(0x00, 0x02, 0x01, 2));
    image.extend(vec![9u8; 100]);
    let disk = DiskMap::from_bin(&image);
    assert_eq!(disk.sectors.len(), 2);
    assert_eq!(disk.get(&DiskAddress::new(0, 2, 1)).unwrap().byte(20), 2);
    assert!(disk.get(&DiskAddress::new(0, 2, 2)).is_none());
}

#[test]
fn cdrom_test_version() {
    let mut cd = CD_ROM::new(DiskMap::empty());
    let mut irq = Interrupt::new();
    let mut cop0 = SystemControl::new();
    cd.write8(0, 0).unwrap();
    cd.write8(2, 0x20).unwrap();
    cd.write8(1, 0x19).unwrap();
    for _ in 0..0xC4E1 {
        cd.tick(&mut irq, &mut cop0);
    }
    assert_eq!(cd.registers[HINTSTS] & 7, 0);
    cd.tick(&mut irq, &mut cop0);
    assert_eq!(cd.registers[HINTSTS] & 7, 3);
    let result: Vec<u8> = (0..4).map(|_| cd.read8(1)).collect();
    assert_eq!(result, vec![0x94, 0x09, 0x19, 0xC0]);
}

#[test]
fn cdrom_interrupt_reaches_controller_when_unmasked() {
    let mut cd = CD_ROM::new(DiskMap::empty());
    let mut irq = Interrupt::new();
    let mut cop0 = SystemControl::new();
    cd.write8(0, 1).unwrap();
    cd.write8(2, 0x1F).unwrap();
    cd.write8(0, 0).unwrap();
    cd.write8(1, 0x01).unwrap();
    for _ in 0..0xC4E2 {
        cd.tick(&mut irq, &mut cop0);
    }
    assert_eq!(irq.read_status32() & 0x004, 0x004);
    assert_eq!(cd.read8(1), 0x02);
}

#[test]
fn cdrom_refuses_unknown_command() {
    let mut cd = CD_ROM::new(DiskMap::empty());
    assert_eq!(cd.write8(1, 0x55), Err(CdRomError::UnknownCommand(0x55)));
    assert_eq!(cd.write8(1, 0x02), Err(CdRomError::MissingParameter));
    cd.write8(2, 0x21).unwrap();
    assert_eq!(cd.write8(1, 0x19), Err(CdRomError::UnknownTestSubOp(0x21)));
}

#[test]
fn cdrom_status_register_reports_fifos() {
    let mut cd = CD_ROM::new(DiskMap::empty());
    assert_eq!(cd.read8(0) & 0x08, 0x08);
    cd.write8(2, 0x00).unwrap();
    assert_eq!(cd.read8(0) & 0x08, 0x00);
}

#[test]
fn cdrom_setloc_and_read_stream() {
    let mut image = raw_sector(0x00, 0x02, 0x00, 7);
    image.extend(raw_sector(0x00, 0x02, 0x01, 8));
    let mut cd = CD_ROM::new(DiskMap::from_bin(&image));
    let mut irq = Interrupt::new();
    let mut cop0 = SystemControl::new();
    cd.write8(2, 0x00).unwrap();
    cd.write8(2, 0x02).unwrap();
    cd.write8(2, 0x00).unwrap();
    cd.write8(1, 0x02).unwrap();
    assert_eq!(cd.seek_target, DiskAddress::new(0x00, 0x02, 0x00));
    cd.write8(1, 0x06).unwrap();
    for _ in 0..(2 * 0xC4E2) {
        cd.tick(&mut irq, &mut cop0);
    }
    assert_eq!(cd.read_addr, DiskAddress::new(0x00, 0x02, 0x01));
    assert_eq!(cd.read8(2), 7);
}

#[test]
fn otc_list() {
    let mut dma = DMA::new();
    let mut ram = RAM::new(2 * 1024 * 1024);
    dma.write_register(0x60, 0x0010_0000);
    dma.write_register(0x64, 0x0000_0004);
    dma.write_register(0x68, 0x1100_0002);
    dma.write_register(0x70, 0x0765_4321 | 0x0800_0000);
    for _ in 0..4 {
        assert_eq!(dma.tick(&mut ram), Ok(None));
    }
    assert_eq!(ram.read32(0x0010_0000), 0x000F_FFFC);
    assert_eq!(ram.read32(0x000F_FFFC), 0x000F_FFF8);
    assert_eq!(ram.read32(0x000F_FFF8), 0x000F_FFF4);
    assert_eq!(ram.read32(0x000F_FFF4), 0x00FF_FFFF);
    assert_eq!(dma.read_register(0x68) & (1 << 24), 0);
    assert_eq!(dma.active_channel(), None);
}

#[test]
fn dma_unmodelled_channel_is_refused() {
    let mut dma = DMA::new();
    let mut ram = RAM::new(2 * 1024 * 1024);
    dma.write_register(0x08, 0x1100_0000);
    dma.write_register(0x70, 0x0000_0008);
    assert_eq!(dma.active_channel(), Some(0x00));
    assert_eq!(dma.tick(&mut ram), Err(DmaError::Unimplemented(0x00)));
}

#[test]
fn dma_arbitration_prefers_higher_priority_then_lower_channel() {
    let mut dma = DMA::new();
    dma.write_register(0x28, 0x1100_0000);
    dma.write_register(0x68, 0x1100_0000);
    dma.write_register(0x70, 0x0300_0B00 | 0x0800_0800);
    assert_eq!(dma.active_channel(), Some(0x20));
    dma.write_register(0x70, 0x0B00_0B00);
    assert_eq!(dma.active_channel(), Some(0x20));
    dma.write_register(0x70, 0x0F00_0B00);
    assert_eq!(dma.active_channel(), Some(0x60));
}

#[test]
fn dma_interrupt_register_flags_clear_on_write() {
    let mut dma = DMA::new();
    dma.write_register(0x74, 0x7F80_8000);
    assert_eq!(dma.read_register(0x74), 0x0080_8000);
    assert!(dma.bus_error());
    assert!(dma.master_interrupt_enabled());
    assert!(!dma.master_interrupt());
    dma.write_register(0x00, 0xFFFF_FFFF);
    assert_eq!(dma.read_register(0x00), 0x00FF_FFFF);
}

#[test]
fn dma_linked_list_feeds_gp0() {
    let mut dma = DMA::new();
    let mut ram = RAM::new(2 * 1024 * 1024);
    ram.write32(0x1000, 0x0200_2000);
    ram.write32(0x1004, 0xAAAA_0001);
    ram.write32(0x1008, 0xAAAA_0002);
    ram.write32(0x2000, 0x01FF_FFFF);
    ram.write32(0x2004, 0xBBBB_0003);
    dma.write_register(0x20, 0x1000);
    dma.write_register(0x28, 0x0100_0401);
    dma.write_register(0x70, 0x0765_4321 | 0x0000_0800);
    let mut words = Vec::new();
    for _ in 0..3 {
        if let Ok(Some(w)) = dma.tick(&mut ram) {
            words.push(w);
        }
    }
    assert_eq!(words, vec![0xAAAA_0001, 0xAAAA_0002, 0xBBBB_0003]);
    assert_eq!(dma.active_channel(), None);
}
