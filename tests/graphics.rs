use psx::color::Color;
use psx::gpu::{GP0_State, GpuError, GPU};
use psx::gte::GTE;
use psx::interrupt::Interrupt;
use psx::system_control::SystemControl;

fn pixel(gpu: &GPU, x: u32, y: u32) -> u16 {
    gpu.vram.read16(2 * (y * 1024 + x))
}

fn gp0(gpu: &mut GPU, words: &[u32]) {
    let mut irq = Interrupt::new();
    let mut cop0 = SystemControl::new();
    for w in words {
        gpu.write_gp0(*w, &mut irq, &mut cop0).unwrap();
    }
}

#[test]
fn halfword_to_color() {
    let halfword: u16 = 0x55D0;
    let color = Color::from_halfword(halfword);
    let lut: [u8; 32] = [0, 8, 16, 25, 33, 41, 49, 58, 66, 74, 82, 90, 99, 107, 115, 123, 132, 140, 148, 156, 165, 173, 181, 189, 197, 206, 214, 222, 230, 239, 247, 255];
    let r = lut[0b10000];
    let g = lut[0b01110];
    let b = lut[0b10101];
    let reference_color = Color::new(r, g, b);
    assert_eq!(color, reference_color);
}

#[test]
fn depth_round_trip_is_lossy_but_stable() {
    let color = 0x0001_0203u32;
    let h = Color::compress_color_depth(color);
    let back = Color::from_halfword(h).to_word();
    assert_ne!(back, color);
    assert_eq!(Color::compress_color_depth(back), h);
    assert_eq!(Color::compress_color_depth(0x00FF_FFFF), 0x7FFF);
}

#[test]
fn blend_modes() {
    let f = Color::new(100, 200, 40);
    let b = Color::new(60, 100, 250);
    assert_eq!(f.blend(b, 0), Color::new(80, 150, 145));
    assert_eq!(f.blend(b, 1), Color::new(160, 255, 255));
    assert_eq!(f.blend(b, 2), Color::new(0, 0, 210));
    assert_eq!(f.blend(b, 3), Color::new(85, 150, 255));
}

#[test]
fn modulate_and_dither() {
    let t = Color::new(200, 64, 255);
    assert_eq!(t.modulate(Color::new(128, 255, 255)), Color::new(200, 128, 255));
    let mut c = Color::new(2, 100, 254);
    assert_eq!(c.apply_dithering(0, 0), Color::new(0, 96, 250));
    let mut d = Color::new(254, 0, 10);
    assert_eq!(d.apply_dithering(2, 1), Color::new(255, 3, 13));
}

#[test]
fn flat_triangle() {
    let mut gpu = GPU::new();
    gpu.write_gp1(0x0000_0000).unwrap();
    gp0(&mut gpu, &[0xE300_0000, 0xE407_FFFF]);
    gp0(&mut gpu, &[0x20FF_FFFF, 0x0000_0000, 0x0000_0064, 0x0064_0064]);
    assert_eq!(gpu.gp0_mode, GP0_State::CommandStart);
    assert_eq!(pixel(&gpu, 70, 30), 0x7FFF);
    assert_eq!(pixel(&gpu, 50, 50), 0x7FFF);
    assert_eq!(pixel(&gpu, 30, 70), 0);
    assert_eq!(pixel(&gpu, 150, 150), 0);
}

#[test]
fn cpu_vram_blit_round_trip() {
    let mut gpu = GPU::new();
    gp0(&mut gpu, &[0xA000_0000, 0x0010_03FE, 0x0002_0003]);
    gp0(&mut gpu, &[0x2222_1111, 0x4444_3333, 0x6666_5555]);
    assert_eq!(gpu.gp0_mode, GP0_State::CommandStart);
    assert_eq!(pixel(&gpu, 0x3FE, 0x10), 0x1111);
    assert_eq!(pixel(&gpu, 0x3FF, 0x10), 0x2222);
    assert_eq!(pixel(&gpu, 0x000, 0x10), 0x3333);
    gp0(&mut gpu, &[0xC000_0000, 0x0010_03FE, 0x0002_0003]);
    assert_ne!(gpu.read_gp1() & 0x0800_0000, 0);
    let words: Vec<u32> = (0..3).map(|_| gpu.read_gp0()).collect();
    assert_eq!(words, vec![0x2222_1111, 0x4444_3333, 0x6666_5555]);
    assert_eq!(gpu.read_gp1() & 0x0800_0000, 0);
}

#[test]
fn gp1_reset_twice_is_reset_once() {
    let mut gpu = GPU::new();
    gp0(&mut gpu, &[0xE100_07FF, 0xE5_00_0801, 0xE600_0003, 0x2000_0000]);
    gpu.write_gp1(0x0800_003F).unwrap();
    gpu.write_gp1(0x0000_0000).unwrap();
    let status = gpu.read_gp1();
    let offset = gpu.drawing_offset;
    let mode = gpu.gp0_mode;
    gpu.write_gp1(0x0000_0000).unwrap();
    assert_eq!(gpu.read_gp1(), status);
    assert_eq!(gpu.drawing_offset, offset);
    assert_eq!(gpu.gp0_mode, mode);
    assert_eq!(status & 0x0080_0000, 0x0080_0000);
    assert_eq!(status & 0x7FF, 0);
    assert_eq!(gpu.write_gp1(0x0900_0000), Err(GpuError::UnknownGp1(0x0900_0000)));
}

#[test]
fn fill_and_vram_copy() {
    let mut gpu = GPU::new();
    gp0(&mut gpu, &[0x0200_00FF, 0x0005_0004, 0x0002_0002]);
    assert_eq!(pixel(&gpu, 4, 5), 0x001F);
    assert_eq!(pixel(&gpu, 5, 6), 0x001F);
    assert_eq!(pixel(&gpu, 6, 5), 0);
    gp0(&mut gpu, &[0x8000_0000, 0x0005_0004, 0x0100_0100, 0x0001_0002]);
    assert_eq!(pixel(&gpu, 0x100, 0x100), 0x001F);
    assert_eq!(pixel(&gpu, 0x101, 0x100), 0x001F);
    assert_eq!(pixel(&gpu, 0x100, 0x101), 0);
}

#[test]
fn unsupported_primitive_is_reported() {
    let mut gpu = GPU::new();
    let mut irq = Interrupt::new();
    let mut cop0 = SystemControl::new();
    let words = [0x3000_00FF, 0, 0x00FF_0000, 0x64, 0x0000_FF00, 0x0064_0064];
    let mut last = Ok(());
    for w in words {
        last = gpu.write_gp0(w, &mut irq, &mut cop0);
    }
    assert_eq!(last, Err(GpuError::Unsupported(0x3000_00FF)));
    assert_eq!(gpu.gp0_mode, GP0_State::CommandStart);
    assert_eq!(gpu.deferred, Some((0x3000_00FF, vec![0, 0x00FF_0000, 0x64, 0x0000_FF00, 0x0064_0064])));
}

#[test]
fn gpu_irq_and_vblank() {
    let mut gpu = GPU::new();
    let mut irq = Interrupt::new();
    let mut cop0 = SystemControl::new();
    gpu.write_gp0(0x1F00_0000, &mut irq, &mut cop0).unwrap();
    assert_eq!(irq.read_status32(), 0x002);
    assert_ne!(gpu.read_gp1() & 0x0100_0000, 0);
    let mut frames = 0;
    for _ in 0..516_687 {
        if gpu.tick(&mut irq, &mut cop0) {
            frames += 1;
        }
    }
    assert_eq!(frames, 1);
    assert_eq!(irq.read_status32() & 1, 1);
    assert!(gpu.even_odd_frame);
}

#[test]
fn render_expands_vram() {
    let mut gpu = GPU::new();
    gpu.vram.write16(2 * (3 * 1024 + 2), 0x7C00);
    let out = gpu.render_vram();
    assert_eq!(out.len(), 512 * 1024);
    assert_eq!(out[3 * 1024 + 2], Color::new(0, 0, 255));
}

#[test]
fn gte_nclip() {
    let mut gte = GTE::new();
    gte.write_data_register(12, 0x0000_0000);
    gte.write_data_register(13, 0x0000_0064);
    gte.write_data_register(14, 0x0064_0000);
    gte.issue_command(0x0000_0006).unwrap();
    assert_eq!(gte.read_data_register(24), 10000);
    assert_eq!(gte.read_ctrl_register(31), 0);
}

#[test]
fn gte_flags_saturation_and_error_bit() {
    let mut gte = GTE::new();
    gte.write_data_register(9, 0x7FFF);
    gte.write_data_register(10, 0x8000);
    gte.write_data_register(11, 0x0040);
    gte.issue_command(0x0000_0028).unwrap();
    assert_eq!(gte.read_data_register(25), 0x3FFF_0001);
    assert_eq!(gte.read_data_register(9), 0x7FFF);
    let flags = gte.read_ctrl_register(31);
    assert_ne!(flags & 0x0100_0000, 0);
    assert_ne!(flags & 0x0080_0000, 0);
    assert_eq!(flags & 0x0040_0000, 0);
    assert_ne!(flags & 0x8000_0000, 0);
    assert_eq!(gte.issue_command(0x0000_0000), Err(psx::gte::GteError::UnknownCommand(0)));
}

#[test]
fn gte_average_z() {
    let mut gte = GTE::new();
    gte.write_data_register(17, 100);
    gte.write_data_register(18, 200);
    gte.write_data_register(19, 300);
    gte.write_ctrl_register(29, 0x0555);
    gte.issue_command(0x0000_002D).unwrap();
    assert_eq!(gte.read_data_register(24), 0x555 * 600);
    assert_eq!(gte.read_data_register(7), (0x555 * 600) >> 12);
}

#[test]
fn gte_irgb_follows_ir() {
    let mut gte = GTE::new();
    gte.write_data_register(28, 0x7FFF);
    assert_eq!(gte.read_data_register(9), 0x0F80);
    gte.write_data_register(9, 0x1000);
    assert_eq!(gte.read_data_register(28) & 0x1F, 0x1F);
    gte.write_data_register(10, 0xFFFF_8000);
    assert_eq!((gte.read_data_register(28) >> 5) & 0x1F, 0);
    gte.write_data_register(30, 0xFFFF_0000);
    assert_eq!(gte.read_data_register(31), 16);
}

#[test]
fn gte_rtps_divides_by_depth() {
    let mut gte = GTE::new();
    gte.write_ctrl_register(0, 0x0000_1000);
    gte.write_ctrl_register(2, 0x0000_1000);
    gte.write_ctrl_register(4, 0x1000);
    gte.write_ctrl_register(26, 0x100);
    gte.write_data_register(0, 0x0010_0020);
    gte.write_data_register(1, 0x0200);
    gte.issue_command(0x0008_0001).unwrap();
    assert_eq!(gte.read_data_register(19), 0x200);
    assert_eq!(gte.read_data_register(9), 0x20);
    assert_eq!(gte.read_data_register(14) & 0xFFFF, 0x10);
    assert_eq!(gte.read_data_register(14) >> 16, 0x8);
}

#[test]
fn flat_rectangles_use_the_drawing_offset() {
    let mut gpu = GPU::new();
    gp0(&mut gpu, &[0xE500_0000 | (2 << 11) | 1]);
    gp0(&mut gpu, &[0x6000_00FF, 0x0003_0004, 0x0002_0003]);
    assert_eq!(pixel(&gpu, 5, 5), 0x001F);
    assert_eq!(pixel(&gpu, 7, 6), 0x001F);
    assert_eq!(pixel(&gpu, 8, 5), 0);
    assert_eq!(pixel(&gpu, 5, 7), 0);
    gp0(&mut gpu, &[0x7000_FF00, 0x0020_0020]);
    assert_eq!(pixel(&gpu, 33 + 7, 34 + 7), 0x03E0);
    assert_eq!(pixel(&gpu, 33 + 8, 34), 0);
    gp0(&mut gpu, &[0x78FF_0000, 0x0040_0040]);
    assert_eq!(pixel(&gpu, 65 + 15, 66 + 15), 0x7C00);
}

#[test]
fn flat_line_reaches_both_ends() {
    let mut gpu = GPU::new();
    gp0(&mut gpu, &[0x40FF_FFFF, 0x0002_0001, 0x0006_000A]);
    assert_eq!(gpu.gp0_mode, GP0_State::CommandStart);
    assert_eq!(pixel(&gpu, 1, 2), 0x7FFF);
    assert_eq!(pixel(&gpu, 10, 6), 0x7FFF);
    let drawn = (0..16).flat_map(|x| (0..10).map(move |y| (x, y))).filter(|&(x, y)| pixel(&gpu, x, y) != 0).count();
    assert_eq!(drawn, 10);
    assert_eq!(gpu.deferred, None);
}

#[test]
fn flat_polyline_draws_each_segment() {
    let mut gpu = GPU::new();
    gp0(&mut gpu, &[0x4800_00FF, 0x0000_0000, 0x0000_0004, 0x0004_0004, 0x5555_5555]);
    assert_eq!(gpu.gp0_mode, GP0_State::CommandStart);
    for x in 0..5 {
        assert_eq!(pixel(&gpu, x, 0), 0x001F);
    }
    for y in 0..5 {
        assert_eq!(pixel(&gpu, 4, y), 0x001F);
    }
    assert_eq!(pixel(&gpu, 0, 4), 0);
}

#[test]
fn semi_transparent_line_blends() {
    let mut gpu = GPU::new();
    gpu.vram.write16(2 * (3 * 1024 + 3), 0x001F);
    gp0(&mut gpu, &[0xE100_0020, 0x4200_00F8, 0x0003_0003, 0x0003_0003]);
    assert_eq!(pixel(&gpu, 3, 3), 0x001F);
    gp0(&mut gpu, &[0xE100_0000, 0x4200_F800, 0x0003_0003, 0x0003_0003]);
    assert_eq!(pixel(&gpu, 3, 3), 0x01EF);
}

#[test]
fn textured_rectangle_uses_the_clut() {
    let mut gpu = GPU::new();
    // CLUT at (16, 480): index 1 is red, index 2 is blue; index 0 stays 0 (transparent).
    gpu.vram.write16(2 * (480 * 1024 + 16 + 1), 0x001F);
    gpu.vram.write16(2 * (480 * 1024 + 16 + 2), 0x7C00);
    // Texture page at x = 64 (page 1), 4-bit: texels 1, 2, 0, 1 in the first halfword of row 0.
    gpu.vram.write16(2 * 64, 0x1021);
    gp0(&mut gpu, &[0xE100_0001]);
    let clut = (480 << 6) | 1;
    gp0(&mut gpu, &[0x6500_0000, 0x0010_0100, (clut << 16) | 0x0000, 0x0001_0004]);
    assert_eq!(pixel(&gpu, 0x100, 0x10), 0x001F);
    assert_eq!(pixel(&gpu, 0x101, 0x10), 0x7C00);
    assert_eq!(pixel(&gpu, 0x102, 0x10), 0);
    assert_eq!(pixel(&gpu, 0x103, 0x10), 0x001F);
    gp0(&mut gpu, &[0x7D00_0000, 0x0040_0040, (clut << 16) | 0x0001]);
    assert_eq!(pixel(&gpu, 0x40, 0x40), 0x7C00);
    assert_eq!(pixel(&gpu, 0x41, 0x40), 0);
    assert_eq!(gpu.deferred, None);
}

#[test]
fn modulated_texture_scales_by_color() {
    let mut gpu = GPU::new();
    gpu.vram.write16(2 * (480 * 1024 + 16 + 1), 0x7FFF);
    gpu.vram.write16(2 * 64, 0x0001);
    gp0(&mut gpu, &[0xE100_0001]);
    let clut = (480 << 6) | 1;
    gp0(&mut gpu, &[0x6440_4040, 0x0010_0100, clut << 16, 0x0001_0001]);
    assert_eq!(pixel(&gpu, 0x100, 0x10), 0x4210);
}

#[test]
fn semi_transparent_triangle_adds() {
    let mut gpu = GPU::new();
    gp0(&mut gpu, &[0xE300_0000, 0xE407_FFFF]);
    gpu.vram.write16(2 * (30 * 1024 + 70), 0x0010);
    gp0(&mut gpu, &[0xE100_0020, 0x2200_0040, 0x0000_0000, 0x0000_0064, 0x0064_0064]);
    assert_eq!(pixel(&gpu, 70, 30), 0x0018);
    assert_eq!(pixel(&gpu, 71, 30), 0x0008);
    assert_eq!(gpu.deferred, None);
}

#[test]
fn gte_mac0_saturates() {
    let mut gte = GTE::new();
    gte.write_data_register(12, 0x7FFF_7FFF);
    gte.write_data_register(13, 0x7FFF_8000);
    gte.write_data_register(14, 0x8000_0000);
    gte.issue_command(0x0000_0006).unwrap();
    assert_eq!(gte.read_data_register(24), 0x7FFF_FFFF);
    assert_ne!(gte.read_ctrl_register(31) & 0x0001_0000, 0);
}

#[test]
fn semi_transparent_rectangles_blend() {
    let mut gpu = GPU::new();
    gpu.vram.write16(2 * (5 * 1024 + 5), 0x0010);
    gp0(&mut gpu, &[0xE100_0020, 0x6A00_0040, 0x0005_0005]);
    assert_eq!(pixel(&gpu, 5, 5), 0x0018);
    gp0(&mut gpu, &[0x6200_0040, 0x0010_0010, 0x0002_0002]);
    assert_eq!(pixel(&gpu, 0x11, 0x11), 0x0008);
    assert_eq!(pixel(&gpu, 0x12, 0x11), 0);
    assert_eq!(gpu.deferred, None);
}
