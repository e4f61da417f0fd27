//! 15-bit VRAM colors and 24-bit colors: depth conversion, blending,
//! modulation and dithering.
use vstd::prelude::*;

verus! {

/// The 5-bit to 8-bit expansion table.
pub open spec fn lut() -> Seq<u8> {
    seq![
        0u8, 8, 16, 25, 33, 41, 49, 58, 66, 74, 82, 90, 99, 107, 115, 123, 132, 140, 148, 156, 165,
        173, 181, 189, 197, 206, 214, 222, 230, 239, 247, 255,
    ]
}

/// The ordered dither offsets, by row (y & 3) and column (x & 3).
pub open spec fn dither_offset(x: int, y: int) -> int {
    let t = seq![-4int, 0, -3, 1, 2, -2, 3, -1, -3, 1, -4, 0, 3, -1, 2, -2];
    t[(y % 4) * 4 + (x % 4)]
}

pub open spec fn sat8(v: int) -> u8 {
    if v < 0 {
        0
    } else if v > 255 {
        255
    } else {
        v as u8
    }
}

#[derive(Debug, Clone, Copy, PartialEq, Eq, Structural)]
pub struct Color {
    pub r: u8,
    pub g: u8,
    pub b: u8,
}

/// A 24-bit color word (red in the low byte) reduced to 5 bits per channel.
pub open spec fn compressed(c: u32) -> u16 {
    (((c & 0xFF) / 8) | ((((c >> 8u32) & 0xFF) / 8) << 5u32) | ((((c >> 16u32) & 0xFF) / 8)
        << 10u32)) as u16
}

/// A VRAM halfword expanded to 24-bit color through the table.
pub open spec fn expanded(p: u16) -> Color {
    Color {
        r: lut()[(p & 0x1F) as int],
        g: lut()[((p >> 5u16) & 0x1F) as int],
        b: lut()[((p >> 10u16) & 0x1F) as int],
    }
}

pub open spec fn word_of(c: Color) -> u32 {
    (c.r as u32) | ((c.g as u32) << 8u32) | ((c.b as u32) << 16u32)
}

fn lut_entry(i: u16) -> (r: u8)
    requires
        i < 32,
    ensures
        r == lut()[i as int],
{
    let t: [u8; 32] = [
        0, 8, 16, 25, 33, 41, 49, 58, 66, 74, 82, 90, 99, 107, 115, 123, 132, 140, 148, 156, 165,
        173, 181, 189, 197, 206, 214, 222, 230, 239, 247, 255,
    ];
    assert(t@ =~= lut());
    t[i as usize]
}

impl Color {
    pub fn new(r: u8, g: u8, b: u8) -> (c: Color)
        ensures
            c == (Color { r, g, b }),
    {
        Color { r, g, b }
    }

    /// Expands a VRAM halfword through the 5-to-8-bit table.
    pub fn from_halfword(pixel: u16) -> (c: Color)
        ensures
            c == expanded(pixel),
    {
        proof {
            lemma_channels(pixel);
        }
        Color {
            r: lut_entry(pixel & 0x1F),
            g: lut_entry((pixel >> 5u16) & 0x1F),
            b: lut_entry((pixel >> 10u16) & 0x1F),
        }
    }

    /// A command color word: red from byte 2, green from byte 1, blue from byte 0.
    pub fn from_word(value: u32) -> (c: Color)
        ensures
            c == (Color { r: (value >> 16u32) as u8, g: (value >> 8u32) as u8, b: value as u8 }),
    {
        Color { r: (value >> 16u32) as u8, g: (value >> 8u32) as u8, b: value as u8 }
    }

    /// The 24-bit word with red in the low byte.
    pub fn to_word(&self) -> (w: u32)
        ensures
            w == word_of(*self),
    {
        (self.r as u32) | ((self.g as u32) << 8u32) | ((self.b as u32) << 16u32)
    }

    /// Keeps the top five bits of each channel of a 24-bit word (red in the low byte).
    pub fn compress_color_depth(color_24bit: u32) -> (h: u16)
        ensures
            h == compressed(color_24bit),
    {
        let r = (color_24bit & 0xFF) / 8;
        let g = ((color_24bit >> 8u32) & 0xFF) / 8;
        let b = ((color_24bit >> 16u32) & 0xFF) / 8;
        (r | (g << 5u32) | (b << 10u32)) as u16
    }

    /// Texel times vertex color over 128, rounded, saturated per channel.
    pub fn modulate(&self, vertex_color: Color) -> (c: Color)
        ensures
            c == (Color {
                r: sat8((self.r * vertex_color.r + 64) / 128),
                g: sat8((self.g * vertex_color.g + 64) / 128),
                b: sat8((self.b * vertex_color.b + 64) / 128),
            }),
    {
        Color {
            r: Color::modulate_channel(self.r, vertex_color.r),
            g: Color::modulate_channel(self.g, vertex_color.g),
            b: Color::modulate_channel(self.b, vertex_color.b),
        }
    }

    fn modulate_channel(a: u8, b: u8) -> (r: u8)
        ensures
            r == sat8((a * b + 64) / 128),
    {
        assert(0 <= (a as u32) * (b as u32) <= 255 * 255) by (nonlinear_arith);
        let v = ((a as u32) * (b as u32) + 64) / 128;
        if v > 255 {
            255
        } else {
            v as u8
        }
    }

    fn add_signed(v: u8, d: i32) -> (r: u8)
        requires
            -8 <= d <= 8,
        ensures
            r == sat8(v + d),
    {
        let s = v as i32 + d;
        if s < 0 {
            0
        } else if s > 255 {
            255
        } else {
            s as u8
        }
    }

    /// Adds the ordered-dither offset of pixel (x, y) to each channel, saturating.
    pub fn apply_dithering(&mut self, x: i32, y: i32) -> (c: Color)
        ensures
            ({
                let d = dither_offset(((x as u32) & 3) as int, ((y as u32) & 3) as int);
                *final(self) == (Color {
                    r: sat8(old(self).r + d),
                    g: sat8(old(self).g + d),
                    b: sat8(old(self).b + d),
                })
            }),
            c == *final(self),
    {
        let t: [i32; 16] = [-4, 0, -3, 1, 2, -2, 3, -1, -3, 1, -4, 0, 3, -1, 2, -2];
        let px = (x as u32) & 3;
        let py = (y as u32) & 3;
        proof {
            lemma_low_bits(x as u32);
            lemma_low_bits(y as u32);
        }
        let d = t[(py * 4 + px) as usize];
        assert(t@ =~= seq![-4i32, 0i32, -3i32, 1i32, 2i32, -2i32, 3i32, -1i32, -3i32, 1i32, -4i32, 0i32, 3i32, -1i32, 2i32, -2i32]);
        assert(d as int == dither_offset(px as int, py as int));
        self.r = Color::add_signed(self.r, d);
        self.g = Color::add_signed(self.g, d);
        self.b = Color::add_signed(self.b, d);
        *self
    }

    /// Semi-transparent blend of this (front) color over `back`:
    /// 0 average, 1 add, 2 subtract front from back, 3 add a quarter of front.
    pub fn blend(&self, back: Color, mode: u8) -> (c: Color)
        requires
            mode < 4,
        ensures
            c == (Color {
                r: blend_channel(self.r, back.r, mode),
                g: blend_channel(self.g, back.g, mode),
                b: blend_channel(self.b, back.b, mode),
            }),
    {
        Color {
            r: Color::blend_one(self.r, back.r, mode),
            g: Color::blend_one(self.g, back.g, mode),
            b: Color::blend_one(self.b, back.b, mode),
        }
    }

    fn blend_one(f: u8, b: u8, mode: u8) -> (r: u8)
        requires
            mode < 4,
        ensures
            r == blend_channel(f, b, mode),
    {
        if mode == 0 {
            f / 2 + b / 2
        } else if mode == 1 {
            b.saturating_add(f)
        } else if mode == 2 {
            b.saturating_sub(f)
        } else {
            b.saturating_add(f / 4)
        }
    }
}

proof fn lemma_channels(p: u16)
    by (bit_vector)
    ensures
        p & 0x1F < 32,
        (p >> 5u16) & 0x1F < 32,
        (p >> 10u16) & 0x1F < 32,
{
}

proof fn lemma_pack(r: u32, g: u32, b: u32, h: u32)
    by (bit_vector)
    requires
        r < 256 && g < 256 && b < 256 && h < 0x10000,
        r / 8 == h & 0x1F,
        g / 8 == (h >> 5u32) & 0x1F,
        b / 8 == (h >> 10u32) & 0x1F,
    ensures
        (((r | (g << 8u32) | (b << 16u32)) & 0xFF) / 8) | (((((r | (g << 8u32) | (b << 16u32))
            >> 8u32) & 0xFF) / 8) << 5u32) | (((((r | (g << 8u32) | (b << 16u32)) >> 16u32) & 0xFF)
            / 8) << 10u32) == h & 0x7FFF,
{
}

proof fn lemma_low_half(h: u16)
    by (bit_vector)
    ensures
        (h & 0x1F) as u32 == (h as u32) & 0x1F,
        ((h >> 5u16) & 0x1F) as u32 == ((h as u32) >> 5u32) & 0x1F,
        ((h >> 10u16) & 0x1F) as u32 == ((h as u32) >> 10u32) & 0x1F,
        (h & 0x7FFF) as u32 == (h as u32) & 0x7FFF,
{
}

proof fn lemma_low_bits(v: u32)
    by (bit_vector)
    ensures
        v & 3 <= 3,
{
}

/// One channel of a semi-transparent blend.
pub open spec fn blend_channel(f: u8, b: u8, mode: u8) -> u8 {
    if mode == 0 {
        (f / 2 + b / 2) as u8
    } else if mode == 1 {
        sat8(b + f)
    } else if mode == 2 {
        sat8(b - f)
    } else {
        sat8(b + f / 4)
    }
}

/// Expanding a 15-bit color through the table and reducing it again gives
/// back the same 15 bits: after the first reduction, further round trips
/// change nothing.
pub proof fn lemma_depth_round_trip(h: u16)
    ensures
        compressed(word_of(expanded(h))) == h & 0x7FFF,
{
    let i = (h & 0x1F) as int;
    let j = ((h >> 5u16) & 0x1F) as int;
    let k = ((h >> 10u16) & 0x1F) as int;
    lemma_channels(h);
    assert forall|n: int| 0 <= n < 32 implies #[trigger] lut()[n] / 8 == n by {
        assert(lut()[n] / 8 == n);
    }
    let c = expanded(h);
    assert(c.r / 8 == i && c.g / 8 == j && c.b / 8 == k);
    lemma_low_half(h);
    lemma_pack(c.r as u32, c.g as u32, c.b as u32, h as u32);
    lemma_low_half(h);
}

} // verus!
