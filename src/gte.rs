//! Geometry transformation engine (cop2): 64 registers, saturating fixed-point
//! sinks with sticky flag bits, and the vector commands built on them.
use vstd::prelude::*;

use crate::registers::Registers;

verus! {

/// A three-lane integer vector.
#[derive(Debug, Clone, Copy, PartialEq, Eq, Structural)]
pub struct V3 {
    pub x: i64,
    pub y: i64,
    pub z: i64,
}

pub const I44_MAX: i64 = 0x0000_07FF_FFFF_FFFF;

pub const I44_MIN: i64 = -0x0000_0800_0000_0000;

/// Flag register bits.
pub const FLAG_MAC1_POS: u32 = 0x4000_0000;

pub const FLAG_MAC2_POS: u32 = 0x2000_0000;

pub const FLAG_MAC3_POS: u32 = 0x1000_0000;

pub const FLAG_MAC1_NEG: u32 = 0x0800_0000;

pub const FLAG_MAC2_NEG: u32 = 0x0400_0000;

pub const FLAG_MAC3_NEG: u32 = 0x0200_0000;

pub const FLAG_IR1: u32 = 0x0100_0000;

pub const FLAG_IR2: u32 = 0x0080_0000;

pub const FLAG_IR3: u32 = 0x0040_0000;

pub const FLAG_COLOR_R: u32 = 0x0020_0000;

pub const FLAG_COLOR_G: u32 = 0x0010_0000;

pub const FLAG_COLOR_B: u32 = 0x0008_0000;

pub const FLAG_SZ3_OTZ: u32 = 0x0004_0000;

pub const FLAG_DIVIDE: u32 = 0x0002_0000;

pub const FLAG_MAC0_POS: u32 = 0x0001_0000;

pub const FLAG_MAC0_NEG: u32 = 0x0000_8000;

pub const FLAG_SX2: u32 = 0x0000_4000;

pub const FLAG_SY2: u32 = 0x0000_2000;

pub const FLAG_IR0: u32 = 0x0000_1000;

/// The flag bits whose OR is reported in bit 31: 30..=23 and 18..=13.
pub const FLAG_ERROR_MASK: u32 = 0x7F87_E000;

/// `bit` when `cond` holds, else nothing.
pub open spec fn flag_if(cond: bool, bit: u32) -> u32 {
    if cond {
        bit
    } else {
        0
    }
}

pub fn flag_when(cond: bool, bit: u32) -> (r: u32)
    ensures
        r == flag_if(cond, bit),
{
    if cond {
        bit
    } else {
        0
    }
}

pub open spec fn clamp(v: int, lo: int, hi: int) -> int {
    if v < lo {
        lo
    } else if v > hi {
        hi
    } else {
        v
    }
}

fn clamp_i64(v: i64, lo: i64, hi: i64) -> (r: i64)
    requires
        lo <= hi,
    ensures
        r == clamp(v as int, lo as int, hi as int),
{
    if v < lo {
        lo
    } else if v > hi {
        hi
    } else {
        v
    }
}

/// The low halfword, sign-extended.
pub open spec fn lo_s(w: u32) -> i64 {
    (w as i16) as i64
}

/// The high halfword, sign-extended.
pub open spec fn hi_s(w: u32) -> i64 {
    ((w >> 16u32) as i16) as i64
}

/// The sign-extended halfword for a clamped IR lane.
pub open spec fn lane_word(v: i64) -> u32 {
    (v as i16) as u16 as u32
}

/// The 5-bit IRGB channel for an IR value: 0 when negative, 31 from 0x1000 up,
/// else the value divided by 128.
pub open spec fn irgb_channel(value: u32) -> u32 {
    let v = value as u16;
    if v & 0x8000 != 0 {
        0
    } else if v >= 0x1000 {
        0x1F
    } else {
        (v >> 7u16) as u32
    }
}

/// MAC lanes after saturation: with `sf` shifted by 12 and saturated to 32
/// bits; without, kept to the low 32 bits of the 44-bit value.
pub open spec fn mac_lane(raw: i64, sf: bool) -> i64 {
    if sf {
        clamp((raw >> 12u64) as int, i32::MIN as int, i32::MAX as int) as i64
    } else {
        (raw as i32) as i64
    }
}

/// Whether a MAC lane overflows upwards: the shifted value past 32 bits, or
/// the raw value past 44 bits.
pub open spec fn mac_pos(raw: i64, sf: bool) -> bool {
    if sf {
        (raw >> 12u64) > i32::MAX
    } else {
        raw > I44_MAX
    }
}

pub open spec fn mac_neg(raw: i64, sf: bool) -> bool {
    if sf {
        (raw >> 12u64) < i32::MIN
    } else {
        raw < I44_MIN
    }
}

/// The lower bound of an IR lane: 0 with `lm`, else -0x8000.
pub open spec fn ir_lo(lm: bool) -> int {
    if lm {
        0
    } else {
        -0x8000
    }
}

pub open spec fn ir_sat(v: i64, lm: bool) -> bool {
    v < ir_lo(lm) || v > 0x7FFF
}

pub struct GTE {
    pub UNR_TABLE: Vec<u8>,
    pub R: Registers<64>,
    pub cycles: usize,
}

/// Entry `i` of the reciprocal table used by the perspective divide.
pub open spec fn unr_entry(i: int) -> u8 {
    let v = (0x40000int / (i + 0x100) + 1) / 2 - 0x101;
    if v < 0 {
        0
    } else {
        v as u8
    }
}

impl GTE {
    pub open spec fn regs(&self) -> Seq<u32> {
        self.R.R@
    }

    pub open spec fn flags(&self) -> u32 {
        self.R.R@[63]
    }

    pub open spec fn wf(&self) -> bool {
        &&& self.UNR_TABLE@.len() == 0x101
        &&& forall|i: int| 0 <= i < 0x101 ==> #[trigger] self.UNR_TABLE@[i] == unr_entry(i)
    }

    pub fn new() -> (r: GTE)
        ensures
            r.wf(),
            forall|i: int| 0 <= i < 64 ==> r.regs()[i] == 0,
            r.cycles == 0,
    {
        let mut table: Vec<u8> = Vec::new();
        let mut i: i32 = 0;
        while i < 0x101
            invariant
                0 <= i <= 0x101,
                table@.len() == i,
                forall|j: int| 0 <= j < i ==> #[trigger] table@[j] == unr_entry(j),
            decreases 0x101 - i,
        {
            assert(0x40000int / (i + 0x100) <= 0x400) by {
                vstd::arithmetic::div_mod::lemma_div_is_ordered_by_denominator(
                    0x40000,
                    0x100,
                    i + 0x100,
                );
            }
            let v: i32 = (0x40000 / (i + 0x100) + 1) / 2 - 0x101;
            let entry: u8 = if v < 0 {
                0
            } else {
                v as u8
            };
            table.push(entry);
            i = i + 1;
        }
        GTE { UNR_TABLE: table, R: Registers::zeroed(), cycles: 0 }
    }
}

/// The flag word after a MAC1..3 saturation of `raw`.
pub open spec fn mac_flags(flags: u32, raw: V3, sf: bool) -> u32 {
    flags | (flag_if(mac_pos(raw.x, sf), FLAG_MAC1_POS) | flag_if(mac_pos(raw.y, sf), FLAG_MAC2_POS)
        | flag_if(mac_pos(raw.z, sf), FLAG_MAC3_POS) | flag_if(mac_neg(raw.x, sf), FLAG_MAC1_NEG)
        | flag_if(mac_neg(raw.y, sf), FLAG_MAC2_NEG) | flag_if(mac_neg(raw.z, sf), FLAG_MAC3_NEG))
}

pub open spec fn mac_result(raw: V3, sf: bool) -> V3 {
    V3 { x: mac_lane(raw.x, sf), y: mac_lane(raw.y, sf), z: mac_lane(raw.z, sf) }
}

/// The flag word after an IR1..3 clamp of `v`.
pub open spec fn ir_flags(flags: u32, v: V3, lm: bool) -> u32 {
    flags | (flag_if(ir_sat(v.x, lm), FLAG_IR1) | flag_if(ir_sat(v.y, lm), FLAG_IR2) | flag_if(
        ir_sat(v.z, lm),
        FLAG_IR3,
    ))
}

pub open spec fn ir_result(v: V3, lm: bool) -> V3 {
    V3 {
        x: clamp(v.x as int, ir_lo(lm), 0x7FFF) as i64,
        y: clamp(v.y as int, ir_lo(lm), 0x7FFF) as i64,
        z: clamp(v.z as int, ir_lo(lm), 0x7FFF) as i64,
    }
}

/// The IRGB word after IR lane `shift / 5` takes the value `value`.
pub open spec fn irgb_with(irgb: u32, value: u32, shift: u32) -> u32 {
    ((irgb & !(0x1Fu32 << shift)) | (irgb_channel(value) << shift)) & 0x7FFF
}

/// Registers after the IR vector is written, with IRGB following.
pub open spec fn ir_written(r: Seq<u32>, v: V3) -> Seq<u32> {
    let r1 = r.update(9, lane_word(v.x)).update(10, lane_word(v.y)).update(11, lane_word(v.z));
    let irgb = irgb_with(irgb_with(irgb_with(r[28], lane_word(v.x), 0), lane_word(v.y), 5), lane_word(v.z), 10);
    r1.update(28, irgb)
}

/// Registers after the MAC vector is written.
pub open spec fn mac_written(r: Seq<u32>, v: V3) -> Seq<u32> {
    r.update(25, (v.x as i32) as u32).update(26, (v.y as i32) as u32).update(27, (v.z as i32) as u32)
}

impl GTE {
    fn irgb_update(&mut self, value: u32, shift: u32)
        requires
            shift == 0 || shift == 5 || shift == 10,
        ensures
            final(self).regs() == old(self).regs().update(
                28,
                irgb_with(old(self).regs()[28], value, shift),
            ),
            final(self).UNR_TABLE == old(self).UNR_TABLE,
            final(self).cycles == old(self).cycles,
    {
        let mut channel = value as u16;
        if channel & 0x8000 != 0 {
            channel = 0;
        } else if channel >= 0x1000 {
            channel = 0x1F;
        } else {
            channel = channel >> 7u16;
        }
        let irgb = self.R.get(28);
        self.R.set(28, ((irgb & !(0x1Fu32 << shift)) | ((channel as u32) << shift)) & 0x7FFF);
    }

    fn update_irgb_red(&mut self, value: u32)
        ensures
            final(self).regs() == old(self).regs().update(28, irgb_with(old(self).regs()[28], value, 0)),
            final(self).UNR_TABLE == old(self).UNR_TABLE,
            final(self).cycles == old(self).cycles,
    {
        self.irgb_update(value, 0);
    }

    fn update_irgb_green(&mut self, value: u32)
        ensures
            final(self).regs() == old(self).regs().update(28, irgb_with(old(self).regs()[28], value, 5)),
            final(self).UNR_TABLE == old(self).UNR_TABLE,
            final(self).cycles == old(self).cycles,
    {
        self.irgb_update(value, 5);
    }

    fn update_irgb_blue(&mut self, value: u32)
        ensures
            final(self).regs() == old(self).regs().update(28, irgb_with(old(self).regs()[28], value, 10)),
            final(self).UNR_TABLE == old(self).UNR_TABLE,
            final(self).cycles == old(self).cycles,
    {
        self.irgb_update(value, 10);
    }

    fn or_flags(&mut self, bits: u32)
        ensures
            final(self).regs() == old(self).regs().update(63, old(self).flags() | bits),
            final(self).UNR_TABLE == old(self).UNR_TABLE,
            final(self).cycles == old(self).cycles,
    {
        let f = self.R.get(63);
        self.R.set(63, f | bits);
    }

    /// Vertex `idx` (0..=2) of the V0..V2 registers, lanes sign-extended.
    pub fn vector(&self, idx: u32) -> (r: V3)
        requires
            idx < 3,
        ensures
            r == (V3 {
                x: lo_s(self.regs()[2 * idx]),
                y: hi_s(self.regs()[2 * idx]),
                z: lo_s(self.regs()[2 * idx + 1]),
            }),
    {
        let w = self.R.get(2 * idx);
        let z = self.R.get(2 * idx + 1);
        V3 { x: (w as i16) as i64, y: ((w >> 16u32) as i16) as i64, z: (z as i16) as i64 }
    }

    /// The RGBC register as its four bytes: red, green, blue, code.
    pub fn rgbc(&self) -> (r: [u8; 4])
        ensures
            r@ == seq![
                self.regs()[6] as u8,
                (self.regs()[6] >> 8u32) as u8,
                (self.regs()[6] >> 16u32) as u8,
                (self.regs()[6] >> 24u32) as u8,
            ],
    {
        let w = self.R.get(6);
        let r = [w as u8, (w >> 8u32) as u8, (w >> 16u32) as u8, (w >> 24u32) as u8];
        assert(r@ =~= seq![w as u8, (w >> 8u32) as u8, (w >> 16u32) as u8, (w >> 24u32) as u8]);
        r
    }

    pub fn write_otz(&mut self, value: u16)
        ensures
            final(self).regs() == old(self).regs().update(7, value as u32),
            final(self).UNR_TABLE == old(self).UNR_TABLE,
            final(self).cycles == old(self).cycles,
    {
        self.R.set(7, value as u32);
    }

    /// OTZ sink: clamps to 0..=0xFFFF, flagging bit 18 when it had to.
    pub fn update_otz_flags(&mut self, value: i64) -> (r: u16)
        ensures
            r as int == clamp(value as int, 0, 0xFFFF),
            final(self).regs() == old(self).regs().update(
                63,
                old(self).flags() | flag_if(value < 0 || value > 0xFFFF, FLAG_SZ3_OTZ),
            ),
            final(self).UNR_TABLE == old(self).UNR_TABLE,
            final(self).cycles == old(self).cycles,
    {
        self.or_flags(flag_when(value < 0 || value > 0xFFFF, FLAG_SZ3_OTZ));
        clamp_i64(value, 0, 0xFFFF) as u16
    }

    pub fn ir0(&self) -> (r: i16)
        ensures
            r == self.regs()[8] as u16 as i16,
    {
        self.R.get(8) as u16 as i16
    }

    pub fn write_ir0(&mut self, ir0: i16)
        ensures
            final(self).regs() == old(self).regs().update(8, ir0 as u32),
            final(self).UNR_TABLE == old(self).UNR_TABLE,
            final(self).cycles == old(self).cycles,
    {
        self.R.set(8, ir0 as u32);
    }

    /// IR0 sink: clamps to 0..=0x1000, flagging bit 12 when it had to.
    pub fn update_ir0_flags(&mut self, raw_ir0: i64) -> (r: i16)
        ensures
            r as int == clamp(raw_ir0 as int, 0, 0x1000),
            final(self).regs() == old(self).regs().update(
                63,
                old(self).flags() | flag_if(raw_ir0 < 0 || raw_ir0 > 0x1000, FLAG_IR0),
            ),
            final(self).UNR_TABLE == old(self).UNR_TABLE,
            final(self).cycles == old(self).cycles,
    {
        self.or_flags(flag_when(raw_ir0 < 0 || raw_ir0 > 0x1000, FLAG_IR0));
        clamp_i64(raw_ir0, 0, 0x1000) as i16
    }

    pub fn ir_vector(&self) -> (r: V3)
        ensures
            r == (V3 {
                x: lo_s(self.regs()[9]),
                y: lo_s(self.regs()[10]),
                z: lo_s(self.regs()[11]),
            }),
    {
        V3 {
            x: (self.R.get(9) as i16) as i64,
            y: (self.R.get(10) as i16) as i64,
            z: (self.R.get(11) as i16) as i64,
        }
    }

    /// Writes IR1..3, and IRGB follows them.
    pub fn write_ir_vector(&mut self, v: V3)
        ensures
            final(self).regs() == ir_written(old(self).regs(), v),
            final(self).UNR_TABLE == old(self).UNR_TABLE,
            final(self).cycles == old(self).cycles,
    {
        let x = (v.x as i16) as u16 as u32;
        let y = (v.y as i16) as u16 as u32;
        let z = (v.z as i16) as u16 as u32;
        self.R.set(9, x);
        self.R.set(10, y);
        self.R.set(11, z);
        self.update_irgb_red(x);
        self.update_irgb_green(y);
        self.update_irgb_blue(z);
        assert(self.regs() =~= ir_written(old(self).regs(), v));
    }

    /// IR1..3 sink: clamps each lane to `lm ? 0 : -0x8000` ..= 0x7FFF and sets
    /// the lane's flag (bits 24, 23, 22) exactly when it had to.
    pub fn update_ir_flags(&mut self, v: V3, lm: bool) -> (r: V3)
        ensures
            r == ir_result(v, lm),
            final(self).regs() == old(self).regs().update(63, ir_flags(old(self).flags(), v, lm)),
            final(self).UNR_TABLE == old(self).UNR_TABLE,
            final(self).cycles == old(self).cycles,
    {
        let lo: i64 = if lm {
            0
        } else {
            -0x8000
        };
        let bits = flag_when(v.x < lo || v.x > 0x7FFF, FLAG_IR1) | flag_when(
            v.y < lo || v.y > 0x7FFF,
            FLAG_IR2,
        ) | flag_when(v.z < lo || v.z > 0x7FFF, FLAG_IR3);
        self.or_flags(bits);
        V3 {
            x: clamp_i64(v.x, lo, 0x7FFF),
            y: clamp_i64(v.y, lo, 0x7FFF),
            z: clamp_i64(v.z, lo, 0x7FFF),
        }
    }

    /// The IR sink of perspective transforms: IR1 and IR2 as usual; IR3 is
    /// clamped as usual but flagged from the unshifted MAC3 against the
    /// signed 16-bit range, whatever `lm` says.
    pub fn update_ir_flags_rtp(&mut self, v: V3, lm: bool, raw_mac3: i32) -> (r: V3)
        ensures
            r == ir_result(v, lm),
            final(self).regs() == old(self).regs().update(
                63,
                old(self).flags() | (flag_if(ir_sat(v.x, lm), FLAG_IR1) | flag_if(
                    ir_sat(v.y, lm),
                    FLAG_IR2,
                ) | flag_if(raw_mac3 < -0x8000 || raw_mac3 > 0x7FFF, FLAG_IR3)),
            ),
            final(self).UNR_TABLE == old(self).UNR_TABLE,
            final(self).cycles == old(self).cycles,
    {
        let lo: i64 = if lm {
            0
        } else {
            -0x8000
        };
        let bits = flag_when(v.x < lo || v.x > 0x7FFF, FLAG_IR1) | flag_when(
            v.y < lo || v.y > 0x7FFF,
            FLAG_IR2,
        ) | flag_when(raw_mac3 < -0x8000 || raw_mac3 > 0x7FFF, FLAG_IR3);
        self.or_flags(bits);
        V3 {
            x: clamp_i64(v.x, lo, 0x7FFF),
            y: clamp_i64(v.y, lo, 0x7FFF),
            z: clamp_i64(v.z, lo, 0x7FFF),
        }
    }

    /// Screen point `idx` (0..=2) of the SXY FIFO.
    pub fn screen_xy(&self, idx: u32) -> (r: (i64, i64))
        requires
            idx < 3,
        ensures
            r == (lo_s(self.regs()[12 + idx]), hi_s(self.regs()[12 + idx])),
    {
        let w = self.R.get(12 + idx);
        ((w as i16) as i64, ((w >> 16u32) as i16) as i64)
    }

    pub fn push_sxy_fifo(&mut self, sx2: i16, sy2: i16)
        ensures
            final(self).regs() == old(self).regs().update(12, old(self).regs()[13]).update(
                13,
                old(self).regs()[14],
            ).update(14, (sx2 as u16 as u32) | ((sy2 as u16 as u32) << 16u32)),
            final(self).UNR_TABLE == old(self).UNR_TABLE,
            final(self).cycles == old(self).cycles,
    {
        let s1 = self.R.get(13);
        let s2 = self.R.get(14);
        self.R.set(12, s1);
        self.R.set(13, s2);
        self.R.set(14, (sx2 as u16 as u32) | ((sy2 as u16 as u32) << 16u32));
    }

    /// SX2/SY2 sink: clamps to -0x400..=0x3FF, flagging bits 14 and 13.
    pub fn update_sxy2_flags(&mut self, raw_sx2: i64, raw_sy2: i64) -> (r: (i16, i16))
        ensures
            r.0 as int == clamp(raw_sx2 as int, -0x400, 0x3FF),
            r.1 as int == clamp(raw_sy2 as int, -0x400, 0x3FF),
            final(self).regs() == old(self).regs().update(
                63,
                old(self).flags() | (flag_if(raw_sx2 < -0x400 || raw_sx2 > 0x3FF, FLAG_SX2)
                    | flag_if(raw_sy2 < -0x400 || raw_sy2 > 0x3FF, FLAG_SY2)),
            ),
            final(self).UNR_TABLE == old(self).UNR_TABLE,
            final(self).cycles == old(self).cycles,
    {
        self.or_flags(
            flag_when(raw_sx2 < -0x400 || raw_sx2 > 0x3FF, FLAG_SX2) | flag_when(
                raw_sy2 < -0x400 || raw_sy2 > 0x3FF,
                FLAG_SY2,
            ),
        );
        (clamp_i64(raw_sx2, -0x400, 0x3FF) as i16, clamp_i64(raw_sy2, -0x400, 0x3FF) as i16)
    }

    /// Entry `idx` (0..=3) of the SZ FIFO.
    pub fn screen_z(&self, idx: u32) -> (r: u16)
        requires
            idx < 4,
        ensures
            r == self.regs()[16 + idx] as u16,
    {
        self.R.get(16 + idx) as u16
    }

    pub fn push_screen_z_fifo(&mut self, value: u16)
        ensures
            final(self).regs() == old(self).regs().update(16, old(self).regs()[17]).update(
                17,
                old(self).regs()[18],
            ).update(18, old(self).regs()[19]).update(19, value as u32),
            final(self).UNR_TABLE == old(self).UNR_TABLE,
            final(self).cycles == old(self).cycles,
    {
        let a = self.R.get(17);
        let b = self.R.get(18);
        let c = self.R.get(19);
        self.R.set(16, a);
        self.R.set(17, b);
        self.R.set(18, c);
        self.R.set(19, value as u32);
    }

    /// SZ3 sink: clamps to 0..=0xFFFF, flagging bit 18.
    pub fn update_sz3_flags(&mut self, raw_sz3: i64) -> (r: u16)
        ensures
            r as int == clamp(raw_sz3 as int, 0, 0xFFFF),
            final(self).regs() == old(self).regs().update(
                63,
                old(self).flags() | flag_if(raw_sz3 < 0 || raw_sz3 > 0xFFFF, FLAG_SZ3_OTZ),
            ),
            final(self).UNR_TABLE == old(self).UNR_TABLE,
            final(self).cycles == old(self).cycles,
    {
        self.or_flags(flag_when(raw_sz3 < 0 || raw_sz3 > 0xFFFF, FLAG_SZ3_OTZ));
        clamp_i64(raw_sz3, 0, 0xFFFF) as u16
    }

    /// The oldest color FIFO entry as its four bytes.
    pub fn pop_color_fifo(&self) -> (r: [u8; 4])
        ensures
            r@ == seq![
                self.regs()[20] as u8,
                (self.regs()[20] >> 8u32) as u8,
                (self.regs()[20] >> 16u32) as u8,
                (self.regs()[20] >> 24u32) as u8,
            ],
    {
        let w = self.R.get(20);
        let r = [w as u8, (w >> 8u32) as u8, (w >> 16u32) as u8, (w >> 24u32) as u8];
        assert(r@ =~= seq![w as u8, (w >> 8u32) as u8, (w >> 16u32) as u8, (w >> 24u32) as u8]);
        r
    }

    pub fn write_mac0(&mut self, value: i32)
        ensures
            final(self).regs() == old(self).regs().update(24, value as u32),
            final(self).UNR_TABLE == old(self).UNR_TABLE,
            final(self).cycles == old(self).cycles,
    {
        self.R.set(24, value as u32);
    }

    /// MAC0 sink: saturates to signed 32 bits, flagging bit 16 above and bit 15 below.
    pub fn update_mac0_flags(&mut self, value: i64) -> (r: i32)
        ensures
            r as int == clamp(value as int, i32::MIN as int, i32::MAX as int),
            final(self).regs() == old(self).regs().update(
                63,
                old(self).flags() | (flag_if(value > i32::MAX, FLAG_MAC0_POS) | flag_if(
                    value < i32::MIN,
                    FLAG_MAC0_NEG,
                )),
            ),
            final(self).UNR_TABLE == old(self).UNR_TABLE,
            final(self).cycles == old(self).cycles,
    {
        self.or_flags(
            flag_when(value > i32::MAX as i64, FLAG_MAC0_POS) | flag_when(
                value < i32::MIN as i64,
                FLAG_MAC0_NEG,
            ),
        );
        clamp_i64(value, i32::MIN as i64, i32::MAX as i64) as i32
    }

    pub fn mac_vector(&self) -> (r: V3)
        ensures
            r == (V3 {
                x: (self.regs()[25] as i32) as i64,
                y: (self.regs()[26] as i32) as i64,
                z: (self.regs()[27] as i32) as i64,
            }),
    {
        V3 {
            x: (self.R.get(25) as i32) as i64,
            y: (self.R.get(26) as i32) as i64,
            z: (self.R.get(27) as i32) as i64,
        }
    }

    pub fn write_mac_vector(&mut self, v: V3)
        ensures
            final(self).regs() == mac_written(old(self).regs(), v),
            final(self).UNR_TABLE == old(self).UNR_TABLE,
            final(self).cycles == old(self).cycles,
    {
        self.R.set(25, (v.x as i32) as u32);
        self.R.set(26, (v.y as i32) as u32);
        self.R.set(27, (v.z as i32) as u32);
    }

    /// MAC1..3 sink: with `sf` each lane is shifted right by 12 and saturated
    /// to 32 bits, without it keeps its low 32 bits; its overflow bits (30..28 up, 27..25 down) are set
    /// exactly when the shifted value leaves 32 bits (`sf`) or the raw value
    /// leaves 44 bits.
    pub fn update_mac_vector_flags(&mut self, raw: V3, sf: bool) -> (r: V3)
        ensures
            r == mac_result(raw, sf),
            final(self).regs() == old(self).regs().update(63, mac_flags(old(self).flags(), raw, sf)),
            final(self).UNR_TABLE == old(self).UNR_TABLE,
            final(self).cycles == old(self).cycles,
    {
        if sf {
            let x = raw.x >> 12u64;
            let y = raw.y >> 12u64;
            let z = raw.z >> 12u64;
            let max = i32::MAX as i64;
            let min = i32::MIN as i64;
            self.or_flags(
                flag_when(x > max, FLAG_MAC1_POS) | flag_when(y > max, FLAG_MAC2_POS) | flag_when(
                    z > max,
                    FLAG_MAC3_POS,
                ) | flag_when(x < min, FLAG_MAC1_NEG) | flag_when(y < min, FLAG_MAC2_NEG)
                    | flag_when(z < min, FLAG_MAC3_NEG),
            );
            V3 { x: clamp_i64(x, min, max), y: clamp_i64(y, min, max), z: clamp_i64(z, min, max) }
        } else {
            self.or_flags(
                flag_when(raw.x > I44_MAX, FLAG_MAC1_POS) | flag_when(raw.y > I44_MAX, FLAG_MAC2_POS)
                    | flag_when(raw.z > I44_MAX, FLAG_MAC3_POS) | flag_when(
                    raw.x < I44_MIN,
                    FLAG_MAC1_NEG,
                ) | flag_when(raw.y < I44_MIN, FLAG_MAC2_NEG) | flag_when(
                    raw.z < I44_MIN,
                    FLAG_MAC3_NEG,
                ),
            );
            V3 { x: (raw.x as i32) as i64, y: (raw.y as i32) as i64, z: (raw.z as i32) as i64 }
        }
    }
}

/// The leading sign bits of LZCS: leading ones if negative, else leading zeros.
pub open spec fn lzc(w: u32) -> u32 {
    vstd::std_specs::bits::u32_leading_ones(w) | vstd::std_specs::bits::u32_leading_zeros(w)
}

/// What a read of data register `reg` returns.
pub open spec fn data_read(r: Seq<u32>, reg: u32) -> u32 {
    if reg == 1 || reg == 3 || reg == 5 || (8 <= reg <= 11) {
        (r[reg as int] as i16) as u32
    } else if reg == 7 || (16 <= reg <= 19) {
        r[reg as int] as u16 as u32
    } else if reg == 15 {
        r[14]
    } else if reg == 28 || reg == 29 {
        r[28] & 0x7FFF
    } else if reg == 31 {
        lzc(r[30])
    } else {
        r[reg as int]
    }
}

/// The registers after a write of data register `reg`.
pub open spec fn data_written(r: Seq<u32>, reg: u32, value: u32) -> Seq<u32> {
    if reg == 7 || (16 <= reg <= 19) {
        r.update(reg as int, value as u16 as u32)
    } else if reg == 9 {
        r.update(9, value as u16 as u32).update(28, irgb_with(r[28], value, 0))
    } else if reg == 10 {
        r.update(10, value as u16 as u32).update(28, irgb_with(r[28], value, 5))
    } else if reg == 11 {
        r.update(11, value as u16 as u32).update(28, irgb_with(r[28], value, 10))
    } else if reg == 15 {
        r.update(12, r[13]).update(13, r[14]).update(14, value)
    } else if reg == 28 {
        r.update(28, value & 0x7FFF).update(9, (value & 0x1F) << 7u32).update(
            10,
            ((value >> 5u32) & 0x1F) << 7u32,
        ).update(11, ((value >> 10u32) & 0x1F) << 7u32)
    } else if reg == 29 || reg == 31 {
        r
    } else {
        r.update(reg as int, value)
    }
}

/// The matrix whose nine halfwords start at register `b`.
pub open spec fn matrix_at(r: Seq<u32>, b: int) -> Seq<V3> {
    seq![
        V3 { x: lo_s(r[b]), y: hi_s(r[b]), z: lo_s(r[b + 1]) },
        V3 { x: hi_s(r[b + 1]), y: lo_s(r[b + 2]), z: hi_s(r[b + 2]) },
        V3 { x: lo_s(r[b + 3]), y: hi_s(r[b + 3]), z: lo_s(r[b + 4]) },
    ]
}

/// The vector of three signed words from register `b`.
pub open spec fn words_at(r: Seq<u32>, b: int) -> V3 {
    V3 { x: (r[b] as i32) as i64, y: (r[b + 1] as i32) as i64, z: (r[b + 2] as i32) as i64 }
}

pub open spec fn color_sat(v: i64) -> bool {
    v < 0 || v > 0xFF
}

/// The registers after the color FIFO takes the MAC vector divided by 16,
/// each channel clamped to 0..=255 (flags 21..19), with the RGBC code byte.
pub open spec fn color_pushed(r: Seq<u32>) -> Seq<u32> {
    let m = words_at(r, 25);
    let (rr, gg, bb) = (m.x >> 4u64, m.y >> 4u64, m.z >> 4u64);
    let flags = r[63] | (flag_if(color_sat(rr), FLAG_COLOR_R) | flag_if(color_sat(gg), FLAG_COLOR_G)
        | flag_if(color_sat(bb), FLAG_COLOR_B));
    let word = (clamp(rr as int, 0, 0xFF) as u32) | ((clamp(gg as int, 0, 0xFF) as u32) << 8u32) | ((
    clamp(bb as int, 0, 0xFF) as u32) << 16u32) | ((r[6] >> 24u32) << 24u32);
    r.update(20, r[21]).update(21, r[22]).update(22, word).update(63, flags)
}

impl GTE {
    pub fn read_data_register(&self, register: u32) -> (r: u32)
        requires
            register < 32,
        ensures
            r == data_read(self.regs(), register),
    {
        if register == 1 || register == 3 || register == 5 || (8 <= register && register <= 11) {
            (self.R.get(register) as i16) as u32
        } else if register == 7 || (16 <= register && register <= 19) {
            self.R.get(register) as u16 as u32
        } else if register == 15 {
            self.R.get(14)
        } else if register == 28 || register == 29 {
            self.R.get(28) & 0x7FFF
        } else if register == 31 {
            self.lzcr()
        } else {
            self.R.get(register)
        }
    }

    /// Reads control register `register`; reading the flag register (31)
    /// first sets bit 31 to the OR of bits 30..=23 and 18..=13.
    pub fn read_ctrl_register(&mut self, register: u32) -> (r: u32)
        requires
            register < 32,
        ensures
            final(self).UNR_TABLE == old(self).UNR_TABLE,
            final(self).cycles == old(self).cycles,
            register != 31 ==> final(self).regs() == old(self).regs(),
            register == 31 ==> {
                &&& r & 0x7FFF_FFFF == old(self).flags() & 0x7FFF_FFFF
                &&& (r & 0x8000_0000 != 0) == (old(self).flags() & FLAG_ERROR_MASK != 0)
                &&& final(self).regs() == old(self).regs().update(63, r)
            },
            ({
                let c = register + 32;
                &&& (c == 36 || c == 44 || c == 52 || c == 58 || c == 59 || c == 61 || c == 62)
                    ==> r == (old(self).regs()[c as int] as i16) as u32
                &&& !(c == 36 || c == 44 || c == 52 || c == 58 || c == 59 || c == 61 || c == 62
                    || c == 63) ==> r == old(self).regs()[c as int]
            }),
    {
        let ctrl = register + 32;
        if ctrl == 36 || ctrl == 44 || ctrl == 52 || ctrl == 58 || ctrl == 59 || ctrl == 61 || ctrl
            == 62 {
            (self.R.get(ctrl) as i16) as u32
        } else if ctrl == 63 {
            let f = self.R.get(63);
            let error: u32 = if f & FLAG_ERROR_MASK != 0 {
                0x8000_0000
            } else {
                0
            };
            let flag = (f & 0x7FFF_FFFF) | error;
            assert(((f & 0x7FFF_FFFF) | 0x8000_0000u32) & 0x7FFF_FFFF == f & 0x7FFF_FFFF && ((f
                & 0x7FFF_FFFF) | 0u32) & 0x7FFF_FFFF == f & 0x7FFF_FFFF && ((f & 0x7FFF_FFFF)
                | 0x8000_0000u32) & 0x8000_0000 != 0 && ((f & 0x7FFF_FFFF) | 0u32) & 0x8000_0000
                == 0) by (bit_vector);
            self.R.set(63, flag);
            flag
        } else {
            self.R.get(ctrl)
        }
    }

    pub fn write_data_register(&mut self, register: u32, value: u32)
        requires
            register < 32,
        ensures
            final(self).regs() == data_written(old(self).regs(), register, value),
            final(self).UNR_TABLE == old(self).UNR_TABLE,
            final(self).cycles == old(self).cycles,
    {
        if register == 7 || (16 <= register && register <= 19) {
            self.R.set(register, value as u16 as u32);
        } else if register == 9 {
            self.R.set(9, value as u16 as u32);
            self.update_irgb_red(value);
        } else if register == 10 {
            self.R.set(10, value as u16 as u32);
            self.update_irgb_green(value);
        } else if register == 11 {
            self.R.set(11, value as u16 as u32);
            self.update_irgb_blue(value);
        } else if register == 15 {
            let a = self.R.get(13);
            let b = self.R.get(14);
            self.R.set(12, a);
            self.R.set(13, b);
            self.R.set(14, value);
        } else if register == 28 {
            self.R.set(28, value & 0x7FFF);
            self.R.set(9, (value & 0x1F) << 7u32);
            self.R.set(10, ((value >> 5u32) & 0x1F) << 7u32);
            self.R.set(11, ((value >> 10u32) & 0x1F) << 7u32);
        } else if register == 29 || register == 31 {
        } else {
            self.R.set(register, value);
        }
    }

    pub fn write_ctrl_register(&mut self, register: u32, value: u32)
        requires
            register < 32,
        ensures
            final(self).regs() == old(self).regs().update(
                register + 32,
                if register + 32 == 58 {
                    value as u16 as u32
                } else if register + 32 == 63 {
                    (old(self).flags() & 0x8000_0FFF) | (value & !0x8000_0FFFu32)
                } else {
                    value
                },
            ),
            final(self).UNR_TABLE == old(self).UNR_TABLE,
            final(self).cycles == old(self).cycles,
    {
        let ctrl = register + 32;
        if ctrl == 58 {
            self.R.set(ctrl, value as u16 as u32);
        } else if ctrl == 63 {
            let f = self.R.get(63);
            self.R.set(63, (f & 0x8000_0FFF) | (value & !0x8000_0FFFu32));
        } else {
            self.R.set(ctrl, value);
        }
    }

    pub fn lzcs(&self) -> (r: i32)
        ensures
            r == self.regs()[30] as i32,
    {
        self.R.get(30) as i32
    }

    /// The count of leading sign bits of LZCS.
    pub fn lzcr(&self) -> (r: u32)
        ensures
            r == lzc(self.regs()[30]),
    {
        let w = self.R.get(30);
        w.leading_ones() | w.leading_zeros()
    }

    fn matrix(&self, b: u32) -> (r: [V3; 3])
        requires
            b + 5 <= 64,
        ensures
            r@ == matrix_at(self.regs(), b as int),
    {
        let w0 = self.R.get(b);
        let w1 = self.R.get(b + 1);
        let w2 = self.R.get(b + 2);
        let w3 = self.R.get(b + 3);
        let w4 = self.R.get(b + 4);
        let r = [
            V3 { x: (w0 as i16) as i64, y: ((w0 >> 16u32) as i16) as i64, z: (w1 as i16) as i64 },
            V3 { x: ((w1 >> 16u32) as i16) as i64, y: (w2 as i16) as i64, z: ((w2 >> 16u32) as i16) as i64 },
            V3 { x: (w3 as i16) as i64, y: ((w3 >> 16u32) as i16) as i64, z: (w4 as i16) as i64 },
        ];
        assert(r@ =~= matrix_at(self.regs(), b as int));
        r
    }

    fn words(&self, b: u32) -> (r: V3)
        requires
            b + 3 <= 64,
        ensures
            r == words_at(self.regs(), b as int),
    {
        V3 {
            x: (self.R.get(b) as i32) as i64,
            y: (self.R.get(b + 1) as i32) as i64,
            z: (self.R.get(b + 2) as i32) as i64,
        }
    }

    /// The rotation matrix.
    pub fn rt(&self) -> (r: [V3; 3])
        ensures
            r@ == matrix_at(self.regs(), 32),
    {
        self.matrix(32)
    }

    /// The diagonal of the rotation matrix.
    pub fn d_vector(&self) -> (r: V3)
        ensures
            r == (V3 {
                x: lo_s(self.regs()[32]),
                y: lo_s(self.regs()[34]),
                z: lo_s(self.regs()[36]),
            }),
    {
        V3 {
            x: (self.R.get(32) as i16) as i64,
            y: (self.R.get(34) as i16) as i64,
            z: (self.R.get(36) as i16) as i64,
        }
    }

    /// The TR vector, added after rotation.
    pub fn tr(&self) -> (r: V3)
        ensures
            r == words_at(self.regs(), 37),
    {
        self.words(37)
    }

    /// The light matrix.
    pub fn llm(&self) -> (r: [V3; 3])
        ensures
            r@ == matrix_at(self.regs(), 40),
    {
        self.matrix(40)
    }

    /// The background color.
    pub fn bk(&self) -> (r: V3)
        ensures
            r == words_at(self.regs(), 45),
    {
        self.words(45)
    }

    /// The light color matrix.
    pub fn lcm(&self) -> (r: [V3; 3])
        ensures
            r@ == matrix_at(self.regs(), 48),
    {
        self.matrix(48)
    }

    /// The far color.
    pub fn fc(&self) -> (r: V3)
        ensures
            r == words_at(self.regs(), 53),
    {
        self.words(53)
    }

    pub fn screen_offset(&self) -> (r: (i32, i32))
        ensures
            r == (self.regs()[56] as i32, self.regs()[57] as i32),
    {
        (self.R.get(56) as i32, self.R.get(57) as i32)
    }

    /// The projection plane distance.
    pub fn h(&self) -> (r: u16)
        ensures
            r == self.regs()[58] as u16,
    {
        self.R.get(58) as u16
    }

    pub fn dqa(&self) -> (r: i16)
        ensures
            r == self.regs()[59] as i16,
    {
        self.R.get(59) as i16
    }

    pub fn dqb(&self) -> (r: i32)
        ensures
            r == self.regs()[60] as i32,
    {
        self.R.get(60) as i32
    }

    pub fn zsf3(&self) -> (r: i16)
        ensures
            r == self.regs()[61] as i16,
    {
        self.R.get(61) as i16
    }

    pub fn zsf4(&self) -> (r: i16)
        ensures
            r == self.regs()[62] as i16,
    {
        self.R.get(62) as i16
    }

    /// Pushes the MAC vector, divided by 16 and clamped to bytes, onto the color FIFO.
    pub fn push_color_fifo(&mut self)
        ensures
            final(self).regs() == color_pushed(old(self).regs()),
            final(self).UNR_TABLE == old(self).UNR_TABLE,
            final(self).cycles == old(self).cycles,
    {
        let a = self.R.get(21);
        let b = self.R.get(22);
        let code = self.R.get(6) >> 24u32;
        let m = self.mac_vector();
        let rr = m.x >> 4u64;
        let gg = m.y >> 4u64;
        let bb = m.z >> 4u64;
        let bits = flag_when(rr < 0 || rr > 0xFF, FLAG_COLOR_R) | flag_when(
            gg < 0 || gg > 0xFF,
            FLAG_COLOR_G,
        ) | flag_when(bb < 0 || bb > 0xFF, FLAG_COLOR_B);
        let word = (clamp_i64(rr, 0, 0xFF) as u32) | ((clamp_i64(gg, 0, 0xFF) as u32) << 8u32) | ((
        clamp_i64(bb, 0, 0xFF) as u32) << 16u32) | (code << 24u32);
        self.R.set(20, a);
        self.R.set(21, b);
        self.R.set(22, word);
        self.or_flags(bits);
    }
}

/// Lanes within the signed 16-bit range.
pub open spec fn small(v: V3) -> bool {
    -0x8000 <= v.x <= 0x7FFF && -0x8000 <= v.y <= 0x7FFF && -0x8000 <= v.z <= 0x7FFF
}

/// Lanes within the signed 32-bit range.
pub open spec fn word_lanes(v: V3) -> bool {
    i32::MIN <= v.x <= i32::MAX && i32::MIN <= v.y <= i32::MAX && i32::MIN <= v.z <= i32::MAX
}

pub open spec fn dot(a: V3, b: V3) -> int {
    a.x * b.x + a.y * b.y + a.z * b.z
}

/// `t * 4096 + m * v`, lane by lane.
pub open spec fn affine(t: V3, m: Seq<V3>, v: V3) -> V3 {
    V3 {
        x: (t.x * 4096 + dot(m[0], v)) as i64,
        y: (t.y * 4096 + dot(m[1], v)) as i64,
        z: (t.z * 4096 + dot(m[2], v)) as i64,
    }
}

pub open spec fn scaled(v: V3, k: int) -> V3 {
    V3 { x: (v.x * k) as i64, y: (v.y * k) as i64, z: (v.z * k) as i64 }
}

pub open spec fn lanewise(a: V3, b: V3) -> V3 {
    V3 { x: (a.x * b.x) as i64, y: (a.y * b.y) as i64, z: (a.z * b.z) as i64 }
}

pub open spec fn plus(a: V3, b: V3) -> V3 {
    V3 { x: (a.x + b.x) as i64, y: (a.y + b.y) as i64, z: (a.z + b.z) as i64 }
}

/// The IR vector held in registers.
pub open spec fn ir_of(r: Seq<u32>) -> V3 {
    V3 { x: lo_s(r[9]), y: lo_s(r[10]), z: lo_s(r[11]) }
}

/// The color bytes of a packed RGBC word, as a vector.
pub open spec fn rgb_of(w: u32) -> V3 {
    V3 { x: (w as u8) as i64, y: ((w >> 8u32) as u8) as i64, z: ((w >> 16u32) as u8) as i64 }
}

pub open spec fn vertex_of(r: Seq<u32>, idx: int) -> V3 {
    V3 { x: lo_s(r[2 * idx]), y: hi_s(r[2 * idx]), z: lo_s(r[2 * idx + 1]) }
}

/// The common sink stage: saturate into MAC1..3, then clamp into IR1..3.
pub open spec fn mac_ir(r: Seq<u32>, raw: V3, sf: bool, lm: bool) -> Seq<u32> {
    let mac = mac_result(raw, sf);
    let r1 = mac_written(r.update(63, mac_flags(r[63], raw, sf)), mac);
    ir_written(r1.update(63, ir_flags(r1[63], mac, lm)), ir_result(mac, lm))
}

/// Interpolation towards the far color by IR0, then the sink stage and a color push.
pub open spec fn ir0_fc(r: Seq<u32>, sf: bool, lm: bool, in_mac: V3) -> Seq<u32> {
    let fc = words_at(r, 53);
    let shift: int = if sf { 4096 } else { 1 };
    let d = V3 {
        x: ((((fc.x * 4096 - in_mac.x) as i64) >> (if sf { 12u64 } else { 0u64 })) as i32) as i64,
        y: ((((fc.y * 4096 - in_mac.y) as i64) >> (if sf { 12u64 } else { 0u64 })) as i32) as i64,
        z: ((((fc.z * 4096 - in_mac.z) as i64) >> (if sf { 12u64 } else { 0u64 })) as i32) as i64,
    };
    let r1 = r.update(63, ir_flags(r[63], d, false));
    let t = ir_result(d, false);
    let ir0 = (r[8] as u16 as i16) as int;
    color_pushed(mac_ir(r1, plus(scaled(t, ir0), in_mac), sf, lm))
}

/// The light stages shared by the normal-color commands for vertex `idx`.
pub open spec fn lit(r: Seq<u32>, idx: int, sf: bool, lm: bool) -> Seq<u32> {
    let r1 = mac_ir(r, affine(V3 { x: 0, y: 0, z: 0 }, matrix_at(r, 40), vertex_of(r, idx)), sf, lm);
    mac_ir(r1, affine(words_at(r1, 45), matrix_at(r1, 48), ir_of(r1)), sf, lm)
}

/// The color multiply shared by NCC and CC.
pub open spec fn tinted(r: Seq<u32>, sf: bool, lm: bool) -> Seq<u32> {
    mac_ir(r, scaled(lanewise(rgb_of(r[6]), ir_of(r)), 16), sf, lm)
}

pub open spec fn nc_one(r: Seq<u32>, idx: int, sf: bool, lm: bool) -> Seq<u32> {
    color_pushed(lit(r, idx, sf, lm))
}

pub open spec fn ncc_one(r: Seq<u32>, idx: int, sf: bool, lm: bool) -> Seq<u32> {
    color_pushed(tinted(lit(r, idx, sf, lm), sf, lm))
}

pub open spec fn ncd_one(r: Seq<u32>, idx: int, sf: bool, lm: bool) -> Seq<u32> {
    let r1 = lit(r, idx, sf, lm);
    ir0_fc(r1, sf, lm, scaled(lanewise(rgb_of(r1[6]), ir_of(r1)), 16))
}

/// A normal-color pipeline (0: NC, 1: NCC, 2: NCD) over the first `n` vertices.
pub open spec fn normal_colors(r: Seq<u32>, kind: int, n: int, sf: bool, lm: bool) -> Seq<u32>
    decreases n,
{
    if n <= 0 {
        r
    } else {
        let prev = normal_colors(r, kind, n - 1, sf, lm);
        if kind == 0 {
            nc_one(prev, n - 1, sf, lm)
        } else if kind == 1 {
            ncc_one(prev, n - 1, sf, lm)
        } else {
            ncd_one(prev, n - 1, sf, lm)
        }
    }
}

pub open spec fn sf_of(command: u32) -> bool {
    (command >> 19u32) & 1 != 0
}

pub open spec fn lm_of(command: u32) -> bool {
    (command >> 10u32) & 1 != 0
}

/// The command fields of a GTE function word.
pub trait GTE_Command: Sized {
    fn sf(&self) -> bool;

    fn mx(&self) -> Self;

    fn v(&self) -> Self;

    fn cv(&self) -> Self;

    fn lm(&self) -> bool;

    fn num(&self) -> Self;
}

impl GTE_Command for u32 {
    fn sf(&self) -> (r: bool)
        ensures
            r == sf_of(*self),
    {
        (*self >> 19u32) & 1 != 0
    }

    fn mx(&self) -> (r: u32)
        ensures
            r == (*self >> 17u32) & 3,
    {
        (*self >> 17u32) & 3
    }

    fn v(&self) -> (r: u32)
        ensures
            r == (*self >> 15u32) & 3,
    {
        (*self >> 15u32) & 3
    }

    fn cv(&self) -> (r: u32)
        ensures
            r == (*self >> 13u32) & 3,
    {
        (*self >> 13u32) & 3
    }

    fn lm(&self) -> (r: bool)
        ensures
            r == lm_of(*self),
    {
        (*self >> 10u32) & 1 != 0
    }

    fn num(&self) -> (r: u32)
        ensures
            r == *self & 0x3F,
    {
        *self & 0x3F
    }
}

/// The light-color stage used by CC and CDP.
pub open spec fn lcm_stage(r: Seq<u32>, sf: bool, lm: bool) -> Seq<u32> {
    mac_ir(r, affine(words_at(r, 45), matrix_at(r, 48), ir_of(r)), sf, lm)
}

/// DPCT over `n` colors, each taken from the color FIFO's oldest entry.
pub open spec fn depth_cued(r: Seq<u32>, n: int, sf: bool, lm: bool) -> Seq<u32>
    decreases n,
{
    if n <= 0 {
        r
    } else {
        let p = depth_cued(r, n - 1, sf, lm);
        ir0_fc(p, sf, lm, scaled(rgb_of(p[20]), 65536))
    }
}

/// The MVMVA matrix selected by `mx` (3 selects the garbage matrix).
pub open spec fn mvmva_matrix(r: Seq<u32>, mx: u32) -> Seq<V3> {
    if mx == 0 {
        matrix_at(r, 32)
    } else if mx == 1 {
        matrix_at(r, 40)
    } else if mx == 2 {
        matrix_at(r, 48)
    } else {
        let a = (r[41] as i16) as i64;
        let b = (r[42] as i16) as i64;
        seq![
            V3 { x: -0x60i64, y: 0x60i64, z: (r[8] as u16 as i16) as i64 },
            V3 { x: a, y: a, z: a },
            V3 { x: b, y: b, z: b },
        ]
    }
}

pub open spec fn mvmva_vector(r: Seq<u32>, v: u32) -> V3 {
    if v < 3 {
        vertex_of(r, v as int)
    } else {
        ir_of(r)
    }
}

pub open spec fn mvmva_offset(r: Seq<u32>, cv: u32) -> V3 {
    if cv == 0 {
        words_at(r, 37)
    } else if cv == 1 {
        words_at(r, 45)
    } else {
        V3 { x: 0, y: 0, z: 0 }
    }
}

/// Registers after a MAC0 saturation of `v` and the write of its low 32 bits.
pub open spec fn mac0_stage(r: Seq<u32>, v: i64) -> Seq<u32> {
    r.update(
        63,
        r[63] | (flag_if(v > i32::MAX, FLAG_MAC0_POS) | flag_if(v < i32::MIN, FLAG_MAC0_NEG)),
    ).update(24, (clamp(v as int, i32::MIN as int, i32::MAX as int) as i32) as u32)
}

/// Registers after an average of `sum` weighted by `zsf`: MAC0, then OTZ.
pub open spec fn average_z(r: Seq<u32>, zsf: i64, sum: i64) -> Seq<u32> {
    let raw = zsf * sum;
    let r1 = mac0_stage(r, raw as i64);
    let o = (raw as i64) >> 12u64;
    r1.update(63, r1[63] | flag_if(o < 0 || o > 0xFFFF, FLAG_SZ3_OTZ)).update(
        7,
        clamp(o as int, 0, 0xFFFF) as u16 as u32,
    )
}

/// The perspective divide: `(h * 0x20000 / sz3 + 1) / 2` by the reciprocal
/// table and two Newton steps, clamped to 0x1FFFF; the second part tells
/// whether it overflowed (h not below twice sz3).
pub open spec fn unr(h: u32, sz3: u16, table: Seq<u8>) -> (u32, bool) {
    if h < (sz3 as u32) * 2 {
        let z = vstd::std_specs::bits::u16_leading_zeros(sz3);
        let n = (h << z) as u64;
        let d = ((sz3 as u32) << z) as u64;
        let u = table[((d - 0x7FC0) / 128) as int] as u64 + 0x101;
        let d1 = ((0x0200_0080 - d * u) as u64) / 256;
        let d2 = ((0x0000_0080 + d1 * u) as u64) / 256;
        (clamp(((n * d2 + 0x8000) as u64 / 0x10000) as int, 0, 0x1FFFF) as u32, false)
    } else {
        (0x1FFFF, true)
    }
}

/// Perspective transform, first part: rotate and translate the vertex into
/// MAC1..3 and IR1..3 (IR3 flagged from the unshifted MAC3).
pub open spec fn rtp_lanes(r: Seq<u32>, raw: V3, sf: bool, lm: bool) -> Seq<u32> {
    let mac = mac_result(raw, sf);
    let r1 = mac_written(r.update(63, mac_flags(r[63], raw, sf)), mac);
    let raw3 = (raw.z >> 12u64) as i32;
    let r2 = r1.update(
        63,
        r1[63] | (flag_if(ir_sat(mac.x, lm), FLAG_IR1) | flag_if(ir_sat(mac.y, lm), FLAG_IR2)
            | flag_if(raw3 < -0x8000 || raw3 > 0x7FFF, FLAG_IR3)),
    );
    ir_written(r2, ir_result(mac, lm))
}

/// Second part: push the depth, the unshifted MAC3 over 4096, onto the SZ FIFO.
pub open spec fn rtp_depth(r: Seq<u32>, raw: V3) -> Seq<u32> {
    let raw_sz3 = raw.z >> 12u64;
    let r4 = r.update(63, r[63] | flag_if(raw_sz3 < 0 || raw_sz3 > 0xFFFF, FLAG_SZ3_OTZ));
    let sz3 = clamp(raw_sz3 as int, 0, 0xFFFF) as u16;
    r4.update(16, r4[17]).update(17, r4[18]).update(18, r4[19]).update(19, sz3 as u32)
}

/// Third part: project with the quotient `div` onto the screen FIFO.
pub open spec fn rtp_screen(r: Seq<u32>, div: i64) -> Seq<u32> {
    let ir = ir_of(r);
    let mx = (div * ir.x + (r[56] as i32)) as i64;
    let r7 = mac0_stage(r, mx);
    let my = (div * ir.y + (r[57] as i32)) as i64;
    let r8 = mac0_stage(r7, my);
    let sx = mx >> 16u64;
    let sy = my >> 16u64;
    let r9 = r8.update(
        63,
        r8[63] | (flag_if(sx < -0x400 || sx > 0x3FF, FLAG_SX2) | flag_if(
            sy < -0x400 || sy > 0x3FF,
            FLAG_SY2,
        )),
    );
    let cx = clamp(sx as int, -0x400, 0x3FF) as i16;
    let cy = clamp(sy as int, -0x400, 0x3FF) as i16;
    r9.update(12, r9[13]).update(13, r9[14]).update(
        14,
        (cx as u16 as u32) | ((cy as u16 as u32) << 16u32),
    )
}

/// Last part: depth cueing into MAC0 and IR0.
pub open spec fn rtp_cue(r: Seq<u32>, div: i64) -> Seq<u32> {
    let m0 = (div * (r[59] as i16) + (r[60] as i32)) as i64;
    let r11 = mac0_stage(r, m0);
    let i0 = m0 >> 12u64;
    r11.update(63, r11[63] | flag_if(i0 < 0 || i0 > 0x1000, FLAG_IR0)).update(
        8,
        (clamp(i0 as int, 0, 0x1000) as i16) as u32,
    )
}

/// One perspective transform of vertex `idx`.
pub open spec fn rtp_one(r: Seq<u32>, idx: int, sf: bool, lm: bool, table: Seq<u8>) -> Seq<u32> {
    let raw = affine(words_at(r, 37), matrix_at(r, 32), vertex_of(r, idx));
    let r5 = rtp_depth(rtp_lanes(r, raw, sf, lm), raw);
    let (div, ovf) = unr(r5[58] as u16 as u32, r5[19] as u16, table);
    let r6 = r5.update(63, r5[63] | flag_if(ovf, FLAG_DIVIDE));
    rtp_cue(rtp_screen(r6, div as i64), div as i64)
}

pub open spec fn perspective(r: Seq<u32>, n: int, sf: bool, lm: bool, table: Seq<u8>) -> Seq<u32>
    decreases n,
{
    if n <= 0 {
        r
    } else {
        rtp_one(perspective(r, n - 1, sf, lm, table), n - 1, sf, lm, table)
    }
}

proof fn lemma_normalize(i: u16)
    requires
        i != 0,
    ensures
        vstd::std_specs::bits::u16_leading_zeros(i) < 16,
        0x8000 <= (i as u32) << (vstd::std_specs::bits::u16_leading_zeros(i) as u32) <= 0xFFFF,
{
    vstd::std_specs::bits::axiom_u16_leading_zeros(i);
    let z = vstd::std_specs::bits::u16_leading_zeros(i) as u16;
    assert(z < 16 && (i >> vstd::prelude::sub(15u16, z)) & 1u16 != 0u16 && i >> vstd::prelude::sub(16u16, z) == 0 ==> 0x8000
        <= (i as u32) << (z as u32) <= 0xFFFF) by (bit_vector);
}

fn dot3(a: V3, b: V3) -> (r: i64)
    requires
        small(a),
        small(b),
    ensures
        r == dot(a, b),
        -0x1_0000_0000 < r < 0x1_0000_0000,
{
    assert(-0x4000_0000 <= a.x * b.x <= 0x4000_0000) by (nonlinear_arith)
        requires
            -0x8000 <= a.x <= 0x7FFF,
            -0x8000 <= b.x <= 0x7FFF,
    ;
    assert(-0x4000_0000 <= a.y * b.y <= 0x4000_0000) by (nonlinear_arith)
        requires
            -0x8000 <= a.y <= 0x7FFF,
            -0x8000 <= b.y <= 0x7FFF,
    ;
    assert(-0x4000_0000 <= a.z * b.z <= 0x4000_0000) by (nonlinear_arith)
        requires
            -0x8000 <= a.z <= 0x7FFF,
            -0x8000 <= b.z <= 0x7FFF,
    ;
    a.x * b.x + a.y * b.y + a.z * b.z
}

fn affine3(t: V3, m: [V3; 3], v: V3) -> (r: V3)
    requires
        word_lanes(t),
        small(m@[0]),
        small(m@[1]),
        small(m@[2]),
        small(v),
    ensures
        r == affine(t, m@, v),
{
    V3 {
        x: t.x * 4096 + dot3(m[0], v),
        y: t.y * 4096 + dot3(m[1], v),
        z: t.z * 4096 + dot3(m[2], v),
    }
}

fn lanes_times(a: V3, b: V3, k: i64) -> (r: V3)
    requires
        0 <= a.x <= 0xFF && 0 <= a.y <= 0xFF && 0 <= a.z <= 0xFF,
        small(b),
        1 <= k <= 16,
    ensures
        r == scaled(lanewise(a, b), k as int),
        -0x1000_0000 <= r.x <= 0x1000_0000,
        -0x1000_0000 <= r.y <= 0x1000_0000,
        -0x1000_0000 <= r.z <= 0x1000_0000,
{
    assert(-0x0100_0000 <= a.x * b.x <= 0x0100_0000) by (nonlinear_arith)
        requires
            0 <= a.x <= 0xFF,
            -0x8000 <= b.x <= 0x7FFF,
    ;
    assert(-0x0100_0000 <= a.y * b.y <= 0x0100_0000) by (nonlinear_arith)
        requires
            0 <= a.y <= 0xFF,
            -0x8000 <= b.y <= 0x7FFF,
    ;
    assert(-0x0100_0000 <= a.z * b.z <= 0x0100_0000) by (nonlinear_arith)
        requires
            0 <= a.z <= 0xFF,
            -0x8000 <= b.z <= 0x7FFF,
    ;
    assert(-0x1000_0000 <= (a.x * b.x) * k <= 0x1000_0000) by (nonlinear_arith)
        requires
            -0x0100_0000 <= a.x * b.x <= 0x0100_0000,
            1 <= k <= 16,
    ;
    assert(-0x1000_0000 <= (a.y * b.y) * k <= 0x1000_0000) by (nonlinear_arith)
        requires
            -0x0100_0000 <= a.y * b.y <= 0x0100_0000,
            1 <= k <= 16,
    ;
    assert(-0x1000_0000 <= (a.z * b.z) * k <= 0x1000_0000) by (nonlinear_arith)
        requires
            -0x0100_0000 <= a.z * b.z <= 0x0100_0000,
            1 <= k <= 16,
    ;
    V3 { x: (a.x * b.x) * k, y: (a.y * b.y) * k, z: (a.z * b.z) * k }
}

impl GTE {
    fn mac_ir_stage(&mut self, raw: V3, sf: bool, lm: bool)
        ensures
            final(self).regs() == mac_ir(old(self).regs(), raw, sf, lm),
            final(self).UNR_TABLE == old(self).UNR_TABLE,
            final(self).cycles == old(self).cycles,
    {
        let mac = self.update_mac_vector_flags(raw, sf);
        self.write_mac_vector(mac);
        let ir = self.update_ir_flags(mac, lm);
        self.write_ir_vector(ir);
    }

    fn rgb_vector(&self) -> (r: V3)
        ensures
            r == rgb_of(self.regs()[6]),
            0 <= r.x <= 0xFF && 0 <= r.y <= 0xFF && 0 <= r.z <= 0xFF,
    {
        let c = self.rgbc();
        V3 { x: c[0] as i64, y: c[1] as i64, z: c[2] as i64 }
    }

    fn apply_ir0_fc(&mut self, sf: bool, lm: bool, in_mac: V3)
        requires
            -0x1000_0000 <= in_mac.x <= 0x1000_0000,
            -0x1000_0000 <= in_mac.y <= 0x1000_0000,
            -0x1000_0000 <= in_mac.z <= 0x1000_0000,
        ensures
            final(self).regs() == ir0_fc(old(self).regs(), sf, lm, in_mac),
            final(self).UNR_TABLE == old(self).UNR_TABLE,
            final(self).cycles == old(self).cycles,
    {
        let fc = self.fc();
        let sh: u64 = if sf {
            12
        } else {
            0
        };
        let d = V3 {
            x: ((fc.x * 4096 - in_mac.x) >> sh) as i32 as i64,
            y: ((fc.y * 4096 - in_mac.y) >> sh) as i32 as i64,
            z: ((fc.z * 4096 - in_mac.z) >> sh) as i32 as i64,
        };
        let t = self.update_ir_flags(d, false);
        let ir0 = self.ir0() as i64;
        assert(-0x4000_0000 <= t.x * ir0 <= 0x4000_0000) by (nonlinear_arith)
            requires
                -0x8000 <= t.x <= 0x7FFF,
                -0x8000 <= ir0 <= 0x7FFF,
        ;
        assert(-0x4000_0000 <= t.y * ir0 <= 0x4000_0000) by (nonlinear_arith)
            requires
                -0x8000 <= t.y <= 0x7FFF,
                -0x8000 <= ir0 <= 0x7FFF,
        ;
        assert(-0x4000_0000 <= t.z * ir0 <= 0x4000_0000) by (nonlinear_arith)
            requires
                -0x8000 <= t.z <= 0x7FFF,
                -0x8000 <= ir0 <= 0x7FFF,
        ;
        let raw = V3 { x: t.x * ir0 + in_mac.x, y: t.y * ir0 + in_mac.y, z: t.z * ir0 + in_mac.z };
        self.mac_ir_stage(raw, sf, lm);
        self.push_color_fifo();
    }

    fn light_stages(&mut self, idx: u32, sf: bool, lm: bool)
        requires
            idx < 3,
        ensures
            final(self).regs() == lit(old(self).regs(), idx as int, sf, lm),
            final(self).UNR_TABLE == old(self).UNR_TABLE,
            final(self).cycles == old(self).cycles,
    {
        let v = self.vector(idx);
        let llm = self.llm();
        let raw = affine3(V3 { x: 0, y: 0, z: 0 }, llm, v);
        self.mac_ir_stage(raw, sf, lm);
        let bk = self.bk();
        let lcm = self.lcm();
        let ir = self.ir_vector();
        let raw = affine3(bk, lcm, ir);
        self.mac_ir_stage(raw, sf, lm);
    }

    fn normal_color(&mut self, sf: bool, lm: bool, colors: u32)
        requires
            colors <= 3,
        ensures
            final(self).regs() == normal_colors(old(self).regs(), 0, colors as int, sf, lm),
            final(self).UNR_TABLE == old(self).UNR_TABLE,
            final(self).cycles == old(self).cycles,
    {
        let mut idx: u32 = 0;
        while idx < colors
            invariant
                idx <= colors <= 3,
                self.regs() == normal_colors(old(self).regs(), 0, idx as int, sf, lm),
                self.UNR_TABLE == old(self).UNR_TABLE,
                self.cycles == old(self).cycles,
            decreases colors - idx,
        {
            self.light_stages(idx, sf, lm);
            self.push_color_fifo();
            idx = idx + 1;
        }
    }

    fn normal_color_color(&mut self, sf: bool, lm: bool, colors: u32)
        requires
            colors <= 3,
        ensures
            final(self).regs() == normal_colors(old(self).regs(), 1, colors as int, sf, lm),
            final(self).UNR_TABLE == old(self).UNR_TABLE,
            final(self).cycles == old(self).cycles,
    {
        let mut idx: u32 = 0;
        while idx < colors
            invariant
                idx <= colors <= 3,
                self.regs() == normal_colors(old(self).regs(), 1, idx as int, sf, lm),
                self.UNR_TABLE == old(self).UNR_TABLE,
                self.cycles == old(self).cycles,
            decreases colors - idx,
        {
            self.light_stages(idx, sf, lm);
            let rgb = self.rgb_vector();
            let ir = self.ir_vector();
            let raw = lanes_times(rgb, ir, 16);
            self.mac_ir_stage(raw, sf, lm);
            self.push_color_fifo();
            idx = idx + 1;
        }
    }

    fn normal_color_depth_cue(&mut self, sf: bool, lm: bool, colors: u32)
        requires
            colors <= 3,
        ensures
            final(self).regs() == normal_colors(old(self).regs(), 2, colors as int, sf, lm),
            final(self).UNR_TABLE == old(self).UNR_TABLE,
            final(self).cycles == old(self).cycles,
    {
        let mut idx: u32 = 0;
        while idx < colors
            invariant
                idx <= colors <= 3,
                self.regs() == normal_colors(old(self).regs(), 2, idx as int, sf, lm),
                self.UNR_TABLE == old(self).UNR_TABLE,
                self.cycles == old(self).cycles,
            decreases colors - idx,
        {
            self.light_stages(idx, sf, lm);
            let rgb = self.rgb_vector();
            let ir = self.ir_vector();
            let rgb_ir = lanes_times(rgb, ir, 16);
            self.apply_ir0_fc(sf, lm, rgb_ir);
            idx = idx + 1;
        }
    }
}

impl GTE {
    /// The perspective divide of H by SZ3; sets the divide flag (bit 17) on overflow.
    fn unr_divide(&mut self) -> (r: u32)
        requires
            old(self).wf(),
        ensures
            ({
                let (q, ovf) = unr(
                    old(self).regs()[58] as u16 as u32,
                    old(self).regs()[19] as u16,
                    old(self).UNR_TABLE@,
                );
                &&& r == q
                &&& final(self).regs() == old(self).regs().update(
                    63,
                    old(self).flags() | flag_if(ovf, FLAG_DIVIDE),
                )
            }),
            r <= 0x1FFFF,
            final(self).UNR_TABLE == old(self).UNR_TABLE,
            final(self).cycles == old(self).cycles,
    {
        let h = self.h() as u32;
        let sz3 = self.screen_z(3);
        if h < (sz3 as u32) * 2 {
            let z = sz3.leading_zeros();
            proof {
                lemma_normalize(sz3);
            }
            assert((h << z) < 0x20000) by (bit_vector)
                requires
                    h < (sz3 as u32) * 2,
                    (sz3 as u32) << z <= 0xFFFF,
                    z < 16,
            ;
            let n = (h << z) as u64;
            let d = ((sz3 as u32) << z) as u64;
            let k = ((d - 0x7FC0) / 128) as usize;
            let u = self.UNR_TABLE[k] as u64 + 0x101;
            assert(d * u <= 0xFFFF * 0x200) by (nonlinear_arith)
                requires
                    d <= 0xFFFF,
                    u <= 0x200,
            ;
            let d1 = (0x0200_0080 - d * u) / 256;
            assert(d1 * u <= 0x0002_0001 * 0x200) by (nonlinear_arith)
                requires
                    d1 <= 0x0002_0001,
                    u <= 0x200,
            ;
            let d2 = (0x0000_0080 + d1 * u) / 256;
            assert(n * d2 <= 0x20000 * 0x0004_0003) by (nonlinear_arith)
                requires
                    n <= 0x20000,
                    d2 <= 0x0004_0003,
            ;
            let q = (n * d2 + 0x8000) / 0x10000;
            let r = if q > 0x1FFFF {
                0x1FFFF
            } else {
                q as u32
            };
            let f = self.R.get(63);
            self.R.set(63, f | 0);
            assert(f | 0 == f) by (bit_vector);
            assert(self.regs() =~= old(self).regs());
            r
        } else {
            self.or_flags(FLAG_DIVIDE);
            0x1FFFF
        }
    }

    fn perspective_transformation(&mut self, vectors: u32, sf: bool, lm: bool)
        requires
            old(self).wf(),
            vectors <= 3,
        ensures
            final(self).wf(),
            final(self).regs() == perspective(old(self).regs(), vectors as int, sf, lm, old(self).UNR_TABLE@),
            final(self).UNR_TABLE == old(self).UNR_TABLE,
            final(self).cycles == old(self).cycles,
    {
        let mut idx: u32 = 0;
        while idx < vectors
            invariant
                idx <= vectors <= 3,
                self.wf(),
                self.regs() == perspective(old(self).regs(), idx as int, sf, lm, old(self).UNR_TABLE@),
                self.UNR_TABLE == old(self).UNR_TABLE,
                self.cycles == old(self).cycles,
            decreases vectors - idx,
        {
            self.rtp_vertex(idx, sf, lm);
            idx = idx + 1;
        }
    }

    fn rtp_vertex(&mut self, idx: u32, sf: bool, lm: bool)
        requires
            old(self).wf(),
            idx < 3,
        ensures
            final(self).wf(),
            final(self).regs() == rtp_one(old(self).regs(), idx as int, sf, lm, old(self).UNR_TABLE@),
            final(self).UNR_TABLE == old(self).UNR_TABLE,
            final(self).cycles == old(self).cycles,
    {
        let tr = self.tr();
        let rt = self.rt();
        let v = self.vector(idx);
        let raw = affine3(tr, rt, v);
        self.rtp_lanes_stage(raw, sf, lm);
        self.rtp_depth_stage(raw);
        let div = self.unr_divide() as i64;
        self.rtp_screen_stage(div);
        self.rtp_cue_stage(div);
    }

    fn rtp_lanes_stage(&mut self, raw: V3, sf: bool, lm: bool)
        ensures
            final(self).regs() == rtp_lanes(old(self).regs(), raw, sf, lm),
            final(self).UNR_TABLE == old(self).UNR_TABLE,
            final(self).cycles == old(self).cycles,
    {
        let mac = self.update_mac_vector_flags(raw, sf);
        self.write_mac_vector(mac);
        let ir = self.update_ir_flags_rtp(mac, lm, (raw.z >> 12u64) as i32);
        self.write_ir_vector(ir);
    }

    fn rtp_depth_stage(&mut self, raw: V3)
        ensures
            final(self).regs() == rtp_depth(old(self).regs(), raw),
            final(self).UNR_TABLE == old(self).UNR_TABLE,
            final(self).cycles == old(self).cycles,
    {
        let sz3 = self.update_sz3_flags(raw.z >> 12u64);
        self.push_screen_z_fifo(sz3);
    }

    fn rtp_screen_stage(&mut self, div: i64)
        requires
            0 <= div <= 0x1FFFF,
        ensures
            final(self).regs() == rtp_screen(old(self).regs(), div),
            final(self).UNR_TABLE == old(self).UNR_TABLE,
            final(self).cycles == old(self).cycles,
    {
        let ir = self.ir_vector();
        let (ofx, ofy) = self.screen_offset();
        assert(-0x1_0000_0000 <= div * ir.x <= 0x1_0000_0000) by (nonlinear_arith)
            requires
                0 <= div <= 0x1FFFF,
                -0x8000 <= ir.x <= 0x7FFF,
        ;
        assert(-0x1_0000_0000 <= div * ir.y <= 0x1_0000_0000) by (nonlinear_arith)
            requires
                0 <= div <= 0x1FFFF,
                -0x8000 <= ir.y <= 0x7FFF,
        ;
        let mx = div * ir.x + ofx as i64;
        let m = self.update_mac0_flags(mx);
        self.write_mac0(m);
        let my = div * ir.y + ofy as i64;
        let m = self.update_mac0_flags(my);
        self.write_mac0(m);
        let (sx, sy) = self.update_sxy2_flags(mx >> 16u64, my >> 16u64);
        self.push_sxy_fifo(sx, sy);
    }

    fn rtp_cue_stage(&mut self, div: i64)
        requires
            0 <= div <= 0x1FFFF,
        ensures
            final(self).regs() == rtp_cue(old(self).regs(), div),
            final(self).UNR_TABLE == old(self).UNR_TABLE,
            final(self).cycles == old(self).cycles,
    {
        let dqa = self.dqa() as i64;
        assert(-0x1_0000_0000 <= div * dqa <= 0x1_0000_0000) by (nonlinear_arith)
            requires
                0 <= div <= 0x1FFFF,
                -0x8000 <= dqa <= 0x7FFF,
        ;
        let m0 = div * dqa + self.dqb() as i64;
        let m = self.update_mac0_flags(m0);
        self.write_mac0(m);
        let i0 = self.update_ir0_flags(m0 >> 12u64);
        self.write_ir0(i0);
    }
}

impl GTE {
    pub fn ncs(&mut self, command: u32) -> (r: usize)
        ensures
            r == 14,
            final(self).regs() == normal_colors(old(self).regs(), 0, 1, sf_of(command), lm_of(command)),
            final(self).UNR_TABLE == old(self).UNR_TABLE,
            final(self).cycles == old(self).cycles,
    {
        self.normal_color(command.sf(), command.lm(), 1);
        14
    }

    pub fn nct(&mut self, command: u32) -> (r: usize)
        ensures
            r == 30,
            final(self).regs() == normal_colors(old(self).regs(), 0, 3, sf_of(command), lm_of(command)),
            final(self).UNR_TABLE == old(self).UNR_TABLE,
            final(self).cycles == old(self).cycles,
    {
        self.normal_color(command.sf(), command.lm(), 3);
        30
    }

    pub fn nccs(&mut self, command: u32) -> (r: usize)
        ensures
            r == 17,
            final(self).regs() == normal_colors(old(self).regs(), 1, 1, sf_of(command), lm_of(command)),
            final(self).UNR_TABLE == old(self).UNR_TABLE,
            final(self).cycles == old(self).cycles,
    {
        self.normal_color_color(command.sf(), command.lm(), 1);
        17
    }

    pub fn ncct(&mut self, command: u32) -> (r: usize)
        ensures
            r == 39,
            final(self).regs() == normal_colors(old(self).regs(), 1, 3, sf_of(command), lm_of(command)),
            final(self).UNR_TABLE == old(self).UNR_TABLE,
            final(self).cycles == old(self).cycles,
    {
        self.normal_color_color(command.sf(), command.lm(), 3);
        39
    }

    pub fn ncds(&mut self, command: u32) -> (r: usize)
        ensures
            r == 19,
            final(self).regs() == normal_colors(old(self).regs(), 2, 1, sf_of(command), lm_of(command)),
            final(self).UNR_TABLE == old(self).UNR_TABLE,
            final(self).cycles == old(self).cycles,
    {
        self.normal_color_depth_cue(command.sf(), command.lm(), 1);
        19
    }

    pub fn ncdt(&mut self, command: u32) -> (r: usize)
        ensures
            r == 44,
            final(self).regs() == normal_colors(old(self).regs(), 2, 3, sf_of(command), lm_of(command)),
            final(self).UNR_TABLE == old(self).UNR_TABLE,
            final(self).cycles == old(self).cycles,
    {
        self.normal_color_depth_cue(command.sf(), command.lm(), 3);
        44
    }

    /// Color color: light color matrix on IR, then tint by RGBC, then a color push.
    pub fn cc(&mut self, command: u32) -> (r: usize)
        ensures
            r == 11,
            final(self).regs() == color_pushed(
                tinted(lcm_stage(old(self).regs(), sf_of(command), lm_of(command)), sf_of(command), lm_of(command)),
            ),
            final(self).UNR_TABLE == old(self).UNR_TABLE,
            final(self).cycles == old(self).cycles,
    {
        let sf = command.sf();
        let lm = command.lm();
        self.lcm_product(sf, lm);
        let rgb = self.rgb_vector();
        let ir = self.ir_vector();
        let raw = lanes_times(rgb, ir, 16);
        self.mac_ir_stage(raw, sf, lm);
        self.push_color_fifo();
        11
    }

    fn lcm_product(&mut self, sf: bool, lm: bool)
        ensures
            final(self).regs() == lcm_stage(old(self).regs(), sf, lm),
            final(self).UNR_TABLE == old(self).UNR_TABLE,
            final(self).cycles == old(self).cycles,
    {
        let bk = self.bk();
        let lcm = self.lcm();
        let ir = self.ir_vector();
        let raw = affine3(bk, lcm, ir);
        self.mac_ir_stage(raw, sf, lm);
    }

    /// Color depth cue: light color matrix on IR, then tint and interpolate to the far color.
    pub fn cdp(&mut self, command: u32) -> (r: usize)
        ensures
            r == 13,
            ({
                let r1 = lcm_stage(old(self).regs(), sf_of(command), lm_of(command));
                final(self).regs() == ir0_fc(
                    r1,
                    sf_of(command),
                    lm_of(command),
                    scaled(lanewise(rgb_of(r1[6]), ir_of(r1)), 16),
                )
            }),
            final(self).UNR_TABLE == old(self).UNR_TABLE,
            final(self).cycles == old(self).cycles,
    {
        let sf = command.sf();
        let lm = command.lm();
        self.lcm_product(sf, lm);
        let rgb = self.rgb_vector();
        let ir = self.ir_vector();
        let rgb_ir = lanes_times(rgb, ir, 16);
        self.apply_ir0_fc(sf, lm, rgb_ir);
        13
    }

    /// Depth cue of the color times IR.
    pub fn dcpl(&mut self, command: u32) -> (r: usize)
        ensures
            r == 8,
            final(self).regs() == ir0_fc(
                old(self).regs(),
                sf_of(command),
                lm_of(command),
                scaled(lanewise(rgb_of(old(self).regs()[6]), ir_of(old(self).regs())), 16),
            ),
            final(self).UNR_TABLE == old(self).UNR_TABLE,
            final(self).cycles == old(self).cycles,
    {
        let rgb = self.rgb_vector();
        let ir = self.ir_vector();
        let rgb_ir = lanes_times(rgb, ir, 16);
        self.apply_ir0_fc(command.sf(), command.lm(), rgb_ir);
        8
    }

    /// Depth cue of the RGBC color.
    pub fn dpcs(&mut self, command: u32) -> (r: usize)
        ensures
            r == 8,
            final(self).regs() == ir0_fc(
                old(self).regs(),
                sf_of(command),
                lm_of(command),
                scaled(rgb_of(old(self).regs()[6]), 65536),
            ),
            final(self).UNR_TABLE == old(self).UNR_TABLE,
            final(self).cycles == old(self).cycles,
    {
        let rgb = self.rgb_vector();
        let v = V3 { x: rgb.x * 65536, y: rgb.y * 65536, z: rgb.z * 65536 };
        self.apply_ir0_fc(command.sf(), command.lm(), v);
        8
    }

    /// Depth cue of the three colors of the color FIFO.
    pub fn dpct(&mut self, command: u32) -> (r: usize)
        ensures
            r == 17,
            final(self).regs() == depth_cued(old(self).regs(), 3, sf_of(command), lm_of(command)),
            final(self).UNR_TABLE == old(self).UNR_TABLE,
            final(self).cycles == old(self).cycles,
    {
        let sf = command.sf();
        let lm = command.lm();
        let mut k: u32 = 0;
        while k < 3
            invariant
                k <= 3,
                sf == sf_of(command),
                lm == lm_of(command),
                self.regs() == depth_cued(old(self).regs(), k as int, sf, lm),
                self.UNR_TABLE == old(self).UNR_TABLE,
                self.cycles == old(self).cycles,
            decreases 3 - k,
        {
            let c = self.pop_color_fifo();
            let v = V3 { x: c[0] as i64 * 65536, y: c[1] as i64 * 65536, z: c[2] as i64 * 65536 };
            self.apply_ir0_fc(sf, lm, v);
            k = k + 1;
        }
        17
    }

    /// Interpolation of IR towards the far color.
    pub fn intpl(&mut self, command: u32) -> (r: usize)
        ensures
            r == 8,
            final(self).regs() == ir0_fc(
                old(self).regs(),
                sf_of(command),
                lm_of(command),
                scaled(ir_of(old(self).regs()), 4096),
            ),
            final(self).UNR_TABLE == old(self).UNR_TABLE,
            final(self).cycles == old(self).cycles,
    {
        let ir = self.ir_vector();
        let v = V3 { x: ir.x * 4096, y: ir.y * 4096, z: ir.z * 4096 };
        self.apply_ir0_fc(command.sf(), command.lm(), v);
        8
    }

    /// General purpose interpolation: IR scaled by IR0.
    pub fn gpf(&mut self, command: u32) -> (r: usize)
        ensures
            r == 5,
            final(self).regs() == color_pushed(
                mac_ir(
                    old(self).regs(),
                    scaled(ir_of(old(self).regs()), (old(self).regs()[8] as u16 as i16) as int),
                    sf_of(command),
                    lm_of(command),
                ),
            ),
            final(self).UNR_TABLE == old(self).UNR_TABLE,
            final(self).cycles == old(self).cycles,
    {
        let ir = self.ir_vector();
        let ir0 = self.ir0() as i64;
        assert(-0x4000_0000 <= ir.x * ir0 <= 0x4000_0000) by (nonlinear_arith)
            requires -0x8000 <= ir.x <= 0x7FFF, -0x8000 <= ir0 <= 0x7FFF;
        assert(-0x4000_0000 <= ir.y * ir0 <= 0x4000_0000) by (nonlinear_arith)
            requires -0x8000 <= ir.y <= 0x7FFF, -0x8000 <= ir0 <= 0x7FFF;
        assert(-0x4000_0000 <= ir.z * ir0 <= 0x4000_0000) by (nonlinear_arith)
            requires -0x8000 <= ir.z <= 0x7FFF, -0x8000 <= ir0 <= 0x7FFF;
        let raw = V3 { x: ir.x * ir0, y: ir.y * ir0, z: ir.z * ir0 };
        self.mac_ir_stage(raw, command.sf(), command.lm());
        self.push_color_fifo();
        5
    }

    /// General purpose interpolation with base: IR scaled by IR0 plus MAC.
    pub fn gpl(&mut self, command: u32) -> (r: usize)
        ensures
            r == 5,
            final(self).regs() == color_pushed(
                mac_ir(
                    old(self).regs(),
                    plus(
                        scaled(ir_of(old(self).regs()), (old(self).regs()[8] as u16 as i16) as int),
                        scaled(words_at(old(self).regs(), 25), if sf_of(command) { 4096 } else { 1 }),
                    ),
                    sf_of(command),
                    lm_of(command),
                ),
            ),
            final(self).UNR_TABLE == old(self).UNR_TABLE,
            final(self).cycles == old(self).cycles,
    {
        let sf = command.sf();
        let ir = self.ir_vector();
        let ir0 = self.ir0() as i64;
        let mac = self.mac_vector();
        let k: i64 = if sf {
            4096
        } else {
            1
        };
        assert(-0x4000_0000 <= ir.x * ir0 <= 0x4000_0000) by (nonlinear_arith)
            requires -0x8000 <= ir.x <= 0x7FFF, -0x8000 <= ir0 <= 0x7FFF;
        assert(-0x4000_0000 <= ir.y * ir0 <= 0x4000_0000) by (nonlinear_arith)
            requires -0x8000 <= ir.y <= 0x7FFF, -0x8000 <= ir0 <= 0x7FFF;
        assert(-0x4000_0000 <= ir.z * ir0 <= 0x4000_0000) by (nonlinear_arith)
            requires -0x8000 <= ir.z <= 0x7FFF, -0x8000 <= ir0 <= 0x7FFF;
        assert(-0x0800_0000_0000 <= mac.x * k <= 0x0800_0000_0000) by (nonlinear_arith)
            requires i32::MIN <= mac.x <= i32::MAX, 1 <= k <= 4096;
        assert(-0x0800_0000_0000 <= mac.y * k <= 0x0800_0000_0000) by (nonlinear_arith)
            requires i32::MIN <= mac.y <= i32::MAX, 1 <= k <= 4096;
        assert(-0x0800_0000_0000 <= mac.z * k <= 0x0800_0000_0000) by (nonlinear_arith)
            requires i32::MIN <= mac.z <= i32::MAX, 1 <= k <= 4096;
        let raw = V3 { x: ir.x * ir0 + mac.x * k, y: ir.y * ir0 + mac.y * k, z: ir.z * ir0 + mac.z * k };
        self.mac_ir_stage(raw, sf, command.lm());
        self.push_color_fifo();
        5
    }

    /// Square of IR, IR clamped to 0..=0x7FFF.
    pub fn sqr(&mut self, command: u32) -> (r: usize)
        ensures
            r == 5,
            final(self).regs() == mac_ir(
                old(self).regs(),
                lanewise(ir_of(old(self).regs()), ir_of(old(self).regs())),
                sf_of(command),
                true,
            ),
            final(self).UNR_TABLE == old(self).UNR_TABLE,
            final(self).cycles == old(self).cycles,
    {
        let ir = self.ir_vector();
        assert(ir.x * ir.x <= 0x4000_0000) by (nonlinear_arith) requires -0x8000 <= ir.x <= 0x7FFF;
        assert(ir.y * ir.y <= 0x4000_0000) by (nonlinear_arith) requires -0x8000 <= ir.y <= 0x7FFF;
        assert(ir.z * ir.z <= 0x4000_0000) by (nonlinear_arith) requires -0x8000 <= ir.z <= 0x7FFF;
        assert(ir.x * ir.x >= 0) by (nonlinear_arith);
        assert(ir.y * ir.y >= 0) by (nonlinear_arith);
        assert(ir.z * ir.z >= 0) by (nonlinear_arith);
        let raw = V3 { x: ir.x * ir.x, y: ir.y * ir.y, z: ir.z * ir.z };
        self.mac_ir_stage(raw, command.sf(), true);
        5
    }

    /// Outer product of the rotation diagonal with IR.
    pub fn op(&mut self, command: u32) -> (r: usize)
        ensures
            r == 6,
            ({
                let reg = old(self).regs();
                let d = V3 { x: lo_s(reg[32]), y: lo_s(reg[34]), z: lo_s(reg[36]) };
                let ir = ir_of(reg);
                let cross = V3 {
                    x: (d.y * ir.z - d.z * ir.y) as i64,
                    y: (d.z * ir.x - d.x * ir.z) as i64,
                    z: (d.x * ir.y - d.y * ir.x) as i64,
                };
                final(self).regs() == mac_ir(reg, cross, sf_of(command), lm_of(command))
            }),
            final(self).UNR_TABLE == old(self).UNR_TABLE,
            final(self).cycles == old(self).cycles,
    {
        let ir = self.ir_vector();
        let d = self.d_vector();
        assert(-0x4000_0000 <= d.y * ir.z <= 0x4000_0000) by (nonlinear_arith) requires -0x8000 <= d.y <= 0x7FFF, -0x8000 <= ir.z <= 0x7FFF;
        assert(-0x4000_0000 <= d.z * ir.y <= 0x4000_0000) by (nonlinear_arith) requires -0x8000 <= d.z <= 0x7FFF, -0x8000 <= ir.y <= 0x7FFF;
        assert(-0x4000_0000 <= d.z * ir.x <= 0x4000_0000) by (nonlinear_arith) requires -0x8000 <= d.z <= 0x7FFF, -0x8000 <= ir.x <= 0x7FFF;
        assert(-0x4000_0000 <= d.x * ir.z <= 0x4000_0000) by (nonlinear_arith) requires -0x8000 <= d.x <= 0x7FFF, -0x8000 <= ir.z <= 0x7FFF;
        assert(-0x4000_0000 <= d.x * ir.y <= 0x4000_0000) by (nonlinear_arith) requires -0x8000 <= d.x <= 0x7FFF, -0x8000 <= ir.y <= 0x7FFF;
        assert(-0x4000_0000 <= d.y * ir.x <= 0x4000_0000) by (nonlinear_arith) requires -0x8000 <= d.y <= 0x7FFF, -0x8000 <= ir.x <= 0x7FFF;
        let cross = V3 {
            x: d.y * ir.z - d.z * ir.y,
            y: d.z * ir.x - d.x * ir.z,
            z: d.x * ir.y - d.y * ir.x,
        };
        self.mac_ir_stage(cross, command.sf(), command.lm());
        6
    }

    /// Normal clipping: the z of the cross product of the screen triangle, into MAC0.
    pub fn nclip(&mut self, command: u32) -> (r: usize)
        ensures
            r == 8,
            ({
                let reg = old(self).regs();
                let (x0, y0, x1, y1, x2, y2) = (lo_s(reg[12]), hi_s(reg[12]), lo_s(reg[13]), hi_s(reg[13]), lo_s(reg[14]), hi_s(reg[14]));
                final(self).regs() == mac0_stage(
                    reg,
                    (x0 * (y1 - y2) + x1 * (y2 - y0) + x2 * (y0 - y1)) as i64,
                )
            }),
            final(self).UNR_TABLE == old(self).UNR_TABLE,
            final(self).cycles == old(self).cycles,
    {
        let (x0, y0) = self.screen_xy(0);
        let (x1, y1) = self.screen_xy(1);
        let (x2, y2) = self.screen_xy(2);
        assert(-0x1_0000_0000 <= x0 * (y1 - y2) <= 0x1_0000_0000) by (nonlinear_arith) requires -0x8000 <= x0 <= 0x7FFF, -0x10000 <= y1 - y2 <= 0x10000;
        assert(-0x1_0000_0000 <= x1 * (y2 - y0) <= 0x1_0000_0000) by (nonlinear_arith) requires -0x8000 <= x1 <= 0x7FFF, -0x10000 <= y2 - y0 <= 0x10000;
        assert(-0x1_0000_0000 <= x2 * (y0 - y1) <= 0x1_0000_0000) by (nonlinear_arith) requires -0x8000 <= x2 <= 0x7FFF, -0x10000 <= y0 - y1 <= 0x10000;
        let m = self.update_mac0_flags(x0 * (y1 - y2) + x1 * (y2 - y0) + x2 * (y0 - y1));
        self.write_mac0(m);
        8
    }

    /// Average of three Z values, scaled by ZSF3, into MAC0 and OTZ.
    pub fn avsz3(&mut self, command: u32) -> (r: usize)
        ensures
            r == 5,
            ({
                let reg = old(self).regs();
                final(self).regs() == average_z(
                    reg,
                    (reg[61] as i16) as i64,
                    (reg[17] as u16 + reg[18] as u16 + reg[19] as u16) as i64,
                )
            }),
            final(self).UNR_TABLE == old(self).UNR_TABLE,
            final(self).cycles == old(self).cycles,
    {
        let sum = self.screen_z(1) as i64 + self.screen_z(2) as i64 + self.screen_z(3) as i64;
        let zsf3 = self.zsf3() as i64;
        self.average(zsf3, sum);
        5
    }

    /// Average of four Z values, scaled by ZSF4, into MAC0 and OTZ.
    pub fn avsz4(&mut self, command: u32) -> (r: usize)
        ensures
            r == 5,
            ({
                let reg = old(self).regs();
                final(self).regs() == average_z(
                    reg,
                    (reg[62] as i16) as i64,
                    (reg[16] as u16 + reg[17] as u16 + reg[18] as u16 + reg[19] as u16) as i64,
                )
            }),
            final(self).UNR_TABLE == old(self).UNR_TABLE,
            final(self).cycles == old(self).cycles,
    {
        let sum = self.screen_z(0) as i64 + self.screen_z(1) as i64 + self.screen_z(2) as i64
            + self.screen_z(3) as i64;
        let zsf4 = self.zsf4() as i64;
        self.average(zsf4, sum);
        5
    }

    fn average(&mut self, zsf: i64, sum: i64)
        requires
            -0x8000 <= zsf <= 0x7FFF,
            0 <= sum <= 4 * 0xFFFF,
        ensures
            final(self).regs() == average_z(old(self).regs(), zsf, sum),
            final(self).UNR_TABLE == old(self).UNR_TABLE,
            final(self).cycles == old(self).cycles,
    {
        assert(-0x4_0000_0000 <= zsf * sum <= 0x4_0000_0000) by (nonlinear_arith) requires -0x8000 <= zsf <= 0x7FFF, 0 <= sum <= 4 * 0xFFFF;
        let raw = zsf * sum;
        let m = self.update_mac0_flags(raw);
        self.write_mac0(m);
        let otz = self.update_otz_flags(raw >> 12u64);
        self.write_otz(otz);
    }

    /// Matrix times vector plus an offset vector, with the matrix, vector and
    /// offset picked by the command's fields.
    pub fn mvmva(&mut self, command: u32) -> (r: usize)
        ensures
            r == 8,
            ({
                let reg = old(self).regs();
                let raw = affine(
                    mvmva_offset(reg, (command >> 13u32) & 3),
                    mvmva_matrix(reg, (command >> 17u32) & 3),
                    mvmva_vector(reg, (command >> 15u32) & 3),
                );
                final(self).regs() == mac_ir(reg, raw, sf_of(command), lm_of(command))
            }),
            final(self).UNR_TABLE == old(self).UNR_TABLE,
            final(self).cycles == old(self).cycles,
    {
        let mx = command.mx();
        let vi = command.v();
        let cv = command.cv();
        assert((command >> 17u32) & 3 < 4 && (command >> 15u32) & 3 < 4) by (bit_vector);
        let m = self.mx_matrix(mx);
        let v = if vi < 3 {
            self.vector(vi)
        } else {
            self.ir_vector()
        };
        let t = if cv == 0 {
            self.tr()
        } else if cv == 1 {
            self.bk()
        } else {
            V3 { x: 0, y: 0, z: 0 }
        };
        let raw = affine3(t, m, v);
        self.mac_ir_stage(raw, command.sf(), command.lm());
        8
    }

    fn mx_matrix(&self, mx: u32) -> (r: [V3; 3])
        ensures
            r@ == mvmva_matrix(self.regs(), mx),
            small(r@[0]) && small(r@[1]) && small(r@[2]),
    {
        if mx == 0 {
            self.rt()
        } else if mx == 1 {
            self.llm()
        } else if mx == 2 {
            self.lcm()
        } else {
            let a = (self.R.get(41) as i16) as i64;
            let b = (self.R.get(42) as i16) as i64;
            let ir0 = self.ir0() as i64;
            let r = [V3 { x: -0x60, y: 0x60, z: ir0 }, V3 { x: a, y: a, z: a }, V3 { x: b, y: b, z: b }];
            assert(r@ =~= mvmva_matrix(self.regs(), mx));
            r
        }
    }

    /// Perspective transform of vertex 0.
    pub fn rtps(&mut self, command: u32) -> (r: usize)
        requires
            old(self).wf(),
        ensures
            r == 15,
            final(self).wf(),
            final(self).regs() == perspective(old(self).regs(), 1, sf_of(command), lm_of(command), old(self).UNR_TABLE@),
            final(self).cycles == old(self).cycles,
    {
        self.perspective_transformation(1, command.sf(), command.lm());
        15
    }

    /// Perspective transform of vertices 0, 1 and 2.
    pub fn rtpt(&mut self, command: u32) -> (r: usize)
        requires
            old(self).wf(),
        ensures
            r == 23,
            final(self).wf(),
            final(self).regs() == perspective(old(self).regs(), 3, sf_of(command), lm_of(command), old(self).UNR_TABLE@),
            final(self).cycles == old(self).cycles,
    {
        self.perspective_transformation(3, command.sf(), command.lm());
        23
    }
}

#[derive(Debug, Clone, Copy, PartialEq, Eq, Structural)]
pub enum GteError {
    /// A function number with no command.
    UnknownCommand(u32),
}

/// Whether the low six bits of a function word name a command.
pub open spec fn known_command(num: u32) -> bool {
    num == 0x01 || num == 0x06 || num == 0x0C || num == 0x10 || num == 0x11 || num == 0x12 || num
        == 0x13 || num == 0x14 || num == 0x16 || num == 0x1B || num == 0x1C || num == 0x1E || num
        == 0x20 || num == 0x28 || num == 0x29 || num == 0x2A || num == 0x2D || num == 0x2E || num
        == 0x30 || num == 0x3D || num == 0x3E || num == 0x3F
}

/// The registers after command `c` runs on `r`, and its cycle count.
pub open spec fn command_effect(r: Seq<u32>, c: u32, table: Seq<u8>) -> (Seq<u32>, usize) {
    let num = c & 0x3F;
    let sf = sf_of(c);
    let lm = lm_of(c);
    if num == 0x01 {
        (perspective(r, 1, sf, lm, table), 15)
    } else if num == 0x06 {
        let (x0, y0, x1, y1, x2, y2) = (lo_s(r[12]), hi_s(r[12]), lo_s(r[13]), hi_s(r[13]), lo_s(r[14]), hi_s(r[14]));
        (mac0_stage(r, (x0 * (y1 - y2) + x1 * (y2 - y0) + x2 * (y0 - y1)) as i64), 8)
    } else if num == 0x0C {
        let d = V3 { x: lo_s(r[32]), y: lo_s(r[34]), z: lo_s(r[36]) };
        let ir = ir_of(r);
        let cross = V3 {
            x: (d.y * ir.z - d.z * ir.y) as i64,
            y: (d.z * ir.x - d.x * ir.z) as i64,
            z: (d.x * ir.y - d.y * ir.x) as i64,
        };
        (mac_ir(r, cross, sf, lm), 6)
    } else if num == 0x10 {
        (ir0_fc(r, sf, lm, scaled(rgb_of(r[6]), 65536)), 8)
    } else if num == 0x11 {
        (ir0_fc(r, sf, lm, scaled(ir_of(r), 4096)), 8)
    } else if num == 0x12 {
        let raw = affine(
            mvmva_offset(r, (c >> 13u32) & 3),
            mvmva_matrix(r, (c >> 17u32) & 3),
            mvmva_vector(r, (c >> 15u32) & 3),
        );
        (mac_ir(r, raw, sf, lm), 8)
    } else if num == 0x13 {
        (normal_colors(r, 2, 1, sf, lm), 19)
    } else if num == 0x14 {
        let r1 = lcm_stage(r, sf, lm);
        (ir0_fc(r1, sf, lm, scaled(lanewise(rgb_of(r1[6]), ir_of(r1)), 16)), 13)
    } else if num == 0x16 {
        (normal_colors(r, 2, 3, sf, lm), 44)
    } else if num == 0x1B {
        (normal_colors(r, 1, 1, sf, lm), 17)
    } else if num == 0x1C {
        (color_pushed(tinted(lcm_stage(r, sf, lm), sf, lm)), 11)
    } else if num == 0x1E {
        (normal_colors(r, 0, 1, sf, lm), 14)
    } else if num == 0x20 {
        (normal_colors(r, 0, 3, sf, lm), 30)
    } else if num == 0x28 {
        (mac_ir(r, lanewise(ir_of(r), ir_of(r)), sf, true), 5)
    } else if num == 0x29 {
        (ir0_fc(r, sf, lm, scaled(lanewise(rgb_of(r[6]), ir_of(r)), 16)), 8)
    } else if num == 0x2A {
        (depth_cued(r, 3, sf, lm), 17)
    } else if num == 0x2D {
        (average_z(r, (r[61] as i16) as i64, (r[17] as u16 + r[18] as u16 + r[19] as u16) as i64), 5)
    } else if num == 0x2E {
        (average_z(
            r,
            (r[62] as i16) as i64,
            (r[16] as u16 + r[17] as u16 + r[18] as u16 + r[19] as u16) as i64,
        ), 5)
    } else if num == 0x30 {
        (perspective(r, 3, sf, lm, table), 23)
    } else if num == 0x3D {
        (color_pushed(mac_ir(r, scaled(ir_of(r), (r[8] as u16 as i16) as int), sf, lm)), 5)
    } else if num == 0x3E {
        (color_pushed(
            mac_ir(
                r,
                plus(scaled(ir_of(r), (r[8] as u16 as i16) as int), scaled(words_at(r, 25), if sf { 4096 } else { 1 })),
                sf,
                lm,
            ),
        ), 5)
    } else {
        (normal_colors(r, 1, 3, sf, lm), 39)
    }
}

impl GTE {
    /// Runs a GTE function word: clears the flags, runs the command named by
    /// its low six bits and records its cycle count. An unknown command is
    /// refused and nothing changes.
    #[verifier::rlimit(50)]
    pub fn issue_command(&mut self, command: u32) -> (r: Result<(), GteError>)
        requires
            old(self).wf(),
        ensures
            final(self).wf(),
            r.is_ok() <==> known_command(command & 0x3F),
            r.is_ok() ==> {
                let (regs, cycles) = command_effect(
                    old(self).regs().update(63, 0),
                    command,
                    old(self).UNR_TABLE@,
                );
                final(self).regs() == regs && final(self).cycles == cycles
            },
            r matches Err(e) ==> e == GteError::UnknownCommand(command) && final(self).regs()
                == old(self).regs() && final(self).cycles == old(self).cycles,
    {
        let num = command.num();
        if !(num == 0x01 || num == 0x06 || num == 0x0C || num == 0x10 || num == 0x11 || num == 0x12
            || num == 0x13 || num == 0x14 || num == 0x16 || num == 0x1B || num == 0x1C || num == 0x1E
            || num == 0x20 || num == 0x28 || num == 0x29 || num == 0x2A || num == 0x2D || num == 0x2E
            || num == 0x30 || num == 0x3D || num == 0x3E || num == 0x3F) {
            return Err(GteError::UnknownCommand(command));
        }
        self.R.set(63, 0);
        let cycles = if num == 0x01 {
            self.rtps(command)
        } else if num == 0x06 {
            self.nclip(command)
        } else if num == 0x0C {
            self.op(command)
        } else if num == 0x10 {
            self.dpcs(command)
        } else if num == 0x11 {
            self.intpl(command)
        } else if num == 0x12 {
            self.mvmva(command)
        } else if num == 0x13 {
            self.ncds(command)
        } else if num == 0x14 {
            self.cdp(command)
        } else if num == 0x16 {
            self.ncdt(command)
        } else if num == 0x1B {
            self.nccs(command)
        } else if num == 0x1C {
            self.cc(command)
        } else if num == 0x1E {
            self.ncs(command)
        } else if num == 0x20 {
            self.nct(command)
        } else if num == 0x28 {
            self.sqr(command)
        } else if num == 0x29 {
            self.dcpl(command)
        } else if num == 0x2A {
            self.dpct(command)
        } else if num == 0x2D {
            self.avsz3(command)
        } else if num == 0x2E {
            self.avsz4(command)
        } else if num == 0x30 {
            self.rtpt(command)
        } else if num == 0x3D {
            self.gpf(command)
        } else if num == 0x3E {
            self.gpl(command)
        } else {
            self.ncct(command)
        };
        self.cycles = cycles;
        Ok(())
    }
}

proof fn lemma_or_sets(f: u32, a: u32, b: u32, c: u32, d: u32, e: u32, g: u32)
    by (bit_vector)
    ensures
        (f | (a | b)) & a == a,
        (f | (a | b)) & b == b,
        (f | (a | b)) & f == f,
        (f | (a | b | c)) & f == f,
        (f | (a | b | c)) & a == a,
        (f | (a | b | c)) & b == b,
        (f | (a | b | c)) & c == c,
        (f | (a | b | c | d | e | g)) & f == f,
        (f | (a | b | c | d | e | g)) & a == a,
        (f | (a | b | c | d | e | g)) & b == b,
        (f | (a | b | c | d | e | g)) & c == c,
        (f | (a | b | c | d | e | g)) & d == d,
        (f | (a | b | c | d | e | g)) & e == e,
        (f | (a | b | c | d | e | g)) & g == g,
{
}

/// The saturation sinks are sticky: each keeps every flag already set, and
/// sets the flag bit of each lane that saturated (MAC1..3 up and down, IR1..3,
/// MAC0 up and down, SX2/SY2, and the color channels).
pub proof fn lemma_saturation_flags(flags: u32, raw: V3, sf: bool, v: V3, lm: bool, m0: i64, sx: i64, sy: i64)
    ensures
        mac_flags(flags, raw, sf) & flags == flags,
        mac_pos(raw.x, sf) ==> mac_flags(flags, raw, sf) & FLAG_MAC1_POS == FLAG_MAC1_POS,
        mac_pos(raw.y, sf) ==> mac_flags(flags, raw, sf) & FLAG_MAC2_POS == FLAG_MAC2_POS,
        mac_pos(raw.z, sf) ==> mac_flags(flags, raw, sf) & FLAG_MAC3_POS == FLAG_MAC3_POS,
        mac_neg(raw.x, sf) ==> mac_flags(flags, raw, sf) & FLAG_MAC1_NEG == FLAG_MAC1_NEG,
        mac_neg(raw.y, sf) ==> mac_flags(flags, raw, sf) & FLAG_MAC2_NEG == FLAG_MAC2_NEG,
        mac_neg(raw.z, sf) ==> mac_flags(flags, raw, sf) & FLAG_MAC3_NEG == FLAG_MAC3_NEG,
        ir_flags(flags, v, lm) & flags == flags,
        ir_sat(v.x, lm) ==> ir_flags(flags, v, lm) & FLAG_IR1 == FLAG_IR1,
        ir_sat(v.y, lm) ==> ir_flags(flags, v, lm) & FLAG_IR2 == FLAG_IR2,
        ir_sat(v.z, lm) ==> ir_flags(flags, v, lm) & FLAG_IR3 == FLAG_IR3,
        !ir_sat(v.x, lm) ==> ir_result(v, lm).x == v.x,
        !ir_sat(v.y, lm) ==> ir_result(v, lm).y == v.y,
        !ir_sat(v.z, lm) ==> ir_result(v, lm).z == v.z,
        m0 > i32::MAX ==> (flags | (flag_if(m0 > i32::MAX, FLAG_MAC0_POS) | flag_if(m0 < i32::MIN, FLAG_MAC0_NEG))) & FLAG_MAC0_POS == FLAG_MAC0_POS,
        m0 < i32::MIN ==> (flags | (flag_if(m0 > i32::MAX, FLAG_MAC0_POS) | flag_if(m0 < i32::MIN, FLAG_MAC0_NEG))) & FLAG_MAC0_NEG == FLAG_MAC0_NEG,
        (sx < -0x400 || sx > 0x3FF) ==> (flags | (flag_if(sx < -0x400 || sx > 0x3FF, FLAG_SX2) | flag_if(sy < -0x400 || sy > 0x3FF, FLAG_SY2))) & FLAG_SX2 == FLAG_SX2,
        (sy < -0x400 || sy > 0x3FF) ==> (flags | (flag_if(sx < -0x400 || sx > 0x3FF, FLAG_SX2) | flag_if(sy < -0x400 || sy > 0x3FF, FLAG_SY2))) & FLAG_SY2 == FLAG_SY2,
{
    let a1 = flag_if(mac_pos(raw.x, sf), FLAG_MAC1_POS);
    let a2 = flag_if(mac_pos(raw.y, sf), FLAG_MAC2_POS);
    let a3 = flag_if(mac_pos(raw.z, sf), FLAG_MAC3_POS);
    let b1 = flag_if(mac_neg(raw.x, sf), FLAG_MAC1_NEG);
    let b2 = flag_if(mac_neg(raw.y, sf), FLAG_MAC2_NEG);
    let b3 = flag_if(mac_neg(raw.z, sf), FLAG_MAC3_NEG);
    lemma_or_sets(flags, a1, a2, a3, b1, b2, b3);
    let c1 = flag_if(ir_sat(v.x, lm), FLAG_IR1);
    let c2 = flag_if(ir_sat(v.y, lm), FLAG_IR2);
    let c3 = flag_if(ir_sat(v.z, lm), FLAG_IR3);
    lemma_or_sets(flags, c1, c2, c3, 0, 0, 0);
    lemma_or_sets(flags, flag_if(m0 > i32::MAX, FLAG_MAC0_POS), flag_if(m0 < i32::MIN, FLAG_MAC0_NEG), 0, 0, 0, 0);
    lemma_or_sets(flags, flag_if(sx < -0x400 || sx > 0x3FF, FLAG_SX2), flag_if(sy < -0x400 || sy > 0x3FF, FLAG_SY2), 0, 0, 0, 0);
}

} // verus!
