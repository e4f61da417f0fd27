//! GPU command processor: the GP0 state machine, GP1 control commands,
//! GPUSTAT, VRAM blits, fills and flat-shaded primitives.
use vstd::prelude::*;

use crate::bytes::{le16, le32, store16};
use crate::color::{compressed, Color};
use crate::interrupt::{Interrupt, IRQ};
use crate::ram::RAM;
use crate::system_control::SystemControl;

verus! {

/// Bytes of VRAM: 1024 × 512 halfwords.
pub const VRAM_SIZE: usize = 1024 * 1024;

/// Ticks in one frame.
pub const FRAME_CYCLES: usize = 566_203;

/// Byte address of VRAM pixel (x, y), both taken modulo the VRAM size.
pub open spec fn pixel_addr(x: int, y: int) -> int {
    2 * ((y % 512) * 1024 + (x % 1024))
}

/// Byte address of the `k`-th pixel, row-major, of the `w`-wide region at (x, y).
pub open spec fn blit_addr(x: int, y: int, w: int, k: int) -> int {
    pixel_addr(x + k % w, y + k / w)
}

/// VRAM after the halfwords of `data` are written, in order, over the region
/// of width `w` at (x, y).
pub open spec fn blit_written(vram: Seq<u8>, x: int, y: int, w: int, data: Seq<u16>) -> Seq<u8>
    decreases data.len(),
{
    if data.len() == 0 {
        vram
    } else {
        let k = data.len() - 1;
        store16(blit_written(vram, x, y, w, data.take(k)), blit_addr(x, y, w, k), data[k])
    }
}

/// The first `n` halfwords, row-major, of the `w`-wide region at (x, y).
pub open spec fn blit_read(vram: Seq<u8>, x: int, y: int, w: int, n: int) -> Seq<u16> {
    Seq::new(n as nat, |k: int| le16(vram, blit_addr(x, y, w, k)))
}

/// A CPU↔VRAM transfer in progress.
#[derive(Debug, Clone, Copy, PartialEq, Eq, Structural)]
pub struct BlitFields {
    pub vram_x: u16,
    pub vram_y: u16,
    pub width: u16,
    pub height: u16,
    pub current_row: u16,
    pub current_col: u16,
}

impl BlitFields {
    pub open spec fn wf(&self) -> bool {
        &&& 1 <= self.width <= 1024 && 1 <= self.height <= 512
        &&& self.vram_x < 1024 && self.vram_y < 512
        &&& self.current_row < self.height && self.current_col < self.width
    }

    /// How many pixels of the region are done.
    pub open spec fn index(&self) -> int {
        self.current_row * self.width + self.current_col
    }

    pub open spec fn size(&self) -> int {
        self.width * self.height
    }

    /// The same transfer, `k` pixels in.
    pub open spec fn at(&self, k: int) -> BlitFields {
        BlitFields {
            current_row: (k / self.width as int) as u16,
            current_col: (k % self.width as int) as u16,
            ..*self
        }
    }
}

proof fn lemma_mask_mod(v: u32)
    by (bit_vector)
    ensures
        v & 0x1FF == v % 512,
        v & 0x3FF == v % 1024,
{
}

proof fn lemma_step(f: BlitFields)
    requires
        f.wf(),
    ensures
        f.index() + 1 < f.size() ==> {
            let g = if f.current_col + 1 == f.width {
                BlitFields { current_col: 0, current_row: (f.current_row + 1) as u16, ..f }
            } else {
                BlitFields { current_col: (f.current_col + 1) as u16, ..f }
            };
            g == f.at(f.index() + 1) && g.wf()
        },
        f.index() + 1 == f.size() <==> (f.current_col + 1 == f.width && f.current_row + 1 == f.height),
        0 <= f.index() < f.size(),
        f == f.at(f.index()),
        f.size() <= 1024 * 512,
        f.size() <= f.width * 512,
{
    let w = f.width as int;
    let r = f.current_row as int;
    let c = f.current_col as int;
    assert(f.index() == r * w + c);
    assert(0 <= r * w + c < w * f.height) by (nonlinear_arith)
        requires
            0 <= r < f.height,
            0 <= c < w,
            w >= 1,
    ;
    assert(w * f.height <= 1024 * 512 && w * f.height <= w * 512) by (nonlinear_arith)
        requires
            1 <= w <= 1024,
            1 <= f.height <= 512,
    ;
    vstd::arithmetic::div_mod::lemma_fundamental_div_mod_converse(r * w + c, w, r, c);
    if c + 1 == w {
        assert(r * w + c + 1 == (r + 1) * w) by (nonlinear_arith)
            requires
                c + 1 == w,
        ;
        vstd::arithmetic::div_mod::lemma_fundamental_div_mod_converse(r * w + c + 1, w, r + 1, 0);
        if r + 1 < f.height {
            assert((r + 1) * w < w * f.height) by (nonlinear_arith)
                requires
                    r + 1 < f.height,
                    w >= 1,
            ;
        } else {
            assert((r + 1) * w == w * f.height) by (nonlinear_arith)
                requires
                    r + 1 == f.height,
            ;
        }
    } else {
        vstd::arithmetic::div_mod::lemma_fundamental_div_mod_converse(r * w + c + 1, w, r, c + 1);
        assert(r * w + c + 1 < w * f.height) by (nonlinear_arith)
            requires
                0 <= r < f.height,
                c + 1 < w,
                w >= 1,
        ;
    }
}

proof fn lemma_mod_small(a: int, m: int)
    requires
        m > 0,
        0 <= a < 2 * m,
    ensures
        a % m == if a < m { a } else { a - m },
{
    if a < m {
        vstd::arithmetic::div_mod::lemma_fundamental_div_mod_converse(a, m, 0, a);
    } else {
        vstd::arithmetic::div_mod::lemma_fundamental_div_mod_converse(a, m, 1, a - m);
    }
}

proof fn lemma_blit_addr(x: int, y: int, w: int, k: int)
    requires
        0 <= x < 1024,
        0 <= y < 512,
        1 <= w <= 1024,
        0 <= k < w * 512,
    ensures
        0 <= blit_addr(x, y, w, k),
        blit_addr(x, y, w, k) + 2 <= VRAM_SIZE,
        blit_addr(x, y, w, k) % 2 == 0,
        0 <= k / w < 512,
        0 <= k % w < w,
{
    vstd::arithmetic::div_mod::lemma_fundamental_div_mod(k, w);
    assert(0 <= k / w < 512) by (nonlinear_arith)
        requires
            0 <= k < w * 512,
            w >= 1,
            k == w * (k / w) + k % w,
            0 <= k % w < w,
    ;
    lemma_mod_small(x + k % w, 1024);
    lemma_mod_small(y + k / w, 512);
}

proof fn lemma_blit_distinct(x: int, y: int, w: int, k1: int, k2: int)
    requires
        0 <= x < 1024,
        0 <= y < 512,
        1 <= w <= 1024,
        0 <= k1 < k2 < w * 512,
    ensures
        blit_addr(x, y, w, k1) + 2 <= blit_addr(x, y, w, k2) || blit_addr(x, y, w, k2) + 2
            <= blit_addr(x, y, w, k1),
{
    lemma_blit_addr(x, y, w, k1);
    lemma_blit_addr(x, y, w, k2);
    vstd::arithmetic::div_mod::lemma_fundamental_div_mod(k1, w);
    vstd::arithmetic::div_mod::lemma_fundamental_div_mod(k2, w);
    lemma_mod_small(x + k1 % w, 1024);
    lemma_mod_small(y + k1 / w, 512);
    lemma_mod_small(x + k2 % w, 1024);
    lemma_mod_small(y + k2 / w, 512);
    if k1 / w == k2 / w {
        assert(k1 % w != k2 % w) by (nonlinear_arith)
            requires
                k1 == w * (k1 / w) + k1 % w,
                k2 == w * (k2 / w) + k2 % w,
                k1 / w == k2 / w,
                k1 != k2,
        ;
    }
}

proof fn lemma_store16_elsewhere(s: Seq<u8>, i: int, v: u16, j: int)
    requires
        0 <= i,
        i + 2 <= s.len(),
        0 <= j,
        j + 2 <= s.len(),
        j + 2 <= i || i + 2 <= j,
    ensures
        le16(store16(s, i, v), j) == le16(s, j),
{
}

proof fn lemma_blit_prefix(vram: Seq<u8>, x: int, y: int, w: int, data: Seq<u16>)
    requires
        vram.len() == VRAM_SIZE,
        0 <= x < 1024,
        0 <= y < 512,
        1 <= w <= 1024,
        data.len() <= w * 512,
    ensures
        blit_written(vram, x, y, w, data).len() == VRAM_SIZE,
        forall|k: int|
            0 <= k < data.len() ==> #[trigger] le16(blit_written(vram, x, y, w, data), blit_addr(x, y, w, k))
                == data[k],
    decreases data.len(),
{
    if data.len() > 0 {
        let n = data.len() - 1;
        let prev = data.take(n);
        lemma_blit_prefix(vram, x, y, w, prev);
        lemma_blit_addr(x, y, w, n);
        let before = blit_written(vram, x, y, w, prev);
        assert(blit_written(vram, x, y, w, data) == store16(before, blit_addr(x, y, w, n), data[n]));
        crate::bytes::lemma_load_store16(before, blit_addr(x, y, w, n), data[n]);
        assert forall|k: int| 0 <= k < data.len() implies #[trigger] le16(
            blit_written(vram, x, y, w, data),
            blit_addr(x, y, w, k),
        ) == data[k] by {
            if k < n {
                lemma_blit_addr(x, y, w, k);
                lemma_blit_distinct(x, y, w, k, n);
                assert(prev[k] == data[k]);
                lemma_store16_elsewhere(before, blit_addr(x, y, w, n), data[n], blit_addr(x, y, w, k));
            }
        }
    }
}

/// A CPU-to-VRAM copy of a region at most 1024 × 512 pixels, read back
/// pixel by pixel over the same region, gives the halfwords written.
pub proof fn lemma_blit_round_trip(vram: Seq<u8>, x: int, y: int, w: int, h: int, data: Seq<u16>)
    requires
        vram.len() == VRAM_SIZE,
        0 <= x < 1024,
        0 <= y < 512,
        1 <= w <= 1024,
        1 <= h <= 512,
        data.len() == w * h,
    ensures
        blit_read(blit_written(vram, x, y, w, data), x, y, w, w * h) == data,
{
    assert(w * h <= w * 512) by (nonlinear_arith)
        requires
            1 <= w,
            h <= 512,
    ;
    lemma_blit_prefix(vram, x, y, w, data);
    assert(blit_read(blit_written(vram, x, y, w, data), x, y, w, w * h) =~= data);
}

/// A screen or VRAM position.
#[derive(Debug, Clone, Copy, PartialEq, Eq, Structural)]
pub struct Vertex {
    pub x: i32,
    pub y: i32,
}

/// An 11-bit signed field.
pub open spec fn sign11(v: u32) -> i32 {
    if v & 0x400 != 0 {
        (v - 0x800) as i32
    } else {
        v as i32
    }
}

impl Vertex {
    pub fn new(x: i32, y: i32) -> (v: Vertex)
        ensures
            v == (Vertex { x, y }),
    {
        Vertex { x, y }
    }

    /// A vertex word: signed 11-bit x in bits 0..=10, y in bits 16..=26.
    pub fn from_word(word: u32) -> (v: Vertex)
        ensures
            v == (Vertex { x: sign11(word & 0x7FF), y: sign11((word >> 16u32) & 0x7FF) }),
    {
        let x = word & 0x7FF;
        let y = (word >> 16u32) & 0x7FF;
        proof {
            lemma_field_bits(word);
            lemma_field_bits(word >> 16u32);
        }
        Vertex { x: GPU::signed11(x), y: GPU::signed11(y) }
    }

    /// The vertex as a word, each coordinate in 11 bits.
    pub fn to_word(&self) -> (w: u32)
        ensures
            w == ((((self.y as u32) & 0x7FF) << 16u32) | ((self.x as u32) & 0x7FF)),
    {
        (((self.y as u32) & 0x7FF) << 16u32) | ((self.x as u32) & 0x7FF)
    }

    pub fn translate(&self, t: Vertex) -> (v: Vertex)
        ensures
            v == (Vertex {
                x: vstd::wrapping::i32_specs::wrapping_add(self.x, t.x),
                y: vstd::wrapping::i32_specs::wrapping_add(self.y, t.y),
            }),
    {
        Vertex { x: self.x.wrapping_add(t.x), y: self.y.wrapping_add(t.y) }
    }
}

/// What a command collecting parameters will do with them.
#[derive(Debug, Clone, Copy, PartialEq, Eq, Structural)]
pub enum ParametrizedCommand {
    CPU_VRAM_Copy,
    VRAM_CPU_Copy,
    VRAM_VRAM_Copy,
    Fill(u32),
    Polygon(u32),
    Line(u32),
    Rectangle(u32),
}

#[derive(Debug, Clone, Copy, PartialEq, Eq, Structural)]
pub enum GP0_State {
    CommandStart,
    ReceivingParameters { idx: usize, expected: usize, command: ParametrizedCommand },
    ReceivingPolyLineParameters { color_word: bool, gouraud: bool, command: ParametrizedCommand },
    ReceivingData(BlitFields),
    SendingData(BlitFields),
}

#[derive(Debug, Clone, Copy, PartialEq, Eq, Structural)]
pub enum GpuError {
    /// A GP1 command with no handler.
    UnknownGp1(u32),
    /// A GP0 drawing command this processor does not draw.
    Unsupported(u32),
}

/// GPUSTAT bits that a GP1 reset clears: texture page, dithering and drawing
/// flags, mask settings, display mode, IRQ and DMA direction.
pub const RESET_CLEARED: u32 = 0x61FF_5FFF;

/// GPUSTAT bit 23: display disabled.
pub const DISPLAY_DISABLE: u32 = 0x0080_0000;

/// GPUSTAT bit 24: interrupt request.
pub const STATUS_IRQ: u32 = 0x0100_0000;

/// GPUSTAT bit 27: a VRAM-to-CPU transfer is ready to read.
pub const STATUS_READ_READY: u32 = 0x0800_0000;

pub open spec fn reset_status(s: u32) -> u32 {
    (s & !RESET_CLEARED) | DISPLAY_DISABLE
}

/// The GPU's state.
pub struct GpuView {
    pub vram: Seq<u8>,
    pub gp0_mode: GP0_State,
    pub gpu_read_transfer: Option<BlitFields>,
    pub gp0_parameters: Seq<u32>,
    pub gpu_read: u32,
    pub gpu_status: u32,
    pub drawing_area: (Vertex, Vertex),
    pub drawing_offset: Vertex,
    pub display_range: (Vertex, Vertex),
    pub display_area_start: Vertex,
    pub tex_window: u32,
    pub cycle: usize,
    pub even_odd_frame: bool,
    pub deferred: Option<(u32, Seq<u32>)>,
}

/// The state after a GP1 reset: the command state machine restarts, the
/// parameter FIFO empties, GPUSTAT takes its reset bits and the E1..E6
/// settings and display ranges are zeroed.
pub open spec fn reset_view(v: GpuView) -> GpuView {
    let zero = Vertex { x: 0, y: 0 };
    GpuView {
        gp0_mode: GP0_State::CommandStart,
        gp0_parameters: Seq::empty(),
        gpu_status: reset_status(v.gpu_status),
        display_area_start: zero,
        display_range: (zero, zero),
        tex_window: 0,
        drawing_area: (zero, zero),
        drawing_offset: zero,
        ..v
    }
}

/// A GP1 reset is idempotent: resetting twice gives the state one reset gives.
pub proof fn lemma_reset_idempotent(v: GpuView)
    ensures
        reset_view(reset_view(v)) == reset_view(v),
{
    let s = v.gpu_status;
    assert(reset_status(reset_status(s)) == reset_status(s)) by (bit_vector);
}

pub struct GPU {
    pub vram: RAM,
    pub gp0_mode: GP0_State,
    pub gpu_read_transfer: Option<BlitFields>,
    pub gp0_parameters: Vec<u32>,
    pub gpu_read: u32,
    pub gpu_status: u32,
    pub drawing_area: (Vertex, Vertex),
    pub drawing_offset: Vertex,
    pub display_range: (Vertex, Vertex),
    pub display_area_start: Vertex,
    pub tex_window: u32,
    pub cycle: usize,
    pub even_odd_frame: bool,
    /// The last primitive that was not drawn here: its command word and
    /// parameters, left for the host to draw.
    pub deferred: Option<(u32, Vec<u32>)>,
}

impl View for GPU {
    type V = GpuView;

    open spec fn view(&self) -> GpuView {
        GpuView {
            vram: self.vram.data@,
            gp0_mode: self.gp0_mode,
            gpu_read_transfer: self.gpu_read_transfer,
            gp0_parameters: self.gp0_parameters@,
            gpu_read: self.gpu_read,
            gpu_status: self.gpu_status,
            drawing_area: self.drawing_area,
            drawing_offset: self.drawing_offset,
            display_range: self.display_range,
            display_area_start: self.display_area_start,
            tex_window: self.tex_window,
            cycle: self.cycle,
            even_odd_frame: self.even_odd_frame,
            deferred: match &self.deferred {
                Some((w, p)) => Some((*w, p@)),
                None => None,
            },
        }
    }
}

impl GPU {
    /// An 11-bit field as a signed value.
    fn signed11(v: u32) -> (r: i32)
        requires
            v <= 0x7FF,
            v & 0x400 != 0 ==> v >= 0x400,
            v & 0x400 == 0 ==> v <= 0x3FF,
        ensures
            r == sign11(v),
            -0x400 <= r <= 0x3FF,
    {
        if v & 0x400 != 0 {
            v as i32 - 0x800
        } else {
            v as i32
        }
    }

    pub open spec fn wf(&self) -> bool {
        &&& self.vram.data@.len() == VRAM_SIZE
        &&& self.cycle < FRAME_CYCLES
        &&& match self.gp0_mode {
            GP0_State::ReceivingData(f) => f.wf(),
            GP0_State::SendingData(f) => f.wf(),
            GP0_State::ReceivingParameters { idx, expected, command } => 1 <= idx <= expected <= 16
                && self.gp0_parameters@.len() == idx - 1 && expected == required_words(command),
            _ => true,
        }
        &&& self.gpu_read_transfer matches Some(f) ==> f.wf()
        &&& !(self.gp0_mode is SendingData)
        &&& area_point(self.drawing_area.0) && area_point(self.drawing_area.1)
        &&& screen_point(self.drawing_offset)
    }

    pub fn new() -> (g: GPU)
        ensures
            g.wf(),
            g.vram.data@ == Seq::new(VRAM_SIZE as nat, |i: int| 0u8),
            g.gp0_mode == GP0_State::CommandStart,
            g.gpu_status == 0x1C00_0000,
            g.cycle == 566_203 - 516_687,
            !g.even_odd_frame,
    {
        let zero = Vertex { x: 0, y: 0 };
        GPU {
            vram: RAM::new(VRAM_SIZE),
            gp0_mode: GP0_State::CommandStart,
            gpu_read_transfer: None,
            gp0_parameters: Vec::new(),
            gpu_read: 0,
            gpu_status: 0x1C00_0000,
            drawing_area: (zero, zero),
            drawing_offset: zero,
            display_range: (zero, zero),
            display_area_start: zero,
            tex_window: 0,
            cycle: 566_203 - 516_687,
            even_odd_frame: false,
            deferred: None,
        }
    }

    /// Advances the frame counter; at the end of a frame it wraps, flips the
    /// even/odd frame and requests VBLANK. Returns whether a frame ended.
    pub fn tick(&mut self, interrupt: &mut Interrupt, cop0: &mut SystemControl) -> (frame: bool)
        requires
            old(self).wf(),
        ensures
            final(self).wf(),
            frame == (old(self).cycle + 1 == FRAME_CYCLES),
            frame ==> final(self)@ == (GpuView { cycle: 0, even_odd_frame: !old(self).even_odd_frame, ..old(self)@ })
                && final(interrupt).I_STAT == old(interrupt).I_STAT | 1,
            !frame ==> final(self)@ == (GpuView { cycle: (old(self).cycle + 1) as usize, ..old(self)@ })
                && *final(interrupt) == *old(interrupt),
            final(interrupt).I_MASK == old(interrupt).I_MASK,
    {
        self.cycle = self.cycle + 1;
        if self.cycle == FRAME_CYCLES {
            self.cycle = 0;
            self.even_odd_frame = !self.even_odd_frame;
            interrupt.request(IRQ::VBLANK, cop0);
            return true;
        }
        false
    }

    /// GPUSTAT, with bit 31 showing the odd/even frame.
    pub fn read_gp1(&self) -> (r: u32)
        ensures
            r == (self.gpu_status & 0x7FFF_FFFF) | (if self.even_odd_frame { 0 } else { 0x8000_0000u32 }),
    {
        let bit: u32 = if self.even_odd_frame {
            0
        } else {
            0x8000_0000
        };
        (self.gpu_status & 0x7FFF_FFFF) | bit
    }
}

pub open spec fn texpage_status(s: u32, word: u32) -> u32 {
    (s & !0x7FFu32) | (word & 0x7FF)
}

pub open spec fn mask_status(s: u32, word: u32) -> u32 {
    (s & !0x1800u32) | ((word & 3) << 11u32)
}

/// GPUSTAT after GP1 0x08: horizontal resolution (bits 17-18 and 16), vertical
/// resolution, video mode, color depth, interlace and flip.
pub open spec fn mode_status(s: u32, w: u32) -> u32 {
    (s & !0x007F_4000u32) | ((w & 3) << 17u32) | (((w >> 2u32) & 1) << 19u32) | (((w >> 3u32) & 1)
        << 20u32) | (((w >> 4u32) & 1) << 21u32) | (((w >> 5u32) & 1) << 22u32) | (((w >> 6u32) & 1)
        << 16u32) | (((w >> 7u32) & 1) << 14u32)
}

/// A drawing-area corner: x in bits 0..=9, y in bits 10..=18.
pub open spec fn area_corner(word: u32) -> Vertex {
    Vertex { x: (word & 0x3FF) as i32, y: ((word >> 10u32) & 0x1FF) as i32 }
}

/// What GP1 0x10..=0x1F puts into the read latch.
pub open spec fn internal_register(v: GpuView, word: u32) -> u32 {
    let k = word & 7;
    if k == 2 {
        v.tex_window & 0x000F_FFFF
    } else if k == 3 {
        ((((v.drawing_area.0.y as u32) & 0x7FF) << 16u32) | ((v.drawing_area.0.x as u32) & 0x7FF))
            & 0x0007_FFFF
    } else if k == 4 {
        ((((v.drawing_area.1.y as u32) & 0x7FF) << 16u32) | ((v.drawing_area.1.x as u32) & 0x7FF))
            & 0x0007_FFFF
    } else if k == 5 {
        ((((v.drawing_offset.y as u32) & 0x7FF) << 16u32) | ((v.drawing_offset.x as u32) & 0x7FF))
            & 0x003F_FFFF
    } else {
        0
    }
}

/// The state after GP1 command `word`, for the commands that exist.
pub open spec fn gp1_effect(v: GpuView, word: u32) -> GpuView {
    let op = word >> 24u32;
    if op == 0x00 {
        reset_view(v)
    } else if op == 0x01 {
        GpuView { gp0_parameters: Seq::empty(), gp0_mode: GP0_State::CommandStart, ..v }
    } else if op == 0x02 {
        GpuView { gpu_status: v.gpu_status & !STATUS_IRQ, ..v }
    } else if op == 0x03 {
        GpuView { gpu_status: (v.gpu_status & !DISPLAY_DISABLE) | ((word & 1) << 23u32), ..v }
    } else if op == 0x04 {
        GpuView { gpu_status: (v.gpu_status & !0x6000_0000u32) | ((word & 3) << 29u32), ..v }
    } else if op == 0x05 {
        GpuView { display_area_start: area_corner(word), ..v }
    } else if op == 0x06 {
        GpuView {
            display_range: (
                Vertex { x: (word & 0xFFF) as i32, ..v.display_range.0 },
                Vertex { x: ((word >> 12u32) & 0xFFF) as i32, ..v.display_range.1 },
            ),
            ..v
        }
    } else if op == 0x07 {
        GpuView {
            display_range: (
                Vertex { y: (word & 0x3FF) as i32, ..v.display_range.0 },
                Vertex { y: (word & 0x3FF) as i32, ..v.display_range.1 },
            ),
            ..v
        }
    } else if op == 0x08 {
        GpuView { gpu_status: mode_status(v.gpu_status, word), ..v }
    } else {
        GpuView { gpu_read: v.gpu_read | internal_register(v, word), ..v }
    }
}

pub open spec fn gp1_known(word: u32) -> bool {
    word >> 24u32 <= 0x08 || (0x10 <= word >> 24u32 <= 0x1F)
}

impl GPU {
    pub fn set_texpage(&mut self, word: u32) -> (r: GP0_State)
        ensures
            r == GP0_State::CommandStart,
            final(self)@ == (GpuView { gpu_status: texpage_status(old(self).gpu_status, word), ..old(self)@ }),
    {
        self.gpu_status = (self.gpu_status & !0x7FFu32) | (word & 0x7FF);
        GP0_State::CommandStart
    }

    pub fn set_tex_window(&mut self, word: u32) -> (r: GP0_State)
        ensures
            r == GP0_State::CommandStart,
            final(self)@ == (GpuView { tex_window: word, ..old(self)@ }),
    {
        self.tex_window = word;
        GP0_State::CommandStart
    }

    pub fn set_drawing_area_top_left(&mut self, word: u32) -> (r: GP0_State)
        ensures
            r == GP0_State::CommandStart,
            final(self)@ == (GpuView {
                drawing_area: (area_corner(word), old(self).drawing_area.1),
                ..old(self)@
            }),
    {
        self.drawing_area = (
            Vertex { x: (word & 0x3FF) as i32, y: ((word >> 10u32) & 0x1FF) as i32 },
            self.drawing_area.1,
        );
        GP0_State::CommandStart
    }

    pub fn set_drawing_area_bottom_right(&mut self, word: u32) -> (r: GP0_State)
        ensures
            r == GP0_State::CommandStart,
            final(self)@ == (GpuView {
                drawing_area: (old(self).drawing_area.0, area_corner(word)),
                ..old(self)@
            }),
    {
        self.drawing_area = (
            self.drawing_area.0,
            Vertex { x: (word & 0x3FF) as i32, y: ((word >> 10u32) & 0x1FF) as i32 },
        );
        GP0_State::CommandStart
    }

    /// The drawing offset: signed 11-bit x in bits 0..=10, y in bits 11..=21.
    pub fn set_drawing_offset(&mut self, word: u32) -> (r: GP0_State)
        ensures
            r == GP0_State::CommandStart,
            final(self)@ == (GpuView {
                drawing_offset: Vertex { x: sign11(word & 0x7FF), y: sign11((word >> 11u32) & 0x7FF) },
                ..old(self)@
            }),
    {
        let x = word & 0x7FF;
        let y = (word >> 11u32) & 0x7FF;
        proof {
            lemma_field_bits(word);
            lemma_field_bits(word >> 11u32);
        }
        self.drawing_offset = Vertex { x: GPU::signed11(x), y: GPU::signed11(y) };
        GP0_State::CommandStart
    }

    pub fn set_mask_bit_setting(&mut self, word: u32) -> (r: GP0_State)
        ensures
            r == GP0_State::CommandStart,
            final(self)@ == (GpuView { gpu_status: mask_status(old(self).gpu_status, word), ..old(self)@ }),
    {
        self.gpu_status = (self.gpu_status & !0x1800u32) | ((word & 3) << 11u32);
        GP0_State::CommandStart
    }

    fn set_display_mode(&mut self, w: u32)
        ensures
            final(self)@ == (GpuView { gpu_status: mode_status(old(self).gpu_status, w), ..old(self)@ }),
    {
        self.gpu_status = (self.gpu_status & !0x007F_4000u32) | ((w & 3) << 17u32) | (((w >> 2u32) & 1)
            << 19u32) | (((w >> 3u32) & 1) << 20u32) | (((w >> 4u32) & 1) << 21u32) | (((w >> 5u32)
            & 1) << 22u32) | (((w >> 6u32) & 1) << 16u32) | (((w >> 7u32) & 1) << 14u32);
    }

    /// GP1 0x00: restarts the command state machine and zeroes the settings.
    pub fn reset_gpu(&mut self)
        ensures
            final(self)@ == reset_view(old(self)@),
            final(self).vram == old(self).vram,
    {
        let zero = Vertex { x: 0, y: 0 };
        self.gp0_parameters.clear();
        self.gp0_mode = GP0_State::CommandStart;
        let s = self.gpu_status;
        self.gpu_status = ((((s & !STATUS_IRQ) | DISPLAY_DISABLE) & !0x6000_0000u32) & !0x007F_4000u32)
            & !0x1FFFu32;
        assert(((((s & !STATUS_IRQ) | DISPLAY_DISABLE) & !0x6000_0000u32) & !0x007F_4000u32)
            & !0x1FFFu32 == (s & !RESET_CLEARED) | DISPLAY_DISABLE) by (bit_vector);
        self.display_area_start = zero;
        self.display_range = (zero, zero);
        self.tex_window = 0;
        self.drawing_area = (zero, zero);
        self.drawing_offset = zero;
        assert(self.gp0_parameters@ =~= Seq::<u32>::empty());
    }

    /// Runs a GP1 command; one with no handler is refused and nothing changes.
    pub fn write_gp1(&mut self, word: u32) -> (r: Result<(), GpuError>)
        requires
            old(self).wf(),
        ensures
            final(self).wf(),
            r.is_ok() <==> gp1_known(word),
            r.is_ok() ==> final(self)@ == gp1_effect(old(self)@, word),
            r.is_err() ==> r == Err::<(), GpuError>(GpuError::UnknownGp1(word)) && final(self)@
                == old(self)@,
    {
        let op = word >> 24u32;
        if op == 0x00 {
            self.reset_gpu();
        } else if op == 0x01 {
            self.gp0_parameters.clear();
            self.gp0_mode = GP0_State::CommandStart;
            assert(self.gp0_parameters@ =~= Seq::<u32>::empty());
        } else if op == 0x02 {
            self.gpu_status = self.gpu_status & !STATUS_IRQ;
        } else if op == 0x03 {
            self.gpu_status = (self.gpu_status & !DISPLAY_DISABLE) | ((word & 1) << 23u32);
        } else if op == 0x04 {
            self.gpu_status = (self.gpu_status & !0x6000_0000u32) | ((word & 3) << 29u32);
        } else if op == 0x05 {
            self.display_area_start = Vertex { x: (word & 0x3FF) as i32, y: ((word >> 10u32) & 0x1FF) as i32 };
        } else if op == 0x06 {
            self.display_range = (
                Vertex { x: (word & 0xFFF) as i32, ..self.display_range.0 },
                Vertex { x: ((word >> 12u32) & 0xFFF) as i32, ..self.display_range.1 },
            );
        } else if op == 0x07 {
            self.display_range = (
                Vertex { y: (word & 0x3FF) as i32, ..self.display_range.0 },
                Vertex { y: (word & 0x3FF) as i32, ..self.display_range.1 },
            );
        } else if op == 0x08 {
            self.set_display_mode(word);
        } else if 0x10 <= op && op <= 0x1F {
            self.read_internal_register(word);
        } else {
            return Err(GpuError::UnknownGp1(word));
        }
        Ok(())
    }

    fn read_internal_register(&mut self, word: u32)
        ensures
            final(self)@ == (GpuView { gpu_read: old(self).gpu_read | internal_register(old(self)@, word), ..old(self)@ }),
    {
        let k = word & 7;
        let value = if k == 2 {
            self.tex_window & 0x000F_FFFF
        } else if k == 3 {
            self.drawing_area.0.to_word() & 0x0007_FFFF
        } else if k == 4 {
            self.drawing_area.1.to_word() & 0x0007_FFFF
        } else if k == 5 {
            self.drawing_offset.to_word() & 0x003F_FFFF
        } else {
            0
        };
        self.gpu_read = self.gpu_read | value;
    }
}

/// VRAM after the first `n` pixels of a `w`-wide region at (dx, dy) are
/// copied, row-major, from the region at (sx, sy).
pub open spec fn vram_copied(vram: Seq<u8>, sx: int, sy: int, dx: int, dy: int, w: int, n: int) -> Seq<u8>
    decreases n,
{
    if n <= 0 {
        vram
    } else {
        let v = vram_copied(vram, sx, sy, dx, dy, w, n - 1);
        store16(v, blit_addr(dx, dy, w, n - 1), le16(v, blit_addr(sx, sy, w, n - 1)))
    }
}

/// A transfer region from its position and size words: sizes of 0 mean the
/// whole width (1024) or height (512).
pub open spec fn region_of(coords: u32, size: u32) -> BlitFields {
    let w = size & 0x3FF;
    let h = (size >> 16u32) & 0x1FF;
    BlitFields {
        vram_x: (coords & 0x3FF) as u16,
        vram_y: ((coords >> 16u32) & 0x1FF) as u16,
        width: if w == 0 { 1024 } else { w as u16 },
        height: if h == 0 { 512 } else { h as u16 },
        current_row: 0,
        current_col: 0,
    }
}

/// VRAM after one GP0 data word of a CPU-to-VRAM transfer at `f`: the low
/// halfword, then the high one unless the region is complete.
pub open spec fn cpu_word_written(vram: Seq<u8>, f: BlitFields, word: u32) -> Seq<u8> {
    let k = f.index();
    let x = f.vram_x as int;
    let y = f.vram_y as int;
    let w = f.width as int;
    let v1 = store16(vram, blit_addr(x, y, w, k), word as u16);
    if k + 1 == f.size() {
        v1
    } else {
        store16(v1, blit_addr(x, y, w, k + 1), (word >> 16u32) as u16)
    }
}

/// The transfer state after a word at `f`.
pub open spec fn after_word(f: BlitFields) -> Option<BlitFields> {
    if f.index() + 2 >= f.size() {
        None
    } else {
        Some(f.at(f.index() + 2))
    }
}

/// The word a VRAM-to-CPU read at `f` returns: two pixels, the second zero
/// when the region ends after the first.
pub open spec fn cpu_word_read(vram: Seq<u8>, f: BlitFields) -> u32 {
    let k = f.index();
    let x = f.vram_x as int;
    let y = f.vram_y as int;
    let w = f.width as int;
    let lo = le16(vram, blit_addr(x, y, w, k)) as u32;
    let hi: u32 = if k + 1 == f.size() {
        0
    } else {
        le16(vram, blit_addr(x, y, w, k + 1)) as u32
    };
    lo | (hi << 16u32)
}

proof fn lemma_next_position(k: int, w: int, h: int)
    requires
        0 <= k < w * h,
        w >= 1,
    ensures
        0 <= k / w < h,
        0 <= k % w < w,
{
    vstd::arithmetic::div_mod::lemma_fundamental_div_mod(k, w);
    assert(k / w < h) by (nonlinear_arith)
        requires
            k < w * h,
            w >= 1,
            k == w * (k / w) + k % w,
            0 <= k % w < w,
    ;
}

fn pixel_offset(x: u32, y: u32) -> (r: u32)
    requires
        x < 2048,
        y < 1024,
    ensures
        r == pixel_addr(x as int, y as int),
        r + 2 <= VRAM_SIZE,
{
    proof {
        lemma_mask_mod(x);
        lemma_mask_mod(y);
    }
    2 * (1024 * (y & 0x1FF) + (x & 0x3FF))
}

impl GPU {
    fn write_pixel_at(&mut self, f: BlitFields, k: u32, value: u16)
        requires
            old(self).wf(),
            f.wf(),
            k < f.size(),
        ensures
            final(self).wf(),
            final(self)@ == (GpuView {
                vram: store16(old(self).vram.data@, blit_addr(f.vram_x as int, f.vram_y as int, f.width as int, k as int), value),
                ..old(self)@
            }),
    {
        proof {
            lemma_step(f);
            lemma_blit_addr(f.vram_x as int, f.vram_y as int, f.width as int, k as int);
        }
        let w = f.width as u32;
        let row = k / w;
        let col = k % w;
        let a = pixel_offset(f.vram_x as u32 + col, f.vram_y as u32 + row);
        self.vram.write16(a, value);
    }

    fn read_pixel_at(&self, f: BlitFields, k: u32) -> (r: u16)
        requires
            self.wf(),
            f.wf(),
            k < f.size(),
        ensures
            r == le16(self.vram.data@, blit_addr(f.vram_x as int, f.vram_y as int, f.width as int, k as int)),
    {
        proof {
            lemma_step(f);
            lemma_blit_addr(f.vram_x as int, f.vram_y as int, f.width as int, k as int);
        }
        let w = f.width as u32;
        let row = k / w;
        let col = k % w;
        let a = pixel_offset(f.vram_x as u32 + col, f.vram_y as u32 + row);
        self.vram.read16(a)
    }

    /// Stores one data word of a CPU-to-VRAM transfer; returns the next state.
    pub fn process_cpu_vram_copy(&mut self, f: BlitFields, word: u32) -> (next: GP0_State)
        requires
            old(self).wf(),
            f.wf(),
        ensures
            final(self).wf(),
            final(self)@ == (GpuView { vram: cpu_word_written(old(self).vram.data@, f, word), ..old(self)@ }),
            next == match after_word(f) {
                Some(g) => GP0_State::ReceivingData(g),
                None => GP0_State::CommandStart,
            },
            next matches GP0_State::ReceivingData(g) ==> g.wf(),
    {
        proof {
            lemma_step(f);
        }
        let w = f.width as u32;
        let k = f.current_row as u32 * w + f.current_col as u32;
        let n = w * f.height as u32;
        self.write_pixel_at(f, k, word as u16);
        if k + 1 == n {
            return GP0_State::CommandStart;
        }
        self.write_pixel_at(f, k + 1, (word >> 16u32) as u16);
        if k + 2 == n {
            return GP0_State::CommandStart;
        }
        let g = BlitFields { current_row: ((k + 2) / w) as u16, current_col: ((k + 2) % w) as u16, ..f };
        proof {
            lemma_next_position(k as int + 2, w as int, f.height as int);
            assert(g == f.at(f.index() + 2));
        }
        GP0_State::ReceivingData(g)
    }

    /// Produces the next word of a VRAM-to-CPU transfer into the read latch.
    pub fn process_vram_cpu_copy(&mut self, f: BlitFields)
        requires
            old(self).wf(),
            f.wf(),
        ensures
            final(self).wf(),
            final(self)@ == (GpuView {
                gpu_read: cpu_word_read(old(self).vram.data@, f),
                gpu_read_transfer: after_word(f),
                gpu_status: if after_word(f).is_none() {
                    old(self).gpu_status & !STATUS_READ_READY
                } else {
                    old(self).gpu_status
                },
                ..old(self)@
            }),
    {
        proof {
            lemma_step(f);
        }
        let w = f.width as u32;
        let k = f.current_row as u32 * w + f.current_col as u32;
        let n = w * f.height as u32;
        let lo = self.read_pixel_at(f, k) as u32;
        let hi: u32 = if k + 1 == n {
            0
        } else {
            self.read_pixel_at(f, k + 1) as u32
        };
        self.gpu_read = lo | (hi << 16u32);
        if k + 2 >= n {
            self.gpu_read_transfer = None;
            self.gpu_status = self.gpu_status & !STATUS_READ_READY;
        } else {
            let g = BlitFields { current_row: ((k + 2) / w) as u16, current_col: ((k + 2) % w) as u16, ..f };
            proof {
                lemma_next_position(k as int + 2, w as int, f.height as int);
                assert(g == f.at(f.index() + 2));
            }
            self.gpu_read_transfer = Some(g);
        }
    }

    /// Reads GP0: the next word of a VRAM-to-CPU transfer when one is running,
    /// else the read latch.
    pub fn read_gp0(&mut self) -> (r: u32)
        requires
            old(self).wf(),
        ensures
            final(self).wf(),
            match old(self).gpu_read_transfer {
                Some(f) => r == cpu_word_read(old(self).vram.data@, f) && final(self)@ == (GpuView {
                    gpu_read: r,
                    gpu_read_transfer: after_word(f),
                    gpu_status: if after_word(f).is_none() {
                        old(self).gpu_status & !STATUS_READ_READY
                    } else {
                        old(self).gpu_status
                    },
                    ..old(self)@
                }),
                None => r == old(self).gpu_read && final(self)@ == old(self)@,
            },
    {
        match self.gpu_read_transfer {
            Some(f) => self.process_vram_cpu_copy(f),
            None => {},
        }
        self.gpu_read
    }

    /// Copies a region within VRAM, row-major, one halfword at a time.
    pub fn copy_vram(&mut self, src: BlitFields, dst: BlitFields)
        requires
            old(self).wf(),
            src.wf(),
            dst.wf(),
            src.width == dst.width,
            src.height == dst.height,
        ensures
            final(self).wf(),
            final(self)@ == (GpuView {
                vram: vram_copied(
                    old(self).vram.data@,
                    src.vram_x as int,
                    src.vram_y as int,
                    dst.vram_x as int,
                    dst.vram_y as int,
                    src.width as int,
                    src.size(),
                ),
                ..old(self)@
            }),
    {
        proof {
            lemma_step(src);
        }
        let n = src.width as u32 * src.height as u32;
        let mut k: u32 = 0;
        while k < n
            invariant
                self.wf(),
                src.wf(),
                dst.wf(),
                src.width == dst.width,
                src.height == dst.height,
                n == src.size(),
                k <= n,
                self@ == (GpuView {
                    vram: vram_copied(
                        old(self).vram.data@,
                        src.vram_x as int,
                        src.vram_y as int,
                        dst.vram_x as int,
                        dst.vram_y as int,
                        src.width as int,
                        k as int,
                    ),
                    ..old(self)@
                }),
            decreases n - k,
        {
            let v = self.read_pixel_at(src, k);
            self.write_pixel_at(dst, k, v);
            k = k + 1;
        }
    }
}

/// Twice the signed area of (a, b, c): positive when counter-clockwise in screen space.
pub open spec fn cross_z(a: Vertex, b: Vertex, c: Vertex) -> int {
    (b.x - a.x) * (c.y - a.y) - (b.y - a.y) * (c.x - a.x)
}

/// The edge test from `a` to `b`, with the top-left rule on the edge itself.
pub open spec fn edge_ok(a: Vertex, b: Vertex, p: Vertex) -> bool {
    let z = cross_z(a, b, p);
    z > 0 || (z == 0 && !(b.y > a.y) && !(b.y == a.y && b.x < a.x))
}

pub open spec fn inside(p: Vertex, v0: Vertex, v1: Vertex, v2: Vertex) -> bool {
    edge_ok(v0, v1, p) && edge_ok(v1, v2, p) && edge_ok(v2, v0, p)
}

pub open spec fn min3(a: i32, b: i32, c: i32) -> i32 {
    if a <= b && a <= c { a } else if b <= c { b } else { c }
}

pub open spec fn max3(a: i32, b: i32, c: i32) -> i32 {
    if a >= b && a >= c { a } else if b >= c { b } else { c }
}

/// The scan box: the triangle's bounds clamped to the drawing area, or empty.
pub open spec fn scan_box(v0: Vertex, v1: Vertex, v2: Vertex, tl: Vertex, br: Vertex) -> (i32, i32, i32, i32) {
    let lx = if min3(v0.x, v1.x, v2.x) >= tl.x { min3(v0.x, v1.x, v2.x) } else { tl.x };
    let hx = if max3(v0.x, v1.x, v2.x) <= br.x { max3(v0.x, v1.x, v2.x) } else { br.x };
    let ly = if min3(v0.y, v1.y, v2.y) >= tl.y { min3(v0.y, v1.y, v2.y) } else { tl.y };
    let hy = if max3(v0.y, v1.y, v2.y) <= br.y { max3(v0.y, v1.y, v2.y) } else { br.y };
    if lx > hx || ly > hy {
        (0, 0, 0, 0)
    } else {
        (lx, hx, ly, hy)
    }
}

/// The VRAM byte address a screen point lands on after the drawing offset.
pub open spec fn draw_addr(p: Vertex, off: Vertex) -> int {
    let x = (vstd::wrapping::i32_specs::wrapping_add(p.x, off.x) as u32) & 0x3FF;
    let y = (vstd::wrapping::i32_specs::wrapping_add(p.y, off.y) as u32) & 0x1FF;
    2 * (y as int * 1024 + x as int)
}

/// The triangle's vertices with the first two swapped when the winding is clockwise.
pub open spec fn wound(v0: Vertex, v1: Vertex, v2: Vertex) -> (Vertex, Vertex) {
    if cross_z(v0, v1, v2) < 0 {
        (v1, v0)
    } else {
        (v0, v1)
    }
}

/// VRAM after the first `t` points of the scan (columns left to right, each
/// top to bottom) over the box at (lx, ly) of height `h`: each point inside
/// the triangle takes the color of `word`, blended when bit 25 asks for it.
pub open spec fn painted(
    vram: Seq<u8>,
    lx: int,
    ly: int,
    h: int,
    v0: Vertex,
    v1: Vertex,
    v2: Vertex,
    off: Vertex,
    word: u32,
    status: u32,
    t: int,
) -> Seq<u8>
    decreases t,
{
    if t <= 0 || h <= 0 {
        vram
    } else {
        let prev = painted(vram, lx, ly, h, v0, v1, v2, off, word, status, t - 1);
        let p = Vertex { x: (lx + (t - 1) / h) as i32, y: (ly + (t - 1) % h) as i32 };
        if inside(p, v0, v1, v2) {
            let a = draw_addr(p, off);
            store16(prev, a, flat_pixel(le16(prev, a), word, status))
        } else {
            prev
        }
    }
}

/// VRAM after a flat triangle in `color` (a 24-bit word, red low).
pub open spec fn triangle_drawn(v: GpuView, v0: Vertex, v1: Vertex, v2: Vertex, color: u32) -> Seq<u8> {
    let (a, b) = wound(v0, v1, v2);
    let (lx, hx, ly, hy) = scan_box(a, b, v2, v.drawing_area.0, v.drawing_area.1);
    painted(v.vram, lx as int, ly as int, (hy - ly) as int, a, b, v2, v.drawing_offset, color, v.gpu_status, (hx - lx) * (hy - ly))
}

/// Screen coordinates are 11-bit signed values.
pub open spec fn screen_point(p: Vertex) -> bool {
    -0x400 <= p.x <= 0x3FF && -0x400 <= p.y <= 0x3FF
}

pub open spec fn area_point(p: Vertex) -> bool {
    0 <= p.x <= 0x3FF && 0 <= p.y <= 0x1FF
}

fn cross_i64(a: Vertex, b: Vertex, c: Vertex) -> (r: i64)
    requires
        screen_point(a),
        screen_point(b),
        screen_point(c),
    ensures
        r == cross_z(a, b, c),
{
    let dx1 = b.x as i64 - a.x as i64;
    let dy1 = b.y as i64 - a.y as i64;
    let dx2 = c.x as i64 - a.x as i64;
    let dy2 = c.y as i64 - a.y as i64;
    assert(-0x100_0000 <= dx1 * dy2 <= 0x100_0000) by (nonlinear_arith)
        requires -0x800 <= dx1 <= 0x800, -0x800 <= dy2 <= 0x800;
    assert(-0x100_0000 <= dy1 * dx2 <= 0x100_0000) by (nonlinear_arith)
        requires -0x800 <= dy1 <= 0x800, -0x800 <= dx2 <= 0x800;
    dx1 * dy2 - dy1 * dx2
}

fn edge_test(a: Vertex, b: Vertex, p: Vertex) -> (r: bool)
    requires
        screen_point(a),
        screen_point(b),
        screen_point(p),
    ensures
        r == edge_ok(a, b, p),
{
    let z = cross_i64(a, b, p);
    z > 0 || (z == 0 && !(b.y > a.y) && !(b.y == a.y && b.x < a.x))
}

impl Vertex {
    /// Whether this point is drawn as part of the triangle (v0, v1, v2), wound
    /// counter-clockwise.
    pub fn is_inside_triangle(&self, v0: Vertex, v1: Vertex, v2: Vertex) -> (r: bool)
        requires
            screen_point(*self),
            screen_point(v0),
            screen_point(v1),
            screen_point(v2),
        ensures
            r == inside(*self, v0, v1, v2),
    {
        edge_test(v0, v1, *self) && edge_test(v1, v2, *self) && edge_test(v2, v0, *self)
    }
}

/// The scan box of a triangle: its bounds clamped to the drawing area, or
/// empty (all zero) when they do not meet.
pub fn scan_bounds(a: Vertex, b: Vertex, v2: Vertex, tl: Vertex, br: Vertex) -> (r: (i32, i32, i32, i32))
    requires
        screen_point(a) && screen_point(b) && screen_point(v2),
        area_point(tl) && area_point(br),
    ensures
        r == scan_box(a, b, v2, tl, br),
        r.0 <= r.1 && r.2 <= r.3,
        -0x400 <= r.0 && r.1 <= 0x3FF && -0x400 <= r.2 && r.3 <= 0x3FF,
{
    let min_x = if a.x <= b.x && a.x <= v2.x { a.x } else if b.x <= v2.x { b.x } else { v2.x };
    let max_x = if a.x >= b.x && a.x >= v2.x { a.x } else if b.x >= v2.x { b.x } else { v2.x };
    let min_y = if a.y <= b.y && a.y <= v2.y { a.y } else if b.y <= v2.y { b.y } else { v2.y };
    let max_y = if a.y >= b.y && a.y >= v2.y { a.y } else if b.y >= v2.y { b.y } else { v2.y };
    let lx0 = if min_x >= tl.x { min_x } else { tl.x };
    let hx0 = if max_x <= br.x { max_x } else { br.x };
    let ly0 = if min_y >= tl.y { min_y } else { tl.y };
    let hy0 = if max_y <= br.y { max_y } else { br.y };
    if lx0 > hx0 || ly0 > hy0 {
        (0i32, 0i32, 0i32, 0i32)
    } else {
        (lx0, hx0, ly0, hy0)
    }
}

proof fn lemma_scan_index(t: int, h: int, i: int, j: int)
    requires
        h > 0,
        0 <= j < h,
        0 <= i,
        t == i * h + j,
    ensures
        t / h == i,
        t % h == j,
{
    vstd::arithmetic::div_mod::lemma_fundamental_div_mod_converse(t, h, i, j);
}

impl GPU {
    fn write_monochrome_tri(&mut self, v0: Vertex, v1: Vertex, v2: Vertex, color: u32)
        requires
            old(self).wf(),
            screen_point(v0),
            screen_point(v1),
            screen_point(v2),
            area_point(old(self).drawing_area.0),
            area_point(old(self).drawing_area.1),
            screen_point(old(self).drawing_offset),
        ensures
            final(self).wf(),
            final(self)@ == (GpuView { vram: triangle_drawn(old(self)@, v0, v1, v2, color), ..old(self)@ }),
    {
        let swap = cross_i64(v0, v1, v2) < 0;
        let a = if swap { v1 } else { v0 };
        let b = if swap { v0 } else { v1 };
        let (lx, hx, ly, hy) = scan_bounds(a, b, v2, self.drawing_area.0, self.drawing_area.1);
        let off = self.drawing_offset;
        self.scan_triangle(a, b, v2, lx, hx, ly, hy, off, color);
    }

    fn scan_triangle(&mut self, a: Vertex, b: Vertex, v2: Vertex, lx: i32, hx: i32, ly: i32, hy: i32, off: Vertex, c: u32)
        requires
            old(self).wf(),
            lx <= hx,
            ly <= hy,
            -0x400 <= lx && hx <= 0x3FF && -0x400 <= ly && hy <= 0x3FF,
            screen_point(a) && screen_point(b) && screen_point(v2) && screen_point(off),
        ensures
            final(self).wf(),
            final(self)@ == (GpuView {
                vram: painted(old(self).vram.data@, lx as int, ly as int, (hy - ly) as int, a, b, v2, off, c, old(self).gpu_status, (hx - lx) * (hy - ly)),
                ..old(self)@
            }),
    {
        let ghost h = (hy - ly) as int;
        let ghost old_vram = self.vram.data@;
        let mut x = lx;
        assert((x - lx) * h == 0);
        assert(painted(old_vram, lx as int, ly as int, h, a, b, v2, off, c, self.gpu_status, 0) == old_vram);
        while x < hx
            invariant
                self.wf(),
                lx <= x <= hx,
                ly <= hy,
                -0x400 <= lx && hx <= 0x3FF && -0x400 <= ly && hy <= 0x3FF,
                h == hy - ly,
                screen_point(a) && screen_point(b) && screen_point(v2) && screen_point(off),
                self@ == (GpuView {
                    vram: painted(old_vram, lx as int, ly as int, h, a, b, v2, off, c, old(self).gpu_status, (x - lx) * h),
                    ..old(self)@
                }),
            decreases hx - x,
        {
            self.scan_column(a, b, v2, lx, x, ly, hy, off, c, Ghost(old_vram));
            assert((x - lx) * h + h == (x + 1 - lx) * h) by (nonlinear_arith);
            x = x + 1;
        }
    }

    fn scan_column(&mut self, a: Vertex, b: Vertex, v2: Vertex, lx: i32, x: i32, ly: i32, hy: i32, off: Vertex, c: u32, base: Ghost<Seq<u8>>)
        requires
            old(self).wf(),
            lx <= x,
            ly <= hy,
            -0x400 <= lx && x <= 0x3FF && -0x400 <= ly && hy <= 0x3FF,
            screen_point(a) && screen_point(b) && screen_point(v2) && screen_point(off),
            old(self).vram.data@ == painted(base@, lx as int, ly as int, (hy - ly) as int, a, b, v2, off, c, old(self).gpu_status, (x - lx) * (hy - ly)),
        ensures
            final(self).wf(),
            final(self)@ == (GpuView {
                vram: painted(base@, lx as int, ly as int, (hy - ly) as int, a, b, v2, off, c, old(self).gpu_status, (x - lx) * (hy - ly) + (hy - ly)),
                ..old(self)@
            }),
    {
        let ghost h = (hy - ly) as int;
        let mut y = ly;
        while y < hy
            invariant
                self.wf(),
                lx <= x,
                ly <= y <= hy,
                -0x400 <= lx && x <= 0x3FF && -0x400 <= ly && hy <= 0x3FF,
                h == hy - ly,
                screen_point(a) && screen_point(b) && screen_point(v2) && screen_point(off),
                self@ == (GpuView {
                    vram: painted(base@, lx as int, ly as int, h, a, b, v2, off, c, old(self).gpu_status, (x - lx) * h + (y - ly)),
                    ..old(self)@
                }),
            decreases hy - y,
        {
            let p = Vertex { x, y };
            proof {
                lemma_scan_index((x - lx) * h + (y - ly), h, (x - lx) as int, (y - ly) as int);
            }
            if p.is_inside_triangle(a, b, v2) {
                let sx = x.wrapping_add(off.x) as u32;
                let sy = y.wrapping_add(off.y) as u32;
                proof {
                    lemma_mask_mod(sx);
                    lemma_mask_mod(sy);
                }
                let px = sx & 0x3FF;
                let py = sy & 0x1FF;
                let addr = 2 * (py * 1024 + px);
                let value = self.shade_flat(c, addr);
                self.vram.write16(addr, value);
            }
            y = y + 1;
        }
    }
}

proof fn lemma_field_ranges(w: u32)
    ensures
        w & 0x3FF <= 0x3FF,
        (w >> 10u32) & 0x1FF <= 0x1FF,
        -0x400 <= sign11(w & 0x7FF) <= 0x3FF,
        -0x400 <= sign11((w >> 11u32) & 0x7FF) <= 0x3FF,
        -0x400 <= sign11((w >> 16u32) & 0x7FF) <= 0x3FF,
{
    lemma_field_bits(w);
    lemma_field_bits(w >> 11u32);
    lemma_field_bits(w >> 16u32);
}

proof fn lemma_field_bits(w: u32)
    by (bit_vector)
    ensures
        w & 0x3FF <= 0x3FF,
        (w >> 10u32) & 0x1FF <= 0x1FF,
        w & 0x7FF <= 0x7FF,
        (w & 0x7FF) & 0x400 != 0 ==> 0x400 <= (w & 0x7FF),
        (w & 0x7FF) & 0x400 == 0 ==> (w & 0x7FF) <= 0x3FF,
{
}

proof fn lemma_quad_word(w: u32)
    by (bit_vector)
    ensures
        w >> 24u32 == 0x28 || w >> 24u32 == 0x2A ==> w & 0x0800_0000 != 0 && w & 0x1000_0000 == 0
            && w & 0x0400_0000 == 0,
        w >> 24u32 == 0x60 || w >> 24u32 == 0x62 ==> w & 0x0400_0000 == 0 && w & 0x1800_0000 == 0,
        w >> 24u32 == 0x64 || w >> 24u32 == 0x65 ==> w & 0x0400_0000 != 0 && w & 0x1800_0000 == 0,
        w >> 24u32 == 0x74 || w >> 24u32 == 0x75 || w >> 24u32 == 0x7C || w >> 24u32 == 0x7D ==> w
            & 0x0400_0000 != 0 && w & 0x1800_0000 != 0,
        w >> 24u32 == 0x40 || w >> 24u32 == 0x42 ==> w & 0x1000_0000 == 0,
{
}

/// Parameter words a polygon command takes: vertices, colors after the first, texture words.
pub open spec fn polygon_words(word: u32) -> usize {
    let vertices: int = if word & 0x0800_0000 != 0 { 4 } else { 3 };
    let colors: int = if word & 0x1000_0000 != 0 { vertices - 1 } else { 0 };
    let textures: int = if word & 0x0400_0000 != 0 { vertices } else { 0 };
    (vertices + colors + textures) as usize
}

pub open spec fn rectangle_words(word: u32) -> usize {
    (1 + (if word & 0x0400_0000 != 0 { 1int } else { 0 }) + (if word & 0x1800_0000 == 0 { 1int } else { 0 })) as usize
}

/// The state a command word starts, for the commands that take parameters or data.
pub open spec fn started(word: u32) -> GP0_State {
    let op = word >> 29u32;
    if op == 1 {
        GP0_State::ReceivingParameters { idx: 1, expected: polygon_words(word), command: ParametrizedCommand::Polygon(word) }
    } else if op == 2 {
        if word & 0x0800_0000 != 0 {
            GP0_State::ReceivingPolyLineParameters { color_word: false, gouraud: word & 0x1000_0000 != 0, command: ParametrizedCommand::Line(word) }
        } else {
            GP0_State::ReceivingParameters {
                idx: 1,
                expected: if word & 0x1000_0000 != 0 { 3 } else { 2 },
                command: ParametrizedCommand::Line(word),
            }
        }
    } else if op == 3 {
        GP0_State::ReceivingParameters { idx: 1, expected: rectangle_words(word), command: ParametrizedCommand::Rectangle(word) }
    } else if op == 4 {
        GP0_State::ReceivingParameters { idx: 1, expected: 3, command: ParametrizedCommand::VRAM_VRAM_Copy }
    } else if op == 5 {
        GP0_State::ReceivingParameters { idx: 1, expected: 2, command: ParametrizedCommand::CPU_VRAM_Copy }
    } else if op == 6 {
        GP0_State::ReceivingParameters { idx: 1, expected: 2, command: ParametrizedCommand::VRAM_CPU_Copy }
    } else if word >> 24u32 == 0x02 {
        GP0_State::ReceivingParameters { idx: 1, expected: 2, command: ParametrizedCommand::Fill(word) }
    } else {
        GP0_State::CommandStart
    }
}

/// The state after an environment or IRQ command word (top byte 0x1F, 0xE1..=0xE6).
pub open spec fn environment(v: GpuView, word: u32) -> GpuView {
    let op = word >> 24u32;
    if op == 0x1F {
        GpuView { gpu_status: v.gpu_status | STATUS_IRQ, ..v }
    } else if op == 0xE1 {
        GpuView { gpu_status: texpage_status(v.gpu_status, word), ..v }
    } else if op == 0xE2 {
        GpuView { tex_window: word, ..v }
    } else if op == 0xE3 {
        GpuView { drawing_area: (area_corner(word), v.drawing_area.1), ..v }
    } else if op == 0xE4 {
        GpuView { drawing_area: (v.drawing_area.0, area_corner(word)), ..v }
    } else if op == 0xE5 {
        GpuView { drawing_offset: Vertex { x: sign11(word & 0x7FF), y: sign11((word >> 11u32) & 0x7FF) }, ..v }
    } else if op == 0xE6 {
        GpuView { gpu_status: mask_status(v.gpu_status, word), ..v }
    } else {
        v
    }
}

pub open spec fn vertex_of_word(word: u32) -> Vertex {
    Vertex { x: sign11(word & 0x7FF), y: sign11((word >> 16u32) & 0x7FF) }
}

/// VRAM after a `w` × `h` region at (x, y) takes one color.
pub open spec fn filled_at(vram: Seq<u8>, color: u32, x: int, y: int, w: int, h: int) -> Seq<u8> {
    blit_written(vram, x, y, w, Seq::new((w * h) as nat, |k: int| compressed(color)))
}

/// VRAM after a fill of the region given by a position and a size word.
pub open spec fn filled(vram: Seq<u8>, color: u32, pos: u32, size: u32) -> Seq<u8> {
    filled_at(vram, color, (pos & 0x3FF) as int, ((pos >> 16u32) & 0x1FF) as int, (size & 0x3FF) as int, ((size >> 16u32) & 0x1FF) as int)
}

/// VRAM after a flat rectangle of `w` × `h` at vertex word `pos`, moved by the drawing offset.
pub open spec fn rectangle_drawn(v: GpuView, color: u32, pos: u32, w: int, h: int) -> Seq<u8> {
    let q = vertex_of_word(pos);
    let x = (vstd::wrapping::i32_specs::wrapping_add(q.x, v.drawing_offset.x) as u32) & 0x3FF;
    let y = (vstd::wrapping::i32_specs::wrapping_add(q.y, v.drawing_offset.y) as u32) & 0x1FF;
    filled_at(v.vram, color, x as int, y as int, w, h)
}

/// The parameter words each command takes.
pub open spec fn required_words(c: ParametrizedCommand) -> usize {
    match c {
        ParametrizedCommand::CPU_VRAM_Copy => 2,
        ParametrizedCommand::VRAM_CPU_Copy => 2,
        ParametrizedCommand::VRAM_VRAM_Copy => 3,
        ParametrizedCommand::Fill(_) => 2,
        ParametrizedCommand::Polygon(w) => polygon_words(w),
        ParametrizedCommand::Rectangle(w) => rectangle_words(w),
        ParametrizedCommand::Line(w) => if w & 0x1000_0000 != 0 { 3 } else { 2 },
    }
}

/// Whether a parameterized command is drawn here.
pub open spec fn drawable(c: ParametrizedCommand) -> bool {
    match c {
        ParametrizedCommand::Polygon(w) => w >> 24u32 == 0x20 || w >> 24u32 == 0x28 || w >> 24u32
            == 0x22 || w >> 24u32 == 0x2A,
        ParametrizedCommand::Rectangle(w) => w >> 24u32 == 0x68 || w >> 24u32 == 0x60 || w >> 24u32
            == 0x70 || w >> 24u32 == 0x78 || textured_rect(w) || blended_rect(w),
        ParametrizedCommand::Line(w) => w >> 24u32 == 0x40 || w >> 24u32 == 0x42,
        _ => true,
    }
}

/// The state after a command runs on its parameter words `p` (which then
/// leave the FIFO); commands not drawn here leave VRAM as it was.
pub open spec fn dispatched(v0: GpuView, c: ParametrizedCommand, p: Seq<u32>) -> GpuView {
    let v = GpuView { gp0_parameters: Seq::empty(), gp0_mode: GP0_State::CommandStart, ..v0 };
    match c {
        ParametrizedCommand::CPU_VRAM_Copy => GpuView { gp0_mode: GP0_State::ReceivingData(region_of(p[0], p[1])), ..v },
        ParametrizedCommand::VRAM_CPU_Copy => GpuView {
            gpu_read_transfer: Some(region_of(p[0], p[1])),
            gpu_status: v.gpu_status | STATUS_READ_READY,
            ..v
        },
        ParametrizedCommand::VRAM_VRAM_Copy => {
            let src = region_of(p[0], p[2]);
            let dst = region_of(p[1], p[2]);
            GpuView {
                vram: vram_copied(v.vram, src.vram_x as int, src.vram_y as int, dst.vram_x as int, dst.vram_y as int, src.width as int, src.size()),
                ..v
            }
        },
        ParametrizedCommand::Fill(w) => GpuView { vram: filled(v.vram, w, p[0], p[1]), ..v },
        ParametrizedCommand::Polygon(w) => if w >> 24u32 == 0x20 || w >> 24u32 == 0x22 {
            GpuView { vram: triangle_drawn(v, vertex_of_word(p[0]), vertex_of_word(p[1]), vertex_of_word(p[2]), w), ..v }
        } else if w >> 24u32 == 0x28 || w >> 24u32 == 0x2A {
            let first = GpuView { vram: triangle_drawn(v, vertex_of_word(p[0]), vertex_of_word(p[1]), vertex_of_word(p[2]), w), ..v };
            GpuView { vram: triangle_drawn(first, vertex_of_word(p[1]), vertex_of_word(p[2]), vertex_of_word(p[3]), w), ..first }
        } else {
            GpuView { deferred: Some((w, p)), ..v }
        },
        ParametrizedCommand::Rectangle(w) => if w >> 24u32 == 0x68 {
            let q = vertex_of_word(p[0]);
            GpuView { vram: store16(v.vram, draw_addr(q, v.drawing_offset), compressed(w)), ..v }
        } else if w >> 24u32 == 0x60 {
            GpuView { vram: rectangle_drawn(v, w, p[0], (p[1] & 0x3FF) as int, ((p[1] >> 16u32) & 0x1FF) as int), ..v }
        } else if w >> 24u32 == 0x70 {
            GpuView { vram: rectangle_drawn(v, w, p[0], 8, 8), ..v }
        } else if w >> 24u32 == 0x78 {
            GpuView { vram: rectangle_drawn(v, w, p[0], 16, 16), ..v }
        } else if w >> 24u32 == 0x62 {
            GpuView { vram: blended_rectangle_drawn(v, w, p[0], (p[1] & 0x3FF) as int, ((p[1] >> 16u32) & 0x1FF) as int), ..v }
        } else if w >> 24u32 == 0x6A {
            GpuView { vram: blended_rectangle_drawn(v, w, p[0], 1, 1), ..v }
        } else if w >> 24u32 == 0x72 {
            GpuView { vram: blended_rectangle_drawn(v, w, p[0], 8, 8), ..v }
        } else if w >> 24u32 == 0x7A {
            GpuView { vram: blended_rectangle_drawn(v, w, p[0], 16, 16), ..v }
        } else if w >> 24u32 == 0x64 || w >> 24u32 == 0x65 {
            GpuView { vram: textured_rectangle_drawn(v, w, p[0], p[1], (p[2] & 0x3FF) as int, ((p[2] >> 16u32) & 0x1FF) as int), ..v }
        } else if w >> 24u32 == 0x74 || w >> 24u32 == 0x75 {
            GpuView { vram: textured_rectangle_drawn(v, w, p[0], p[1], 8, 8), ..v }
        } else if w >> 24u32 == 0x7C || w >> 24u32 == 0x7D {
            GpuView { vram: textured_rectangle_drawn(v, w, p[0], p[1], 16, 16), ..v }
        } else {
            GpuView { deferred: Some((w, p)), ..v }
        },
        ParametrizedCommand::Line(w) => if w >> 24u32 == 0x40 || w >> 24u32 == 0x42 {
            GpuView { vram: line_drawn(v, w, vertex_of_word(p[0]), vertex_of_word(p[1])), ..v }
        } else {
            GpuView { deferred: Some((w, p)), ..v }
        },
    }
}

/// The GP0 state machine: the state after `word`, and whether the word
/// completed a command not drawn here.
pub open spec fn gp0_written(v: GpuView, word: u32) -> (GpuView, bool) {
    match v.gp0_mode {
        GP0_State::CommandStart => {
            let cleared = GpuView { gp0_parameters: Seq::empty(), ..v };
            let st = started(word);
            if st is CommandStart {
                (environment(cleared, word), false)
            } else {
                (GpuView { gp0_mode: st, ..cleared }, false)
            }
        },
        GP0_State::ReceivingParameters { idx, expected, command } => {
            let p = v.gp0_parameters.push(word);
            if idx == expected {
                (dispatched(v, command, p), !drawable(command))
            } else {
                (GpuView { gp0_parameters: p, gp0_mode: GP0_State::ReceivingParameters { idx: (idx + 1) as usize, expected, command }, ..v }, false)
            }
        },
        GP0_State::ReceivingPolyLineParameters { color_word, gouraud, command } => {
            if (color_word || !gouraud) && word & 0xF000_F000 == 0x5000_5000 {
                let w = match command {
                    ParametrizedCommand::Line(w) => w,
                    _ => 0,
                };
                if w >> 24u32 == 0x48 || w >> 24u32 == 0x4A {
                    (GpuView {
                        vram: polyline_drawn(v, w, v.gp0_parameters, v.gp0_parameters.len() - 1),
                        gp0_parameters: Seq::empty(),
                        gp0_mode: GP0_State::CommandStart,
                        ..v
                    }, false)
                } else {
                    (GpuView {
                        gp0_parameters: Seq::empty(),
                        gp0_mode: GP0_State::CommandStart,
                        deferred: Some((w, v.gp0_parameters)),
                        ..v
                    }, true)
                }
            } else {
                (GpuView {
                    gp0_parameters: v.gp0_parameters.push(word),
                    gp0_mode: GP0_State::ReceivingPolyLineParameters { color_word: !color_word && gouraud, gouraud, command },
                    ..v
                }, false)
            }
        },
        GP0_State::ReceivingData(f) => (GpuView {
            vram: cpu_word_written(v.vram, f, word),
            gp0_mode: match after_word(f) {
                Some(g) => GP0_State::ReceivingData(g),
                None => GP0_State::CommandStart,
            },
            ..v
        }, false),
        GP0_State::SendingData(_) => (v, false),
    }
}

impl GPU {
    /// Fills a region with a color; a width or height of 0 fills nothing.
    pub fn quick_fill(&mut self, color: u32, pos: u32, size: u32)
        requires
            old(self).wf(),
        ensures
            final(self).wf(),
            final(self)@ == (GpuView { vram: filled(old(self).vram.data@, color, pos, size), ..old(self)@ }),
    {
        proof {
            lemma_mask_mod(size);
            lemma_mask_mod(size >> 16u32);
            lemma_mask_mod(pos);
            lemma_mask_mod(pos >> 16u32);
        }
        self.fill_at(color, pos & 0x3FF, (pos >> 16u32) & 0x1FF, size & 0x3FF, (size >> 16u32) & 0x1FF);
    }

    fn fill_at(&mut self, color: u32, x: u32, y: u32, w: u32, h: u32)
        requires
            old(self).wf(),
            x < 1024,
            y < 512,
            w <= 1024,
            h <= 512,
        ensures
            final(self).wf(),
            final(self)@ == (GpuView { vram: filled_at(old(self).vram.data@, color, x as int, y as int, w as int, h as int), ..old(self)@ }),
    {
        let c = Color::compress_color_depth(color);
        let ghost data = Seq::new((w * h) as nat, |k: int| compressed(color));
        if w == 0 || h == 0 {
            assert(data.len() == 0) by (nonlinear_arith)
                requires
                    w == 0 || h == 0,
                    data.len() == w * h,
            ;
            assert(data =~= Seq::<u16>::empty());
            return;
        }
        let f = BlitFields { vram_x: x as u16, vram_y: y as u16, width: w as u16, height: h as u16, current_row: 0, current_col: 0 };
        proof {
            lemma_step(f);
        }
        let n = w * h;
        let mut k: u32 = 0;
        assert(data.take(0) =~= Seq::<u16>::empty());
        while k < n
            invariant
                self.wf(),
                f.wf(),
                n == f.size(),
                n == data.len(),
                k <= n,
                c == compressed(color),
                data == Seq::new((w * h) as nat, |k: int| compressed(color)),
                f.vram_x == x && f.vram_y == y && f.width == w,
                self@ == (GpuView {
                    vram: blit_written(old(self).vram.data@, x as int, y as int, w as int, data.take(k as int)),
                    ..old(self)@
                }),
            decreases n - k,
        {
            self.write_pixel_at(f, k, c);
            assert(data.take(k + 1).take(k as int) =~= data.take(k as int));
            k = k + 1;
        }
        assert(data.take(n as int) =~= data);
    }

    fn draw_rectangle(&mut self, color: u32, pos: u32, w: u32, h: u32)
        requires
            old(self).wf(),
            w <= 1024,
            h <= 512,
        ensures
            final(self).wf(),
            final(self)@ == (GpuView { vram: rectangle_drawn(old(self)@, color, pos, w as int, h as int), ..old(self)@ }),
    {
        let q = Vertex::from_word(pos);
        let off = self.drawing_offset;
        let sx = q.x.wrapping_add(off.x) as u32;
        let sy = q.y.wrapping_add(off.y) as u32;
        proof {
            lemma_mask_mod(sx);
            lemma_mask_mod(sy);
        }
        self.fill_at(color, sx & 0x3FF, sy & 0x1FF, w, h);
    }

    fn draw_point(&mut self, color: u32, word: u32)
        requires
            old(self).wf(),
        ensures
            final(self).wf(),
            final(self)@ == (GpuView {
                vram: store16(old(self).vram.data@, draw_addr(vertex_of_word(word), old(self).drawing_offset), compressed(color)),
                ..old(self)@
            }),
    {
        let q = Vertex::from_word(word);
        let off = self.drawing_offset;
        let sx = q.x.wrapping_add(off.x) as u32;
        let sy = q.y.wrapping_add(off.y) as u32;
        proof {
            lemma_mask_mod(sx);
            lemma_mask_mod(sy);
        }
        let c = Color::compress_color_depth(color);
        self.vram.write16(2 * ((sy & 0x1FF) * 1024 + (sx & 0x3FF)), c);
    }

    fn dispatch(&mut self, command: ParametrizedCommand, p: Vec<u32>) -> (r: Result<(), GpuError>)
        requires
            old(self).wf(),
            p@.len() >= 1,
            command is CPU_VRAM_Copy || command is VRAM_CPU_Copy || command is Fill ==> p@.len() >= 2,
            command is VRAM_VRAM_Copy ==> p@.len() >= 3,
            command matches ParametrizedCommand::Polygon(w) ==> p@.len() == polygon_words(w),
            command matches ParametrizedCommand::Rectangle(w) ==> p@.len() == rectangle_words(w),
            command matches ParametrizedCommand::Line(w) ==> p@.len() == (if w & 0x1000_0000 != 0 { 3int } else { 2 }),
        ensures
            final(self).wf(),
            final(self)@ == dispatched(old(self)@, command, p@),
            r.is_err() == !drawable(command),
    {
        self.gp0_parameters.clear();
        self.gp0_mode = GP0_State::CommandStart;
        assert(self.gp0_parameters@ =~= Seq::<u32>::empty());
        match command {
            ParametrizedCommand::CPU_VRAM_Copy => {
                let f = GPU::region(p[0], p[1]);
                self.gp0_mode = GP0_State::ReceivingData(f);
                Ok(())
            },
            ParametrizedCommand::VRAM_CPU_Copy => {
                let f = GPU::region(p[0], p[1]);
                self.gpu_read_transfer = Some(f);
                self.gpu_status = self.gpu_status | STATUS_READ_READY;
                Ok(())
            },
            ParametrizedCommand::VRAM_VRAM_Copy => {
                let src = GPU::region(p[0], p[2]);
                let dst = GPU::region(p[1], p[2]);
                self.copy_vram(src, dst);
                Ok(())
            },
            ParametrizedCommand::Fill(w) => {
                self.quick_fill(w, p[0], p[1]);
                Ok(())
            },
            ParametrizedCommand::Polygon(w) => {
                let op = w >> 24u32;
                if op == 0x20 || op == 0x28 || op == 0x22 || op == 0x2A {
                    assert(polygon_words(w) >= 3);
                    proof {
                        lemma_field_ranges(p[0]);
                        lemma_field_ranges(p[1]);
                        lemma_field_ranges(p[2]);
                    }
                    let v0 = Vertex::from_word(p[0]);
                    let v1 = Vertex::from_word(p[1]);
                    let v2 = Vertex::from_word(p[2]);
                    self.write_monochrome_tri(v0, v1, v2, w);
                    if op == 0x28 || op == 0x2A {
                        proof {
                            lemma_quad_word(w);
                            lemma_field_ranges(p[3]);
                        }
                        let v3 = Vertex::from_word(p[3]);
                        self.write_monochrome_tri(v1, v2, v3, w);
                    }
                    Ok(())
                } else {
                    self.deferred = Some((w, p));
                    Err(GpuError::Unsupported(w))
                }
            },
            ParametrizedCommand::Rectangle(w) => {
                let op = w >> 24u32;
                if op == 0x68 {
                    self.draw_point(w, p[0]);
                    Ok(())
                } else if op == 0x60 {
                    proof {
                        lemma_quad_word(w);
                        lemma_mask_mod(p[1]);
                        lemma_mask_mod(p[1] >> 16u32);
                    }
                    self.draw_rectangle(w, p[0], p[1] & 0x3FF, (p[1] >> 16u32) & 0x1FF);
                    Ok(())
                } else if op == 0x70 {
                    self.draw_rectangle(w, p[0], 8, 8);
                    Ok(())
                } else if op == 0x78 {
                    self.draw_rectangle(w, p[0], 16, 16);
                    Ok(())
                } else if op == 0x62 {
                    proof {
                        lemma_quad_word(w);
                        lemma_mask_mod(p[1]);
                        lemma_mask_mod(p[1] >> 16u32);
                    }
                    self.draw_blended_rectangle(w, p[0], p[1] & 0x3FF, (p[1] >> 16u32) & 0x1FF);
                    Ok(())
                } else if op == 0x6A || op == 0x72 || op == 0x7A {
                    let size: u32 = if op == 0x6A { 1 } else if op == 0x72 { 8 } else { 16 };
                    self.draw_blended_rectangle(w, p[0], size, size);
                    Ok(())
                } else if op == 0x64 || op == 0x65 {
                    proof {
                        lemma_quad_word(w);
                        lemma_mask_mod(p[2]);
                        lemma_mask_mod(p[2] >> 16u32);
                    }
                    self.draw_textured_rectangle(w, p[0], p[1], p[2] & 0x3FF, (p[2] >> 16u32) & 0x1FF);
                    Ok(())
                } else if op == 0x74 || op == 0x75 || op == 0x7C || op == 0x7D {
                    proof {
                        lemma_quad_word(w);
                    }
                    let size: u32 = if op == 0x74 || op == 0x75 { 8 } else { 16 };
                    self.draw_textured_rectangle(w, p[0], p[1], size, size);
                    Ok(())
                } else {
                    self.deferred = Some((w, p));
                    Err(GpuError::Unsupported(w))
                }
            },
            ParametrizedCommand::Line(w) => {
                let op = w >> 24u32;
                if op == 0x40 || op == 0x42 {
                    proof {
                        lemma_quad_word(w);
                        lemma_field_ranges(p[0]);
                        lemma_field_ranges(p[1]);
                    }
                    let a = Vertex::from_word(p[0]);
                    let b = Vertex::from_word(p[1]);
                    self.draw_line(w, a, b);
                    Ok(())
                } else {
                    self.deferred = Some((w, p));
                    Err(GpuError::Unsupported(w))
                }
            },
        }
    }

    fn region(coords: u32, size: u32) -> (f: BlitFields)
        ensures
            f == region_of(coords, size),
            f.wf(),
    {
        proof {
            lemma_mask_mod(coords);
            lemma_mask_mod(coords >> 16u32);
            lemma_mask_mod(size);
            lemma_mask_mod(size >> 16u32);
        }
        let w = size & 0x3FF;
        let h = (size >> 16u32) & 0x1FF;
        BlitFields {
            vram_x: (coords & 0x3FF) as u16,
            vram_y: ((coords >> 16u32) & 0x1FF) as u16,
            width: if w == 0 {
                1024
            } else {
                w as u16
            },
            height: if h == 0 {
                512
            } else {
                h as u16
            },
            current_row: 0,
            current_col: 0,
        }
    }
}

impl GPU {
    /// Feeds one word to GP0: starts a command, collects its parameters and
    /// runs it, or stores blit data. A primitive that completes without being
    /// drawn here is reported as unsupported and left, with its parameters,
    /// in `deferred`; the state machine goes on.
    pub fn write_gp0(&mut self, word: u32, interrupt: &mut Interrupt, cop0: &mut SystemControl) -> (r: Result<(), GpuError>)
        requires
            old(self).wf(),
        ensures
            final(self).wf(),
            final(self)@ == gp0_written(old(self)@, word).0,
            r.is_err() == gp0_written(old(self)@, word).1,
            final(interrupt).I_MASK == old(interrupt).I_MASK,
            final(interrupt).I_STAT == (if old(self).gp0_mode is CommandStart && started(word) is CommandStart
                && word >> 24u32 == 0x1F && old(self).gpu_status & STATUS_IRQ == 0 {
                old(interrupt).I_STAT | 0x002
            } else {
                old(interrupt).I_STAT
            }),
    {
        match self.gp0_mode {
            GP0_State::CommandStart => {
                self.gp0_parameters.clear();
                assert(self.gp0_parameters@ =~= Seq::<u32>::empty());
                let st = GPU::start(word);
                match st {
                    GP0_State::CommandStart => {
                        self.environment_command(word, interrupt, cop0);
                    },
                    _ => {
                        self.gp0_mode = st;
                    },
                }
                Ok(())
            },
            GP0_State::ReceivingParameters { idx, expected, command } => {
                self.gp0_parameters.push(word);
                if idx == expected {
                    let mut p: Vec<u32> = Vec::new();
                    std::mem::swap(&mut p, &mut self.gp0_parameters);
                    self.gp0_mode = GP0_State::CommandStart;
                    self.dispatch(command, p)
                } else {
                    self.gp0_mode = GP0_State::ReceivingParameters { idx: idx + 1, expected, command };
                    Ok(())
                }
            },
            GP0_State::ReceivingPolyLineParameters { color_word, gouraud, command } => {
                if (color_word || !gouraud) && word & 0xF000_F000 == 0x5000_5000 {
                    self.finish_polyline(command)
                } else {
                    self.gp0_parameters.push(word);
                    self.gp0_mode = GP0_State::ReceivingPolyLineParameters {
                        color_word: !color_word && gouraud,
                        gouraud,
                        command,
                    };
                    Ok(())
                }
            },
            GP0_State::ReceivingData(f) => {
                let next = self.process_cpu_vram_copy(f, word);
                self.gp0_mode = next;
                Ok(())
            },
            GP0_State::SendingData(_) => Ok(()),
        }
    }

    /// Ends a polyline: flat polylines are drawn, others are left in `deferred`.
    fn finish_polyline(&mut self, command: ParametrizedCommand) -> (r: Result<(), GpuError>)
        requires
            old(self).wf(),
        ensures
            final(self).wf(),
            ({
                let w = match command {
                    ParametrizedCommand::Line(w) => w,
                    _ => 0,
                };
                let v = old(self)@;
                &&& (w >> 24u32 == 0x48 || w >> 24u32 == 0x4A) ==> r.is_ok() && final(self)@ == (GpuView {
                    vram: polyline_drawn(v, w, v.gp0_parameters, v.gp0_parameters.len() - 1),
                    gp0_parameters: Seq::empty(),
                    gp0_mode: GP0_State::CommandStart,
                    ..v
                })
                &&& !(w >> 24u32 == 0x48 || w >> 24u32 == 0x4A) ==> r.is_err() && final(self)@ == (GpuView {
                    gp0_parameters: Seq::empty(),
                    gp0_mode: GP0_State::CommandStart,
                    deferred: Some((w, v.gp0_parameters)),
                    ..v
                })
            }),
    {
        let mut p: Vec<u32> = Vec::new();
        std::mem::swap(&mut p, &mut self.gp0_parameters);
        self.gp0_mode = GP0_State::CommandStart;
        assert(self.gp0_parameters@ =~= Seq::<u32>::empty());
        let w = match command {
            ParametrizedCommand::Line(w) => w,
            _ => 0,
        };
        if w >> 24u32 == 0x48 || w >> 24u32 == 0x4A {
            self.draw_polyline(w, &p);
            Ok(())
        } else {
            self.deferred = Some((w, p));
            Err(GpuError::Unsupported(w))
        }
    }

    fn start(word: u32) -> (st: GP0_State)
        ensures
            st == started(word),
            st matches GP0_State::ReceivingParameters { idx, expected, command } ==> idx == 1 && 1
                <= expected <= 16 && expected == required_words(command),
            !(st is SendingData) && !(st is ReceivingData),
    {
        let op = word >> 29u32;
        assert(1 <= rectangle_words(word) <= 3);
        if op == 1 {
            let vertices: usize = if word & 0x0800_0000 != 0 {
                4
            } else {
                3
            };
            let colors: usize = if word & 0x1000_0000 != 0 {
                vertices - 1
            } else {
                0
            };
            let textures: usize = if word & 0x0400_0000 != 0 {
                vertices
            } else {
                0
            };
            GP0_State::ReceivingParameters {
                idx: 1,
                expected: (vertices + colors + textures) as usize,
                command: ParametrizedCommand::Polygon(word),
            }
        } else if op == 2 {
            if word & 0x0800_0000 != 0 {
                GP0_State::ReceivingPolyLineParameters {
                    color_word: false,
                    gouraud: word & 0x1000_0000 != 0,
                    command: ParametrizedCommand::Line(word),
                }
            } else {
                GP0_State::ReceivingParameters {
                    idx: 1,
                    expected: if word & 0x1000_0000 != 0 {
                        3
                    } else {
                        2
                    },
                    command: ParametrizedCommand::Line(word),
                }
            }
        } else if op == 3 {
            let expected: usize = 1 + (if word & 0x0400_0000 != 0 {
                1
            } else {
                0
            }) + (if word & 0x1800_0000 == 0 {
                1
            } else {
                0
            });
            GP0_State::ReceivingParameters { idx: 1, expected, command: ParametrizedCommand::Rectangle(word) }
        } else if op == 4 {
            GP0_State::ReceivingParameters { idx: 1, expected: 3, command: ParametrizedCommand::VRAM_VRAM_Copy }
        } else if op == 5 {
            GP0_State::ReceivingParameters { idx: 1, expected: 2, command: ParametrizedCommand::CPU_VRAM_Copy }
        } else if op == 6 {
            GP0_State::ReceivingParameters { idx: 1, expected: 2, command: ParametrizedCommand::VRAM_CPU_Copy }
        } else if word >> 24u32 == 0x02 {
            GP0_State::ReceivingParameters { idx: 1, expected: 2, command: ParametrizedCommand::Fill(word) }
        } else {
            GP0_State::CommandStart
        }
    }

    /// GP0 commands that take effect at once: IRQ, texture page, texture
    /// window, drawing area, drawing offset and mask settings; others are NOPs.
    fn environment_command(&mut self, word: u32, interrupt: &mut Interrupt, cop0: &mut SystemControl)
        requires
            old(self).wf(),
            old(self).gp0_parameters@.len() == 0,
        ensures
            final(self).wf(),
            final(self)@ == environment(old(self)@, word),
            final(interrupt).I_MASK == old(interrupt).I_MASK,
            final(interrupt).I_STAT == (if word >> 24u32 == 0x1F && old(self).gpu_status & STATUS_IRQ == 0 {
                old(interrupt).I_STAT | 0x002
            } else {
                old(interrupt).I_STAT
            }),
    {
        let op = word >> 24u32;
        proof {
            lemma_field_ranges(word);
        }
        if op == 0x1F {
            if self.gpu_status & STATUS_IRQ == 0 {
                interrupt.request(IRQ::GPU, cop0);
            }
            self.gpu_status = self.gpu_status | STATUS_IRQ;
        } else if op == 0xE1 {
            self.set_texpage(word);
        } else if op == 0xE2 {
            self.set_tex_window(word);
        } else if op == 0xE3 {
            self.set_drawing_area_top_left(word);
        } else if op == 0xE4 {
            self.set_drawing_area_bottom_right(word);
        } else if op == 0xE5 {
            self.set_drawing_offset(word);
        } else if op == 0xE6 {
            self.set_mask_bit_setting(word);
        }
    }

    /// The display as RGB colors, row by row: 1024 × 512 pixels, each VRAM
    /// halfword expanded in 15-bit mode; in 24-bit mode three bytes make a
    /// pixel and the 682 columns of each line that fit are filled.
    pub fn render_vram(&self) -> (out: Vec<Color>)
        requires
            self.wf(),
        ensures
            out@.len() == 512 * 1024,
            self.gpu_status & 0x0020_0000 == 0 ==> forall|y: int, x: int|
                0 <= y < 512 && 0 <= x < 1024 ==> #[trigger] out@[y * 1024 + x] == crate::color::expanded(
                    le16(self.vram.data@, 2 * (y * 1024 + x)),
                ),
    {
        let mut out: Vec<Color> = Vec::new();
        let deep = self.gpu_status & 0x0020_0000 != 0;
        let mut y: u32 = 0;
        while y < 512
            invariant
                self.wf(),
                y <= 512,
                out@.len() == y * 1024,
                deep == (self.gpu_status & 0x0020_0000 != 0),
                !deep ==> forall|yy: int, x: int|
                    0 <= yy < y && 0 <= x < 1024 ==> #[trigger] out@[yy * 1024 + x] == crate::color::expanded(
                        le16(self.vram.data@, 2 * (yy * 1024 + x)),
                    ),
            decreases 512 - y,
        {
            let mut x: u32 = 0;
            while x < 1024
                invariant
                    self.wf(),
                    y < 512,
                    x <= 1024,
                    out@.len() == y * 1024 + x,
                    deep == (self.gpu_status & 0x0020_0000 != 0),
                    !deep ==> forall|yy: int, xx: int|
                        0 <= yy < y && 0 <= xx < 1024 ==> #[trigger] out@[yy * 1024 + xx] == crate::color::expanded(
                            le16(self.vram.data@, 2 * (yy * 1024 + xx)),
                        ),
                    !deep ==> forall|xx: int|
                        0 <= xx < x ==> #[trigger] out@[y * 1024 + xx] == crate::color::expanded(
                            le16(self.vram.data@, 2 * (y * 1024 + xx)),
                        ),
                decreases 1024 - x,
            {
                let c = if !deep {
                    Color::from_halfword(self.vram.read16(2 * (y * 1024 + x)))
                } else if x < 682 {
                    let a = y * 2048 + x * 3;
                    Color { r: self.vram.read8(a), g: self.vram.read8(a + 1), b: self.vram.read8(a + 2) }
                } else {
                    Color { r: 0, g: 0, b: 0 }
                };
                out.push(c);
                x = x + 1;
            }
            y = y + 1;
        }
        out
    }
}

pub open spec fn magnitude(v: int) -> int {
    if v < 0 {
        -v
    } else {
        v
    }
}

/// Bresenham's walker from `v0` towards `v1` after `k` steps: the position
/// and the error term. Each step moves along x while twice the error exceeds
/// -|dy|, and along y while it is below |dx|.
pub open spec fn walk(v0: Vertex, v1: Vertex, k: nat) -> (int, int, int)
    decreases k,
{
    let dx = magnitude(v1.x - v0.x);
    let dy = magnitude(v1.y - v0.y);
    if k == 0 {
        (v0.x as int, v0.y as int, dx - dy)
    } else {
        let prev = walk(v0, v1, (k - 1) as nat);
        let sx: int = if v0.x < v1.x { 1 } else { -1 };
        let sy: int = if v0.y < v1.y { 1 } else { -1 };
        let e2 = 2 * prev.2;
        let x = if e2 > -dy { prev.0 + sx } else { prev.0 };
        let e1 = if e2 > -dy { prev.2 - dy } else { prev.2 };
        let y = if e2 < dx { prev.1 + sy } else { prev.1 };
        let e = if e2 < dx { e1 + dx } else { e1 };
        (x, y, e)
    }
}

/// The number of steps a line takes: the larger of |dx| and |dy|.
pub open spec fn line_steps(v0: Vertex, v1: Vertex) -> nat {
    let dx = magnitude(v1.x - v0.x);
    let dy = magnitude(v1.y - v0.y);
    (if dx >= dy { dx } else { dy }) as nat
}

/// The points of the line from `v0` to `v1`, both ends included.
pub open spec fn bresenham_points(v0: Vertex, v1: Vertex) -> Seq<Vertex> {
    Seq::new(
        line_steps(v0, v1) + 1,
        |k: int| Vertex { x: walk(v0, v1, k as nat).0 as i32, y: walk(v0, v1, k as nat).1 as i32 },
    )
}

pub open spec fn blended(f: Color, b: Color, mode: u8) -> Color {
    Color {
        r: crate::color::blend_channel(f.r, b.r, mode),
        g: crate::color::blend_channel(f.g, b.g, mode),
        b: crate::color::blend_channel(f.b, b.b, mode),
    }
}

/// The semi-transparency mode of GPUSTAT.
pub open spec fn blend_mode(status: u32) -> u8 {
    ((status >> 5u32) & 3) as u8
}

/// The halfword a flat primitive in `word` leaves over `back`: its color, or
/// with bit 25 of the command its color blended over `back`.
pub open spec fn flat_pixel(back: u16, word: u32, status: u32) -> u16 {
    if word & 0x0200_0000 != 0 {
        compressed(crate::color::word_of(blended(crate::color::expanded(compressed(word)), crate::color::expanded(back), blend_mode(status))))
    } else {
        compressed(word)
    }
}

/// VRAM after the first `n` of `pts` are drawn in `word`, moved by `off`.
pub open spec fn line_painted(vram: Seq<u8>, pts: Seq<Vertex>, off: Vertex, word: u32, status: u32, n: int) -> Seq<u8>
    decreases n,
{
    if n <= 0 {
        vram
    } else {
        let prev = line_painted(vram, pts, off, word, status, n - 1);
        let a = draw_addr(pts[n - 1], off);
        store16(prev, a, flat_pixel(le16(prev, a), word, status))
    }
}

/// VRAM after a flat line from `v0` to `v1` in `color`.
pub open spec fn line_drawn(v: GpuView, color: u32, v0: Vertex, v1: Vertex) -> Seq<u8> {
    line_painted(v.vram, bresenham_points(v0, v1), v.drawing_offset, color, v.gpu_status, line_steps(v0, v1) as int + 1)
}

/// VRAM after the first `n` segments of a flat polyline through the vertex
/// words `p`, drawn with drawing offset `off` and GPUSTAT `status`.
pub open spec fn polyline_painted(vram: Seq<u8>, off: Vertex, status: u32, color: u32, p: Seq<u32>, n: int) -> Seq<u8>
    decreases n,
{
    if n <= 0 {
        vram
    } else {
        let before = polyline_painted(vram, off, status, color, p, n - 1);
        let a = vertex_of_word(p[n - 1]);
        let b = vertex_of_word(p[n]);
        line_painted(before, bresenham_points(a, b), off, color, status, line_steps(a, b) as int + 1)
    }
}

/// VRAM after a flat polyline through the vertex words `p`.
pub open spec fn polyline_drawn(v: GpuView, color: u32, p: Seq<u32>, n: int) -> Seq<u8> {
    polyline_painted(v.vram, v.drawing_offset, v.gpu_status, color, p, n)
}

/// Whether a line command is a flat line or polyline drawn here.
pub open spec fn flat_line(w: u32) -> bool {
    w >> 24u32 == 0x40 || w >> 24u32 == 0x42 || w >> 24u32 == 0x48 || w >> 24u32 == 0x4A
}

proof fn lemma_mode_bits(s: u32)
    by (bit_vector)
    ensures
        (s >> 5u32) & 3 < 4,
{
}

impl GPU {
    fn shade_flat(&self, word: u32, addr: u32) -> (r: u16)
        requires
            self.wf(),
            addr + 2 <= VRAM_SIZE,
        ensures
            r == flat_pixel(le16(self.vram.data@, addr as int), word, self.gpu_status),
    {
        let c = Color::compress_color_depth(word);
        if word & 0x0200_0000 != 0 {
            proof {
                lemma_mode_bits(self.gpu_status);
            }
            let mode = ((self.gpu_status >> 5u32) & 3) as u8;
            let back = Color::from_halfword(self.vram.read16(addr));
            let front = Color::from_halfword(c);
            Color::compress_color_depth(front.blend(back, mode).to_word())
        } else {
            c
        }
    }

    /// Draws a flat line with Bresenham's walker, each point moved by the
    /// drawing offset; with bit 25 of `color` each point is blended.
    pub fn draw_line(&mut self, color: u32, v0: Vertex, v1: Vertex)
        requires
            old(self).wf(),
            screen_point(v0),
            screen_point(v1),
        ensures
            final(self).wf(),
            final(self)@ == (GpuView { vram: line_drawn(old(self)@, color, v0, v1), ..old(self)@ }),
    {
        let dx: i64 = if v1.x >= v0.x { v1.x as i64 - v0.x as i64 } else { v0.x as i64 - v1.x as i64 };
        let dy: i64 = if v1.y >= v0.y { v1.y as i64 - v0.y as i64 } else { v0.y as i64 - v1.y as i64 };
        let sx: i64 = if v0.x < v1.x { 1 } else { -1 };
        let sy: i64 = if v0.y < v1.y { 1 } else { -1 };
        let n: i64 = if dx >= dy { dx } else { dy };
        let mut x: i64 = v0.x as i64;
        let mut y: i64 = v0.y as i64;
        let mut e: i64 = dx - dy;
        let off = self.drawing_offset;
        let ghost pts = bresenham_points(v0, v1);
        let ghost base = self.vram.data@;
        let mut k: i64 = 0;
        while k <= n
            invariant
                self.wf(),
                0 <= k <= n + 1,
                n == line_steps(v0, v1),
                0 <= dx <= 2048 && 0 <= dy <= 2048,
                dx == magnitude(v1.x - v0.x) && dy == magnitude(v1.y - v0.y),
                sx == (if v0.x < v1.x { 1int } else { -1int }),
                sy == (if v0.y < v1.y { 1int } else { -1int }),
                (x as int, y as int, e as int) == walk(v0, v1, k as nat),
                -0x400 - k <= x <= 0x3FF + k,
                -0x400 - k <= y <= 0x3FF + k,
                -8192 * (k + 1) <= e <= 8192 * (k + 1),
                off == self.drawing_offset,
                pts == bresenham_points(v0, v1),
                self@ == (GpuView {
                    vram: line_painted(base, pts, off, color, self.gpu_status, k as int),
                    ..old(self)@
                }),
            decreases n + 1 - k,
        {
            let p = Vertex { x: x as i32, y: y as i32 };
            assert(pts[k as int] == p);
            let px = (p.x.wrapping_add(off.x) as u32);
            let py = (p.y.wrapping_add(off.y) as u32);
            proof {
                lemma_mask_mod(px);
                lemma_mask_mod(py);
            }
            let addr = 2 * ((py & 0x1FF) * 1024 + (px & 0x3FF));
            let value = self.shade_flat(color, addr);
            self.vram.write16(addr, value);
            let e2 = 2 * e;
            if e2 > -dy {
                e = e - dy;
                x = x + sx;
            }
            if e2 < dx {
                e = e + dx;
                y = y + sy;
            }
            k = k + 1;
        }
    }

    /// Draws the segments of a flat polyline through the vertex words `p`.
    fn draw_polyline(&mut self, color: u32, p: &Vec<u32>)
        requires
            old(self).wf(),
        ensures
            final(self).wf(),
            final(self)@ == (GpuView {
                vram: polyline_drawn(old(self)@, color, p@, p@.len() - 1),
                ..old(self)@
            }),
    {
        let mut i: usize = 1;
        if p.len() == 0 {
            return;
        }
        while i < p.len()
            invariant
                self.wf(),
                1 <= i <= p@.len(),
                self@ == (GpuView { vram: polyline_drawn(old(self)@, color, p@, i - 1), ..old(self)@ }),
            decreases p@.len() - i,
        {
            proof {
                lemma_field_ranges(p@[i - 1]);
                lemma_field_ranges(p@[i as int]);
            }
            let a = Vertex::from_word(p[i - 1]);
            let b = Vertex::from_word(p[i]);
            self.draw_line(color, a, b);
            i = i + 1;
        }
    }
}

/// The texel at (u, v) of the texture page `status` selects (GPUSTAT's or a
/// primitive's texpage bits): with 4-bit or
/// 8-bit depth an index into the CLUT at (`clut` & 0x3F) × 16, `clut` >> 6;
/// with 15-bit depth the VRAM halfword itself.
pub open spec fn texel(vram: Seq<u8>, status: u32, clut: u32, u: u32, v: u32) -> u16 {
    let bx = ((status & 0xF) * 64) as int;
    let by = (((status >> 4u32) & 1) * 256) as int;
    let depth = (status >> 7u32) & 3;
    let cx = ((clut & 0x3F) * 16) as int;
    let cy = ((clut >> 6u32) & 0x1FF) as int;
    if depth == 0 {
        let w = le16(vram, pixel_addr(bx + (u / 4) as int, by + v as int)) as u32;
        let idx = (w >> (4 * (u % 4))) & 0xF;
        le16(vram, pixel_addr(cx + idx as int, cy))
    } else if depth == 1 {
        let w = le16(vram, pixel_addr(bx + (u / 2) as int, by + v as int)) as u32;
        let idx = (w >> (8 * (u % 2))) & 0xFF;
        le16(vram, pixel_addr(cx + idx as int, cy))
    } else {
        le16(vram, pixel_addr(bx + u as int, by + v as int))
    }
}

/// The color in a command word, red in the low byte.
pub open spec fn tint_of(word: u32) -> Color {
    Color { r: word as u8, g: (word >> 8u32) as u8, b: (word >> 16u32) as u8 }
}

/// The halfword a textured primitive draws for texel `t`: the texel itself
/// when bit 24 of the command asks for raw texture, else the texel times the
/// command color over 128.
pub open spec fn textured_pixel(t: u16, word: u32) -> u16 {
    if word & 0x0100_0000 != 0 {
        t
    } else {
        let c = crate::color::expanded(t);
        let k = tint_of(word);
        compressed(crate::color::word_of(Color {
            r: crate::color::sat8((c.r * k.r + 64) / 128),
            g: crate::color::sat8((c.g * k.g + 64) / 128),
            b: crate::color::sat8((c.b * k.b + 64) / 128),
        }))
    }
}

/// VRAM after the first `n` pixels, row-major, of a `w`-wide textured
/// rectangle at (x0, y0): pixel (col, row) takes the texel at (U + col, V + row),
/// both wrapping at 256; texel 0 is transparent.
pub open spec fn textured_painted(vram: Seq<u8>, status: u32, word: u32, clut_uv: u32, x0: int, y0: int, w: int, n: int) -> Seq<u8>
    decreases n,
{
    if n <= 0 || w <= 0 {
        vram
    } else {
        let prev = textured_painted(vram, status, word, clut_uv, x0, y0, w, n - 1);
        let k = n - 1;
        let u = (((clut_uv & 0xFF) as int + k % w) % 256) as u32;
        let v = ((((clut_uv >> 8u32) & 0xFF) as int + k / w) % 256) as u32;
        let t = texel(prev, status, clut_uv >> 16u32, u, v);
        if t == 0 {
            prev
        } else {
            store16(prev, blit_addr(x0, y0, w, k), textured_pixel(t, word))
        }
    }
}

/// VRAM after a `w` × `h` textured rectangle at vertex word `pos`, moved by the
/// drawing offset, with texture origin and CLUT in `clut_uv`.
pub open spec fn textured_rectangle_drawn(v: GpuView, word: u32, pos: u32, clut_uv: u32, w: int, h: int) -> Seq<u8> {
    let q = vertex_of_word(pos);
    let x = (vstd::wrapping::i32_specs::wrapping_add(q.x, v.drawing_offset.x) as u32) & 0x3FF;
    let y = (vstd::wrapping::i32_specs::wrapping_add(q.y, v.drawing_offset.y) as u32) & 0x1FF;
    textured_painted(v.vram, v.gpu_status, word, clut_uv, x as int, y as int, w, w * h)
}

/// Whether a rectangle command is a textured one drawn here (opaque, any size,
/// modulated or raw).
pub open spec fn textured_rect(w: u32) -> bool {
    let op = w >> 24u32;
    op == 0x64 || op == 0x65 || op == 0x74 || op == 0x75 || op == 0x7C || op == 0x7D
}

proof fn lemma_tex_bits(s: u32, c: u32, w: u32, sh: u32)
    by (bit_vector)
    ensures
        s & 0xF <= 15,
        (s >> 4u32) & 1 <= 1,
        (c & 0x3F) <= 63,
        (c >> 6u32) & 0x1FF <= 511,
        (w >> sh) & 0xF <= 15,
        (w >> sh) & 0xFF <= 255,
        c & 0xFF <= 255,
        (c >> 8u32) & 0xFF <= 255,
{
}

impl GPU {
    fn read_vram(&self, x: u32, y: u32) -> (r: u16)
        requires
            self.wf(),
            x < 2048,
            y < 1024,
        ensures
            r == le16(self.vram.data@, pixel_addr(x as int, y as int)),
    {
        let a = pixel_offset(x, y);
        self.vram.read16(a)
    }

    /// The texel at (u, v) of texture page `page` (laid out as GPUSTAT's low
    /// bits: x base, y base, depth in bits 7..8), with CLUT word `clut`.
    pub fn texel_at(&self, page: u32, clut: u32, u: u32, v: u32) -> (r: u16)
        requires
            self.wf(),
            u < 256,
            v < 256,
        ensures
            r == texel(self.vram.data@, page, clut, u, v),
    {
        let s = page;
        proof {
            lemma_tex_bits(s, clut, 0, 0);
        }
        let bx = (s & 0xF) * 64;
        let by = ((s >> 4u32) & 1) * 256;
        let depth = (s >> 7u32) & 3;
        let cx = (clut & 0x3F) * 16;
        let cy = (clut >> 6u32) & 0x1FF;
        if depth == 0 {
            let w = self.read_vram(bx + u / 4, by + v) as u32;
            proof {
                lemma_tex_bits(s, clut, w, (4 * (u % 4)) as u32);
            }
            let idx = (w >> (4 * (u % 4))) & 0xF;
            self.read_vram(cx + idx, cy)
        } else if depth == 1 {
            let w = self.read_vram(bx + u / 2, by + v) as u32;
            proof {
                lemma_tex_bits(s, clut, w, (8 * (u % 2)) as u32);
            }
            let idx = (w >> (8 * (u % 2))) & 0xFF;
            self.read_vram(cx + idx, cy)
        } else {
            self.read_vram(bx + u, by + v)
        }
    }

    fn shade_texel(t: u16, word: u32) -> (r: u16)
        ensures
            r == textured_pixel(t, word),
    {
        if word & 0x0100_0000 != 0 {
            t
        } else {
            let tint = Color { r: word as u8, g: (word >> 8u32) as u8, b: (word >> 16u32) as u8 };
            Color::compress_color_depth(Color::from_halfword(t).modulate(tint).to_word())
        }
    }

    /// Draws a textured rectangle: texels from the page GPUSTAT selects,
    /// starting at the U, V in `clut_uv` with the CLUT in its top half; texel 0
    /// leaves the pixel as it was.
    fn draw_textured_rectangle(&mut self, word: u32, pos: u32, clut_uv: u32, w: u32, h: u32)
        requires
            old(self).wf(),
            w <= 1024,
            h <= 512,
        ensures
            final(self).wf(),
            final(self)@ == (GpuView {
                vram: textured_rectangle_drawn(old(self)@, word, pos, clut_uv, w as int, h as int),
                ..old(self)@
            }),
    {
        let q = Vertex::from_word(pos);
        let off = self.drawing_offset;
        let sx = q.x.wrapping_add(off.x) as u32;
        let sy = q.y.wrapping_add(off.y) as u32;
        proof {
            lemma_mask_mod(sx);
            lemma_mask_mod(sy);
            lemma_tex_bits(0, clut_uv, 0, 0);
        }
        let x0 = sx & 0x3FF;
        let y0 = sy & 0x1FF;
        if w == 0 || h == 0 {
            assert(w * h == 0) by (nonlinear_arith)
                requires
                    w == 0 || h == 0,
            ;
            return;
        }
        let f = BlitFields { vram_x: x0 as u16, vram_y: y0 as u16, width: w as u16, height: h as u16, current_row: 0, current_col: 0 };
        proof {
            lemma_step(f);
        }
        let n = w * h;
        let u0 = clut_uv & 0xFF;
        let v0 = (clut_uv >> 8u32) & 0xFF;
        let clut = clut_uv >> 16u32;
        let mut k: u32 = 0;
        while k < n
            invariant
                self.wf(),
                f.wf(),
                n == f.size(),
                n == w * h,
                k <= n,
                f.vram_x == x0 && f.vram_y == y0 && f.width == w && f.height == h,
                u0 == clut_uv & 0xFF && v0 == (clut_uv >> 8u32) & 0xFF && clut == clut_uv >> 16u32,
                u0 <= 255 && v0 <= 255,
                self@ == (GpuView {
                    vram: textured_painted(old(self).vram.data@, old(self).gpu_status, word, clut_uv, x0 as int, y0 as int, w as int, k as int),
                    ..old(self)@
                }),
            decreases n - k,
        {
            proof {
                lemma_next_position(k as int, w as int, h as int);
            }
            let u = (u0 + k % w) % 256;
            let v = (v0 + k / w) % 256;
            let t = self.texel_at(self.gpu_status, clut, u, v);
            if t != 0 {
                let value = GPU::shade_texel(t, word);
                self.write_pixel_at(f, k, value);
            }
            k = k + 1;
        }
    }
}

/// VRAM after the first `n` pixels, row-major, of a `w`-wide flat rectangle
/// at (x, y) in `word`, each pixel blended over what it covers when bit 25 of
/// the command asks for it.
pub open spec fn flat_rect_painted(vram: Seq<u8>, word: u32, status: u32, x: int, y: int, w: int, n: int) -> Seq<u8>
    decreases n,
{
    if n <= 0 || w <= 0 {
        vram
    } else {
        let prev = flat_rect_painted(vram, word, status, x, y, w, n - 1);
        let a = blit_addr(x, y, w, n - 1);
        store16(prev, a, flat_pixel(le16(prev, a), word, status))
    }
}

/// VRAM after a semi-transparent flat rectangle of `w` × `h` at vertex word
/// `pos`, moved by the drawing offset.
pub open spec fn blended_rectangle_drawn(v: GpuView, word: u32, pos: u32, w: int, h: int) -> Seq<u8> {
    let q = vertex_of_word(pos);
    let x = (vstd::wrapping::i32_specs::wrapping_add(q.x, v.drawing_offset.x) as u32) & 0x3FF;
    let y = (vstd::wrapping::i32_specs::wrapping_add(q.y, v.drawing_offset.y) as u32) & 0x1FF;
    flat_rect_painted(v.vram, word, v.gpu_status, x as int, y as int, w, w * h)
}

/// Whether a rectangle command is a semi-transparent flat one.
pub open spec fn blended_rect(w: u32) -> bool {
    let op = w >> 24u32;
    op == 0x62 || op == 0x6A || op == 0x72 || op == 0x7A
}

impl GPU {
    fn flat_value(&self, back: u16, word: u32) -> (r: u16)
        ensures
            r == flat_pixel(back, word, self.gpu_status),
    {
        let c = Color::compress_color_depth(word);
        if word & 0x0200_0000 != 0 {
            proof {
                lemma_mode_bits(self.gpu_status);
            }
            let mode = ((self.gpu_status >> 5u32) & 3) as u8;
            Color::compress_color_depth(Color::from_halfword(c).blend(Color::from_halfword(back), mode).to_word())
        } else {
            c
        }
    }

    /// Draws a flat rectangle pixel by pixel, blending each over VRAM.
    fn draw_blended_rectangle(&mut self, word: u32, pos: u32, w: u32, h: u32)
        requires
            old(self).wf(),
            w <= 1024,
            h <= 512,
        ensures
            final(self).wf(),
            final(self)@ == (GpuView {
                vram: blended_rectangle_drawn(old(self)@, word, pos, w as int, h as int),
                ..old(self)@
            }),
    {
        let q = Vertex::from_word(pos);
        let off = self.drawing_offset;
        let sx = q.x.wrapping_add(off.x) as u32;
        let sy = q.y.wrapping_add(off.y) as u32;
        proof {
            lemma_mask_mod(sx);
            lemma_mask_mod(sy);
        }
        let x0 = sx & 0x3FF;
        let y0 = sy & 0x1FF;
        if w == 0 || h == 0 {
            assert(w * h == 0) by (nonlinear_arith)
                requires
                    w == 0 || h == 0,
            ;
            return;
        }
        let f = BlitFields { vram_x: x0 as u16, vram_y: y0 as u16, width: w as u16, height: h as u16, current_row: 0, current_col: 0 };
        proof {
            lemma_step(f);
        }
        let n = w * h;
        let mut k: u32 = 0;
        while k < n
            invariant
                self.wf(),
                f.wf(),
                n == f.size(),
                k <= n,
                f.vram_x == x0 && f.vram_y == y0 && f.width == w,
                self@ == (GpuView {
                    vram: flat_rect_painted(old(self).vram.data@, word, old(self).gpu_status, x0 as int, y0 as int, w as int, k as int),
                    ..old(self)@
                }),
            decreases n - k,
        {
            let back = self.read_pixel_at(f, k);
            let value = self.flat_value(back, word);
            self.write_pixel_at(f, k, value);
            k = k + 1;
        }
    }
}

/// The VRAM byte address screen point `p` lands on after offset `off`.
pub fn vram_address(p: Vertex, off: Vertex) -> (r: u32)
    ensures
        r == draw_addr(p, off),
        r + 2 <= VRAM_SIZE,
{
    let sx = p.x.wrapping_add(off.x) as u32;
    let sy = p.y.wrapping_add(off.y) as u32;
    proof {
        lemma_mask_mod(sx);
        lemma_mask_mod(sy);
    }
    2 * ((sy & 0x1FF) * 1024 + (sx & 0x3FF))
}

} // verus!
