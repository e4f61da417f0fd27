//! DMA controller: seven channels of base address, block control and channel
//! control, the priority and interrupt registers, and block and linked-list transfers.
use vstd::prelude::*;

use crate::bytes::{le32, lemma_load_store32, store32};
use crate::ram::RAM;

verus! {

/// Bytes of main memory that DMA addresses.
pub const DRAM_SIZE: usize = 2 * 1024 * 1024;

/// The GPU's GP0 port.
pub const GP0_PORT: u32 = 0x1F80_1810;

/// Bit facts about DMA register offsets and RAM addresses.
proof fn lemma_dma_bits(x: u32, c: u32, a: u32)
    by (bit_vector)
    ensures
        x & 0x001F_FFFC <= 0x001F_FFFC,
        ((x & 0xF) >> 2u32) < 4,
        0x20u32 >> 4u32 == 2,
        c < 8 ==> ((c * 16) as u32) >> 4u32 == c,
        x % 16 == 0 && x / 16 < 7 ==> x >> 4u32 == x / 16,
        a < 0x0020_0000 && a % 4 == 0 ==> a & 0x001F_FFFC == a,
{
}

/// One less, but not below zero.
pub open spec fn saturating_dec(x: u16) -> u16 {
    if x == 0 {
        0
    } else {
        (x - 1) as u16
    }
}

/// The channel registers after a transfer on `index` ends: start and force
/// bits cleared, the channel's enable bit in the priority register cleared,
/// and in sync mode 1 one block fewer.
pub open spec fn finished(old: &Channels, new: &Channels, index: u32) -> bool {
    let c = (index >> 4u32) as int;
    let cc = old.reg(c, 2) & !((1u32 << 28u32) | (1u32 << 24u32));
    let bc = old.reg(c, 1);
    let new_bc = if old.sync_of(index) == 1 {
        (bc & 0xFFFF) | ((saturating_dec((bc >> 16u32) as u16) as u32) << 16u32)
    } else {
        bc
    };
    forall|k: int, j: int|
        0 <= k < 8 && 0 <= j < 4 ==> new.reg(k, j) == if k == c && j == 2 {
            cc
        } else if k == c && j == 1 {
            new_bc
        } else if k == 7 && j == 0 {
            old.reg(7, 0) & !(1u32 << ((index >> 4u32) * 4 + 3) as u32)
        } else {
            old.reg(k, j)
        }
}

pub struct Channels {
    pub channels: [[u32; 4]; 8],
}

impl Channels {
    pub open spec fn reg(&self, c: int, r: int) -> u32 {
        self.channels@[c]@[r]
    }

    pub open spec fn block_control_of(&self, index: u32) -> u32 {
        self.reg((index >> 4u32) as int, 1)
    }

    pub open spec fn channel_control_of(&self, index: u32) -> u32 {
        self.reg((index >> 4u32) as int, 2)
    }

    pub open spec fn sync_of(&self, index: u32) -> u8 {
        ((self.channel_control_of(index) >> 9u32) & 3) as u8
    }

    pub open spec fn priority_of(&self, index: u32) -> u8 {
        ((self.reg(7, 0) >> (4 * (index >> 4u32))) & 7) as u8
    }

    pub open spec fn enabled_of(&self, index: u32) -> bool {
        self.reg(7, 0) & (1u32 << (4 * (index >> 4u32) + 3)) != 0 && self.channel_control_of(index)
            & (1u32 << 24u32) != 0
    }

    pub open spec fn triggered_of(&self, index: u32) -> bool {
        self.enabled_of(index) && (self.sync_of(index) != 0 || self.channel_control_of(index) & (
        1u32 << 28u32) != 0)
    }

    /// The register at byte offset `offset` of the DMA block.
    pub open spec fn at(&self, offset: u32) -> u32 {
        self.reg((offset >> 4u32) as int, ((offset & 0xF) >> 2u32) as int)
    }

    pub fn zeroed() -> (r: Channels)
        ensures
            forall|c: int, k: int| 0 <= c < 8 && 0 <= k < 4 ==> r.reg(c, k) == 0,
    {
        Channels { channels: [[0u32; 4]; 8] }
    }

    pub fn read(&self, offset: u32) -> (r: u32)
        requires
            offset >> 4u32 < 8,
        ensures
            r == self.at(offset),
    {
        let c = (offset >> 4u32) as usize;
        let k = ((offset & 0xF) >> 2u32) as usize;
        proof {
            lemma_dma_bits(offset, 0, 0);
        }
        self.channels[c][k]
    }

    pub fn write(&mut self, offset: u32, value: u32)
        requires
            offset >> 4u32 < 8,
        ensures
            forall|c: int, k: int|
                0 <= c < 8 && 0 <= k < 4 ==> final(self).reg(c, k) == if c == (offset >> 4u32)
                    && k == ((offset & 0xF) >> 2u32) {
                    value
                } else {
                    old(self).reg(c, k)
                },
    {
        let c = (offset >> 4u32) as usize;
        let k = ((offset & 0xF) >> 2u32) as usize;
        proof {
            lemma_dma_bits(offset, 0, 0);
        }
        let mut row = self.channels[c];
        row[k] = value;
        self.channels[c] = row;
    }

    fn block_control(&self, index: u32) -> (r: u32)
        requires
            index >> 4u32 < 8,
        ensures
            r == self.block_control_of(index),
    {
        self.channels[(index >> 4u32) as usize][1]
    }

    fn channel_control(&self, index: u32) -> (r: u32)
        requires
            index >> 4u32 < 8,
        ensures
            r == self.channel_control_of(index),
    {
        self.channels[(index >> 4u32) as usize][2]
    }

    pub fn base_address(&self, index: u32) -> (r: u32)
        requires
            index >> 4u32 < 8,
        ensures
            r == self.reg((index >> 4u32) as int, 0),
    {
        self.channels[(index >> 4u32) as usize][0]
    }

    pub fn enabled(&self, index: u32) -> (r: bool)
        requires
            index >> 4u32 < 7,
        ensures
            r == self.enabled_of(index),
    {
        let channel = index >> 4u32;
        let bit = channel * 4 + 3;
        self.channels[7][0] & (1u32 << bit) != 0 && self.start_transfer(index)
    }

    pub fn priority(&self, index: u32) -> (r: u8)
        requires
            index >> 4u32 < 7,
        ensures
            r == self.priority_of(index),
    {
        let channel = index >> 4u32;
        ((self.channels[7][0] >> (4 * channel)) & 7) as u8
    }

    pub fn interrupt_mode(&self, index: u32) -> (r: bool)
        requires
            index >> 4u32 < 7,
        ensures
            r == (self.reg(7, 1) & (1u32 << (index >> 4u32)) != 0),
    {
        self.channels[7][1] & (1u32 << (index >> 4u32)) != 0
    }

    pub fn interrupt_mask(&self, index: u32) -> (r: bool)
        requires
            index >> 4u32 < 7,
        ensures
            r == (self.reg(7, 1) & (1u32 << ((index >> 4u32) + 16)) != 0),
    {
        self.channels[7][1] & (1u32 << ((index >> 4u32) + 16)) != 0
    }

    pub fn interrupt_flag(&self, index: u32) -> (r: bool)
        requires
            index >> 4u32 < 7,
        ensures
            r == (self.reg(7, 1) & (1u32 << ((index >> 4u32) + 24)) != 0),
    {
        self.channels[7][1] & (1u32 << ((index >> 4u32) + 24)) != 0
    }

    pub fn word_num(&self, index: u32) -> (r: u16)
        requires
            index >> 4u32 < 8,
        ensures
            r == self.block_control_of(index) as u16,
    {
        self.block_control(index) as u16
    }

    pub fn block_size(&self, index: u32) -> (r: u16)
        requires
            index >> 4u32 < 8,
        ensures
            r == self.block_control_of(index) as u16,
    {
        self.block_control(index) as u16
    }

    pub fn block_amount(&self, index: u32) -> (r: u16)
        requires
            index >> 4u32 < 8,
        ensures
            r == (self.block_control_of(index) >> 16u32) as u16,
    {
        (self.block_control(index) >> 16u32) as u16
    }

    /// Whether the channel reads from RAM (towards the device).
    pub fn transfer_direction(&self, index: u32) -> (r: bool)
        requires
            index >> 4u32 < 8,
        ensures
            r == (self.channel_control_of(index) & 1 != 0),
    {
        self.channel_control(index) & 1 != 0
    }

    /// The address step: +4, or -4 when bit 1 of channel control is set.
    pub fn increment_size(&self, index: u32) -> (r: u32)
        requires
            index >> 4u32 < 8,
        ensures
            r == (if self.channel_control_of(index) & 2 != 0 {
                0xFFFF_FFFCu32
            } else {
                4u32
            }),
    {
        if self.channel_control(index) & 2 != 0 {
            0xFFFF_FFFC
        } else {
            4
        }
    }

    pub fn chopping(&self, index: u32) -> (r: bool)
        requires
            index >> 4u32 < 8,
        ensures
            r == (self.channel_control_of(index) & 0x100 != 0),
    {
        self.channel_control(index) & 0x100 != 0
    }

    pub fn sync_type(&self, index: u32) -> (r: u8)
        requires
            index >> 4u32 < 8,
        ensures
            r == self.sync_of(index),
    {
        ((self.channel_control(index) >> 9u32) & 3) as u8
    }

    pub fn chopping_dma_window(&self, index: u32) -> (r: u8)
        requires
            index >> 4u32 < 8,
        ensures
            r == ((self.channel_control_of(index) >> 16u32) & 7) as u8,
    {
        ((self.channel_control(index) >> 16u32) & 7) as u8
    }

    pub fn chopping_cpu_window(&self, index: u32) -> (r: u8)
        requires
            index >> 4u32 < 8,
        ensures
            r == ((self.channel_control_of(index) >> 20u32) & 7) as u8,
    {
        ((self.channel_control(index) >> 20u32) & 7) as u8
    }

    pub fn start_transfer(&self, index: u32) -> (r: bool)
        requires
            index >> 4u32 < 8,
        ensures
            r == (self.channel_control_of(index) & (1u32 << 24u32) != 0),
    {
        self.channel_control(index) & (1u32 << 24u32) != 0
    }

    pub fn force_transfer(&self, index: u32) -> (r: bool)
        requires
            index >> 4u32 < 8,
        ensures
            r == (self.channel_control_of(index) & (1u32 << 28u32) != 0),
    {
        self.channel_control(index) & (1u32 << 28u32) != 0
    }

    /// Ends a transfer: clears the start and force bits, the channel's enable
    /// bit in the priority register, and in sync mode 1 takes one from the
    /// block count.
    pub fn done(&mut self, index: u32)
        requires
            index >> 4u32 < 7,
        ensures
            finished(old(self), final(self), index),
    {
        let channel = index >> 4u32;
        let c = channel as usize;
        let sync = self.sync_type(index);
        let mut row = self.channels[c];
        row[2] = row[2] & !((1u32 << 28u32) | (1u32 << 24u32));
        if sync == 1 {
            let amount = (row[1] >> 16u32) as u16;
            let blocks = (if amount == 0 {
                0
            } else {
                amount - 1
            }) as u32;
            row[1] = (row[1] & 0xFFFF) | (blocks << 16u32);
        }
        self.channels[c] = row;
        let bit = channel * 4 + 3;
        let mut ctrl = self.channels[7];
        ctrl[0] = ctrl[0] & !(1u32 << bit);
        self.channels[7] = ctrl;
    }
}

#[derive(Debug, Clone, Copy, PartialEq, Eq, Structural)]
pub enum DmaError {
    /// A channel or direction that is not modelled (channel index given).
    Unimplemented(u32),
    /// A block transfer with sync mode other than 0 or 1.
    UnknownSyncMode,
    /// Linked-list mode asked to write to RAM.
    LinkedListToRam,
}

/// The word an ordering-table clear writes at `addr` with `remaining` words
/// left: the address of the previous entry, or the end marker for the last.
pub open spec fn otc_value(addr: u32, remaining: u16) -> u32 {
    if remaining == 1 {
        0x00FF_FFFF
    } else {
        vstd::wrapping::u32_specs::wrapping_sub(addr, 4) & 0x001F_FFFF
    }
}

/// The word count a block transfer starts with.
pub open spec fn seed_size(ch: &Channels, index: u32) -> u16 {
    if ch.sync_of(index) == 0 {
        ch.block_control_of(index) as u16
    } else {
        ((((ch.block_control_of(index) >> 16u32) as u16) as int * (ch.block_control_of(index)
            as u16) as int) % 0x10000) as u16
    }
}

/// The channel the arbiter picks: triggered, with the highest priority, the
/// lowest channel among equals.
pub open spec fn is_winner(ch: &Channels, c: int) -> bool {
    &&& 0 <= c < 7
    &&& ch.triggered_of((c * 16) as u32)
    &&& forall|d: int|
        0 <= d < 7 && #[trigger] ch.triggered_of((d * 16) as u32) ==> ch.priority_of((d * 16) as u32)
            <= ch.priority_of((c * 16) as u32)
    &&& forall|d: int|
        0 <= d < c && #[trigger] ch.triggered_of((d * 16) as u32) ==> ch.priority_of((d * 16) as u32)
            < ch.priority_of((c * 16) as u32)
}

/// The address a block transfer on channel `c` works at.
pub open spec fn block_addr(d: &DMA, index: u32) -> u32 {
    let c = (index >> 4u32) as int;
    match d.current_addr@[c] {
        Some(a) => a,
        None => d.channels.reg(c, 0),
    }
}

/// The words a block transfer has left, seeded from block control when none are.
pub open spec fn block_remaining(d: &DMA, index: u32) -> u16 {
    let c = (index >> 4u32) as int;
    if d.remaining_size@[c] == 0 {
        seed_size(&d.channels, index)
    } else {
        d.remaining_size@[c]
    }
}

pub open spec fn to_device(d: &DMA, index: u32) -> bool {
    d.channels.channel_control_of(index) & 1 != 0
}

/// The error a block transfer step meets, if any: a sync mode it cannot seed
/// from, or a direction other than RAM to GPU on channel 2 and OTC on channel 6.
pub open spec fn block_error(d: &DMA, index: u32) -> Option<DmaError> {
    let c = (index >> 4u32) as int;
    if d.remaining_size@[c] == 0 && d.channels.sync_of(index) != 0 && d.channels.sync_of(index)
        != 1 {
        Some(DmaError::UnknownSyncMode)
    } else if block_remaining(d, index) > 0 && ((to_device(d, index) && c != 2) || (!to_device(
        d,
        index,
    ) && c != 6)) {
        Some(DmaError::Unimplemented(index))
    } else {
        None
    }
}

/// One block-transfer step: `old`/`old_ram` before, `new`/`new_ram` after,
/// `r` the word sent to GP0, if any.
pub open spec fn block_step(
    old: &DMA,
    old_ram: Seq<u8>,
    new: &DMA,
    new_ram: Seq<u8>,
    index: u32,
    r: Result<Option<u32>, DmaError>,
) -> bool {
    let c = (index >> 4u32) as int;
    let addr = block_addr(old, index);
    let rem = block_remaining(old, index);
    let step: u32 = if old.channels.channel_control_of(index) & 2 != 0 {
        0xFFFF_FFFC
    } else {
        4
    };
    match block_error(old, index) {
        Some(e) => r == Err::<Option<u32>, DmaError>(e) && *new == *old && new_ram == old_ram,
        None => {
            &&& new.header == old.header
            &&& new.running == old.running
            &&& new.clock == old.clock
            &&& forall|k: int|
                0 <= k < 7 && k != c ==> new.remaining_size@[k] == old.remaining_size@[k]
                    && new.current_addr@[k] == old.current_addr@[k]
            &&& if rem == 0 {
                &&& r == Ok::<Option<u32>, DmaError>(None)
                &&& new_ram == old_ram
                &&& new.remaining_size@[c] == 0
                &&& new.current_addr@[c] == Some(addr)
                &&& new.channels == old.channels
            } else {
                &&& if to_device(old, index) {
                    &&& r == Ok::<Option<u32>, DmaError>(Some(le32(old_ram, (addr & 0x001F_FFFC) as int)))
                    &&& new_ram == old_ram
                } else {
                    &&& r == Ok::<Option<u32>, DmaError>(None)
                    &&& new_ram == store32(old_ram, (addr & 0x001F_FFFC) as int, otc_value(addr, rem))
                }
                &&& new.remaining_size@[c] == rem - 1
                &&& if rem == 1 {
                    &&& new.current_addr@[c].is_none()
                    &&& finished(&old.channels, &new.channels, index)
                } else {
                    &&& new.current_addr@[c] == Some(vstd::wrapping::u32_specs::wrapping_add(addr, step))
                    &&& new.channels == old.channels
                }
            }
        },
    }
}

/// One linked-list step on channel 2: load a header when none is being
/// walked, send the next word of the current node to GP0, and on the node's
/// last word either stop (end marker, bit 23) or load the next header.
pub open spec fn list_step(
    old: &DMA,
    old_ram: Seq<u8>,
    new: &DMA,
    new_ram: Seq<u8>,
    r: Result<Option<u32>, DmaError>,
) -> bool {
    let index = 0x20u32;
    if !to_device(old, index) {
        r == Err::<Option<u32>, DmaError>(DmaError::LinkedListToRam) && *new == *old && new_ram
            == old_ram
    } else {
        let fresh = old.remaining_size@[2] == 0 && old.current_addr@[2].is_none();
        let base = old.channels.reg(2, 0);
        let header = if fresh {
            le32(old_ram, (base & 0x001F_FFFC) as int)
        } else {
            old.header
        };
        let rem: u16 = if old.remaining_size@[2] == 0 {
            (header >> 24u32) as u16
        } else {
            old.remaining_size@[2]
        };
        let cur = if fresh {
            base
        } else {
            match old.current_addr@[2] {
                Some(a) => a,
                None => base,
            }
        };
        let addr = vstd::wrapping::u32_specs::wrapping_add(cur, 4) & 0x001F_FFFC;
        let left: u16 = if rem > 0 { (rem - 1) as u16 } else { 0 };
        &&& new_ram == old_ram
        &&& r == Ok::<Option<u32>, DmaError>(if rem > 0 { Some(le32(old_ram, addr as int)) } else { None })
        &&& new.remaining_size@ == old.remaining_size@.update(2, left)
        &&& new.running == old.running
        &&& new.clock == old.clock
        &&& forall|k: int| 0 <= k < 7 && k != 2 ==> new.current_addr@[k] == old.current_addr@[k]
        &&& if left == 0 && header & 0x0080_0000 != 0 {
            &&& new.current_addr@[2].is_none()
            &&& new.header == header
            &&& finished(&old.channels, &new.channels, index)
        } else if left == 0 {
            let next = header & 0x00FF_FFFF;
            &&& new.current_addr@[2] == Some(next)
            &&& new.header == le32(old_ram, (next & 0x001F_FFFC) as int)
            &&& new.channels == old.channels
        } else {
            &&& new.current_addr@[2] == Some(addr)
            &&& new.header == header
            &&& new.channels == old.channels
        }
    }
}

/// One arbiter tick: the flag follows whether a channel is triggered, and the
/// winning channel makes one step.
pub open spec fn tick_step(
    old: &DMA,
    old_ram: Seq<u8>,
    new: &DMA,
    new_ram: Seq<u8>,
    r: Result<Option<u32>, DmaError>,
) -> bool {
    let clock: usize = if old.clock + 1 == 120 { 0 } else { (old.clock + 1) as usize };
    if forall|c: int| 0 <= c < 7 ==> !#[trigger] old.channels.triggered_of((c * 16) as u32) {
        &&& r == Ok::<Option<u32>, DmaError>(None)
        &&& new_ram == old_ram
        &&& *new == DMA { running: false, clock, ..*old }
    } else {
        exists|c: int|
            #![trigger is_winner(&old.channels, c)]
            is_winner(&old.channels, c) && {
                let index = (c * 16) as u32;
                let started = DMA { running: true, clock, ..*old };
                if c == 2 && old.channels.sync_of(index) == 2 {
                    list_step(&started, old_ram, new, new_ram, r)
                } else if c == 2 || c == 6 {
                    block_step(&started, old_ram, new, new_ram, index, r)
                } else {
                    r == Err::<Option<u32>, DmaError>(DmaError::Unimplemented(index)) && *new
                        == started && new_ram == old_ram
                }
            }
    }
}

pub struct DMA {
    pub channels: Channels,
    pub remaining_size: [u16; 7],
    pub current_addr: [Option<u32>; 7],
    pub header: u32,
    pub clock: usize,
    /// Asserted while a channel is active; the CPU stalls on it.
    pub running: bool,
}

proof fn lemma_index_channel(c: u32)
    requires
        c < 8,
    ensures
        ((c * 16) as u32) >> 4u32 == c,
{
    lemma_dma_bits(0, c, 0);
}

impl DMA {
    pub fn new() -> (r: DMA)
        ensures
            r.channels.reg(7, 0) == 0x0765_4321,
            forall|c: int, k: int|
                0 <= c < 8 && 0 <= k < 4 && !(c == 7 && k == 0) ==> r.channels.reg(c, k) == 0,
            r.remaining_size@ == seq![0u16, 0, 0, 0, 0, 0, 0],
            forall|c: int| 0 <= c < 7 ==> r.current_addr@[c].is_none(),
            r.header == 0x00FF_FFFF,
            !r.running,
            r.clock == 0,
    {
        let mut channels = Channels::zeroed();
        let ghost zero = channels;
        let mut ctrl = channels.channels[7];
        ctrl[0] = 0x0765_4321;
        channels.channels[7] = ctrl;
        assert forall|c: int, k: int|
            0 <= c < 8 && 0 <= k < 4 && !(c == 7 && k == 0) implies channels.reg(c, k) == 0 by {
            assert(zero.reg(c, k) == 0);
        }
        let r = DMA {
            channels,
            remaining_size: [0; 7],
            current_addr: [None; 7],
            header: 0x00FF_FFFF,
            clock: 0,
            running: false,
        };
        assert(r.remaining_size@ =~= seq![0u16, 0, 0, 0, 0, 0, 0]);
        r
    }

    /// Picks the triggered channel with the highest priority, the lowest
    /// channel among equals; returns its register index (channel × 16).
    pub fn active_channel(&self) -> (r: Option<u32>)
        ensures
            r matches Some(i) ==> i % 16 == 0 && is_winner(&self.channels, (i / 16) as int),
            r.is_none() <==> forall|c: int|
                0 <= c < 7 ==> !#[trigger] self.channels.triggered_of((c * 16) as u32),
    {
        let mut best: Option<u32> = None;
        let mut c: u32 = 0;
        while c < 7
            invariant
                c <= 7,
                best matches Some(b) ==> b < c && {
                    &&& self.channels.triggered_of((b * 16) as u32)
                    &&& forall|d: int|
                        0 <= d < c && #[trigger] self.channels.triggered_of((d * 16) as u32)
                            ==> self.channels.priority_of((d * 16) as u32)
                            <= self.channels.priority_of((b * 16) as u32)
                    &&& forall|d: int|
                        0 <= d < b && #[trigger] self.channels.triggered_of((d * 16) as u32)
                            ==> self.channels.priority_of((d * 16) as u32)
                            < self.channels.priority_of((b * 16) as u32)
                },
                best.is_none() ==> forall|d: int|
                    0 <= d < c ==> !#[trigger] self.channels.triggered_of((d * 16) as u32),
            decreases 7 - c,
        {
            let index = c * 16;
            proof {
                lemma_index_channel(c);
            }
            let trigger = self.channels.sync_type(index) != 0 || self.channels.force_transfer(index);
            if self.channels.enabled(index) && trigger {
                let p = self.channels.priority(index);
                match best {
                    None => {
                        best = Some(c);
                    },
                    Some(b) => {
                        proof {
                            lemma_index_channel(b);
                        }
                        if p > self.channels.priority(b * 16) {
                            best = Some(c);
                        }
                    },
                }
            }
            c = c + 1;
        }
        match best {
            Some(b) => Some(b * 16),
            None => None,
        }
    }

    pub fn read_register(&self, offset: u32) -> (r: u32)
        requires
            offset >> 4u32 < 8,
        ensures
            r == self.channels.at(offset),
    {
        self.channels.read(offset)
    }

    /// Base addresses keep 24 bits; the interrupt register's flag bits
    /// (24..=30) are cleared by writing ones.
    pub fn write_register(&mut self, offset: u32, value: u32)
        requires
            offset >> 4u32 < 8,
        ensures
            ({
                let stored = if offset == 0x00 || offset == 0x10 || offset == 0x20 || offset == 0x30
                    || offset == 0x40 || offset == 0x50 || offset == 0x60 {
                    value & 0x00FF_FFFF
                } else if offset == 0x74 {
                    value & !(value & 0x7F00_0000)
                } else {
                    value
                };
                forall|c: int, k: int|
                    0 <= c < 8 && 0 <= k < 4 ==> final(self).channels.reg(c, k) == if c == (offset
                        >> 4u32) && k == ((offset & 0xF) >> 2u32) {
                        stored
                    } else {
                        old(self).channels.reg(c, k)
                    }
            }),
            final(self).remaining_size == old(self).remaining_size,
            final(self).current_addr == old(self).current_addr,
            final(self).header == old(self).header,
            final(self).running == old(self).running,
            final(self).clock == old(self).clock,
    {
        if offset == 0x00 || offset == 0x10 || offset == 0x20 || offset == 0x30 || offset == 0x40
            || offset == 0x50 || offset == 0x60 {
            self.channels.write(offset, value & 0x00FF_FFFF);
        } else if offset == 0x74 {
            let mask = value & 0x7F00_0000;
            self.channels.write(offset, value & !mask);
        } else {
            self.channels.write(offset, value);
        }
    }

    pub fn bus_error(&self) -> (r: bool)
        ensures
            r == (self.channels.reg(7, 1) & 0x8000 != 0),
    {
        self.channels.channels[7][1] & 0x8000 != 0
    }

    pub fn master_interrupt_enabled(&self) -> (r: bool)
        ensures
            r == (self.channels.reg(7, 1) & 0x80_0000 != 0),
    {
        self.channels.channels[7][1] & 0x80_0000 != 0
    }

    pub fn master_interrupt(&self) -> (r: bool)
        ensures
            r == (self.channels.reg(7, 1) & 0x8000_0000 != 0),
    {
        self.channels.channels[7][1] & 0x8000_0000 != 0
    }
}

impl DMA {
    pub fn block_transfer(&mut self, index: u32, ram: &mut RAM) -> (r: Result<Option<u32>, DmaError>)
        requires
            index >> 4u32 < 7,
            old(ram).data@.len() == DRAM_SIZE,
        ensures
            final(ram).data@.len() == DRAM_SIZE,
            block_step(old(self), old(ram).data@, final(self), final(ram).data@, index, r),
    {
        let c = (index >> 4u32) as usize;
        let increment = self.channels.increment_size(index);
        let addr = match self.current_addr[c] {
            Some(a) => a,
            None => self.channels.base_address(index),
        };
        let mut remaining = self.remaining_size[c];
        if remaining == 0 {
            let sync = self.channels.sync_type(index);
            if sync == 0 {
                remaining = self.channels.word_num(index);
            } else if sync == 1 {
                remaining = self.channels.block_amount(index).wrapping_mul(
                    self.channels.block_size(index),
                );
            } else {
                return Err(DmaError::UnknownSyncMode);
            }
        }
        let towards_device = self.channels.transfer_direction(index);
        if remaining > 0 {
            if towards_device && c != 2 {
                return Err(DmaError::Unimplemented(index));
            }
            if !towards_device && c != 6 {
                return Err(DmaError::Unimplemented(index));
            }
        }
        self.current_addr[c] = Some(addr);
        self.remaining_size[c] = remaining;
        if remaining == 0 {
            return Ok(None);
        }
        let target = addr & 0x001F_FFFC;
        proof {
            lemma_dma_bits(addr, 0, 0);
        }
        let out = if towards_device {
            Some(ram.read32(target))
        } else {
            let value = if remaining == 1 {
                0x00FF_FFFF
            } else {
                addr.wrapping_sub(4) & 0x001F_FFFF
            };
            ram.write32(target, value);
            None
        };
        remaining = remaining - 1;
        self.remaining_size[c] = remaining;
        if remaining == 0 {
            self.current_addr[c] = None;
            self.channels.done(index);
        } else {
            self.current_addr[c] = Some(addr.wrapping_add(increment));
        }
        Ok(out)
    }
    pub fn linked_list_transfer(&mut self, index: u32, ram: &mut RAM) -> (r: Result<Option<u32>, DmaError>)
        requires
            index == 0x20,
            old(ram).data@.len() == DRAM_SIZE,
        ensures
            final(ram).data@.len() == DRAM_SIZE,
            list_step(old(self), old(ram).data@, final(self), final(ram).data@, r),
    {
        proof {
            lemma_dma_bits(0, 0, 0);
        }
        if !self.channels.transfer_direction(index) {
            return Err(DmaError::LinkedListToRam);
        }
        let base = self.channels.base_address(index);
        let mut remaining = self.remaining_size[2];
        if remaining == 0 {
            if self.current_addr[2].is_none() {
                self.current_addr[2] = Some(base);
                proof {
                    lemma_dma_bits(base, 0, 0);
                }
                self.header = ram.read32(base & 0x001F_FFFC);
            }
            remaining = (self.header >> 24u32) as u16;
            self.remaining_size[2] = remaining;
        }
        let cur = match self.current_addr[2] {
            Some(a) => a,
            None => base,
        };
        let mut addr = cur.wrapping_add(4) & 0x001F_FFFC;
        let ghost w = vstd::wrapping::u32_specs::wrapping_add(cur, 4);
        proof {
            lemma_dma_bits(w, 0, 0);
        }
        let out = if remaining > 0 {
            Some(ram.read32(addr))
        } else {
            None
        };
        remaining = if remaining > 0 {
            remaining - 1
        } else {
            0
        };
        self.remaining_size[2] = remaining;
        if remaining == 0 {
            if self.header & 0x0080_0000 != 0 {
                self.current_addr[2] = None;
                self.channels.done(index);
                assert(self.remaining_size@ == old(self).remaining_size@.update(2, remaining));
                assert(forall|k: int|
                    0 <= k < 7 && k != 2 ==> self.current_addr@[k] == old(self).current_addr@[k]);
                return Ok(out);
            }
            addr = self.header & 0x00FF_FFFF;
            proof {
                lemma_dma_bits(addr, 0, 0);
            }
            self.header = ram.read32(addr & 0x001F_FFFC);
        }
        self.current_addr[2] = Some(addr);
        assert(self.remaining_size@ == old(self).remaining_size@.update(2, remaining));
        assert(forall|k: int|
            0 <= k < 7 && k != 2 ==> self.current_addr@[k] == old(self).current_addr@[k]);
        Ok(out)
    }

    /// One DMA tick: arbitrate, assert or clear the running flag, and let the
    /// winning channel move one word. Returns the word sent to GP0, if any.
    pub fn tick(&mut self, ram: &mut RAM) -> (r: Result<Option<u32>, DmaError>)
        requires
            old(ram).data@.len() == DRAM_SIZE,
            old(self).clock < 120,
        ensures
            final(ram).data@.len() == DRAM_SIZE,
            final(self).clock < 120,
            tick_step(old(self), old(ram).data@, final(self), final(ram).data@, r),
    {
        self.clock = if self.clock + 1 == 120 {
            0
        } else {
            self.clock + 1
        };
        match self.active_channel() {
            None => {
                self.running = false;
                Ok(None)
            },
            Some(index) => {
                self.running = true;
                let c = index >> 4u32;
                proof {
                    lemma_dma_bits(index, 0, 0);
                }
                let ghost started = *self;
                if c == 2 {
                    assert(index == 0x20);
                    if self.channels.sync_type(index) == 2 {
                        self.linked_list_transfer(index, ram)
                    } else {
                        self.block_transfer(index, ram)
                    }
                } else if c == 6 {
                    self.block_transfer(index, ram)
                } else {
                    Err(DmaError::Unimplemented(index))
                }
            },
        }
    }
}

/// Main memory after the first `k` words of an ordering-table clear of `n`
/// words that starts at `base` and walks downwards, one block step per word.
pub open spec fn otc_memory(ram: Seq<u8>, base: u32, n: u16, k: nat) -> Seq<u8>
    decreases k,
{
    if k == 0 {
        ram
    } else {
        let j = (k - 1) as nat;
        let addr = (base - 4 * j) as u32;
        store32(otc_memory(ram, base, n, j), (addr & 0x001F_FFFC) as int, otc_value(addr, (n - j) as u16))
    }
}

proof fn lemma_store32_elsewhere(s: Seq<u8>, i: int, v: u32, j: int)
    requires
        0 <= i,
        i + 4 <= s.len(),
        0 <= j,
        j + 4 <= s.len(),
        j + 4 <= i || i + 4 <= j,
    ensures
        le32(store32(s, i, v), j) == le32(s, j),
{
}

proof fn lemma_aligned_ram_address(a: u32)
    requires
        a < 0x0020_0000,
        a % 4 == 0,
    ensures
        a & 0x001F_FFFC == a,
{
    lemma_dma_bits(0, 0, a);
}

proof fn lemma_otc_prefix(ram: Seq<u8>, base: u32, n: u16, k: nat)
    requires
        ram.len() == DRAM_SIZE,
        base < DRAM_SIZE,
        base % 4 == 0,
        1 <= n,
        4 * (n - 1) <= base,
        k <= n,
    ensures
        otc_memory(ram, base, n, k).len() == DRAM_SIZE,
        forall|j: int|
            0 <= j < k ==> #[trigger] le32(otc_memory(ram, base, n, k), base - 4 * j) == if j == n
                - 1 {
                0x00FF_FFFFu32
            } else {
                ((base - 4 * j - 4) as u32) & 0x001F_FFFF
            },
    decreases k,
{
    if k > 0 {
        let j0 = (k - 1) as nat;
        lemma_otc_prefix(ram, base, n, j0);
        let prev = otc_memory(ram, base, n, j0);
        let addr = (base - 4 * j0) as u32;
        lemma_aligned_ram_address(addr);
        let v = otc_value(addr, (n - j0) as u16);
        assert(otc_memory(ram, base, n, k) == store32(prev, addr as int, v));
        lemma_load_store32(prev, addr as int, v);
        assert forall|j: int| 0 <= j < k implies #[trigger] le32(otc_memory(ram, base, n, k), base - 4
            * j) == if j == n - 1 {
            0x00FF_FFFFu32
        } else {
            ((base - 4 * j - 4) as u32) & 0x001F_FFFF
        } by {
            if j < j0 {
                lemma_store32_elsewhere(prev, addr as int, v, base - 4 * j);
            } else {
                if j != n - 1 {
                    assert(addr >= 4);
                    assert(vstd::wrapping::u32_specs::wrapping_sub(addr, 4) == (base - 4 * j
                        - 4) as u32);
                }
            }
        }
    }
}

/// An ordering-table clear of `n` words from `base` downwards leaves, at
/// `base - 4k`, the address of the entry below it (`base - 4k - 4`, in 21
/// bits) for every `k < n - 1`, and the end marker 0x00FFFFFF at the lowest
/// entry `base - 4(n - 1)`.
pub proof fn lemma_otc_list(ram: Seq<u8>, base: u32, n: u16)
    requires
        ram.len() == DRAM_SIZE,
        base < DRAM_SIZE,
        base % 4 == 0,
        1 <= n,
        4 * (n - 1) <= base,
    ensures
        le32(otc_memory(ram, base, n, n as nat), base - 4 * (n - 1)) == 0x00FF_FFFFu32,
        forall|k: int|
            0 <= k < n - 1 ==> #[trigger] le32(otc_memory(ram, base, n, n as nat), base - 4 * k) == ((
            base - 4 * k - 4) as u32) & 0x001F_FFFF,
{
    lemma_otc_prefix(ram, base, n, n as nat);
    assert(le32(otc_memory(ram, base, n, n as nat), base - 4 * (n - 1)) == 0x00FF_FFFFu32);
    assert forall|k: int| 0 <= k < n - 1 implies #[trigger] le32(otc_memory(ram, base, n, n as nat), base
        - 4 * k) == ((base - 4 * k - 4) as u32) & 0x001F_FFFF by {
        assert(le32(otc_memory(ram, base, n, n as nat), base - 4 * k) == ((base - 4 * k - 4) as u32)
            & 0x001F_FFFF);
    }
}

} // verus!
