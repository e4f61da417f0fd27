//! CD-ROM controller: banked registers, parameter and result FIFOs, command
//! dispatch, a delayed interrupt queue and sector streaming.
use vstd::prelude::*;

use crate::disk::{DiskAddress, DiskMap, SECTOR_DATA};
use crate::interrupt::{Interrupt, IRQ};
use crate::system_control::SystemControl;

verus! {

/// Ticks before a first response's interrupt.
pub const AVERAGE_IRQ_DELAY: usize = 0xC4E1;

pub const INIT_FIRST_DELAY: usize = 0x0001_3CCE;

pub const INIT_SECOND_DELAY: usize = 440_000;

pub const SEEKL_SECOND_DELAY: usize = 440_000;

pub const ID_SECOND_DELAY: usize = 0x4A00;

/// Ticks between sectors at single speed.
pub const INT1_RATE_SINGLE: usize = 0x0006_E1CD;

/// Ticks between sectors at double speed.
pub const INT1_RATE_DOUBLE: usize = 0x0003_6CD2;

pub const STATUS_PLAY: u8 = 0x80;

pub const STATUS_SEEK: u8 = 0x40;

pub const STATUS_READ: u8 = 0x20;

pub const MODE_SPEED: u8 = 0x80;

pub const MODE_SECTOR_SIZE: u8 = 0x20;

pub const HSTS: usize = 0;

pub const RESULT: usize = 1;

pub const RDDATA: usize = 2;

pub const HINTMSK: usize = 3;

pub const HINTSTS: usize = 4;

pub const ADDRESS: usize = 0;

pub const COMMAND: usize = 5;

pub const PARAMETER: usize = 6;

pub const HCHPCTL: usize = 7;

pub const WRDATA: usize = 8;

pub const HCLRCTL: usize = 9;

pub const CI: usize = 10;

pub const ATV0: usize = 11;

pub const ATV1: usize = 12;

pub const ATV2: usize = 13;

pub const ATV3: usize = 14;

pub const ADPCTL: usize = 15;

/// The register a read of port `offset` reaches in bank `bank`.
pub open spec fn read_register_of(bank: int, offset: int) -> usize {
    if offset == 0 {
        HSTS
    } else if offset == 1 {
        RESULT
    } else if offset == 2 {
        RDDATA
    } else if bank % 2 == 0 {
        HINTMSK
    } else {
        HINTSTS
    }
}

/// The register a write to port `offset` reaches in bank `bank`.
pub open spec fn write_register_of(bank: int, offset: int) -> usize {
    if offset == 0 {
        ADDRESS
    } else if bank == 0 {
        if offset == 1 {
            COMMAND
        } else if offset == 2 {
            PARAMETER
        } else {
            HCHPCTL
        }
    } else if bank == 1 {
        if offset == 1 {
            WRDATA
        } else if offset == 2 {
            HINTMSK
        } else {
            HCLRCTL
        }
    } else if bank == 2 {
        if offset == 1 {
            CI
        } else if offset == 2 {
            ATV0
        } else {
            ATV1
        }
    } else {
        if offset == 1 {
            ATV2
        } else if offset == 2 {
            ATV3
        } else {
            ADPCTL
        }
    }
}

/// The work done when a delayed interrupt fires.
#[derive(Debug, Clone, Copy, PartialEq, Eq, Structural)]
pub enum SecondResponse {
    Init,
    Pause,
    ReadN,
    SeekL,
    GetId,
}

/// A queued interrupt: its number, the ticks until it fires, and what follows it.
#[derive(Debug, Clone, Copy, PartialEq, Eq, Structural)]
pub struct CD_ROM_INT {
    pub num: u8,
    pub delay: usize,
    pub func: Option<SecondResponse>,
}

#[derive(Debug, Clone, Copy, PartialEq, Eq, Structural)]
pub enum CdRomError {
    /// A command byte with no handler.
    UnknownCommand(u8),
    /// A Test sub-operation with no handler.
    UnknownTestSubOp(u8),
    /// A command found fewer parameters than it takes.
    MissingParameter,
}

/// The firmware version reported by Test 0x20.
pub open spec fn version_bytes() -> Seq<u8> {
    seq![0x94u8, 0x09, 0x19, 0xC0]
}

/// The GetID answer for a Mode 1 data disk.
pub open spec fn disk_mode1_bytes() -> Seq<u8> {
    seq![0x02u8, 0x00, 0x00, 0x00, 0x53, 0x43, 0x45, 0x41]
}

/// The delay of the second Pause interrupt, by whether the drive was idle and its speed.
pub open spec fn pause_delay(status: u8, mode: u8) -> usize {
    if status & 0xE0 == 0 {
        0x0000_1DF2
    } else if mode & MODE_SPEED != 0 {
        0x0010_BD93
    } else {
        0x0021_181C
    }
}

/// Ticks between sectors for the drive mode.
pub open spec fn int1_rate(mode: u8) -> usize {
    if mode & MODE_SPEED != 0 {
        INT1_RATE_DOUBLE
    } else {
        INT1_RATE_SINGLE
    }
}

pub open spec fn int_fits(i: CD_ROM_INT) -> bool {
    i.delay >= 1
}

pub struct CD_ROM {
    pub disk: DiskMap,
    /// The sector being read and the next one: sector index, and whether the
    /// whole 0x924 bytes are read.
    pub sector_buffer: [Option<(usize, bool)>; 2],
    pub sector_pointer: usize,
    pub status: u8,
    pub mode: u8,
    pub mute: bool,
    pub registers: [u8; 16],
    pub current_bank: usize,
    pub parameters: Vec<u8>,
    pub result_fifo: [u8; 16],
    pub result_idx: usize,
    pub result_size: usize,
    pub result_fifo_empty: bool,
    pub int_queue: Vec<CD_ROM_INT>,
    pub pending_int: Option<CD_ROM_INT>,
    pub seek_target: DiskAddress,
    pub read_addr: DiskAddress,
}

/// The controller's state apart from the disk.
pub struct CdRomView {
    pub sector_buffer: Seq<Option<(usize, bool)>>,
    pub sector_pointer: usize,
    pub status: u8,
    pub mode: u8,
    pub mute: bool,
    pub registers: Seq<u8>,
    pub current_bank: usize,
    pub parameters: Seq<u8>,
    pub result_fifo: Seq<u8>,
    pub result_idx: usize,
    pub result_size: usize,
    pub result_fifo_empty: bool,
    pub int_queue: Seq<CD_ROM_INT>,
    pub pending_int: Option<CD_ROM_INT>,
    pub seek_target: DiskAddress,
    pub read_addr: DiskAddress,
}

impl View for CD_ROM {
    type V = CdRomView;

    open spec fn view(&self) -> CdRomView {
        CdRomView {
            sector_buffer: self.sector_buffer@,
            sector_pointer: self.sector_pointer,
            status: self.status,
            mode: self.mode,
            mute: self.mute,
            registers: self.registers@,
            current_bank: self.current_bank,
            parameters: self.parameters@,
            result_fifo: self.result_fifo@,
            result_idx: self.result_idx,
            result_size: self.result_size,
            result_fifo_empty: self.result_fifo_empty,
            int_queue: self.int_queue@,
            pending_int: self.pending_int,
            seek_target: self.seek_target,
            read_addr: self.read_addr,
        }
    }
}

/// `fifo` with `bytes` copied in from position `at`.
pub open spec fn copy_into(fifo: Seq<u8>, at: int, bytes: Seq<u8>) -> Seq<u8> {
    Seq::new(
        fifo.len(),
        |j: int|
            if at <= j < at + bytes.len() {
                bytes[j - at]
            } else {
                fifo[j]
            },
    )
}

/// The state after the status byte is answered and interrupt `num` is queued.
pub open spec fn sent(v: CdRomView, num: u8, delay: usize, func: Option<SecondResponse>) -> CdRomView {
    CdRomView {
        result_fifo: v.result_fifo.update(v.result_idx as int, v.status),
        result_size: 0,
        result_fifo_empty: false,
        int_queue: v.int_queue.push(CD_ROM_INT { num, delay, func }),
        ..v
    }
}

pub open spec fn not_sector_int(i: CD_ROM_INT) -> bool {
    i.num != 1
}

/// Keeps the entries that are not sector interrupts.
pub open spec fn keep_non_sector() -> spec_fn(CD_ROM_INT) -> bool {
    |i: CD_ROM_INT| not_sector_int(i)
}

/// Pause: sector interrupts are dropped, queued or pending.
pub open spec fn paused(v: CdRomView) -> CdRomView {
    let dropped = CdRomView {
        int_queue: v.int_queue.filter(keep_non_sector()),
        pending_int: match v.pending_int {
            Some(p) => if p.num == 1 {
                None
            } else {
                Some(p)
            },
            None => None,
        },
        ..v
    };
    sent(dropped, 3, AVERAGE_IRQ_DELAY, Some(SecondResponse::Pause))
}

pub open spec fn pause_second(v: CdRomView) -> CdRomView {
    let stopped = CdRomView {
        sector_buffer: seq![None, None],
        status: v.status & !(STATUS_PLAY | STATUS_SEEK | STATUS_READ),
        ..v
    };
    sent(stopped, 2, pause_delay(v.status, v.mode), None)
}

pub open spec fn inited(v: CdRomView) -> CdRomView {
    let reset = CdRomView { mode: 0x20, int_queue: Seq::empty(), pending_int: None, ..v };
    sent(reset, 3, INIT_FIRST_DELAY, Some(SecondResponse::Init))
}

pub open spec fn seek_started(v: CdRomView) -> CdRomView {
    let seeking = CdRomView {
        read_addr: v.seek_target,
        status: (v.status | STATUS_SEEK) & !(STATUS_READ | STATUS_PLAY),
        ..v
    };
    sent(seeking, 3, AVERAGE_IRQ_DELAY, Some(SecondResponse::SeekL))
}

pub open spec fn seek_second(v: CdRomView) -> CdRomView {
    let done = CdRomView { status: v.status & !(STATUS_READ | STATUS_SEEK | STATUS_PLAY), ..v };
    sent(done, 2, SEEKL_SECOND_DELAY, None)
}

pub open spec fn read_started(v: CdRomView) -> CdRomView {
    let reading = CdRomView { sector_pointer: 0, read_addr: v.seek_target, ..v };
    sent(reading, 3, AVERAGE_IRQ_DELAY, Some(SecondResponse::ReadN))
}

pub open spec fn version_sent(v: CdRomView) -> CdRomView {
    CdRomView {
        result_fifo: copy_into(v.result_fifo, v.result_idx as int, version_bytes()),
        result_size: 3,
        result_fifo_empty: false,
        int_queue: v.int_queue.push(CD_ROM_INT { num: 3, delay: AVERAGE_IRQ_DELAY, func: None }),
        ..v
    }
}

pub open spec fn id_second(v: CdRomView) -> CdRomView {
    CdRomView {
        result_idx: 0,
        result_size: 8,
        result_fifo: copy_into(v.result_fifo, 0, disk_mode1_bytes()),
        int_queue: v.int_queue.push(CD_ROM_INT { num: 2, delay: ID_SECOND_DELAY, func: None }),
        ..v
    }
}

/// The sector slots after `index` is loaded: the newest goes behind the one
/// being read, or into both slots when nothing was being read.
pub open spec fn loaded(buffer: Seq<Option<(usize, bool)>>, entry: (usize, bool)) -> Seq<
    Option<(usize, bool)>,
> {
    let first = buffer[1];
    match first {
        Some(_) => seq![first, Some(entry)],
        None => seq![Some(entry), Some(entry)],
    }
}

/// ReadN's periodic response: deliver the sector at `read_addr` and advance,
/// or report an error interrupt when the disk has no such sector.
pub open spec fn read_second(v: CdRomView, index: Map<u32, usize>) -> CdRomView {
    let key = v.read_addr.key_spec();
    if index.contains_key(key) {
        let streaming = CdRomView {
            sector_buffer: loaded(v.sector_buffer, (index[key], v.mode & MODE_SECTOR_SIZE != 0)),
            status: (v.status | STATUS_READ) & !(STATUS_SEEK | STATUS_PLAY),
            ..v
        };
        let answered = sent(streaming, 1, int1_rate(v.mode), Some(SecondResponse::ReadN));
        CdRomView { read_addr: v.read_addr.incremented(), ..answered }
    } else {
        CdRomView {
            int_queue: v.int_queue.push(CD_ROM_INT { num: 4, delay: int1_rate(v.mode), func: None }),
            ..v
        }
    }
}

/// The state after a second response runs.
pub open spec fn responded(v: CdRomView, f: SecondResponse, index: Map<u32, usize>) -> CdRomView {
    match f {
        SecondResponse::Init => sent(v, 2, INIT_SECOND_DELAY, None),
        SecondResponse::Pause => pause_second(v),
        SecondResponse::ReadN => read_second(v, index),
        SecondResponse::SeekL => seek_second(v),
        SecondResponse::GetId => id_second(v),
    }
}

/// One tick of the interrupt pipeline.
pub open spec fn ticked(v: CdRomView, index: Map<u32, usize>) -> CdRomView {
    match v.pending_int {
        None => if v.int_queue.len() > 0 {
            CdRomView { pending_int: Some(v.int_queue[0]), int_queue: v.int_queue.drop_first(), ..v }
        } else {
            v
        },
        Some(p) => if p.delay == 1 {
            let fired = CdRomView {
                registers: v.registers.update(
                    HINTSTS as int,
                    (v.registers[HINTSTS as int] & !7u8) | p.num,
                ),
                pending_int: None,
                ..v
            };
            match p.func {
                Some(f) => responded(fired, f, index),
                None => fired,
            }
        } else {
            CdRomView { pending_int: Some(CD_ROM_INT { delay: (p.delay - 1) as usize, ..p }), ..v }
        },
    }
}

/// Whether a tick raises the CD-ROM interrupt line.
pub open spec fn tick_fires(v: CdRomView) -> bool {
    match v.pending_int {
        Some(p) => p.delay == 1 && v.registers[HINTMSK as int] & ((v.registers[HINTSTS as int]
            & !7u8) | p.num) != 0,
        None => false,
    }
}

/// Whether a command byte has a handler, and finds the parameters it takes.
pub open spec fn command_ok(command: u8, parameters: Seq<u8>) -> bool {
    if command == 0x02 {
        parameters.len() >= 3
    } else if command == 0x0E {
        parameters.len() >= 1
    } else if command == 0x19 {
        parameters.len() >= 1 && parameters[0] == 0x20
    } else {
        command == 0x01 || command == 0x06 || command == 0x09 || command == 0x0A || command == 0x0C
            || command == 0x15 || command == 0x1A
    }
}

/// The error a command byte gives when it cannot run.
pub open spec fn command_error(command: u8, parameters: Seq<u8>) -> CdRomError {
    if command == 0x19 && parameters.len() >= 1 {
        CdRomError::UnknownTestSubOp(parameters[0])
    } else if command == 0x02 || command == 0x0E || command == 0x19 {
        CdRomError::MissingParameter
    } else {
        CdRomError::UnknownCommand(command)
    }
}

/// The state after a command that can run, with the result index reset first.
pub open spec fn executed(v0: CdRomView, command: u8) -> CdRomView {
    let v = CdRomView { result_idx: 0, ..v0 };
    if command == 0x01 {
        sent(v, 3, AVERAGE_IRQ_DELAY, None)
    } else if command == 0x02 {
        let located = CdRomView {
            seek_target: DiskAddress {
                min: v.parameters[0],
                sec: v.parameters[1],
                frame: v.parameters[2],
            },
            parameters: v.parameters.subrange(3, v.parameters.len() as int),
            ..v
        };
        sent(located, 3, AVERAGE_IRQ_DELAY, None)
    } else if command == 0x06 {
        read_started(v)
    } else if command == 0x09 {
        paused(v)
    } else if command == 0x0A {
        inited(v)
    } else if command == 0x0C {
        sent(CdRomView { mute: false, ..v }, 3, AVERAGE_IRQ_DELAY, None)
    } else if command == 0x0E {
        let moded = CdRomView {
            mode: v.parameters[0],
            parameters: v.parameters.subrange(1, v.parameters.len() as int),
            ..v
        };
        sent(moded, 3, AVERAGE_IRQ_DELAY, None)
    } else if command == 0x15 {
        seek_started(v)
    } else if command == 0x19 {
        version_sent(CdRomView { parameters: v.parameters.subrange(1, v.parameters.len() as int), ..v })
    } else {
        sent(v, 3, AVERAGE_IRQ_DELAY, Some(SecondResponse::GetId))
    }
}

/// The status register as a read refreshes it: parameter FIFO empty in bit 3,
/// result FIFO non-empty in bit 5.
pub open spec fn hsts_value(v: CdRomView) -> u8 {
    let r0 = v.registers[HSTS as int];
    let p: u8 = if v.parameters.len() == 0 { 0x08 } else { 0 };
    let q: u8 = if !v.result_fifo_empty { 0x20 } else { 0 };
    (((r0 & !0x08u8) | p) & !0x20u8) | q
}

/// The byte offset within the kept sector data that a data read takes, and
/// the read position after it.
pub open spec fn data_cursor(pointer: usize, whole: bool) -> (usize, usize) {
    if whole {
        (pointer, if pointer + 1 == 0x924 { 0 } else { (pointer + 1) as usize })
    } else {
        let q: usize = if pointer < 0x800 { pointer } else { 0 };
        ((q + 12) as usize, if q + 1 == 0x800 { 0 } else { (q + 1) as usize })
    }
}

/// The state after a register write other than a command.
pub open spec fn register_written(v: CdRomView, reg: usize, value: u8) -> CdRomView {
    if reg == ADDRESS {
        CdRomView {
            registers: v.registers.update(
                ADDRESS as int,
                (v.registers[ADDRESS as int] & !3u8) | (value & 3),
            ),
            ..v
        }
    } else if reg == PARAMETER {
        CdRomView {
            parameters: v.parameters.push(value),
            registers: v.registers.update(ADDRESS as int, v.registers[ADDRESS as int] | 0x10),
            ..v
        }
    } else if reg == HCLRCTL {
        CdRomView {
            registers: v.registers.update(
                HINTSTS as int,
                v.registers[HINTSTS as int] & !(value & 0x1F),
            ),
            parameters: if value & 0x40 != 0 {
                Seq::empty()
            } else {
                v.parameters
            },
            ..v
        }
    } else {
        CdRomView { registers: v.registers.update(reg as int, value), ..v }
    }
}

/// The bank selected by the address register.
pub open spec fn with_bank(v: CdRomView) -> CdRomView {
    CdRomView { current_bank: (v.registers[ADDRESS as int] & 3) as usize, ..v }
}

impl CD_ROM {
    pub open spec fn wf(&self) -> bool {
        &&& self.disk.wf()
        &&& self.current_bank < 4
        &&& self.result_idx < 16
        &&& self.sector_pointer < SECTOR_DATA
        &&& forall|i: int|
            0 <= i < 2 ==> (#[trigger] self.sector_buffer@[i] matches Some(p) ==> p.0
                < self.disk.sectors@.len())
        &&& forall|i: int| 0 <= i < self.int_queue@.len() ==> int_fits(#[trigger] self.int_queue@[i])
        &&& self.pending_int matches Some(p) ==> int_fits(p)
    }

    pub fn new(disk: DiskMap) -> (r: CD_ROM)
        requires
            disk.wf(),
        ensures
            r.wf(),
            r.disk == disk,
            r.status == 0x02,
            r.mode == 0,
            r.current_bank == 0,
            r.parameters@.len() == 0,
            r.int_queue@.len() == 0,
            r.pending_int.is_none(),
            r.registers@ == Seq::new(16, |i: int| 0u8),
            r.sector_buffer@ == seq![None::<(usize, bool)>, None],
    {
        let r = CD_ROM {
            disk,
            sector_buffer: [None, None],
            sector_pointer: 0,
            status: 0x02,
            mode: 0,
            mute: false,
            registers: [0; 16],
            current_bank: 0,
            parameters: Vec::new(),
            result_fifo: [0; 16],
            result_idx: 0,
            result_size: 0,
            result_fifo_empty: false,
            int_queue: Vec::new(),
            pending_int: None,
            seek_target: DiskAddress { min: 0, sec: 0, frame: 0 },
            read_addr: DiskAddress { min: 0, sec: 0, frame: 0 },
        };
        assert(r.registers@ =~= Seq::new(16, |i: int| 0u8));
        assert(r.sector_buffer@ =~= seq![None::<(usize, bool)>, None]);
        r
    }

    /// Answers with the status byte and queues interrupt `num` after `delay`
    /// ticks (the average delay when none is given), followed by `func`.
    pub fn send_status(&mut self, num: u8, delay: Option<usize>, func: Option<SecondResponse>)
        requires
            old(self).wf(),
            delay matches Some(d) ==> d >= 1,
        ensures
            final(self).wf(),
            final(self).disk == old(self).disk,
            final(self)@ == sent(
                old(self)@,
                num,
                match delay {
                    Some(d) => d,
                    None => AVERAGE_IRQ_DELAY,
                },
                func,
            ),
    {
        self.result_fifo[self.result_idx] = self.status;
        self.result_size = 0;
        self.result_fifo_empty = false;
        let d = match delay {
            Some(d) => d,
            None => AVERAGE_IRQ_DELAY,
        };
        self.int_queue.push(CD_ROM_INT { num, delay: d, func });
    }

    fn pop_parameter(&mut self) -> (r: u8)
        requires
            old(self).parameters@.len() >= 1,
        ensures
            r == old(self).parameters@[0],
            final(self).parameters@ == old(self).parameters@.subrange(
                1,
                old(self).parameters@.len() as int,
            ),
            final(self)@ == (CdRomView { parameters: final(self).parameters@, ..old(self)@ }),
            final(self).disk == old(self).disk,
            final(self).int_queue == old(self).int_queue,
            final(self).pending_int == old(self).pending_int,
            final(self).sector_buffer == old(self).sector_buffer,
    {
        self.parameters.remove(0)
    }

    pub fn setloc(&mut self)
        requires
            old(self).wf(),
            old(self).parameters@.len() >= 3,
        ensures
            final(self).wf(),
            final(self).disk == old(self).disk,
            final(self)@ == sent(
                CdRomView {
                    seek_target: DiskAddress {
                        min: old(self).parameters@[0],
                        sec: old(self).parameters@[1],
                        frame: old(self).parameters@[2],
                    },
                    parameters: old(self).parameters@.subrange(3, old(self).parameters@.len() as int),
                    ..old(self)@
                },
                3,
                AVERAGE_IRQ_DELAY,
                None,
            ),
    {
        let min = self.pop_parameter();
        let sec = self.pop_parameter();
        let frame = self.pop_parameter();
        self.seek_target = DiskAddress { min, sec, frame };
        assert(self.parameters@ =~= old(self).parameters@.subrange(3, old(self).parameters@.len() as int));
        self.send_status(3, None, None);
    }

    pub fn setmode(&mut self)
        requires
            old(self).wf(),
            old(self).parameters@.len() >= 1,
        ensures
            final(self).wf(),
            final(self).disk == old(self).disk,
            final(self)@ == sent(
                CdRomView {
                    mode: old(self).parameters@[0],
                    parameters: old(self).parameters@.subrange(1, old(self).parameters@.len() as int),
                    ..old(self)@
                },
                3,
                AVERAGE_IRQ_DELAY,
                None,
            ),
    {
        self.mode = self.pop_parameter();
        self.send_status(3, None, None);
    }

    pub fn demute(&mut self)
        requires
            old(self).wf(),
        ensures
            final(self).wf(),
            final(self).disk == old(self).disk,
            final(self)@ == sent(CdRomView { mute: false, ..old(self)@ }, 3, AVERAGE_IRQ_DELAY, None),
    {
        self.mute = false;
        self.send_status(3, None, None);
    }

    pub fn init(&mut self)
        requires
            old(self).wf(),
        ensures
            final(self).wf(),
            final(self).disk == old(self).disk,
            final(self)@ == inited(old(self)@),
    {
        self.mode = 0x20;
        self.int_queue.clear();
        self.pending_int = None;
        assert(self.int_queue@ =~= Seq::<CD_ROM_INT>::empty());
        self.send_status(3, Some(INIT_FIRST_DELAY), Some(SecondResponse::Init));
    }

    pub fn init_second_response(&mut self)
        requires
            old(self).wf(),
        ensures
            final(self).wf(),
            final(self).disk == old(self).disk,
            final(self)@ == sent(old(self)@, 2, INIT_SECOND_DELAY, None),
    {
        self.send_status(2, Some(INIT_SECOND_DELAY), None);
    }

    pub fn pause(&mut self)
        requires
            old(self).wf(),
        ensures
            final(self).wf(),
            final(self).disk == old(self).disk,
            final(self)@ == paused(old(self)@),
    {
        let ghost q = self.int_queue@;
        let ghost pred = keep_non_sector();
        let mut kept: Vec<CD_ROM_INT> = Vec::new();
        let mut k: usize = 0;
        proof {
            reveal(Seq::filter);
            assert(q.take(0) =~= Seq::<CD_ROM_INT>::empty());
        }
        while k < self.int_queue.len()
            invariant
                q == self.int_queue@,
                pred == keep_non_sector(),
                k <= q.len(),
                kept@ == q.take(k as int).filter(pred),
                forall|i: int| 0 <= i < q.len() ==> int_fits(#[trigger] q[i]),
                forall|i: int| 0 <= i < kept@.len() ==> int_fits(#[trigger] kept@[i]),
            decreases q.len() - k,
        {
            let entry = self.int_queue[k];
            assert(q.take(k + 1).drop_last() =~= q.take(k as int));
            assert(q.take(k + 1).last() == entry);
            assert(pred(entry) == (entry.num != 1));
            reveal(Seq::filter);
            assert(q.take(k + 1).filter(pred) == (if pred(entry) {
                q.take(k as int).filter(pred).push(entry)
            } else {
                q.take(k as int).filter(pred)
            }));
            if entry.num != 1 {
                kept.push(entry);
            }
            k = k + 1;
        }
        assert(q.take(q.len() as int) =~= q);
        self.int_queue = kept;
        match self.pending_int {
            Some(p) => {
                if p.num == 1 {
                    self.pending_int = None;
                }
            },
            None => {},
        }
        self.send_status(3, None, Some(SecondResponse::Pause));
    }

    pub fn pause_second_response(&mut self)
        requires
            old(self).wf(),
        ensures
            final(self).wf(),
            final(self).disk == old(self).disk,
            final(self)@ == pause_second(old(self)@),
    {
        let delay = if self.status & 0xE0 == 0 {
            0x0000_1DF2
        } else if self.mode & MODE_SPEED != 0 {
            0x0010_BD93
        } else {
            0x0021_181C
        };
        self.sector_buffer = [None, None];
        self.status = self.status & !(STATUS_PLAY | STATUS_SEEK | STATUS_READ);
        assert(self.sector_buffer@ =~= seq![None::<(usize, bool)>, None]);
        self.send_status(2, Some(delay), None);
    }

    pub fn seekL(&mut self)
        requires
            old(self).wf(),
        ensures
            final(self).wf(),
            final(self).disk == old(self).disk,
            final(self)@ == seek_started(old(self)@),
    {
        self.read_addr = self.seek_target;
        self.status = (self.status | STATUS_SEEK) & !(STATUS_READ | STATUS_PLAY);
        self.send_status(3, None, Some(SecondResponse::SeekL));
    }

    pub fn seekL_second_response(&mut self)
        requires
            old(self).wf(),
        ensures
            final(self).wf(),
            final(self).disk == old(self).disk,
            final(self)@ == seek_second(old(self)@),
    {
        self.status = self.status & !(STATUS_READ | STATUS_SEEK | STATUS_PLAY);
        self.send_status(2, Some(SEEKL_SECOND_DELAY), None);
    }

    pub fn readN(&mut self)
        requires
            old(self).wf(),
        ensures
            final(self).wf(),
            final(self).disk == old(self).disk,
            final(self)@ == read_started(old(self)@),
    {
        self.sector_pointer = 0;
        self.read_addr = self.seek_target;
        self.send_status(3, None, Some(SecondResponse::ReadN));
    }

    fn load_sector(&mut self, index: usize, whole: bool)
        requires
            old(self).wf(),
            index < old(self).disk.sectors@.len(),
        ensures
            final(self).wf(),
            final(self).disk == old(self).disk,
            final(self)@ == (CdRomView {
                sector_buffer: loaded(old(self).sector_buffer@, (index, whole)),
                ..old(self)@
            }),
    {
        let first = self.sector_buffer[1];
        match first {
            Some(_) => {
                self.sector_buffer = [first, Some((index, whole))];
            },
            None => {
                self.sector_buffer = [Some((index, whole)), Some((index, whole))];
            },
        }
        assert(self.sector_buffer@ =~= loaded(old(self).sector_buffer@, (index, whole)));
    }

    pub fn readN_second_response(&mut self)
        requires
            old(self).wf(),
        ensures
            final(self).wf(),
            final(self).disk == old(self).disk,
            final(self)@ == read_second(old(self)@, old(self).disk.index@),
    {
        let rate = if self.mode & MODE_SPEED != 0 {
            INT1_RATE_DOUBLE
        } else {
            INT1_RATE_SINGLE
        };
        let key = self.read_addr.key();
        match self.disk.index.get(&key) {
            Some(i) => {
                let i = *i;
                let whole = self.mode & MODE_SECTOR_SIZE != 0;
                self.load_sector(i, whole);
                self.status = (self.status | STATUS_READ) & !(STATUS_SEEK | STATUS_PLAY);
                self.send_status(1, Some(rate), Some(SecondResponse::ReadN));
                self.read_addr.increment();
            },
            None => {
                self.int_queue.push(CD_ROM_INT { num: 4, delay: rate, func: None });
            },
        }
    }

    pub fn get_id(&mut self)
        requires
            old(self).wf(),
        ensures
            final(self).wf(),
            final(self).disk == old(self).disk,
            final(self)@ == sent(old(self)@, 3, AVERAGE_IRQ_DELAY, Some(SecondResponse::GetId)),
    {
        self.send_status(3, None, Some(SecondResponse::GetId));
    }

    pub fn get_id_second_response(&mut self)
        requires
            old(self).wf(),
        ensures
            final(self).wf(),
            final(self).disk == old(self).disk,
            final(self)@ == id_second(old(self)@),
    {
        self.result_idx = 0;
        self.result_size = 8;
        self.result_fifo[0] = 0x02;
        self.result_fifo[1] = 0x00;
        self.result_fifo[2] = 0x00;
        self.result_fifo[3] = 0x00;
        self.result_fifo[4] = 0x53;
        self.result_fifo[5] = 0x43;
        self.result_fifo[6] = 0x45;
        self.result_fifo[7] = 0x41;
        assert(self.result_fifo@ =~= copy_into(old(self).result_fifo@, 0, disk_mode1_bytes()));
        self.int_queue.push(CD_ROM_INT { num: 2, delay: ID_SECOND_DELAY, func: None });
    }

    pub fn test_version(&mut self)
        requires
            old(self).wf(),
            old(self).result_idx + 4 <= 16,
        ensures
            final(self).wf(),
            final(self).disk == old(self).disk,
            final(self)@ == version_sent(old(self)@),
    {
        let i = self.result_idx;
        self.result_fifo[i] = 0x94;
        self.result_fifo[i + 1] = 0x09;
        self.result_fifo[i + 2] = 0x19;
        self.result_fifo[i + 3] = 0xC0;
        assert(self.result_fifo@ =~= copy_into(old(self).result_fifo@, i as int, version_bytes()));
        self.result_size = 3;
        self.result_fifo_empty = false;
        self.int_queue.push(CD_ROM_INT { num: 3, delay: AVERAGE_IRQ_DELAY, func: None });
    }

    /// Test: only sub-operation 0x20 (firmware version) is handled.
    pub fn test(&mut self) -> (r: Result<(), CdRomError>)
        requires
            old(self).wf(),
            old(self).result_idx + 4 <= 16,
        ensures
            final(self).wf(),
            final(self).disk == old(self).disk,
            r.is_ok() <==> old(self).parameters@.len() >= 1 && old(self).parameters@[0] == 0x20,
            r.is_ok() ==> final(self)@ == version_sent(
                CdRomView {
                    parameters: old(self).parameters@.subrange(1, old(self).parameters@.len() as int),
                    ..old(self)@
                },
            ),
            r matches Err(e) ==> e == command_error(0x19, old(self).parameters@) && final(self)@
                == old(self)@,
    {
        if self.parameters.len() == 0 {
            return Err(CdRomError::MissingParameter);
        }
        let sub_op = self.parameters[0];
        if sub_op != 0x20 {
            return Err(CdRomError::UnknownTestSubOp(sub_op));
        }
        self.pop_parameter();
        self.test_version();
        Ok(())
    }
}

impl CD_ROM {
    fn respond(&mut self, f: SecondResponse)
        requires
            old(self).wf(),
        ensures
            final(self).wf(),
            final(self).disk == old(self).disk,
            final(self)@ == responded(old(self)@, f, old(self).disk.index@),
    {
        match f {
            SecondResponse::Init => self.init_second_response(),
            SecondResponse::Pause => self.pause_second_response(),
            SecondResponse::ReadN => self.readN_second_response(),
            SecondResponse::SeekL => self.seekL_second_response(),
            SecondResponse::GetId => self.get_id_second_response(),
        }
    }

    /// Counts down the pending interrupt; when it fires, latches its number in
    /// HINTSTS, raises the CD-ROM line if unmasked and runs its second response.
    /// With none pending, the next queued interrupt becomes pending.
    pub fn tick(&mut self, interrupt: &mut Interrupt, cop0: &mut SystemControl)
        requires
            old(self).wf(),
        ensures
            final(self).wf(),
            final(self).disk == old(self).disk,
            final(self)@ == ticked(old(self)@, old(self).disk.index@),
            final(interrupt).I_MASK == old(interrupt).I_MASK,
            final(interrupt).I_STAT == (if tick_fires(old(self)@) {
                old(interrupt).I_STAT | 0x004
            } else {
                old(interrupt).I_STAT
            }),
    {
        match self.pending_int {
            Some(p) => {
                if p.delay == 1 {
                    let sts = (self.registers[HINTSTS] & !7u8) | p.num;
                    self.registers[HINTSTS] = sts;
                    if self.registers[HINTMSK] & sts != 0 {
                        interrupt.request(IRQ::CDROM, cop0);
                    }
                    self.pending_int = None;
                    match p.func {
                        Some(f) => self.respond(f),
                        None => {},
                    }
                } else {
                    self.pending_int = Some(CD_ROM_INT { delay: p.delay - 1, ..p });
                }
            },
            None => {
                if self.int_queue.len() > 0 {
                    let next = self.int_queue.remove(0);
                    self.pending_int = Some(next);
                    assert(self.int_queue@ =~= old(self).int_queue@.drop_first());
                }
            },
        }
    }

    fn read_data(&mut self) -> (r: u8)
        requires
            old(self).wf(),
        ensures
            final(self).wf(),
            final(self).disk == old(self).disk,
            match old(self).sector_buffer@[0] {
                None => r == 0 && final(self)@ == old(self)@,
                Some(slot) => {
                    let c = data_cursor(old(self).sector_pointer, slot.1);
                    &&& r == old(self).disk.sectors@[slot.0 as int].data@[c.0 as int]
                    &&& final(self)@ == (CdRomView { sector_pointer: c.1, ..old(self)@ })
                }
            },
    {
        match self.sector_buffer[0] {
            None => 0,
            Some(slot) => {
                let sector = &self.disk.sectors[slot.0];
                assert(sector.wf());
                if slot.1 {
                    let p = self.sector_pointer;
                    let byte = sector.byte(p);
                    self.sector_pointer = if p + 1 == 0x924 {
                        0
                    } else {
                        p + 1
                    };
                    byte
                } else {
                    let q: usize = if self.sector_pointer < 0x800 {
                        self.sector_pointer
                    } else {
                        0
                    };
                    let byte = sector.byte(q + 12);
                    self.sector_pointer = if q + 1 == 0x800 {
                        0
                    } else {
                        q + 1
                    };
                    byte
                }
            },
        }
    }

    /// Reads port `offset` (0..=3) in the selected bank.
    pub fn read8(&mut self, offset: u32) -> (r: u8)
        requires
            old(self).wf(),
            offset < 4,
        ensures
            final(self).wf(),
            final(self).disk == old(self).disk,
            ({
                let v = old(self)@;
                let reg = read_register_of(v.current_bank as int, offset as int);
                &&& reg == HSTS ==> r == hsts_value(v) && final(self)@ == (CdRomView {
                    registers: v.registers.update(HSTS as int, hsts_value(v)),
                    ..v
                })
                &&& reg == RESULT ==> r == v.result_fifo[v.result_idx as int] && final(self)@
                    == (CdRomView {
                    result_idx: ((v.result_idx + 1) % 16) as usize,
                    result_fifo_empty: v.result_fifo_empty || v.result_idx + 1 != v.result_size,
                    ..v
                })
                &&& reg == RDDATA ==> match v.sector_buffer[0] {
                    None => r == 0 && final(self)@ == v,
                    Some(slot) => {
                        let c = data_cursor(v.sector_pointer, slot.1);
                        &&& r == old(self).disk.sectors@[slot.0 as int].data@[c.0 as int]
                        &&& final(self)@ == (CdRomView { sector_pointer: c.1, ..v })
                    },
                }
                &&& (reg == HINTMSK || reg == HINTSTS) ==> r == v.registers[reg as int]
                    && final(self)@ == v
            }),
    {
        let bank = self.current_bank;
        if offset == 0 {
            let r0 = self.registers[HSTS];
            let p: u8 = if self.parameters.len() == 0 {
                0x08
            } else {
                0
            };
            let q: u8 = if !self.result_fifo_empty {
                0x20
            } else {
                0
            };
            let value = (((r0 & !0x08u8) | p) & !0x20u8) | q;
            self.registers[HSTS] = value;
            value
        } else if offset == 1 {
            let result = self.result_fifo[self.result_idx];
            let next = self.result_idx + 1;
            self.result_fifo_empty = self.result_fifo_empty || next != self.result_size;
            self.result_idx = next % 16;
            result
        } else if offset == 2 {
            self.read_data()
        } else {
            let reg = if bank % 2 == 0 {
                HINTMSK
            } else {
                HINTSTS
            };
            self.registers[reg]
        }
    }

    /// Runs a command byte. A command with no handler, or without the
    /// parameters it takes, is refused and nothing changes.
    pub fn execute(&mut self, command: u8) -> (r: Result<(), CdRomError>)
        requires
            old(self).wf(),
        ensures
            final(self).wf(),
            final(self).disk == old(self).disk,
            r.is_ok() <==> command_ok(command, old(self).parameters@),
            r.is_ok() ==> final(self)@ == executed(old(self)@, command),
            r matches Err(e) ==> e == command_error(command, old(self).parameters@) && final(self)@
                == old(self)@,
    {
        let n = self.parameters.len();
        if command == 0x02 && n < 3 {
            return Err(CdRomError::MissingParameter);
        }
        if (command == 0x0E || command == 0x19) && n < 1 {
            return Err(CdRomError::MissingParameter);
        }
        if command == 0x19 && self.parameters[0] != 0x20 {
            return Err(CdRomError::UnknownTestSubOp(self.parameters[0]));
        }
        if !(command == 0x01 || command == 0x02 || command == 0x06 || command == 0x09 || command
            == 0x0A || command == 0x0C || command == 0x0E || command == 0x15 || command == 0x19
            || command == 0x1A) {
            return Err(CdRomError::UnknownCommand(command));
        }
        self.result_idx = 0;
        if command == 0x01 {
            self.send_status(3, None, None);
        } else if command == 0x02 {
            self.setloc();
        } else if command == 0x06 {
            self.readN();
        } else if command == 0x09 {
            self.pause();
        } else if command == 0x0A {
            self.init();
        } else if command == 0x0C {
            self.demute();
        } else if command == 0x0E {
            self.setmode();
        } else if command == 0x15 {
            self.seekL();
        } else if command == 0x19 {
            let _ = self.test();
        } else {
            self.get_id();
        }
        Ok(())
    }

    /// Writes port `offset` (0..=3) in the selected bank, then selects the bank
    /// named by the address register. A refused command changes nothing.
    pub fn write8(&mut self, offset: u32, value: u8) -> (r: Result<(), CdRomError>)
        requires
            old(self).wf(),
            offset < 4,
        ensures
            final(self).wf(),
            final(self).disk == old(self).disk,
            ({
                let v = old(self)@;
                let reg = write_register_of(v.current_bank as int, offset as int);
                &&& reg == COMMAND ==> {
                    &&& r.is_ok() <==> command_ok(value, v.parameters)
                    &&& r.is_ok() ==> final(self)@ == with_bank(executed(v, value))
                    &&& r matches Err(e) ==> e == command_error(value, v.parameters)
                        && final(self)@ == v
                }
                &&& reg != COMMAND ==> r.is_ok() && final(self)@ == with_bank(
                    register_written(v, reg, value),
                )
            }),
    {
        let bank = self.current_bank;
        let reg: usize = if offset == 0 {
            ADDRESS
        } else if bank == 0 {
            if offset == 1 {
                COMMAND
            } else if offset == 2 {
                PARAMETER
            } else {
                HCHPCTL
            }
        } else if bank == 1 {
            if offset == 1 {
                WRDATA
            } else if offset == 2 {
                HINTMSK
            } else {
                HCLRCTL
            }
        } else if bank == 2 {
            if offset == 1 {
                CI
            } else if offset == 2 {
                ATV0
            } else {
                ATV1
            }
        } else {
            if offset == 1 {
                ATV2
            } else if offset == 2 {
                ATV3
            } else {
                ADPCTL
            }
        };
        if reg == ADDRESS {
            self.registers[ADDRESS] = (self.registers[ADDRESS] & !3u8) | (value & 3);
        } else if reg == PARAMETER {
            self.parameters.push(value);
            self.registers[ADDRESS] = self.registers[ADDRESS] | 0x10;
        } else if reg == COMMAND {
            let done = self.execute(value);
            if done.is_err() {
                return done;
            }
        } else if reg == HCLRCTL {
            self.registers[HINTSTS] = self.registers[HINTSTS] & !(value & 0x1F);
            if value & 0x40 != 0 {
                self.parameters.clear();
                assert(self.parameters@ =~= Seq::<u8>::empty());
            }
        } else {
            self.registers[reg] = value;
        }
        let b = self.registers[ADDRESS] & 3;
        let ghost r0 = self.registers[ADDRESS as int];
        assert(r0 & 3 < 4) by (bit_vector);
        self.current_bank = b as usize;
        Ok(())
    }
}

} // verus!
