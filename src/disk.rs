//! Disk images: BCD sector addresses, raw sectors and the address-keyed sector map.
use vstd::prelude::*;

use std::collections::HashMap;

verus! {

broadcast use vstd::std_specs::hash::group_hash_axioms;

/// Bytes in one raw sector of a disk image.
pub const SECTOR_BYTES: usize = 2352;

/// Bytes kept of each sector: everything after the 12-byte sync field.
pub const SECTOR_DATA: usize = 0x924;

/// Whether both nibbles of `x` are decimal digits.
pub open spec fn valid_bcd(x: u8) -> bool {
    (x >> 4u8) <= 9 && (x & 0xF) <= 9
}

/// The number a BCD byte stands for.
pub open spec fn bcd_value(x: u8) -> int {
    (x >> 4u8) as int * 10 + (x & 0xF) as int
}

/// One BCD digit-carry fix-up: a low nibble above 9 carries into the high nibble.
pub open spec fn carry_lo(x: u8) -> u8 {
    let carry = ((((x & 0x0F) + 6u8) as u8) & 0x10) >> 4u8;
    (x + carry * 6u8) as u8
}

#[derive(Debug, Clone, Copy, PartialEq, Eq, Structural)]
pub struct DiskAddress {
    pub min: u8,
    pub sec: u8,
    pub frame: u8,
}

impl DiskAddress {
    /// A well-formed position: BCD fields, seconds below 60, frames below 75, minutes below 99.
    pub open spec fn valid(&self) -> bool {
        &&& valid_bcd(self.min) && valid_bcd(self.sec) && valid_bcd(self.frame)
        &&& bcd_value(self.sec) < 60 && bcd_value(self.frame) < 75 && bcd_value(self.min) < 99
    }

    /// The position in frames (75 to a second, 60 seconds to a minute).
    pub open spec fn frames(&self) -> int {
        (bcd_value(self.min) * 60 + bcd_value(self.sec)) * 75 + bcd_value(self.frame)
    }

    /// The key under which the sector map stores this address.
    pub open spec fn key_spec(&self) -> u32 {
        ((self.min as u32) << 16u32) | ((self.sec as u32) << 8u32) | (self.frame as u32)
    }

    /// The address after one BCD increment, with carries at frame 0x75 and second 0x60.
    pub open spec fn incremented(&self) -> DiskAddress {
        let f = carry_lo((self.frame + 1u8) as u8);
        let sc: u8 = if f == 0x75 { 1 } else { 0 };
        let f2 = (f - 0x75u8 * sc) as u8;
        let s = carry_lo((self.sec + sc) as u8);
        let mc: u8 = if s == 0x60 { 1 } else { 0 };
        let s2 = (s - 0x60u8 * mc) as u8;
        let m = carry_lo((self.min + mc) as u8);
        DiskAddress { min: m, sec: s2, frame: f2 }
    }

    pub fn new(min: u8, sec: u8, frame: u8) -> (r: DiskAddress)
        ensures
            r == (DiskAddress { min, sec, frame }),
    {
        DiskAddress { min, sec, frame }
    }

    pub fn from_bytes(bytes: &[u8]) -> (r: DiskAddress)
        requires
            bytes@.len() >= 3,
        ensures
            r == (DiskAddress { min: bytes@[0], sec: bytes@[1], frame: bytes@[2] }),
    {
        DiskAddress { min: bytes[0], sec: bytes[1], frame: bytes[2] }
    }

    pub fn key(&self) -> (r: u32)
        ensures
            r == self.key_spec(),
    {
        ((self.min as u32) << 16u32) | ((self.sec as u32) << 8u32) | (self.frame as u32)
    }

    fn carry(x: u8) -> (r: u8)
        ensures
            r == carry_lo(x),
    {
        proof {
            lemma_wrapping_u8(x, 0);
        }
        let carry = (((x & 0x0F) + 6) & 0x10) >> 4u8;
        proof {
            lemma_wrapping_u8(x, (carry * 6) as u8);
        }
        x.wrapping_add(carry * 6)
    }

    /// Advances to the next sector in BCD.
    pub fn increment(&mut self)
        ensures
            *final(self) == old(self).incremented(),
    {
        proof {
            lemma_wrapping_u8(self.frame, 1);
            lemma_wrapping_u8(self.sec, 1);
            lemma_wrapping_u8(self.sec, 0);
            lemma_wrapping_u8(self.min, 1);
            lemma_wrapping_u8(self.min, 0);
        }
        let f = DiskAddress::carry(self.frame.wrapping_add(1));
        proof {
            lemma_wrapping_u8(f, 0x75);
            lemma_wrapping_u8(f, 0);
        }
        let sc: u8 = if f == 0x75 { 1 } else { 0 };
        self.frame = f.wrapping_sub(0x75u8 * sc);
        let s = DiskAddress::carry(self.sec.wrapping_add(sc));
        let mc: u8 = if s == 0x60 { 1 } else { 0 };
        proof {
            lemma_wrapping_u8(s, 0x60);
            lemma_wrapping_u8(s, 0);
        }
        self.sec = s.wrapping_sub(0x60u8 * mc);
        self.min = DiskAddress::carry(self.min.wrapping_add(mc));
    }
}

impl Default for DiskAddress {
    fn default() -> (r: DiskAddress)
        ensures
            r == (DiskAddress { min: 0, sec: 0, frame: 0 }),
    {
        DiskAddress { min: 0, sec: 0, frame: 0 }
    }
}

proof fn lemma_wrapping_u8(x: u8, y: u8)
    by (bit_vector)
    ensures
        vstd::wrapping::u8_specs::wrapping_add(x, y) == (x + y) as u8,
        vstd::wrapping::u8_specs::wrapping_sub(x, y) == (x - y) as u8,
        x & 0x0F <= 15,
        ((x & 0x0F) + 6u8) as u8 == (x & 0x0F) + 6u8,
        ((((x & 0x0F) + 6u8) as u8) & 0x10) >> 4u8 <= 1,
{
}

proof fn lemma_bcd_step(x: u8)
    requires
        valid_bcd(x),
        x != 0x99,
    ensures
        valid_bcd(carry_lo((x + 1u8) as u8)),
        bcd_value(carry_lo((x + 1u8) as u8)) == bcd_value(x) + 1,
{
    assert(valid_bcd(carry_lo((x + 1u8) as u8)) && bcd_value(carry_lo((x + 1u8) as u8))
        == bcd_value(x) + 1) by (bit_vector)
        requires
            valid_bcd(x),
            x != 0x99,
    ;
}

proof fn lemma_bcd_same(x: u8)
    requires
        valid_bcd(x),
    ensures
        carry_lo(x) == x,
{
    assert(carry_lo(x) == x) by (bit_vector)
        requires
            valid_bcd(x),
    ;
}

proof fn lemma_bcd_limit(x: u8, limit: u8)
    requires
        valid_bcd(x),
        valid_bcd(limit),
    ensures
        (x == limit) == (bcd_value(x) == bcd_value(limit)),
        bcd_value(x) >= 0,
{
    assert((x == limit) == (bcd_value(x) == bcd_value(limit))) by (bit_vector)
        requires
            valid_bcd(x),
            valid_bcd(limit),
    ;
}

/// A BCD increment of a well-formed address below 98:59:74 moves exactly one
/// frame forward and stays well-formed.
pub proof fn lemma_increment_advances(a: DiskAddress)
    requires
        a.valid(),
        a.frames() + 1 < 99 * 60 * 75,
    ensures
        a.incremented().valid(),
        a.incremented().frames() == a.frames() + 1,
{
    assert(valid_bcd(0x75u8) && bcd_value(0x75u8) == 75 && valid_bcd(0x60u8) && bcd_value(0x60u8)
        == 60 && valid_bcd(0x99u8) && bcd_value(0x99u8) == 99 && valid_bcd(0u8) && bcd_value(0u8)
        == 0) by (bit_vector);
    lemma_bcd_limit(a.frame, 0x99);
    lemma_bcd_limit(a.sec, 0x99);
    lemma_bcd_limit(a.min, 0x99);
    lemma_bcd_step(a.frame);
    let f = carry_lo((a.frame + 1u8) as u8);
    lemma_bcd_limit(f, 0x75);
    if f == 0x75 {
        lemma_bcd_step(a.sec);
        let s = carry_lo((a.sec + 1u8) as u8);
        lemma_bcd_limit(s, 0x60);
        if s == 0x60 {
            lemma_bcd_step(a.min);
            assert(bcd_value(a.min) + 1 < 99) by (nonlinear_arith)
                requires
                    bcd_value(a.sec) == 59,
                    bcd_value(a.frame) == 74,
                    (bcd_value(a.min) * 60 + bcd_value(a.sec)) * 75 + bcd_value(a.frame) + 1 < 99
                        * 60 * 75,
            ;
        } else {
            lemma_bcd_same(a.min);
        }
    } else {
        lemma_bcd_same(a.sec);
        lemma_bcd_limit(a.sec, 0x60);
        lemma_bcd_same(a.min);
    }
}

#[derive(Debug, Clone, Copy, PartialEq, Eq, Structural)]
pub struct SubHeader {
    pub file_num: u8,
    pub channel_num: u8,
    pub sub_mode: u8,
    pub coding_info: u8,
}

/// The coding-info bits that carry meaning (emphasis, bits per sample, rate, stereo).
pub const CODING_INFO_BITS: u8 = 0x55;

impl SubHeader {
    pub fn from_bytes(bytes: &[u8]) -> (r: SubHeader)
        requires
            bytes@.len() >= 4,
        ensures
            r == (SubHeader {
                file_num: bytes@[0],
                channel_num: bytes@[1],
                sub_mode: bytes@[2],
                coding_info: bytes@[3] & CODING_INFO_BITS,
            }),
    {
        SubHeader {
            file_num: bytes[0],
            channel_num: bytes[1],
            sub_mode: bytes[2],
            coding_info: bytes[3] & CODING_INFO_BITS,
        }
    }

    pub fn get_sub_mode(&self) -> (r: u8)
        ensures
            r == self.sub_mode,
    {
        self.sub_mode
    }
}

/// The data kept of a raw sector: the bytes after the sync field, zero-padded.
pub open spec fn sector_data(bytes: Seq<u8>) -> Seq<u8> {
    Seq::new(SECTOR_DATA as nat, |i: int| if 12 + i < bytes.len() { bytes[12 + i] } else { 0u8 })
}

/// The sub-header of a raw sector.
pub open spec fn sub_header_of(bytes: Seq<u8>) -> SubHeader {
    SubHeader {
        file_num: bytes[16],
        channel_num: bytes[17],
        sub_mode: bytes[18],
        coding_info: bytes[19] & CODING_INFO_BITS,
    }
}

/// The address in a raw sector's header.
pub open spec fn address_of(bytes: Seq<u8>) -> DiskAddress {
    DiskAddress { min: bytes[12], sec: bytes[13], frame: bytes[14] }
}

#[derive(Debug)]
pub struct Sector {
    pub sub_header: SubHeader,
    pub data: Vec<u8>,
}

impl Sector {
    pub open spec fn wf(&self) -> bool {
        self.data@.len() == SECTOR_DATA
    }

    /// Splits a raw sector into its header address and the sector kept from it.
    pub fn from_bytes(bytes: &[u8]) -> (r: (DiskAddress, Sector))
        requires
            bytes@.len() >= 24,
        ensures
            r.0 == address_of(bytes@),
            r.1.sub_header == sub_header_of(bytes@),
            r.1.data@ == sector_data(bytes@),
            r.1.wf(),
    {
        let address = DiskAddress { min: bytes[12], sec: bytes[13], frame: bytes[14] };
        let sub_header = SubHeader {
            file_num: bytes[16],
            channel_num: bytes[17],
            sub_mode: bytes[18],
            coding_info: bytes[19] & CODING_INFO_BITS,
        };
        let mut data: Vec<u8> = Vec::new();
        let mut i: usize = 0;
        while i < SECTOR_DATA
            invariant
                bytes@.len() >= 24,
                i <= SECTOR_DATA,
                data@ == sector_data(bytes@).take(i as int),
            decreases SECTOR_DATA - i,
        {
            let b = if i < bytes.len() - 12 {
                bytes[12 + i]
            } else {
                0u8
            };
            data.push(b);
            i = i + 1;
            assert(data@ =~= sector_data(bytes@).take(i as int));
        }
        assert(data@ =~= sector_data(bytes@));
        (address, Sector { sub_header, data })
    }

    pub fn get_sub_header(&self) -> (r: SubHeader)
        ensures
            r == self.sub_header,
    {
        self.sub_header
    }

    /// The byte at `index` of the kept sector data.
    pub fn byte(&self, index: usize) -> (r: u8)
        requires
            index < self.data@.len(),
        ensures
            r == self.data@[index as int],
    {
        self.data[index]
    }
}

/// The raw sector `k` of a disk image.
pub open spec fn chunk(disk: Seq<u8>, k: int) -> Seq<u8> {
    disk.subrange(k * SECTOR_BYTES, (k + 1) * SECTOR_BYTES)
}

/// Which sector the map holds for each address key, after the first `n` raw
/// sectors: a later sector with the same address replaces an earlier one.
pub open spec fn index_of(disk: Seq<u8>, n: int) -> Map<u32, usize>
    decreases n,
{
    if n <= 0 {
        Map::empty()
    } else {
        index_of(disk, n - 1).insert(address_of(chunk(disk, n - 1)).key_spec(), (n - 1) as usize)
    }
}

/// Sectors of a disk image, looked up by their BCD header address.
pub struct DiskMap {
    pub sectors: Vec<Sector>,
    pub index: HashMap<u32, usize>,
}

pub trait DiskTrait: Sized {
    fn from_bin(disk: &[u8]) -> Self;
}

impl DiskMap {
    /// Every index entry names a well-formed sector.
    pub open spec fn wf(&self) -> bool {
        &&& forall|k: u32| #[trigger]
            self.index@.contains_key(k) ==> self.index@[k] < self.sectors@.len()
        &&& forall|i: int| 0 <= i < self.sectors@.len() ==> #[trigger] self.sectors@[i].wf()
    }

    /// A map with no sectors: no disk is inserted.
    pub fn empty() -> (r: DiskMap)
        ensures
            r.wf(),
            r.sectors@.len() == 0,
            r.index@ == Map::<u32, usize>::empty(),
    {
        DiskMap { sectors: Vec::new(), index: HashMap::new() }
    }

    /// Parses a disk image of whole raw sectors; a trailing partial sector is ignored.
    pub fn parse(disk: &[u8]) -> (r: DiskMap)
        ensures
            r.wf(),
            r.sectors@.len() == disk@.len() as int / (SECTOR_BYTES as int),
            forall|k: int|
                0 <= k < r.sectors@.len() ==> (#[trigger] r.sectors@[k]).data@ == sector_data(
                    chunk(disk@, k),
                ) && r.sectors@[k].sub_header == sub_header_of(chunk(disk@, k)),
            r.index@ == index_of(disk@, disk@.len() as int / (SECTOR_BYTES as int)),
    {
        let total = disk.len();
        let n = total / SECTOR_BYTES;
        let mut sectors: Vec<Sector> = Vec::new();
        let mut index: HashMap<u32, usize> = HashMap::new();
        let mut k: usize = 0;
        while k < n
            invariant
                n == disk@.len() as int / (SECTOR_BYTES as int),
                total == disk@.len(),
                k <= n,
                sectors@.len() == k,
                forall|j: int|
                    0 <= j < k ==> (#[trigger] sectors@[j]).data@ == sector_data(chunk(disk@, j))
                        && sectors@[j].sub_header == sub_header_of(chunk(disk@, j))
                        && sectors@[j].wf(),
                index@ == index_of(disk@, k as int),
                forall|key: u32| #[trigger] index@.contains_key(key) ==> index@[key] < k,
            decreases n - k,
        {
            assert((k + 1) * SECTOR_BYTES <= total) by (nonlinear_arith)
                requires
                    k < n,
                    n == total as int / (SECTOR_BYTES as int),
            ;
            let start = k * SECTOR_BYTES;
            let raw = &disk[start..start + SECTOR_BYTES];
            assert(raw@ == chunk(disk@, k as int));
            let (address, sector) = Sector::from_bytes(raw);
            let key = address.key();
            sectors.push(sector);
            index.insert(key, k);
            k = k + 1;
        }
        DiskMap { sectors, index }
    }

    /// The sector stored under `address`, if any.
    pub fn get(&self, address: &DiskAddress) -> (r: Option<&Sector>)
        requires
            self.wf(),
        ensures
            self.index@.contains_key(address.key_spec()) <==> r.is_some(),
            r matches Some(s) ==> *s == self.sectors@[self.index@[address.key_spec()] as int],
    {
        let key = address.key();
        match self.index.get(&key) {
            Some(i) => Some(&self.sectors[*i]),
            None => None,
        }
    }
}

impl DiskTrait for DiskMap {
    fn from_bin(disk: &[u8]) -> (r: DiskMap)
        ensures
            r.wf(),
            r.sectors@.len() == disk@.len() as int / (SECTOR_BYTES as int),
            r.index@ == index_of(disk@, disk@.len() as int / (SECTOR_BYTES as int)),
    {
        DiskMap::parse(disk)
    }
}

} // verus!
