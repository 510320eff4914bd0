use vstd::arithmetic::power2::{lemma2_to64, pow2};
use vstd::prelude::*;

verus! {

/// First byte of the title field in the cartridge header.
pub const TITLE_START: usize = 0x134;

/// Length of the title field.
pub const TITLE_LEN: usize = 16;

/// Offset of the cartridge-type byte.
pub const TYPE_OFFSET: usize = 0x147;

/// Offset of the ROM-size byte.
pub const SIZE_OFFSET: usize = 0x148;

/// Length of the header window.
pub const HEADER_LEN: usize = 0x150;

/// Cartridge-type tags of the header.
#[derive(PartialEq, Eq, Structural, Clone, Copy, Debug)]
pub enum MbcType {
    RomOnly,
    Mbc1,
    Mbc1Ram,
    Mbc1RamBattery,
    Mbc2,
    Mbc2Battery,
    RomRam,
    RomRamBattery,
    Mmm01,
    Mmm01Ram,
    Mmm01RamBattery,
    Mbc3TimerBattery,
    Mbc3TimerRamBattery,
    Mbc3,
    Mbc3Ram,
    Mbc3RamBattery,
    Mbc5,
    Mbc5Ram,
    Mbc5RamBattery,
    Mbc5Rumble,
    Mbc5RumbleRam,
    Mbc5RumbleRamBattery,
    Mbc6,
    Mbc7SensorRumbleRamBattery,
    PocketCamera,
    BandaiTama5,
    HuC3,
    HuC1RamBattery,
    Unknown(u8),
}

/// The tag that a cartridge-type byte stands for.
pub open spec fn mbc_type_of(code: u8) -> MbcType {
    match code {
        0x00 => MbcType::RomOnly,
        0x01 => MbcType::Mbc1,
        0x02 => MbcType::Mbc1Ram,
        0x03 => MbcType::Mbc1RamBattery,
        0x05 => MbcType::Mbc2,
        0x06 => MbcType::Mbc2Battery,
        0x08 => MbcType::RomRam,
        0x09 => MbcType::RomRamBattery,
        0x0B => MbcType::Mmm01,
        0x0C => MbcType::Mmm01Ram,
        0x0D => MbcType::Mmm01RamBattery,
        0x0F => MbcType::Mbc3TimerBattery,
        0x10 => MbcType::Mbc3TimerRamBattery,
        0x11 => MbcType::Mbc3,
        0x12 => MbcType::Mbc3Ram,
        0x13 => MbcType::Mbc3RamBattery,
        0x19 => MbcType::Mbc5,
        0x1A => MbcType::Mbc5Ram,
        0x1B => MbcType::Mbc5RamBattery,
        0x1C => MbcType::Mbc5Rumble,
        0x1D => MbcType::Mbc5RumbleRam,
        0x1E => MbcType::Mbc5RumbleRamBattery,
        0x20 => MbcType::Mbc6,
        0x22 => MbcType::Mbc7SensorRumbleRamBattery,
        0xFC => MbcType::PocketCamera,
        0xFD => MbcType::BandaiTama5,
        0xFE => MbcType::HuC3,
        0xFF => MbcType::HuC1RamBattery,
        _ => MbcType::Unknown(code),
    }
}

/// ROM size in bytes that a ROM-size byte declares, if it is a known code.
pub open spec fn rom_size_of(code: u8) -> Option<nat> {
    if code <= 8 {
        Some(0x8000 * pow2(code as nat))
    } else if code == 0x52 {
        Some(0x120000)
    } else if code == 0x53 {
        Some(0x140000)
    } else if code == 0x54 {
        Some(0x180000)
    } else {
        None
    }
}

/// The sixteen bytes of the title field.
pub open spec fn title_field(bytes: Seq<u8>) -> Seq<u8> {
    bytes.subrange(TITLE_START as int, TITLE_START + TITLE_LEN)
}

/// `title` is the title field up to its first zero byte.
pub open spec fn is_title_of(title: Seq<u8>, bytes: Seq<u8>) -> bool {
    &&& title.len() <= TITLE_LEN
    &&& title == title_field(bytes).take(title.len() as int)
    &&& forall|i: int| 0 <= i < title.len() ==> title[i] != 0
    &&& title.len() == TITLE_LEN || title_field(bytes)[title.len() as int] == 0
}

/// The decoded cartridge header.
pub struct RomHeader {
    pub title: Vec<u8>,
    pub mbc_type: MbcType,
    pub rom_size: usize,
}

impl MbcType {
    pub fn from_code(code: u8) -> (r: MbcType)
        ensures
            r == mbc_type_of(code),
    {
        match code {
            0x00 => MbcType::RomOnly,
            0x01 => MbcType::Mbc1,
            0x02 => MbcType::Mbc1Ram,
            0x03 => MbcType::Mbc1RamBattery,
            0x05 => MbcType::Mbc2,
            0x06 => MbcType::Mbc2Battery,
            0x08 => MbcType::RomRam,
            0x09 => MbcType::RomRamBattery,
            0x0B => MbcType::Mmm01,
            0x0C => MbcType::Mmm01Ram,
            0x0D => MbcType::Mmm01RamBattery,
            0x0F => MbcType::Mbc3TimerBattery,
            0x10 => MbcType::Mbc3TimerRamBattery,
            0x11 => MbcType::Mbc3,
            0x12 => MbcType::Mbc3Ram,
            0x13 => MbcType::Mbc3RamBattery,
            0x19 => MbcType::Mbc5,
            0x1A => MbcType::Mbc5Ram,
            0x1B => MbcType::Mbc5RamBattery,
            0x1C => MbcType::Mbc5Rumble,
            0x1D => MbcType::Mbc5RumbleRam,
            0x1E => MbcType::Mbc5RumbleRamBattery,
            0x20 => MbcType::Mbc6,
            0x22 => MbcType::Mbc7SensorRumbleRamBattery,
            0xFC => MbcType::PocketCamera,
            0xFD => MbcType::BandaiTama5,
            0xFE => MbcType::HuC3,
            0xFF => MbcType::HuC1RamBattery,
            _ => MbcType::Unknown(code),
        }
    }
}

pub fn rom_size_from_code(code: u8) -> (r: Option<usize>)
    ensures
        r.is_some() <==> rom_size_of(code).is_some(),
        r.is_some() ==> r.unwrap() as nat == rom_size_of(code).unwrap(),
{
    proof {
        lemma2_to64();
    }
    match code {
        0 => Some(0x8000),
        1 => Some(0x10000),
        2 => Some(0x20000),
        3 => Some(0x40000),
        4 => Some(0x80000),
        5 => Some(0x100000),
        6 => Some(0x200000),
        7 => Some(0x400000),
        8 => Some(0x800000),
        0x52 => Some(0x120000),
        0x53 => Some(0x140000),
        0x54 => Some(0x180000),
        _ => None,
    }
}

impl RomHeader {
    /// Decodes the header from the first `0x150` bytes of the cartridge.
    /// `None` when fewer bytes are given or the ROM-size code is unknown.
    pub fn from_bytes(bytes: &[u8]) -> (r: Option<RomHeader>)
        ensures
            r.is_some() <==> bytes@.len() >= HEADER_LEN && rom_size_of(
                bytes@[SIZE_OFFSET as int],
            ).is_some(),
            r.is_some() ==> is_title_of(r.unwrap().title@, bytes@),
            r.is_some() ==> r.unwrap().mbc_type == mbc_type_of(bytes@[TYPE_OFFSET as int]),
            r.is_some() ==> r.unwrap().rom_size as nat == rom_size_of(
                bytes@[SIZE_OFFSET as int],
            ).unwrap(),
    {
        if bytes.len() < HEADER_LEN {
            return None;
        }
        let rom_size = match rom_size_from_code(bytes[SIZE_OFFSET]) {
            Some(s) => s,
            None => {
                return None;
            },
        };
        let mut title: Vec<u8> = Vec::new();
        let mut i: usize = 0;
        while i < TITLE_LEN && bytes[TITLE_START + i] != 0
            invariant
                bytes@.len() >= HEADER_LEN,
                i <= TITLE_LEN,
                title@.len() == i,
                title@ == title_field(bytes@).take(i as int),
                forall|j: int| 0 <= j < i ==> title@[j] != 0,
            decreases TITLE_LEN - i,
        {
            title.push(bytes[TITLE_START + i]);
            i = i + 1;
            assert(title@ =~= title_field(bytes@).take(i as int));
        }
        Some(RomHeader { title, mbc_type: MbcType::from_code(bytes[TYPE_OFFSET]), rom_size })
    }
}

} // verus!
