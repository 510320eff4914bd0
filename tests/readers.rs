use gb_reader::board::{CubicStyleBoard, HwOp, REG_GPIO};
use gb_reader::mbc::{
    new_mbc_reader, AnyMbcReader, Mbc1Reader, Mbc5Reader, MbcReader, RomHeaderReader,
    RomOnlyReader, SeekFrom,
};
use gb_reader::rom::{MbcType, RomHeader};

#[derive(Clone, Copy, PartialEq)]
enum Kind {
    Plain,
    Mbc1,
    Mbc2,
    Mbc3,
    Mbc5,
}

/// A cartridge that answers the emitted hardware actions.
struct Cart {
    kind: Kind,
    rom: Vec<u8>,
    addr: u16,
    lo: usize,
    hi: usize,
    writes: Vec<(u16, u8)>,
    bytes: Vec<u8>,
}

fn rom_byte(p: usize) -> u8 {
    ((p >> 14) as u8).wrapping_mul(31) ^ (p as u8) ^ ((p >> 8) as u8)
}

impl Cart {
    fn new(kind: Kind, size: usize) -> Cart {
        Cart {
            kind,
            rom: (0..size).map(rom_byte).collect(),
            addr: 0,
            lo: 1,
            hi: 0,
            writes: Vec::new(),
            bytes: Vec::new(),
        }
    }

    fn bank(&self) -> usize {
        match self.kind {
            Kind::Plain => 1,
            Kind::Mbc1 => (self.hi << 5) | if self.lo == 0 { 1 } else { self.lo },
            Kind::Mbc2 | Kind::Mbc3 => if self.lo == 0 { 1 } else { self.lo },
            Kind::Mbc5 => (self.hi << 8) | self.lo,
        }
    }

    fn write(&mut self, a: u16, v: u8) {
        self.writes.push((a, v));
        match self.kind {
            Kind::Plain => {}
            Kind::Mbc1 => {
                if (0x2000..0x4000).contains(&a) {
                    self.lo = (v & 0x1F) as usize;
                } else if (0x4000..0x6000).contains(&a) {
                    self.hi = (v & 3) as usize;
                }
            }
            Kind::Mbc2 => {
                if a < 0x4000 && a & 0x100 != 0 {
                    self.lo = (v & 0xF) as usize;
                }
            }
            Kind::Mbc3 => {
                if (0x2000..0x4000).contains(&a) {
                    self.lo = v as usize;
                }
            }
            Kind::Mbc5 => {
                if (0x2000..0x3000).contains(&a) {
                    self.lo = v as usize;
                } else if (0x3000..0x4000).contains(&a) {
                    self.hi = (v & 1) as usize;
                }
            }
        }
    }

    fn read(&self, a: u16) -> u8 {
        let p = if a < 0x4000 {
            a as usize
        } else {
            self.bank() * 0x4000 + (a as usize - 0x4000)
        };
        self.rom[p % self.rom.len()]
    }

    fn perform(&mut self, ops: &[HwOp]) {
        for op in ops {
            match *op {
                HwOp::SetAddressLine { index, high } => {
                    if high {
                        self.addr |= 1 << index;
                    } else {
                        self.addr &= !(1u16 << index);
                    }
                }
                HwOp::SpiWrite { register, value, .. } if register == REG_GPIO => {
                    let a = self.addr;
                    self.write(a, value);
                }
                HwOp::SpiRead { .. } => {
                    let b = self.read(self.addr);
                    self.bytes.push(b);
                }
                _ => {}
            }
        }
    }
}

/// Reads a stream to its end in chunks; returns the total count.
fn drain(reader: &mut dyn MbcReader, cart: &mut Cart, chunk: usize) -> usize {
    let mut total = 0;
    loop {
        let mut ops = Vec::new();
        let n = reader.read(chunk, &mut ops);
        assert_eq!(ops.iter().filter(|o| matches!(o, HwOp::SpiRead { .. })).count(), n);
        cart.perform(&ops);
        if n == 0 {
            return total;
        }
        total += n;
    }
}

fn header(mbc_type: MbcType, rom_size: usize) -> RomHeader {
    RomHeader { title: b"TEST".to_vec(), mbc_type, rom_size }
}

fn selected_banks_mbc1(writes: &[(u16, u8)]) -> Vec<usize> {
    writes
        .chunks(2)
        .map(|w| {
            assert_eq!(w[0].0, 0x2000);
            assert_eq!(w[1].0, 0x4000);
            (w[0].1 as usize) | ((w[1].1 as usize) << 5)
        })
        .collect()
}

#[test]
fn rom_only_streams_32k_then_ends() {
    let mut cart = Cart::new(Kind::Plain, 0x8000);
    let mut reader = RomOnlyReader::new(CubicStyleBoard::new(), &header(MbcType::RomOnly, 0x100000));
    assert_eq!(reader.size(), 0x8000);
    let total = drain(&mut reader, &mut cart, 0x100);
    assert_eq!(total, 32768);
    assert_eq!(cart.bytes, cart.rom);
    assert!(cart.writes.is_empty());
    let mut ops = Vec::new();
    assert_eq!(reader.read(10, &mut ops), 0);
    assert!(ops.is_empty());
}

#[test]
fn rom_only_reads_bus_addresses_in_place() {
    let mut reader = RomOnlyReader::new(CubicStyleBoard::new(), &header(MbcType::RomOnly, 0x8000));
    let mut ops = Vec::new();
    assert_eq!(reader.read(0x8000, &mut ops), 0x8000);
    let mut addr: u16 = 0;
    let mut seen = Vec::new();
    for op in &ops {
        match *op {
            HwOp::SetAddressLine { index, high } => {
                if high {
                    addr |= 1 << index
                } else {
                    addr &= !(1u16 << index)
                }
            }
            HwOp::SpiRead { .. } => seen.push(addr),
            _ => {}
        }
    }
    let expected: Vec<u16> = (0..0x8000u16).collect();
    assert_eq!(seen, expected);
}

#[test]
fn mbc1_128k_streams_every_bank() {
    let mut cart = Cart::new(Kind::Mbc1, 0x20000);
    let mut reader = Mbc1Reader::new(CubicStyleBoard::new(), &header(MbcType::Mbc1, 0x20000));
    let total = drain(&mut reader, &mut cart, 0x100);
    assert_eq!(total, 131072);
    assert_eq!(cart.bytes, cart.rom);
    assert_eq!(selected_banks_mbc1(&cart.writes), vec![1, 2, 3, 4, 5, 6, 7]);
}

#[test]
fn mbc1_bank_select_precedes_first_byte_of_each_bank() {
    let mut reader = Mbc1Reader::new(CubicStyleBoard::new(), &header(MbcType::Mbc1Ram, 0x20000));
    let mut ops = Vec::new();
    assert_eq!(reader.read(0x4000, &mut ops), 0x4000);
    assert!(!ops.iter().any(|o| matches!(o, HwOp::SpiWrite { register, .. } if *register == REG_GPIO)));
    let mut ops = Vec::new();
    assert_eq!(reader.read(1, &mut ops), 1);
    let mut cart = Cart::new(Kind::Mbc1, 0x20000);
    cart.perform(&ops);
    assert_eq!(cart.writes, vec![(0x2000, 1), (0x4000, 0)]);
    assert_eq!(cart.bytes, vec![cart.rom[0x4000]]);
    let status = reader.status();
    assert_eq!(status.bank, 1);
    assert_eq!(status.address, 0x4001);
}

#[test]
fn mbc1_skips_unusable_banks() {
    let mut cart = Cart::new(Kind::Mbc1, 0x200000);
    let mut reader = Mbc1Reader::new(CubicStyleBoard::new(), &header(MbcType::Mbc1, 0x200000));
    let total = drain(&mut reader, &mut cart, 0x4000);
    assert_eq!(total, 0x200000);
    let banks = selected_banks_mbc1(&cart.writes);
    let expected: Vec<usize> = (1..0x84)
        .filter(|b| *b != 0x20 && *b != 0x40 && *b != 0x60)
        .take(127)
        .map(|b| b & 0x7F)
        .collect();
    assert_eq!(banks, expected);
    assert_eq!(banks[30], 0x1F);
    assert_eq!(banks[31], 0x21);
}

#[test]
fn mbc5_writes_low_byte_and_bit_eight() {
    let size = 0x4000 * 258;
    let mut cart = Cart::new(Kind::Mbc5, size);
    let mut reader = Mbc5Reader::new(CubicStyleBoard::new(), &header(MbcType::Mbc5, size));
    let total = drain(&mut reader, &mut cart, 0x4000);
    assert_eq!(total, size);
    assert_eq!(cart.writes.len(), 2 * 257);
    for (k, w) in cart.writes.chunks(2).enumerate() {
        let bank = k + 1;
        assert_eq!(w[0], (0x2000, (bank & 0xFF) as u8));
        assert_eq!(w[1], (0x3000, ((bank >> 8) & 1) as u8));
    }
    assert_eq!(cart.writes[2 * 255], (0x2000, 0x00));
    assert_eq!(cart.writes[2 * 255 + 1], (0x3000, 0x01));
    assert_eq!(cart.bytes, cart.rom);
}

#[test]
fn mbc2_and_mbc3_select_registers() {
    for (t, kind, addr) in [(MbcType::Mbc2, Kind::Mbc2, 0x2100u16), (MbcType::Mbc3RamBattery, Kind::Mbc3, 0x2000u16)] {
        let mut cart = Cart::new(kind, 0x40000);
        let board = CubicStyleBoard::new();
        let (mut reader, _) = new_mbc_reader(board, header(t, 0x40000)).ok().unwrap();
        let total = drain(&mut reader, &mut cart, 0x1000);
        assert_eq!(total, 0x40000);
        let expected: Vec<(u16, u8)> = (1..16u8).map(|b| (addr, b)).collect();
        assert_eq!(cart.writes, expected);
        assert_eq!(cart.bytes, cart.rom);
    }
}

#[test]
fn dispatcher_picks_reader_by_tag() {
    let cases = [
        (MbcType::RomOnly, 0x8000usize),
        (MbcType::Mbc1RamBattery, 0x10000),
        (MbcType::Mbc2Battery, 0x10000),
        (MbcType::Mbc3TimerRamBattery, 0x10000),
        (MbcType::Mbc5RumbleRamBattery, 0x10000),
    ];
    for (t, size) in cases {
        let (reader, h) = new_mbc_reader(CubicStyleBoard::new(), header(t, 0x10000)).ok().unwrap();
        assert_eq!(h.mbc_type, t);
        assert_eq!(reader.size(), size);
        let right = match (&reader, t) {
            (AnyMbcReader::RomOnly(_), MbcType::RomOnly) => true,
            (AnyMbcReader::Mbc1(_), MbcType::Mbc1RamBattery) => true,
            (AnyMbcReader::Mbc2(_), MbcType::Mbc2Battery) => true,
            (AnyMbcReader::Mbc3(_), MbcType::Mbc3TimerRamBattery) => true,
            (AnyMbcReader::Mbc5(_), MbcType::Mbc5RumbleRamBattery) => true,
            _ => false,
        };
        assert!(right);
    }
}

#[test]
fn dispatcher_refuses_unsupported_cartridges() {
    for t in [MbcType::Mbc6, MbcType::HuC1RamBattery, MbcType::Mmm01, MbcType::Unknown(0x42)] {
        match new_mbc_reader(CubicStyleBoard::new(), header(t, 0x10000)) {
            Ok(_) => panic!("accepted an unsupported cartridge"),
            Err(e) => assert_eq!(e.mbc_type, t),
        }
    }
}

#[test]
fn header_window_seek_bounds() {
    let mut window = RomHeaderReader::new(CubicStyleBoard::new());
    let err = window.seek(SeekFrom::Start(0x150)).unwrap_err();
    assert_eq!(err.requested, 0x150);
    assert_eq!(window.seek(SeekFrom::Start(0x14F)).unwrap(), 0x14F);
    let mut ops = Vec::new();
    assert_eq!(window.read(4, &mut ops), 1);
    let mut cart = Cart::new(Kind::Plain, 0x8000);
    cart.perform(&ops);
    assert_eq!(cart.bytes, vec![cart.rom[0x14F]]);
    let mut ops = Vec::new();
    assert_eq!(window.read(4, &mut ops), 0);
    assert!(ops.is_empty());
}

#[test]
fn header_window_relative_seeks() {
    let mut window = RomHeaderReader::new(CubicStyleBoard::new());
    assert_eq!(window.seek(SeekFrom::End(-1)).unwrap(), 0x14F);
    assert_eq!(window.seek(SeekFrom::Current(-0x10)).unwrap(), 0x13F);
    assert!(window.seek(SeekFrom::Current(0x11)).is_err());
    assert!(window.seek(SeekFrom::End(0)).is_err());
    assert!(window.seek(SeekFrom::Start(u64::MAX)).is_err());
    assert_eq!(window.seek(SeekFrom::Current(0)).unwrap(), 0x13F);
}

#[test]
fn header_window_reads_the_whole_header() {
    let mut window = RomHeaderReader::new(CubicStyleBoard::new());
    let mut ops = Vec::new();
    assert_eq!(window.read(0x400, &mut ops), 0x150);
    let mut cart = Cart::new(Kind::Plain, 0x8000);
    cart.perform(&ops);
    assert_eq!(cart.bytes, cart.rom[..0x150].to_vec());
}
