use vstd::prelude::*;

use crate::board::{BoardState, BusOp, CubicStyleBoard, HwOp, bus_run, lemma_performs_append, performs};
use crate::rom::{MbcType, RomHeader};
use crate::stream::{
    Controller, ROM_ONLY_SIZE, ReaderStatus, RomStream, StreamView, advanced, bus_run_ops, fresh,
    read_count, status_of, stream_wf,
};

verus! {

/// End of the header window: bus addresses `[0, 0x150)` are readable through it.
pub const HEADER_END: u16 = 0x150;

/// A position request on the header window.
#[derive(PartialEq, Eq, Structural, Clone, Copy, Debug)]
pub enum SeekFrom {
    Start(u64),
    End(i64),
    Current(i64),
}

/// A position outside the header window was requested.
#[derive(PartialEq, Eq, Structural, Clone, Copy, Debug)]
pub struct AddressRangeError {
    pub requested: i128,
}

/// Abstract state of the header window.
pub struct HeaderView {
    pub board: BoardState,
    pub addr: nat,
}

/// Absolute position that a request names, from the window's current position.
pub open spec fn seek_target(pos: SeekFrom, addr: nat) -> int {
    match pos {
        SeekFrom::Start(x) => x as int,
        SeekFrom::End(x) => HEADER_END + x,
        SeekFrom::Current(x) => addr + x,
    }
}

/// The bus operations that read `count` header bytes from bus address `start`.
pub open spec fn header_ops(start: nat, count: nat) -> Seq<BusOp>
    decreases count,
{
    if count == 0 {
        seq![]
    } else {
        header_ops(start, (count - 1) as nat) + seq![
            BusOp::SetAddress((start + count - 1) as u16),
            BusOp::Read,
        ]
    }
}

/// Bytes that a read asking for `len` at position `addr` produces.
pub open spec fn header_read_count(addr: nat, len: nat) -> nat {
    if addr >= HEADER_END {
        0
    } else if len <= HEADER_END - addr {
        len
    } else {
        (HEADER_END - addr) as nat
    }
}

/// A bounded, seekable byte reader over bus addresses `[0, 0x150)`, through
/// which the cartridge header is decoded.
pub struct RomHeaderReader {
    board: CubicStyleBoard,
    addr: u16,
}

impl View for RomHeaderReader {
    type V = HeaderView;

    closed spec fn view(&self) -> HeaderView {
        HeaderView { board: self.board@, addr: self.addr as nat }
    }
}

impl RomHeaderReader {
    pub fn new(board: CubicStyleBoard) -> (r: Self)
        ensures
            r@ == (HeaderView { board: board@, addr: 0 }),
    {
        RomHeaderReader { board, addr: 0 }
    }

    /// Hands the bus driver back.
    pub fn into_board(self) -> (r: CubicStyleBoard)
        ensures
            r@ == self@.board,
    {
        self.board
    }

    /// Reads up to `len` bytes from the current position, one bus read each at
    /// the position's own address. Fewer bytes, down to none, at the window's
    /// end. The bytes are the results of the emitted `SpiRead` actions.
    pub fn read(&mut self, len: usize, out: &mut Vec<HwOp>) -> (n: usize)
        requires
            old(self)@.addr <= HEADER_END,
        ensures
            n == header_read_count(old(self)@.addr, len as nat),
            final(self)@.addr == old(self)@.addr + n,
            performs(
                old(self)@.board,
                old(out)@,
                final(self)@.board,
                final(out)@,
                header_ops(old(self)@.addr, n as nat),
            ),
    {
        let ghost v0 = self@;
        let ghost o0 = out@;
        let mut n: usize = 0;
        proof {
            assert(bus_run(v0.board, seq![]).1 =~= seq![]);
            assert(o0 + seq![] =~= o0);
        }
        while n < len
            invariant
                n <= len,
                self@.addr == v0.addr + n,
                self@.addr <= HEADER_END,
                performs(v0.board, o0, self@.board, out@, header_ops(v0.addr, n as nat)),
            ensures
                n == len || self@.addr == HEADER_END,
            decreases len - n,
        {
            if self.addr >= HEADER_END {
                break;
            }
            let ghost b1 = self.board@;
            let ghost o1 = out@;
            self.board.issue_pair(BusOp::SetAddress(self.addr), BusOp::Read, out);
            self.addr = self.addr + 1;
            n = n + 1;
            proof {
                lemma_performs_append(
                    v0.board,
                    o0,
                    b1,
                    o1,
                    self.board@,
                    out@,
                    header_ops(v0.addr, (n - 1) as nat),
                    seq![BusOp::SetAddress((self.addr - 1) as u16), BusOp::Read],
                );
            }
        }
        n
    }

    /// Moves to an absolute position, or one relative to the current position
    /// or to the window's end. A position outside `[0, 0x150)` is refused and
    /// leaves the window where it was.
    pub fn seek(&mut self, pos: SeekFrom) -> (r: Result<u64, AddressRangeError>)
        ensures
            match r {
                Ok(p) => {
                    &&& 0 <= seek_target(pos, old(self)@.addr) < HEADER_END
                    &&& p == seek_target(pos, old(self)@.addr)
                    &&& final(self)@.addr == p
                    &&& final(self)@.board == old(self)@.board
                },
                Err(e) => {
                    &&& !(0 <= seek_target(pos, old(self)@.addr) < HEADER_END)
                    &&& e.requested == seek_target(pos, old(self)@.addr)
                    &&& final(self)@ == old(self)@
                },
            },
    {
        let target: i128 = match pos {
            SeekFrom::Start(x) => x as i128,
            SeekFrom::End(x) => HEADER_END as i128 + x as i128,
            SeekFrom::Current(x) => self.addr as i128 + x as i128,
        };
        if target < 0 || target >= HEADER_END as i128 {
            return Err(AddressRangeError { requested: target });
        }
        self.addr = target as u16;
        Ok(target as u64)
    }
}

/// The uniform contract of the bank-controller readers: a forward-only stream
/// of exactly `size()` bytes.
pub trait MbcReader {
    spec fn stream(&self) -> StreamView;

    fn size(&self) -> (r: usize)
        ensures
            r == self.stream().size,
    ;

    fn status(&self) -> (r: ReaderStatus)
        ensures
            r == status_of(self.stream()),
    ;

    /// Produces up to `len` more bytes; see [`RomStream::read`].
    fn read(&mut self, len: usize, out: &mut Vec<HwOp>) -> (n: usize)
        requires
            stream_wf(old(self).stream()),
        ensures
            n == read_count(old(self).stream(), len as nat),
            final(self).stream() == advanced(old(self).stream(), n as nat),
            stream_wf(final(self).stream()),
            final(out)@ == old(out)@ + bus_run_ops(old(self).stream(), n as nat),
    ;
}

/// Reader of a cartridge without a bank controller: the 32 KiB at bus
/// addresses `[0, 0x8000)`, read in place.
pub struct RomOnlyReader {
    stream: RomStream,
}

/// Reader of an MBC1 cartridge.
pub struct Mbc1Reader {
    stream: RomStream,
}

/// Reader of an MBC2 cartridge.
pub struct Mbc2Reader {
    stream: RomStream,
}

/// Reader of an MBC3 cartridge.
pub struct Mbc3Reader {
    stream: RomStream,
}

/// Reader of an MBC5 cartridge.
pub struct Mbc5Reader {
    stream: RomStream,
}

impl RomOnlyReader {
    pub fn new(board: CubicStyleBoard, _header: &RomHeader) -> (r: Self)
        ensures
            r.stream() == fresh(board@, Controller::RomOnly, ROM_ONLY_SIZE as nat),
            stream_wf(r.stream()),
    {
        RomOnlyReader { stream: RomStream::new(board, Controller::RomOnly, ROM_ONLY_SIZE) }
    }
}

impl Mbc1Reader {
    pub fn new(board: CubicStyleBoard, header: &RomHeader) -> (r: Self)
        ensures
            r.stream() == fresh(board@, Controller::Mbc1, header.rom_size as nat),
            stream_wf(r.stream()),
    {
        Mbc1Reader { stream: RomStream::new(board, Controller::Mbc1, header.rom_size) }
    }
}

impl Mbc2Reader {
    pub fn new(board: CubicStyleBoard, header: &RomHeader) -> (r: Self)
        ensures
            r.stream() == fresh(board@, Controller::Mbc2, header.rom_size as nat),
            stream_wf(r.stream()),
    {
        Mbc2Reader { stream: RomStream::new(board, Controller::Mbc2, header.rom_size) }
    }
}

impl Mbc3Reader {
    pub fn new(board: CubicStyleBoard, header: &RomHeader) -> (r: Self)
        ensures
            r.stream() == fresh(board@, Controller::Mbc3, header.rom_size as nat),
            stream_wf(r.stream()),
    {
        Mbc3Reader { stream: RomStream::new(board, Controller::Mbc3, header.rom_size) }
    }
}

impl Mbc5Reader {
    pub fn new(board: CubicStyleBoard, header: &RomHeader) -> (r: Self)
        ensures
            r.stream() == fresh(board@, Controller::Mbc5, header.rom_size as nat),
            stream_wf(r.stream()),
    {
        Mbc5Reader { stream: RomStream::new(board, Controller::Mbc5, header.rom_size) }
    }
}

impl MbcReader for RomOnlyReader {
    closed spec fn stream(&self) -> StreamView {
        self.stream@
    }

    fn size(&self) -> usize {
        self.stream.size()
    }

    fn status(&self) -> ReaderStatus {
        self.stream.status()
    }

    fn read(&mut self, len: usize, out: &mut Vec<HwOp>) -> usize {
        self.stream.read(len, out)
    }
}

impl MbcReader for Mbc1Reader {
    closed spec fn stream(&self) -> StreamView {
        self.stream@
    }

    fn size(&self) -> usize {
        self.stream.size()
    }

    fn status(&self) -> ReaderStatus {
        self.stream.status()
    }

    fn read(&mut self, len: usize, out: &mut Vec<HwOp>) -> usize {
        self.stream.read(len, out)
    }
}

impl MbcReader for Mbc2Reader {
    closed spec fn stream(&self) -> StreamView {
        self.stream@
    }

    fn size(&self) -> usize {
        self.stream.size()
    }

    fn status(&self) -> ReaderStatus {
        self.stream.status()
    }

    fn read(&mut self, len: usize, out: &mut Vec<HwOp>) -> usize {
        self.stream.read(len, out)
    }
}

impl MbcReader for Mbc3Reader {
    closed spec fn stream(&self) -> StreamView {
        self.stream@
    }

    fn size(&self) -> usize {
        self.stream.size()
    }

    fn status(&self) -> ReaderStatus {
        self.stream.status()
    }

    fn read(&mut self, len: usize, out: &mut Vec<HwOp>) -> usize {
        self.stream.read(len, out)
    }
}

impl MbcReader for Mbc5Reader {
    closed spec fn stream(&self) -> StreamView {
        self.stream@
    }

    fn size(&self) -> usize {
        self.stream.size()
    }

    fn status(&self) -> ReaderStatus {
        self.stream.status()
    }

    fn read(&mut self, len: usize, out: &mut Vec<HwOp>) -> usize {
        self.stream.read(len, out)
    }
}

/// The reader that the dispatcher chose, one variant per bank-controller scheme.
pub enum AnyMbcReader {
    RomOnly(RomOnlyReader),
    Mbc1(Mbc1Reader),
    Mbc2(Mbc2Reader),
    Mbc3(Mbc3Reader),
    Mbc5(Mbc5Reader),
}

impl MbcReader for AnyMbcReader {
    open spec fn stream(&self) -> StreamView {
        match self {
            AnyMbcReader::RomOnly(r) => r.stream(),
            AnyMbcReader::Mbc1(r) => r.stream(),
            AnyMbcReader::Mbc2(r) => r.stream(),
            AnyMbcReader::Mbc3(r) => r.stream(),
            AnyMbcReader::Mbc5(r) => r.stream(),
        }
    }

    fn size(&self) -> usize {
        match self {
            AnyMbcReader::RomOnly(r) => r.size(),
            AnyMbcReader::Mbc1(r) => r.size(),
            AnyMbcReader::Mbc2(r) => r.size(),
            AnyMbcReader::Mbc3(r) => r.size(),
            AnyMbcReader::Mbc5(r) => r.size(),
        }
    }

    fn status(&self) -> ReaderStatus {
        match self {
            AnyMbcReader::RomOnly(r) => r.status(),
            AnyMbcReader::Mbc1(r) => r.status(),
            AnyMbcReader::Mbc2(r) => r.status(),
            AnyMbcReader::Mbc3(r) => r.status(),
            AnyMbcReader::Mbc5(r) => r.status(),
        }
    }

    fn read(&mut self, len: usize, out: &mut Vec<HwOp>) -> usize {
        match self {
            AnyMbcReader::RomOnly(r) => r.read(len, out),
            AnyMbcReader::Mbc1(r) => r.read(len, out),
            AnyMbcReader::Mbc2(r) => r.read(len, out),
            AnyMbcReader::Mbc3(r) => r.read(len, out),
            AnyMbcReader::Mbc5(r) => r.read(len, out),
        }
    }
}

/// The reader scheme for a cartridge-type tag; `None` for tags without one.
pub open spec fn controller_for(t: MbcType) -> Option<Controller> {
    match t {
        MbcType::RomOnly => Some(Controller::RomOnly),
        MbcType::Mbc1 | MbcType::Mbc1Ram | MbcType::Mbc1RamBattery => Some(Controller::Mbc1),
        MbcType::Mbc2 | MbcType::Mbc2Battery => Some(Controller::Mbc2),
        MbcType::Mbc3TimerBattery
        | MbcType::Mbc3TimerRamBattery
        | MbcType::Mbc3
        | MbcType::Mbc3Ram
        | MbcType::Mbc3RamBattery => Some(Controller::Mbc3),
        MbcType::Mbc5
        | MbcType::Mbc5Ram
        | MbcType::Mbc5RamBattery
        | MbcType::Mbc5Rumble
        | MbcType::Mbc5RumbleRam
        | MbcType::Mbc5RumbleRamBattery => Some(Controller::Mbc5),
        _ => None,
    }
}

/// Bytes that the reader of scheme `c` streams: fixed for a cartridge
/// without a bank controller, else what the header declares.
pub open spec fn declared_size(c: Controller, header_size: nat) -> nat {
    if c == Controller::RomOnly {
        ROM_ONLY_SIZE as nat
    } else {
        header_size
    }
}

/// The header names a cartridge type that has no reader.
#[derive(PartialEq, Eq, Structural, Clone, Copy, Debug)]
pub struct UnsupportedCartridgeError {
    pub mbc_type: MbcType,
}

/// Chooses the reader for the decoded header and hands it the bus driver.
pub fn new_mbc_reader(board: CubicStyleBoard, header: RomHeader) -> (r: Result<
    (AnyMbcReader, RomHeader),
    UnsupportedCartridgeError,
>)
    ensures
        match r {
            Ok(p) => {
                &&& controller_for(header.mbc_type).is_some()
                &&& p.1 == header
                &&& p.0.stream() == fresh(
                    board@,
                    controller_for(header.mbc_type).unwrap(),
                    declared_size(controller_for(header.mbc_type).unwrap(), header.rom_size as nat),
                )
                &&& stream_wf(p.0.stream())
            },
            Err(e) => controller_for(header.mbc_type).is_none() && e.mbc_type == header.mbc_type,
        },
{
    let reader = match header.mbc_type {
        MbcType::RomOnly => AnyMbcReader::RomOnly(RomOnlyReader::new(board, &header)),
        MbcType::Mbc1 | MbcType::Mbc1Ram | MbcType::Mbc1RamBattery => AnyMbcReader::Mbc1(
            Mbc1Reader::new(board, &header),
        ),
        MbcType::Mbc2 | MbcType::Mbc2Battery => AnyMbcReader::Mbc2(Mbc2Reader::new(board, &header)),
        MbcType::Mbc3TimerBattery
        | MbcType::Mbc3TimerRamBattery
        | MbcType::Mbc3
        | MbcType::Mbc3Ram
        | MbcType::Mbc3RamBattery => AnyMbcReader::Mbc3(Mbc3Reader::new(board, &header)),
        MbcType::Mbc5
        | MbcType::Mbc5Ram
        | MbcType::Mbc5RamBattery
        | MbcType::Mbc5Rumble
        | MbcType::Mbc5RumbleRam
        | MbcType::Mbc5RumbleRamBattery => AnyMbcReader::Mbc5(Mbc5Reader::new(board, &header)),
        t => {
            return Err(UnsupportedCartridgeError { mbc_type: t });
        },
    };
    Ok((reader, header))
}

} // verus!
