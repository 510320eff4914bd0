use vstd::prelude::*;

use crate::board::{
    BoardState, BusOp, CubicStyleBoard, HwOp, bus_run, lemma_performs_append, performs,
};

verus! {

/// Size of one bank, and of each half of the visible address window.
pub const BANK_SIZE: usize = 0x4000;

/// Size of a cartridge without a bank controller.
pub const ROM_ONLY_SIZE: usize = 0x8000;

/// The bank-controller schemes that have a reader.
#[derive(PartialEq, Eq, Structural, Clone, Copy, Debug)]
pub enum Controller {
    RomOnly,
    Mbc1,
    Mbc2,
    Mbc3,
    Mbc5,
}

/// Bus address that carries linear ROM address `addr`: the low window maps
/// unchanged, everything above it into the switchable window.
pub open spec fn translate(addr: nat) -> u16 {
    if addr < 0x4000 {
        addr as u16
    } else {
        (addr % 0x4000 + 0x4000) as u16
    }
}

/// Banks that an MBC1 cannot select in its switchable window.
pub open spec fn is_unusable_mbc1_bank(b: nat) -> bool {
    b == 0x20 || b == 0x40 || b == 0x60
}

/// The bank counter after one boundary crossing.
pub open spec fn next_bank(c: Controller, bank: nat) -> nat {
    match c {
        Controller::RomOnly => bank,
        Controller::Mbc1 => if is_unusable_mbc1_bank(bank + 1) {
            bank + 2
        } else {
            bank + 1
        },
        _ => bank + 1,
    }
}

/// The bank counter after `k` boundary crossings, starting at bank 0.
pub open spec fn bank_after(c: Controller, k: nat) -> nat
    decreases k,
{
    if k == 0 {
        0
    } else {
        next_bank(c, bank_after(c, (k - 1) as nat))
    }
}

/// Boundaries crossed once every address below `addr` has been read.
pub open spec fn crossings(addr: nat) -> nat {
    if addr == 0 {
        0
    } else {
        ((addr - 1) / 0x4000) as nat
    }
}

/// A linear address at which a bank switch precedes the read.
pub open spec fn is_boundary(addr: nat) -> bool {
    addr != 0 && addr % 0x4000 == 0
}

/// The bank-select writes of each scheme.
pub open spec fn select_ops(c: Controller, bank: nat) -> Seq<BusOp> {
    match c {
        Controller::RomOnly => seq![],
        Controller::Mbc1 => seq![
            BusOp::SetAddress(0x2000),
            BusOp::Write((bank % 32) as u8),
            BusOp::SetAddress(0x4000),
            BusOp::Write(((bank / 32) % 4) as u8),
        ],
        Controller::Mbc2 => seq![BusOp::SetAddress(0x2100), BusOp::Write((bank % 16) as u8)],
        Controller::Mbc3 => seq![BusOp::SetAddress(0x2000), BusOp::Write((bank % 256) as u8)],
        Controller::Mbc5 => seq![
            BusOp::SetAddress(0x2000),
            BusOp::Write((bank % 256) as u8),
            BusOp::SetAddress(0x3000),
            BusOp::Write(((bank / 256) % 2) as u8),
        ],
    }
}

/// The bus operations that produce the byte at linear address `addr`.
pub open spec fn byte_ops(c: Controller, addr: nat) -> Seq<BusOp> {
    (if is_boundary(addr) {
        select_ops(c, bank_after(c, addr / 0x4000))
    } else {
        seq![]
    }) + seq![BusOp::SetAddress(translate(addr)), BusOp::Read]
}

/// The bus operations that produce `count` bytes from linear address `start`.
pub open spec fn stream_ops(c: Controller, start: nat, count: nat) -> Seq<BusOp>
    decreases count,
{
    if count == 0 {
        seq![]
    } else {
        stream_ops(c, start, (count - 1) as nat) + byte_ops(c, (start + count - 1) as nat)
    }
}

/// Abstract state of a byte stream over a cartridge.
pub struct StreamView {
    pub board: BoardState,
    pub controller: Controller,
    pub addr: nat,
    pub size: nat,
    pub bank: nat,
}

pub open spec fn stream_wf(v: StreamView) -> bool {
    &&& v.addr <= v.size
    &&& v.bank == bank_after(v.controller, crossings(v.addr))
    &&& v.controller == Controller::RomOnly ==> v.size == 0x8000
}

/// Bytes that a read asking for `len` produces: as many as asked, up to the end.
pub open spec fn read_count(v: StreamView, len: nat) -> nat {
    if len <= v.size - v.addr {
        len
    } else {
        (v.size - v.addr) as nat
    }
}

/// The stream after `n` more bytes have been read.
pub open spec fn advanced(v: StreamView, n: nat) -> StreamView {
    StreamView {
        board: bus_run(v.board, stream_ops(v.controller, v.addr, n)).0,
        controller: v.controller,
        addr: v.addr + n,
        size: v.size,
        bank: bank_after(v.controller, crossings(v.addr + n)),
    }
}

/// The actions that reading `n` more bytes of stream `v` emits.
pub open spec fn bus_run_ops(v: StreamView, n: nat) -> Seq<HwOp> {
    bus_run(v.board, stream_ops(v.controller, v.addr, n)).1
}

/// A fresh stream positioned at linear address 0.
pub open spec fn fresh(board: BoardState, controller: Controller, size: nat) -> StreamView {
    StreamView { board, controller, addr: 0, size, bank: 0 }
}

/// Progress snapshot: the selected bank and the bus address of the next read.
#[derive(PartialEq, Eq, Structural, Clone, Copy, Debug)]
pub struct ReaderStatus {
    pub bank: usize,
    pub address: u16,
}

pub open spec fn status_of(v: StreamView) -> ReaderStatus {
    ReaderStatus { bank: v.bank as usize, address: translate(v.addr) }
}

/// Number of MBC1 banks skipped once the counter has moved `k` times.
pub open spec fn mbc1_skips(k: nat) -> nat {
    (if k >= 0x20 { 1nat } else { 0nat }) + (if k >= 0x3F { 1nat } else { 0nat }) + (if k >= 0x5E {
        1nat
    } else {
        0nat
    })
}

/// The bank counter in closed form.
pub proof fn lemma_bank_after(c: Controller, k: nat)
    ensures
        bank_after(c, k) == match c {
            Controller::RomOnly => 0,
            Controller::Mbc1 => k + mbc1_skips(k),
            _ => k,
        },
    decreases k,
{
    if k > 0 {
        lemma_bank_after(c, (k - 1) as nat);
    }
}

/// Address translation: below 0x4000 a linear address is its own bus address,
/// whatever bank is selected; from 0x4000 on it is its offset within its bank
/// plus 0x4000, inside the switchable window `[0x4000, 0x8000)`.
pub proof fn lemma_translation(a: nat)
    ensures
        a < 0x4000 ==> translate(a) == a,
        a >= 0x4000 ==> translate(a) == a % 0x4000 + 0x4000,
        a >= 0x4000 ==> 0x4000 <= translate(a) < 0x8000,
{
}

/// A cartridge without a bank controller is read in place: the byte at linear
/// address `a` below 0x8000 comes from bus address `a`, with no bank-select
/// write before it.
pub proof fn lemma_rom_only_identity(a: nat)
    requires
        a < 0x8000,
    ensures
        byte_ops(Controller::RomOnly, a) == seq![BusOp::SetAddress(a as u16), BusOp::Read],
{
    assert(translate(a) == a);
    assert(byte_ops(Controller::RomOnly, a) =~= seq![BusOp::SetAddress(a as u16), BusOp::Read]);
}

/// Once a cartridge without a bank controller has been read up to 0x8000, its
/// stream ends: every further read produces no byte.
pub proof fn lemma_rom_only_end(v: StreamView, len: nat)
    requires
        stream_wf(v),
        v.controller == Controller::RomOnly,
        v.addr >= 0x8000,
    ensures
        read_count(v, len) == 0,
        advanced(v, 0).addr == v.addr,
{
}

/// MBC1's bank counter runs through the natural numbers with banks 0x20, 0x40
/// and 0x60 left out: each boundary crossing moves it up, never onto one of
/// those banks, and passes over no other bank.
pub proof fn lemma_mbc1_bank_sequence(k: nat)
    requires
        k >= 1,
    ensures
        bank_after(Controller::Mbc1, (k - 1) as nat) < bank_after(Controller::Mbc1, k),
        !is_unusable_mbc1_bank(bank_after(Controller::Mbc1, k)),
        forall|b: nat|
            bank_after(Controller::Mbc1, (k - 1) as nat) < b < bank_after(Controller::Mbc1, k)
                ==> is_unusable_mbc1_bank(b),
{
    lemma_bank_after(Controller::Mbc1, k);
    lemma_bank_after(Controller::Mbc1, (k - 1) as nat);
}

/// MBC5's bank-select writes carry the low eight bits of the bank counter to
/// 0x2000 and its bit 8 to 0x3000; the counter is the number of boundaries
/// crossed.
pub proof fn lemma_mbc5_select_bits(bank: usize, k: nat)
    ensures
        select_ops(Controller::Mbc5, bank as nat) == seq![
            BusOp::SetAddress(0x2000),
            BusOp::Write((bank & 0xFF) as u8),
            BusOp::SetAddress(0x3000),
            BusOp::Write(((bank >> 8) & 1) as u8),
        ],
        bank_after(Controller::Mbc5, k) == k,
{
    assert(bank & 0xFF == bank % 256) by (bit_vector);
    assert((bank >> 8) & 1 == (bank / 256) % 2) by (bit_vector);
    lemma_bank_after(Controller::Mbc5, k);
}

/// A sequential reader over a cartridge's ROM, for one bank-controller scheme.
pub struct RomStream {
    board: CubicStyleBoard,
    controller: Controller,
    addr: usize,
    size: usize,
    bank: usize,
}

impl View for RomStream {
    type V = StreamView;

    closed spec fn view(&self) -> StreamView {
        StreamView {
            board: self.board@,
            controller: self.controller,
            addr: self.addr as nat,
            size: self.size as nat,
            bank: self.bank as nat,
        }
    }
}

impl RomStream {
    /// A stream over `size` bytes, driving `board`.
    pub fn new(board: CubicStyleBoard, controller: Controller, size: usize) -> (r: Self)
        requires
            controller == Controller::RomOnly ==> size == ROM_ONLY_SIZE,
        ensures
            r@ == fresh(board@, controller, size as nat),
            stream_wf(r@),
    {
        RomStream { board, controller, addr: 0, size, bank: 0 }
    }

    pub fn size(&self) -> (r: usize)
        ensures
            r == self@.size,
    {
        self.size
    }

    pub fn status(&self) -> (r: ReaderStatus)
        ensures
            r == status_of(self@),
    {
        ReaderStatus { bank: self.bank, address: self.cur_addr() }
    }

    /// Hands the bus driver back.
    pub fn into_board(self) -> (r: CubicStyleBoard)
        ensures
            r@ == self@.board,
    {
        self.board
    }

    fn cur_addr(&self) -> (r: u16)
        ensures
            r == translate(self.addr as nat),
    {
        if self.addr >= BANK_SIZE {
            (self.addr % BANK_SIZE + BANK_SIZE) as u16
        } else {
            self.addr as u16
        }
    }

    /// Moves the bank counter one step on.
    fn advance_bank(&mut self)
        requires
            old(self).bank + 2 <= usize::MAX,
        ensures
            final(self)@ == (StreamView { bank: next_bank(old(self).controller, old(self)@.bank), ..old(self)@ }),
    {
        match self.controller {
            Controller::RomOnly => {},
            Controller::Mbc1 => {
                self.bank = self.bank + 1;
                if self.bank == 0x20 || self.bank == 0x40 || self.bank == 0x60 {
                    self.bank = self.bank + 1;
                }
            },
            _ => {
                self.bank = self.bank + 1;
            },
        }
    }

    /// Issues this scheme's bank-select writes for the current bank.
    fn select_rom_bank(&mut self, out: &mut Vec<HwOp>)
        ensures
            final(self)@ == (StreamView { board: final(self)@.board, ..old(self)@ }),
            performs(
                old(self)@.board,
                old(out)@,
                final(self)@.board,
                final(out)@,
                select_ops(old(self)@.controller, old(self)@.bank),
            ),
    {
        let ghost b0 = self.board@;
        let ghost o0 = out@;
        let bank = self.bank;
        match self.controller {
            Controller::RomOnly => {
                assert(bus_run(b0, seq![]).1 =~= seq![]);
                assert(o0 + seq![] =~= o0);
            },
            Controller::Mbc1 => {
                self.board.issue_pair(BusOp::SetAddress(0x2000), BusOp::Write((bank % 32) as u8), out);
                let ghost b1 = self.board@;
                let ghost o1 = out@;
                self.board.issue_pair(
                    BusOp::SetAddress(0x4000),
                    BusOp::Write(((bank / 32) % 4) as u8),
                    out,
                );
                proof {
                    let first = seq![BusOp::SetAddress(0x2000), BusOp::Write((bank % 32) as u8)];
                    let second = seq![
                        BusOp::SetAddress(0x4000),
                        BusOp::Write(((bank / 32) % 4) as u8),
                    ];
                    lemma_performs_append(b0, o0, b1, o1, self.board@, out@, first, second);
                    assert(first + second =~= select_ops(self.controller, bank as nat));
                }
            },
            Controller::Mbc2 => {
                self.board.issue_pair(BusOp::SetAddress(0x2100), BusOp::Write((bank % 16) as u8), out);
            },
            Controller::Mbc3 => {
                self.board.issue_pair(
                    BusOp::SetAddress(0x2000),
                    BusOp::Write((bank % 256) as u8),
                    out,
                );
            },
            Controller::Mbc5 => {
                self.board.issue_pair(
                    BusOp::SetAddress(0x2000),
                    BusOp::Write((bank % 256) as u8),
                    out,
                );
                let ghost b1 = self.board@;
                let ghost o1 = out@;
                self.board.issue_pair(
                    BusOp::SetAddress(0x3000),
                    BusOp::Write(((bank / 256) % 2) as u8),
                    out,
                );
                proof {
                    let first = seq![BusOp::SetAddress(0x2000), BusOp::Write((bank % 256) as u8)];
                    let second = seq![
                        BusOp::SetAddress(0x3000),
                        BusOp::Write(((bank / 256) % 2) as u8),
                    ];
                    lemma_performs_append(b0, o0, b1, o1, self.board@, out@, first, second);
                    assert(first + second =~= select_ops(self.controller, bank as nat));
                }
            },
        }
    }

    /// Produces the byte at the current linear address: the bank switch when
    /// the address is a boundary, then the translated address and one read.
    fn read_one(&mut self, out: &mut Vec<HwOp>)
        requires
            stream_wf(old(self)@),
            old(self)@.addr < old(self)@.size,
        ensures
            final(self)@ == advanced(old(self)@, 1),
            stream_wf(final(self)@),
            performs(
                old(self)@.board,
                old(out)@,
                final(self)@.board,
                final(out)@,
                byte_ops(old(self)@.controller, old(self)@.addr),
            ),
    {
        let ghost v0 = self@;
        let ghost o0 = out@;
        let ghost a = self.addr as nat;
        proof {
            lemma_crossing_step(a);
        }
        if self.addr != 0 && self.addr % BANK_SIZE == 0 {
            proof {
                lemma_bank_after(self.controller, crossings(a));
            }
            self.advance_bank();
            self.select_rom_bank(out);
        } else {
            proof {
                assert(bus_run(v0.board, seq![]).1 =~= seq![]);
                assert(o0 + seq![] =~= o0);
            }
        }
        let ghost b1 = self.board@;
        let ghost o1 = out@;
        let bus_addr = self.cur_addr();
        self.board.issue_pair(BusOp::SetAddress(bus_addr), BusOp::Read, out);
        self.addr = self.addr + 1;
        proof {
            let sel = if is_boundary(a) {
                select_ops(v0.controller, bank_after(v0.controller, a / 0x4000))
            } else {
                seq![]
            };
            let rd = seq![BusOp::SetAddress(translate(a)), BusOp::Read];
            lemma_performs_append(v0.board, o0, b1, o1, self.board@, out@, sel, rd);
            assert(stream_ops(v0.controller, a, 0) + byte_ops(v0.controller, a) =~= byte_ops(
                v0.controller,
                a,
            ));
            assert(stream_ops(v0.controller, a, 1) == byte_ops(v0.controller, a));
        }
    }

    /// Reads up to `len` bytes, one bus read each, switching banks at each
    /// bank boundary. Returns how many bytes were produced: fewer than `len`
    /// only at the end of the ROM. The bytes are the results of the emitted
    /// `SpiRead` actions, in order.
    pub fn read(&mut self, len: usize, out: &mut Vec<HwOp>) -> (n: usize)
        requires
            stream_wf(old(self)@),
        ensures
            n == read_count(old(self)@, len as nat),
            final(self)@ == advanced(old(self)@, n as nat),
            stream_wf(final(self)@),
            final(out)@ == old(out)@ + bus_run_ops(old(self)@, n as nat),
    {
        let ghost v0 = self@;
        let ghost o0 = out@;
        let mut n: usize = 0;
        proof {
            assert(bus_run(v0.board, seq![]).1 =~= seq![]);
            assert(o0 + seq![] =~= o0);
        }
        while n < len
            invariant
                stream_wf(self@),
                stream_wf(v0),
                n <= len,
                self@ == advanced(v0, n as nat),
                performs(
                    v0.board,
                    o0,
                    self@.board,
                    out@,
                    stream_ops(v0.controller, v0.addr, n as nat),
                ),
            ensures
                n == len || self@.addr == self@.size,
            decreases len - n,
        {
            if self.addr >= self.size {
                break;
            }
            let ghost b1 = self.board@;
            let ghost o1 = out@;
            self.read_one(out);
            n = n + 1;
            proof {
                let prev = stream_ops(v0.controller, v0.addr, (n - 1) as nat);
                let one = byte_ops(v0.controller, (v0.addr + n - 1) as nat);
                lemma_performs_append(v0.board, o0, b1, o1, self.board@, out@, prev, one);
                assert(stream_ops(v0.controller, v0.addr, n as nat) == prev + one);
            }
        }
        n
    }
}

/// How the boundary count moves when the address at `a` has been read.
proof fn lemma_crossing_step(a: nat)
    ensures
        is_boundary(a) ==> crossings(a) + 1 == a / 0x4000 && crossings(a + 1) == a / 0x4000,
        !is_boundary(a) ==> crossings(a + 1) == crossings(a),
{
}

} // verus!
