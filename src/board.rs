use vstd::prelude::*;

verus! {

/// Device-select field of the I/O expander (three bits).
pub const DEV_ID: u8 = 0;

/// Expander register: direction of the data lines (a set bit is an input).
pub const REG_IODIR: u8 = 0x00;

/// Expander register: operating-mode configuration.
pub const REG_IOCON: u8 = 0x05;

/// Expander register: the data lines themselves.
pub const REG_GPIO: u8 = 0x09;

/// Operating mode written once at start-up: sequential addressing disabled.
pub const IOCON_INIT: u8 = 0x20;

/// Settle time after a chip-select edge, in microseconds.
pub const CS_WAIT: u64 = 3;

/// Settle time after a read-strobe edge, in microseconds.
pub const RD_WAIT: u64 = 4;

/// Wait before a write-strobe edge, in microseconds.
pub const WR_WAIT_BEFORE: u64 = 1;

/// Settle time after a write-strobe edge, in microseconds.
pub const WR_WAIT_AFTER: u64 = 5;

/// Opcode of a register write on the serial link.
pub const CMD_WRITE: u8 = 0x40;

/// Opcode of a register read on the serial link.
pub const CMD_READ: u8 = 0x41;

/// Which way the expander's data lines are configured.
#[derive(PartialEq, Eq, Structural, Clone, Copy, Debug)]
pub enum DataDir {
    Input,
    Output,
}

/// The four discrete control lines. Each idles high and is asserted low.
#[derive(PartialEq, Eq, Structural, Clone, Copy, Debug)]
pub enum Line {
    Read,
    Write,
    ChipSelect,
    Reset,
}

/// One primitive action on the adapter board's hardware.
///
/// A bus operation is carried out by performing, in order, the actions that
/// the driver emitted for it.
#[derive(PartialEq, Eq, Structural, Clone, Copy, Debug)]
pub enum HwOp {
    /// Drive a control line low (`low == true`) or high.
    SetLine { line: Line, low: bool },
    /// Drive address output line `index` (0 to 15) high or low.
    SetAddressLine { index: u8, high: bool },
    /// Sleep for at least the given number of microseconds.
    Wait { micros: u64 },
    /// Serial frame `[command, register, value]`; the response is ignored.
    SpiWrite { command: u8, register: u8, value: u8 },
    /// Serial frame `[command, register, 0]`; the byte read is the third byte of
    /// the response.
    SpiRead { command: u8, register: u8 },
}

/// A bus-level operation, as the bank-controller readers issue them.
#[derive(PartialEq, Eq, Structural, Clone, Copy, Debug)]
pub enum BusOp {
    SetAddress(u16),
    Read,
    Write(u8),
}

/// The driver's last-commanded levels (`true` is low) and data direction.
#[derive(PartialEq, Eq, Structural, Clone, Copy, Debug)]
pub struct BoardState {
    pub rd_low: bool,
    pub wr_low: bool,
    pub cs_low: bool,
    pub rst_low: bool,
    pub data_dir: DataDir,
}

/// Protocol state of the bus driver: the level last commanded on each control
/// line and the configured data direction.
///
/// The driver owns no hardware handle: each operation appends to a program of
/// [`HwOp`]s that the caller performs on the board in order.
pub struct CubicStyleBoard {
    rd_low: bool,
    wr_low: bool,
    cs_low: bool,
    rst_low: bool,
    data_dir: DataDir,
}

impl View for CubicStyleBoard {
    type V = BoardState;

    closed spec fn view(&self) -> BoardState {
        BoardState {
            rd_low: self.rd_low,
            wr_low: self.wr_low,
            cs_low: self.cs_low,
            rst_low: self.rst_low,
            data_dir: self.data_dir,
        }
    }
}

/// All control lines high, data lines configured as inputs.
pub open spec fn idle_state() -> BoardState {
    BoardState { rd_low: false, wr_low: false, cs_low: false, rst_low: false, data_dir: DataDir::Input }
}

/// Command byte of a serial frame: the opcode with the device-select field.
pub open spec fn command_byte(opcode: u8) -> u8 {
    opcode | ((DEV_ID & 7) << 1)
}

pub open spec fn level_low(s: BoardState, line: Line) -> bool {
    match line {
        Line::Read => s.rd_low,
        Line::Write => s.wr_low,
        Line::ChipSelect => s.cs_low,
        Line::Reset => s.rst_low,
    }
}

pub open spec fn with_level(s: BoardState, line: Line, low: bool) -> BoardState {
    match line {
        Line::Read => BoardState { rd_low: low, ..s },
        Line::Write => BoardState { wr_low: low, ..s },
        Line::ChipSelect => BoardState { cs_low: low, ..s },
        Line::Reset => BoardState { rst_low: low, ..s },
    }
}

/// An edge on a control line together with the waits that the timing
/// contract asks for around it.
pub open spec fn edge_ops(line: Line, low: bool) -> Seq<HwOp> {
    match line {
        Line::Write => seq![
            HwOp::Wait { micros: WR_WAIT_BEFORE },
            HwOp::SetLine { line, low },
            HwOp::Wait { micros: WR_WAIT_AFTER },
        ],
        Line::Read => seq![HwOp::SetLine { line, low }, HwOp::Wait { micros: RD_WAIT }],
        Line::ChipSelect => seq![HwOp::SetLine { line, low }, HwOp::Wait { micros: CS_WAIT }],
        Line::Reset => seq![HwOp::SetLine { line, low }],
    }
}

/// Driving a line to a level: nothing when it was last commanded to that level.
pub open spec fn drive_ops(s: BoardState, line: Line, low: bool) -> Seq<HwOp> {
    if level_low(s, line) == low {
        seq![]
    } else {
        edge_ops(line, low)
    }
}

/// Switching the data direction: one direction-register write, only on a change.
pub open spec fn direction_ops(cur: DataDir, want: DataDir) -> Seq<HwOp> {
    if cur == want {
        seq![]
    } else {
        seq![
            HwOp::SpiWrite {
                command: command_byte(CMD_WRITE),
                register: REG_IODIR,
                value: if want == DataDir::Output { 0x00u8 } else { 0xFFu8 },
            },
        ]
    }
}

/// The serial frame that writes `val` into expander register `reg`.
pub open spec fn spi_write(reg: u8, val: u8) -> HwOp {
    HwOp::SpiWrite { command: command_byte(CMD_WRITE), register: reg, value: val }
}

/// The serial frame that reads expander register `reg`.
pub open spec fn spi_read(reg: u8) -> HwOp {
    HwOp::SpiRead { command: command_byte(CMD_READ), register: reg }
}

pub open spec fn with_dir(s: BoardState, dir: DataDir) -> BoardState {
    BoardState { data_dir: dir, ..s }
}

/// All control lines at their idle-high level, the data direction kept.
pub open spec fn released(s: BoardState) -> BoardState {
    BoardState { rd_low: false, wr_low: false, cs_low: false, rst_low: false, data_dir: s.data_dir }
}

/// Value that address line `i` carries for bus address `addr`.
pub open spec fn address_bit(addr: u16, i: int) -> bool {
    (addr >> (i as u16)) & 1u16 == 1u16
}

/// All sixteen address lines rewritten from `addr`.
pub open spec fn address_ops(addr: u16) -> Seq<HwOp> {
    Seq::new(16, |i: int| HwOp::SetAddressLine { index: i as u8, high: address_bit(addr, i) })
}

pub open spec fn read_ops(s: BoardState) -> Seq<HwOp> {
    direction_ops(s.data_dir, DataDir::Input) + drive_ops(s, Line::Write, false) + drive_ops(
        s,
        Line::Read,
        true,
    ) + drive_ops(s, Line::ChipSelect, true) + seq![
        HwOp::SpiRead { command: command_byte(CMD_READ), register: REG_GPIO },
    ] + edge_ops(Line::Read, false) + edge_ops(Line::ChipSelect, false)
}

pub open spec fn write_ops(s: BoardState, val: u8) -> Seq<HwOp> {
    direction_ops(s.data_dir, DataDir::Output) + drive_ops(s, Line::Read, false) + drive_ops(
        s,
        Line::ChipSelect,
        true,
    ) + seq![HwOp::SpiWrite { command: command_byte(CMD_WRITE), register: REG_GPIO, value: val }]
        + drive_ops(s, Line::Write, true) + edge_ops(Line::Write, false) + edge_ops(
        Line::ChipSelect,
        false,
    )
}

/// State after a byte transfer: strobes and chip-select released, data lines
/// facing `dir`.
pub open spec fn after_transfer(s: BoardState, dir: DataDir) -> BoardState {
    BoardState { rd_low: false, wr_low: false, cs_low: false, rst_low: s.rst_low, data_dir: dir }
}

/// What one bus operation does: the next driver state and the actions emitted.
pub open spec fn bus_step(s: BoardState, op: BusOp) -> (BoardState, Seq<HwOp>) {
    match op {
        BusOp::SetAddress(a) => (s, address_ops(a)),
        BusOp::Read => (after_transfer(s, DataDir::Input), read_ops(s)),
        BusOp::Write(v) => (after_transfer(s, DataDir::Output), write_ops(s, v)),
    }
}

/// What a sequence of bus operations does, performed in order.
pub open spec fn bus_run(s: BoardState, ops: Seq<BusOp>) -> (BoardState, Seq<HwOp>)
    decreases ops.len(),
{
    if ops.len() == 0 {
        (s, seq![])
    } else {
        let prev = bus_run(s, ops.drop_last());
        let last = bus_step(prev.0, ops.last());
        (last.0, prev.1 + last.1)
    }
}

pub proof fn lemma_bus_run_push(s: BoardState, ops: Seq<BusOp>, op: BusOp)
    ensures
        bus_run(s, ops.push(op)) == ({
            let prev = bus_run(s, ops);
            let last = bus_step(prev.0, op);
            (last.0, prev.1 + last.1)
        }),
{
    assert(ops.push(op).drop_last() =~= ops);
}

/// Running `a` then `b` is running their concatenation.
pub proof fn lemma_bus_run_append(s: BoardState, a: Seq<BusOp>, b: Seq<BusOp>)
    ensures
        bus_run(s, a + b) == ({
            let first = bus_run(s, a);
            let second = bus_run(first.0, b);
            (second.0, first.1 + second.1)
        }),
    decreases b.len(),
{
    if b.len() == 0 {
        assert(a + b =~= a);
        assert(bus_run(s, a).1 + seq![] =~= bus_run(s, a).1);
    } else {
        let b0 = b.drop_last();
        let x = b.last();
        lemma_bus_run_append(s, a, b0);
        assert(a + b =~= (a + b0).push(x));
        assert(b0.push(x) =~= b);
        lemma_bus_run_push(s, a + b0, x);
        lemma_bus_run_push(bus_run(s, a).0, b0, x);
        let first = bus_run(s, a);
        let mid = bus_run(first.0, b0);
        let last = bus_step(mid.0, x);
        assert(first.1 + mid.1 + last.1 =~= first.1 + (mid.1 + last.1));
    }
}

/// The driver went from `b0` to `b1`, and the actions from `o0` to `o1`,
/// by performing the bus operations `ops`.
pub open spec fn performs(
    b0: BoardState,
    o0: Seq<HwOp>,
    b1: BoardState,
    o1: Seq<HwOp>,
    ops: Seq<BusOp>,
) -> bool {
    b1 == bus_run(b0, ops).0 && o1 == o0 + bus_run(b0, ops).1
}

pub proof fn lemma_performs_append(
    b0: BoardState,
    o0: Seq<HwOp>,
    b1: BoardState,
    o1: Seq<HwOp>,
    b2: BoardState,
    o2: Seq<HwOp>,
    a: Seq<BusOp>,
    b: Seq<BusOp>,
)
    requires
        performs(b0, o0, b1, o1, a),
        performs(b1, o1, b2, o2, b),
    ensures
        performs(b0, o0, b2, o2, a + b),
{
    lemma_bus_run_append(b0, a, b);
    assert(o0 + bus_run(b0, a).1 + bus_run(b1, b).1 =~= o0 + (bus_run(b0, a).1 + bus_run(b1, b).1));
}

/// A write to the expander's direction register.
pub open spec fn is_direction_write(op: HwOp) -> bool {
    match op {
        HwOp::SpiWrite { register, .. } => register == REG_IODIR,
        _ => false,
    }
}

/// Number of direction-register writes among the actions `h`.
pub open spec fn direction_writes(h: Seq<HwOp>) -> nat
    decreases h.len(),
{
    if h.len() == 0 {
        0
    } else {
        direction_writes(h.drop_last()) + if is_direction_write(h.last()) {
            1nat
        } else {
            0nat
        }
    }
}

/// The direction a bus operation needs the data lines to face, if it moves data.
pub open spec fn transfer_dir(op: BusOp) -> Option<DataDir> {
    match op {
        BusOp::SetAddress(_) => None,
        BusOp::Read => Some(DataDir::Input),
        BusOp::Write(_) => Some(DataDir::Output),
    }
}

/// Every data transfer among `ops` faces direction `d`.
pub open spec fn all_facing(ops: Seq<BusOp>, d: DataDir) -> bool {
    forall|i: int|
        0 <= i < ops.len() ==> transfer_dir(#[trigger] ops[i]) == Some(d) || transfer_dir(
            ops[i],
        ).is_none()
}

/// Some operation among `ops` moves data.
pub open spec fn has_transfer(ops: Seq<BusOp>) -> bool {
    exists|i: int| 0 <= i < ops.len() && (#[trigger] transfer_dir(ops[i])).is_some()
}

proof fn lemma_direction_writes_append(a: Seq<HwOp>, b: Seq<HwOp>)
    ensures
        direction_writes(a + b) == direction_writes(a) + direction_writes(b),
    decreases b.len(),
{
    if b.len() == 0 {
        assert(a + b =~= a);
    } else {
        lemma_direction_writes_append(a, b.drop_last());
        assert((a + b).drop_last() =~= a + b.drop_last());
    }
}

proof fn lemma_no_direction_writes(h: Seq<HwOp>)
    requires
        forall|i: int| 0 <= i < h.len() ==> !is_direction_write(#[trigger] h[i]),
    ensures
        direction_writes(h) == 0,
    decreases h.len(),
{
    if h.len() > 0 {
        lemma_no_direction_writes(h.drop_last());
    }
}

proof fn lemma_line_ops_quiet(s: BoardState, line: Line, low: bool)
    ensures
        direction_writes(drive_ops(s, line, low)) == 0,
        direction_writes(edge_ops(line, low)) == 0,
{
    lemma_no_direction_writes(edge_ops(line, low));
    lemma_no_direction_writes(drive_ops(s, line, low));
}

proof fn lemma_direction_ops_count(cur: DataDir, want: DataDir)
    ensures
        direction_writes(direction_ops(cur, want)) == if cur == want {
            0nat
        } else {
            1nat
        },
{
    let h = direction_ops(cur, want);
    assert(direction_writes(Seq::<HwOp>::empty()) == 0);
    if cur != want {
        assert(h.drop_last() =~= Seq::<HwOp>::empty());
        assert(is_direction_write(h.last()));
    }
}

/// Direction writes that one bus operation issues, and where it leaves the
/// data lines facing.
proof fn lemma_step_direction(s: BoardState, op: BusOp)
    ensures
        direction_writes(bus_step(s, op).1) == match transfer_dir(op) {
            Some(d) => if s.data_dir == d {
                0nat
            } else {
                1nat
            },
            None => 0nat,
        },
        bus_step(s, op).0.data_dir == match transfer_dir(op) {
            Some(d) => d,
            None => s.data_dir,
        },
        transfer_dir(op).is_none() ==> bus_step(s, op).0 == s,
{
    let spi_r = seq![HwOp::SpiRead { command: command_byte(CMD_READ), register: REG_GPIO }];
    let spi_w = seq![HwOp::SpiWrite { command: command_byte(CMD_WRITE), register: REG_GPIO, value: 0 }];
    lemma_no_direction_writes(spi_r);
    lemma_line_ops_quiet(s, Line::Read, false);
    lemma_line_ops_quiet(s, Line::Read, true);
    lemma_line_ops_quiet(s, Line::Write, false);
    lemma_line_ops_quiet(s, Line::Write, true);
    lemma_line_ops_quiet(s, Line::ChipSelect, false);
    lemma_line_ops_quiet(s, Line::ChipSelect, true);
    match op {
        BusOp::SetAddress(a) => {
            lemma_no_direction_writes(address_ops(a));
        },
        BusOp::Read => {
            let d = direction_ops(s.data_dir, DataDir::Input);
            lemma_direction_ops_count(s.data_dir, DataDir::Input);
            let p1 = d + drive_ops(s, Line::Write, false);
            lemma_direction_writes_append(d, drive_ops(s, Line::Write, false));
            let p2 = p1 + drive_ops(s, Line::Read, true);
            lemma_direction_writes_append(p1, drive_ops(s, Line::Read, true));
            let p3 = p2 + drive_ops(s, Line::ChipSelect, true);
            lemma_direction_writes_append(p2, drive_ops(s, Line::ChipSelect, true));
            let p4 = p3 + spi_r;
            lemma_direction_writes_append(p3, spi_r);
            let p5 = p4 + edge_ops(Line::Read, false);
            lemma_direction_writes_append(p4, edge_ops(Line::Read, false));
            lemma_direction_writes_append(p5, edge_ops(Line::ChipSelect, false));
        },
        BusOp::Write(v) => {
            let spi = seq![HwOp::SpiWrite { command: command_byte(CMD_WRITE), register: REG_GPIO, value: v }];
            lemma_no_direction_writes(spi);
            let d = direction_ops(s.data_dir, DataDir::Output);
            lemma_direction_ops_count(s.data_dir, DataDir::Output);
            let p1 = d + drive_ops(s, Line::Read, false);
            lemma_direction_writes_append(d, drive_ops(s, Line::Read, false));
            let p2 = p1 + drive_ops(s, Line::ChipSelect, true);
            lemma_direction_writes_append(p1, drive_ops(s, Line::ChipSelect, true));
            let p3 = p2 + spi;
            lemma_direction_writes_append(p2, spi);
            let p4 = p3 + drive_ops(s, Line::Write, true);
            lemma_direction_writes_append(p3, drive_ops(s, Line::Write, true));
            let p5 = p4 + edge_ops(Line::Write, false);
            lemma_direction_writes_append(p4, edge_ops(Line::Write, false));
            lemma_direction_writes_append(p5, edge_ops(Line::ChipSelect, false));
        },
    }
}

/// Direction changes are coalesced: over any run of bus operations whose data
/// transfers all face one direction `d`, the driver writes the direction
/// register at most once, exactly when the run moves data and the data lines
/// faced the other way before it; the run leaves them facing `d`.
pub proof fn lemma_direction_coalesced(s: BoardState, ops: Seq<BusOp>, d: DataDir)
    requires
        all_facing(ops, d),
    ensures
        direction_writes(bus_run(s, ops).1) == if has_transfer(ops) && s.data_dir != d {
            1nat
        } else {
            0nat
        },
        bus_run(s, ops).0.data_dir == if has_transfer(ops) {
            d
        } else {
            s.data_dir
        },
    decreases ops.len(),
{
    if ops.len() == 0 {
        assert(!has_transfer(ops));
    } else {
        let p = ops.drop_last();
        let x = ops.last();
        assert(all_facing(p, d)) by {
            assert forall|i: int| 0 <= i < p.len() implies transfer_dir(#[trigger] p[i]) == Some(d)
                || transfer_dir(p[i]).is_none() by {
                assert(p[i] == ops[i]);
            }
        }
        lemma_direction_coalesced(s, p, d);
        let prev = bus_run(s, p);
        lemma_step_direction(prev.0, x);
        lemma_direction_writes_append(prev.1, bus_step(prev.0, x).1);
        assert(transfer_dir(ops[ops.len() - 1]) == Some(d) || transfer_dir(
            ops[ops.len() - 1],
        ).is_none());
        if has_transfer(p) {
            let i = choose|i: int| 0 <= i < p.len() && (#[trigger] transfer_dir(p[i])).is_some();
            assert(ops[i] == p[i]);
            assert(has_transfer(ops));
        } else if transfer_dir(x).is_some() {
            assert(transfer_dir(ops[ops.len() - 1]).is_some());
            assert(has_transfer(ops));
        } else {
            assert(!has_transfer(ops)) by {
                if has_transfer(ops) {
                    let i = choose|i: int|
                        0 <= i < ops.len() && (#[trigger] transfer_dir(ops[i])).is_some();
                    if i < p.len() {
                        assert(p[i] == ops[i]);
                    }
                }
            }
        }
    }
}

/// The teardown actions: every control line back to its idle-high level.
pub open spec fn release_ops() -> Seq<HwOp> {
    seq![
        HwOp::SetLine { line: Line::Read, low: false },
        HwOp::SetLine { line: Line::Write, low: false },
        HwOp::SetLine { line: Line::ChipSelect, low: false },
        HwOp::SetLine { line: Line::Reset, low: false },
    ]
}

/// The start-up actions: control lines idle-high, sequential addressing
/// disabled, data lines configured as inputs.
pub open spec fn init_ops() -> Seq<HwOp> {
    seq![
        HwOp::SetLine { line: Line::Read, low: false },
        HwOp::SetLine { line: Line::Write, low: false },
        HwOp::SetLine { line: Line::Reset, low: false },
        HwOp::SetLine { line: Line::ChipSelect, low: false },
        HwOp::SpiWrite { command: command_byte(CMD_WRITE), register: REG_IOCON, value: IOCON_INIT },
        HwOp::SpiWrite { command: command_byte(CMD_WRITE), register: REG_IODIR, value: 0xFF },
    ]
}

impl CubicStyleBoard {
    /// A driver whose lines are taken to be idle-high, data lines as inputs.
    pub fn new() -> (r: Self)
        ensures
            r@ == idle_state(),
    {
        CubicStyleBoard {
            rd_low: false,
            wr_low: false,
            cs_low: false,
            rst_low: false,
            data_dir: DataDir::Input,
        }
    }

    pub fn state(&self) -> (r: BoardState)
        ensures
            r == self@,
    {
        BoardState {
            rd_low: self.rd_low,
            wr_low: self.wr_low,
            cs_low: self.cs_low,
            rst_low: self.rst_low,
            data_dir: self.data_dir,
        }
    }

    /// Drives every control line high, disables sequential addressing and
    /// configures the data lines as inputs.
    pub fn init(&mut self, out: &mut Vec<HwOp>)
        ensures
            final(self)@ == idle_state(),
            final(out)@ == old(out)@ + init_ops(),
    {
        let ghost start = out@;
        out.push(HwOp::SetLine { line: Line::Read, low: false });
        out.push(HwOp::SetLine { line: Line::Write, low: false });
        out.push(HwOp::SetLine { line: Line::Reset, low: false });
        out.push(HwOp::SetLine { line: Line::ChipSelect, low: false });
        self.rd_low = false;
        self.wr_low = false;
        self.rst_low = false;
        self.cs_low = false;
        Self::write_mcp_byte(REG_IOCON, IOCON_INIT, out);
        Self::write_mcp_byte(REG_IODIR, 0xFF, out);
        self.data_dir = DataDir::Input;
        assert(out@ =~= start + init_ops());
    }

    /// Rewrites all sixteen address lines from `addr`.
    pub fn set_addr(&self, addr: u16, out: &mut Vec<HwOp>)
        ensures
            final(out)@ == old(out)@ + address_ops(addr),
    {
        let ghost start = out@;
        let mut i: u16 = 0;
        while i < 16
            invariant
                i <= 16,
                out@ =~= start + address_ops(addr).take(i as int),
            decreases 16 - i,
        {
            let high = (addr >> i) & 1u16 == 1u16;
            out.push(HwOp::SetAddressLine { index: i as u8, high });
            assert(address_ops(addr).take(i + 1) =~= address_ops(addr).take(i as int).push(
                HwOp::SetAddressLine { index: i as u8, high },
            ));
            i = i + 1;
        }
        assert(address_ops(addr).take(16) =~= address_ops(addr));
    }

    /// Reads the byte on the data bus at the address last set. The byte is the
    /// result of the one `SpiRead` in the emitted actions.
    pub fn read_byte(&mut self, out: &mut Vec<HwOp>)
        ensures
            final(self)@ == bus_step(old(self)@, BusOp::Read).0,
            final(out)@ == old(out)@ + bus_step(old(self)@, BusOp::Read).1,
    {
        let ghost s = self@;
        let ghost start = out@;
        self.mcp_into_input(out);
        self.set_line(Line::Write, false, out);
        self.set_line(Line::Read, true, out);
        self.set_line(Line::ChipSelect, true, out);
        Self::read_mcp_byte(REG_GPIO, out);
        self.set_line(Line::Read, false, out);
        self.set_line(Line::ChipSelect, false, out);
        assert(out@ =~= start + read_ops(s));
        assert(self@ == after_transfer(s, DataDir::Input));
    }

    /// Writes `val` onto the data bus at the address last set.
    pub fn write_byte(&mut self, val: u8, out: &mut Vec<HwOp>)
        ensures
            final(self)@ == bus_step(old(self)@, BusOp::Write(val)).0,
            final(out)@ == old(out)@ + bus_step(old(self)@, BusOp::Write(val)).1,
    {
        let ghost s = self@;
        let ghost start = out@;
        self.mcp_into_output(out);
        self.set_line(Line::Read, false, out);
        self.set_line(Line::ChipSelect, true, out);
        Self::write_mcp_byte(REG_GPIO, val, out);
        self.set_line(Line::Write, true, out);
        self.set_line(Line::Write, false, out);
        self.set_line(Line::ChipSelect, false, out);
        assert(out@ =~= start + write_ops(s, val));
        assert(self@ == after_transfer(s, DataDir::Output));
    }

    /// Performs one bus operation.
    pub fn issue(&mut self, op: BusOp, out: &mut Vec<HwOp>)
        ensures
            performs(old(self)@, old(out)@, final(self)@, final(out)@, seq![op]),
    {
        proof {
            lemma_bus_run_push(self@, seq![], op);
            assert(seq![op] =~= Seq::<BusOp>::empty().push(op));
            assert(Seq::<HwOp>::empty() + bus_step(self@, op).1 =~= bus_step(self@, op).1);
        }
        match op {
            BusOp::SetAddress(a) => self.set_addr(a, out),
            BusOp::Read => self.read_byte(out),
            BusOp::Write(v) => self.write_byte(v, out),
        }
    }

    /// Performs two bus operations in order.
    pub fn issue_pair(&mut self, first: BusOp, second: BusOp, out: &mut Vec<HwOp>)
        ensures
            performs(old(self)@, old(out)@, final(self)@, final(out)@, seq![first, second]),
    {
        let ghost b0 = self@;
        let ghost o0 = out@;
        self.issue(first, out);
        let ghost b1 = self@;
        let ghost o1 = out@;
        self.issue(second, out);
        proof {
            lemma_performs_append(b0, o0, b1, o1, self@, out@, seq![first], seq![second]);
            assert(seq![first] + seq![second] =~= seq![first, second]);
        }
    }

    /// Returns every control line to its idle-high level, whatever was last
    /// commanded.
    pub fn release(&mut self, out: &mut Vec<HwOp>)
        ensures
            final(self)@ == released(old(self)@),
            final(out)@ == old(out)@ + release_ops(),
    {
        let ghost start = out@;
        out.push(HwOp::SetLine { line: Line::Read, low: false });
        out.push(HwOp::SetLine { line: Line::Write, low: false });
        out.push(HwOp::SetLine { line: Line::ChipSelect, low: false });
        out.push(HwOp::SetLine { line: Line::Reset, low: false });
        self.rd_low = false;
        self.wr_low = false;
        self.cs_low = false;
        self.rst_low = false;
        assert(out@ =~= start + release_ops());
    }

    /// Drives `line` to the requested level, with its settle waits, unless it
    /// was last commanded to that level already.
    fn set_line(&mut self, line: Line, low: bool, out: &mut Vec<HwOp>)
        ensures
            final(self)@ == with_level(old(self)@, line, low),
            final(out)@ == old(out)@ + drive_ops(old(self)@, line, low),
    {
        let ghost start = out@;
        let cur = match line {
            Line::Read => self.rd_low,
            Line::Write => self.wr_low,
            Line::ChipSelect => self.cs_low,
            Line::Reset => self.rst_low,
        };
        if cur == low {
            assert(out@ =~= start + drive_ops(self@, line, low));
            return ;
        }
        match line {
            Line::Write => {
                out.push(HwOp::Wait { micros: WR_WAIT_BEFORE });
                out.push(HwOp::SetLine { line, low });
                out.push(HwOp::Wait { micros: WR_WAIT_AFTER });
                self.wr_low = low;
            },
            Line::Read => {
                out.push(HwOp::SetLine { line, low });
                out.push(HwOp::Wait { micros: RD_WAIT });
                self.rd_low = low;
            },
            Line::ChipSelect => {
                out.push(HwOp::SetLine { line, low });
                out.push(HwOp::Wait { micros: CS_WAIT });
                self.cs_low = low;
            },
            Line::Reset => {
                out.push(HwOp::SetLine { line, low });
                self.rst_low = low;
            },
        }
        assert(out@ =~= start + edge_ops(line, low));
    }

    fn mcp_into_output(&mut self, out: &mut Vec<HwOp>)
        ensures
            final(self)@ == with_dir(old(self)@, DataDir::Output),
            final(out)@ == old(out)@ + direction_ops(old(self)@.data_dir, DataDir::Output),
    {
        let ghost start = out@;
        if self.data_dir != DataDir::Output {
            Self::write_mcp_byte(REG_IODIR, 0x00, out);
            self.data_dir = DataDir::Output;
        }
        assert(out@ =~= start + direction_ops(old(self)@.data_dir, DataDir::Output));
    }

    fn mcp_into_input(&mut self, out: &mut Vec<HwOp>)
        ensures
            final(self)@ == with_dir(old(self)@, DataDir::Input),
            final(out)@ == old(out)@ + direction_ops(old(self)@.data_dir, DataDir::Input),
    {
        let ghost start = out@;
        if self.data_dir != DataDir::Input {
            Self::write_mcp_byte(REG_IODIR, 0xFF, out);
            self.data_dir = DataDir::Input;
        }
        assert(out@ =~= start + direction_ops(old(self)@.data_dir, DataDir::Input));
    }

    fn write_mcp_byte(reg: u8, val: u8, out: &mut Vec<HwOp>)
        ensures
            final(out)@ == old(out)@.push(spi_write(reg, val)),
    {
        let command = CMD_WRITE | ((DEV_ID & 7) << 1);
        out.push(HwOp::SpiWrite { command, register: reg, value: val });
    }

    fn read_mcp_byte(reg: u8, out: &mut Vec<HwOp>)
        ensures
            final(out)@ == old(out)@.push(spi_read(reg)),
    {
        let command = CMD_READ | ((DEV_ID & 7) << 1);
        out.push(HwOp::SpiRead { command, register: reg });
    }
}

} // verus!
