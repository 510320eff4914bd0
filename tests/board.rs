use gb_reader::board::{CubicStyleBoard, DataDir, HwOp, Line, REG_GPIO, REG_IOCON, REG_IODIR};

fn direction_writes(ops: &[HwOp]) -> usize {
    ops.iter()
        .filter(|op| matches!(op, HwOp::SpiWrite { register, .. } if *register == REG_IODIR))
        .count()
}

#[test]
fn init_drives_lines_high_then_configures_expander() {
    let mut board = CubicStyleBoard::new();
    let mut ops = Vec::new();
    board.init(&mut ops);
    assert_eq!(
        ops,
        vec![
            HwOp::SetLine { line: Line::Read, low: false },
            HwOp::SetLine { line: Line::Write, low: false },
            HwOp::SetLine { line: Line::Reset, low: false },
            HwOp::SetLine { line: Line::ChipSelect, low: false },
            HwOp::SpiWrite { command: 0x40, register: REG_IOCON, value: 0x20 },
            HwOp::SpiWrite { command: 0x40, register: REG_IODIR, value: 0xFF },
        ]
    );
    assert_eq!(board.state().data_dir, DataDir::Input);
}

#[test]
fn set_addr_rewrites_all_sixteen_lines() {
    let board = CubicStyleBoard::new();
    let mut ops = Vec::new();
    board.set_addr(0x8001, &mut ops);
    assert_eq!(ops.len(), 16);
    for (i, op) in ops.iter().enumerate() {
        let high = i == 0 || i == 15;
        assert_eq!(*op, HwOp::SetAddressLine { index: i as u8, high });
    }
    let mut again = Vec::new();
    board.set_addr(0x8001, &mut again);
    assert_eq!(again, ops);
}

#[test]
fn read_byte_sequence_from_idle() {
    let mut board = CubicStyleBoard::new();
    let mut ops = Vec::new();
    board.read_byte(&mut ops);
    assert_eq!(
        ops,
        vec![
            HwOp::SetLine { line: Line::Read, low: true },
            HwOp::Wait { micros: 4 },
            HwOp::SetLine { line: Line::ChipSelect, low: true },
            HwOp::Wait { micros: 3 },
            HwOp::SpiRead { command: 0x41, register: REG_GPIO },
            HwOp::SetLine { line: Line::Read, low: false },
            HwOp::Wait { micros: 4 },
            HwOp::SetLine { line: Line::ChipSelect, low: false },
            HwOp::Wait { micros: 3 },
        ]
    );
}

#[test]
fn write_byte_sequence_from_idle() {
    let mut board = CubicStyleBoard::new();
    let mut ops = Vec::new();
    board.write_byte(0x5A, &mut ops);
    assert_eq!(
        ops,
        vec![
            HwOp::SpiWrite { command: 0x40, register: REG_IODIR, value: 0x00 },
            HwOp::SetLine { line: Line::ChipSelect, low: true },
            HwOp::Wait { micros: 3 },
            HwOp::SpiWrite { command: 0x40, register: REG_GPIO, value: 0x5A },
            HwOp::Wait { micros: 1 },
            HwOp::SetLine { line: Line::Write, low: true },
            HwOp::Wait { micros: 5 },
            HwOp::Wait { micros: 1 },
            HwOp::SetLine { line: Line::Write, low: false },
            HwOp::Wait { micros: 5 },
            HwOp::SetLine { line: Line::ChipSelect, low: false },
            HwOp::Wait { micros: 3 },
        ]
    );
    assert_eq!(board.state().data_dir, DataDir::Output);
}

#[test]
fn direction_write_only_on_change() {
    let mut board = CubicStyleBoard::new();
    let mut ops = Vec::new();
    board.read_byte(&mut ops);
    board.read_byte(&mut ops);
    assert_eq!(direction_writes(&ops), 0);

    let mut ops = Vec::new();
    board.write_byte(1, &mut ops);
    board.write_byte(2, &mut ops);
    board.write_byte(3, &mut ops);
    assert_eq!(direction_writes(&ops), 1);

    let mut ops = Vec::new();
    board.read_byte(&mut ops);
    board.read_byte(&mut ops);
    assert_eq!(direction_writes(&ops), 1);
    assert_eq!(ops[0], HwOp::SpiWrite { command: 0x40, register: REG_IODIR, value: 0xFF });
}

#[test]
fn release_returns_every_control_line_high() {
    let mut board = CubicStyleBoard::new();
    let mut ops = Vec::new();
    board.read_byte(&mut ops);
    let mut teardown = Vec::new();
    board.release(&mut teardown);
    assert_eq!(
        teardown,
        vec![
            HwOp::SetLine { line: Line::Read, low: false },
            HwOp::SetLine { line: Line::Write, low: false },
            HwOp::SetLine { line: Line::ChipSelect, low: false },
            HwOp::SetLine { line: Line::Reset, low: false },
        ]
    );
    let s = board.state();
    assert!(!s.rd_low && !s.wr_low && !s.cs_low && !s.rst_low);
}
