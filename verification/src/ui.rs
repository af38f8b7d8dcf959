//! What the terminal front end decides before it writes: the flags of raw
//! mode and the colours of the level meter.

use vstd::prelude::*;

verus! {

/// Size of the control character array of `Termios`.
pub const NCCS: usize = 20;

/// Local flag: echo input.
pub const ECHO: u64 = 0x00000008;

/// Local flag: edit and submit input line by line.
pub const ICANON: u64 = 0x00000100;

/// Local flag: turn the interrupt, quit and suspend characters into signals.
pub const ISIG: u64 = 0x00000080;

/// Input flag: output flow control.
pub const IXON: u64 = 0x00000200;

/// Local flag: extended input processing.
pub const IEXTEN: u64 = 0x00000400;

/// Input flag: turn carriage returns into newlines.
pub const ICRNL: u64 = 0x00000100;

/// Output flag: post-process output.
pub const OPOST: u64 = 0x00000001;

/// Input flag: send an interrupt signal on a break.
pub const BRKINT: u64 = 0x00000002;

/// How to apply new settings: drain output, flush input.
pub const TCSAFLUSH: i32 = 2;

/// The local flags that raw mode clears.
pub const RAW_LOCAL_FLAGS: u64 = ECHO | ICANON | ISIG | IEXTEN;

/// The input flags that raw mode clears.
pub const RAW_INPUT_FLAGS: u64 = IXON | ICRNL | BRKINT;

/// The output flags that raw mode clears.
pub const RAW_OUTPUT_FLAGS: u64 = OPOST;

/// Share of the meter's width that is drawn in green, in hundredths.
pub const GREEN_PERCENT: usize = 70;

/// Share of the meter's width that is drawn in yellow, in hundredths.
pub const AMBER_PERCENT: usize = 15;

/// The settings of a terminal.
#[derive(Debug, Clone, Copy, PartialEq, Eq)]
pub struct Termios {
    /// Input flags.
    pub c_iflag: u64,
    /// Output flags.
    pub c_oflag: u64,
    /// Control flags.
    pub c_cflag: u64,
    /// Local flags.
    pub c_lflag: u64,
    /// Control characters.
    pub c_cc: [u8; 20],
    /// Input speed.
    pub c_ispeed: u64,
    /// Output speed.
    pub c_ospeed: u64,
}

/// The size of a terminal window.
#[derive(Debug, Clone, Copy, PartialEq, Eq, Structural)]
pub struct WinSize {
    pub ws_row: u16,
    pub ws_col: u16,
    pub ws_xpixel: u16,
    pub ws_ypixel: u16,
}

/// A colour of the level meter.
#[derive(Debug, Clone, Copy, PartialEq, Eq, Structural)]
pub enum MeterColour {
    Green,
    Yellow,
    Red,
}

/// The settings with raw mode switched on: no echo, input byte by byte, no
/// signals from the keyboard, no flow control, no rewriting of carriage
/// returns, no post-processing of output. Nothing else changes.
pub open spec fn raw_mode(termios: Termios) -> Termios {
    Termios {
        c_iflag: termios.c_iflag & !RAW_INPUT_FLAGS,
        c_oflag: termios.c_oflag & !RAW_OUTPUT_FLAGS,
        c_lflag: termios.c_lflag & !RAW_LOCAL_FLAGS,
        ..termios
    }
}

/// Switches raw mode on in `termios`.
pub fn enable_raw_mode(termios: &mut Termios)
    ensures
        *final(termios) == raw_mode(*old(termios)),
{
    termios.c_lflag = termios.c_lflag & !RAW_LOCAL_FLAGS;
    termios.c_iflag = termios.c_iflag & !RAW_INPUT_FLAGS;
    termios.c_oflag = termios.c_oflag & !RAW_OUTPUT_FLAGS;
}

/// Raw mode clears each of its flags, keeps every other flag as it was, and
/// changes nothing when it is switched on a second time.
pub proof fn lemma_raw_mode(termios: Termios)
    ensures
        raw_mode(termios).c_lflag & ECHO == 0,
        raw_mode(termios).c_lflag & ICANON == 0,
        raw_mode(termios).c_lflag & ISIG == 0,
        raw_mode(termios).c_lflag & IEXTEN == 0,
        raw_mode(termios).c_iflag & IXON == 0,
        raw_mode(termios).c_iflag & ICRNL == 0,
        raw_mode(termios).c_iflag & BRKINT == 0,
        raw_mode(termios).c_oflag & OPOST == 0,
        raw_mode(termios).c_lflag | (termios.c_lflag & RAW_LOCAL_FLAGS) == termios.c_lflag,
        raw_mode(termios).c_iflag | (termios.c_iflag & RAW_INPUT_FLAGS) == termios.c_iflag,
        raw_mode(termios).c_oflag | (termios.c_oflag & RAW_OUTPUT_FLAGS) == termios.c_oflag,
        raw_mode(raw_mode(termios)) == raw_mode(termios),
{
    let local = termios.c_lflag;
    let input = termios.c_iflag;
    let output = termios.c_oflag;
    assert((local & !0x588u64) & 0x8u64 == 0 && (local & !0x588u64) & 0x100u64 == 0 && (local
        & !0x588u64) & 0x80u64 == 0 && (local & !0x588u64) & 0x400u64 == 0 && (local & !0x588u64) | (
    local & 0x588u64) == local && (local & !0x588u64) & !0x588u64 == local & !0x588u64)
        by (bit_vector);
    assert((input & !0x302u64) & 0x200u64 == 0 && (input & !0x302u64) & 0x100u64 == 0 && (input
        & !0x302u64) & 0x2u64 == 0 && (input & !0x302u64) | (input & 0x302u64) == input && (input
        & !0x302u64) & !0x302u64 == input & !0x302u64) by (bit_vector);
    assert((output & !0x1u64) & 0x1u64 == 0 && (output & !0x1u64) | (output & 0x1u64) == output && (
    output & !0x1u64) & !0x1u64 == output & !0x1u64) by (bit_vector);
    assert(0x8u64 | 0x100u64 | 0x80u64 | 0x400u64 == 0x588u64 && 0x200u64 | 0x100u64 | 0x2u64 == 0x302u64)
        by (bit_vector);
}

/// The colour of the cell at `cell`, counted from the left from zero, of a
/// meter that is `total_cols` wide: green up to and including cell 70% of
/// the width, then yellow for 15% of the width, then red.
pub open spec fn cell_colour(total_cols: nat, cell: nat) -> MeterColour {
    let green_cols = (total_cols * GREEN_PERCENT) / 100;
    let amber_cols = (total_cols * AMBER_PERCENT) / 100;
    if cell <= green_cols {
        MeterColour::Green
    } else if cell <= green_cols + amber_cols {
        MeterColour::Yellow
    } else {
        MeterColour::Red
    }
}

/// The colour in which to draw one cell of the level meter.
pub fn meter_cell_colour(size: &WinSize, cell: usize) -> (colour: MeterColour)
    ensures
        colour == cell_colour(size.ws_col as nat, cell as nat),
{
    let total_cols = size.ws_col as usize;
    let green_cols = (total_cols * GREEN_PERCENT) / 100;
    let amber_cols = (total_cols * AMBER_PERCENT) / 100;
    if cell <= green_cols {
        MeterColour::Green
    } else if cell <= green_cols + amber_cols {
        MeterColour::Yellow
    } else {
        MeterColour::Red
    }
}

/// Along the meter the colours only ever run from green over yellow to red.
pub proof fn lemma_colours_run_in_order(total_cols: nat, left: nat, right: nat)
    requires
        left <= right,
    ensures
        cell_colour(total_cols, right) is Green ==> cell_colour(total_cols, left) is Green,
        cell_colour(total_cols, left) is Red ==> cell_colour(total_cols, right) is Red,
{
}

} // verus!
