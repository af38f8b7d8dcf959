use afqueue::ui::{
    enable_raw_mode, meter_cell_colour, MeterColour, Termios, WinSize, BRKINT, ECHO, ICANON,
    ICRNL, IEXTEN, ISIG, IXON, OPOST,
};

fn termios(c_iflag: u64, c_oflag: u64, c_cflag: u64, c_lflag: u64) -> Termios {
    let mut c_cc = [0u8; 20];
    c_cc[3] = 0x7f;
    Termios { c_iflag, c_oflag, c_cflag, c_lflag, c_cc, c_ispeed: 9600, c_ospeed: 38400 }
}

fn window(columns: u16) -> WinSize {
    WinSize { ws_row: 24, ws_col: columns, ws_xpixel: 0, ws_ypixel: 0 }
}

#[test]
fn raw_mode_clears_its_flags() {
    let mut settings = termios(u64::MAX, u64::MAX, u64::MAX, u64::MAX);
    enable_raw_mode(&mut settings);
    assert_eq!(settings.c_lflag, u64::MAX & !(ECHO | ICANON | ISIG | IEXTEN));
    assert_eq!(settings.c_lflag, 0xffff_ffff_ffff_fa77);
    assert_eq!(settings.c_iflag, u64::MAX & !(IXON | ICRNL | BRKINT));
    assert_eq!(settings.c_iflag, 0xffff_ffff_ffff_fcfd);
    assert_eq!(settings.c_oflag, u64::MAX & !OPOST);
    assert_eq!(settings.c_cflag, u64::MAX);
}

#[test]
fn raw_mode_keeps_everything_else() {
    let mut settings = termios(0x2b02, 0x3, 0x4b00, 0x5cb);
    enable_raw_mode(&mut settings);
    assert_eq!(settings, termios(0x2800, 0x2, 0x4b00, 0x43));
    let again = settings;
    enable_raw_mode(&mut settings);
    assert_eq!(settings, again);
}

#[test]
fn meter_runs_from_green_over_yellow_to_red() {
    // 100 columns: cells 0 to 70 are green, 71 to 85 yellow, the rest red.
    let size = window(100);
    assert_eq!(meter_cell_colour(&size, 0), MeterColour::Green);
    assert_eq!(meter_cell_colour(&size, 70), MeterColour::Green);
    assert_eq!(meter_cell_colour(&size, 71), MeterColour::Yellow);
    assert_eq!(meter_cell_colour(&size, 85), MeterColour::Yellow);
    assert_eq!(meter_cell_colour(&size, 86), MeterColour::Red);
    assert_eq!(meter_cell_colour(&size, 99), MeterColour::Red);
}

#[test]
fn meter_shares_are_rounded_down() {
    // 80 columns: 56 green, 12 yellow.
    let size = window(80);
    assert_eq!(meter_cell_colour(&size, 56), MeterColour::Green);
    assert_eq!(meter_cell_colour(&size, 57), MeterColour::Yellow);
    assert_eq!(meter_cell_colour(&size, 68), MeterColour::Yellow);
    assert_eq!(meter_cell_colour(&size, 69), MeterColour::Red);
}

#[test]
fn narrow_meter_has_no_yellow() {
    // 6 columns: 15% of them is less than one column.
    let size = window(6);
    assert_eq!(meter_cell_colour(&size, 4), MeterColour::Green);
    assert_eq!(meter_cell_colour(&size, 5), MeterColour::Red);
    let size = window(0);
    assert_eq!(meter_cell_colour(&size, 0), MeterColour::Green);
    assert_eq!(meter_cell_colour(&size, 1), MeterColour::Red);
}

#[test]
fn widest_terminal_does_not_overflow() {
    let size = window(u16::MAX);
    assert_eq!(meter_cell_colour(&size, 45874), MeterColour::Green);
    assert_eq!(meter_cell_colour(&size, 45875), MeterColour::Yellow);
    assert_eq!(meter_cell_colour(&size, usize::MAX), MeterColour::Red);
}
