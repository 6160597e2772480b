use ili9488::bus::{BusWord, DisplayError, Pio16BitBus};
use ili9488::color::Rgb565;
use ili9488::control::{ControlLine, DelaySource, Level, SelectLine};
use ili9488::driver::ILI9488;

fn display(size_x: u16, size_y: u16) -> ILI9488<Pio16BitBus> {
    let bus = Pio16BitBus::new(SelectLine::new(false));
    ILI9488::new(bus, None, None, size_x, size_y)
}

fn push_cmd(out: &mut Vec<BusWord>, cmd: u16, data: &[u16]) {
    out.push(BusWord::Cmd(cmd));
    for &d in data {
        out.push(BusWord::Dat(d));
    }
}

#[test]
fn write_command_widens_byte_to_low_word() {
    let mut d = display(480, 320);
    d.write_command(0x2c).unwrap();
    assert_eq!(d.di.written, vec![BusWord::Cmd(0x2c)]);
    assert_eq!(d.di.dc.level, Level::Low);
}

#[test]
fn write_data_sends_one_data_word() {
    let mut d = display(480, 320);
    d.write_data(0xa9).unwrap();
    assert_eq!(d.di.written, vec![BusWord::Dat(0xa9)]);
    assert_eq!(d.di.dc.level, Level::High);
}

#[test]
fn write_data16_sends_each_word() {
    let mut d = display(480, 320);
    d.write_data16(&[0xf800, 0x001f]).unwrap();
    assert_eq!(d.di.written, vec![BusWord::Dat(0xf800), BusWord::Dat(0x001f)]);
}

#[test]
fn init_test_sends_single_command() {
    let mut d = display(480, 320);
    d.init_test().unwrap();
    assert_eq!(d.di.written, vec![BusWord::Cmd(0x55)]);
}

#[test]
fn set_addr_win_emits_two_commands_with_big_endian_pairs() {
    let mut d = display(480, 320);
    d.set_addr_win(0x0102, 0x0304, 0x0506, 0x0708).unwrap();
    let mut expect = Vec::new();
    push_cmd(&mut expect, 0x2a, &[0x01, 0x02, 0x05, 0x06]);
    push_cmd(&mut expect, 0x2b, &[0x03, 0x04, 0x07, 0x08]);
    assert_eq!(d.di.written, expect);
}

#[test]
fn set_addr_win_example_window() {
    let mut d = display(480, 320);
    d.set_addr_win(470, 0, 479, 9).unwrap();
    let mut expect = Vec::new();
    push_cmd(&mut expect, 0x2a, &[470 >> 8, 470 & 0xff, 479 >> 8, 479 & 0xff]);
    push_cmd(&mut expect, 0x2b, &[0, 0, 0, 9]);
    assert_eq!(d.di.written, expect);
}

#[test]
fn hard_reset_without_line_does_nothing() {
    let mut d = display(480, 320);
    let mut delay = DelaySource::new();
    d.hard_reset(&mut delay);
    assert!(d.di.written.is_empty());
    assert!(delay.log.is_empty());
}

#[test]
fn hard_reset_pulses_high_low_high_with_three_delays() {
    let bus = Pio16BitBus::new(SelectLine::new(false));
    let mut d = ILI9488::new(bus, Some(ControlLine::new(false)), None, 480, 320);
    let mut delay = DelaySource::new();
    d.hard_reset(&mut delay);
    assert_eq!(
        d.rst.as_ref().unwrap().driven,
        vec![Level::High, Level::Low, Level::High]
    );
    assert_eq!(delay.log, vec![10, 10, 10]);
    assert!(d.di.written.is_empty());
}

fn expected_init_words() -> Vec<BusWord> {
    let mut w = Vec::new();
    push_cmd(&mut w, 0xf7, &[0xa9, 0x51, 0x2c, 0x82]);
    push_cmd(&mut w, 0xc0, &[0x11, 0x09]);
    push_cmd(&mut w, 0xc1, &[0x41]);
    push_cmd(&mut w, 0xc5, &[0x00, 0x28, 0x80]);
    push_cmd(&mut w, 0xb1, &[0xb0, 0x11]);
    push_cmd(&mut w, 0xb4, &[0x02]);
    push_cmd(&mut w, 0xb6, &[0x02, 0x22]);
    push_cmd(&mut w, 0xb7, &[0xc6]);
    push_cmd(&mut w, 0xbe, &[0x00, 0x04]);
    push_cmd(&mut w, 0xe9, &[0x00]);
    push_cmd(&mut w, 0x36, &[0x68]);
    push_cmd(&mut w, 0x3a, &[0x55]);
    push_cmd(
        &mut w,
        0xe0,
        &[
            0x00, 0x07, 0x10, 0x09, 0x17, 0x0b, 0x41, 0x89, 0x4b, 0x0a, 0x0c, 0x0e, 0x18, 0x1b,
            0x0f,
        ],
    );
    push_cmd(
        &mut w,
        0xe1,
        &[
            0x00, 0x17, 0x1a, 0x04, 0x0e, 0x06, 0x2f, 0x45, 0x43, 0x02, 0x0a, 0x09, 0x32, 0x36,
            0x0f,
        ],
    );
    push_cmd(&mut w, 0x11, &[]);
    push_cmd(&mut w, 0x29, &[]);
    w
}

#[test]
fn init_replays_vendor_table_and_settles() {
    let bus = Pio16BitBus::new(SelectLine::new(false));
    let mut d = ILI9488::new(
        bus,
        Some(ControlLine::new(false)),
        Some(ControlLine::new(false)),
        480,
        320,
    );
    let mut delay = DelaySource::new();
    d.init(&mut delay).unwrap();
    assert_eq!(d.di.written, expected_init_words());
    // Reset pulse, then the 60 ms pause after sleep-out.
    assert_eq!(delay.log, vec![10, 10, 10, 60]);
    assert_eq!(
        d.rst.as_ref().unwrap().driven,
        vec![Level::High, Level::Low, Level::High]
    );
    // Backlight full on.
    assert_eq!(d.bl.as_ref().unwrap().driven, vec![Level::High]);
}

#[test]
fn init_without_lines_still_configures_panel() {
    let mut d = display(480, 320);
    let mut delay = DelaySource::new();
    d.init(&mut delay).unwrap();
    assert_eq!(d.di.written, expected_init_words());
    assert_eq!(delay.log, vec![60]);
}

#[test]
fn clear_programs_full_canvas_and_streams_every_pixel() {
    let mut d = display(4, 3);
    let blue = Rgb565::new(0, 0, 0x1f);
    d.clear(blue).unwrap();
    let mut expect = Vec::new();
    push_cmd(&mut expect, 0x2a, &[0, 0, 0, 3]);
    push_cmd(&mut expect, 0x2b, &[0, 0, 0, 2]);
    push_cmd(&mut expect, 0x2c, &[]);
    for _ in 0..12 {
        expect.push(BusWord::Dat(0x001f));
    }
    assert_eq!(d.di.written, expect);
}

#[test]
fn clear_on_broken_line_fails_without_writes() {
    let bus = Pio16BitBus::new(SelectLine::new(true));
    let mut d = ILI9488::new(bus, None, None, 480, 320);
    let r = d.clear(Rgb565::new(0x1f, 0, 0));
    assert_eq!(r, Err(DisplayError::DCError));
    assert!(d.di.written.is_empty());
}

#[test]
fn init_on_broken_bus_fails_after_reset_pulse() {
    let bus = Pio16BitBus::new(SelectLine::new(true));
    let mut d = ILI9488::new(bus, Some(ControlLine::new(false)), None, 480, 320);
    let mut delay = DelaySource::new();
    let r = d.init(&mut delay);
    assert_eq!(r, Err(DisplayError::DCError));
    // The reset pulse and its pauses come before the first bus write; the
    // 60 ms settle after sleep-out is never reached.
    assert!(d.di.written.is_empty());
    assert_eq!(delay.log, vec![10, 10, 10]);
    assert_eq!(
        d.rst.as_ref().unwrap().driven,
        vec![Level::High, Level::Low, Level::High]
    );
}

#[test]
fn write_pixels_packs_in_input_order() {
    let mut d = display(480, 320);
    let colors = [Rgb565::new(0x1f, 0, 0), Rgb565::new(0, 0x3f, 0), Rgb565::new(0, 0, 0x1f)];
    d.write_pixels(&colors).unwrap();
    assert_eq!(
        d.di.written,
        vec![BusWord::Dat(0xf800), BusWord::Dat(0x07e0), BusWord::Dat(0x001f)]
    );
}
