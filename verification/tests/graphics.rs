use ili9488::bus::{BusWord, DisplayError, Pio16BitBus};
use ili9488::color::Rgb565;
use ili9488::control::{Level, SelectLine};
use ili9488::driver::ILI9488;
use ili9488::graphics::{Pixel, Rect};

fn display(size_x: u16, size_y: u16) -> ILI9488<Pio16BitBus> {
    let bus = Pio16BitBus::new(SelectLine::new(false));
    ILI9488::new(bus, None, None, size_x, size_y)
}

fn push_cmd(out: &mut Vec<BusWord>, cmd: u16, data: &[u16]) {
    out.push(BusWord::Cmd(cmd));
    for &d in data {
        out.push(BusWord::Dat(d));
    }
}

fn window(out: &mut Vec<BusWord>, xs: u16, ys: u16, xe: u16, ye: u16) {
    push_cmd(out, 0x2a, &[xs >> 8, xs & 0xff, xe >> 8, xe & 0xff]);
    push_cmd(out, 0x2b, &[ys >> 8, ys & 0xff, ye >> 8, ye & 0xff]);
}

#[test]
fn size_reports_construction_geometry() {
    let d = display(480, 320);
    assert_eq!(d.size(), (480, 320));
}

#[test]
fn draw_iter_programs_one_window_per_pixel() {
    let mut d = display(480, 320);
    let red = Rgb565::new(0x1f, 0, 0);
    let green = Rgb565::new(0, 0x3f, 0);
    let pixels = [
        Pixel { x: 5, y: 7, color: red },
        Pixel { x: 300, y: 0, color: green },
    ];
    d.draw_iter(&pixels).unwrap();
    let mut expect = Vec::new();
    window(&mut expect, 5, 7, 5, 7);
    expect.push(BusWord::Dat(0xf800));
    window(&mut expect, 300, 0, 300, 0);
    expect.push(BusWord::Dat(0x07e0));
    assert_eq!(d.di.written, expect);
}

#[test]
fn draw_iter_of_nothing_touches_nothing() {
    let mut d = display(480, 320);
    d.draw_iter(&[]).unwrap();
    assert!(d.di.written.is_empty());
}

#[test]
fn fill_contiguous_inside_streams_callers_colours_in_order() {
    let mut d = display(480, 320);
    let colors = [
        Rgb565::new(1, 2, 3),
        Rgb565::new(4, 5, 6),
        Rgb565::new(7, 8, 9),
        Rgb565::new(10, 11, 12),
    ];
    let area = Rect { x: 10, y: 20, w: 2, h: 2 };
    d.fill_contiguous(&area, &colors).unwrap();
    let mut expect = Vec::new();
    window(&mut expect, 10, 20, 11, 21);
    for c in colors {
        expect.push(BusWord::Dat(c.into_storage()));
    }
    assert_eq!(d.di.written, expect);
}

#[test]
fn fill_contiguous_straddling_is_refused_unsupported_overlap() {
    // The reference behaviour silently skipped a clipped contiguous fill;
    // this adapter reports it as an explicit error instead.
    let mut d = display(480, 320);
    let colors = vec![Rgb565::new(0x1f, 0, 0); 200];
    let area = Rect { x: 470, y: 0, w: 20, h: 10 };
    let r = d.fill_contiguous(&area, &colors);
    assert_eq!(r, Err(DisplayError::OutOfBoundsError));
    assert!(d.di.written.is_empty());
}

#[test]
fn fill_contiguous_fully_outside_succeeds_with_no_activity() {
    let mut d = display(480, 320);
    let colors = vec![Rgb565::new(0x1f, 0, 0); 200];
    let area = Rect { x: 500, y: 0, w: 20, h: 10 };
    let r = d.fill_contiguous(&area, &colors);
    assert_eq!(r, Ok(()));
    assert!(d.di.written.is_empty());
}

#[test]
fn fill_solid_outside_canvas_is_a_successful_no_op() {
    let mut d = display(480, 320);
    let r = d.fill_solid(&Rect { x: 480, y: 0, w: 20, h: 10 }, Rgb565::new(0x1f, 0, 0));
    assert_eq!(r, Ok(()));
    assert!(d.di.written.is_empty());
    let r = d.fill_solid(&Rect { x: -30, y: -30, w: 30, h: 30 }, Rgb565::new(0x1f, 0, 0));
    assert_eq!(r, Ok(()));
    assert!(d.di.written.is_empty());
}

#[test]
fn fill_solid_straddling_right_edge_clips_to_intersection() {
    // Canvas 480x320; requested x:[470,490) x y:[0,10) -> visible
    // x:[470,480) x y:[0,10), 100 pixels.
    let mut d = display(480, 320);
    let red = Rgb565::new(0x1f, 0, 0);
    d.fill_solid(&Rect { x: 470, y: 0, w: 20, h: 10 }, red).unwrap();
    let mut expect = Vec::new();
    window(&mut expect, 470, 0, 479, 9);
    for _ in 0..100 {
        expect.push(BusWord::Dat(0xf800));
    }
    assert_eq!(d.di.written, expect);
    assert_eq!(d.di.dc.level, Level::High);
}

#[test]
fn fill_solid_straddling_top_left_clips_to_intersection() {
    let mut d = display(480, 320);
    let red = Rgb565::new(0x1f, 0, 0);
    d.fill_solid(&Rect { x: -5, y: -5, w: 10, h: 10 }, red).unwrap();
    let mut expect = Vec::new();
    window(&mut expect, 0, 0, 4, 4);
    for _ in 0..25 {
        expect.push(BusWord::Dat(0xf800));
    }
    assert_eq!(d.di.written, expect);
}

#[test]
fn fill_solid_inside_fills_exact_rectangle() {
    let mut d = display(480, 320);
    let c = Rgb565::new(3, 3, 3);
    d.fill_solid(&Rect { x: 1, y: 2, w: 3, h: 2 }, c).unwrap();
    let mut expect = Vec::new();
    window(&mut expect, 1, 2, 3, 3);
    for _ in 0..6 {
        expect.push(BusWord::Dat(c.into_storage()));
    }
    assert_eq!(d.di.written, expect);
}

#[test]
fn clear_matches_full_canvas_solid_fill_plus_memory_write() {
    let c = Rgb565::new(9, 18, 27);
    let mut cleared = display(4, 3);
    cleared.clear(c).unwrap();
    let mut filled = display(4, 3);
    filled.fill_solid(&Rect { x: 0, y: 0, w: 4, h: 3 }, c).unwrap();
    // Insert the memory-write command after the 10-word window program.
    let mut expect = filled.di.written.clone();
    expect.insert(10, BusWord::Cmd(0x2c));
    assert_eq!(cleared.di.written, expect);
}

#[test]
fn draw_iter_on_broken_line_fails_without_writes() {
    let bus = Pio16BitBus::new(SelectLine::new(true));
    let mut d = ILI9488::new(bus, None, None, 480, 320);
    let pixels = [Pixel { x: 1, y: 1, color: Rgb565::new(1, 1, 1) }];
    assert_eq!(d.draw_iter(&pixels), Err(DisplayError::DCError));
    assert!(d.di.written.is_empty());
    // An empty pixel set never touches the bus, so it succeeds even then.
    assert_eq!(d.draw_iter(&[]), Ok(()));
}

#[test]
fn fill_solid_zero_sized_rectangle_is_a_no_op() {
    let mut d = display(480, 320);
    let r = d.fill_solid(&Rect { x: 10, y: 10, w: 0, h: 5 }, Rgb565::new(1, 1, 1));
    assert_eq!(r, Ok(()));
    assert!(d.di.written.is_empty());
}
