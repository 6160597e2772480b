//! The drawing adapter: the generic 2D drawing contract (pixel set,
//! contiguous fill, solid fill, bounds query) implemented over the controller
//! driver's primitives, with rectangle clipping against the panel bounds and
//! colour packing on the way to the wire.

use vstd::prelude::*;

use crate::bus::BusWord;
use crate::bus::DisplayError;
use crate::color::Rgb565;
use crate::control::Level;
use crate::bus::WriteOnlyDataCommand;
use crate::driver::ILI9488;
use crate::driver::addr_window_words;
use crate::driver::pixel_words;
use crate::driver::repeat_words;

verus! {

/// A drawing region: top-left corner plus size, in pixels. It may lie partly
/// or wholly outside the canvas; the adapter clips it.
#[derive(Clone, Copy, Debug, PartialEq, Eq, Structural)]
pub struct Rect {
    pub x: i32,
    pub y: i32,
    pub w: u32,
    pub h: u32,
}

/// One pixel to draw: a panel coordinate and its colour.
#[derive(Clone, Copy, Debug, PartialEq, Eq, Structural)]
pub struct Pixel {
    pub x: u16,
    pub y: u16,
    pub color: Rgb565,
}

/// The left edge of the visible part of `r`: its own left edge, clamped to
/// the canvas.
pub open spec fn clip_left(r: Rect) -> int {
    if r.x < 0 {
        0
    } else {
        r.x as int
    }
}

/// The top edge of the visible part of `r`, clamped to the canvas.
pub open spec fn clip_top(r: Rect) -> int {
    if r.y < 0 {
        0
    } else {
        r.y as int
    }
}

/// The exclusive right edge of the visible part of `r` on a canvas `pw`
/// pixels wide.
pub open spec fn clip_right(r: Rect, pw: u16) -> int {
    if r.x + r.w < pw {
        r.x + r.w
    } else {
        pw as int
    }
}

/// The exclusive bottom edge of the visible part of `r` on a canvas `ph`
/// pixels high.
pub open spec fn clip_bottom(r: Rect, ph: u16) -> int {
    if r.y + r.h < ph {
        r.y + r.h
    } else {
        ph as int
    }
}

/// Whether any part of `r` is visible on a `pw` by `ph` canvas.
pub open spec fn clip_nonempty(r: Rect, pw: u16, ph: u16) -> bool {
    clip_left(r) < clip_right(r, pw) && clip_top(r) < clip_bottom(r, ph)
}

/// The pixel count of the visible intersection of `r` with the canvas.
pub open spec fn clipped_area(r: Rect, pw: u16, ph: u16) -> int {
    (clip_right(r, pw) - clip_left(r)) * (clip_bottom(r, ph) - clip_top(r))
}

/// Whether `r` is non-degenerate and lies entirely within the canvas, so
/// clipping would not change it.
pub open spec fn fully_inside(r: Rect, pw: u16, ph: u16) -> bool {
    r.w > 0 && r.h > 0 && r.x >= 0 && r.y >= 0 && r.x + r.w <= pw && r.y + r.h <= ph
}

/// Intersects a rectangle with the canvas. Returns the inclusive coordinate
/// bounds of the visible part, or `None` when nothing of the rectangle is on
/// the canvas.
pub fn clip_to_canvas(area: &Rect, pw: u16, ph: u16) -> (res: Option<(u16, u16, u16, u16)>)
    ensures
        res is Some <==> clip_nonempty(*area, pw, ph),
        res matches Some(c) ==> c.0 == clip_left(*area) && c.1 == clip_top(*area) && c.2
            == clip_right(*area, pw) - 1 && c.3 == clip_bottom(*area, ph) - 1,
        res matches Some(c) ==> c.0 <= c.2 < pw && c.1 <= c.3 < ph,
{
    let xs: i64 = if area.x < 0 {
        0
    } else {
        area.x as i64
    };
    let ys: i64 = if area.y < 0 {
        0
    } else {
        area.y as i64
    };
    let xr: i64 = area.x as i64 + area.w as i64;
    let xe: i64 = if xr < pw as i64 {
        xr
    } else {
        pw as i64
    };
    let yb: i64 = area.y as i64 + area.h as i64;
    let ye: i64 = if yb < ph as i64 {
        yb
    } else {
        ph as i64
    };
    if xs < xe && ys < ye {
        Some(((xs as u16), (ys as u16), ((xe - 1) as u16), ((ye - 1) as u16)))
    } else {
        None
    }
}

/// The bus words one drawn pixel produces: a 1 by 1 address window at its
/// coordinate, then its packed colour as one data word.
pub open spec fn one_pixel_words(p: Pixel) -> Seq<BusWord> {
    addr_window_words(p.x, p.y, p.x, p.y) + seq![BusWord::Dat(p.color.packed())]
}

/// The bus words a scattered pixel set produces, in input order.
pub open spec fn pixel_draw_words(ps: Seq<Pixel>) -> Seq<BusWord>
    decreases ps.len(),
{
    if ps.len() == 0 {
        Seq::<BusWord>::empty()
    } else {
        pixel_draw_words(ps.drop_last()) + one_pixel_words(ps.last())
    }
}

/// `clear` is observably a full-canvas solid fill plus the memory-write
/// command: the full-canvas rectangle survives clipping unchanged, its
/// visible area is the whole panel, and the words `clear` appends equal the
/// words a full-canvas `fill_solid` appends with the memory-write command
/// inserted after the window program.
pub proof fn lemma_clear_is_full_canvas_fill(pw: u16, ph: u16, c: Rgb565)
    requires
        pw >= 1,
        ph >= 1,
    ensures
        ({
            let full = Rect { x: 0, y: 0, w: pw as u32, h: ph as u32 };
            &&& fully_inside(full, pw, ph)
            &&& clipped_area(full, pw, ph) == pw * ph
            &&& addr_window_words(0, 0, (pw - 1) as u16, (ph - 1) as u16) + seq![
                BusWord::Cmd(0x2c),
            ] + repeat_words(c.packed(), (pw * ph) as nat) == addr_window_words(
                clip_left(full) as u16,
                clip_top(full) as u16,
                (clip_right(full, pw) - 1) as u16,
                (clip_bottom(full, ph) - 1) as u16,
            ) + seq![BusWord::Cmd(0x2c)] + repeat_words(
                c.packed(),
                clipped_area(full, pw, ph) as nat,
            )
        }),
{
}

/// Extending a pixel set by one pixel appends that pixel's words to the
/// stream.
proof fn lemma_pixel_draw_words_step(ps: Seq<Pixel>, i: int)
    requires
        0 <= i < ps.len(),
    ensures
        pixel_draw_words(ps.take(i + 1)) == pixel_draw_words(ps.take(i)) + one_pixel_words(ps[i]),
{
    assert(ps.take(i + 1).drop_last() =~= ps.take(i));
    assert(ps.take(i + 1).last() == ps[i]);
}

impl<DI: WriteOnlyDataCommand> ILI9488<DI> {
    /// The canvas dimensions as configured at construction. Pure: no bus
    /// access.
    pub fn size(&self) -> (s: (u16, u16))
        ensures
            s.0 == self.size_x,
            s.1 == self.size_y,
    {
        (self.size_x, self.size_y)
    }

    /// Draws scattered pixels: for each one in input order, a 1 by 1 address
    /// window at its coordinate followed by its packed colour word. The slow
    /// path; no batching across pixels.
    pub fn draw_iter(&mut self, pixels: &[Pixel]) -> (r: Result<(), DisplayError>)
        ensures
            final(self).frame(*old(self)),
            pixels@.len() == 0 ==> r is Ok && final(self).di == old(self).di,
            pixels@.len() > 0 && !old(self).bus_ok() ==> (r matches Err(DisplayError::DCError))
                && final(self).bus_unchanged(*old(self)),
            pixels@.len() > 0 && old(self).bus_ok() ==> r is Ok && final(self).emitted(
                *old(self),
                pixel_draw_words(pixels@),
                Level::High,
            ),
    {
        let mut i: usize = 0;
        while i < pixels.len()
            invariant
                i <= pixels.len(),
                self.frame(*old(self)),
                i == 0 ==> self.di == old(self).di,
                i > 0 ==> self.bus_ok() && self.emitted(
                    *old(self),
                    pixel_draw_words(pixels@.take(i as int)),
                    Level::High,
                ),
            decreases pixels.len() - i,
        {
            let p = pixels[i];
            self.set_addr_win(p.x, p.y, p.x, p.y)?;
            let buf: Vec<u16> = vec![p.color.into_storage()];
            self.write_data16(buf.as_slice())?;
            proof {
                assert(crate::bus::tag_words(Level::High, buf@) =~= seq![
                    BusWord::Dat(p.color.packed()),
                ]);
                lemma_pixel_draw_words_step(pixels@, i as int);
                if i == 0 {
                    assert(pixels@.take(0) =~= Seq::<Pixel>::empty());
                    assert(pixel_draw_words(Seq::<Pixel>::empty()) =~= Seq::<BusWord>::empty());
                }
                assert(self.di.words() =~= old(self).di.words() + pixel_draw_words(
                    pixels@.take(i + 1),
                ));
            }
            i = i + 1;
        }
        proof {
            assert(pixels@.take(pixels@.len() as int) =~= pixels@);
        }
        Ok(())
    }

    /// Fills a rectangle with a caller-supplied colour stream, one colour per
    /// pixel of the requested rectangle in raster order. A rectangle wholly
    /// off the canvas succeeds with no bus activity; one that straddles the
    /// canvas edge is refused, because the addressing-window-only protocol
    /// cannot remap the stream to the clipped region.
    pub fn fill_contiguous(&mut self, area: &Rect, colors: &[Rgb565]) -> (r: Result<
        (),
        DisplayError,
    >)
        requires
            colors@.len() == area.w * area.h,
        ensures
            final(self).frame(*old(self)),
            !clip_nonempty(*area, old(self).size_x, old(self).size_y) ==> r is Ok && final(self).di
                == old(self).di,
            clip_nonempty(*area, old(self).size_x, old(self).size_y) && !fully_inside(
                *area,
                old(self).size_x,
                old(self).size_y,
            ) ==> (r matches Err(DisplayError::OutOfBoundsError)) && final(self).di == old(self).di,
            fully_inside(*area, old(self).size_x, old(self).size_y) && !old(self).bus_ok() ==> (
            r matches Err(DisplayError::DCError)) && final(self).bus_unchanged(*old(self)),
            fully_inside(*area, old(self).size_x, old(self).size_y) && old(self).bus_ok() ==> r
                is Ok && final(self).emitted(
                *old(self),
                addr_window_words(
                    area.x as u16,
                    area.y as u16,
                    (area.x + area.w - 1) as u16,
                    (area.y + area.h - 1) as u16,
                ) + pixel_words(colors@),
                Level::High,
            ),
    {
        let sx = self.size_x;
        let sy = self.size_y;
        match clip_to_canvas(area, sx, sy) {
            None => Ok(()),
            Some((cxs, cys, cxe, cye)) => {
                let inside = area.x >= 0 && area.y >= 0 && (area.x as i64 + area.w as i64)
                    <= sx as i64 && (area.y as i64 + area.h as i64) <= sy as i64;
                if inside {
                    self.set_addr_win(cxs, cys, cxe, cye)?;
                    self.write_pixels(colors)?;
                    proof {
                        assert(self.di.words() =~= old(self).di.words() + (addr_window_words(
                            area.x as u16,
                            area.y as u16,
                            (area.x + area.w - 1) as u16,
                            (area.y + area.h - 1) as u16,
                        ) + pixel_words(colors@)));
                    }
                    Ok(())
                } else {
                    Err(DisplayError::OutOfBoundsError)
                }
            },
        }
    }

    /// Fills a rectangle with one colour. The rectangle is clipped to the
    /// canvas: the address window covers the visible intersection and exactly
    /// that many copies of the packed colour are streamed. A rectangle wholly
    /// off the canvas succeeds with no bus activity.
    pub fn fill_solid(&mut self, area: &Rect, color: Rgb565) -> (r: Result<(), DisplayError>)
        ensures
            final(self).frame(*old(self)),
            !clip_nonempty(*area, old(self).size_x, old(self).size_y) ==> r is Ok && final(self).di
                == old(self).di,
            clip_nonempty(*area, old(self).size_x, old(self).size_y) && !old(self).bus_ok() ==> (
            r matches Err(DisplayError::DCError)) && final(self).bus_unchanged(*old(self)),
            clip_nonempty(*area, old(self).size_x, old(self).size_y) && old(self).bus_ok() ==> r
                is Ok && final(self).emitted(
                *old(self),
                addr_window_words(
                    clip_left(*area) as u16,
                    clip_top(*area) as u16,
                    (clip_right(*area, old(self).size_x) - 1) as u16,
                    (clip_bottom(*area, old(self).size_y) - 1) as u16,
                ) + repeat_words(
                    color.packed(),
                    clipped_area(*area, old(self).size_x, old(self).size_y) as nat,
                ),
                Level::High,
            ),
    {
        let sx = self.size_x;
        let sy = self.size_y;
        match clip_to_canvas(area, sx, sy) {
            None => Ok(()),
            Some((cxs, cys, cxe, cye)) => {
                let cw: u64 = cxe as u64 - cxs as u64 + 1;
                let ch: u64 = cye as u64 - cys as u64 + 1;
                proof {
                    assert(1 <= (cw as int) * (ch as int) <= 0x10000 * 0x10000)
                        by (nonlinear_arith)
                        requires
                            1 <= cw <= 0x10000,
                            1 <= ch <= 0x10000,
                    ;
                }
                let count: u64 = cw * ch;
                let word = color.into_storage();
                self.set_addr_win(cxs, cys, cxe, cye)?;
                self.write_repeated16(word, count)?;
                proof {
                    assert(self.di.words() =~= old(self).di.words() + (addr_window_words(
                        clip_left(*area) as u16,
                        clip_top(*area) as u16,
                        (clip_right(*area, old(self).size_x) - 1) as u16,
                        (clip_bottom(*area, old(self).size_y) - 1) as u16,
                    ) + repeat_words(
                        color.packed(),
                        clipped_area(*area, old(self).size_x, old(self).size_y) as nat,
                    )));
                }
                Ok(())
            },
        }
    }
}

} // verus!
