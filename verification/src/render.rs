use vstd::prelude::*;
use crate::emu::Emu;

verus! {

/// Side of the square, in window pixels, that shows one pixel of the display.
pub const SCALE: u32 = 15;

/// A rectangle of the window: its top-left corner and its size, in window
/// pixels.
#[derive(Clone, Copy, Debug, PartialEq, Eq, Structural)]
pub struct PixelRect {
    pub x: i32,
    pub y: i32,
    pub width: u32,
    pub height: u32,
}

/// The square of the window that shows pixel `p` of the display.
pub open spec fn pixel_rect_spec(p: int) -> PixelRect {
    PixelRect { x: ((p % 64) * 15) as i32, y: ((p / 64) * 15) as i32, width: 15, height: 15 }
}

/// The squares of the lit pixels of `display`, in the order of the pixels.
pub open spec fn lit_rects_spec(display: Seq<bool>) -> Seq<PixelRect>
    decreases display.len(),
{
    if display.len() == 0 {
        Seq::empty()
    } else {
        let before = lit_rects_spec(display.drop_last());
        if display.last() {
            before.push(pixel_rect_spec(display.len() - 1))
        } else {
            before
        }
    }
}

/// The square of the window that shows pixel `p` of the display.
fn pixel_rect(p: usize) -> (rect: PixelRect)
    requires
        p < 2048,
    ensures
        rect == pixel_rect_spec(p as int),
{
    let x = (p % 64) as u32;
    let y = (p / 64) as u32;
    PixelRect { x: (x * SCALE) as i32, y: (y * SCALE) as i32, width: SCALE, height: SCALE }
}

/// The squares to fill to show the machine's display: one for each lit
/// pixel, row by row.
pub fn lit_rects(emu: &Emu) -> (rects: Vec<PixelRect>)
    ensures
        rects@ == lit_rects_spec(emu@.display),
{
    let display = emu.get_display();
    let mut rects: Vec<PixelRect> = Vec::new();
    let mut p: usize = 0;
    while p < display.len()
        invariant
            display@.len() == 2048,
            p <= 2048,
            rects@ == lit_rects_spec(display@.take(p as int)),
        decreases 2048 - p,
    {
        assert(display@.take(p + 1).drop_last() =~= display@.take(p as int));
        if display[p] {
            rects.push(pixel_rect(p));
        }
        p += 1;
    }
    assert(display@.take(2048) =~= display@);
    rects
}

} // verus!
