//! Translation of raw pointer and wheel events into painting actions.
use vstd::prelude::*;
use vstd::arithmetic::div_mod::{lemma_fundamental_div_mod, lemma_fundamental_div_mod_converse};

use crate::geometry::AppCanvas;
use crate::paint::GridCoordinate;

verus! {

/// A screen-space position, in hundredths of a pixel.
#[derive(Clone, Copy, Debug, PartialEq, Eq, Structural)]
pub struct ScreenPoint {
    pub x: i64,
    pub y: i64,
}

/// A pointer button.
#[derive(Clone, Copy, Debug, PartialEq, Eq, Structural)]
pub enum MouseButton {
    Left,
    Right,
    Middle,
    Other(u16),
}

/// How far the wheel moved: in lines, or in hundredths of a pixel.
#[derive(Clone, Copy, Debug, PartialEq, Eq, Structural)]
pub enum ScrollDelta {
    Lines { x: i32, y: i32 },
    Pixels { x: i64, y: i64 },
}

/// A raw input event delivered to the canvas.
#[derive(Clone, Copy, Debug, PartialEq, Eq, Structural)]
pub enum Event {
    ButtonPressed(MouseButton),
    WheelScrolled(ScrollDelta),
    Other,
}

/// Whether the canvas consumed an event or leaves it to the host.
#[derive(Clone, Copy, Debug, PartialEq, Eq, Structural)]
pub enum Status {
    Captured,
    Ignored,
}

/// A painting action.
#[derive(Clone, Copy, Debug, PartialEq, Eq, Structural)]
pub enum Message {
    /// Paint the given cell.
    Placed(GridCoordinate),
    /// Change the zoom factor by the given number of tenths.
    Zoom(i32),
}

/// Index of the cell of extent `size` that holds the signed offset
/// `offset`, counting from the cell that starts at offset zero: the quotient
/// rounded down.
pub open spec fn cell_index(offset: int, size: int) -> int {
    offset / size
}

/// The cell under `p` on a canvas whose top left corner is at `origin`.
pub open spec fn cell_at(canvas: AppCanvas, origin: ScreenPoint, p: ScreenPoint) -> GridCoordinate {
    GridCoordinate {
        col: cell_index(p.x - origin.x, canvas.scaled_width()) as i64,
        row: cell_index(p.y - origin.y, canvas.scaled_height()) as i64,
    }
}

/// What an event does on the canvas: a left press paints the cell under the
/// pointer, if the pointer has a position; a wheel scroll by lines changes
/// the zoom by a tenth per line of vertical movement; a scroll by pixels is
/// consumed with no action; anything else is left to the host.
pub open spec fn translate(
    event: Event,
    canvas: AppCanvas,
    origin: ScreenPoint,
    cursor: Option<ScreenPoint>,
) -> (Status, Option<Message>) {
    match event {
        Event::ButtonPressed(MouseButton::Left) => (
            Status::Captured,
            match cursor {
                Some(p) => Some(Message::Placed(cell_at(canvas, origin, p))),
                None => None,
            },
        ),
        Event::WheelScrolled(ScrollDelta::Lines { y, .. }) => (
            Status::Captured,
            Some(Message::Zoom(y)),
        ),
        Event::WheelScrolled(ScrollDelta::Pixels { .. }) => (Status::Captured, None),
        _ => (Status::Ignored, None),
    }
}

/// `offset / size` rounded down, for a positive `size`.
fn floor_div(offset: i128, size: u128) -> (q: i128)
    requires
        0 < size <= 0x1_0000_0000_0000_0000_0000,
        -0x1_0000_0000_0000_0000_0000 <= offset <= 0x1_0000_0000_0000_0000_0000,
    ensures
        q == cell_index(offset as int, size as int),
{
    if offset >= 0 {
        let q = (offset as u128) / size;
        proof {
            lemma_fundamental_div_mod(offset as int, size as int);
        }
        q as i128
    } else {
        let m = (-offset) as u128;
        let t = m + (size - 1);
        let q = t / size;
        proof {
            let s = size as int;
            lemma_fundamental_div_mod(t as int, s);
            let rem = (t as int) % s;
            assert(-(m as int) == (-(q as int)) * s + (s - 1 - rem)) by (nonlinear_arith)
                requires
                    t as int == (q as int) * s + rem,
                    t as int == m as int + s - 1,
            ;
            lemma_fundamental_div_mod_converse(-(m as int), s, -(q as int), s - 1 - rem);
        }
        -(q as i128)
    }
}

impl AppCanvas {
    /// The cell under the screen position `p`, on a canvas whose top left
    /// corner is at `origin`. Positions outside the canvas give cells
    /// outside the grid, negative ones included.
    pub fn cell_at(&self, origin: ScreenPoint, p: ScreenPoint) -> (r: GridCoordinate)
        requires
            self.wf(),
        ensures
            r == cell_at(*self, origin, p),
            r.col == cell_index(p.x - origin.x, self.scaled_width()),
            r.row == cell_index(p.y - origin.y, self.scaled_height()),
    {
        let size = self.cell_size();
        proof {
            assert(self.scaled_width() <= 0xffff * 0xffff * 10) by (nonlinear_arith)
                requires
                    self.scaled_width() == self.cell_size.width * (self.zoom as int) * 10,
                    self.cell_size.width <= 0xffff,
                    self.zoom <= 0xffff,
            ;
            assert(self.scaled_height() <= 0xffff * 0xffff * 10) by (nonlinear_arith)
                requires
                    self.scaled_height() == self.cell_size.height * (self.zoom as int) * 10,
                    self.cell_size.height <= 0xffff,
                    self.zoom <= 0xffff,
            ;
            assert(self.scaled_width() >= 10) by (nonlinear_arith)
                requires
                    self.scaled_width() == self.cell_size.width * (self.zoom as int) * 10,
                    self.cell_size.width >= 1,
                    self.zoom >= 1,
            ;
            assert(self.scaled_height() >= 10) by (nonlinear_arith)
                requires
                    self.scaled_height() == self.cell_size.height * (self.zoom as int) * 10,
                    self.cell_size.height >= 1,
                    self.zoom >= 1,
            ;
        }
        let dx = p.x as i128 - origin.x as i128;
        let dy = p.y as i128 - origin.y as i128;
        let col = floor_div(dx, size.width);
        let row = floor_div(dy, size.height);
        proof {
            lemma_quotient_fits(dx as int, size.width as int);
            lemma_quotient_fits(dy as int, size.height as int);
        }
        GridCoordinate { col: col as i64, row: row as i64 }
    }
}

/// The quotient of an offset between two `i64` values by a cell extent of
/// at least ten fits in an `i64`.
proof fn lemma_quotient_fits(offset: int, size: int)
    requires
        -0x1_0000_0000_0000_0000 < offset < 0x1_0000_0000_0000_0000,
        size >= 10,
    ensures
        i64::MIN <= offset / size <= i64::MAX,
{
    lemma_fundamental_div_mod(offset, size);
    let q = offset / size;
    let r = offset % size;
    assert(i64::MIN <= q <= i64::MAX) by (nonlinear_arith)
        requires
            offset == size * q + r,
            0 <= r < size,
            size >= 10,
            -0x1_0000_0000_0000_0000 < offset < 0x1_0000_0000_0000_0000,
    ;
}

/// Translates a raw event on the canvas into an action. `origin` is the
/// top left corner of the canvas on screen, `cursor` the pointer position
/// if it is known.
pub fn translate_event(
    canvas: &AppCanvas,
    event: Event,
    origin: ScreenPoint,
    cursor: Option<ScreenPoint>,
) -> (r: (Status, Option<Message>))
    requires
        canvas.wf(),
    ensures
        r == translate(event, *canvas, origin, cursor),
        event == Event::ButtonPressed(MouseButton::Left) && cursor is None ==> r.1 is None,
{
    match event {
        Event::ButtonPressed(MouseButton::Left) => {
            let action = match cursor {
                Some(p) => Some(Message::Placed(canvas.cell_at(origin, p))),
                None => None,
            };
            (Status::Captured, action)
        },
        Event::WheelScrolled(ScrollDelta::Lines { y, .. }) => (
            Status::Captured,
            Some(Message::Zoom(y)),
        ),
        Event::WheelScrolled(ScrollDelta::Pixels { .. }) => (Status::Captured, None),
        _ => (Status::Ignored, None),
    }
}

} // verus!
