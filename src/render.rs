//! Composition of a frame from the painted cells, memoized until the
//! painting changes.
use vstd::prelude::*;

use crate::brush::{opaque, Brush, Color, BACKGROUND_LEVEL};
use crate::geometry::AppCanvas;
use crate::paint::{GridCoordinate, PaintState};

verus! {

/// A filled rectangle: top left corner and extent in hundredths of a pixel.
#[derive(Clone, Copy, Debug, PartialEq, Eq, Structural)]
pub struct FillCommand {
    pub x: i128,
    pub y: i128,
    pub width: u128,
    pub height: u128,
    pub color: Color,
}

/// A composed frame: fills to be drawn one after the other.
#[derive(Debug)]
pub struct Frame {
    pub commands: Vec<FillCommand>,
}

impl View for Frame {
    type V = Seq<FillCommand>;

    open spec fn view(&self) -> Seq<FillCommand> {
        self.commands@
    }
}

/// The background fill: the whole view rectangle, in light grey.
pub open spec fn background_fill(canvas: AppCanvas) -> FillCommand {
    FillCommand {
        x: 0,
        y: 0,
        width: canvas.view_width() as u128,
        height: canvas.view_height() as u128,
        color: opaque(BACKGROUND_LEVEL, BACKGROUND_LEVEL, BACKGROUND_LEVEL),
    }
}

/// The fill of one painted cell: a zoomed cell placed at its column and
/// row, in the brush colour.
pub open spec fn cell_fill(canvas: AppCanvas, c: GridCoordinate, color: Color) -> FillCommand {
    FillCommand {
        x: (c.col * canvas.scaled_width()) as i128,
        y: (c.row * canvas.scaled_height()) as i128,
        width: canvas.scaled_width() as u128,
        height: canvas.scaled_height() as u128,
        color,
    }
}

/// The frame of a painting: the background, then one fill per painted cell
/// in paint order.
pub open spec fn frame_of(canvas: AppCanvas, cells: Seq<GridCoordinate>, brush: Brush) -> Seq<
    FillCommand,
> {
    seq![background_fill(canvas)] + cells.map_values(|c: GridCoordinate| cell_fill(canvas, c, brush.color))
}

/// Returns a copy of a frame.
pub fn copy_frame(f: &Frame) -> (r: Frame)
    ensures
        r@ == f@,
{
    let mut commands: Vec<FillCommand> = Vec::new();
    let mut i: usize = 0;
    while i < f.commands.len()
        invariant
            i <= f@.len(),
            commands@ == f@.take(i as int),
        decreases f@.len() - i,
    {
        commands.push(f.commands[i]);
        i = i + 1;
        assert(commands@ =~= f@.take(i as int));
    }
    assert(f@.take(i as int) =~= f@);
    Frame { commands }
}

/// The last composed frame, if it still reflects the painting.
pub struct RenderCache {
    frame: Option<Frame>,
}

impl View for RenderCache {
    type V = Option<Seq<FillCommand>>;

    closed spec fn view(&self) -> Option<Seq<FillCommand>> {
        match self.frame {
            Some(f) => Some(f@),
            None => None,
        }
    }
}

/// The frame that composing returns: the memoized one while it is valid,
/// else the frame of the current painting.
pub open spec fn composed(
    cached: Option<Seq<FillCommand>>,
    canvas: AppCanvas,
    cells: Seq<GridCoordinate>,
    brush: Brush,
) -> Seq<FillCommand> {
    match cached {
        Some(f) => f,
        None => frame_of(canvas, cells, brush),
    }
}

impl RenderCache {
    /// An empty cache, which composes on first use.
    pub fn new() -> (r: RenderCache)
        ensures
            r@ is None,
    {
        RenderCache { frame: None }
    }

    /// Whether a composed frame is held.
    pub fn is_valid(&self) -> (r: bool)
        ensures
            r == self@ is Some,
    {
        self.frame.is_some()
    }

    /// Marks the held frame stale.
    pub fn invalidate(&mut self)
        ensures
            final(self)@ is None,
    {
        self.frame = None;
    }

    /// The held frame if there is one; else composes the frame of the
    /// painting, holds it and returns it.
    pub fn compose(&mut self, canvas: &AppCanvas, paint: &PaintState, brush: &Brush) -> (r: Frame)
        requires
            canvas.wf(),
        ensures
            r@ == composed(old(self)@, *canvas, paint@, *brush),
            final(self)@ == Some(r@),
    {
        match &self.frame {
            Some(f) => copy_frame(f),
            None => {
                let f = build_frame(canvas, paint, brush);
                let r = copy_frame(&f);
                self.frame = Some(f);
                r
            },
        }
    }
}

/// Composes the frame of a painting.
pub fn build_frame(canvas: &AppCanvas, paint: &PaintState, brush: &Brush) -> (r: Frame)
    requires
        canvas.wf(),
    ensures
        r@ == frame_of(*canvas, paint@, *brush),
{
    let w = canvas.width();
    let h = canvas.height();
    let size = canvas.cell_size();
    let cells = paint.all();
    proof {
        lemma_extent_bounds(*canvas);
    }
    let mut commands: Vec<FillCommand> = Vec::new();
    commands.push(FillCommand { x: 0, y: 0, width: w, height: h, color: Color::background() });
    let mut i: usize = 0;
    while i < cells.len()
        invariant
            canvas.wf(),
            cells@ == paint@,
            i <= cells@.len(),
            size.width == canvas.scaled_width(),
            size.height == canvas.scaled_height(),
            0 < size.width <= 0x10_0000_0000,
            0 < size.height <= 0x10_0000_0000,
            commands@ == frame_of(*canvas, paint@.take(i as int), *brush),
        decreases cells@.len() - i,
    {
        let c = cells[i];
        proof {
            lemma_position_fits(c.col as int, size.width as int);
            lemma_position_fits(c.row as int, size.height as int);
        }
        let fill = FillCommand {
            x: c.col as i128 * size.width as i128,
            y: c.row as i128 * size.height as i128,
            width: size.width,
            height: size.height,
            color: brush.color,
        };
        commands.push(fill);
        proof {
            let g = |d: GridCoordinate| cell_fill(*canvas, d, brush.color);
            assert(paint@.take(i + 1) =~= paint@.take(i as int).push(c));
            assert(paint@.take(i + 1).map_values(g) =~= paint@.take(i as int).map_values(g).push(
                g(c),
            ));
        }
        i = i + 1;
        assert(commands@ =~= frame_of(*canvas, paint@.take(i as int), *brush));
    }
    assert(paint@.take(i as int) =~= paint@);
    Frame { commands }
}

/// A zoomed cell measures between ten hundredths of a pixel and the product
/// of the largest base size and zoom.
proof fn lemma_extent_bounds(canvas: AppCanvas)
    requires
        canvas.wf(),
    ensures
        0 < canvas.scaled_width() <= 0x10_0000_0000,
        0 < canvas.scaled_height() <= 0x10_0000_0000,
{
    assert(0 < canvas.scaled_width() <= 0x10_0000_0000) by (nonlinear_arith)
        requires
            canvas.scaled_width() == canvas.cell_size.width * (canvas.zoom as int) * 10,
            1 <= canvas.cell_size.width <= 0xffff,
            1 <= canvas.zoom <= 0xffff,
    ;
    assert(0 < canvas.scaled_height() <= 0x10_0000_0000) by (nonlinear_arith)
        requires
            canvas.scaled_height() == canvas.cell_size.height * (canvas.zoom as int) * 10,
            1 <= canvas.cell_size.height <= 0xffff,
            1 <= canvas.zoom <= 0xffff,
    ;
}

/// A cell index times a zoomed cell extent fits in an `i128`.
proof fn lemma_position_fits(index: int, size: int)
    requires
        i64::MIN <= index <= i64::MAX,
        0 < size <= 0x10_0000_0000,
    ensures
        i128::MIN <= index * size <= i128::MAX,
{
    assert(-0x8000_0000_0000_0000 * 0x10_0000_0000 <= index * size <= 0x8000_0000_0000_0000
        * 0x10_0000_0000) by (nonlinear_arith)
        requires
            -0x8000_0000_0000_0000 <= index <= 0x8000_0000_0000_0000,
            0 < size <= 0x10_0000_0000,
    ;
}

} // verus!
