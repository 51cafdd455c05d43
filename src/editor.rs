//! The painting controller: geometry, painted cells, brush and render
//! cache, changed only through actions.
use vstd::prelude::*;

use crate::brush::{opaque, Brush, Color};
use crate::geometry::{AppCanvas, CellSize, GridSize, MIN_ZOOM};
use crate::input::{
    translate, translate_event, Event, Message, MouseButton, ScreenPoint, ScrollDelta, Status,
};
use crate::layout::Length;
use crate::paint::{GridCoordinate, PaintState};
use crate::render::{composed, frame_of, FillCommand, Frame, RenderCache};

verus! {

/// The zoom, in tenths, after changing `zoom` by `delta` tenths: kept
/// between one tenth and the largest zoom that the type holds.
pub open spec fn zoomed(zoom: int, delta: int) -> int {
    if zoom + delta < MIN_ZOOM {
        MIN_ZOOM as int
    } else if zoom + delta > u16::MAX {
        u16::MAX as int
    } else {
        zoom + delta
    }
}

/// The state of the controller, as values.
pub struct EditorModel {
    pub canvas: AppCanvas,
    pub cells: Seq<GridCoordinate>,
    pub brush: Brush,
    pub cached: Option<Seq<FillCommand>>,
}

impl EditorModel {
    /// The state after applying an action: painting appends the cell and
    /// drops the memoized frame; zooming changes the zoom alone.
    pub open spec fn apply(self, message: Message) -> EditorModel {
        match message {
            Message::Placed(c) => EditorModel { cells: self.cells.push(c), cached: None, ..self },
            Message::Zoom(d) => EditorModel {
                canvas: AppCanvas { zoom: zoomed(self.canvas.zoom as int, d as int) as u16, ..self.canvas },
                ..self
            },
        }
    }

    /// The frame that a draw returns in this state.
    pub open spec fn frame(self) -> Seq<FillCommand> {
        composed(self.cached, self.canvas, self.cells, self.brush)
    }

    /// The state after a draw: the returned frame is memoized.
    pub open spec fn drawn(self) -> EditorModel {
        EditorModel { cached: Some(self.frame()), ..self }
    }
}

/// The painting controller.
pub struct PixelEditor {
    canvas: RenderCache,
    positions: PaintState,
    app_canvas: AppCanvas,
    brush: Brush,
}

impl View for PixelEditor {
    type V = EditorModel;

    closed spec fn view(&self) -> EditorModel {
        EditorModel {
            canvas: self.app_canvas,
            cells: self.positions@,
            brush: self.brush,
            cached: self.canvas@,
        }
    }
}

impl PixelEditor {
    /// The controller keeps a well-formed geometry.
    pub open spec fn wf(&self) -> bool {
        self@.canvas.wf()
    }

    /// A blank canvas of 16 by 16 cells of 16 by 16 pixels at zoom one,
    /// with a black brush of one cell.
    pub fn new() -> (r: PixelEditor)
        ensures
            r.wf(),
            r@.canvas == (AppCanvas {
                canvas_size: GridSize { width: 16, height: 16 },
                cell_size: CellSize { width: 16, height: 16 },
                zoom: 10,
            }),
            r@.brush == (Brush { color: opaque(0, 0, 0), size: GridSize { width: 1, height: 1 } }),
            r@.cells == Seq::<GridCoordinate>::empty(),
            r@.cached is None,
    {
        PixelEditor {
            canvas: RenderCache::new(),
            positions: PaintState::new(),
            app_canvas: AppCanvas {
                canvas_size: GridSize { width: 16, height: 16 },
                cell_size: CellSize { width: 16, height: 16 },
                zoom: 10,
            },
            brush: Brush { color: Color::black(), size: GridSize { width: 1, height: 1 } },
        }
    }

    /// The geometry.
    pub fn app_canvas(&self) -> (r: AppCanvas)
        ensures
            r == self@.canvas,
    {
        self.app_canvas
    }

    /// The brush.
    pub fn brush(&self) -> (r: Brush)
        ensures
            r == self@.brush,
    {
        self.brush
    }

    /// The painted cells, in paint order.
    pub fn positions(&self) -> (r: &[GridCoordinate])
        ensures
            r@ == self@.cells,
    {
        self.positions.all()
    }

    /// Whether a composed frame is memoized.
    pub fn is_cached(&self) -> (r: bool)
        ensures
            r == self@.cached is Some,
    {
        self.canvas.is_valid()
    }

    /// Applies an action.
    pub fn update(&mut self, message: Message)
        requires
            old(self).wf(),
        ensures
            final(self).wf(),
            final(self)@ == old(self)@.apply(message),
    {
        match message {
            Message::Placed(c) => {
                self.positions.place(c);
                self.canvas.invalidate();
            },
            Message::Zoom(d) => {
                let z = self.app_canvas.zoom as i64 + d as i64;
                let zoom: u16 = if z < MIN_ZOOM as i64 {
                    MIN_ZOOM
                } else if z > u16::MAX as i64 {
                    u16::MAX
                } else {
                    z as u16
                };
                self.app_canvas.zoom = zoom;
            },
        }
    }

    /// Translates a raw event on the canvas into an action, given the
    /// canvas's top left corner on screen and the pointer position.
    pub fn on_event(&self, event: Event, origin: ScreenPoint, cursor: Option<ScreenPoint>) -> (r: (
        Status,
        Option<Message>,
    ))
        requires
            self.wf(),
        ensures
            r == translate(event, self@.canvas, origin, cursor),
    {
        translate_event(&self.app_canvas, event, origin, cursor)
    }

    /// The frame to show: the memoized one, or a newly composed one that is
    /// then memoized.
    pub fn draw(&mut self) -> (r: Frame)
        requires
            old(self).wf(),
        ensures
            final(self).wf(),
            r@ == old(self)@.frame(),
            final(self)@ == old(self)@.drawn(),
    {
        self.canvas.compose(&self.app_canvas, &self.positions, &self.brush)
    }

    /// The fixed width and height that the canvas widget asks for: the
    /// screen extent of the grid.
    pub fn canvas_lengths(&self) -> (r: (Length, Length))
        requires
            self.wf(),
        ensures
            r == (Length::Fixed(self@.canvas.view_width() as u128), Length::Fixed(
                self@.canvas.view_height() as u128,
            )),
    {
        (Length::Fixed(self.app_canvas.width()), Length::Fixed(self.app_canvas.height()))
    }
}

/// A wheel scroll of `y` lines changes the zoom by exactly `y` tenths,
/// wherever that stays within the zoom's range.
pub proof fn lemma_scroll_changes_zoom(
    m: EditorModel,
    x: i32,
    y: i32,
    origin: ScreenPoint,
    cursor: Option<ScreenPoint>,
)
    requires
        m.canvas.wf(),
        MIN_ZOOM <= m.canvas.zoom + y <= u16::MAX,
    ensures
        ({
            let (status, action) = translate(
                Event::WheelScrolled(ScrollDelta::Lines { x, y }),
                m.canvas,
                origin,
                cursor,
            );
            &&& status == Status::Captured
            &&& action == Some(Message::Zoom(y))
            &&& m.apply(Message::Zoom(y)).canvas.zoom == m.canvas.zoom + y
            &&& m.apply(Message::Zoom(y)).cells == m.cells
        }),
{
}

/// A left press with no known pointer position paints nothing.
pub proof fn lemma_press_without_position(m: EditorModel, origin: ScreenPoint)
    ensures
        translate(
            Event::ButtonPressed(MouseButton::Left),
            m.canvas,
            origin,
            None,
        ).1 is None,
{
}

/// After painting a cell the memoized frame is dropped, and the next draw
/// composes every earlier cell and then the new one, in paint order.
pub proof fn lemma_paint_then_draw(m: EditorModel, c: GridCoordinate)
    ensures
        m.apply(Message::Placed(c)).cached is None,
        m.apply(Message::Placed(c)).frame() == frame_of(m.canvas, m.cells.push(c), m.brush),
{
}

/// Drawing twice with no action between gives the same frame both times,
/// and the second draw changes nothing.
pub proof fn lemma_draw_twice(m: EditorModel)
    ensures
        m.drawn().frame() == m.frame(),
        m.drawn().drawn() == m.drawn(),
{
}

} // verus!
