use pixel_editor::brush::{Brush, Color};
use pixel_editor::editor::PixelEditor;
use pixel_editor::geometry::{AppCanvas, CellSize, GridSize};
use pixel_editor::layout::Length;
use pixel_editor::input::{
    translate_event, Event, Message, MouseButton, ScreenPoint, ScrollDelta, Status,
};
use pixel_editor::paint::{GridCoordinate, PaintState};
use pixel_editor::render::{build_frame, FillCommand, RenderCache};

fn canvas16() -> AppCanvas {
    AppCanvas {
        canvas_size: GridSize { width: 10, height: 10 },
        cell_size: CellSize { width: 16, height: 16 },
        zoom: 10,
    }
}

fn px(x: i64, y: i64) -> ScreenPoint {
    ScreenPoint { x: x * 100, y: y * 100 }
}

fn at(col: i64, row: i64) -> GridCoordinate {
    GridCoordinate { col, row }
}

const LEFT: Event = Event::ButtonPressed(MouseButton::Left);

#[test]
fn press_maps_to_the_cell_under_the_pointer() {
    let r = translate_event(&canvas16(), LEFT, px(0, 0), Some(px(20, 20)));
    assert_eq!(r, (Status::Captured, Some(Message::Placed(at(1, 1)))));
}

#[test]
fn press_is_relative_to_the_canvas_origin() {
    let r = translate_event(&canvas16(), LEFT, px(100, 50), Some(px(133, 50)));
    assert_eq!(r, (Status::Captured, Some(Message::Placed(at(2, 0)))));
}

#[test]
fn press_left_of_the_canvas_gives_negative_cells() {
    let r = translate_event(&canvas16(), LEFT, px(0, 0), Some(ScreenPoint { x: -1, y: -1600 }));
    assert_eq!(r, (Status::Captured, Some(Message::Placed(at(-1, -1)))));
    let r = translate_event(&canvas16(), LEFT, px(0, 0), Some(ScreenPoint { x: -1601, y: 1599 }));
    assert_eq!(r, (Status::Captured, Some(Message::Placed(at(-2, 0)))));
}

#[test]
fn press_beyond_the_grid_is_not_clamped() {
    let r = translate_event(&canvas16(), LEFT, px(0, 0), Some(px(1000, 20)));
    assert_eq!(r, (Status::Captured, Some(Message::Placed(at(62, 1)))));
}

#[test]
fn press_under_zoom_uses_the_zoomed_cell() {
    let mut c = canvas16();
    c.zoom = 20;
    let r = translate_event(&c, LEFT, px(0, 0), Some(px(20, 40)));
    assert_eq!(r, (Status::Captured, Some(Message::Placed(at(0, 1)))));
}

#[test]
fn press_at_the_extreme_positions() {
    let r = translate_event(
        &canvas16(),
        LEFT,
        ScreenPoint { x: i64::MAX, y: i64::MIN },
        Some(ScreenPoint { x: i64::MIN, y: i64::MAX }),
    );
    let span: i128 = (i64::MIN as i128) - (i64::MAX as i128);
    let col = span.div_euclid(1600) as i64;
    let row = (-span).div_euclid(1600) as i64;
    assert_eq!(r, (Status::Captured, Some(Message::Placed(at(col, row)))));
}

#[test]
fn press_without_position_paints_nothing() {
    let mut e = PixelEditor::new();
    let origin = px(0, 0);
    let r = e.on_event(LEFT, origin, None);
    assert_eq!(r, (Status::Captured, None));
    if let Some(m) = r.1 {
        e.update(m);
    }
    assert!(e.positions().is_empty());
}

#[test]
fn other_buttons_and_events_are_ignored() {
    let c = canvas16();
    for b in [MouseButton::Right, MouseButton::Middle, MouseButton::Other(7)] {
        let r = translate_event(&c, Event::ButtonPressed(b), px(0, 0), Some(px(20, 20)));
        assert_eq!(r, (Status::Ignored, None));
    }
    let r = translate_event(&c, Event::Other, px(0, 0), Some(px(20, 20)));
    assert_eq!(r, (Status::Ignored, None));
}

#[test]
fn scroll_by_lines_adjusts_zoom_by_tenths() {
    let mut e = PixelEditor::new();
    let up = e.on_event(Event::WheelScrolled(ScrollDelta::Lines { x: 0, y: 1 }), px(0, 0), None);
    assert_eq!(up, (Status::Captured, Some(Message::Zoom(1))));
    e.update(Message::Zoom(1));
    assert_eq!(e.app_canvas().zoom, 11);
    let down = e.on_event(Event::WheelScrolled(ScrollDelta::Lines { x: 3, y: -2 }), px(0, 0), None);
    assert_eq!(down, (Status::Captured, Some(Message::Zoom(-2))));
    e.update(Message::Zoom(-2));
    assert_eq!(e.app_canvas().zoom, 9);
}

#[test]
fn scroll_by_pixels_does_nothing() {
    let e = PixelEditor::new();
    let r = e.on_event(Event::WheelScrolled(ScrollDelta::Pixels { x: 0, y: 500 }), px(0, 0), None);
    assert_eq!(r, (Status::Captured, None));
}

#[test]
fn zoom_stays_positive_and_saturates() {
    let mut e = PixelEditor::new();
    e.update(Message::Zoom(-9));
    assert_eq!(e.app_canvas().zoom, 1);
    e.update(Message::Zoom(-1));
    assert_eq!(e.app_canvas().zoom, 1);
    e.update(Message::Zoom(i32::MIN));
    assert_eq!(e.app_canvas().zoom, 1);
    e.update(Message::Zoom(i32::MAX));
    assert_eq!(e.app_canvas().zoom, u16::MAX);
}

#[test]
fn paint_record_keeps_order_and_repeats() {
    let mut p = PaintState::new();
    assert_eq!(p.len(), 0);
    let cells = [at(1, 1), at(0, 2), at(1, 1), at(-3, 4), at(1, 1)];
    for c in cells {
        p.place(c);
    }
    assert_eq!(p.len(), 5);
    assert_eq!(p.all(), &cells[..]);
}

#[test]
fn new_editor_defaults() {
    let e = PixelEditor::new();
    let c = e.app_canvas();
    assert_eq!(c.canvas_size, GridSize { width: 16, height: 16 });
    assert_eq!(c.cell_size, CellSize { width: 16, height: 16 });
    assert_eq!(c.zoom, 10);
    assert_eq!(e.brush().color, Color { r: 0, g: 0, b: 0, a: 255 });
    assert_eq!(e.brush().size, GridSize { width: 1, height: 1 });
    assert!(e.positions().is_empty());
    assert!(!e.is_cached());
}

#[test]
fn frame_is_background_then_cells_in_paint_order() {
    let canvas = canvas16();
    let brush = Brush { color: Color { r: 10, g: 20, b: 30, a: 255 }, size: GridSize { width: 1, height: 1 } };
    let mut p = PaintState::new();
    p.place(at(1, 2));
    p.place(at(-1, 0));
    let f = build_frame(&canvas, &p, &brush);
    let grey = Color { r: 204, g: 204, b: 204, a: 255 };
    assert_eq!(
        f.commands,
        vec![
            FillCommand { x: 0, y: 0, width: 16000, height: 16000, color: grey },
            FillCommand { x: 1600, y: 3200, width: 1600, height: 1600, color: brush.color },
            FillCommand { x: -1600, y: 0, width: 1600, height: 1600, color: brush.color },
        ]
    );
}

#[test]
fn placing_invalidates_and_redraw_includes_every_cell() {
    let mut e = PixelEditor::new();
    e.update(Message::Placed(at(0, 0)));
    let first = e.draw();
    assert_eq!(first.commands.len(), 2);
    assert!(e.is_cached());
    e.update(Message::Placed(at(3, 1)));
    assert!(!e.is_cached());
    let second = e.draw();
    assert_eq!(second.commands.len(), 3);
    assert_eq!((second.commands[1].x, second.commands[1].y), (0, 0));
    assert_eq!((second.commands[2].x, second.commands[2].y), (4800, 1600));
}

#[test]
fn drawing_twice_gives_the_same_frame() {
    let mut e = PixelEditor::new();
    e.update(Message::Placed(at(2, 2)));
    let a = e.draw();
    let b = e.draw();
    assert_eq!(a.commands, b.commands);
}

#[test]
fn zoom_alone_keeps_the_cached_frame() {
    let mut e = PixelEditor::new();
    e.update(Message::Placed(at(1, 0)));
    let before = e.draw();
    e.update(Message::Zoom(10));
    let after = e.draw();
    assert_eq!(before.commands, after.commands);
    e.update(Message::Placed(at(1, 0)));
    let rebuilt = e.draw();
    assert_eq!(rebuilt.commands[1].width, 3200);
    assert_eq!(rebuilt.commands[2].x, 3200);
}

#[test]
fn render_cache_compose_and_invalidate() {
    let canvas = canvas16();
    let brush = Brush { color: Color::black(), size: GridSize { width: 1, height: 1 } };
    let mut p = PaintState::new();
    let mut cache = RenderCache::new();
    assert!(!cache.is_valid());
    let a = cache.compose(&canvas, &p, &brush);
    assert!(cache.is_valid());
    assert_eq!(a.commands.len(), 1);
    p.place(at(0, 0));
    // still the memoized frame until invalidated
    assert_eq!(cache.compose(&canvas, &p, &brush).commands.len(), 1);
    cache.invalidate();
    assert_eq!(cache.compose(&canvas, &p, &brush).commands.len(), 2);
}

#[test]
fn canvas_lengths_follow_the_view_size() {
    let e = PixelEditor::new();
    assert_eq!(e.canvas_lengths(), (Length::Fixed(25600), Length::Fixed(25600)));
}

#[test]
fn colors() {
    assert_eq!(Color::rgb(1, 2, 3), Color { r: 1, g: 2, b: 3, a: 255 });
    assert_eq!(Color::background(), Color { r: 204, g: 204, b: 204, a: 255 });
}
