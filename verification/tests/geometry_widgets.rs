use kiosk_ui::geometry::{Color, Point, Position, Size};
use kiosk_ui::geometry::{translate_to_global, translate_to_relative};
use kiosk_ui::widgets::{aspect_fit_height, Frame, Image, ImageSource, Text, WidgetType};

#[test]
fn point_translate_moves_both_coordinates() {
    let mut p = Point::new(3, -4);
    p.translate(10, 6);
    assert_eq!(p, Point { x: 13, y: 2 });
}

#[test]
fn position_center_rounds_halves_down() {
    let p = Position::new(Point::new(10, 20), Size::new(5, 9));
    assert_eq!(p.center(), Point { x: 12, y: 24 });
}

#[test]
fn translate_round_trip_restores_the_point() {
    let global = Point::new(100, 200);
    let local = Point::new(7, -9);
    let abs = translate_to_global(&local, &global);
    assert_eq!(abs, Point { x: 107, y: 191 });
    let back = translate_to_relative(&abs, &local);
    assert_eq!(back, global);
}

#[test]
fn aspect_height_is_nine_sixteenths_rounded() {
    assert_eq!(aspect_fit_height(0), 0);
    assert_eq!(aspect_fit_height(16), 9);
    assert_eq!(aspect_fit_height(160), 90);
    // 200 * 9 / 16 = 112.5 rounds up to 113.
    assert_eq!(aspect_fit_height(200), 113);
    assert_eq!(aspect_fit_height(400), 225);
    // The formula stays in range at the largest width.
    assert_eq!(aspect_fit_height(u32::MAX), 2415919103);
}

#[test]
fn aspect_preserving_image_overrides_requested_height() {
    let mut img = Image::from_bytes(vec![1, 2, 3], Position::new(Point::origin(), Size::new(0, 0)));
    img.set_position(Position::new(Point::new(10, 20), Size::new(400, 999)));
    // The corner and width are stored verbatim; the height is recomputed.
    assert_eq!(*img.position(), Position::new(Point::new(10, 20), Size::new(400, 225)));
}

#[test]
fn non_aspect_image_stores_the_rect_verbatim() {
    let mut img = Image {
        source: ImageSource::Bytes(vec![]),
        pos: Position::new(Point::origin(), Size::new(0, 0)),
        preserve_aspect_w: false,
    };
    img.set_position(Position::new(Point::new(1, 2), Size::new(30, 40)));
    assert_eq!(*img.position(), Position::new(Point::new(1, 2), Size::new(30, 40)));
}

#[test]
fn frame_and_text_store_the_rect_verbatim() {
    let mut frame = Frame::empty();
    let rect = Position::new(Point::new(-5, 6), Size::new(70, 80));
    frame.set_position(rect);
    assert_eq!(*frame.position(), rect);
    assert!(frame.color().is_none());

    let mut text = Text {
        content: String::from("hello"),
        size: 12,
        pos: Position::new(Point::origin(), Size::new(0, 0)),
        color: Color::new(1, 2, 3),
    };
    text.set_position(rect);
    assert_eq!(*text.position(), rect);
}

#[test]
fn widget_type_delegates_to_the_wrapped_widget() {
    let mut w = WidgetType::Frame(Frame::new(Position::new(Point::origin(), Size::new(1, 1))));
    let rect = Position::new(Point::new(9, 9), Size::new(9, 9));
    w.set_position(rect);
    assert_eq!(*w.position(), rect);
}
