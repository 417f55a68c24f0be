use kiosk_ui::geometry::{Color, Point, Position, Size};
use kiosk_ui::scene::{
    CenteredLayout, Key, LayoutItem, LayoutNode, ListItem, ListLayout, VCenteredLayout,
};
use kiosk_ui::traversal::{dispatch_key, image_fallback, render, text_dest_rect, PaintCmd};
use kiosk_ui::widgets::{Frame, Image, ImageSource, Text, WidgetType};

fn frame_item(w: u32, h: u32) -> LayoutItem {
    LayoutItem::Widget(WidgetType::Frame(Frame::new(Position::new(Point::origin(), Size::new(w, h)))))
}

fn cmd_rect(cmd: &PaintCmd) -> Position {
    match cmd {
        PaintCmd::Rect { rect, .. } => *rect,
        PaintCmd::Image { rect, .. } => *rect,
        PaintCmd::Text { rect, .. } => *rect,
    }
}

#[test]
fn render_translates_leaves_and_restores_the_offset() {
    let mut layout = CenteredLayout::new(Position::new(Point::new(5, 7), Size::new(100, 100)));
    layout.add_child(frame_item(10, 10));
    let scene = LayoutItem::Layout(Box::new(LayoutNode::Centered(layout)));

    let mut offset = Point::new(1000, 2000);
    let mut cmds: Vec<PaintCmd> = Vec::new();
    render(&scene, &mut offset, &mut cmds);

    // The offset is back exactly where it was before the traversal.
    assert_eq!(offset, Point { x: 1000, y: 2000 });
    // One leaf, one command. The layout centered the child on (55, 57), so
    // its stored corner is (50, 52), and the render pass adds the layout's
    // own corner (5, 7) on top of the entry offset.
    assert_eq!(cmds.len(), 1);
    assert_eq!(cmd_rect(&cmds[0]), Position::new(Point::new(1055, 2059), Size::new(10, 10)));
}

#[test]
fn render_paints_only_the_active_list_subtree() {
    let mut list = ListLayout::new(Size::new(200, 300));
    let normal = LayoutItem::Widget(WidgetType::Text(Text {
        content: String::from("normal"),
        size: 10,
        pos: Position::new(Point::origin(), Size::new(0, 0)),
        color: Color::new(1, 1, 1),
    }));
    let selected = frame_item(0, 0);
    list.add_item(ListItem::new(normal, selected));
    let scene = LayoutItem::Layout(Box::new(LayoutNode::List(list)));

    let mut offset = Point::origin();
    let mut cmds: Vec<PaintCmd> = Vec::new();
    render(&scene, &mut offset, &mut cmds);

    // Index 0 is selected, so its frame paints and its text does not.
    assert_eq!(cmds.len(), 1);
    assert!(matches!(cmds[0], PaintCmd::Rect { .. }));
}

#[test]
fn render_visits_every_leaf_exactly_once() {
    // A list of three entries, each side a single frame, under a wrapper:
    // one command per visited leaf, and the wrapper adds none.
    let mut list = ListLayout::new(Size::new(200, 300));
    for _ in 0..3 {
        list.add_item(ListItem::new(frame_item(1, 1), frame_item(1, 1)));
    }
    let mut wrapper = VCenteredLayout::new(Position::new(Point::origin(), Size::new(960, 540)));
    wrapper.add_child(LayoutItem::Layout(Box::new(LayoutNode::List(list))));
    let scene = LayoutItem::Layout(Box::new(LayoutNode::VCentered(wrapper)));

    let mut offset = Point::origin();
    let mut cmds: Vec<PaintCmd> = Vec::new();
    render(&scene, &mut offset, &mut cmds);
    assert_eq!(cmds.len(), 3);
    assert_eq!(offset, Point { x: 0, y: 0 });
}

#[test]
fn render_appends_after_existing_commands() {
    let mut offset = Point::origin();
    let mut cmds: Vec<PaintCmd> = vec![image_fallback(Position::new(
        Point::origin(),
        Size::new(1, 1),
    ))];
    render(&frame_item(2, 2), &mut offset, &mut cmds);
    assert_eq!(cmds.len(), 2);
    assert_eq!(cmd_rect(&cmds[1]), Position::new(Point::origin(), Size::new(2, 2)));
}

#[test]
fn dispatch_walks_into_the_list_and_reports_consumption() {
    // A vertically centering wrapper around a list of three entries: the
    // expected selection sequence for Right, Right, Right is 1, 2, 2, and
    // every stroke reports consumed, the boundary no-op included.
    let mut list = ListLayout::new(Size::new(200, 300));
    for _ in 0..3 {
        list.add_item(ListItem::new(frame_item(1, 1), frame_item(1, 1)));
    }
    let mut wrapper = VCenteredLayout::new(Position::new(Point::origin(), Size::new(960, 540)));
    wrapper.add_child(LayoutItem::Layout(Box::new(LayoutNode::List(list))));
    let mut scene = LayoutItem::Layout(Box::new(LayoutNode::VCentered(wrapper)));

    let selected_of = |scene: &LayoutItem| -> usize {
        match scene {
            LayoutItem::Layout(node) => match &**node {
                LayoutNode::VCentered(v) => match &v.children[0] {
                    LayoutItem::Layout(inner) => match &**inner {
                        LayoutNode::List(l) => l.selected,
                        _ => panic!("expected the list"),
                    },
                    _ => panic!("expected a layout child"),
                },
                _ => panic!("expected the wrapper"),
            },
            _ => panic!("expected a layout"),
        }
    };

    assert!(dispatch_key(&mut scene, Key::Right));
    assert_eq!(selected_of(&scene), 1);
    assert!(dispatch_key(&mut scene, Key::Right));
    assert_eq!(selected_of(&scene), 2);
    assert!(dispatch_key(&mut scene, Key::Right));
    assert_eq!(selected_of(&scene), 2);
    assert!(dispatch_key(&mut scene, Key::Left));
    assert_eq!(selected_of(&scene), 1);
}

#[test]
fn widgets_never_consume_keys() {
    let mut leaf = frame_item(1, 1);
    assert!(!dispatch_key(&mut leaf, Key::Right));
    assert!(!dispatch_key(&mut leaf, Key::Left));
}

#[test]
fn a_consumed_key_stops_at_the_first_list() {
    // Two lists side by side under one centering layout: only the first
    // list sees the key.
    let mut first = ListLayout::new(Size::new(10, 10));
    first.add_item(ListItem::new(frame_item(1, 1), frame_item(1, 1)));
    first.add_item(ListItem::new(frame_item(1, 1), frame_item(1, 1)));
    let mut second = ListLayout::new(Size::new(10, 10));
    second.add_item(ListItem::new(frame_item(1, 1), frame_item(1, 1)));
    second.add_item(ListItem::new(frame_item(1, 1), frame_item(1, 1)));

    let mut host = CenteredLayout::new(Position::new(Point::origin(), Size::new(500, 500)));
    host.add_child(LayoutItem::Layout(Box::new(LayoutNode::List(first))));
    host.add_child(LayoutItem::Layout(Box::new(LayoutNode::List(second))));
    let mut scene = LayoutItem::Layout(Box::new(LayoutNode::Centered(host)));

    assert!(dispatch_key(&mut scene, Key::Right));
    match &scene {
        LayoutItem::Layout(node) => match &**node {
            LayoutNode::Centered(c) => {
                let selections: Vec<usize> = c
                    .children
                    .iter()
                    .map(|child| match child {
                        LayoutItem::Layout(inner) => match &**inner {
                            LayoutNode::List(l) => l.selected,
                            _ => panic!("expected a list"),
                        },
                        _ => panic!("expected a layout child"),
                    })
                    .collect();
                assert_eq!(selections, vec![1, 0]);
            }
            _ => panic!("expected the host"),
        },
        _ => panic!("expected a layout"),
    }
}

#[test]
fn image_fallback_is_a_gray_rect_at_the_same_place() {
    let rect = Position::new(Point::new(12, 34), Size::new(56, 78));
    match image_fallback(rect) {
        PaintCmd::Rect { rect: r, fill } => {
            assert_eq!(r, rect);
            assert_eq!(fill, Some(Color::new(128, 128, 128)));
        }
        _ => panic!("expected a rect command"),
    }
}

#[test]
fn text_dest_rect_centers_the_rendered_surface() {
    let r = text_dest_rect(Point::new(100, 50), 30, 9);
    assert_eq!(r, Position::new(Point::new(85, 46), Size::new(30, 9)));
}

#[test]
fn paint_command_carries_the_image_bytes() {
    let img = Image::from_bytes(vec![9, 8, 7], Position::new(Point::origin(), Size::new(4, 4)));
    let item = LayoutItem::Widget(WidgetType::Image(img));
    let mut offset = Point::new(1, 1);
    let mut cmds: Vec<PaintCmd> = Vec::new();
    render(&item, &mut offset, &mut cmds);
    match &cmds[0] {
        PaintCmd::Image { rect, source } => {
            assert_eq!(*rect, Position::new(Point::new(1, 1), Size::new(4, 4)));
            match source {
                ImageSource::Bytes(b) => assert_eq!(b, &vec![9, 8, 7]),
                _ => panic!("expected bytes"),
            }
        }
        _ => panic!("expected an image command"),
    }
}
