use kiosk_ui::geometry::{Point, Position, Size};
use kiosk_ui::scene::{
    CenteredLayout, Key, LayoutItem, LayoutNode, ListItem, ListLayout, VBoxLayout, VCenteredLayout,
};
use kiosk_ui::widgets::{Frame, Image, WidgetType};

fn frame_item(w: u32, h: u32) -> LayoutItem {
    LayoutItem::Widget(WidgetType::Frame(Frame::new(Position::new(Point::origin(), Size::new(w, h)))))
}

fn list_entry(w: u32, h: u32) -> ListItem {
    ListItem::new(frame_item(w, h), frame_item(w, h))
}

#[test]
fn centered_children_share_the_construction_center() {
    // Children of different sizes, added in any order, all end up centered
    // on the center the layout had when it was built.
    let mut layout = CenteredLayout::new(Position::new(Point::new(10, 20), Size::new(100, 60)));
    layout.add_child(frame_item(30, 20));
    layout.add_child(frame_item(7, 50));
    let expected = Point { x: 60, y: 50 };
    assert_eq!(layout.children.len(), 2);
    assert_eq!(*layout.position(), Position::new(Point::new(10, 20), Size::new(100, 60)));
    for child in &layout.children {
        assert_eq!(child.position().center(), expected);
    }
    assert_eq!(
        *layout.children[0].position(),
        Position::new(Point::new(45, 40), Size::new(30, 20))
    );
}

#[test]
fn vbox_height_is_the_sum_of_child_heights() {
    let mut vbox = VBoxLayout::new();
    vbox.add_child(frame_item(10, 30));
    vbox.add_child(frame_item(99, 50));
    assert_eq!(vbox.position().size.h, 80);
    // Children stack at the cumulative heights and are forced to the
    // layout's width.
    assert_eq!(*vbox.children[0].position(), Position::new(Point::new(0, 0), Size::new(0, 30)));
    assert_eq!(*vbox.children[1].position(), Position::new(Point::new(0, 30), Size::new(0, 50)));
}

#[test]
fn vbox_repositioning_restacks_and_resums() {
    let mut vbox = VBoxLayout::new();
    vbox.add_child(frame_item(10, 30));
    vbox.add_child(LayoutItem::Widget(WidgetType::Image(Image::from_bytes(
        vec![],
        Position::new(Point::origin(), Size::new(10, 10)),
    ))));
    // At width 160 the image takes the 16:9 height 90, so the box is
    // 30 + 90 tall.
    vbox.set_position(Position::new(Point::new(4, 5), Size::new(160, 1)));
    assert_eq!(*vbox.position(), Position::new(Point::new(4, 5), Size::new(160, 120)));
    assert_eq!(*vbox.children[0].position(), Position::new(Point::new(0, 0), Size::new(160, 30)));
    assert_eq!(*vbox.children[1].position(), Position::new(Point::new(0, 30), Size::new(160, 90)));
}

#[test]
fn vcentered_children_get_full_width_and_vertical_centering() {
    let mut layout = VCenteredLayout::new(Position::new(Point::origin(), Size::new(200, 300)));
    layout.add_child(frame_item(44, 100));
    // y = 150 - 100 / 2; x is untouched; width becomes the layout's.
    assert_eq!(
        *layout.children[0].position(),
        Position::new(Point::new(0, 100), Size::new(200, 100))
    );
}

#[test]
fn vcentered_repositioning_recenters_existing_children() {
    let mut layout = VCenteredLayout::new(Position::new(Point::origin(), Size::new(200, 300)));
    layout.add_child(frame_item(44, 100));
    layout.set_position(Position::new(Point::new(0, 0), Size::new(80, 500)));
    assert_eq!(
        *layout.children[0].position(),
        Position::new(Point::new(0, 200), Size::new(80, 100))
    );
}

#[test]
fn list_items_are_laid_out_left_to_right_with_spacing() {
    let mut list = ListLayout::new(Size::new(200, 300));
    assert_eq!(*list.position(), Position::new(Point::origin(), Size::new(0, 300)));
    list.add_item(list_entry(1, 1));
    list.add_item(list_entry(1, 1));
    // Each item sits one spacing past the previous width; the list grows
    // by spacing + item width per add.
    assert_eq!(list.position().size.w, 440);
    assert_eq!(list.children[0].selected_item.position().upper_left, Point { x: 20, y: 0 });
    assert_eq!(list.children[1].selected_item.position().upper_left, Point { x: 240, y: 0 });
}

#[test]
fn selection_stays_in_range_and_saturates() {
    let mut list = ListLayout::new(Size::new(200, 300));
    for _ in 0..3 {
        list.add_item(list_entry(1, 1));
    }
    assert_eq!(list.selected, 0);
    // Right three times from index 0 over three items: 1, 2, then a no-op.
    list.select_next();
    assert_eq!(list.selected, 1);
    list.select_next();
    assert_eq!(list.selected, 2);
    list.select_next();
    assert_eq!(list.selected, 2);
    // And back down, saturating at 0.
    list.select_prev();
    list.select_prev();
    list.select_prev();
    assert_eq!(list.selected, 0);
}

#[test]
fn selection_shifts_the_list_by_one_slot() {
    let mut list = ListLayout::new(Size::new(200, 300));
    list.add_item(list_entry(1, 1));
    list.add_item(list_entry(1, 1));
    let x0 = list.position().upper_left.x;
    assert!(list.handle_key(Key::Right));
    assert_eq!(list.position().upper_left.x, x0 - 220);
    assert!(list.handle_key(Key::Left));
    assert_eq!(list.position().upper_left.x, x0);
}

#[test]
fn boundary_keys_still_report_consumed() {
    let mut list = ListLayout::new(Size::new(200, 300));
    list.add_item(list_entry(1, 1));
    // At the only item, both directions are no-ops yet still consumed.
    assert!(list.handle_key(Key::Left));
    assert_eq!(list.selected, 0);
    assert!(list.handle_key(Key::Right));
    assert_eq!(list.selected, 0);
}

#[test]
fn empty_list_ignores_keys() {
    let mut list = ListLayout::new(Size::new(200, 300));
    assert!(list.handle_key(Key::Right));
    assert_eq!(list.selected, 0);
    assert_eq!(*list.position(), Position::new(Point::origin(), Size::new(0, 300)));
    assert!(list.handle_key(Key::Left));
    assert_eq!(list.selected, 0);
}

#[test]
fn list_item_shrinks_its_normal_subtree_recentered() {
    let mut entry = ListItem::new(frame_item(0, 0), frame_item(0, 0));
    entry.set_position(Position::new(Point::new(0, 0), Size::new(200, 300)));
    // The normal subtree takes the 75% rect re-centered in the slot; the
    // selected subtree takes the slot verbatim.
    assert_eq!(*entry.position(), Position::new(Point::new(25, 37), Size::new(150, 225)));
    assert_eq!(
        *entry.selected_item.position(),
        Position::new(Point::new(0, 0), Size::new(200, 300))
    );
}

#[test]
fn non_list_layouts_never_consume_keys() {
    let mut c = CenteredLayout::new(Position::new(Point::origin(), Size::new(10, 10)));
    assert!(!c.handle_key(Key::Right));
    let mut v = VCenteredLayout::new(Position::new(Point::origin(), Size::new(10, 10)));
    assert!(!v.handle_key(Key::Left));
    let mut b = VBoxLayout::new();
    assert!(!b.handle_key(Key::Right));
    let mut e = list_entry(1, 1);
    assert!(!e.handle_key(Key::Left));
}

#[test]
fn layout_node_stores_and_reports_rects() {
    let mut node = LayoutNode::List(ListLayout::new(Size::new(200, 300)));
    let rect = Position::new(Point::new(3, 4), Size::new(50, 60));
    node.set_position(rect);
    assert_eq!(*node.position(), rect);
}
