//! The content the kiosk shows: one fetched game per card, the factory
//! that turns a game into a list entry with its normal and selected
//! subtrees, and the builders that compose whole scenes.

use vstd::prelude::*;

use crate::geometry::{pos_center, Color, Point, Position, Size};
use crate::scene::{
    centered_add, centered_add_fits, centered_slot, item_set, item_set_fits, list_add,
    list_add_fits, list_item_set_fits, node_pos, node_set, node_set_fits, shrunk_rect,
    vbox_add_fits, vbox_prefix_fits, vbox_set_prefix, vbox_slot, vbox_y, vcentered_add,
    vcentered_add_fits, vcentered_child_fits, vcentered_prefix_fits, vcentered_set_prefix,
    vcentered_slot, CenteredLayout, ItemView, LayoutItem, LayoutNode, ListItem, ListItemView,
    ListLayout, NodeView, VBoxLayout, VCenteredLayout,
};
use crate::traversal::copy_bytes;
use crate::widgets::{aspect_height, Image, SourceView, Text, WidgetType, WidgetView};
use vstd::pervasive::arbitrary;

verus! {

broadcast use vstd::seq::group_seq_axioms, vstd::std_specs::vec::group_vec_axioms;

/// One card's fully fetched content: team names, a headline, and an
/// encoded thumbnail with its nominal dimensions.
pub struct GameModel {
    pub home_team: String,
    pub away_team: String,
    pub description: String,
    pub image: Vec<u8>,
    pub image_w: u32,
    pub image_h: u32,
}

/// The mathematical content of a `GameModel`.
#[verifier::ext_equal]
pub struct GameModelView {
    pub home_team: Seq<char>,
    pub away_team: Seq<char>,
    pub description: Seq<char>,
    pub image: Seq<u8>,
    pub image_w: u32,
    pub image_h: u32,
}

impl View for GameModel {
    type V = GameModelView;

    open spec fn view(&self) -> GameModelView {
        GameModelView {
            home_team: self.home_team@,
            away_team: self.away_team@,
            description: self.description@,
            image: self.image@,
            image_w: self.image_w,
            image_h: self.image_h,
        }
    }
}

/// The PNG re-encoding of a JPEG buffer: the decoded picture re-encoded as
/// PNG, or the empty buffer where the bytes do not decode and where the
/// re-encoding itself fails.
pub uninterp spec fn png_recode(jpeg: Seq<u8>) -> Seq<u8>;

/// Relies on `image::load_from_memory_with_format` and
/// `image::DynamicImage::write_to`: the JPEG decode and the PNG encode both
/// compute from the buffer's content alone, so their composition is a
/// function of the bytes. Any failure of either call yields the empty
/// buffer.
#[verifier::external_body]
fn recode_jpeg_to_png(bytes: &Vec<u8>) -> (r: Vec<u8>)
    ensures
        r@ == png_recode(bytes@),
{
    match image::load_from_memory_with_format(bytes.as_slice(), image::ImageFormat::Jpeg) {
        Ok(decoded) => {
            let mut cursor = std::io::Cursor::new(Vec::new());
            match decoded.write_to(&mut cursor, image::ImageFormat::Png) {
                Ok(()) => cursor.into_inner(),
                Err(_) => Vec::new(),
            }
        },
        Err(_) => Vec::new(),
    }
}

impl GameModel {
    /// A card's content from plain values. The thumbnail arrives as JPEG
    /// bytes and is stored re-encoded as PNG; bytes that do not decode are
    /// stored as an empty buffer, which the render fallback later paints
    /// gray.
    pub fn new(
        home_team: String,
        away_team: String,
        description: String,
        jpeg: Vec<u8>,
        image_w: u32,
        image_h: u32,
    ) -> (m: GameModel)
        ensures
            m@ == (GameModelView {
                home_team: home_team@,
                away_team: away_team@,
                description: description@,
                image: png_recode(jpeg@),
                image_w,
                image_h,
            }),
    {
        let image = recode_jpeg_to_png(&jpeg);
        GameModel { home_team, away_team, description, image, image_w, image_h }
    }
}

/// The URL of the schedule feed the viewer shows. The date string is not
/// yet folded into the query: every date maps to the one fixed feed.
pub fn make_url_for_date(_date: String) -> (url: String)
    ensures
        url@ == "http://statsapi.mlb.com/api/v1/schedule?hydrate=game(content(editorial(recap))),decisions&date=2020-09-01&sportId=1"@,
{
    "http://statsapi.mlb.com/api/v1/schedule?hydrate=game(content(editorial(recap))),decisions&date=2020-09-01&sportId=1".to_owned()
}

/// A rectangle from plain coordinates; shorthand for the card layouts.
pub open spec fn rect_at(x: int, y: int, w: int, h: int) -> Position {
    Position { upper_left: Point { x: x as i32, y: y as i32 }, size: Size { w: w as u32, h: h as u32 } }
}

/// A white text widget, as the cards use them.
pub open spec fn white_text(content: Seq<char>, size: u32, pos: Position) -> ItemView {
    ItemView::Widget(WidgetView::Text { content, size, pos, color: Color { r: 255, g: 255, b: 255 } })
}

/// An aspect-preserving image widget over an in-memory buffer.
pub open spec fn bytes_image(image: Seq<u8>, pos: Position) -> ItemView {
    ItemView::Widget(WidgetView::Image { source: SourceView::Bytes(image), pos, preserve_aspect_w: true })
}

/// The subtree a card shows while it is not selected: its thumbnail alone,
/// stretched to the card's width at 16:9 and vertically centered in the
/// 200 x 300 card.
pub open spec fn card_view(image: Seq<u8>) -> ItemView {
    ItemView::Node(NodeView::VCentered {
        position: rect_at(0, 0, 200, 300),
        children: seq![
            ItemView::Node(NodeView::VBox {
                position: rect_at(0, 150, 200, 113),
                children: seq![bytes_image(image, rect_at(0, 0, 200, 113))],
            })
        ],
    })
}

/// The subtree a card shows while it is selected: the two team names with
/// a "VS" between them, the thumbnail, and the headline, stacked in a
/// vertical box that sits centered in the 200 x 300 card.
pub open spec fn selected_card_view(
    home_team: Seq<char>,
    away_team: Seq<char>,
    description: Seq<char>,
    image: Seq<u8>,
) -> ItemView {
    ItemView::Node(NodeView::VCentered {
        position: rect_at(0, 0, 200, 300),
        children: seq![
            ItemView::Node(NodeView::VBox {
                position: rect_at(0, 100, 200, 213),
                children: seq![
                    white_text(home_team, 18, rect_at(0, 0, 200, 30)),
                    white_text("VS"@, 12, rect_at(0, 30, 200, 10)),
                    white_text(away_team, 18, rect_at(0, 40, 200, 30)),
                    bytes_image(image, rect_at(0, 70, 200, 113)),
                    white_text(description, 12, rect_at(0, 183, 200, 30))
                ],
            })
        ],
    })
}

/// Both subtrees of one card, as `ListLayout::add_item` receives them.
pub open spec fn card_pair_view(m: GameModelView) -> ListItemView {
    ListItemView {
        normal: card_view(m.image),
        selected: selected_card_view(m.home_team, m.away_team, m.description, m.image),
    }
}

/// Builds the list entries the scrolling list shows, one per game.
pub struct GameItemFactory;

impl GameItemFactory {
    /// The list entry for one game: the bare-thumbnail subtree for its
    /// normal state and the full-detail subtree for its selected state.
    pub fn make(model: GameModel) -> (li: ListItem)
        ensures
            li@ == card_pair_view(model@),
    {
        let normal = GameItemFactory::make_item(&model);
        let selected = GameItemFactory::make_selected_item(&model);
        ListItem::new(normal, selected)
    }

    /// The subtree shown while the card is not selected: the thumbnail in
    /// a vertical box, vertically centered in a 200 x 300 card.
    pub fn make_item(model: &GameModel) -> (item: LayoutItem)
        ensures
            item@ == card_view(model.image@),
    {
        let thumbnail = Image::from_bytes(
            copy_bytes(&model.image),
            Position {
                upper_left: Point { x: 0, y: 0 },
                size: Size { w: model.image_w, h: model.image_h },
            },
        );

        let mut vb_layout = VBoxLayout::new();
        let child = LayoutItem::Widget(WidgetType::Image(thumbnail));
        proof {
            reveal_with_fuel(item_set_fits, 2);
            reveal_with_fuel(node_set_fits, 2);
            reveal_with_fuel(item_set, 2);
            reveal_with_fuel(node_set, 2);
            reveal_with_fuel(vbox_prefix_fits, 3);
            reveal_with_fuel(vbox_y, 3);
            assert(vbox_add_fits(vb_layout@, child@));
        }
        vb_layout.add_child(child);
        proof {
            reveal_with_fuel(item_set, 2);
            reveal_with_fuel(node_set, 2);
            reveal_with_fuel(vbox_set_prefix, 3);
            reveal_with_fuel(vbox_y, 3);
            let target = NodeView::VBox {
                position: rect_at(0, 0, 0, 0),
                children: seq![
                    ItemView::Widget(WidgetView::Image {
                        source: SourceView::Bytes(model.image@),
                        pos: rect_at(0, 0, 0, 0),
                        preserve_aspect_w: true,
                    })
                ],
            };
            assert(vb_layout@->VBox_children =~~= target->VBox_children);
            assert(vb_layout@ =~~= target);
        }

        let mut vc_layout = VCenteredLayout::new(rect_200_300());
        let inner = LayoutItem::Layout(Box::new(LayoutNode::VBox(vb_layout)));
        proof {
            reveal_with_fuel(item_set_fits, 2);
            reveal_with_fuel(node_set_fits, 2);
            reveal_with_fuel(item_set, 2);
            reveal_with_fuel(node_set, 2);
            reveal_with_fuel(vbox_prefix_fits, 3);
            reveal_with_fuel(vbox_y, 3);
            assert(vcentered_add_fits(vc_layout@, inner@));
        }
        vc_layout.add_child(inner);

        let item = LayoutItem::Layout(Box::new(LayoutNode::VCentered(vc_layout)));
        proof {
            reveal_with_fuel(item_set, 2);
            reveal_with_fuel(node_set, 2);
            reveal_with_fuel(vbox_set_prefix, 3);
            reveal_with_fuel(vbox_y, 3);
            reveal_with_fuel(vcentered_set_prefix, 3);
            assert(item@ =~~= card_view(model.image@));
        }
        item
    }

    /// The subtree shown while the card is selected: team names, "VS",
    /// thumbnail and headline stacked in a vertical box, vertically
    /// centered in a 200 x 300 card.
    pub fn make_selected_item(model: &GameModel) -> (item: LayoutItem)
        ensures
            item@ == selected_card_view(
                model.home_team@,
                model.away_team@,
                model.description@,
                model.image@,
            ),
    {
        let white = Color { r: 255, g: 255, b: 255 };
        let home_team = Text {
            content: model.home_team.clone(),
            size: 18,
            pos: Position { upper_left: Point { x: 0, y: 0 }, size: Size { w: 0, h: 30 } },
            color: white,
        };
        let vs = Text {
            content: "VS".to_owned(),
            size: 12,
            pos: Position { upper_left: Point { x: 0, y: 0 }, size: Size { w: 0, h: 10 } },
            color: white,
        };
        let away_team = Text {
            content: model.away_team.clone(),
            size: 18,
            pos: Position { upper_left: Point { x: 0, y: 0 }, size: Size { w: 0, h: 30 } },
            color: white,
        };
        let thumbnail = Image::from_bytes(
            copy_bytes(&model.image),
            Position {
                upper_left: Point { x: 0, y: 0 },
                size: Size { w: model.image_w, h: model.image_h },
            },
        );
        let desc = Text {
            content: model.description.clone(),
            size: 12,
            pos: Position { upper_left: Point { x: 0, y: 0 }, size: Size { w: 0, h: 30 } },
            color: white,
        };

        let ghost home = model.home_team@;
        let ghost away = model.away_team@;
        let ghost headline = model.description@;
        let ghost image = model.image@;

        let mut vb_layout = VBoxLayout::new();

        let child = LayoutItem::Widget(WidgetType::Text(home_team));
        proof {
            reveal_with_fuel(item_set_fits, 2);
            reveal_with_fuel(node_set_fits, 2);
            reveal_with_fuel(item_set, 2);
            reveal_with_fuel(node_set, 2);
            reveal_with_fuel(vbox_prefix_fits, 3);
            reveal_with_fuel(vbox_y, 3);
            assert(vbox_add_fits(vb_layout@, child@));
        }
        vb_layout.add_child(child);
        proof {
            reveal_with_fuel(item_set, 2);
            reveal_with_fuel(node_set, 2);
            reveal_with_fuel(vbox_set_prefix, 3);
            reveal_with_fuel(vbox_y, 3);
            let target = NodeView::VBox {
                position: rect_at(0, 0, 0, 30),
                children: seq![white_text(home, 18, rect_at(0, 0, 0, 30))],
            };
            assert(vb_layout@->VBox_children =~~= target->VBox_children);
            assert(vb_layout@ =~~= target);
        }

        let child = LayoutItem::Widget(WidgetType::Text(vs));
        proof {
            reveal_with_fuel(item_set_fits, 2);
            reveal_with_fuel(node_set_fits, 2);
            reveal_with_fuel(item_set, 2);
            reveal_with_fuel(node_set, 2);
            reveal_with_fuel(vbox_prefix_fits, 4);
            reveal_with_fuel(vbox_y, 4);
            assert(vbox_add_fits(vb_layout@, child@));
        }
        vb_layout.add_child(child);
        proof {
            reveal_with_fuel(item_set, 2);
            reveal_with_fuel(node_set, 2);
            reveal_with_fuel(vbox_set_prefix, 4);
            reveal_with_fuel(vbox_y, 4);
            let target = NodeView::VBox {
                position: rect_at(0, 0, 0, 40),
                children: seq![
                    white_text(home, 18, rect_at(0, 0, 0, 30)),
                    white_text("VS"@, 12, rect_at(0, 30, 0, 10))
                ],
            };
            assert(vb_layout@->VBox_children =~~= target->VBox_children);
            assert(vb_layout@ =~~= target);
        }

        let child = LayoutItem::Widget(WidgetType::Text(away_team));
        proof {
            reveal_with_fuel(item_set_fits, 2);
            reveal_with_fuel(node_set_fits, 2);
            reveal_with_fuel(item_set, 2);
            reveal_with_fuel(node_set, 2);
            reveal_with_fuel(vbox_prefix_fits, 5);
            reveal_with_fuel(vbox_y, 5);
            assert(vbox_add_fits(vb_layout@, child@));
        }
        vb_layout.add_child(child);
        proof {
            reveal_with_fuel(item_set, 2);
            reveal_with_fuel(node_set, 2);
            reveal_with_fuel(vbox_set_prefix, 5);
            reveal_with_fuel(vbox_y, 5);
            let target = NodeView::VBox {
                position: rect_at(0, 0, 0, 70),
                children: seq![
                    white_text(home, 18, rect_at(0, 0, 0, 30)),
                    white_text("VS"@, 12, rect_at(0, 30, 0, 10)),
                    white_text(away, 18, rect_at(0, 40, 0, 30))
                ],
            };
            assert(vb_layout@->VBox_children =~~= target->VBox_children);
            assert(vb_layout@ =~~= target);
        }

        let child = LayoutItem::Widget(WidgetType::Image(thumbnail));
        proof {
            reveal_with_fuel(item_set_fits, 2);
            reveal_with_fuel(node_set_fits, 2);
            reveal_with_fuel(item_set, 2);
            reveal_with_fuel(node_set, 2);
            reveal_with_fuel(vbox_prefix_fits, 6);
            reveal_with_fuel(vbox_y, 6);
            assert(vbox_add_fits(vb_layout@, child@));
        }
        vb_layout.add_child(child);
        proof {
            reveal_with_fuel(item_set, 2);
            reveal_with_fuel(node_set, 2);
            reveal_with_fuel(vbox_set_prefix, 6);
            reveal_with_fuel(vbox_y, 6);
            let target = NodeView::VBox {
                position: rect_at(0, 0, 0, 70),
                children: seq![
                    white_text(home, 18, rect_at(0, 0, 0, 30)),
                    white_text("VS"@, 12, rect_at(0, 30, 0, 10)),
                    white_text(away, 18, rect_at(0, 40, 0, 30)),
                    bytes_image(image, rect_at(0, 70, 0, 0))
                ],
            };
            assert(vb_layout@->VBox_children =~~= target->VBox_children);
            assert(vb_layout@ =~~= target);
        }

        let child = LayoutItem::Widget(WidgetType::Text(desc));
        proof {
            reveal_with_fuel(item_set_fits, 2);
            reveal_with_fuel(node_set_fits, 2);
            reveal_with_fuel(item_set, 2);
            reveal_with_fuel(node_set, 2);
            reveal_with_fuel(vbox_prefix_fits, 7);
            reveal_with_fuel(vbox_y, 7);
            assert(vbox_add_fits(vb_layout@, child@));
        }
        vb_layout.add_child(child);
        proof {
            reveal_with_fuel(item_set, 2);
            reveal_with_fuel(node_set, 2);
            reveal_with_fuel(vbox_set_prefix, 7);
            reveal_with_fuel(vbox_y, 7);
            let target = NodeView::VBox {
                position: rect_at(0, 0, 0, 100),
                children: seq![
                    white_text(home, 18, rect_at(0, 0, 0, 30)),
                    white_text("VS"@, 12, rect_at(0, 30, 0, 10)),
                    white_text(away, 18, rect_at(0, 40, 0, 30)),
                    bytes_image(image, rect_at(0, 70, 0, 0)),
                    white_text(headline, 12, rect_at(0, 70, 0, 30))
                ],
            };
            assert(vb_layout@->VBox_children =~~= target->VBox_children);
            assert(vb_layout@ =~~= target);
        }

        let mut vc_layout = VCenteredLayout::new(rect_200_300());
        let inner = LayoutItem::Layout(Box::new(LayoutNode::VBox(vb_layout)));
        proof {
            lemma_center_selected_stack(home, away, headline, image);
            assert(inner@ == ItemView::Node(selected_stack_view(home, away, headline, image)));
        }
        vc_layout.add_child(inner);

        let item = LayoutItem::Layout(Box::new(LayoutNode::VCentered(vc_layout)));
        proof {
            reveal_with_fuel(vcentered_set_prefix, 3);
            assert(item@ =~~= selected_card_view(home, away, headline, image));
        }
        item
    }
}

/// The selected-card stack as it stands right before it is centered in the
/// card: the five rows at the running heights a zero-width box gave them.
pub open spec fn selected_stack_view(
    home: Seq<char>,
    away: Seq<char>,
    headline: Seq<char>,
    image: Seq<u8>,
) -> NodeView {
    NodeView::VBox {
        position: rect_at(0, 0, 0, 100),
        children: seq![
            white_text(home, 18, rect_at(0, 0, 0, 30)),
            white_text("VS"@, 12, rect_at(0, 30, 0, 10)),
            white_text(away, 18, rect_at(0, 40, 0, 30)),
            bytes_image(image, rect_at(0, 70, 0, 0)),
            white_text(headline, 12, rect_at(0, 70, 0, 30))
        ],
    }
}

/// Centering the selected stack in the 200 x 300 card is in range, and
/// restacks the rows at the card's full width: the image row takes its
/// 16:9 height there, so the stack ends up 213 tall at (0, 100).
proof fn lemma_center_selected_stack(
    home: Seq<char>,
    away: Seq<char>,
    headline: Seq<char>,
    image: Seq<u8>,
)
    ensures
        ({
            let stack = ItemView::Node(selected_stack_view(home, away, headline, image));
            let vc0 = NodeView::VCentered {
                position: rect_at(0, 0, 200, 300),
                children: Seq::<ItemView>::empty(),
            };
            &&& vcentered_add_fits(vc0, stack)
            &&& ItemView::Node(vcentered_add(vc0, stack)) == selected_card_view(
                home,
                away,
                headline,
                image,
            )
        }),
{
    reveal_with_fuel(vbox_prefix_fits, 7);
    reveal_with_fuel(item_set_fits, 2);
    reveal_with_fuel(node_set_fits, 2);
    let stack = ItemView::Node(selected_stack_view(home, away, headline, image));
    let frame = rect_at(0, 0, 200, 300);
    let c = selected_stack_view(home, away, headline, image)->VBox_children;
    let slot = vcentered_slot(frame, rect_at(0, 0, 0, 100));
    assert(slot == rect_at(0, 100, 200, 100));

    let home_row = white_text(home, 18, rect_at(0, 0, 200, 30));
    let vs_row = white_text("VS"@, 12, rect_at(0, 30, 200, 10));
    let away_row = white_text(away, 18, rect_at(0, 40, 200, 30));
    let image_row = bytes_image(image, rect_at(0, 70, 200, 113));
    let headline_row = white_text(headline, 12, rect_at(0, 183, 200, 30));

    assert(vbox_y(c, 200, 0) == 0);
    assert(item_set(c[0], vbox_slot(c[0], 200, 0)) == home_row);
    assert(vbox_y(c, 200, 1) == 30);
    assert(item_set(c[1], vbox_slot(c[1], 200, 30)) == vs_row);
    assert(vbox_y(c, 200, 2) == 40);
    assert(item_set(c[2], vbox_slot(c[2], 200, 40)) == away_row);
    assert(vbox_y(c, 200, 3) == 70);
    assert(aspect_height(200) == 113);
    assert(item_set(c[3], vbox_slot(c[3], 200, 70)) == image_row);
    assert(vbox_y(c, 200, 4) == 183);
    assert(item_set(c[4], vbox_slot(c[4], 200, 183)) == headline_row);
    assert(vbox_y(c, 200, 5) == 213);

    assert(vbox_set_prefix(c, 200, 0) =~~= Seq::<ItemView>::empty());
    assert(vbox_set_prefix(c, 200, 1) =~~= seq![home_row]);
    assert(vbox_set_prefix(c, 200, 2) =~~= seq![home_row, vs_row]);
    assert(vbox_set_prefix(c, 200, 3) =~~= seq![home_row, vs_row, away_row]);
    assert(vbox_set_prefix(c, 200, 4) =~~= seq![home_row, vs_row, away_row, image_row]);
    assert(vbox_set_prefix(c, 200, 5) =~~= seq![home_row, vs_row, away_row, image_row, headline_row]);

    assert(vbox_prefix_fits(c, 200, 0));
    assert(vbox_prefix_fits(c, 200, 1));
    assert(vbox_prefix_fits(c, 200, 2));
    assert(vbox_prefix_fits(c, 200, 3));
    assert(vbox_prefix_fits(c, 200, 4));
    assert(vbox_prefix_fits(c, 200, 5));

    assert(item_set(stack, slot) == ItemView::Node(NodeView::VBox {
        position: rect_at(0, 100, 200, 213),
        children: seq![home_row, vs_row, away_row, image_row, headline_row],
    }));
    assert(ItemView::Node(vcentered_add(
        NodeView::VCentered { position: frame, children: Seq::<ItemView>::empty() },
        stack,
    )) =~~= selected_card_view(home, away, headline, image));
}

/// The 200 x 300 card rectangle at the origin.
fn rect_200_300() -> (r: Position)
    ensures
        r == rect_at(0, 0, 200, 300),
{
    Position { upper_left: Point { x: 0, y: 0 }, size: Size { w: 200, h: 300 } }
}

// ---------------------------------------------------------------------
// Whole scenes.
// ---------------------------------------------------------------------

/// The splash image as a scene hands it to a centering layout: the whole
/// viewport requested, before aspect preservation trims the height.
pub open spec fn splash_view(path: Seq<char>, frame: Position) -> ItemView {
    ItemView::Widget(WidgetView::Image { source: SourceView::Path(path), pos: frame, preserve_aspect_w: true })
}

/// The scene shown while the games are being fetched: the splash image and
/// a "Loading..." banner, both centered in the viewport. The splash keeps
/// the viewport's width and takes the 16:9 height for it.
pub open spec fn loading_scene_view(viewport: Size, path: Seq<char>) -> ItemView {
    let frame = Position { upper_left: Point { x: 0, y: 0 }, size: viewport };
    let center = pos_center(frame);
    ItemView::Node(NodeView::Centered {
        position: frame,
        center,
        children: seq![
            ItemView::Widget(WidgetView::Image {
                source: SourceView::Path(path),
                pos: Position {
                    upper_left: Point { x: 0, y: 0 },
                    size: Size { w: viewport.w, h: aspect_height(viewport.w as int) as u32 },
                },
                preserve_aspect_w: true,
            }),
            ItemView::Widget(WidgetView::Text {
                content: "Loading..."@,
                size: 32,
                pos: Position {
                    upper_left: Point { x: (center.x - 100) as i32, y: (center.y - 25) as i32 },
                    size: Size { w: 200, h: 50 },
                },
                color: Color { r: 0, g: 0, b: 255 },
            })
        ],
    })
}

/// Builds the loading scene: the splash image at the given path behind a
/// "Loading..." banner, centered in a viewport-sized layout.
pub fn make_loading_scene(viewport: Size, splash_path: String) -> (scene: LayoutItem)
    ensures
        scene@ == loading_scene_view(viewport, splash_path@),
{
    let frame = Position { upper_left: Point { x: 0, y: 0 }, size: viewport };
    let splash = Image::new(splash_path, frame);
    let loading_message = Text {
        content: "Loading...".to_owned(),
        size: 32,
        pos: Position { upper_left: Point { x: 0, y: 0 }, size: Size { w: 200, h: 50 } },
        color: Color { r: 0, g: 0, b: 255 },
    };

    let mut c_layout = CenteredLayout::new(frame);
    let child = LayoutItem::Widget(WidgetType::Image(splash));
    proof {
        assert(centered_add_fits(c_layout@, child@));
    }
    c_layout.add_child(child);
    let child = LayoutItem::Widget(WidgetType::Text(loading_message));
    proof {
        assert(centered_add_fits(c_layout@, child@));
    }
    c_layout.add_child(child);

    let scene = LayoutItem::Layout(Box::new(LayoutNode::Centered(c_layout)));
    proof {
        let target = loading_scene_view(viewport, splash_path@);
        let center = pos_center(frame);
        assert(centered_slot(center, frame) == frame);
        assert(scene@->Node_0->Centered_children =~~= target->Node_0->Centered_children);
        assert(scene@ =~~= target);
    }
    scene
}

/// The empty scrolling list, sized for the 200 x 300 cards with their
/// fixed spacing of 20 units.
pub open spec fn empty_list_view() -> NodeView {
    NodeView::List {
        position: rect_at(0, 0, 0, 300),
        item_size: Size { w: 200, h: 300 },
        spacing: 20u32,
        selected: 0int,
        children: Seq::<ListItemView>::empty(),
    }
}

/// The scrolling list filled with the first `n` cards, in order.
pub open spec fn list_with_cards(models: Seq<GameModelView>, n: int) -> NodeView
    decreases n,
{
    if n <= 0 || models.len() < n {
        empty_list_view()
    } else {
        list_add(list_with_cards(models, n - 1), card_pair_view(models[n - 1]))
    }
}

/// The content of each fetched game, in order.
pub open spec fn models_view(games: Seq<GameModel>) -> Seq<GameModelView> {
    Seq::new(
        games.len(),
        |i: int|
            if 0 <= i < games.len() {
                games[i]@
            } else {
                arbitrary()
            },
    )
}

/// The full kiosk scene: the splash image behind a vertically centered
/// wrapper holding the card list. The list is first shifted right so the
/// selected card's slot sits at the viewport's horizontal center.
pub open spec fn loaded_scene_view(viewport: Size, models: Seq<GameModelView>, path: Seq<char>) -> ItemView {
    let frame = Position { upper_left: Point { x: 0, y: 0 }, size: viewport };
    let list0 = list_with_cards(models, models.len() as int);
    let shifted = node_set(
        list0,
        Position {
            upper_left: Point { x: (pos_center(frame).x - 100) as i32, y: 0 },
            size: node_pos(list0).size,
        },
    );
    let wrapper = vcentered_add(
        NodeView::VCentered { position: frame, children: Seq::<ItemView>::empty() },
        ItemView::Node(shifted),
    );
    let canvas = NodeView::Centered {
        position: frame,
        center: pos_center(frame),
        children: Seq::<ItemView>::empty(),
    };
    let with_splash = centered_add(canvas, splash_view(path, frame));
    ItemView::Node(centered_add(with_splash, ItemView::Node(wrapper)))
}

/// The filled list keeps the card geometry: after `n` cards it sits at the
/// origin, `220 n` wide and 300 tall, with the first card still selected.
pub proof fn lemma_list_with_cards_shape(models: Seq<GameModelView>, n: int)
    requires
        0 <= n <= models.len(),
        220 * models.len() <= u32::MAX,
    ensures
        list_with_cards(models, n) matches NodeView::List { position, item_size, spacing, selected, children } && {
            &&& position == rect_at(0, 0, 220 * n, 300)
            &&& item_size == (Size { w: 200, h: 300 })
            &&& spacing == 20
            &&& selected == 0
            &&& children.len() == n
        },
    decreases n,
{
    if n > 0 {
        lemma_list_with_cards_shape(models, n - 1);
    }
}

/// Placing one card pair into a slot whose corner sits at `(x, 0)` stays
/// in range whenever `x + 245` does: the deepest corner the card's
/// subtrees reach is 100 to the right of the slot, and re-centering the
/// shrunk rectangle reaches 25 more.
proof fn lemma_card_pair_set_fits(m: GameModelView, x: int)
    requires
        0 <= x,
        x + 245 <= i32::MAX,
    ensures
        list_item_set_fits(
            card_pair_view(m),
            Position { upper_left: Point { x: x as i32, y: 0 }, size: Size { w: 200, h: 300 } },
        ),
{
    reveal_with_fuel(vbox_prefix_fits, 7);
    reveal_with_fuel(vbox_y, 7);
    reveal_with_fuel(vcentered_prefix_fits, 3);
    reveal_with_fuel(item_set_fits, 3);
    reveal_with_fuel(node_set_fits, 3);
    reveal_with_fuel(item_set, 3);
    reveal_with_fuel(node_set, 3);
    let slot = Position { upper_left: Point { x: x as i32, y: 0 }, size: Size { w: 200, h: 300 } };
    let shrunk = shrunk_rect(slot);
    assert(shrunk == Position {
        upper_left: Point { x: (x + 25) as i32, y: 37 },
        size: Size { w: 150, h: 225 },
    });
    assert(aspect_height(150) == 84);
    assert(aspect_height(200) == 113);

    let thumb = seq![bytes_image(m.image, rect_at(0, 0, 200, 113))];
    let thumb_box = ItemView::Node(NodeView::VBox { position: rect_at(0, 150, 200, 113), children: thumb });
    assert(vcentered_child_fits(shrunk, rect_at(0, 150, 200, 113)));
    assert(vcentered_slot(shrunk, rect_at(0, 150, 200, 113)) == rect_at(0, 93, 150, 113));
    assert(vbox_y(thumb, 150, 1) == 84);
    assert(vbox_prefix_fits(thumb, 150, 1));
    assert(item_set_fits(thumb_box, rect_at(0, 93, 150, 113)));
    assert(vcentered_prefix_fits(seq![thumb_box], shrunk, 1));
    assert(item_set_fits(card_view(m.image), shrunk));

    let rows = seq![
        white_text(m.home_team, 18, rect_at(0, 0, 200, 30)),
        white_text("VS"@, 12, rect_at(0, 30, 200, 10)),
        white_text(m.away_team, 18, rect_at(0, 40, 200, 30)),
        bytes_image(m.image, rect_at(0, 70, 200, 113)),
        white_text(m.description, 12, rect_at(0, 183, 200, 30)),
    ];
    let row_box = ItemView::Node(NodeView::VBox { position: rect_at(0, 100, 200, 213), children: rows });
    assert(vcentered_child_fits(slot, rect_at(0, 100, 200, 213)));
    assert(vcentered_slot(slot, rect_at(0, 100, 200, 213)) == rect_at(0, 44, 200, 213));
    assert(vbox_y(rows, 200, 1) == 30);
    assert(vbox_y(rows, 200, 2) == 40);
    assert(vbox_y(rows, 200, 3) == 70);
    assert(vbox_y(rows, 200, 4) == 183);
    assert(vbox_y(rows, 200, 5) == 213);
    assert(vbox_prefix_fits(rows, 200, 5));
    assert(item_set_fits(row_box, rect_at(0, 44, 200, 213)));
    assert(vcentered_prefix_fits(seq![row_box], slot, 1));
    assert(item_set_fits(
        selected_card_view(m.home_team, m.away_team, m.description, m.image),
        slot,
    ));
}

/// Adding the next card to the filled list stays in range while the list,
/// fully grown, still fits the coordinate space.
pub proof fn lemma_card_add_fits(models: Seq<GameModelView>, n: int)
    requires
        0 <= n < models.len(),
        220 * models.len() + 20 <= i32::MAX,
    ensures
        list_add_fits(list_with_cards(models, n), card_pair_view(models[n])),
{
    lemma_list_with_cards_shape(models, n);
    lemma_card_pair_set_fits(models[n], 220 * n + 20);
}

/// Builds the kiosk's main scene from the fetched games: a scrolling list
/// of cards, one per game, vertically centered over the splash image.
pub fn make_loaded_scene(viewport: Size, games: Vec<GameModel>, splash_path: String) -> (scene: LayoutItem)
    requires
        220 * games@.len() + 20 <= i32::MAX,
    ensures
        scene@ == loaded_scene_view(viewport, models_view(games@), splash_path@),
{
    let frame = Position { upper_left: Point { x: 0, y: 0 }, size: viewport };
    let splash = Image::new(splash_path, frame);
    let ghost models = models_view(games@);

    let mut list_layout = ListLayout::new(Size { w: 200, h: 300 });
    let mut remaining = games;
    let mut i: usize = 0;
    proof {
        assert(list_layout@ =~~= list_with_cards(models, 0));
    }
    while remaining.len() > 0
        invariant
            models == models_view(games@),
            220 * models.len() + 20 <= i32::MAX,
            i as int + remaining@.len() == models.len(),
            forall|j: int| 0 <= j < remaining@.len() ==> remaining@[j] == games@[i + j],
            list_layout@ == list_with_cards(models, i as int),
        decreases remaining@.len(),
    {
        let model = remaining.remove(0);
        proof {
            assert(model@ == models[i as int]);
            lemma_card_add_fits(models, i as int);
        }
        let entry = GameItemFactory::make(model);
        list_layout.add_item(entry);
        i = i + 1;
    }
    proof {
        lemma_list_with_cards_shape(models, models.len() as int);
    }

    let mut v_layout = VCenteredLayout::new(frame);

    let mut list_pos = *list_layout.position();
    let dx = v_layout.position().center().x - (list_layout.item_size.w / 2) as i32;
    list_pos.upper_left.translate(dx, 0);
    list_layout.set_position(list_pos);
    let list_item = LayoutItem::Layout(Box::new(LayoutNode::List(list_layout)));
    proof {
        reveal_with_fuel(item_set_fits, 2);
        reveal_with_fuel(node_set_fits, 2);
        assert(vcentered_add_fits(v_layout@, list_item@));
    }
    v_layout.add_child(list_item);

    let mut canvas_layout = CenteredLayout::new(frame);
    let child = LayoutItem::Widget(WidgetType::Image(splash));
    proof {
        assert(centered_add_fits(canvas_layout@, child@));
    }
    canvas_layout.add_child(child);
    let child = LayoutItem::Layout(Box::new(LayoutNode::VCentered(v_layout)));
    proof {
        reveal_with_fuel(vcentered_prefix_fits, 3);
        reveal_with_fuel(item_set_fits, 3);
        reveal_with_fuel(node_set_fits, 3);
        assert(centered_add_fits(canvas_layout@, child@));
    }
    canvas_layout.add_child(child);

    let scene = LayoutItem::Layout(Box::new(LayoutNode::Centered(canvas_layout)));
    proof {
        let target = loaded_scene_view(viewport, models, splash_path@);
        assert(centered_slot(pos_center(frame), frame) == frame);
        assert(scene@->Node_0->Centered_children =~~= target->Node_0->Centered_children);
        assert(scene@ =~~= target);
    }
    scene
}

} // verus!
