use kiosk_ui::content::{make_loaded_scene, make_loading_scene, make_url_for_date, GameItemFactory, GameModel};
use kiosk_ui::geometry::{Point, Position, Size};
use kiosk_ui::scene::{LayoutItem, LayoutNode};
use kiosk_ui::widgets::{ImageSource, WidgetType};

fn tiny_jpeg() -> Vec<u8> {
    let img = image::RgbImage::from_pixel(8, 8, image::Rgb([10, 20, 30]));
    let mut bytes: Vec<u8> = Vec::new();
    image::DynamicImage::ImageRgb8(img)
        .write_to(&mut std::io::Cursor::new(&mut bytes), image::ImageFormat::Jpeg)
        .unwrap();
    bytes
}

fn game(home: &str, away: &str, desc: &str) -> GameModel {
    GameModel::new(
        home.to_owned(),
        away.to_owned(),
        desc.to_owned(),
        tiny_jpeg(),
        215,
        121,
    )
}

#[test]
fn url_is_the_fixed_schedule_feed() {
    assert_eq!(
        make_url_for_date(String::from("2020-09-01")),
        "http://statsapi.mlb.com/api/v1/schedule?hydrate=game(content(editorial(recap))),decisions&date=2020-09-01&sportId=1"
    );
}

#[test]
fn game_model_recodes_the_thumbnail_to_png() {
    let jpeg = tiny_jpeg();
    let model = GameModel::new(
        String::from("a"),
        String::from("b"),
        String::from("c"),
        jpeg.clone(),
        215,
        121,
    );
    // The stored buffer is a PNG, not the JPEG that came in.
    assert!(model.image.starts_with(&[0x89, b'P', b'N', b'G']));
    assert_ne!(model.image, jpeg);
    assert_eq!(model.home_team, "a");
    assert_eq!(model.away_team, "b");
    assert_eq!(model.description, "c");
    assert_eq!((model.image_w, model.image_h), (215, 121));
}

#[test]
fn undecodable_bytes_become_an_empty_buffer() {
    let model = GameModel::new(
        String::from("a"),
        String::from("b"),
        String::from("c"),
        vec![1, 2, 3, 4],
        215,
        121,
    );
    assert!(model.image.is_empty());
}

#[test]
fn card_normal_subtree_centers_the_thumbnail() {
    let item = GameItemFactory::make_item(&game("home", "away", "headline"));
    match item {
        LayoutItem::Layout(node) => match *node {
            LayoutNode::VCentered(vc) => {
                assert_eq!(*vc.position(), Position::new(Point::origin(), Size::new(200, 300)));
                assert_eq!(vc.children.len(), 1);
                match &vc.children[0] {
                    LayoutItem::Layout(inner) => match &**inner {
                        LayoutNode::VBox(vb) => {
                            // The box took the card's width, the 16:9
                            // thumbnail height, and sits centered.
                            assert_eq!(
                                *vb.position(),
                                Position::new(Point::new(0, 150), Size::new(200, 113))
                            );
                            assert_eq!(vb.children.len(), 1);
                            assert_eq!(
                                *vb.children[0].position(),
                                Position::new(Point::new(0, 0), Size::new(200, 113))
                            );
                        }
                        _ => panic!("expected the thumbnail box"),
                    },
                    _ => panic!("expected a layout child"),
                }
            }
            _ => panic!("expected the centering wrapper"),
        },
        _ => panic!("expected a layout"),
    }
}

#[test]
fn card_selected_subtree_stacks_five_rows() {
    let item = GameItemFactory::make_selected_item(&game("home", "away", "headline"));
    match item {
        LayoutItem::Layout(node) => match *node {
            LayoutNode::VCentered(vc) => match &vc.children[0] {
                LayoutItem::Layout(inner) => match &**inner {
                    LayoutNode::VBox(vb) => {
                        assert_eq!(
                            *vb.position(),
                            Position::new(Point::new(0, 100), Size::new(200, 213))
                        );
                        assert_eq!(vb.children.len(), 5);
                        let tops: Vec<i32> = vb
                            .children
                            .iter()
                            .map(|c| c.position().upper_left.y)
                            .collect();
                        assert_eq!(tops, vec![0, 30, 40, 70, 183]);
                        match &vb.children[0] {
                            LayoutItem::Widget(WidgetType::Text(t)) => {
                                assert_eq!(t.content, "home");
                                assert_eq!(t.size, 18);
                            }
                            _ => panic!("expected the home team row"),
                        }
                        match &vb.children[1] {
                            LayoutItem::Widget(WidgetType::Text(t)) => assert_eq!(t.content, "VS"),
                            _ => panic!("expected the VS row"),
                        }
                        assert!(matches!(
                            &vb.children[3],
                            LayoutItem::Widget(WidgetType::Image(_))
                        ));
                    }
                    _ => panic!("expected the row box"),
                },
                _ => panic!("expected a layout child"),
            },
            _ => panic!("expected the centering wrapper"),
        },
        _ => panic!("expected a layout"),
    }
}

#[test]
fn loading_scene_centers_splash_and_banner() {
    let scene = make_loading_scene(Size::new(960, 540), String::from("./images/background.png"));
    match scene {
        LayoutItem::Layout(node) => match *node {
            LayoutNode::Centered(c) => {
                assert_eq!(c.children.len(), 2);
                // The splash keeps the viewport width at the 16:9 height.
                match &c.children[0] {
                    LayoutItem::Widget(WidgetType::Image(img)) => {
                        assert_eq!(
                            *img.position(),
                            Position::new(Point::new(0, 0), Size::new(960, 540))
                        );
                        match &img.source {
                            ImageSource::Path(p) => assert_eq!(p, "./images/background.png"),
                            _ => panic!("expected a path source"),
                        }
                    }
                    _ => panic!("expected the splash"),
                }
                match &c.children[1] {
                    LayoutItem::Widget(WidgetType::Text(t)) => {
                        assert_eq!(t.content, "Loading...");
                        assert_eq!(
                            *t.position(),
                            Position::new(Point::new(380, 245), Size::new(200, 50))
                        );
                    }
                    _ => panic!("expected the banner"),
                }
            }
            _ => panic!("expected the canvas"),
        },
        _ => panic!("expected a layout"),
    }
}

#[test]
fn loaded_scene_centers_the_card_list() {
    let games = vec![game("h1", "a1", "d1"), game("h2", "a2", "d2")];
    let scene = make_loaded_scene(Size::new(960, 540), games, String::from("bg.png"));
    match scene {
        LayoutItem::Layout(node) => match *node {
            LayoutNode::Centered(canvas) => {
                assert_eq!(canvas.children.len(), 2);
                match &canvas.children[1] {
                    LayoutItem::Layout(wrapper) => match &**wrapper {
                        LayoutNode::VCentered(vc) => match &vc.children[0] {
                            LayoutItem::Layout(inner) => match &**inner {
                                LayoutNode::List(list) => {
                                    assert_eq!(list.children.len(), 2);
                                    assert_eq!(list.selected, 0);
                                    assert_eq!(list.item_size, Size::new(200, 300));
                                    // Shifted so the selected slot sits at
                                    // the horizontal center, then given the
                                    // full width, vertically centered.
                                    assert_eq!(
                                        *list.position(),
                                        Position::new(Point::new(380, 120), Size::new(960, 300))
                                    );
                                }
                                _ => panic!("expected the list"),
                            },
                            _ => panic!("expected a layout child"),
                        },
                        _ => panic!("expected the wrapper"),
                    },
                    _ => panic!("expected a layout child"),
                }
            }
            _ => panic!("expected the canvas"),
        },
        _ => panic!("expected a layout"),
    }
}

#[test]
fn loaded_scene_with_no_games_still_builds() {
    let scene = make_loaded_scene(Size::new(960, 540), Vec::new(), String::from("bg.png"));
    match scene {
        LayoutItem::Layout(node) => match *node {
            LayoutNode::Centered(canvas) => assert_eq!(canvas.children.len(), 2),
            _ => panic!("expected the canvas"),
        },
        _ => panic!("expected a layout"),
    }
}
