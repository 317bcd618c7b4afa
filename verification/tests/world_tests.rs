use widget_demo::color::Color;
use widget_demo::style::{AlignSelfKind, Dim, JustifyKind, PositionKind, Style};
use widget_demo::widgets::BannerWidgetConfig;
use widget_demo::world::{Marker, Tags, TextSection, UiWorld};

fn plain_style() -> Style {
    Style {
        position: PositionKind::Relative,
        left: Dim::Auto,
        top: Dim::Auto,
        right: Dim::Auto,
        bottom: Dim::Auto,
        width: Dim::Auto,
        height: Dim::Auto,
        align_self: AlignSelfKind::Auto,
        justify: JustifyKind::Default,
        background: None,
    }
}

#[test]
fn set_position_overwrites_and_clears() {
    let mut w = UiWorld::new();
    let style = Style {
        position: PositionKind::Relative,
        right: Dim::Px(5_000),
        bottom: Dim::Px(6_000),
        width: Dim::Px(42_000),
        ..plain_style()
    };
    let id = w.spawn_node(Tags::none(), Some(style), None, None);
    w.set_position(id, 100_000, 200_000);
    let s = w.styles[id].unwrap();
    assert_eq!(s.position, PositionKind::Absolute);
    assert_eq!(s.left, Dim::Px(100_000));
    assert_eq!(s.top, Dim::Px(200_000));
    // Any previously set right/bottom offsets are cleared.
    assert_eq!(s.right, Dim::Auto);
    assert_eq!(s.bottom, Dim::Auto);
    // Untouched attributes are kept.
    assert_eq!(s.width, Dim::Px(42_000));
}

#[test]
fn set_position_idempotent() {
    let mut w = UiWorld::new();
    let id = w.spawn_node(Tags::none(), Some(plain_style()), None, None);
    w.set_position(id, 123_456, -7_000);
    let once = w.styles.clone();
    w.set_position(id, 123_456, -7_000);
    assert_eq!(w.styles, once);
}

#[test]
fn set_position_without_style_is_a_noop() {
    let mut w = UiWorld::new();
    let id = w.spawn_node(Tags::none(), None, Some(TextSection::new(String::from("hi"))), None);
    w.set_position(id, 1_000, 2_000);
    assert_eq!(w.styles[id], None);
    assert_eq!(w.texts[id].as_ref().unwrap().content, "hi");
    // A missing node is ignored just as silently.
    w.set_position(99, 1_000, 2_000);
    assert_eq!(w.tags.len(), 1);
    assert_eq!(w.styles, vec![None]);
}

#[test]
fn font_command_keeps_content() {
    let mut w = UiWorld::new();
    let id = w.spawn_node(Tags::none(), None, Some(TextSection::new(String::from("hello"))), None);
    w.font(id, String::from("FiraSans-Bold.ttf"), 24_000, Color { r: 471, g: 278, b: 153 });
    let t = w.texts[id].as_ref().unwrap();
    assert_eq!(t.content, "hello");
    assert_eq!(t.font, "FiraSans-Bold.ttf");
    assert_eq!(t.font_size_milli, 24_000);
    assert_eq!(t.color, Color { r: 471, g: 278, b: 153 });
}

#[test]
fn font_command_without_text_is_a_noop() {
    let mut w = UiWorld::new();
    let id = w.spawn_node(Tags::none(), Some(plain_style()), None, None);
    w.font(id, String::from("FiraSans-Bold.ttf"), 24_000, Color { r: 0, g: 0, b: 0 });
    assert!(w.texts[id].is_none());
}

#[test]
fn update_fps_rewrites_readout_nodes() {
    let mut w = UiWorld::new();
    w.spawn_fps_widget();
    let other = w.spawn_node(
        Tags::none(),
        None,
        Some(TextSection::new(String::from("unrelated"))),
        None,
    );
    w.update_fps(Some(60_000));
    let t = w.texts[1].as_ref().unwrap();
    assert_eq!(t.content, "FPS:  60");
    assert_eq!(t.font, "FiraSans-Bold.ttf");
    assert_eq!(t.font_size_milli, 60_000);
    assert_eq!(t.color, Color { r: 0, g: 1000, b: 0 });
    assert_eq!(w.texts[other].as_ref().unwrap().content, "unrelated");

    w.update_fps(Some(45_000));
    assert_eq!(w.texts[1].as_ref().unwrap().content, "FPS:  45");
    assert_eq!(w.texts[1].as_ref().unwrap().color, Color { r: 1000, g: 1000, b: 0 });

    w.update_fps(Some(12_340));
    assert_eq!(w.texts[1].as_ref().unwrap().content, "FPS:  12");
    assert_eq!(w.texts[1].as_ref().unwrap().color, Color { r: 1000, g: 0, b: 0 });
}

#[test]
fn update_fps_without_reading_skips_the_frame() {
    let mut w = UiWorld::new();
    w.spawn_fps_widget();
    w.update_fps(Some(60_000));
    let before = w.texts[1].as_ref().unwrap().content.clone();
    w.update_fps(None);
    assert_eq!(w.texts[1].as_ref().unwrap().content, before);
}

#[test]
fn banner_widget_builder() {
    let mut w = UiWorld::new();
    let config = BannerWidgetConfig::new(String::from("Hi!"), String::from("font.ttf"), 14_000);
    let id = w.banner_widget(config);
    assert_eq!(id, 0);
    assert_eq!(w.tags.len(), 2);
    assert!(w.tags[0].banner_widget);
    assert!(w.tags[1].banner_label);
    let bs = w.styles[0].unwrap();
    assert_eq!(bs.position, PositionKind::Absolute);
    assert_eq!(bs.width, Dim::Px(401_000));
    assert_eq!(bs.height, Dim::Px(79_000));
    assert_eq!(bs.justify, JustifyKind::Center);
    let ls = w.styles[1].unwrap();
    assert_eq!(ls.align_self, AlignSelfKind::Start);
    assert_eq!(ls.top, Dim::Px(10_000));
    assert_eq!(w.images[0].as_deref(), Some("banner_title.png"));
    let t = w.texts[1].as_ref().unwrap();
    assert_eq!(t.content, "Hi!");
    assert_eq!(t.font, "font.ttf");
    assert_eq!(t.font_size_milli, 14_000);
    assert_eq!(t.color, Color { r: 471, g: 278, b: 153 });
}

#[test]
fn spawn_guards_run_only_once() {
    let mut w = UiWorld::new();
    w.spawn_fps_widget();
    assert_eq!(w.tags.len(), 2);
    // A second invocation finds the marker and produces nothing new.
    w.spawn_fps_widget();
    assert_eq!(w.tags.len(), 2);
    assert_eq!(w.tags.iter().filter(|t| t.fps_widget).count(), 1);

    w.spawn_simple_widget();
    assert_eq!(w.tags.len(), 5);
    w.spawn_simple_widget();
    assert_eq!(w.tags.len(), 5);
    assert_eq!(w.tags.iter().filter(|t| t.simple_widget).count(), 1);

    w.spawn_banner_widgets();
    assert_eq!(w.tags.len(), 11);
    w.spawn_banner_widgets();
    assert_eq!(w.tags.len(), 11);
    assert_eq!(w.tags.iter().filter(|t| t.banner_widget).count(), 3);
    assert_eq!(w.tags.iter().filter(|t| t.flying_example).count(), 1);
}

#[test]
fn hard_coded_banners() {
    let mut w = UiWorld::new();
    w.spawn_banner_widgets();
    assert_eq!(w.tags.len(), 6);
    assert_eq!(w.texts[1].as_ref().unwrap().content, "Hello, World!");
    assert_eq!(w.texts[3].as_ref().unwrap().content, "Bonjour, le Monde!");
    assert_eq!(w.texts[5].as_ref().unwrap().content, "¡Hola, Mundo!");
    let first = w.styles[0].unwrap();
    assert_eq!(first.left, Dim::Px(100_000));
    assert_eq!(first.top, Dim::Px(100_000));
    let second = w.styles[2].unwrap();
    assert_eq!(second.left, Dim::Px(300_000));
    assert_eq!(second.top, Dim::Px(300_000));
    let third = w.styles[4].unwrap();
    assert_eq!(third.left, Dim::Px(700_000));
    assert_eq!(third.top, Dim::Px(100_000));
    assert!(w.tags[4].flying_example);
    assert!(!w.tags[0].flying_example);
    assert!(!w.tags[2].flying_example);
}

#[test]
fn simple_widget_contents() {
    let mut w = UiWorld::new();
    w.spawn_simple_widget();
    assert_eq!(w.tags.len(), 3);
    let cs = w.styles[0].unwrap();
    assert_eq!(cs.position, PositionKind::Absolute);
    assert_eq!(cs.right, Dim::Px(100_000));
    assert_eq!(cs.top, Dim::Px(100_000));
    assert_eq!(cs.height, Dim::Auto);
    assert_eq!(cs.background, Some(Color { r: 500, g: 500, b: 500 }));
    assert_eq!(w.texts[1].as_ref().unwrap().content, "This is label 1.");
    assert_eq!(w.texts[2].as_ref().unwrap().content, "This is another label.");
}

#[test]
fn moving_the_flying_banner() {
    let mut w = UiWorld::new();
    w.spawn_banner_widgets();
    // Elapsed time zero: sin 0, cos 1.
    w.move_banner_example(0, 1000);
    let flying = w.styles[4].unwrap();
    assert_eq!(flying.left, Dim::Px(700_000));
    assert_eq!(flying.top, Dim::Px(200_000));
    // The two fixed banners stay where they were spawned.
    assert_eq!(w.styles[0].unwrap().left, Dim::Px(100_000));
    assert_eq!(w.styles[2].unwrap().left, Dim::Px(300_000));
    // A quarter turn later: sin 1, cos 0.
    w.move_banner_example(1000, 0);
    let flying = w.styles[4].unwrap();
    assert_eq!(flying.left, Dim::Px(800_000));
    assert_eq!(flying.top, Dim::Px(100_000));
}

#[test]
fn world_starts_empty() {
    let w = UiWorld::new();
    assert_eq!(w.tags.len(), 0);
    assert!(!w.any_marked(Marker::BannerWidget));
    let mut w = w;
    w.spawn_fps_widget();
    assert!(w.any_marked(Marker::FpsWidget));
    assert!(w.any_marked(Marker::FpsText));
    assert!(!w.any_marked(Marker::SimpleWidget));
}
