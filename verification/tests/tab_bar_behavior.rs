use tab_bar::event::{Event, Interaction, Message, MouseButton, Status};
use tab_bar::geometry::Point;
use tab_bar::style::{Appearance, Color, StyleSheet};
use tab_bar::draw::Primitive;
use tab_bar::tab_bar::{Length, TabBar, TabId};
use tab_bar::tab_label::TabLabel;

fn color(v: u8) -> Color {
    Color { red: v, green: v, blue: v, alpha: 255 }
}

fn appearance(v: u8) -> Appearance {
    Appearance {
        background: Some(color(v)),
        border_color: Some(color(v)),
        border_width: 1,
        tab_label_background: color(v),
        tab_label_border_color: color(v),
        tab_label_border_width: 1,
        icon_color: color(v),
        text_color: color(v),
    }
}

fn sheet() -> StyleSheet {
    StyleSheet {
        active_base: appearance(10),
        active_selected: appearance(20),
        hovered_base: appearance(30),
        hovered_selected: appearance(40),
    }
}

fn three_text_tabs() -> TabBar {
    TabBar::new()
        .width(Length::Fixed(500))
        .tab_width(Length::Fixed(100))
        .height(Length::Fixed(40))
        .padding(5)
        .spacing(2)
        .push(TabId(1), TabLabel::Text(String::from("One")))
        .push(TabId(2), TabLabel::Text(String::from("Two")))
        .push(TabId(3), TabLabel::Text(String::from("Three")))
}

#[test]
fn new_bar_is_empty_with_defaults() {
    let bar = TabBar::new();
    assert_eq!(bar.size(), 0);
    assert_eq!(bar.get_active_tab_idx(), 0);
    assert_eq!(bar.get_active_tab_id(), None);
    assert_eq!(bar.get_width(), Length::Fill);
    assert_eq!(bar.get_height(), Length::Shrink);
}

#[test]
fn size_counts_pushed_entries() {
    let mut bar = TabBar::new();
    for i in 0..5u64 {
        bar = bar.push(TabId(i), TabLabel::Text(String::from("tab")));
        assert_eq!(bar.size(), (i + 1) as usize);
    }
}

#[test]
fn with_tab_labels_holds_the_given_entries() {
    let bar = TabBar::with_tab_labels(vec![
        (TabId(7), TabLabel::Text(String::from("a"))),
        (TabId(8), TabLabel::Icon('x')),
    ]);
    assert_eq!(bar.size(), 2);
    assert_eq!(bar.get_active_tab_idx(), 0);
    assert_eq!(bar.get_active_tab_id(), Some(TabId(7)));
}

#[test]
fn set_active_tab_picks_first_match() {
    let bar = three_text_tabs().set_active_tab(&TabId(2));
    assert_eq!(bar.get_active_tab_idx(), 1);
}

#[test]
fn set_active_tab_of_absent_id_falls_back_to_zero() {
    let bar = three_text_tabs()
        .set_active_tab(&TabId(3))
        .set_active_tab(&TabId(99));
    assert_eq!(bar.get_active_tab_idx(), 0);
}

#[test]
fn set_active_tab_picks_first_of_equal_ids() {
    let bar = TabBar::new()
        .push(TabId(1), TabLabel::Text(String::from("a")))
        .push(TabId(5), TabLabel::Text(String::from("b")))
        .push(TabId(5), TabLabel::Text(String::from("c")))
        .set_active_tab(&TabId(5));
    assert_eq!(bar.get_active_tab_idx(), 1);
}

#[test]
fn round_trip_of_active_tab_id() {
    let id1 = TabId(11);
    let id2 = TabId(22);
    let bar = TabBar::new()
        .push(id1, TabLabel::Text(String::from("One")))
        .push(id2, TabLabel::Text(String::from("Two")))
        .set_active_tab(&id2);
    assert_eq!(bar.get_active_tab_id(), Some(id2));
}

#[test]
fn layout_has_one_region_per_tab_without_close() {
    let bar = three_text_tabs();
    assert!(bar.layout_fits(800));
    let l = bar.layout(800, 600);
    assert_eq!(l.tabs.len(), 3);
    for t in &l.tabs {
        assert!(t.close.is_none());
        assert!(t.icon.is_none());
        assert!(t.text.is_some());
    }
}

#[test]
fn layout_adds_a_close_slot_per_tab_when_registered() {
    let bar = three_text_tabs().on_close().close_size(15);
    let l = bar.layout(800, 600);
    assert_eq!(l.tabs.len(), 3);
    for t in &l.tabs {
        let c = t.close.expect("close slot expected");
        assert_eq!(c.width, 16);
        assert_eq!(c.height, 16);
    }
}

#[test]
fn layout_geometry_of_fixed_tabs() {
    let bar = three_text_tabs();
    let l = bar.layout(800, 600);
    assert_eq!(l.bounds.x, 0);
    assert_eq!(l.bounds.y, 0);
    assert_eq!(l.bounds.width, 500);
    assert_eq!(l.bounds.height, 40);
    // tab width: 5 rim + 100 label + 5 rim; spacing 2 between tabs
    assert_eq!(l.tabs[0].bounds.x, 0);
    assert_eq!(l.tabs[0].bounds.width, 110);
    assert_eq!(l.tabs[0].bounds.height, 40);
    assert_eq!(l.tabs[1].bounds.x, 112);
    assert_eq!(l.tabs[2].bounds.x, 224);
    // the text block sits inside the rim
    let t0 = l.tabs[0].text.expect("text rectangle expected");
    assert_eq!(t0.x, 5);
    assert_eq!(t0.y, 5);
    assert_eq!(t0.width, 100);
    assert_eq!(t0.height, 30);
}

#[test]
fn layout_splits_fill_width_evenly() {
    let bar = TabBar::new()
        .tab_width(Length::Fill)
        .padding(0)
        .push(TabId(1), TabLabel::Text(String::from("a")))
        .push(TabId(2), TabLabel::Text(String::from("b")))
        .push(TabId(3), TabLabel::Text(String::from("c")));
    let l = bar.layout(300, 600);
    for t in &l.tabs {
        assert_eq!(t.bounds.width, 100);
    }
}

#[test]
fn icon_label_is_centered() {
    let bar = TabBar::new()
        .tab_width(Length::Fixed(100))
        .height(Length::Fixed(40))
        .padding(0)
        .icon_size(20)
        .push(TabId(1), TabLabel::Icon('x'));
    let l = bar.layout(800, 600);
    let r = l.tabs[0].icon.expect("icon rectangle expected");
    assert_eq!(r.x, 40);
    assert_eq!(r.y, 10);
    assert_eq!(r.width, 20);
    assert_eq!(r.height, 20);
}

#[test]
fn press_inside_tab_selects_it() {
    let bar = three_text_tabs();
    let l = bar.layout(800, 600);
    let (msg, status) = bar.on_event(
        &l,
        Event::MouseButtonPressed(MouseButton::Left),
        Some(Point { x: 115, y: 10 }),
    );
    assert_eq!(msg, Some(Message::Select(TabId(2))));
    assert_eq!(status, Status::Captured);
}

#[test]
fn press_on_close_slot_closes_the_tab() {
    let bar = three_text_tabs().on_close().close_size(15);
    let l = bar.layout(800, 600);
    let c = l.tabs[0].close.expect("close slot expected");
    let p = Point { x: c.x + 1, y: c.y + 1 };
    let (msg, status) = bar.on_event(&l, Event::MouseButtonPressed(MouseButton::Left), Some(p));
    assert_eq!(msg, Some(Message::Close(TabId(1))));
    assert_eq!(status, Status::Captured);
}

#[test]
fn press_inside_tab_but_off_close_selects() {
    let bar = three_text_tabs().on_close().close_size(15);
    let l = bar.layout(800, 600);
    let (msg, status) = bar.on_event(
        &l,
        Event::MouseButtonPressed(MouseButton::Left),
        Some(Point { x: 10, y: 10 }),
    );
    assert_eq!(msg, Some(Message::Select(TabId(1))));
    assert_eq!(status, Status::Captured);
}

#[test]
fn press_outside_all_tabs_is_ignored() {
    let bar = three_text_tabs();
    let l = bar.layout(800, 600);
    // inside the bar, right of the last tab
    let (msg, status) = bar.on_event(
        &l,
        Event::MouseButtonPressed(MouseButton::Left),
        Some(Point { x: 450, y: 10 }),
    );
    assert_eq!(msg, None);
    assert_eq!(status, Status::Ignored);
    // outside the bar altogether
    let (msg, status) = bar.on_event(
        &l,
        Event::MouseButtonPressed(MouseButton::Left),
        Some(Point { x: 600, y: 10 }),
    );
    assert_eq!(msg, None);
    assert_eq!(status, Status::Ignored);
}

#[test]
fn other_events_are_ignored() {
    let bar = three_text_tabs();
    let l = bar.layout(800, 600);
    let inside = Some(Point { x: 10, y: 10 });
    let (msg, status) = bar.on_event(&l, Event::Other, inside);
    assert_eq!(msg, None);
    assert_eq!(status, Status::Ignored);
    let (msg, status) = bar.on_event(&l, Event::MouseButtonPressed(MouseButton::Right), inside);
    assert_eq!(msg, None);
    assert_eq!(status, Status::Ignored);
}

#[test]
fn touch_press_acts_like_a_left_press() {
    let bar = three_text_tabs();
    let l = bar.layout(800, 600);
    let (msg, status) = bar.on_event(&l, Event::TouchFingerPressed, Some(Point { x: 115, y: 10 }));
    assert_eq!(msg, Some(Message::Select(TabId(2))));
    assert_eq!(status, Status::Captured);
}

#[test]
fn missing_pointer_position_hit_tests_as_origin() {
    let bar = three_text_tabs();
    let l = bar.layout(800, 600);
    let (msg, status) = bar.on_event(&l, Event::MouseButtonPressed(MouseButton::Left), None);
    assert_eq!(msg, Some(Message::Select(TabId(1))));
    assert_eq!(status, Status::Captured);
}

#[test]
fn hover_reports_pointer_exactly_over_tabs() {
    let bar = three_text_tabs();
    let l = bar.layout(800, 600);
    let over = bar.mouse_interaction(&l, Some(Point { x: 115, y: 10 }));
    assert_eq!(over, Interaction::Pointer);
    // inside the bar but right of the last tab
    let beside = bar.mouse_interaction(&l, Some(Point { x: 450, y: 10 }));
    assert_eq!(beside, Interaction::Idle);
    let outside = bar.mouse_interaction(&l, Some(Point { x: 600, y: 300 }));
    assert_eq!(outside, Interaction::Idle);
}

#[test]
fn draw_paints_bar_quad_then_tabs() {
    let bar = three_text_tabs();
    let l = bar.layout(800, 600);
    let prims = bar.draw(&l, Some(Point { x: 600, y: 300 }), &sheet());
    // one bar quad, then per tab a quad and a text run
    assert_eq!(prims.len(), 7);
    match &prims[0] {
        Primitive::Quad { bounds, background, .. } => {
            assert_eq!(*bounds, l.bounds);
            assert_eq!(*background, color(10));
        }
        other => panic!("expected the bar quad first, got {:?}", other),
    }
    match &prims[2] {
        Primitive::Text { content, .. } => assert_eq!(content, "One"),
        other => panic!("expected the first tab's text, got {:?}", other),
    }
}

#[test]
fn draw_styles_active_and_hovered_tabs() {
    let bar = three_text_tabs().set_active_tab(&TabId(2));
    let l = bar.layout(800, 600);
    // pointer over tab 0: tab 0 hovered, tab 1 selected, tab 2 plain
    let prims = bar.draw(&l, Some(Point { x: 10, y: 10 }), &sheet());
    let tab_quad_colors: Vec<Color> = prims
        .iter()
        .skip(1)
        .filter_map(|p| match p {
            Primitive::Quad { background, .. } => Some(*background),
            _ => None,
        })
        .collect();
    assert_eq!(tab_quad_colors, vec![color(30), color(20), color(10)]);
}

#[test]
fn close_glyph_grows_while_hovered() {
    let bar = three_text_tabs().on_close().close_size(15);
    let l = bar.layout(800, 600);
    let c = l.tabs[0].close.expect("close slot expected");
    let over = Some(Point { x: c.x + 1, y: c.y + 1 });
    let away = Some(Point { x: 600, y: 300 });
    let size_of_first_close = |prims: &Vec<Primitive>| {
        prims
            .iter()
            .find_map(|p| match p {
                Primitive::CloseIcon { size, .. } => Some(*size),
                _ => None,
            })
            .expect("a close glyph expected")
    };
    let hovered = bar.draw(&l, over, &sheet());
    let resting = bar.draw(&l, away, &sheet());
    assert_eq!(size_of_first_close(&hovered), 16);
    assert_eq!(size_of_first_close(&resting), 15);
}

#[test]
fn icon_text_label_paints_both_glyphs() {
    let bar = TabBar::new()
        .tab_width(Length::Fixed(100))
        .height(Length::Fixed(60))
        .push(TabId(1), TabLabel::IconText('x', String::from("One")));
    let l = bar.layout(800, 600);
    let prims = bar.draw(&l, None, &sheet());
    // bar quad, tab quad, icon, text
    assert_eq!(prims.len(), 4);
    assert!(matches!(&prims[2], Primitive::Icon { glyph: 'x', .. }));
    assert!(matches!(&prims[3], Primitive::Text { .. }));
}

#[test]
fn max_height_caps_the_bar() {
    let bar = three_text_tabs().max_height(30);
    let l = bar.layout(800, 600);
    assert_eq!(l.bounds.height, 30);
}

#[test]
fn shrink_width_wraps_the_row() {
    let bar = three_text_tabs().width(Length::Shrink);
    let l = bar.layout(800, 600);
    // three tabs of 110 pixels with 2 pixels between them
    assert_eq!(l.bounds.width, 334);
}

#[test]
fn shrink_height_wraps_the_content() {
    // 5 pixels of rim around a 16 pixel text line
    let bar = TabBar::new().push(TabId(1), TabLabel::Text(String::from("a")));
    let l = bar.layout(800, 600);
    assert_eq!(l.bounds.height, 26);
}
