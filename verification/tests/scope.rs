use clay_layout::color::Color;
use clay_layout::layout::{Padding, Sizing};
use clay_layout::math::{Dimensions, Vector2};
use clay_layout::text::TextConfig;
use clay_layout::{is_well_nested, Clay, Declaration, ScopeEvent, DEFAULT_MAX_ELEMENT_COUNT};

#[test]
fn clay_starts_from_given_dimensions() {
    let clay = Clay::new(Dimensions::new(800, 600));
    assert_eq!(clay.layout_dimensions, Dimensions::new(800, 600));
    assert!(!clay.debug_mode_enabled);
    assert_eq!(clay.max_element_count, DEFAULT_MAX_ELEMENT_COUNT);
    assert_eq!(clay.pointer_position, Vector2::new(0, 0));
    assert!(!clay.pointer_down);
}

#[test]
fn clay_setters_keep_other_state() {
    let mut clay = Clay::new(Dimensions::new(800, 600));
    clay.max_element_count(100);
    assert_eq!(clay.max_element_count, 100);
    assert_eq!(clay.layout_dimensions, Dimensions::new(800, 600));

    clay.set_debug_mode(true);
    assert!(clay.debug_mode_enabled);
    assert_eq!(clay.max_element_count, 100);

    clay.set_layout_dimensions(Dimensions::new(1024, 768));
    assert_eq!(clay.layout_dimensions, Dimensions::new(1024, 768));

    clay.pointer_state(Vector2::new(10, 20), true);
    assert_eq!(clay.pointer_position, Vector2::new(10, 20));
    assert!(clay.pointer_down);
    assert_eq!(clay.layout_dimensions, Dimensions::new(1024, 768));
}

#[test]
fn scope_ids_carry_label_and_index() {
    let clay = Clay::new(Dimensions::new(800, 600));
    let scope = clay.begin::<(), ()>();
    assert_eq!(scope.id("parent_rect").label, "parent_rect");
    assert_eq!(scope.id("parent_rect").index, 0);
    assert_eq!(scope.id_index("border_container", 1).index, 1);
    assert_eq!(scope.id_local("inner").label, "inner");
    assert_eq!(scope.id_local("inner").index, 0);
    assert_eq!(scope.id_index_local("inner", 2).index, 2);
}

#[test]
fn empty_scope_ends_with_no_events() {
    let clay = Clay::new(Dimensions::new(800, 600));
    let scope = clay.begin::<(), ()>();
    assert_eq!(scope.depth(), 0);
    let events = scope.end();
    assert!(events.is_empty());
}

#[test]
fn nested_scope_records_protocol_in_order() {
    let clay = Clay::new(Dimensions::new(800, 600));
    let mut scope = clay.begin::<(), ()>();

    scope.open(
        Declaration::new()
            .id(scope.id("parent_rect"))
            .layout()
            .width(Sizing::Fixed(100))
            .height(Sizing::Fixed(100))
            .padding(Padding::all(10))
            .end()
            .background_color(Color::u_rgb(255, 255, 255)),
    );
    assert_eq!(scope.depth(), 1);

    scope.open(
        Declaration::new()
            .id(scope.id("rect_under_rect"))
            .layout()
            .width(Sizing::Fixed(50))
            .height(Sizing::Fixed(50))
            .end()
            .background_color(Color::u_rgb(0, 255, 255)),
    );
    assert_eq!(scope.depth(), 2);

    scope.text("test", TextConfig::new().color(Color::u_rgb(255, 255, 255)).font_size(24).end());
    assert_eq!(scope.depth(), 2);

    scope.close();
    scope.close();
    assert_eq!(scope.depth(), 0);

    let events = scope.end();
    assert_eq!(events.len(), 5);

    match &events[0] {
        ScopeEvent::Open(d) => {
            assert_eq!(d.id.unwrap().label, "parent_rect");
            assert!(matches!(d.layout.width, Sizing::Fixed(100)));
            assert_eq!(d.layout.padding, Padding::all(10));
            assert_eq!(d.background_color, Color::u_rgb(255, 255, 255));
        }
        _ => panic!("first event must open the parent"),
    }
    match &events[1] {
        ScopeEvent::Open(d) => {
            assert_eq!(d.id.unwrap().label, "rect_under_rect");
            assert!(matches!(d.layout.height, Sizing::Fixed(50)));
        }
        _ => panic!("second event must open the child"),
    }
    match &events[2] {
        ScopeEvent::Text(text, config) => {
            assert_eq!(*text, "test");
            assert_eq!(config.config.font_size, 24);
            assert_eq!(config.config.color, Color::u_rgb(255, 255, 255));
        }
        _ => panic!("third event must be the text element"),
    }
    assert!(matches!(events[3], ScopeEvent::Close));
    assert!(matches!(events[4], ScopeEvent::Close));
}

#[test]
fn sibling_elements_record_balanced_runs() {
    let clay = Clay::new(Dimensions::new(800, 600));
    let mut scope = clay.begin::<(), ()>();

    scope.open(
        Declaration::new()
            .id(scope.id_index("border_container", 1))
            .layout()
            .padding(Padding::all(16))
            .end()
            .border()
            .color(Color::u_rgb(255, 255, 0))
            .all_directions(2)
            .end()
            .corner_radius()
            .all(10)
            .end(),
    );
    scope.close();

    scope.open(Declaration::new().id(scope.id("rect_under_border")));
    scope.close();

    let events = scope.end();
    assert_eq!(events.len(), 4);
    assert!(matches!(events[0], ScopeEvent::Open(_)));
    assert!(matches!(events[1], ScopeEvent::Close));
    assert!(matches!(events[2], ScopeEvent::Open(_)));
    assert!(matches!(events[3], ScopeEvent::Close));

    match &events[0] {
        ScopeEvent::Open(d) => {
            let id = d.id.unwrap();
            assert_eq!(id.label, "border_container");
            assert_eq!(id.index, 1);
            assert_eq!(d.layout.padding, Padding::all(16));
            assert_eq!(d.border.color, Color::u_rgb(255, 255, 0));
            assert_eq!(d.border.width.left, 2);
            assert_eq!(d.corner_radius.top_left, 10);
        }
        _ => unreachable!(),
    }
}

#[test]
fn scope_output_is_well_nested() {
    let clay = Clay::new(Dimensions::new(800, 600));
    let mut scope = clay.begin::<(), ()>();
    scope.open(Declaration::new());
    scope.open(Declaration::new());
    scope.close();
    scope.text("inner", clay_layout::text::TextConfig::new().end());
    scope.close();
    let events = scope.end();
    assert!(is_well_nested(&events));
}

#[test]
fn is_well_nested_accepts_empty_and_balanced_runs() {
    let empty: Vec<ScopeEvent<(), ()>> = vec![];
    assert!(is_well_nested(&empty));

    let balanced: Vec<ScopeEvent<(), ()>> = vec![
        ScopeEvent::Open(Declaration::new()),
        ScopeEvent::Open(Declaration::new()),
        ScopeEvent::Close,
        ScopeEvent::Close,
        ScopeEvent::Open(Declaration::new()),
        ScopeEvent::Close,
    ];
    assert!(is_well_nested(&balanced));
}

#[test]
fn is_well_nested_rejects_stray_close_and_unclosed_open() {
    let stray_close: Vec<ScopeEvent<(), ()>> = vec![ScopeEvent::Close];
    assert!(!is_well_nested(&stray_close));

    let close_before_open: Vec<ScopeEvent<(), ()>> = vec![
        ScopeEvent::Open(Declaration::new()),
        ScopeEvent::Close,
        ScopeEvent::Close,
        ScopeEvent::Open(Declaration::new()),
    ];
    assert!(!is_well_nested(&close_before_open));

    let unclosed: Vec<ScopeEvent<(), ()>> = vec![ScopeEvent::Open(Declaration::new())];
    assert!(!is_well_nested(&unclosed));
}

#[test]
fn simple_text_scope() {
    let clay = Clay::new(Dimensions::new(800, 600));
    let mut scope = clay.begin::<(), ()>();

    scope.open(
        Declaration::new()
            .id(scope.id("parent_rect"))
            .layout()
            .width(Sizing::Fixed(100))
            .height(Sizing::Fixed(100))
            .padding(Padding::all(10))
            .end()
            .background_color(Color::u_rgb(255, 255, 255)),
    );
    scope.text("test", TextConfig::new().color(Color::u_rgb(255, 255, 255)).font_size(24).end());
    scope.close();

    let events = scope.end();
    assert_eq!(events.len(), 3);
    assert!(matches!(&events[1], ScopeEvent::Text(t, _) if *t == "test"));
}
