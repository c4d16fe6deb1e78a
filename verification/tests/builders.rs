use clay_layout::color::Color;
use clay_layout::elements::{
    BorderConfig, ClipConfig, CornerRadius, FloatingAttachPointType, FloatingAttachToElement,
    FloatingConfig, PointerCaptureMode, ScrollContainer,
};
use clay_layout::id::Id;
use clay_layout::layout::{
    Alignment, Layout, LayoutAlignmentX, LayoutAlignmentY, LayoutDirection, Padding, Sizing,
    SizingType,
};
use clay_layout::math::{BoundingBox, Dimensions, Vector2};
use clay_layout::render_commands::{BorderWidth, CornerRadii};
use clay_layout::Declaration;

#[test]
fn color_u_rgb_is_opaque() {
    let c = Color::u_rgb(0xFF, 0x80, 0x00);
    assert_eq!(c, Color { r: 255, g: 128, b: 0, a: 255 });
}

#[test]
fn color_u_rgba_keeps_alpha() {
    let c = Color::u_rgba(1, 2, 3, 4);
    assert_eq!(c, Color { r: 1, g: 2, b: 3, a: 4 });
}

#[test]
fn color_default_is_transparent() {
    assert_eq!(Color::default(), Color { r: 0, g: 0, b: 0, a: 0 });
}

#[test]
fn padding_constructors() {
    assert_eq!(Padding::new(1, 2, 3, 4), Padding { left: 1, right: 2, top: 3, bottom: 4 });
    assert_eq!(Padding::new_rect(1, 2, 3, 4), Padding::new(1, 2, 3, 4));
    assert_eq!(Padding::all(10), Padding::new(10, 10, 10, 10));
    assert_eq!(Padding::horizontal(7), Padding::new(7, 7, 0, 0));
    assert_eq!(Padding::vertical(7), Padding::new(0, 0, 7, 7));
    assert_eq!(Padding::default(), Padding::new(0, 0, 0, 0));
}

#[test]
fn padding_side_setters_chain() {
    let p = Padding::default().left(1).right(2).top(3).bottom(4).end();
    assert_eq!(p, Padding::new(1, 2, 3, 4));
}

#[test]
fn sizing_fit_values() {
    let both_args = Sizing::Fit(12, 34);
    assert!(matches!(both_args, Sizing::Fit(12, 34)));
    assert_eq!(both_args.sizing_type(), SizingType::Fit);

    let unbounded = Sizing::Fit(12, u32::MAX);
    assert!(matches!(unbounded, Sizing::Fit(12, u32::MAX)));

    let zero = Sizing::default();
    assert!(matches!(zero, Sizing::Fit(0, u32::MAX)));
}

#[test]
fn sizing_grow_values() {
    let both_args = Sizing::Grow(12, 34);
    assert!(matches!(both_args, Sizing::Grow(12, 34)));
    assert_eq!(both_args.sizing_type(), SizingType::Grow);

    let unbounded = Sizing::Grow(12, u32::MAX);
    assert!(matches!(unbounded, Sizing::Grow(12, u32::MAX)));
}

#[test]
fn sizing_fixed_value() {
    let value = Sizing::Fixed(123);
    assert!(matches!(value, Sizing::Fixed(123)));
    assert_eq!(value.sizing_type(), SizingType::Fixed);
}

#[test]
fn sizing_percent_value() {
    let value = Sizing::Percent(50);
    assert!(matches!(value, Sizing::Percent(50)));
    assert_eq!(value.sizing_type(), SizingType::Percent);
    assert_eq!(Sizing::Constrained.sizing_type(), SizingType::Constrained);
}

#[test]
fn alignment_and_layout_defaults() {
    let a = Alignment::new(LayoutAlignmentX::Center, LayoutAlignmentY::Bottom);
    assert_eq!(a.x, LayoutAlignmentX::Center);
    assert_eq!(a.y, LayoutAlignmentY::Bottom);

    let l = Layout::default();
    assert!(matches!(l.width, Sizing::Fit(0, u32::MAX)));
    assert!(matches!(l.height, Sizing::Fit(0, u32::MAX)));
    assert_eq!(l.padding, Padding::default());
    assert_eq!(l.child_gap, 0);
    assert_eq!(l.child_alignment, Alignment::new(LayoutAlignmentX::Left, LayoutAlignmentY::Top));
    assert_eq!(l.direction, LayoutDirection::LeftToRight);
}

#[test]
fn math_constructors() {
    assert_eq!(Vector2::new(-3, 4), Vector2 { x: -3, y: 4 });
    assert_eq!(Vector2::default(), Vector2 { x: 0, y: 0 });
    assert_eq!(Dimensions::new(800, 600), Dimensions { width: 800, height: 600 });
    assert_eq!(Dimensions::default(), Dimensions { width: 0, height: 0 });
    assert_eq!(BoundingBox::new(1, 2, 3, 4), BoundingBox { x: 1, y: 2, width: 3, height: 4 });
    assert_eq!(BoundingBox::default(), BoundingBox { x: 0, y: 0, width: 0, height: 0 });
}

#[test]
fn id_constructors() {
    let id = Id::new("parent_rect");
    assert_eq!(id.label, "parent_rect");
    assert_eq!(id.index, 0);

    let id = Id::new_index("item", 3);
    assert_eq!(id.label, "item");
    assert_eq!(id.index, 3);

    let id = Id::new_index_local("item", 3);
    assert_eq!(id.label, "item");
    assert_eq!(id.index, 3);
}

#[test]
fn declaration_starts_cleared() {
    let d: Declaration<(), ()> = Declaration::new();
    assert!(d.id.is_none());
    assert_eq!(d.layout, Layout::default());
    assert_eq!(d.background_color, Color::default());
    assert_eq!(d.corner_radius, CornerRadii::default());
    assert!(d.image.data.is_none());
    assert_eq!(d.image.source_dimensions, Dimensions::default());
    assert_eq!(d.floating, FloatingConfig::default());
    assert!(d.custom.is_none());
    assert_eq!(d.clip, ClipConfig::default());
    assert_eq!(d.border, BorderConfig::default());
}

#[test]
fn declaration_setters_keep_other_fields() {
    let d: Declaration<(), ()> = Declaration::new()
        .background_color(Color::u_rgb(255, 255, 255))
        .clip(true, false, Vector2::new(0, -20));
    assert_eq!(d.background_color, Color::u_rgb(255, 255, 255));
    assert_eq!(d.clip, ClipConfig { horizontal: true, vertical: false, child_offset: Vector2::new(0, -20) });
    assert_eq!(d.layout, Layout::default());
    assert_eq!(d.border, BorderConfig::default());

    let d = d.id(Id::new("test"));
    assert_eq!(d.id.unwrap().label, "test");
    assert_eq!(d.background_color, Color::u_rgb(255, 255, 255));
}

#[test]
fn layout_builder_writes_layout_only() {
    let d: Declaration<(), ()> = Declaration::new()
        .background_color(Color::u_rgb(9, 9, 9))
        .layout()
        .width(Sizing::Fixed(100))
        .height(Sizing::Fixed(100))
        .padding(Padding::all(10))
        .child_gap(16)
        .child_alignment(Alignment::new(LayoutAlignmentX::Center, LayoutAlignmentY::Center))
        .direction(LayoutDirection::TopToBottom)
        .end();
    assert!(matches!(d.layout.width, Sizing::Fixed(100)));
    assert!(matches!(d.layout.height, Sizing::Fixed(100)));
    assert_eq!(d.layout.padding, Padding::all(10));
    assert_eq!(d.layout.child_gap, 16);
    assert_eq!(
        d.layout.child_alignment,
        Alignment::new(LayoutAlignmentX::Center, LayoutAlignmentY::Center)
    );
    assert_eq!(d.layout.direction, LayoutDirection::TopToBottom);
    assert_eq!(d.background_color, Color::u_rgb(9, 9, 9));
}

#[test]
fn border_builder_writes_border_only() {
    let d: Declaration<(), ()> = Declaration::new()
        .border()
        .color(Color::u_rgb(255, 255, 0))
        .all_directions(2)
        .end();
    assert_eq!(d.border.color, Color::u_rgb(255, 255, 0));
    assert_eq!(
        d.border.width,
        BorderWidth { left: 2, right: 2, top: 2, bottom: 2, between_children: 0 }
    );
    assert_eq!(d.layout, Layout::default());

    let d = d.border().left(1).right(3).top(5).bottom(7).between_children(9).end();
    assert_eq!(
        d.border.width,
        BorderWidth { left: 1, right: 3, top: 5, bottom: 7, between_children: 9 }
    );
    assert_eq!(d.border.color, Color::u_rgb(255, 255, 0));
}

#[test]
fn corner_radius_builder_sets_each_corner() {
    let d: Declaration<(), ()> = Declaration::new().corner_radius().all(10).end();
    assert_eq!(
        d.corner_radius,
        CornerRadii { top_left: 10, top_right: 10, bottom_left: 10, bottom_right: 10 }
    );

    let d = d.corner_radius().top_left(1).top_right(2).bottom_left(3).bottom_right(4).end();
    assert_eq!(
        d.corner_radius,
        CornerRadii { top_left: 1, top_right: 2, bottom_left: 3, bottom_right: 4 }
    );
}

#[test]
fn floating_builder_writes_floating_only() {
    let d: Declaration<(), ()> = Declaration::new()
        .floating()
        .offset(Vector2::new(4, -4))
        .dimensions(Dimensions::new(20, 30))
        .z_index(5)
        .parent_id(77)
        .attach_points(FloatingAttachPointType::CenterCenter, FloatingAttachPointType::RightBottom)
        .attach_to(FloatingAttachToElement::ElementWithId)
        .pointer_capture_mode(PointerCaptureMode::Passthrough)
        .end();
    assert_eq!(d.floating.offset, Vector2::new(4, -4));
    assert_eq!(d.floating.expand, Dimensions::new(20, 30));
    assert_eq!(d.floating.z_index, 5);
    assert_eq!(d.floating.parent_id, 77);
    assert_eq!(d.floating.attach_element, FloatingAttachPointType::CenterCenter);
    assert_eq!(d.floating.attach_parent, FloatingAttachPointType::RightBottom);
    assert_eq!(d.floating.attach_to, FloatingAttachToElement::ElementWithId);
    assert_eq!(d.floating.pointer_capture_mode, PointerCaptureMode::Passthrough);
    assert_eq!(d.layout, Layout::default());
}

#[test]
fn image_builder_writes_image_only() {
    let pixels: u32 = 0xABCD;
    let d: Declaration<u32, ()> = Declaration::new()
        .image()
        .source_dimensions(Dimensions::new(64, 32))
        .data(&pixels)
        .end();
    assert_eq!(d.image.source_dimensions, Dimensions::new(64, 32));
    assert_eq!(*d.image.data.unwrap(), 0xABCD);
    assert_eq!(d.layout, Layout::default());
}

#[test]
fn custom_element_carries_data() {
    let marker: &str = "gauge";
    let d: Declaration<(), &str> = Declaration::new().custom_element(&marker);
    assert_eq!(*d.custom.unwrap(), "gauge");
}

#[test]
fn corner_radius_spells_out_and_folds() {
    let all = CornerRadius::All(10);
    assert_eq!(
        all.radii(),
        CornerRadii { top_left: 10, top_right: 10, bottom_left: 10, bottom_right: 10 }
    );

    let mixed = CornerRadius::Individual { top_left: 1, top_right: 2, bottom_left: 3, bottom_right: 4 };
    assert_eq!(
        mixed.radii(),
        CornerRadii { top_left: 1, top_right: 2, bottom_left: 3, bottom_right: 4 }
    );

    let folded = CornerRadius::from_radii(CornerRadii {
        top_left: 5,
        top_right: 5,
        bottom_left: 5,
        bottom_right: 5,
    });
    assert_eq!(folded, CornerRadius::All(5));

    let kept = CornerRadius::from_radii(CornerRadii {
        top_left: 5,
        top_right: 5,
        bottom_left: 5,
        bottom_right: 6,
    });
    assert_eq!(
        kept,
        CornerRadius::Individual { top_left: 5, top_right: 5, bottom_left: 5, bottom_right: 6 }
    );
    assert_eq!(kept.radii(), CornerRadii { top_left: 5, top_right: 5, bottom_left: 5, bottom_right: 6 });
}

#[test]
fn scroll_container_flags() {
    let s = ScrollContainer::new();
    assert!(!s.horizontal && !s.vertical);
    let s = s.horizontal();
    assert!(s.horizontal && !s.vertical);
    let s = s.vertical();
    assert!(s.horizontal && s.vertical);
    assert_eq!(ScrollContainer::default(), ScrollContainer::new());
}
