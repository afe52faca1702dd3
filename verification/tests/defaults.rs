use flexvg::types::{AlignContent, AlignItems, AlignSelf, DisplayMode, FlexDimension,
    FlexDirection, FlexLayout, FlexNode, FlexPoint, FlexSize, FlexSvgTextAnchor, FlexWrap,
    JustifyContent, PositionType, StyleDimension};

#[test]
fn text_anchor_defaults_to_middle() {
    assert_eq!(FlexSvgTextAnchor::default(), FlexSvgTextAnchor::Middle);
}

#[test]
fn dimension_defaults_to_full_percent() {
    assert_eq!(FlexDimension::default(), FlexDimension::Percent(1.0f32.to_bits()));
}

#[test]
fn size_defaults_match_dimension_default() {
    let s: FlexSize<FlexDimension> = FlexSize::default();
    assert_eq!(s.width, FlexDimension::Percent(1.0f32.to_bits()));
    assert_eq!(s.height, FlexDimension::Percent(1.0f32.to_bits()));
    let m: FlexSize<StyleDimension> = FlexSize::default();
    assert_eq!(m.width, StyleDimension::Auto);
    assert_eq!(m.height, StyleDimension::Auto);
}

#[test]
fn point_defaults_to_origin() {
    let p = FlexPoint::default();
    assert_eq!(p.x, 0u32);
    assert_eq!(p.y, 0u32);
}

#[test]
fn layout_defaults_follow_the_flexbox_vocabulary() {
    let l = FlexLayout::default();
    assert_eq!(l.display, DisplayMode::Flex);
    assert_eq!(l.position_type, PositionType::Relative);
    assert_eq!(l.flex_direction, FlexDirection::Row);
    assert_eq!(l.flex_wrap, FlexWrap::NoWrap);
    assert_eq!(l.align_items, AlignItems::Stretch);
    assert_eq!(l.align_self, AlignSelf::Auto);
    assert_eq!(l.align_content, AlignContent::Stretch);
    assert_eq!(l.justify_content, JustifyContent::FlexStart);
    assert_eq!(l.position.start, StyleDimension::Undefined);
    assert_eq!(l.flex_grow, 0.0f32.to_bits());
    assert_eq!(l.flex_shrink, 1.0f32.to_bits());
    assert_eq!(l.flex_basis, StyleDimension::Auto);
    assert_eq!(l.aspect_ratio, None);
}

#[test]
fn node_defaults_to_an_empty_leaf() {
    let n = FlexNode::default();
    assert!(n.element.is_none());
    assert!(n.root.is_none());
    assert!(n.nodes.is_empty());
}
