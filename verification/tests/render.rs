use flexvg::svg::render_svg;
use flexvg::types::{FlexElement, FlexGeomNode, FlexGlobalAttribs, FlexPoint, FlexRect,
    FlexRectAttribs, FlexRootData, FlexText, FlexTextAttribs};

fn bits(v: f32) -> u32 {
    v.to_bits()
}

fn global(id: &str) -> FlexGlobalAttribs {
    FlexGlobalAttribs { id: id.to_string(), class: String::new(), style: String::new() }
}

fn rect_element(id: &str) -> FlexElement {
    FlexElement::Rect(FlexRect {
        global: global(id),
        attribs: FlexRectAttribs::default(),
        rect: true,
    })
}

fn text_element(id: &str, text: &str) -> FlexElement {
    FlexElement::Text(FlexText {
        global: global(id),
        attribs: FlexTextAttribs {},
        text: text.to_string(),
    })
}

fn plain_node(
    w: f32,
    h: f32,
    x: f32,
    y: f32,
    element: Option<FlexElement>,
    nodes: Vec<FlexGeomNode>,
) -> FlexGeomNode {
    FlexGeomNode {
        width: bits(w),
        height: bits(h),
        position: FlexPoint { x: bits(x), y: bits(y) },
        element,
        root: None,
        nodes,
    }
}

#[test]
fn rect_coordinates_accumulate_ancestor_positions() {
    let child = plain_node(30.0, 40.0, 5.0, 6.0, Some(rect_element("a")), vec![]);
    let root = plain_node(100.0, 100.0, 10.0, 20.0, None, vec![child]);
    let out = render_svg(&root, None);
    assert!(out.contains(r#"<rect x="15" y="26"  width="30" height="40" id="a" class="" style="" ></rect>"#), "{out}");
}

#[test]
fn deeper_nesting_accumulates_every_level() {
    let leaf = plain_node(8.0, 9.0, 1.0, 2.0, Some(rect_element("leaf")), vec![]);
    let mid = plain_node(50.0, 50.0, 10.0, 20.0, None, vec![leaf]);
    let root = plain_node(100.0, 100.0, 100.0, 200.0, None, vec![mid]);
    let out = render_svg(&root, None);
    assert!(out.contains(r#"<rect x="111" y="222""#), "{out}");
}

#[test]
fn text_is_centered_in_its_box() {
    let child = plain_node(50.0, 20.0, 0.0, 0.0, Some(text_element("t", "hi")), vec![]);
    let root = plain_node(100.0, 100.0, 0.0, 0.0, None, vec![child]);
    let out = render_svg(&root, None);
    assert!(out.contains(r#"<text x="25" y="10"  width="50" height="20" id="t" class="" style="" >hi</text>"#), "{out}");
}

#[test]
fn opposite_infinite_offsets_render_as_nan() {
    let child = plain_node(10.0, 10.0, f32::NEG_INFINITY, 0.0, Some(rect_element("n")), vec![]);
    let root = plain_node(100.0, 100.0, f32::INFINITY, 3.0, None, vec![child]);
    let out = render_svg(&root, None);
    assert!(out.contains(r#"<rect x="NaN" y="3""#), "{out}");
}

#[test]
fn children_paint_in_reversed_declaration_order() {
    let a = plain_node(10.0, 10.0, 0.0, 0.0, Some(rect_element("a")), vec![]);
    let b = plain_node(10.0, 10.0, 1.0, 0.0, Some(rect_element("b")), vec![]);
    let c = plain_node(10.0, 10.0, 2.0, 0.0, Some(rect_element("c")), vec![]);
    let root = plain_node(100.0, 100.0, 0.0, 0.0, None, vec![a, b, c]);
    let out = render_svg(&root, None);
    let pa = out.find(r#"id="a""#).unwrap();
    let pb = out.find(r#"id="b""#).unwrap();
    let pc = out.find(r#"id="c""#).unwrap();
    assert!(pc < pb && pb < pa, "{out}");
}

#[test]
fn group_wrapper_opens_when_a_child_has_an_element() {
    let child = plain_node(10.0, 10.0, 0.0, 0.0, Some(rect_element("a")), vec![]);
    let root = plain_node(100.0, 100.0, 0.0, 0.0, None, vec![child]);
    let out = render_svg(&root, None);
    assert!(out.contains("<g>\n"), "{out}");
    assert!(out.contains("</g>\n"), "{out}");
}

#[test]
fn no_group_wrapper_without_child_elements() {
    let child = plain_node(10.0, 10.0, 0.0, 0.0, None, vec![]);
    let root = plain_node(100.0, 100.0, 0.0, 0.0, None, vec![child]);
    let out = render_svg(&root, None);
    assert!(!out.contains("<g>"), "{out}");
}

#[test]
fn preamble_carries_the_root_box() {
    let root = plain_node(320.0, 240.0, 0.0, 0.0, None, vec![]);
    let out = render_svg(&root, None);
    assert!(out.starts_with(r#"<svg version="1.0" width="320" height="240" xmlns="http://www.w3.org/2000/svg" xmlns:xlink="http://www.w3.org/1999/xlink">"#), "{out}");
    assert!(out.ends_with("</svg>\n"), "{out}");
}

#[test]
fn missing_stylesheet_falls_back_to_the_literal_reference() {
    let mut root = plain_node(100.0, 100.0, 0.0, 0.0, None, vec![]);
    root.root = Some(FlexRootData { stylesheet: Some("missing.css".to_string()) });
    let out = render_svg(&root, None);
    assert!(out.contains("<style>\nmissing.css\n</style>\n"), "{out}");
}

#[test]
fn present_stylesheet_is_inlined_verbatim() {
    let mut root = plain_node(100.0, 100.0, 0.0, 0.0, None, vec![]);
    root.root = Some(FlexRootData { stylesheet: Some("present.css".to_string()) });
    let out = render_svg(&root, Some("rect { fill: red; }"));
    assert!(out.contains("<style>\nrect { fill: red; }\n</style>\n"), "{out}");
}

#[test]
fn no_stylesheet_reference_means_no_style_block() {
    let root = plain_node(100.0, 100.0, 0.0, 0.0, None, vec![]);
    let out = render_svg(&root, None);
    assert!(!out.contains("<style>"), "{out}");
}
