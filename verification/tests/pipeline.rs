use flexvg::error::FlexError;
use flexvg::{compute_flex_taffy_recursive, compute_layout_root_recursive, compute_svg_string};
use flexvg::types::{FlexDimension, FlexElement, FlexGlobalAttribs, FlexLayout, FlexNode,
    FlexRect, FlexRectAttribs, FlexSize, FlexText, FlexTextAttribs, StyleDimension};

fn rect_child(width_percent: f32) -> FlexNode {
    let mut layout = FlexLayout::default();
    layout.flex_basis = StyleDimension::Auto;
    layout.size = FlexSize {
        width: FlexDimension::Percent(width_percent.to_bits()),
        height: FlexDimension::Percent((1.0f32).to_bits()),
    };
    FlexNode {
        element: Some(FlexElement::Rect(FlexRect {
            global: FlexGlobalAttribs {
                id: "child1".to_string(),
                class: String::new(),
                style: String::new(),
            },
            attribs: FlexRectAttribs::default(),
            rect: true,
        })),
        layout,
        root: None,
        nodes: vec![],
    }
}

fn text_child(width_percent: f32, text: &str) -> FlexNode {
    let mut layout = FlexLayout::default();
    layout.size = FlexSize {
        width: FlexDimension::Percent(width_percent.to_bits()),
        height: FlexDimension::Percent((1.0f32).to_bits()),
    };
    FlexNode {
        element: Some(FlexElement::Text(FlexText {
            global: FlexGlobalAttribs {
                id: "child2".to_string(),
                class: String::new(),
                style: String::new(),
            },
            attribs: FlexTextAttribs {},
            text: text.to_string(),
        })),
        layout,
        root: None,
        nodes: vec![],
    }
}

/// A root sized to the whole 100 by 100 available space, with a rect child
/// and a text child of 50% width each: the document is sized to the root's
/// resolved box, holds no style block, and lists the text element (declared
/// second) before the rect element.
#[test]
fn two_children_end_to_end() {
    let mut layout = FlexLayout::default();
    layout.size = FlexSize {
        width: FlexDimension::Percent((1.0f32).to_bits()),
        height: FlexDimension::Percent((1.0f32).to_bits()),
    };
    let root = FlexNode {
        element: None,
        layout,
        root: None,
        nodes: vec![rect_child(0.5), text_child(0.5, "hello")],
    };
    let out = compute_svg_string(&root, None).unwrap();
    assert!(
        out.starts_with(
            r#"<svg version="1.0" width="100" height="100" xmlns="http://www.w3.org/2000/svg" xmlns:xlink="http://www.w3.org/1999/xlink">"#
        ),
        "{out}"
    );
    assert!(!out.contains("<style>"), "{out}");
    let text_at = out.find("<text ").unwrap();
    let rect_at = out.find("<rect ").unwrap();
    assert!(text_at < rect_at, "{out}");
    assert!(out.contains(r#"<text x="75" y="50"  width="50" height="100" id="child2" class="" style="" >hello</text>"#), "{out}");
    assert!(out.contains(r#"<rect x="0" y="0"  width="50" height="100" id="child1" class="" style="" ></rect>"#), "{out}");
    assert!(out.ends_with("</svg>\n"), "{out}");
}

/// Each stage on its own keeps the tree's shape: the solver tree and the
/// geometry tree both have the root's two children, in order, with the
/// payload untouched.
#[test]
fn both_stages_preserve_shape_and_payload() {
    let root = FlexNode {
        element: None,
        layout: FlexLayout::default(),
        root: None,
        nodes: vec![rect_child(0.5), text_child(0.5, "hello")],
    };
    let mut arena = taffy::node::Taffy::new();
    let solver_tree = compute_flex_taffy_recursive(&root, &mut arena).unwrap();
    assert!(solver_tree.element.is_none());
    assert_eq!(solver_tree.nodes.len(), 2);
    assert!(matches!(solver_tree.nodes[0].element, Some(FlexElement::Rect(_))));
    assert!(matches!(solver_tree.nodes[1].element, Some(FlexElement::Text(_))));
    let geom = compute_layout_root_recursive(&solver_tree, &arena).unwrap();
    assert!(geom.element.is_none());
    assert_eq!(geom.nodes.len(), 2);
    assert!(matches!(geom.nodes[0].element, Some(FlexElement::Rect(_))));
    match &geom.nodes[1].element {
        Some(FlexElement::Text(t)) => assert_eq!(t.text, "hello"),
        other => panic!("expected the text payload, got {other:?}"),
    }
}

/// A handle from one solver arena is unknown to another: the geometry stage
/// surfaces the solver's rejection instead of inventing a box.
#[test]
fn foreign_handle_is_a_solver_error() {
    let root = FlexNode::default();
    let mut arena = taffy::node::Taffy::new();
    let solver_tree = compute_flex_taffy_recursive(&root, &mut arena).unwrap();
    let other_arena = taffy::node::Taffy::new();
    match compute_layout_root_recursive(&solver_tree, &other_arena) {
        Err(FlexError::Taffy(_)) => {}
        other => panic!("expected the solver's rejection, got {other:?}"),
    }
}

/// The solver can be driven through the pipeline with nested containers;
/// the emitted coordinates are the sums of the ancestors' positions.
#[test]
fn nested_tree_renders_all_elements() {
    let mut inner_layout = FlexLayout::default();
    inner_layout.size = FlexSize {
        width: FlexDimension::Percent((0.5f32).to_bits()),
        height: FlexDimension::Percent((0.5f32).to_bits()),
    };
    let leaf = FlexNode {
        element: Some(FlexElement::Rect(FlexRect {
            global: FlexGlobalAttribs {
                id: "leaf".to_string(),
                class: String::new(),
                style: String::new(),
            },
            attribs: FlexRectAttribs::default(),
            rect: true,
        })),
        layout: inner_layout,
        root: None,
        nodes: vec![],
    };
    let mid = FlexNode {
        element: None,
        layout: FlexLayout::default(),
        root: None,
        nodes: vec![leaf],
    };
    let root = FlexNode {
        element: None,
        layout: FlexLayout::default(),
        root: None,
        nodes: vec![mid],
    };
    let out = compute_svg_string(&root, None).unwrap();
    assert!(out.contains("<rect "), "{out}");
    assert!(out.contains(r#"width="50" height="50""#), "{out}");
}
