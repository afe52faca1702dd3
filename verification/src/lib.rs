//! Turn a declaratively authored, tree-shaped diagram description into a
//! static SVG document, using a flexbox solver for layout.
//!
//! The pipeline has two stages.  First the input tree is mapped, bottom-up,
//! into the solver's node arena, the solver runs once against a fixed
//! 100 by 100 available space, and a geometry tree of the same shape is read
//! back.  Then the geometry tree is serialized into SVG markup, accumulating
//! parent-relative positions along the recursion and emitting children in
//! reversed declaration order so that the first-listed child paints topmost.

pub mod error;
pub mod scalar;
pub mod solver;
pub mod svg;
pub mod types;

use vstd::prelude::*;

use crate::error::FlexError;
use crate::scalar::HUNDRED_BITS;
use crate::solver::{solver_compute_layout, solver_layout, solver_new, solver_new_node,
    FlexTaffyNode, SolverBox};
use crate::types::{copy_element_opt, copy_root_opt, FlexElement, FlexGeomNode, FlexNode,
    FlexPoint, FlexRootData};

verus! {

/// The solver-shaped tree `s` is an order-preserving image of the input tree
/// `n`: the payload is untouched and every level has the same children in
/// the same order.
pub open spec fn solver_matches(n: FlexNode, s: FlexTaffyNode) -> bool
    decreases n,
{
    &&& s.element == n.element
    &&& s.root == n.root
    &&& s.nodes@.len() == n.nodes@.len()
    &&& forall|i: int|
        0 <= i < n.nodes@.len() ==> solver_matches(n.nodes@[i], #[trigger] s.nodes@[i])
}

/// The geometry tree `g` is an order-preserving image of the solver-shaped
/// tree `s`, with the payload carried forward untouched.
pub open spec fn geom_matches(s: FlexTaffyNode, g: FlexGeomNode) -> bool
    decreases s,
{
    &&& g.element == s.element
    &&& g.root == s.root
    &&& g.nodes@.len() == s.nodes@.len()
    &&& forall|i: int|
        0 <= i < s.nodes@.len() ==> geom_matches(s.nodes@[i], #[trigger] g.nodes@[i])
}

/// The geometry tree `g` has the shape and payload of the input tree `n`.
pub open spec fn node_geom_matches(n: FlexNode, g: FlexGeomNode) -> bool
    decreases n,
{
    &&& g.element == n.element
    &&& g.root == n.root
    &&& g.nodes@.len() == n.nodes@.len()
    &&& forall|i: int|
        0 <= i < n.nodes@.len() ==> node_geom_matches(n.nodes@[i], #[trigger] g.nodes@[i])
}

/// Shape preservation composes across the two stages: an input tree, its
/// solver image, and the geometry read back from the solver all have the
/// same shape and payload.
pub proof fn lemma_matches_transitive(n: FlexNode, s: FlexTaffyNode, g: FlexGeomNode)
    requires
        solver_matches(n, s),
        geom_matches(s, g),
    ensures
        node_geom_matches(n, g),
    decreases n,
{
    assert forall|i: int|
        0 <= i < n.nodes@.len() implies node_geom_matches(n.nodes@[i], #[trigger] g.nodes@[i]) by {
        assert(solver_matches(n.nodes@[i], s.nodes@[i]));
        assert(geom_matches(s.nodes@[i], g.nodes@[i]));
        assert(decreases_to!(n => n.nodes));
        assert(decreases_to!(n.nodes => n.nodes@));
        assert(decreases_to!(n.nodes@ => n.nodes@[i]));
        lemma_matches_transitive(n.nodes@[i], s.nodes@[i], g.nodes@[i]);
    }
}

/// Maps the input tree into the solver's arena, bottom-up: all children are
/// registered before their parent, because registering the parent takes the
/// children's handles.  A rejection by the solver aborts the whole pipeline.
pub fn compute_flex_taffy_recursive(node: &FlexNode, taffy: &mut taffy::node::Taffy) -> (r: Result<
    FlexTaffyNode,
    FlexError,
>)
    ensures
        match r {
            Ok(s) => solver_matches(*node, s),
            Err(e) => e is Taffy,
        },
    decreases *node,
{
    let mut flex_taffy_children: Vec<FlexTaffyNode> = Vec::new();
    let mut taffy_children: Vec<taffy::node::Node> = Vec::new();
    let mut i: usize = 0;
    while i < node.nodes.len()
        invariant
            i <= node.nodes@.len(),
            flex_taffy_children@.len() == i,
            forall|k: int|
                0 <= k < i as int ==> solver_matches(
                    node.nodes@[k],
                    #[trigger] flex_taffy_children@[k],
                ),
        decreases node.nodes@.len() - i,
    {
        proof {
            assert(decreases_to!(*node => node.nodes));
            assert(decreases_to!(node.nodes => node.nodes@));
            assert(decreases_to!(node.nodes@ => node.nodes@[i as int]));
            assert(decreases_to!(*node => node.nodes@[i as int]));
        }
        let child = match compute_flex_taffy_recursive(&node.nodes[i], taffy) {
            Ok(c) => c,
            Err(e) => {
                return Err(e);
            },
        };
        taffy_children.push(child.taffy_node);
        flex_taffy_children.push(child);
        i = i + 1;
    }
    let taffy_node = match solver_new_node(taffy, &node.layout, &taffy_children) {
        Ok(h) => h,
        Err(e) => {
            return Err(FlexError::Taffy(e));
        },
    };
    let element = copy_element_opt(&node.element);
    let root = copy_root_opt(&node.root);
    let s = FlexTaffyNode { taffy_node, element, root, nodes: flex_taffy_children };
    Ok(s)
}

/// Walks the solver-shaped tree depth-first, reading each node's resolved
/// box back from the solver and re-attaching the payload.  The solver has
/// already resolved every node, so this stage is a pure re-projection.
pub fn compute_layout_root_recursive(parent: &FlexTaffyNode, taffy: &taffy::node::Taffy) -> (r:
    Result<FlexGeomNode, FlexError>)
    ensures
        match r {
            Ok(g) => geom_matches(*parent, g),
            Err(e) => e is Taffy,
        },
    decreases *parent,
{
    let mut children_nodes: Vec<FlexGeomNode> = Vec::new();
    let mut i: usize = 0;
    while i < parent.nodes.len()
        invariant
            i <= parent.nodes@.len(),
            children_nodes@.len() == i,
            forall|k: int|
                0 <= k < i as int ==> geom_matches(parent.nodes@[k], #[trigger] children_nodes@[k]),
        decreases parent.nodes@.len() - i,
    {
        proof {
            assert(decreases_to!(*parent => parent.nodes));
            assert(decreases_to!(parent.nodes => parent.nodes@));
            assert(decreases_to!(parent.nodes@ => parent.nodes@[i as int]));
            assert(decreases_to!(*parent => parent.nodes@[i as int]));
        }
        let layout_node = match compute_layout_root_recursive(&parent.nodes[i], taffy) {
            Ok(g) => g,
            Err(e) => {
                return Err(e);
            },
        };
        children_nodes.push(layout_node);
        i = i + 1;
    }
    let taffy_layout = match solver_layout(taffy, parent.taffy_node) {
        Ok(b) => b,
        Err(e) => {
            return Err(FlexError::Taffy(e));
        },
    };
    let element = copy_element_opt(&parent.element);
    let root = copy_root_opt(&parent.root);
    Ok(geom_of_box(element, root, taffy_layout, children_nodes))
}

/// Weaves one resolved box into a geometry node: the node takes exactly the
/// solver's resolved width and height and its parent-relative position, and
/// carries the payload and the children untouched.
pub fn geom_of_box(
    element: Option<FlexElement>,
    root: Option<FlexRootData>,
    b: SolverBox,
    children: Vec<FlexGeomNode>,
) -> (g: FlexGeomNode)
    ensures
        g.width == b.width,
        g.height == b.height,
        g.position.x == b.x,
        g.position.y == b.y,
        g.element == element,
        g.root == root,
        g.nodes@ == children@,
{
    FlexGeomNode {
        width: b.width,
        height: b.height,
        position: FlexPoint { x: b.x, y: b.y },
        element,
        root,
        nodes: children,
    }
}

/// Runs the layout stage: builds the solver tree, solves it against the
/// fixed 100 by 100 available space (the basis against which the root's own
/// percentage sizes resolve), and reads back the geometry tree.
pub fn compute_layout_root(node: &FlexNode) -> (r: Result<FlexGeomNode, FlexError>)
    ensures
        match r {
            Ok(g) => node_geom_matches(*node, g),
            Err(e) => e is Taffy,
        },
{
    let mut taffy = solver_new();
    let flex_taffy_root = match compute_flex_taffy_recursive(node, &mut taffy) {
        Ok(s) => s,
        Err(e) => {
            return Err(e);
        },
    };
    match solver_compute_layout(&mut taffy, flex_taffy_root.taffy_node, HUNDRED_BITS, HUNDRED_BITS) {
        Ok(_) => {},
        Err(e) => {
            return Err(FlexError::Taffy(e));
        },
    }
    let root = match compute_layout_root_recursive(&flex_taffy_root, &taffy) {
        Ok(g) => g,
        Err(e) => {
            return Err(e);
        },
    };
    proof {
        lemma_matches_transitive(*node, flex_taffy_root, root);
    }
    Ok(root)
}

/// The whole pipeline: solve the layout for the input tree, then serialize
/// the geometry tree into an SVG document.
///
/// `stylesheet_text` carries the contents of the stylesheet file the root
/// references, when the caller found such a file next to the input document;
/// with `None` the reference string itself becomes the inline style text.
/// On success the output is exactly the document that `spec_svg_document`
/// describes for a geometry tree with the input's shape and payload.
pub fn compute_svg_string(root: &FlexNode, stylesheet_text: Option<&str>) -> (r: Result<
    String,
    FlexError,
>)
    ensures
        match r {
            Ok(out) => exists|g: FlexGeomNode|
                node_geom_matches(*root, g) && out@ == crate::svg::spec_svg_document(
                    g,
                    crate::svg::spec_opt_text(stylesheet_text),
                ),
            Err(e) => e is Taffy,
        },
{
    let layout_root = match compute_layout_root(root) {
        Ok(g) => g,
        Err(e) => {
            return Err(e);
        },
    };
    let out = crate::svg::render_svg(&layout_root, stylesheet_text);
    proof {
        assert(node_geom_matches(*root, layout_root) && out@ == crate::svg::spec_svg_document(
            layout_root,
            crate::svg::spec_opt_text(stylesheet_text),
        ));
    }
    Ok(out)
}

/// How many nodes an input tree has.
pub open spec fn flex_node_count(n: FlexNode) -> nat
    decreases n,
{
    1 + flex_seq_count(n.nodes@)
}

pub open spec fn flex_seq_count(s: Seq<FlexNode>) -> nat
    decreases s,
{
    if s.len() == 0 {
        0nat
    } else {
        flex_node_count(s.last()) + flex_seq_count(s.drop_last())
    }
}

/// How many nodes a solver-shaped tree has.
pub open spec fn taffy_node_count(s: FlexTaffyNode) -> nat
    decreases s,
{
    1 + taffy_seq_count(s.nodes@)
}

pub open spec fn taffy_seq_count(s: Seq<FlexTaffyNode>) -> nat
    decreases s,
{
    if s.len() == 0 {
        0nat
    } else {
        taffy_node_count(s.last()) + taffy_seq_count(s.drop_last())
    }
}

/// The solver stage preserves the node count: the solver-shaped tree has
/// exactly as many nodes as the input tree.
pub proof fn lemma_solver_count_preserved(n: FlexNode, s: FlexTaffyNode)
    requires
        solver_matches(n, s),
    ensures
        taffy_node_count(s) == flex_node_count(n),
    decreases n,
{
    lemma_solver_count_preserved_seq(n.nodes@, s.nodes@);
}

pub proof fn lemma_solver_count_preserved_seq(ns: Seq<FlexNode>, ss: Seq<FlexTaffyNode>)
    requires
        ns.len() == ss.len(),
        forall|i: int| 0 <= i < ns.len() ==> solver_matches(ns[i], #[trigger] ss[i]),
    ensures
        taffy_seq_count(ss) == flex_seq_count(ns),
    decreases ns,
{
    if ns.len() > 0 {
        assert(solver_matches(ns.last(), ss.last()));
        assert(decreases_to!(ns => ns.last()));
        lemma_solver_count_preserved(ns.last(), ss.last());
        assert forall|i: int|
            0 <= i < ns.drop_last().len() implies solver_matches(
            ns.drop_last()[i],
            #[trigger] ss.drop_last()[i],
        ) by {
            assert(ns.drop_last()[i] == ns[i]);
            assert(ss.drop_last()[i] == ss[i]);
        }
        lemma_solver_count_preserved_seq(ns.drop_last(), ss.drop_last());
    }
}

/// How many nodes a geometry tree has.
pub open spec fn geom_node_count(g: FlexGeomNode) -> nat
    decreases g,
{
    1 + geom_seq_count(g.nodes@)
}

pub open spec fn geom_seq_count(s: Seq<FlexGeomNode>) -> nat
    decreases s,
{
    if s.len() == 0 {
        0nat
    } else {
        geom_node_count(s.last()) + geom_seq_count(s.drop_last())
    }
}

/// Shape preservation in numbers: a geometry tree with the shape of an
/// input tree has exactly as many nodes.
pub proof fn lemma_count_preserved(n: FlexNode, g: FlexGeomNode)
    requires
        node_geom_matches(n, g),
    ensures
        geom_node_count(g) == flex_node_count(n),
    decreases n,
{
    lemma_count_preserved_seq(n.nodes@, g.nodes@);
}

pub proof fn lemma_count_preserved_seq(ns: Seq<FlexNode>, gs: Seq<FlexGeomNode>)
    requires
        ns.len() == gs.len(),
        forall|i: int| 0 <= i < ns.len() ==> node_geom_matches(ns[i], #[trigger] gs[i]),
    ensures
        geom_seq_count(gs) == flex_seq_count(ns),
    decreases ns,
{
    if ns.len() > 0 {
        assert(node_geom_matches(ns.last(), gs.last()));
        assert(decreases_to!(ns => ns.last()));
        lemma_count_preserved(ns.last(), gs.last());
        assert forall|i: int|
            0 <= i < ns.drop_last().len() implies node_geom_matches(
            ns.drop_last()[i],
            #[trigger] gs.drop_last()[i],
        ) by {
            assert(ns.drop_last()[i] == ns[i]);
            assert(gs.drop_last()[i] == gs[i]);
        }
        lemma_count_preserved_seq(ns.drop_last(), gs.drop_last());
    }
}

} // verus!
