//! Serializing a geometry tree into SVG markup.
//!
//! The emitted text is pinned down exactly by the spec functions below.  The
//! renderer keeps a running offset — the sum of every strict ancestor's
//! parent-relative position — and emits children in reversed declaration
//! order, so that the first-declared child is painted last and therefore
//! topmost.

use vstd::prelude::*;

use crate::scalar::{add_scalar, format_scalar, mul_scalar, product_bits, scalar_text,
    sum_bits, HALF_BITS, ZERO_BITS};
use crate::types::{FlexElement, FlexGeomNode, FlexGlobalAttribs, FlexRootData};

verus! {

/// One emitted attribute: `name="value" `.
pub open spec fn spec_attr(name: Seq<char>, value: Seq<char>) -> Seq<char> {
    name + "=\""@ + value + "\" "@
}

/// The three global attributes every visual element carries, in order.
pub open spec fn spec_global_attrs(g: FlexGlobalAttribs) -> Seq<char> {
    spec_attr("id"@, g.id@) + spec_attr("class"@, g.class@) + spec_attr("style"@, g.style@)
}

/// One emitted element: tag, box, attributes, then the literal content.
pub open spec fn spec_tag(
    tag: Seq<char>,
    x: u32,
    y: u32,
    w: u32,
    h: u32,
    attrs: Seq<char>,
    value: Seq<char>,
) -> Seq<char> {
    "<"@ + tag + " x=\""@ + scalar_text(x) + "\" y=\""@ + scalar_text(y) + "\"  width=\""@
        + scalar_text(w) + "\" height=\""@ + scalar_text(h) + "\" "@ + attrs + ">"@ + value + "</"@
        + tag + ">\n"@
}

/// The markup of a node's own visual element, rendered with the accumulated
/// offset of its strict ancestors.  A rectangle sits at the box's top-left
/// corner; a text label is centered inside the box.
pub open spec fn spec_element(n: FlexGeomNode, ox: u32, oy: u32) -> Seq<char> {
    let x = sum_bits(ox, n.position.x);
    let y = sum_bits(oy, n.position.y);
    match n.element {
        Some(FlexElement::Rect(r)) => spec_tag(
            "rect"@,
            x,
            y,
            n.width,
            n.height,
            spec_global_attrs(r.global),
            Seq::<char>::empty(),
        ),
        Some(FlexElement::Text(t)) => spec_tag(
            "text"@,
            sum_bits(x, product_bits(HALF_BITS, n.width)),
            sum_bits(y, product_bits(HALF_BITS, n.height)),
            n.width,
            n.height,
            spec_global_attrs(t.global),
            t.text@,
        ),
        None => Seq::<char>::empty(),
    }
}

/// Whether any direct child carries a visual element; if so the children are
/// wrapped in a purely organizational group.
pub open spec fn spec_has_child_element(n: FlexGeomNode) -> bool {
    exists|i: int| 0 <= i < n.nodes@.len() && n.nodes@[i].element is Some
}

/// The markup of a whole subtree, rendered with the given accumulated
/// offset: the optional group wrapper, the node's own element, then the
/// children in reversed declaration order, each with the offset advanced by
/// this node's own position.
pub open spec fn spec_render_node(n: FlexGeomNode, ox: u32, oy: u32) -> Seq<char>
    decreases n,
{
    let open_part = if spec_has_child_element(n) {
        "<g>\n"@
    } else {
        Seq::<char>::empty()
    };
    let close_part = if spec_has_child_element(n) {
        "</g>\n"@
    } else {
        Seq::<char>::empty()
    };
    open_part + spec_element(n, ox, oy) + spec_render_children(
        n.nodes@,
        sum_bits(ox, n.position.x),
        sum_bits(oy, n.position.y),
    ) + close_part
}

/// The markup of a child list: the last-declared child first, then the rest,
/// so that the first-declared child is emitted last and painted topmost.
pub open spec fn spec_render_children(cs: Seq<FlexGeomNode>, ox: u32, oy: u32) -> Seq<char>
    decreases cs,
{
    if cs.len() == 0 {
        Seq::<char>::empty()
    } else {
        spec_render_node(cs.last(), ox, oy) + spec_render_children(cs.drop_last(), ox, oy)
    }
}

/// The document preamble, sized to the root's resolved box.
pub open spec fn spec_preamble(w: u32, h: u32) -> Seq<char> {
    "<svg version=\"1.0\" width=\""@ + scalar_text(w) + "\" height=\""@ + scalar_text(h)
        + "\" xmlns=\"http://www.w3.org/2000/svg\" xmlns:xlink=\"http://www.w3.org/1999/xlink\">\n"@
}

/// The style block: present exactly when the root carries a stylesheet
/// reference.  `resolved` holds the referenced file's contents when such a
/// file existed; otherwise the reference string itself is the inline style
/// text.
pub open spec fn spec_style_block(root: Option<FlexRootData>, resolved: Option<Seq<char>>) -> Seq<
    char,
> {
    match root {
        Some(rd) => match rd.stylesheet {
            Some(ss) => "<style>\n"@ + (match resolved {
                Some(t) => t,
                None => ss@,
            }) + "\n</style>\n"@,
            None => Seq::<char>::empty(),
        },
        None => Seq::<char>::empty(),
    }
}

/// The whole document: preamble, optional style block, the rendered tree
/// starting from a zero offset, and the closing root element.
pub open spec fn spec_svg_document(n: FlexGeomNode, resolved: Option<Seq<char>>) -> Seq<char> {
    spec_preamble(n.width, n.height) + spec_style_block(n.root, resolved) + spec_render_node(
        n,
        ZERO_BITS,
        ZERO_BITS,
    ) + "</svg>\n"@
}

pub open spec fn spec_opt_text(o: Option<&str>) -> Option<Seq<char>> {
    match o {
        Some(s) => Some(s@),
        None => None,
    }
}

fn emit_attr(svg: &mut String, name: &str, value: &String)
    ensures
        final(svg)@ == old(svg)@ + spec_attr(name@, value@),
{
    svg.append(name);
    svg.append("=\"");
    svg.append(value.as_str());
    svg.append("\" ");
    proof {
        assert(final(svg)@ =~= old(svg)@ + spec_attr(name@, value@));
    }
}

fn emit_tag(svg: &mut String, tag: &str, x: u32, y: u32, w: u32, h: u32, g: &FlexGlobalAttribs, value: &str)
    ensures
        final(svg)@ == old(svg)@ + spec_tag(tag@, x, y, w, h, spec_global_attrs(*g), value@),
{
    svg.append("<");
    svg.append(tag);
    svg.append(" x=\"");
    let xs = format_scalar(x);
    svg.append(xs.as_str());
    svg.append("\" y=\"");
    let ys = format_scalar(y);
    svg.append(ys.as_str());
    svg.append("\"  width=\"");
    let ws = format_scalar(w);
    svg.append(ws.as_str());
    svg.append("\" height=\"");
    let hs = format_scalar(h);
    svg.append(hs.as_str());
    svg.append("\" ");
    emit_attr(svg, "id", &g.id);
    emit_attr(svg, "class", &g.class);
    emit_attr(svg, "style", &g.style);
    svg.append(">");
    svg.append(value);
    svg.append("</");
    svg.append(tag);
    svg.append(">\n");
    proof {
        assert(final(svg)@ =~= old(svg)@ + spec_tag(tag@, x, y, w, h, spec_global_attrs(*g), value@));
    }
}

fn has_child_element(n: &FlexGeomNode) -> (r: bool)
    ensures
        r == spec_has_child_element(*n),
{
    let mut i: usize = 0;
    let mut found = false;
    while i < n.nodes.len()
        invariant
            i <= n.nodes@.len(),
            found == exists|k: int| 0 <= k < i as int && n.nodes@[k].element is Some,
        decreases n.nodes@.len() - i,
    {
        if n.nodes[i].element.is_some() {
            found = true;
        }
        i = i + 1;
    }
    found
}

/// Peeling a child list from the front: the whole list renders as the rest
/// (still reversed) followed by the first-declared child.
proof fn lemma_render_children_split_first(cs: Seq<FlexGeomNode>, ox: u32, oy: u32)
    requires
        cs.len() > 0,
    ensures
        spec_render_children(cs, ox, oy) == spec_render_children(cs.drop_first(), ox, oy)
            + spec_render_node(cs[0], ox, oy),
    decreases cs.len(),
{
    if cs.len() == 1 {
        assert(cs.drop_last() =~= Seq::<FlexGeomNode>::empty());
        assert(cs.drop_first() =~= Seq::<FlexGeomNode>::empty());
        assert(spec_render_children(cs, ox, oy) =~= spec_render_children(cs.drop_first(), ox, oy)
            + spec_render_node(cs[0], ox, oy));
    } else {
        lemma_render_children_split_first(cs.drop_last(), ox, oy);
        assert(cs.drop_last().drop_first() =~= cs.drop_first().drop_last());
        assert(cs.drop_last()[0] == cs[0]);
        assert(cs.drop_first().last() == cs.last());
        assert(spec_render_children(cs.drop_first(), ox, oy) == spec_render_node(cs.last(), ox, oy)
            + spec_render_children(cs.drop_first().drop_last(), ox, oy));
        assert(spec_render_children(cs, ox, oy) =~= spec_render_children(cs.drop_first(), ox, oy)
            + spec_render_node(cs[0], ox, oy));
    }
}

/// Serializes one subtree into the buffer, appending exactly the text that
/// `spec_render_node` describes for the given accumulated offset.
pub fn compute_svg_string_recursive(node: &FlexGeomNode, svg: &mut String, x: u32, y: u32)
    ensures
        final(svg)@ == old(svg)@ + spec_render_node(*node, x, y),
    decreases *node,
{
    let ghost svg0 = svg@;
    let has_elements = has_child_element(node);
    if has_elements {
        svg.append("<g>\n");
    }
    match &node.element {
        Some(FlexElement::Rect(r)) => {
            let ex = add_scalar(x, node.position.x);
            let ey = add_scalar(y, node.position.y);
            emit_tag(svg, "rect", ex, ey, node.width, node.height, &r.global, "");
            proof {
                reveal_strlit("");
                assert(""@ =~= Seq::<char>::empty());
            }
        },
        Some(FlexElement::Text(t)) => {
            let ex = add_scalar(add_scalar(x, node.position.x), mul_scalar(HALF_BITS, node.width));
            let ey = add_scalar(add_scalar(y, node.position.y), mul_scalar(HALF_BITS, node.height));
            emit_tag(svg, "text", ex, ey, node.width, node.height, &t.global, t.text.as_str());
        },
        None => {},
    }
    let ghost open_part = if spec_has_child_element(*node) { "<g>\n"@ } else { Seq::<char>::empty() };
    let cx = add_scalar(x, node.position.x);
    let cy = add_scalar(y, node.position.y);
    let mut i: usize = node.nodes.len();
    proof {
        assert(node.nodes@.skip(i as int) =~= Seq::<FlexGeomNode>::empty());
        assert(svg@ =~= svg0 + open_part + spec_element(*node, x, y) + spec_render_children(
            node.nodes@.skip(i as int),
            cx,
            cy,
        ));
    }
    while i > 0
        invariant
            i <= node.nodes@.len(),
            cx == sum_bits(x, node.position.x),
            cy == sum_bits(y, node.position.y),
            svg@ == svg0 + open_part + spec_element(*node, x, y) + spec_render_children(
                node.nodes@.skip(i as int),
                cx,
                cy,
            ),
        decreases i,
    {
        i = i - 1;
        proof {
            assert(decreases_to!(*node => node.nodes));
            assert(decreases_to!(node.nodes => node.nodes@));
            assert(decreases_to!(node.nodes@ => node.nodes@[i as int]));
            assert(decreases_to!(*node => node.nodes@[i as int]));
        }
        compute_svg_string_recursive(&node.nodes[i], svg, cx, cy);
        proof {
            lemma_render_children_split_first(node.nodes@.skip(i as int), cx, cy);
            assert(node.nodes@.skip(i as int).drop_first() =~= node.nodes@.skip(i as int + 1));
            assert(node.nodes@.skip(i as int)[0] == node.nodes@[i as int]);
            assert(svg@ =~= svg0 + open_part + spec_element(*node, x, y) + spec_render_children(
                node.nodes@.skip(i as int),
                cx,
                cy,
            ));
        }
    }
    proof {
        assert(node.nodes@.skip(0) =~= node.nodes@);
    }
    if has_elements {
        svg.append("</g>\n");
    }
    proof {
        assert(final(svg)@ =~= old(svg)@ + spec_render_node(*node, x, y));
    }
}

/// Splitting a child list at `k`: the whole list renders as the suffix from
/// `k` (still reversed) followed by the first `k` children (still reversed).
pub proof fn lemma_render_children_split_at(cs: Seq<FlexGeomNode>, k: int, ox: u32, oy: u32)
    requires
        0 <= k <= cs.len(),
    ensures
        spec_render_children(cs, ox, oy) == spec_render_children(cs.skip(k), ox, oy)
            + spec_render_children(cs.take(k), ox, oy),
    decreases k,
{
    if k == 0 {
        assert(cs.skip(0) =~= cs);
        assert(cs.take(0) =~= Seq::<FlexGeomNode>::empty());
        assert(spec_render_children(cs, ox, oy) =~= spec_render_children(cs.skip(0), ox, oy)
            + spec_render_children(cs.take(0), ox, oy));
    } else {
        lemma_render_children_split_at(cs, k - 1, ox, oy);
        lemma_render_children_split_first(cs.skip(k - 1), ox, oy);
        assert(cs.skip(k - 1).drop_first() =~= cs.skip(k));
        assert(cs.skip(k - 1)[0] == cs[k - 1]);
        assert(cs.take(k).last() == cs[k - 1]);
        assert(cs.take(k).drop_last() =~= cs.take(k - 1));
        assert(spec_render_children(cs.take(k), ox, oy) == spec_render_node(cs[k - 1], ox, oy)
            + spec_render_children(cs.take(k - 1), ox, oy));
        assert(spec_render_children(cs, ox, oy) =~= spec_render_children(cs.skip(k), ox, oy)
            + spec_render_children(cs.take(k), ox, oy));
    }
}

/// Paint-order inversion: among the children of one parent, a later-declared
/// child's markup is emitted strictly before an earlier-declared one's, so
/// the earlier-declared child paints on top of it.  For any two children
/// `i < j`, the list's markup decomposes with `j`'s whole segment before
/// `i`'s.
#[verifier::rlimit(60)]
pub proof fn lemma_paint_order(cs: Seq<FlexGeomNode>, ox: u32, oy: u32, i: int, j: int)
    requires
        0 <= i < j < cs.len(),
    ensures
        spec_render_children(cs, ox, oy) == spec_render_children(cs.skip(j + 1), ox, oy)
            + spec_render_node(cs[j], ox, oy) + spec_render_children(cs.subrange(i + 1, j), ox, oy)
            + spec_render_node(cs[i], ox, oy) + spec_render_children(cs.take(i), ox, oy),
{
    lemma_render_children_split_at(cs, j + 1, ox, oy);
    assert(cs.take(j + 1).last() == cs[j]);
    assert(cs.take(j + 1).drop_last() =~= cs.take(j));
    assert(spec_render_children(cs.take(j + 1), ox, oy) == spec_render_node(cs[j], ox, oy)
        + spec_render_children(cs.take(j), ox, oy));
    lemma_render_children_split_at(cs.take(j), i + 1, ox, oy);
    assert(cs.take(j).skip(i + 1) =~= cs.subrange(i + 1, j));
    assert(cs.take(j).take(i + 1) =~= cs.take(i + 1));
    assert(cs.take(i + 1).last() == cs[i]);
    assert(cs.take(i + 1).drop_last() =~= cs.take(i));
    assert(spec_render_children(cs.take(i + 1), ox, oy) == spec_render_node(cs[i], ox, oy)
        + spec_render_children(cs.take(i), ox, oy));
    assert(spec_render_children(cs, ox, oy) =~= spec_render_children(cs.skip(j + 1), ox, oy)
        + spec_render_node(cs[j], ox, oy) + spec_render_children(cs.subrange(i + 1, j), ox, oy)
        + spec_render_node(cs[i], ox, oy) + spec_render_children(cs.take(i), ox, oy));
}

/// Whether `path` names a node of the tree: each step picks a child index.
pub open spec fn path_valid(t: FlexGeomNode, path: Seq<int>) -> bool
    decreases path.len(),
{
    path.len() == 0 || (0 <= path[0] < t.nodes@.len() && path_valid(
        t.nodes@[path[0]],
        path.drop_first(),
    ))
}

/// The node `path` names.
pub open spec fn node_at(t: FlexGeomNode, path: Seq<int>) -> FlexGeomNode
    decreases path.len(),
{
    if path.len() == 0 {
        t
    } else {
        node_at(t.nodes@[path[0]], path.drop_first())
    }
}

/// The horizontal offset handed to the node `path` names, when the tree is
/// rendered with offset `ox`: the running binary32 sum of every strict
/// ancestor's own parent-relative position.
pub open spec fn abs_offset_x(t: FlexGeomNode, path: Seq<int>, ox: u32) -> u32
    decreases path.len(),
{
    if path.len() == 0 {
        ox
    } else {
        abs_offset_x(t.nodes@[path[0]], path.drop_first(), sum_bits(ox, t.position.x))
    }
}

/// The vertical counterpart of `abs_offset_x`.
pub open spec fn abs_offset_y(t: FlexGeomNode, path: Seq<int>, oy: u32) -> u32
    decreases path.len(),
{
    if path.len() == 0 {
        oy
    } else {
        abs_offset_y(t.nodes@[path[0]], path.drop_first(), sum_bits(oy, t.position.y))
    }
}

/// Coordinate accumulation: any node of the tree is rendered somewhere
/// inside the tree's markup, with exactly the offset accumulated along its
/// path — the sum of all strict ancestors' positions — so its own element,
/// if any, stands at that offset plus its own position.
#[verifier::rlimit(100)]
pub proof fn lemma_coordinate_accumulation(t: FlexGeomNode, path: Seq<int>, ox: u32, oy: u32)
    requires
        path_valid(t, path),
    ensures
        exists|pre: Seq<char>, post: Seq<char>|
            spec_render_node(t, ox, oy) == pre + spec_render_node(
                node_at(t, path),
                abs_offset_x(t, path, ox),
                abs_offset_y(t, path, oy),
            ) + post,
    decreases path.len(),
{
    if path.len() == 0 {
        let pre = Seq::<char>::empty();
        let post = Seq::<char>::empty();
        assert(spec_render_node(t, ox, oy) =~= pre + spec_render_node(
            node_at(t, path),
            abs_offset_x(t, path, ox),
            abs_offset_y(t, path, oy),
        ) + post);
    } else {
        let c = path[0];
        let child = t.nodes@[c];
        let cx = sum_bits(ox, t.position.x);
        let cy = sum_bits(oy, t.position.y);
        lemma_coordinate_accumulation(child, path.drop_first(), cx, cy);
        let target = spec_render_node(
            node_at(t, path),
            abs_offset_x(t, path, ox),
            abs_offset_y(t, path, oy),
        );
        let (pre1, post1) = choose|pre1: Seq<char>, post1: Seq<char>|
            spec_render_node(child, cx, cy) == pre1 + target + post1;
        lemma_render_children_split_at(t.nodes@, c + 1, cx, cy);
        assert(t.nodes@.take(c + 1).last() == child);
        assert(t.nodes@.take(c + 1).drop_last() =~= t.nodes@.take(c));
        assert(spec_render_children(t.nodes@.take(c + 1), cx, cy) == spec_render_node(
            child,
            cx,
            cy,
        ) + spec_render_children(t.nodes@.take(c), cx, cy));
        let open_part = if spec_has_child_element(t) {
            "<g>\n"@
        } else {
            Seq::<char>::empty()
        };
        let close_part = if spec_has_child_element(t) {
            "</g>\n"@
        } else {
            Seq::<char>::empty()
        };
        let pre = open_part + spec_element(t, ox, oy) + spec_render_children(
            t.nodes@.skip(c + 1),
            cx,
            cy,
        ) + pre1;
        let post = post1 + spec_render_children(t.nodes@.take(c), cx, cy) + close_part;
        assert(spec_render_node(t, ox, oy) =~= pre + target + post);
    }
}

/// The positions along `path`, root first: the `x` coordinates of the
/// strict ancestors of the node the path names.
pub open spec fn ancestor_positions_x(t: FlexGeomNode, path: Seq<int>) -> Seq<u32>
    decreases path.len(),
{
    if path.len() == 0 {
        Seq::<u32>::empty()
    } else {
        seq![t.position.x] + ancestor_positions_x(t.nodes@[path[0]], path.drop_first())
    }
}

/// The vertical counterpart of `ancestor_positions_x`.
pub open spec fn ancestor_positions_y(t: FlexGeomNode, path: Seq<int>) -> Seq<u32>
    decreases path.len(),
{
    if path.len() == 0 {
        Seq::<u32>::empty()
    } else {
        seq![t.position.y] + ancestor_positions_y(t.nodes@[path[0]], path.drop_first())
    }
}

/// A running binary32 sum over a list of scalars, left to right.
pub open spec fn spec_sum_fold(s: Seq<u32>, init: u32) -> u32
    decreases s.len(),
{
    if s.len() == 0 {
        init
    } else {
        spec_sum_fold(s.drop_first(), sum_bits(init, s[0]))
    }
}

/// Coordinate accumulation in sum form: the offset handed to the node a
/// path names equals the running binary32 sum of all its strict ancestors'
/// positions, starting from the offset the tree was rendered with.
pub proof fn lemma_offset_is_ancestor_sum(t: FlexGeomNode, path: Seq<int>, ox: u32, oy: u32)
    ensures
        abs_offset_x(t, path, ox) == spec_sum_fold(ancestor_positions_x(t, path), ox),
        abs_offset_y(t, path, oy) == spec_sum_fold(ancestor_positions_y(t, path), oy),
    decreases path.len(),
{
    if path.len() > 0 {
        let child = t.nodes@[path[0]];
        let rest = path.drop_first();
        lemma_offset_is_ancestor_sum(child, rest, sum_bits(ox, t.position.x), sum_bits(
            oy,
            t.position.y,
        ));
        assert((seq![t.position.x] + ancestor_positions_x(child, rest)).drop_first()
            =~= ancestor_positions_x(child, rest));
        assert((seq![t.position.y] + ancestor_positions_y(child, rest)).drop_first()
            =~= ancestor_positions_y(child, rest));
        assert((seq![t.position.x] + ancestor_positions_x(child, rest))[0] == t.position.x);
        assert((seq![t.position.y] + ancestor_positions_y(child, rest))[0] == t.position.y);
    }
}

/// Stylesheet fallback: when the root names a stylesheet, the style block
/// inlines the resolved file contents when there are any, and otherwise the
/// reference string itself, verbatim.
pub proof fn lemma_stylesheet_fallback(ss: String, resolved: Option<Seq<char>>)
    ensures
        spec_style_block(Some((FlexRootData { stylesheet: Some(ss) })), resolved) == "<style>\n"@
            + (match resolved {
            Some(t) => t,
            None => ss@,
        }) + "\n</style>\n"@,
{
}

/// Serializes a geometry tree into a complete SVG document.  `stylesheet_text`
/// carries the contents of the root's referenced stylesheet when such a file
/// existed; when it is `None` and the root still names a stylesheet, the
/// reference string itself is inlined as the style text.
pub fn render_svg(node: &FlexGeomNode, stylesheet_text: Option<&str>) -> (r: String)
    ensures
        r@ == spec_svg_document(*node, spec_opt_text(stylesheet_text)),
{
    let mut svg = String::new();
    svg.append("<svg version=\"1.0\" width=\"");
    let ws = format_scalar(node.width);
    svg.append(ws.as_str());
    svg.append("\" height=\"");
    let hs = format_scalar(node.height);
    svg.append(hs.as_str());
    svg.append("\" xmlns=\"http://www.w3.org/2000/svg\" xmlns:xlink=\"http://www.w3.org/1999/xlink\">\n");
    assert(svg@ =~= spec_preamble(node.width, node.height));
    match &node.root {
        Some(rd) => match &rd.stylesheet {
            Some(ss) => {
                svg.append("<style>\n");
                match stylesheet_text {
                    Some(t) => svg.append(t),
                    None => svg.append(ss.as_str()),
                }
                svg.append("\n</style>\n");
            },
            None => {},
        },
        None => {},
    }
    assert(svg@ =~= spec_preamble(node.width, node.height) + spec_style_block(
        node.root,
        spec_opt_text(stylesheet_text),
    ));
    compute_svg_string_recursive(node, &mut svg, ZERO_BITS, ZERO_BITS);
    svg.append("</svg>\n");
    proof {
        assert(svg@ =~= spec_svg_document(*node, spec_opt_text(stylesheet_text)));
    }
    svg
}

} // verus!
