//! The trusted boundary around the flexbox solver.
//!
//! Everything the crate asks of the solver goes through the functions here:
//! registering nodes bottom-up, computing a layout for a given available
//! space, and reading back each node's resolved box.  The solver is a black
//! box: no contract below claims anything about the geometry it returns.

use vstd::prelude::*;

use crate::types::{DimensionRect, FlexDimension, FlexElement, FlexLayout, FlexRootData,
    StyleDimension};

verus! {

#[verifier::external_type_specification]
#[verifier::external_body]
pub struct ExTaffy(taffy::node::Taffy);

#[verifier::external_type_specification]
#[verifier::external_body]
pub struct ExNode(taffy::node::Node);

#[verifier::external_type_specification]
#[verifier::external_body]
pub struct ExTaffyError(taffy::Error);

#[verifier::external_type_specification]
#[verifier::external_body]
pub struct ExStyle(taffy::style::Style);

#[verifier::external_type_specification]
#[verifier::external_body]
pub struct ExDimension(taffy::style::Dimension);

#[verifier::external_type_specification]
#[verifier::external_body]
#[verifier::reject_recursive_types(T)]
pub struct ExRect<T>(taffy::geometry::Rect<T>);

/// A node of the solver-shaped tree: the solver's handle for the node, the
/// untouched payload, and the children in declaration order.
pub struct FlexTaffyNode {
    pub taffy_node: taffy::node::Node,
    pub element: Option<FlexElement>,
    pub root: Option<FlexRootData>,
    pub nodes: Vec<FlexTaffyNode>,
}

/// The resolved box of a solved node, as scalar bit patterns: absolute
/// width and height, and a position relative to the parent's origin.
pub struct SolverBox {
    pub width: u32,
    pub height: u32,
    pub x: u32,
    pub y: u32,
}

/// Relies on `Taffy::new`: a fresh, empty solver arena.
#[verifier::external_body]
pub(crate) fn solver_new() -> taffy::node::Taffy {
    taffy::node::Taffy::new()
}

/// Builds the solver's value for one of our style lengths; `bytemuck::cast`
/// moves a bit pattern back to its scalar.
#[verifier::external_body]
fn solver_dim(d: &StyleDimension) -> taffy::style::Dimension {
    match d {
        StyleDimension::Undefined => taffy::style::Dimension::Undefined,
        StyleDimension::Auto => taffy::style::Dimension::Auto,
        StyleDimension::Points(b) => taffy::style::Dimension::Points(bytemuck::cast(*b)),
        StyleDimension::Percent(b) => taffy::style::Dimension::Percent(bytemuck::cast(*b)),
    }
}

/// Builds the solver's value for an input-facing size dimension.
#[verifier::external_body]
fn solver_flex_dim(d: &FlexDimension) -> taffy::style::Dimension {
    match d {
        FlexDimension::Auto => taffy::style::Dimension::Auto,
        FlexDimension::Percent(b) => taffy::style::Dimension::Percent(bytemuck::cast(*b)),
        FlexDimension::Points(b) => taffy::style::Dimension::Points(bytemuck::cast(*b)),
    }
}

/// Builds the solver's four-sided box for ours.
#[verifier::external_body]
fn solver_rect(r: &DimensionRect) -> taffy::geometry::Rect<taffy::style::Dimension> {
    taffy::geometry::Rect {
        start: solver_dim(&r.start),
        end: solver_dim(&r.end),
        top: solver_dim(&r.top),
        bottom: solver_dim(&r.bottom),
    }
}

/// Copies the display and flow fields onto the solver's style.
#[verifier::external_body]
fn set_style_modes(s: &mut taffy::style::Style, l: &FlexLayout) {
    s.display = match l.display {
        crate::types::DisplayMode::Flex => taffy::style::Display::Flex,
        crate::types::DisplayMode::Hidden => taffy::style::Display::None,
    };
    s.position_type = match l.position_type {
        crate::types::PositionType::Relative => taffy::style::PositionType::Relative,
        crate::types::PositionType::Absolute => taffy::style::PositionType::Absolute,
    };
    s.flex_wrap = match l.flex_wrap {
        crate::types::FlexWrap::NoWrap => taffy::style::FlexWrap::NoWrap,
        crate::types::FlexWrap::Wrap => taffy::style::FlexWrap::Wrap,
        crate::types::FlexWrap::WrapReverse => taffy::style::FlexWrap::WrapReverse,
    };
}

/// Copies the main-axis direction onto the solver's style.
#[verifier::external_body]
fn set_style_direction(s: &mut taffy::style::Style, l: &FlexLayout) {
    s.flex_direction = match l.flex_direction {
        crate::types::FlexDirection::Row => taffy::style::FlexDirection::Row,
        crate::types::FlexDirection::Column => taffy::style::FlexDirection::Column,
        crate::types::FlexDirection::RowReverse => taffy::style::FlexDirection::RowReverse,
        crate::types::FlexDirection::ColumnReverse => taffy::style::FlexDirection::ColumnReverse,
    };
}

/// Copies the item alignment field onto the solver's style.
#[verifier::external_body]
fn set_style_align_items(s: &mut taffy::style::Style, l: &FlexLayout) {
    s.align_items = match l.align_items {
        crate::types::AlignItems::FlexStart => taffy::style::AlignItems::FlexStart,
        crate::types::AlignItems::FlexEnd => taffy::style::AlignItems::FlexEnd,
        crate::types::AlignItems::Center => taffy::style::AlignItems::Center,
        crate::types::AlignItems::Baseline => taffy::style::AlignItems::Baseline,
        crate::types::AlignItems::Stretch => taffy::style::AlignItems::Stretch,
    };
}

/// Copies the self alignment field onto the solver's style.
#[verifier::external_body]
fn set_style_align_self(s: &mut taffy::style::Style, l: &FlexLayout) {
    s.align_self = match l.align_self {
        crate::types::AlignSelf::Auto => taffy::style::AlignSelf::Auto,
        crate::types::AlignSelf::FlexStart => taffy::style::AlignSelf::FlexStart,
        crate::types::AlignSelf::FlexEnd => taffy::style::AlignSelf::FlexEnd,
        crate::types::AlignSelf::Center => taffy::style::AlignSelf::Center,
        crate::types::AlignSelf::Baseline => taffy::style::AlignSelf::Baseline,
        crate::types::AlignSelf::Stretch => taffy::style::AlignSelf::Stretch,
    };
}

/// Copies the content alignment field onto the solver's style.
#[verifier::external_body]
fn set_style_align_content(s: &mut taffy::style::Style, l: &FlexLayout) {
    s.align_content = match l.align_content {
        crate::types::AlignContent::FlexStart => taffy::style::AlignContent::FlexStart,
        crate::types::AlignContent::FlexEnd => taffy::style::AlignContent::FlexEnd,
        crate::types::AlignContent::Center => taffy::style::AlignContent::Center,
        crate::types::AlignContent::Stretch => taffy::style::AlignContent::Stretch,
        crate::types::AlignContent::SpaceBetween => taffy::style::AlignContent::SpaceBetween,
        crate::types::AlignContent::SpaceAround => taffy::style::AlignContent::SpaceAround,
    };
}

/// Copies the main-axis distribution field onto the solver's style.
#[verifier::external_body]
fn set_style_justify_content(s: &mut taffy::style::Style, l: &FlexLayout) {
    s.justify_content = match l.justify_content {
        crate::types::JustifyContent::FlexStart => taffy::style::JustifyContent::FlexStart,
        crate::types::JustifyContent::FlexEnd => taffy::style::JustifyContent::FlexEnd,
        crate::types::JustifyContent::Center => taffy::style::JustifyContent::Center,
        crate::types::JustifyContent::SpaceBetween => taffy::style::JustifyContent::SpaceBetween,
        crate::types::JustifyContent::SpaceAround => taffy::style::JustifyContent::SpaceAround,
        crate::types::JustifyContent::SpaceEvenly => taffy::style::JustifyContent::SpaceEvenly,
    };
}

/// Copies the four box fields onto the solver's style.
#[verifier::external_body]
fn set_style_boxes(s: &mut taffy::style::Style, l: &FlexLayout) {
    s.position = solver_rect(&l.position);
    s.margin = solver_rect(&l.margin);
    s.padding = solver_rect(&l.padding);
    s.border = solver_rect(&l.border);
}

/// Copies the flex factor fields onto the solver's style.
#[verifier::external_body]
fn set_style_flex_factors(s: &mut taffy::style::Style, l: &FlexLayout) {
    s.flex_grow = bytemuck::cast(l.flex_grow);
    s.flex_shrink = bytemuck::cast(l.flex_shrink);
    s.flex_basis = solver_dim(&l.flex_basis);
    s.aspect_ratio = match l.aspect_ratio {
        Some(b) => taffy::number::Number::Defined(bytemuck::cast(b)),
        None => taffy::number::Number::Undefined,
    };
}

/// Copies the size fields onto the solver's style.
#[verifier::external_body]
fn set_style_sizes(s: &mut taffy::style::Style, l: &FlexLayout) {
    s.size = taffy::geometry::Size {
        width: solver_flex_dim(&l.size.width),
        height: solver_flex_dim(&l.size.height),
    };
    s.min_size = taffy::geometry::Size {
        width: solver_dim(&l.min_size.width),
        height: solver_dim(&l.min_size.height),
    };
    s.max_size = taffy::geometry::Size {
        width: solver_dim(&l.max_size.width),
        height: solver_dim(&l.max_size.height),
    };
}

/// The field-by-field mapping of our style record into the solver's.
#[verifier::external_body]
fn style_of_layout(l: &FlexLayout) -> taffy::style::Style {
    let mut s = taffy::style::Style::default();
    set_style_modes(&mut s, l);
    set_style_direction(&mut s, l);
    set_style_align_items(&mut s, l);
    set_style_align_self(&mut s, l);
    set_style_align_content(&mut s, l);
    set_style_justify_content(&mut s, l);
    set_style_boxes(&mut s, l);
    set_style_flex_factors(&mut s, l);
    set_style_sizes(&mut s, l);
    s
}

/// Relies on `Taffy::new_node`: registers a node with the given style and the
/// already-registered children, and returns the node's handle.  Its only
/// failure is a child handle unknown to this arena.
#[verifier::external_body]
pub(crate) fn solver_new_node(
    t: &mut taffy::node::Taffy,
    layout: &FlexLayout,
    children: &Vec<taffy::node::Node>,
) -> Result<taffy::node::Node, taffy::Error> {
    t.new_node(style_of_layout(layout), children.as_slice())
}

/// Relies on `Taffy::compute_layout`: solves the tree under `root` against a
/// defined available space of the two given scalars.  Its only failure is an
/// unknown root handle.
#[verifier::external_body]
pub(crate) fn solver_compute_layout(
    t: &mut taffy::node::Taffy,
    root: taffy::node::Node,
    width: u32,
    height: u32,
) -> Result<(), taffy::Error> {
    let size = taffy::geometry::Size {
        width: taffy::number::Number::Defined(bytemuck::cast(width)),
        height: taffy::number::Number::Defined(bytemuck::cast(height)),
    };
    t.compute_layout(root, size)
}

/// Relies on `Taffy::layout`: the resolved box of `node`, with its position
/// relative to the parent.  Its only failure is an unknown handle.
#[verifier::external_body]
pub(crate) fn solver_layout(
    t: &taffy::node::Taffy,
    node: taffy::node::Node,
) -> Result<SolverBox, taffy::Error> {
    let l = match t.layout(node) {
        Ok(l) => l,
        Err(e) => return Err(e),
    };
    Ok(SolverBox {
        width: l.size.width.to_bits(),
        height: l.size.height.to_bits(),
        x: l.location.x.to_bits(),
        y: l.location.y.to_bits(),
    })
}

} // verus!
