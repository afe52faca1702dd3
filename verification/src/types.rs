//! The diagram data model: the input tree, its box-model style record, and
//! the geometry tree that the layout stage produces.
//!
//! Scalar-valued fields (lengths, coordinates, factors) carry binary32 bit
//! patterns; see `crate::scalar`.

use vstd::prelude::*;

use crate::scalar::{div_scalar, parse_scalar, quotient_bits, scalar_of_text, HUNDRED_BITS,
    ONE_BITS};

verus! {

/// A node of the input tree: an optional visual payload, a box-model style
/// record, optional root-only metadata, and the ordered children.  Child
/// order is declaration order and drives paint order.
#[derive(Debug)]
pub struct FlexNode {
    pub element: Option<FlexElement>,
    pub layout: FlexLayout,
    pub root: Option<FlexRootData>,
    pub nodes: Vec<FlexNode>,
}

/// Metadata that is meaningful only on the tree's root.
#[derive(Debug)]
pub struct FlexRootData {
    pub stylesheet: Option<String>,
}

/// A node of the geometry tree: the same payload as the input node, plus the
/// resolved box.  `position` is relative to the immediate parent's origin,
/// never absolute.
#[derive(Debug)]
pub struct FlexGeomNode {
    pub width: u32,
    pub height: u32,
    pub position: FlexPoint,
    pub element: Option<FlexElement>,
    pub root: Option<FlexRootData>,
    pub nodes: Vec<FlexGeomNode>,
}

/// The visual payload of a node.
#[derive(Debug)]
pub enum FlexElement {
    Text(FlexText),
    Rect(FlexRect),
}

/// Attributes shared by every visual element.
#[derive(Debug)]
pub struct FlexGlobalAttribs {
    pub id: String,
    pub class: String,
    pub style: String,
}

/// A text label, painted centered inside its node's box.
#[derive(Debug)]
pub struct FlexText {
    pub global: FlexGlobalAttribs,
    pub attribs: FlexTextAttribs,
    pub text: String,
}

/// Text-specific attributes.
#[derive(Debug)]
pub struct FlexTextAttribs {}

/// Where a text label anchors horizontally.
#[derive(Clone, Copy, PartialEq, Eq, Structural, Debug)]
pub enum FlexSvgTextAnchor {
    Start,
    Middle,
    End,
}

/// A rectangle, painted at its node's top-left corner.
#[derive(Debug)]
pub struct FlexRect {
    pub global: FlexGlobalAttribs,
    pub attribs: FlexRectAttribs,
    pub rect: bool,
}

/// Rectangle-specific attributes: the corner radii.
#[derive(Clone, Copy, PartialEq, Eq, Structural, Debug)]
pub struct FlexRectAttribs {
    pub rx: FlexDimension,
    pub ry: FlexDimension,
}

/// How children are laid out.  `Hidden` maps to the solver's `none` display:
/// the node is not laid out at all.
#[derive(Clone, Copy, PartialEq, Eq, Structural, Debug)]
pub enum DisplayMode {
    Flex,
    Hidden,
}

/// Whether a node takes part in flex flow or is positioned absolutely.
#[derive(Clone, Copy, PartialEq, Eq, Structural, Debug)]
pub enum PositionType {
    Relative,
    Absolute,
}

/// The main axis of the flex flow.
#[derive(Clone, Copy, PartialEq, Eq, Structural, Debug)]
pub enum FlexDirection {
    Row,
    Column,
    RowReverse,
    ColumnReverse,
}

/// Whether the flex flow wraps onto further lines.
#[derive(Clone, Copy, PartialEq, Eq, Structural, Debug)]
pub enum FlexWrap {
    NoWrap,
    Wrap,
    WrapReverse,
}

/// Cross-axis alignment of a container's items.
#[derive(Clone, Copy, PartialEq, Eq, Structural, Debug)]
pub enum AlignItems {
    FlexStart,
    FlexEnd,
    Center,
    Baseline,
    Stretch,
}

/// Cross-axis alignment of one node, overriding its parent's `AlignItems`.
#[derive(Clone, Copy, PartialEq, Eq, Structural, Debug)]
pub enum AlignSelf {
    Auto,
    FlexStart,
    FlexEnd,
    Center,
    Baseline,
    Stretch,
}

/// Distribution of space between lines along the cross axis.
#[derive(Clone, Copy, PartialEq, Eq, Structural, Debug)]
pub enum AlignContent {
    FlexStart,
    FlexEnd,
    Center,
    Stretch,
    SpaceBetween,
    SpaceAround,
}

/// Distribution of space between items along the main axis.
#[derive(Clone, Copy, PartialEq, Eq, Structural, Debug)]
pub enum JustifyContent {
    FlexStart,
    FlexEnd,
    Center,
    SpaceBetween,
    SpaceAround,
    SpaceEvenly,
}

/// A style length as the solver takes it; `Undefined` leaves the value to
/// the solver.  `Points` and `Percent` carry scalar bit patterns, the percent
/// one already divided by one hundred.
#[derive(Clone, Copy, PartialEq, Eq, Structural, Debug)]
pub enum StyleDimension {
    Undefined,
    Auto,
    Points(u32),
    Percent(u32),
}

/// A four-sided box of style lengths.
#[derive(Clone, Copy, PartialEq, Eq, Structural, Debug)]
pub struct DimensionRect {
    pub start: StyleDimension,
    pub end: StyleDimension,
    pub top: StyleDimension,
    pub bottom: StyleDimension,
}

/// A width/height pair.
#[derive(Clone, Copy, PartialEq, Eq, Structural, Debug)]
pub struct FlexSize<T> {
    pub width: T,
    pub height: T,
}

/// A size as written in the input: `auto`, a percentage (stored divided by
/// one hundred), or raw points.  Both payloads are scalar bit patterns.
#[derive(Clone, Copy, PartialEq, Eq, Structural, Debug)]
pub enum FlexDimension {
    Auto,
    Percent(u32),
    Points(u32),
}

/// A parent-relative position, as scalar bit patterns.
#[derive(Clone, Copy, PartialEq, Eq, Structural, Debug)]
pub struct FlexPoint {
    pub x: u32,
    pub y: u32,
}

/// The box-model style record of a node, in flexbox vocabulary.  The mapping
/// into the solver's own style type is field by field and lossless.
#[derive(Clone, Copy, PartialEq, Eq, Structural, Debug)]
pub struct FlexLayout {
    pub display: DisplayMode,
    pub position_type: PositionType,
    pub flex_direction: FlexDirection,
    pub flex_wrap: FlexWrap,
    pub align_items: AlignItems,
    pub align_self: AlignSelf,
    pub align_content: AlignContent,
    pub justify_content: JustifyContent,
    pub position: DimensionRect,
    pub margin: DimensionRect,
    pub padding: DimensionRect,
    pub border: DimensionRect,
    pub flex_grow: u32,
    pub flex_shrink: u32,
    pub flex_basis: StyleDimension,
    pub size: FlexSize<FlexDimension>,
    pub min_size: FlexSize<StyleDimension>,
    pub max_size: FlexSize<StyleDimension>,
    pub aspect_ratio: Option<u32>,
}

/// The style record a node gets when the input leaves it out entirely.
pub open spec fn spec_default_layout() -> FlexLayout {
    FlexLayout {
        display: DisplayMode::Flex,
        position_type: PositionType::Relative,
        flex_direction: FlexDirection::Row,
        flex_wrap: FlexWrap::NoWrap,
        align_items: AlignItems::Stretch,
        align_self: AlignSelf::Auto,
        align_content: AlignContent::Stretch,
        justify_content: JustifyContent::FlexStart,
        position: spec_undefined_rect(),
        margin: spec_undefined_rect(),
        padding: spec_undefined_rect(),
        border: spec_undefined_rect(),
        flex_grow: crate::scalar::ZERO_BITS,
        flex_shrink: ONE_BITS,
        flex_basis: StyleDimension::Auto,
        size: FlexSize { width: FlexDimension::Percent(ONE_BITS), height: FlexDimension::Percent(ONE_BITS) },
        min_size: FlexSize { width: StyleDimension::Auto, height: StyleDimension::Auto },
        max_size: FlexSize { width: StyleDimension::Auto, height: StyleDimension::Auto },
        aspect_ratio: None,
    }
}

pub open spec fn spec_undefined_rect() -> DimensionRect {
    DimensionRect {
        start: StyleDimension::Undefined,
        end: StyleDimension::Undefined,
        top: StyleDimension::Undefined,
        bottom: StyleDimension::Undefined,
    }
}

impl Default for FlexLayout {
    fn default() -> (r: Self)
        ensures
            r == spec_default_layout(),
    {
        FlexLayout {
            display: DisplayMode::Flex,
            position_type: PositionType::Relative,
            flex_direction: FlexDirection::Row,
            flex_wrap: FlexWrap::NoWrap,
            align_items: AlignItems::Stretch,
            align_self: AlignSelf::Auto,
            align_content: AlignContent::Stretch,
            justify_content: JustifyContent::FlexStart,
            position: undefined_rect(),
            margin: undefined_rect(),
            padding: undefined_rect(),
            border: undefined_rect(),
            flex_grow: crate::scalar::ZERO_BITS,
            flex_shrink: ONE_BITS,
            flex_basis: StyleDimension::Auto,
            size: FlexSize {
                width: FlexDimension::Percent(ONE_BITS),
                height: FlexDimension::Percent(ONE_BITS),
            },
            min_size: FlexSize { width: StyleDimension::Auto, height: StyleDimension::Auto },
            max_size: FlexSize { width: StyleDimension::Auto, height: StyleDimension::Auto },
            aspect_ratio: None,
        }
    }
}

pub fn undefined_rect() -> (r: DimensionRect)
    ensures
        r == spec_undefined_rect(),
{
    DimensionRect {
        start: StyleDimension::Undefined,
        end: StyleDimension::Undefined,
        top: StyleDimension::Undefined,
        bottom: StyleDimension::Undefined,
    }
}

impl Default for FlexDimension {
    fn default() -> (r: Self)
        ensures
            r == FlexDimension::Percent(ONE_BITS),
    {
        FlexDimension::Percent(ONE_BITS)
    }
}

impl Default for FlexSvgTextAnchor {
    fn default() -> (r: Self)
        ensures
            r == FlexSvgTextAnchor::Middle,
    {
        FlexSvgTextAnchor::Middle
    }
}

impl Default for FlexSize<FlexDimension> {
    fn default() -> (r: Self)
        ensures
            r == (FlexSize {
                width: FlexDimension::Percent(ONE_BITS),
                height: FlexDimension::Percent(ONE_BITS),
            }),
    {
        FlexSize {
            width: FlexDimension::Percent(ONE_BITS),
            height: FlexDimension::Percent(ONE_BITS),
        }
    }
}

impl Default for FlexSize<StyleDimension> {
    fn default() -> (r: Self)
        ensures
            r == (FlexSize { width: StyleDimension::Auto, height: StyleDimension::Auto }),
    {
        FlexSize { width: StyleDimension::Auto, height: StyleDimension::Auto }
    }
}

impl Default for FlexPoint {
    fn default() -> (r: Self)
        ensures
            r == (FlexPoint { x: crate::scalar::ZERO_BITS, y: crate::scalar::ZERO_BITS }),
    {
        FlexPoint { x: crate::scalar::ZERO_BITS, y: crate::scalar::ZERO_BITS }
    }
}

impl Default for FlexRectAttribs {
    fn default() -> (r: Self)
        ensures
            r == (FlexRectAttribs {
                rx: FlexDimension::Percent(ONE_BITS),
                ry: FlexDimension::Percent(ONE_BITS),
            }),
    {
        FlexRectAttribs {
            rx: FlexDimension::Percent(ONE_BITS),
            ry: FlexDimension::Percent(ONE_BITS),
        }
    }
}

impl Default for FlexGlobalAttribs {
    fn default() -> (r: Self)
        ensures
            r.id@ == Seq::<char>::empty(),
            r.class@ == Seq::<char>::empty(),
            r.style@ == Seq::<char>::empty(),
    {
        FlexGlobalAttribs { id: String::new(), class: String::new(), style: String::new() }
    }
}

impl Default for FlexRootData {
    fn default() -> (r: Self)
        ensures
            r.stylesheet is None,
    {
        FlexRootData { stylesheet: None }
    }
}

impl Default for FlexNode {
    fn default() -> (r: Self)
        ensures
            r.element is None,
            r.layout == spec_default_layout(),
            r.root is None,
            r.nodes@ == Seq::<FlexNode>::empty(),
    {
        FlexNode { element: None, layout: FlexLayout::default(), root: None, nodes: Vec::new() }
    }
}

impl FlexGlobalAttribs {
    /// An equal copy.
    pub fn duplicate(&self) -> (r: Self)
        ensures
            r == *self,
    {
        FlexGlobalAttribs {
            id: self.id.clone(),
            class: self.class.clone(),
            style: self.style.clone(),
        }
    }
}

impl FlexText {
    /// An equal copy.
    pub fn duplicate(&self) -> (r: Self)
        ensures
            r == *self,
    {
        FlexText {
            global: self.global.duplicate(),
            attribs: FlexTextAttribs {},
            text: self.text.clone(),
        }
    }
}

impl FlexRect {
    /// An equal copy.
    pub fn duplicate(&self) -> (r: Self)
        ensures
            r == *self,
    {
        FlexRect { global: self.global.duplicate(), attribs: self.attribs, rect: self.rect }
    }
}

impl FlexElement {
    /// An equal copy.
    pub fn duplicate(&self) -> (r: Self)
        ensures
            r == *self,
    {
        match self {
            FlexElement::Text(t) => FlexElement::Text(t.duplicate()),
            FlexElement::Rect(r) => FlexElement::Rect(r.duplicate()),
        }
    }
}

impl FlexRootData {
    /// An equal copy.
    pub fn duplicate(&self) -> (r: Self)
        ensures
            r == *self,
    {
        FlexRootData {
            stylesheet: match &self.stylesheet {
                Some(s) => Some(s.clone()),
                None => None,
            },
        }
    }
}

/// An equal copy of an optional element payload.
pub fn copy_element_opt(e: &Option<FlexElement>) -> (r: Option<FlexElement>)
    ensures
        r == *e,
{
    match e {
        Some(el) => Some(el.duplicate()),
        None => None,
    }
}

/// An equal copy of optional root metadata.
pub fn copy_root_opt(d: &Option<FlexRootData>) -> (r: Option<FlexRootData>)
    ensures
        r == *d,
{
    match d {
        Some(rd) => Some(rd.duplicate()),
        None => None,
    }
}

// ---------------------------------------------------------------------------
// Dimension parsing
// ---------------------------------------------------------------------------

/// Why a dimension string was rejected.
#[derive(Clone, Copy, PartialEq, Eq, Structural, Debug)]
pub enum DimensionError {
    ExpectingPercent,
    InvalidPercent,
    ExpectingPoint,
    InvalidPoint,
    UnknownUnit,
}

/// The text of the first capture group at the first match of `pattern` in
/// `s`; `None` when the pattern does not compile, does not match, or has no
/// first group.
pub uninterp spec fn capture_of(pattern: Seq<char>, s: Seq<char>) -> Option<Seq<char>>;

/// Relies on `regex::Regex::new` and `Regex::captures` (with `Captures::get`
/// and `Match::as_str`): one search, whose result is a function of the
/// pattern and the text alone.
#[verifier::external_body]
fn first_capture(pattern: &str, s: &str) -> (r: Option<String>)
    ensures
        match (r, capture_of(pattern@, s@)) {
            (Some(x), Some(y)) => x@ == y,
            (None, None) => true,
            _ => false,
        },
{
    let re = match regex::Regex::new(pattern) {
        Ok(re) => re,
        Err(_) => return None,
    };
    re.captures(s).and_then(|c| c.get(1)).map(|m| m.as_str().to_string())
}

/// Relies on `str::ends_with` with a `&str` pattern: true exactly when the
/// string ends in that suffix.
#[verifier::external_body]
fn str_ends_with(s: &str, suffix: &str) -> (r: bool)
    ensures
        r == spec_ends_with(s@, suffix@),
{
    s.ends_with(suffix)
}

/// Relies on `str::eq`: true exactly when the two strings hold the same text.
#[verifier::external_body]
fn str_eq(s: &str, t: &str) -> (r: bool)
    ensures
        r == (s@ == t@),
{
    s == t
}

pub open spec fn spec_ends_with(s: Seq<char>, suffix: Seq<char>) -> bool {
    s.len() >= suffix.len() && s.subrange(s.len() - suffix.len(), s.len() as int) == suffix
}

/// The numeric part of a dimension string, as the parser's pattern finds it.
pub open spec fn spec_number_pattern() -> Seq<char> {
    r"(\d[-+]?[0-9]*\.?[0-9]+)"@
}

/// What `parse_percent` returns for the text `s`.
pub open spec fn spec_parse_percent(s: Seq<char>) -> Result<u32, DimensionError> {
    if !spec_ends_with(s, "%"@) {
        Err(DimensionError::ExpectingPercent)
    } else {
        match capture_of(spec_number_pattern(), s) {
            Some(t) => match scalar_of_text(t) {
                Some(b) => Ok(quotient_bits(b, HUNDRED_BITS)),
                None => Err(DimensionError::InvalidPercent),
            },
            None => Err(DimensionError::InvalidPercent),
        }
    }
}

/// What `parse_point` returns for the text `s`.
pub open spec fn spec_parse_point(s: Seq<char>) -> Result<u32, DimensionError> {
    if !spec_ends_with(s, "pt"@) {
        Err(DimensionError::ExpectingPoint)
    } else {
        match capture_of(spec_number_pattern(), s) {
            Some(t) => match scalar_of_text(t) {
                Some(b) => Ok(b),
                None => Err(DimensionError::InvalidPoint),
            },
            None => Err(DimensionError::InvalidPoint),
        }
    }
}

/// What `parse_dimension` returns for the text `s`.
pub open spec fn spec_parse_dimension(s: Seq<char>) -> Result<FlexDimension, DimensionError> {
    if s == "auto"@ {
        Ok(FlexDimension::Auto)
    } else if spec_ends_with(s, "%"@) {
        match spec_parse_percent(s) {
            Ok(b) => Ok(FlexDimension::Percent(b)),
            Err(e) => Err(e),
        }
    } else if spec_ends_with(s, "pt"@) {
        match spec_parse_point(s) {
            Ok(b) => Ok(FlexDimension::Points(b)),
            Err(e) => Err(e),
        }
    } else {
        Err(DimensionError::UnknownUnit)
    }
}

/// Read a percentage string such as `"50%"`: the numeric part, divided by
/// one hundred.  Rejects text without the `%` suffix or without a readable
/// number.
pub fn parse_percent(s: &str) -> (r: Result<u32, DimensionError>)
    ensures
        r == spec_parse_percent(s@),
{
    if !str_ends_with(s, "%") {
        return Err(DimensionError::ExpectingPercent);
    }
    match first_capture(r"(\d[-+]?[0-9]*\.?[0-9]+)", s) {
        Some(t) => match parse_scalar(t.as_str()) {
            Some(b) => Ok(div_scalar(b, HUNDRED_BITS)),
            None => Err(DimensionError::InvalidPercent),
        },
        None => Err(DimensionError::InvalidPercent),
    }
}

/// Read a point string such as `"12pt"`: the numeric part, unscaled.
/// Rejects text without the `pt` suffix or without a readable number.
pub fn parse_point(s: &str) -> (r: Result<u32, DimensionError>)
    ensures
        r == spec_parse_point(s@),
{
    if !str_ends_with(s, "pt") {
        return Err(DimensionError::ExpectingPoint);
    }
    match first_capture(r"(\d[-+]?[0-9]*\.?[0-9]+)", s) {
        Some(t) => match parse_scalar(t.as_str()) {
            Some(b) => Ok(b),
            None => Err(DimensionError::InvalidPoint),
        },
        None => Err(DimensionError::InvalidPoint),
    }
}

/// Read a dimension in one of its three textual forms: `auto`, a percentage,
/// or points.  Any other suffix is rejected.
pub fn parse_dimension(s: &str) -> (r: Result<FlexDimension, DimensionError>)
    ensures
        r == spec_parse_dimension(s@),
{
    if str_eq(s, "auto") {
        return Ok(FlexDimension::Auto);
    }
    if str_ends_with(s, "%") {
        return match parse_percent(s) {
            Ok(b) => Ok(FlexDimension::Percent(b)),
            Err(e) => Err(e),
        };
    }
    if str_ends_with(s, "pt") {
        return match parse_point(s) {
            Ok(b) => Ok(FlexDimension::Points(b)),
            Err(e) => Err(e),
        };
    }
    Err(DimensionError::UnknownUnit)
}

} // verus!
