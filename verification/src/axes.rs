//! The closed variant sets of the tool-mode axes, and the boundary
//! translation between external string tags and those variants.
//!
//! Every axis is an independent exclusive choice: exactly one variant of
//! its enumeration is current at any time. External input (a persisted
//! setting, a command parameter) arrives as a string tag and is rejected
//! here, at the boundary, when it names no variant.

use vstd::prelude::*;

verus! {

/// The pen kinds selectable through the `current-pen` command.
#[derive(Clone, Copy, PartialEq, Eq, Structural, Debug)]
pub enum PenKind {
    Marker,
    Brush,
    Shaper,
    Eraser,
    Selector,
}

/// The shape kinds selectable through the `current-shape` command.
#[derive(Clone, Copy, PartialEq, Eq, Structural, Debug)]
pub enum ShapeKind {
    Line,
    Rectangle,
    Ellipse,
}

/// The draw styles selectable through the `shaper-drawstyle` command.
#[derive(Clone, Copy, PartialEq, Eq, Structural, Debug)]
pub enum DrawStyle {
    Smooth,
    Rough,
}

/// The renderer backends selectable through the `renderer-backend` command.
#[derive(Clone, Copy, PartialEq, Eq, Structural, Debug)]
pub enum BackendKind {
    Librsvg,
    Resvg,
}

/// Names one stateful channel that observers can subscribe to: the four
/// enumeration axes and the boolean toggles, including the momentary
/// eraser override.
#[derive(Clone, Copy, PartialEq, Eq, Structural, Debug)]
pub enum AxisId {
    Pen,
    Shape,
    Style,
    Backend,
    Devel,
    VisualDebug,
    FormatBorders,
    TouchDrawing,
    AutoexpandHeight,
    Righthanded,
    Override,
}

/// The value carried by a notification: the variant (or flag) an axis
/// was switched to.
#[derive(Clone, Copy, PartialEq, Eq, Structural, Debug)]
pub enum StateValue {
    Pen(PenKind),
    Shape(ShapeKind),
    Style(DrawStyle),
    Backend(BackendKind),
    Flag(bool),
}

pub open spec fn spec_pen_from_tag(s: Seq<char>) -> Option<PenKind> {
    if s == "marker"@ {
        Some(PenKind::Marker)
    } else if s == "brush"@ {
        Some(PenKind::Brush)
    } else if s == "shaper"@ {
        Some(PenKind::Shaper)
    } else if s == "eraser"@ {
        Some(PenKind::Eraser)
    } else if s == "selector"@ {
        Some(PenKind::Selector)
    } else {
        None
    }
}

pub open spec fn spec_pen_tag(k: PenKind) -> Seq<char> {
    match k {
        PenKind::Marker => "marker"@,
        PenKind::Brush => "brush"@,
        PenKind::Shaper => "shaper"@,
        PenKind::Eraser => "eraser"@,
        PenKind::Selector => "selector"@,
    }
}

/// Translates an external pen tag into the closed pen enumeration;
/// unknown tags are reported as `None` and rejected by the caller.
pub fn pen_from_tag(tag: &String) -> (r: Option<PenKind>)
    ensures
        r == spec_pen_from_tag(tag@),
{
    if *tag == "marker".to_owned() {
        Some(PenKind::Marker)
    } else if *tag == "brush".to_owned() {
        Some(PenKind::Brush)
    } else if *tag == "shaper".to_owned() {
        Some(PenKind::Shaper)
    } else if *tag == "eraser".to_owned() {
        Some(PenKind::Eraser)
    } else if *tag == "selector".to_owned() {
        Some(PenKind::Selector)
    } else {
        None
    }
}

/// The canonical tag under which a pen kind is addressed and persisted.
pub fn pen_tag(k: PenKind) -> (r: String)
    ensures
        r@ == spec_pen_tag(k),
{
    match k {
        PenKind::Marker => "marker".to_owned(),
        PenKind::Brush => "brush".to_owned(),
        PenKind::Shaper => "shaper".to_owned(),
        PenKind::Eraser => "eraser".to_owned(),
        PenKind::Selector => "selector".to_owned(),
    }
}

pub open spec fn spec_shape_from_tag(s: Seq<char>) -> Option<ShapeKind> {
    if s == "line"@ {
        Some(ShapeKind::Line)
    } else if s == "rectangle"@ {
        Some(ShapeKind::Rectangle)
    } else if s == "ellipse"@ {
        Some(ShapeKind::Ellipse)
    } else {
        None
    }
}

pub open spec fn spec_shape_tag(k: ShapeKind) -> Seq<char> {
    match k {
        ShapeKind::Line => "line"@,
        ShapeKind::Rectangle => "rectangle"@,
        ShapeKind::Ellipse => "ellipse"@,
    }
}

/// Translates an external shape tag into the closed shape enumeration.
pub fn shape_from_tag(tag: &String) -> (r: Option<ShapeKind>)
    ensures
        r == spec_shape_from_tag(tag@),
{
    if *tag == "line".to_owned() {
        Some(ShapeKind::Line)
    } else if *tag == "rectangle".to_owned() {
        Some(ShapeKind::Rectangle)
    } else if *tag == "ellipse".to_owned() {
        Some(ShapeKind::Ellipse)
    } else {
        None
    }
}

/// The canonical tag under which a shape kind is addressed and persisted.
pub fn shape_tag(k: ShapeKind) -> (r: String)
    ensures
        r@ == spec_shape_tag(k),
{
    match k {
        ShapeKind::Line => "line".to_owned(),
        ShapeKind::Rectangle => "rectangle".to_owned(),
        ShapeKind::Ellipse => "ellipse".to_owned(),
    }
}

pub open spec fn spec_style_from_tag(s: Seq<char>) -> Option<DrawStyle> {
    if s == "smooth"@ {
        Some(DrawStyle::Smooth)
    } else if s == "rough"@ {
        Some(DrawStyle::Rough)
    } else {
        None
    }
}

pub open spec fn spec_style_tag(k: DrawStyle) -> Seq<char> {
    match k {
        DrawStyle::Smooth => "smooth"@,
        DrawStyle::Rough => "rough"@,
    }
}

/// Translates an external draw-style tag into the closed style enumeration.
pub fn style_from_tag(tag: &String) -> (r: Option<DrawStyle>)
    ensures
        r == spec_style_from_tag(tag@),
{
    if *tag == "smooth".to_owned() {
        Some(DrawStyle::Smooth)
    } else if *tag == "rough".to_owned() {
        Some(DrawStyle::Rough)
    } else {
        None
    }
}

/// The canonical tag under which a draw style is addressed and persisted.
pub fn style_tag(k: DrawStyle) -> (r: String)
    ensures
        r@ == spec_style_tag(k),
{
    match k {
        DrawStyle::Smooth => "smooth".to_owned(),
        DrawStyle::Rough => "rough".to_owned(),
    }
}

pub open spec fn spec_backend_from_tag(s: Seq<char>) -> Option<BackendKind> {
    if s == "librsvg"@ {
        Some(BackendKind::Librsvg)
    } else if s == "resvg"@ {
        Some(BackendKind::Resvg)
    } else {
        None
    }
}

pub open spec fn spec_backend_tag(k: BackendKind) -> Seq<char> {
    match k {
        BackendKind::Librsvg => "librsvg"@,
        BackendKind::Resvg => "resvg"@,
    }
}

/// Translates an external renderer-backend tag into the closed backend
/// enumeration.
pub fn backend_from_tag(tag: &String) -> (r: Option<BackendKind>)
    ensures
        r == spec_backend_from_tag(tag@),
{
    if *tag == "librsvg".to_owned() {
        Some(BackendKind::Librsvg)
    } else if *tag == "resvg".to_owned() {
        Some(BackendKind::Resvg)
    } else {
        None
    }
}

/// The canonical tag under which a renderer backend is addressed and
/// persisted.
pub fn backend_tag(k: BackendKind) -> (r: String)
    ensures
        r@ == spec_backend_tag(k),
{
    match k {
        BackendKind::Librsvg => "librsvg".to_owned(),
        BackendKind::Resvg => "resvg".to_owned(),
    }
}

/// Law: the canonical tag of every pen kind parses back to exactly that
/// kind, so persisting and re-reading a pen selection is lossless.
pub proof fn lemma_pen_tag_round_trip(k: PenKind)
    ensures
        spec_pen_from_tag(spec_pen_tag(k)) == Some(k),
{
    reveal_strlit("marker");
    reveal_strlit("brush");
    reveal_strlit("shaper");
    reveal_strlit("eraser");
    reveal_strlit("selector");
    assert("marker"@.len() == 6 && "brush"@.len() == 5 && "shaper"@.len() == 6
        && "eraser"@.len() == 6 && "selector"@.len() == 8);
    assert("marker"@[0] == 'm' && "shaper"@[0] == 's' && "eraser"@[0] == 'e');
    assert("brush"@ != "marker"@);
    assert("shaper"@ != "marker"@ && "shaper"@ != "brush"@);
    assert("eraser"@ != "marker"@ && "eraser"@ != "brush"@ && "eraser"@ != "shaper"@);
    assert("selector"@ != "marker"@ && "selector"@ != "brush"@ && "selector"@ != "shaper"@
        && "selector"@ != "eraser"@);
}

/// Law: the canonical tag of every shape kind parses back to exactly
/// that kind.
pub proof fn lemma_shape_tag_round_trip(k: ShapeKind)
    ensures
        spec_shape_from_tag(spec_shape_tag(k)) == Some(k),
{
    reveal_strlit("line");
    reveal_strlit("rectangle");
    reveal_strlit("ellipse");
    assert("line"@.len() == 4 && "rectangle"@.len() == 9 && "ellipse"@.len() == 7);
    assert("rectangle"@ != "line"@);
    assert("ellipse"@ != "line"@ && "ellipse"@ != "rectangle"@);
}

/// Law: the canonical tag of every draw style parses back to exactly
/// that style.
pub proof fn lemma_style_tag_round_trip(k: DrawStyle)
    ensures
        spec_style_from_tag(spec_style_tag(k)) == Some(k),
{
    reveal_strlit("smooth");
    reveal_strlit("rough");
    assert("smooth"@.len() == 6 && "rough"@.len() == 5);
    assert("rough"@ != "smooth"@);
}

/// Law: the canonical tag of every renderer backend parses back to
/// exactly that backend.
pub proof fn lemma_backend_tag_round_trip(k: BackendKind)
    ensures
        spec_backend_from_tag(spec_backend_tag(k)) == Some(k),
{
    reveal_strlit("librsvg");
    reveal_strlit("resvg");
    assert("librsvg"@.len() == 7 && "resvg"@.len() == 5);
    assert("resvg"@ != "librsvg"@);
}

} // verus!
