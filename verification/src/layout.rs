//! The handedness transform: one call atomically reassigns a fixed set
//! of panel and header-bar slots to the positions of the requested
//! handedness, and the lefthanded placement is the exact mirror image
//! of the righthanded one.

use vstd::prelude::*;

verus! {

/// A horizontal side, used for popover arrow directions and for the
/// side a color-picker anchors on relative to its control.
#[derive(Clone, Copy, PartialEq, Eq, Structural, Debug)]
pub enum Side {
    Left,
    Right,
}

/// Which edge of a container a group packs against.
#[derive(Clone, Copy, PartialEq, Eq, Structural, Debug)]
pub enum Pack {
    Start,
    End,
}

/// A cell assignment in the three-column main grid: column, row, and
/// the spanned width and height.
#[derive(Clone, Copy, PartialEq, Eq, Structural, Debug)]
pub struct GridSpot {
    pub col: u8,
    pub row: u8,
    pub width: u8,
    pub height: u8,
}

/// The fixed set of layout slots the handedness transform repositions:
/// the side panel, its separator, the secondary-actions panel and the
/// canvas area in the main grid; the tool-selector and quick-actions
/// groups in the header bar; the anchor sides of the per-tool
/// color-pickers and auxiliary popovers; and the flap position.
#[derive(Clone, Copy, PartialEq, Eq, Structural, Debug)]
pub struct LayoutState {
    pub righthanded: bool,
    pub sidebar: GridSpot,
    pub sidebar_sep: GridSpot,
    pub secondary_panel: GridSpot,
    pub canvas: GridSpot,
    pub tool_group: Pack,
    pub quick_actions: Pack,
    pub marker_color_anchor: Side,
    pub brush_color_anchor: Side,
    pub shaper_stroke_color_anchor: Side,
    pub shaper_fill_color_anchor: Side,
    pub brush_help_arrow: Side,
    pub brush_chooser_arrow: Side,
    pub rough_config_arrow: Side,
    pub flap: Pack,
}

/// The slot assignment that belongs to a handedness: righthanded puts
/// the side panel, separator and secondary panel at the leading columns
/// with the canvas trailing, packs the tool group at the leading edge
/// of the header bar, and anchors popovers rightward and color-pickers
/// left of their control; lefthanded is the mirror image.
#[verifier::opaque]
pub open spec fn layout_for(righthanded: bool) -> LayoutState {
    if righthanded {
        LayoutState {
            righthanded: true,
            sidebar: GridSpot { col: 0, row: 1, width: 1, height: 2 },
            sidebar_sep: GridSpot { col: 1, row: 1, width: 1, height: 2 },
            secondary_panel: GridSpot { col: 2, row: 1, width: 1, height: 1 },
            canvas: GridSpot { col: 2, row: 2, width: 1, height: 1 },
            tool_group: Pack::Start,
            quick_actions: Pack::End,
            marker_color_anchor: Side::Left,
            brush_color_anchor: Side::Left,
            shaper_stroke_color_anchor: Side::Left,
            shaper_fill_color_anchor: Side::Left,
            brush_help_arrow: Side::Right,
            brush_chooser_arrow: Side::Right,
            rough_config_arrow: Side::Right,
            flap: Pack::Start,
        }
    } else {
        LayoutState {
            righthanded: false,
            sidebar: GridSpot { col: 2, row: 1, width: 1, height: 2 },
            sidebar_sep: GridSpot { col: 1, row: 1, width: 1, height: 2 },
            secondary_panel: GridSpot { col: 0, row: 1, width: 1, height: 1 },
            canvas: GridSpot { col: 0, row: 2, width: 1, height: 1 },
            tool_group: Pack::End,
            quick_actions: Pack::Start,
            marker_color_anchor: Side::Right,
            brush_color_anchor: Side::Right,
            shaper_stroke_color_anchor: Side::Right,
            shaper_fill_color_anchor: Side::Right,
            brush_help_arrow: Side::Left,
            brush_chooser_arrow: Side::Left,
            rough_config_arrow: Side::Left,
            flap: Pack::End,
        }
    }
}

pub open spec fn mirror_side(s: Side) -> Side {
    match s {
        Side::Left => Side::Right,
        Side::Right => Side::Left,
    }
}

pub open spec fn mirror_pack(p: Pack) -> Pack {
    match p {
        Pack::Start => Pack::End,
        Pack::End => Pack::Start,
    }
}

/// Mirrors one cell of the three-column grid: column 0 and column 2
/// swap, the middle column stays.
pub open spec fn mirror_spot(g: GridSpot) -> GridSpot {
    GridSpot { col: (2 - g.col) as u8, row: g.row, width: g.width, height: g.height }
}

/// The mirror image of a whole slot assignment: every slot flipped to
/// the opposite side, and the handedness flag inverted.
pub open spec fn mirror_layout(s: LayoutState) -> LayoutState {
    LayoutState {
        righthanded: !s.righthanded,
        sidebar: mirror_spot(s.sidebar),
        sidebar_sep: mirror_spot(s.sidebar_sep),
        secondary_panel: mirror_spot(s.secondary_panel),
        canvas: mirror_spot(s.canvas),
        tool_group: mirror_pack(s.tool_group),
        quick_actions: mirror_pack(s.quick_actions),
        marker_color_anchor: mirror_side(s.marker_color_anchor),
        brush_color_anchor: mirror_side(s.brush_color_anchor),
        shaper_stroke_color_anchor: mirror_side(s.shaper_stroke_color_anchor),
        shaper_fill_color_anchor: mirror_side(s.shaper_fill_color_anchor),
        brush_help_arrow: mirror_side(s.brush_help_arrow),
        brush_chooser_arrow: mirror_side(s.brush_chooser_arrow),
        rough_config_arrow: mirror_side(s.rough_config_arrow),
        flap: mirror_pack(s.flap),
    }
}

/// Applying a handedness is idempotent and absolute: a request for the
/// current handedness is a no-op, anything else installs that
/// handedness's assignment in one step.
pub open spec fn spec_apply(s: LayoutState, righthanded: bool) -> LayoutState {
    if s.righthanded == righthanded {
        s
    } else {
        layout_for(righthanded)
    }
}

/// A layout is well formed when its slots are exactly the assignment
/// belonging to its handedness flag.
pub open spec fn layout_wf(s: LayoutState) -> bool {
    s == layout_for(s.righthanded)
}

/// Builds the slot assignment of the requested handedness.
pub fn build_layout(righthanded: bool) -> (r: LayoutState)
    ensures
        r == layout_for(righthanded),
{
    proof {
        reveal(layout_for);
    }
    if righthanded {
        LayoutState {
            righthanded: true,
            sidebar: GridSpot { col: 0, row: 1, width: 1, height: 2 },
            sidebar_sep: GridSpot { col: 1, row: 1, width: 1, height: 2 },
            secondary_panel: GridSpot { col: 2, row: 1, width: 1, height: 1 },
            canvas: GridSpot { col: 2, row: 2, width: 1, height: 1 },
            tool_group: Pack::Start,
            quick_actions: Pack::End,
            marker_color_anchor: Side::Left,
            brush_color_anchor: Side::Left,
            shaper_stroke_color_anchor: Side::Left,
            shaper_fill_color_anchor: Side::Left,
            brush_help_arrow: Side::Right,
            brush_chooser_arrow: Side::Right,
            rough_config_arrow: Side::Right,
            flap: Pack::Start,
        }
    } else {
        LayoutState {
            righthanded: false,
            sidebar: GridSpot { col: 2, row: 1, width: 1, height: 2 },
            sidebar_sep: GridSpot { col: 1, row: 1, width: 1, height: 2 },
            secondary_panel: GridSpot { col: 0, row: 1, width: 1, height: 1 },
            canvas: GridSpot { col: 0, row: 2, width: 1, height: 1 },
            tool_group: Pack::End,
            quick_actions: Pack::Start,
            marker_color_anchor: Side::Right,
            brush_color_anchor: Side::Right,
            shaper_stroke_color_anchor: Side::Right,
            shaper_fill_color_anchor: Side::Right,
            brush_help_arrow: Side::Left,
            brush_chooser_arrow: Side::Left,
            rough_config_arrow: Side::Left,
            flap: Pack::End,
        }
    }
}

/// Law: the lefthanded assignment is the exact mirror image of the
/// righthanded one, slot for slot.
pub proof fn lemma_layouts_are_mirrors(righthanded: bool)
    ensures
        mirror_layout(layout_for(righthanded)) == layout_for(!righthanded),
{
    reveal(layout_for);
}

/// Law: mirroring is an involution on well-formed layouts: the mirror
/// of the mirror is the original assignment.
pub proof fn lemma_mirror_involutive(s: LayoutState)
    requires
        layout_wf(s),
    ensures
        mirror_layout(mirror_layout(s)) == s,
{
    reveal(layout_for);
}

/// Law: the handedness transform round-trips. From a well-formed
/// layout, applying any handedness and then re-applying the original
/// one returns every slot to its original assignment; in particular,
/// from the lefthanded layout, applying righthanded and then
/// lefthanded restores every slot.
pub proof fn lemma_apply_round_trip(s: LayoutState, righthanded: bool)
    requires
        layout_wf(s),
    ensures
        spec_apply(spec_apply(s, righthanded), s.righthanded) == s,
{
    reveal(layout_for);
}

} // verus!
