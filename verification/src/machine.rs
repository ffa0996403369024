//! The tool-mode state machine: the single source of truth for which
//! mode the editor is in.
//!
//! Every axis (pen kind, shape kind, draw style, renderer backend, and
//! the boolean toggles) changes only through a validated transition:
//! a request equal to the current value is a no-op that notifies
//! nobody; an accepted change updates the dependent widget state and
//! synchronously notifies every observer of that axis in registration
//! order. The override controller layers the momentary eraser on top
//! of the pen axis with a guaranteed restore, and the handedness
//! toggle swaps the whole layout assignment in one transition.

use vstd::prelude::*;

use crate::axes::AxisId;
use crate::axes::BackendKind;
use crate::axes::DrawStyle;
use crate::axes::PenKind;
use crate::axes::ShapeKind;
use crate::axes::StateValue;
use crate::layout::LayoutState;
use crate::layout::build_layout;
use crate::layout::layout_for;
use crate::layout::layout_wf;
use crate::notify::Notification;
use crate::notify::ObserverReg;
use crate::notify::fan_out;
use crate::notify::notes_for;

verus! {

/// The four exclusive-choice tool axes; exactly one variant of each is
/// current at any time, and the axes are independent.
#[derive(Clone, Copy, PartialEq, Eq, Structural, Debug)]
pub struct ToolState {
    pub pen: PenKind,
    pub shape: ShapeKind,
    pub style: DrawStyle,
    pub backend: BackendKind,
}

/// The boolean-stateful toggles.
#[derive(Clone, Copy, PartialEq, Eq, Structural, Debug)]
pub struct Toggles {
    pub devel: bool,
    pub visual_debug: bool,
    pub format_borders: bool,
    pub touch_drawing: bool,
    pub autoexpand_height: bool,
}

/// The override controller's state: either no override is active, or
/// the pen variant that was current immediately before the override
/// began is saved for the restore.
#[derive(Clone, Copy, PartialEq, Eq, Structural, Debug)]
pub enum OverrideFrame {
    Normal,
    Overridden { saved: PenKind },
}

/// The dependent widget state the broadcaster keeps in sync: the
/// exclusive toggle groups, the visible side-panel page, the derived
/// revealers, and the handedness menu indicators.
#[derive(Clone, Copy, PartialEq, Eq, Structural, Debug)]
pub struct Widgets {
    pub marker_toggle: bool,
    pub brush_toggle: bool,
    pub shaper_toggle: bool,
    pub eraser_toggle: bool,
    pub selector_toggle: bool,
    pub sidebar_page: PenKind,
    pub line_toggle: bool,
    pub rectangle_toggle: bool,
    pub ellipse_toggle: bool,
    pub fill_revealer: bool,
    pub smooth_toggle: bool,
    pub rough_toggle: bool,
    pub devel_revealer: bool,
    pub devel_menu_enabled: bool,
    pub pageedit_revealer: bool,
    pub righthanded_toggle: bool,
    pub lefthanded_toggle: bool,
}

/// The dialogs the stateless commands can ask the dialog layer to show.
#[derive(Clone, Copy, PartialEq, Eq, Structural, Debug)]
pub enum DialogKind {
    About,
    ClearSheet,
    NewSheet,
    OpenSheet,
    OpenWorkspace,
    SaveSheetAs,
    ImportFile,
    ExportSelection,
    ExportSheet,
    KeyboardShortcuts,
}

/// The menus the stateless commands can pop up.
#[derive(Clone, Copy, PartialEq, Eq, Structural, Debug)]
pub enum MenuKind {
    CanvasMenu,
    AppMenu,
    DevelSettings,
}

/// A request to an external collaborator, recorded in invocation
/// order for the host to perform: dialogs, menus, log messages,
/// document edits, zoom and re-render triggers, save and print.
#[derive(Clone, PartialEq, Eq, Debug)]
pub enum Effect {
    ShowDialog(DialogKind),
    OpenMenu(MenuKind),
    Warn(Option<String>),
    ReportError(Option<String>),
    DeleteSelection,
    DuplicateSelection,
    ZoomReset,
    ZoomFitWidth,
    ZoomIn,
    ZoomOut,
    SaveSheet,
    PrintSheet,
    Regenerate { content: bool, background: bool },
}

/// The mathematical state of the machine: the axes, the override
/// frame, the dependent widgets, the layout, the observer
/// registrations, and the logs of delivered notifications and
/// requested effects.
pub struct MachineModel {
    pub tools: ToolState,
    pub toggles: Toggles,
    pub over: OverrideFrame,
    pub widgets: Widgets,
    pub layout: LayoutState,
    pub observers: Seq<ObserverReg>,
    pub log: Seq<Notification>,
    pub effects: Seq<Effect>,
    pub next_observer: u64,
}

/// The widget state is exactly determined by the axes: each toggle
/// group has the toggle of the current variant active and the others
/// inactive, the side-panel page follows the pen, the fill-style
/// revealer is shown for the filled shapes and hidden for the line,
/// the developer controls follow the developer toggle, the page-edit
/// revealer shows when the height does not autoexpand, and the
/// handedness indicators mirror the layout flag.
pub open spec fn widgets_track(w: Widgets, t: ToolState, g: Toggles, l: LayoutState) -> bool {
    &&& w.marker_toggle == (t.pen == PenKind::Marker)
    &&& w.brush_toggle == (t.pen == PenKind::Brush)
    &&& w.shaper_toggle == (t.pen == PenKind::Shaper)
    &&& w.eraser_toggle == (t.pen == PenKind::Eraser)
    &&& w.selector_toggle == (t.pen == PenKind::Selector)
    &&& w.sidebar_page == t.pen
    &&& w.line_toggle == (t.shape == ShapeKind::Line)
    &&& w.rectangle_toggle == (t.shape == ShapeKind::Rectangle)
    &&& w.ellipse_toggle == (t.shape == ShapeKind::Ellipse)
    &&& w.fill_revealer == (t.shape != ShapeKind::Line)
    &&& w.smooth_toggle == (t.style == DrawStyle::Smooth)
    &&& w.rough_toggle == (t.style == DrawStyle::Rough)
    &&& w.devel_revealer == g.devel
    &&& w.devel_menu_enabled == g.devel
    &&& w.pageedit_revealer == !g.autoexpand_height
    &&& w.righthanded_toggle == l.righthanded
    &&& w.lefthanded_toggle == !l.righthanded
}

/// A machine state is well formed when the widgets track the axes and
/// the layout is the assignment of its own handedness.
pub open spec fn machine_wf(m: MachineModel) -> bool {
    widgets_track(m.widgets, m.tools, m.toggles, m.layout) && layout_wf(m.layout)
}

/// The pen part of the widget state after an accepted pen transition.
pub open spec fn pen_widgets(w: Widgets, k: PenKind) -> Widgets {
    Widgets {
        marker_toggle: k == PenKind::Marker,
        brush_toggle: k == PenKind::Brush,
        shaper_toggle: k == PenKind::Shaper,
        eraser_toggle: k == PenKind::Eraser,
        selector_toggle: k == PenKind::Selector,
        sidebar_page: k,
        ..w
    }
}

/// The shape part of the widget state after an accepted shape
/// transition: besides the exclusive toggles, the fill-style revealer
/// shows for rectangle and ellipse and hides for line.
pub open spec fn shape_widgets(w: Widgets, k: ShapeKind) -> Widgets {
    Widgets {
        line_toggle: k == ShapeKind::Line,
        rectangle_toggle: k == ShapeKind::Rectangle,
        ellipse_toggle: k == ShapeKind::Ellipse,
        fill_revealer: k != ShapeKind::Line,
        ..w
    }
}

/// The draw-style part of the widget state after an accepted style
/// transition.
pub open spec fn style_widgets(w: Widgets, k: DrawStyle) -> Widgets {
    Widgets { smooth_toggle: k == DrawStyle::Smooth, rough_toggle: k == DrawStyle::Rough, ..w }
}

/// A pen transition: a request for the current pen is a no-op;
/// otherwise the pen axis switches, the pen toggle group and the
/// side-panel page follow, and every pen observer is notified.
pub open spec fn spec_set_pen(m: MachineModel, k: PenKind) -> MachineModel {
    if m.tools.pen == k {
        m
    } else {
        MachineModel {
            tools: ToolState { pen: k, ..m.tools },
            widgets: pen_widgets(m.widgets, k),
            log: m.log + notes_for(m.observers, AxisId::Pen, StateValue::Pen(k)),
            ..m
        }
    }
}

/// A shape transition: no-op on the current shape; otherwise the shape
/// axis switches, the shape toggles and the fill-style revealer
/// follow, and every shape observer is notified.
pub open spec fn spec_set_shape(m: MachineModel, k: ShapeKind) -> MachineModel {
    if m.tools.shape == k {
        m
    } else {
        MachineModel {
            tools: ToolState { shape: k, ..m.tools },
            widgets: shape_widgets(m.widgets, k),
            log: m.log + notes_for(m.observers, AxisId::Shape, StateValue::Shape(k)),
            ..m
        }
    }
}

/// A draw-style transition: no-op on the current style; otherwise the
/// style axis switches, the style toggles follow, and every style
/// observer is notified.
pub open spec fn spec_set_style(m: MachineModel, k: DrawStyle) -> MachineModel {
    if m.tools.style == k {
        m
    } else {
        MachineModel {
            tools: ToolState { style: k, ..m.tools },
            widgets: style_widgets(m.widgets, k),
            log: m.log + notes_for(m.observers, AxisId::Style, StateValue::Style(k)),
            ..m
        }
    }
}

/// A renderer-backend transition: no-op on the current backend;
/// otherwise the backend switches, every backend observer is notified,
/// and a full re-render of content and background is requested.
pub open spec fn spec_set_backend(m: MachineModel, k: BackendKind) -> MachineModel {
    if m.tools.backend == k {
        m
    } else {
        MachineModel {
            tools: ToolState { backend: k, ..m.tools },
            log: m.log + notes_for(m.observers, AxisId::Backend, StateValue::Backend(k)),
            effects: m.effects.push(Effect::Regenerate { content: true, background: true }),
            ..m
        }
    }
}

/// A visual-debug transition: no-op on the current value, otherwise
/// the flag flips and its observers are notified.
pub open spec fn spec_set_visual_debug(m: MachineModel, b: bool) -> MachineModel {
    if m.toggles.visual_debug == b {
        m
    } else {
        MachineModel {
            toggles: Toggles { visual_debug: b, ..m.toggles },
            log: m.log + notes_for(m.observers, AxisId::VisualDebug, StateValue::Flag(b)),
            ..m
        }
    }
}

/// A developer-mode transition: no-op on the current value; otherwise
/// the flag flips, the developer controls follow, its observers are
/// notified, and disabling developer mode forces visual debug off
/// through the same idempotent path, so visual-debug observers fire
/// exactly when that flag actually changes.
pub open spec fn spec_set_devel(m: MachineModel, b: bool) -> MachineModel {
    if m.toggles.devel == b {
        m
    } else {
        let switched = MachineModel {
            toggles: Toggles { devel: b, ..m.toggles },
            widgets: Widgets { devel_revealer: b, devel_menu_enabled: b, ..m.widgets },
            log: m.log + notes_for(m.observers, AxisId::Devel, StateValue::Flag(b)),
            ..m
        };
        if !b {
            spec_set_visual_debug(switched, false)
        } else {
            switched
        }
    }
}

/// A format-borders transition: no-op on the current value, otherwise
/// the flag flips and its observers are notified.
pub open spec fn spec_set_format_borders(m: MachineModel, b: bool) -> MachineModel {
    if m.toggles.format_borders == b {
        m
    } else {
        MachineModel {
            toggles: Toggles { format_borders: b, ..m.toggles },
            log: m.log + notes_for(m.observers, AxisId::FormatBorders, StateValue::Flag(b)),
            ..m
        }
    }
}

/// A touch-drawing transition: no-op on the current value, otherwise
/// the flag flips and its observers are notified.
pub open spec fn spec_set_touch_drawing(m: MachineModel, b: bool) -> MachineModel {
    if m.toggles.touch_drawing == b {
        m
    } else {
        MachineModel {
            toggles: Toggles { touch_drawing: b, ..m.toggles },
            log: m.log + notes_for(m.observers, AxisId::TouchDrawing, StateValue::Flag(b)),
            ..m
        }
    }
}

/// An autoexpand-height transition: no-op on the current value;
/// otherwise the flag flips, the page-edit revealer shows exactly when
/// the height does not autoexpand, and its observers are notified.
pub open spec fn spec_set_autoexpand_height(m: MachineModel, b: bool) -> MachineModel {
    if m.toggles.autoexpand_height == b {
        m
    } else {
        MachineModel {
            toggles: Toggles { autoexpand_height: b, ..m.toggles },
            widgets: Widgets { pageedit_revealer: !b, ..m.widgets },
            log: m.log + notes_for(m.observers, AxisId::AutoexpandHeight, StateValue::Flag(b)),
            ..m
        }
    }
}

/// A handedness transition: no-op on the current handedness; otherwise
/// every layout slot is reassigned to the other handedness in one
/// step, the pair of handedness menu indicators flips with it, and
/// every handedness observer is notified.
pub open spec fn spec_set_righthanded(m: MachineModel, b: bool) -> MachineModel {
    if m.layout.righthanded == b {
        m
    } else {
        MachineModel {
            layout: layout_for(b),
            widgets: Widgets { righthanded_toggle: b, lefthanded_toggle: !b, ..m.widgets },
            log: m.log + notes_for(m.observers, AxisId::Righthanded, StateValue::Flag(b)),
            ..m
        }
    }
}

/// Beginning an override while one is active is a no-op that keeps the
/// first frame's saved value; from the normal state it saves the
/// current pen, notifies the override observers, and forces the pen to
/// the eraser through the normal pen transition (so pen observers fire
/// unless the eraser was already current).
pub open spec fn spec_begin_override(m: MachineModel) -> MachineModel {
    if m.over is Overridden {
        m
    } else {
        let armed = MachineModel {
            over: OverrideFrame::Overridden { saved: m.tools.pen },
            log: m.log + notes_for(m.observers, AxisId::Override, StateValue::Flag(true)),
            ..m
        };
        spec_set_pen(armed, PenKind::Eraser)
    }
}

/// Ending an override in the normal state is a no-op; from the
/// overridden state it clears the frame, notifies the override
/// observers, and restores the saved pen through the normal pen
/// transition.
pub open spec fn spec_end_override(m: MachineModel) -> MachineModel {
    match m.over {
        OverrideFrame::Normal => m,
        OverrideFrame::Overridden { saved } => {
            let released = MachineModel {
                over: OverrideFrame::Normal,
                log: m.log + notes_for(m.observers, AxisId::Override, StateValue::Flag(false)),
                ..m
            };
            spec_set_pen(released, saved)
        },
    }
}

/// The explicit boolean form of the override: true begins, false ends,
/// each through the guarded transitions.
pub open spec fn spec_set_override(m: MachineModel, b: bool) -> MachineModel {
    if b {
        spec_begin_override(m)
    } else {
        spec_end_override(m)
    }
}

/// The argumentless toggle form of the override: flips based on the
/// current override state, through the same guarded transitions.
pub open spec fn spec_toggle_override(m: MachineModel) -> MachineModel {
    if m.over is Overridden {
        spec_end_override(m)
    } else {
        spec_begin_override(m)
    }
}

/// A new observer registration on one axis, handed the next identifier.
pub open spec fn spec_register_observer(m: MachineModel, axis: AxisId) -> MachineModel {
    MachineModel {
        observers: m.observers.push(ObserverReg { axis: axis, id: m.next_observer }),
        next_observer: (m.next_observer + 1) as u64,
        ..m
    }
}

/// An effect recorded for the host to perform.
pub open spec fn spec_record_effect(m: MachineModel, e: Effect) -> MachineModel {
    MachineModel { effects: m.effects.push(e), ..m }
}

/// The machine's starting state: pen marker, shape rectangle, style
/// smooth, backend librsvg, every toggle off, no override, the
/// righthanded layout, and no observers, notifications or effects.
pub open spec fn initial_model() -> MachineModel {
    MachineModel {
        tools: ToolState {
            pen: PenKind::Marker,
            shape: ShapeKind::Rectangle,
            style: DrawStyle::Smooth,
            backend: BackendKind::Librsvg,
        },
        toggles: Toggles {
            devel: false,
            visual_debug: false,
            format_borders: false,
            touch_drawing: false,
            autoexpand_height: false,
        },
        over: OverrideFrame::Normal,
        widgets: Widgets {
            marker_toggle: true,
            brush_toggle: false,
            shaper_toggle: false,
            eraser_toggle: false,
            selector_toggle: false,
            sidebar_page: PenKind::Marker,
            line_toggle: false,
            rectangle_toggle: true,
            ellipse_toggle: false,
            fill_revealer: true,
            smooth_toggle: true,
            rough_toggle: false,
            devel_revealer: false,
            devel_menu_enabled: false,
            pageedit_revealer: true,
            righthanded_toggle: true,
            lefthanded_toggle: false,
        },
        layout: layout_for(true),
        observers: Seq::empty(),
        log: Seq::empty(),
        effects: Seq::empty(),
        next_observer: 0,
    }
}

/// The exclusive-choice state machine and everything it keeps in sync.
pub struct Machine {
    tools: ToolState,
    toggles: Toggles,
    over: OverrideFrame,
    widgets: Widgets,
    layout: LayoutState,
    observers: Vec<ObserverReg>,
    log: Vec<Notification>,
    effects: Vec<Effect>,
    next_observer: u64,
}

impl Machine {
    /// The machine's mathematical state.
    pub closed spec fn model(&self) -> MachineModel {
        MachineModel {
            tools: self.tools,
            toggles: self.toggles,
            over: self.over,
            widgets: self.widgets,
            layout: self.layout,
            observers: self.observers@,
            log: self.log@,
            effects: self.effects@,
            next_observer: self.next_observer,
        }
    }

    /// Builds the machine in its starting state.
    pub fn new() -> (r: Machine)
        ensures
            r.model() == initial_model(),
    {
        Machine {
            tools: ToolState {
                pen: PenKind::Marker,
                shape: ShapeKind::Rectangle,
                style: DrawStyle::Smooth,
                backend: BackendKind::Librsvg,
            },
            toggles: Toggles {
                devel: false,
                visual_debug: false,
                format_borders: false,
                touch_drawing: false,
                autoexpand_height: false,
            },
            over: OverrideFrame::Normal,
            widgets: Widgets {
                marker_toggle: true,
                brush_toggle: false,
                shaper_toggle: false,
                eraser_toggle: false,
                selector_toggle: false,
                sidebar_page: PenKind::Marker,
                line_toggle: false,
                rectangle_toggle: true,
                ellipse_toggle: false,
                fill_revealer: true,
                smooth_toggle: true,
                rough_toggle: false,
                devel_revealer: false,
                devel_menu_enabled: false,
                pageedit_revealer: true,
                righthanded_toggle: true,
                lefthanded_toggle: false,
            },
            layout: build_layout(true),
            observers: Vec::new(),
            log: Vec::new(),
            effects: Vec::new(),
            next_observer: 0,
        }
    }

    /// Subscribes a new observer to one axis and returns its identifier.
    pub fn register_observer(&mut self, axis: AxisId) -> (id: u64)
        requires
            old(self).model().next_observer < u64::MAX,
        ensures
            id == old(self).model().next_observer,
            final(self).model() == spec_register_observer(old(self).model(), axis),
    {
        let id = self.next_observer;
        self.observers.push(ObserverReg { axis: axis, id: id });
        self.next_observer = self.next_observer + 1;
        id
    }

    /// Records a request to an external collaborator.
    pub(crate) fn record_effect(&mut self, e: Effect)
        ensures
            final(self).model() == spec_record_effect(old(self).model(), e),
    {
        self.effects.push(e);
    }

    /// Applies a pen transition through the idempotence guard.
    pub fn set_pen(&mut self, k: PenKind)
        ensures
            final(self).model() == spec_set_pen(old(self).model(), k),
    {
        if self.tools.pen == k {
            return ;
        }
        self.tools.pen = k;
        self.widgets = Widgets {
            marker_toggle: k == PenKind::Marker,
            brush_toggle: k == PenKind::Brush,
            shaper_toggle: k == PenKind::Shaper,
            eraser_toggle: k == PenKind::Eraser,
            selector_toggle: k == PenKind::Selector,
            sidebar_page: k,
            ..self.widgets
        };
        fan_out(&self.observers, &mut self.log, AxisId::Pen, StateValue::Pen(k));
    }

    /// Applies a shape transition through the idempotence guard.
    pub fn set_shape(&mut self, k: ShapeKind)
        ensures
            final(self).model() == spec_set_shape(old(self).model(), k),
    {
        if self.tools.shape == k {
            return ;
        }
        self.tools.shape = k;
        self.widgets = Widgets {
            line_toggle: k == ShapeKind::Line,
            rectangle_toggle: k == ShapeKind::Rectangle,
            ellipse_toggle: k == ShapeKind::Ellipse,
            fill_revealer: k != ShapeKind::Line,
            ..self.widgets
        };
        fan_out(&self.observers, &mut self.log, AxisId::Shape, StateValue::Shape(k));
    }

    /// Applies a draw-style transition through the idempotence guard.
    pub fn set_style(&mut self, k: DrawStyle)
        ensures
            final(self).model() == spec_set_style(old(self).model(), k),
    {
        if self.tools.style == k {
            return ;
        }
        self.tools.style = k;
        self.widgets = Widgets {
            smooth_toggle: k == DrawStyle::Smooth,
            rough_toggle: k == DrawStyle::Rough,
            ..self.widgets
        };
        fan_out(&self.observers, &mut self.log, AxisId::Style, StateValue::Style(k));
    }

    /// Applies a renderer-backend transition through the idempotence
    /// guard; an accepted switch asks the host for a full re-render.
    pub fn set_backend(&mut self, k: BackendKind)
        ensures
            final(self).model() == spec_set_backend(old(self).model(), k),
    {
        if self.tools.backend == k {
            return ;
        }
        self.tools.backend = k;
        fan_out(&self.observers, &mut self.log, AxisId::Backend, StateValue::Backend(k));
        self.effects.push(Effect::Regenerate { content: true, background: true });
    }

    /// Applies a visual-debug transition through the idempotence guard.
    pub fn set_visual_debug(&mut self, b: bool)
        ensures
            final(self).model() == spec_set_visual_debug(old(self).model(), b),
    {
        if self.toggles.visual_debug == b {
            return ;
        }
        self.toggles.visual_debug = b;
        fan_out(&self.observers, &mut self.log, AxisId::VisualDebug, StateValue::Flag(b));
    }

    /// Applies a developer-mode transition through the idempotence
    /// guard; disabling developer mode forces visual debug off through
    /// its own guarded transition.
    pub fn set_devel(&mut self, b: bool)
        ensures
            final(self).model() == spec_set_devel(old(self).model(), b),
    {
        if self.toggles.devel == b {
            return ;
        }
        self.toggles.devel = b;
        self.widgets = Widgets { devel_revealer: b, devel_menu_enabled: b, ..self.widgets };
        fan_out(&self.observers, &mut self.log, AxisId::Devel, StateValue::Flag(b));
        if !b {
            self.set_visual_debug(false);
        }
    }

    /// Applies a format-borders transition through the idempotence
    /// guard.
    pub fn set_format_borders(&mut self, b: bool)
        ensures
            final(self).model() == spec_set_format_borders(old(self).model(), b),
    {
        if self.toggles.format_borders == b {
            return ;
        }
        self.toggles.format_borders = b;
        fan_out(&self.observers, &mut self.log, AxisId::FormatBorders, StateValue::Flag(b));
    }

    /// Applies a touch-drawing transition through the idempotence
    /// guard.
    pub fn set_touch_drawing(&mut self, b: bool)
        ensures
            final(self).model() == spec_set_touch_drawing(old(self).model(), b),
    {
        if self.toggles.touch_drawing == b {
            return ;
        }
        self.toggles.touch_drawing = b;
        fan_out(&self.observers, &mut self.log, AxisId::TouchDrawing, StateValue::Flag(b));
    }

    /// Applies an autoexpand-height transition through the idempotence
    /// guard.
    pub fn set_autoexpand_height(&mut self, b: bool)
        ensures
            final(self).model() == spec_set_autoexpand_height(old(self).model(), b),
    {
        if self.toggles.autoexpand_height == b {
            return ;
        }
        self.toggles.autoexpand_height = b;
        self.widgets = Widgets { pageedit_revealer: !b, ..self.widgets };
        fan_out(&self.observers, &mut self.log, AxisId::AutoexpandHeight, StateValue::Flag(b));
    }

    /// Applies a handedness transition through the idempotence guard:
    /// an accepted switch reassigns every layout slot and flips the
    /// indicator pair in the same transition.
    #[verifier::spinoff_prover]
    #[verifier::rlimit(100)]
    pub fn set_righthanded(&mut self, b: bool)
        ensures
            final(self).model() == spec_set_righthanded(old(self).model(), b),
    {
        if self.layout.righthanded == b {
            return ;
        }
        self.layout = build_layout(b);
        self.widgets = Widgets { righthanded_toggle: b, lefthanded_toggle: !b, ..self.widgets };
        fan_out(&self.observers, &mut self.log, AxisId::Righthanded, StateValue::Flag(b));
    }

    /// Begins the momentary override: saves the current pen and forces
    /// the eraser; a second begin while overridden is a no-op that
    /// keeps the first saved value.
    pub fn begin_override(&mut self)
        ensures
            final(self).model() == spec_begin_override(old(self).model()),
    {
        match self.over {
            OverrideFrame::Overridden { .. } => {},
            OverrideFrame::Normal => {
                let saved = self.tools.pen;
                self.over = OverrideFrame::Overridden { saved };
                fan_out(&self.observers, &mut self.log, AxisId::Override, StateValue::Flag(true));
                self.set_pen(PenKind::Eraser);
            },
        }
    }

    /// Ends the momentary override: restores the pen saved when the
    /// override began; ending while not overridden is a no-op.
    pub fn end_override(&mut self)
        ensures
            final(self).model() == spec_end_override(old(self).model()),
    {
        match self.over {
            OverrideFrame::Normal => {},
            OverrideFrame::Overridden { saved } => {
                self.over = OverrideFrame::Normal;
                fan_out(&self.observers, &mut self.log, AxisId::Override, StateValue::Flag(false));
                self.set_pen(saved);
            },
        }
    }

    /// The explicit boolean form of the override.
    pub fn set_override(&mut self, b: bool)
        ensures
            final(self).model() == spec_set_override(old(self).model(), b),
    {
        if b {
            self.begin_override();
        } else {
            self.end_override();
        }
    }

    /// The argumentless toggle form of the override.
    pub fn toggle_override(&mut self)
        ensures
            final(self).model() == spec_toggle_override(old(self).model()),
    {
        match self.over {
            OverrideFrame::Overridden { .. } => self.end_override(),
            OverrideFrame::Normal => self.begin_override(),
        }
    }

    /// The current variants of the four tool axes.
    pub fn tool_state(&self) -> (t: ToolState)
        ensures
            t == self.model().tools,
    {
        self.tools
    }

    /// The current values of the boolean toggles.
    pub fn toggle_state(&self) -> (t: Toggles)
        ensures
            t == self.model().toggles,
    {
        self.toggles
    }

    /// The override controller's current frame.
    pub fn override_frame(&self) -> (o: OverrideFrame)
        ensures
            o == self.model().over,
    {
        self.over
    }

    /// The dependent widget state.
    pub fn widget_state(&self) -> (w: Widgets)
        ensures
            w == self.model().widgets,
    {
        self.widgets
    }

    /// The current layout slot assignment.
    pub fn layout_state(&self) -> (l: LayoutState)
        ensures
            l == self.model().layout,
    {
        self.layout
    }

    /// How many notifications have been delivered since the start.
    pub fn notes_len(&self) -> (n: usize)
        ensures
            n == self.model().log.len(),
    {
        self.log.len()
    }

    /// The `i`-th delivered notification, oldest first.
    pub fn note_at(&self, i: usize) -> (n: Notification)
        requires
            i < self.model().log.len(),
        ensures
            n == self.model().log[i as int],
    {
        self.log[i]
    }

    /// How many effects are pending for the host.
    pub fn effects_len(&self) -> (n: usize)
        ensures
            n == self.model().effects.len(),
    {
        self.effects.len()
    }

    /// The `i`-th pending effect, oldest first.
    pub fn effect_at(&self, i: usize) -> (e: &Effect)
        requires
            i < self.model().effects.len(),
        ensures
            *e == self.model().effects[i as int],
    {
        &self.effects[i]
    }

    /// Drops the pending effects once the host has performed them.
    pub fn clear_effects(&mut self)
        ensures
            final(self).model() == (MachineModel {
                effects: Seq::empty(),
                ..old(self).model()
            }),
    {
        self.effects = Vec::new();
    }
}

/// Law: the starting state is well formed: every widget tracks its
/// axis and the layout matches its handedness.
pub proof fn lemma_initial_wf()
    ensures
        machine_wf(initial_model()),
{
    reveal(layout_for);
}

/// Law (idempotence): requesting the value an axis already holds is a
/// strict no-op on every axis, boolean toggles and the override
/// included: no field changes and no observer is notified.
pub proof fn lemma_transitions_idempotent(m: MachineModel)
    ensures
        spec_set_pen(m, m.tools.pen) == m,
        spec_set_shape(m, m.tools.shape) == m,
        spec_set_style(m, m.tools.style) == m,
        spec_set_backend(m, m.tools.backend) == m,
        spec_set_devel(m, m.toggles.devel) == m,
        spec_set_visual_debug(m, m.toggles.visual_debug) == m,
        spec_set_format_borders(m, m.toggles.format_borders) == m,
        spec_set_touch_drawing(m, m.toggles.touch_drawing) == m,
        spec_set_autoexpand_height(m, m.toggles.autoexpand_height) == m,
        spec_set_righthanded(m, m.layout.righthanded) == m,
        m.over is Overridden ==> spec_set_override(m, true) == m,
        m.over is Normal ==> spec_set_override(m, false) == m,
{
}

/// Law (exclusivity): a tool-axis transition keeps the machine well
/// formed, so after any accepted transition exactly one variant is
/// current on each axis and the widgets reflect it.
#[verifier::spinoff_prover]
#[verifier::rlimit(100)]
pub proof fn lemma_tool_transitions_preserve_wf(
    m: MachineModel,
    p: PenKind,
    s: ShapeKind,
    d: DrawStyle,
    r: BackendKind,
)
    requires
        machine_wf(m),
    ensures
        machine_wf(spec_set_pen(m, p)),
        machine_wf(spec_set_shape(m, s)),
        machine_wf(spec_set_style(m, d)),
        machine_wf(spec_set_backend(m, r)),
{
}

/// Law (exclusivity): a boolean transition keeps the machine well
/// formed, the developer-mode cascade included.
pub proof fn lemma_toggle_transitions_preserve_wf(m: MachineModel, b: bool)
    requires
        machine_wf(m),
    ensures
        machine_wf(spec_set_devel(m, b)),
        machine_wf(spec_set_visual_debug(m, b)),
        machine_wf(spec_set_format_borders(m, b)),
        machine_wf(spec_set_touch_drawing(m, b)),
        machine_wf(spec_set_autoexpand_height(m, b)),
{
}

/// Law (exclusivity): a handedness transition keeps the machine well
/// formed: the whole layout is reassigned to the new handedness and
/// the indicator pair follows.
pub proof fn lemma_handedness_preserves_wf(m: MachineModel, b: bool)
    requires
        machine_wf(m),
    ensures
        machine_wf(spec_set_righthanded(m, b)),
{
    reveal(layout_for);
}

/// Law (exclusivity): the override transitions keep the machine well
/// formed.
pub proof fn lemma_override_preserves_wf(m: MachineModel)
    requires
        machine_wf(m),
    ensures
        machine_wf(spec_begin_override(m)),
        machine_wf(spec_end_override(m)),
{
}

/// Law (exclusivity): in a well-formed state each exclusive toggle
/// group has exactly one active member — the one matching the current
/// variant — and the handedness indicators are mutually exclusive.
pub proof fn lemma_exclusive_toggles(m: MachineModel)
    requires
        machine_wf(m),
    ensures
        m.widgets.marker_toggle || m.widgets.brush_toggle || m.widgets.shaper_toggle
            || m.widgets.eraser_toggle || m.widgets.selector_toggle,
        !(m.widgets.marker_toggle && m.widgets.brush_toggle),
        !(m.widgets.marker_toggle && m.widgets.shaper_toggle),
        !(m.widgets.marker_toggle && m.widgets.eraser_toggle),
        !(m.widgets.marker_toggle && m.widgets.selector_toggle),
        !(m.widgets.brush_toggle && m.widgets.shaper_toggle),
        !(m.widgets.brush_toggle && m.widgets.eraser_toggle),
        !(m.widgets.brush_toggle && m.widgets.selector_toggle),
        !(m.widgets.shaper_toggle && m.widgets.eraser_toggle),
        !(m.widgets.shaper_toggle && m.widgets.selector_toggle),
        !(m.widgets.eraser_toggle && m.widgets.selector_toggle),
        m.widgets.line_toggle || m.widgets.rectangle_toggle || m.widgets.ellipse_toggle,
        !(m.widgets.line_toggle && m.widgets.rectangle_toggle),
        !(m.widgets.line_toggle && m.widgets.ellipse_toggle),
        !(m.widgets.rectangle_toggle && m.widgets.ellipse_toggle),
        m.widgets.smooth_toggle != m.widgets.rough_toggle,
        m.widgets.righthanded_toggle != m.widgets.lefthanded_toggle,
{
}

/// Law (independence): the axes are independent: an accepted
/// transition on one axis never moves another axis, the toggles or
/// the override frame.
pub proof fn lemma_axes_independent(
    m: MachineModel,
    p: PenKind,
    s: ShapeKind,
    d: DrawStyle,
    r: BackendKind,
)
    ensures
        spec_set_pen(m, p).tools.shape == m.tools.shape,
        spec_set_pen(m, p).tools.style == m.tools.style,
        spec_set_pen(m, p).tools.backend == m.tools.backend,
        spec_set_pen(m, p).toggles == m.toggles,
        spec_set_pen(m, p).over == m.over,
        spec_set_shape(m, s).tools.pen == m.tools.pen,
        spec_set_shape(m, s).tools.style == m.tools.style,
        spec_set_shape(m, s).tools.backend == m.tools.backend,
        spec_set_style(m, d).tools.pen == m.tools.pen,
        spec_set_style(m, d).tools.shape == m.tools.shape,
        spec_set_backend(m, r).tools.pen == m.tools.pen,
        spec_set_backend(m, r).tools.shape == m.tools.shape,
        spec_set_backend(m, r).tools.style == m.tools.style,
{
}

/// Law (override round trip): from any well-formed non-overridden
/// state, begin then end restores everything except the notification
/// log: the pen held before the override — the eraser itself included
/// — is current again, the frame is clear, and no other axis, widget,
/// layout slot, observer or effect has moved.
pub proof fn lemma_override_round_trip(m: MachineModel)
    requires
        machine_wf(m),
        m.over is Normal,
    ensures
        spec_end_override(spec_begin_override(m)).tools == m.tools,
        spec_end_override(spec_begin_override(m)).over == OverrideFrame::Normal,
        spec_end_override(spec_begin_override(m)).toggles == m.toggles,
        spec_end_override(spec_begin_override(m)).widgets == m.widgets,
        spec_end_override(spec_begin_override(m)).layout == m.layout,
        spec_end_override(spec_begin_override(m)).observers == m.observers,
        spec_end_override(spec_begin_override(m)).effects == m.effects,
        spec_end_override(spec_begin_override(m)).next_observer == m.next_observer,
{
}

/// Law (double-begin guard): a second begin while overridden is a
/// no-op that keeps the first frame's saved pen, so begin-begin-end
/// still restores the pen held before the first begin, not the
/// eraser.
pub proof fn lemma_override_double_begin(m: MachineModel)
    requires
        machine_wf(m),
        m.over is Normal,
    ensures
        spec_begin_override(spec_begin_override(m)) == spec_begin_override(m),
        spec_end_override(spec_begin_override(spec_begin_override(m))).tools.pen == m.tools.pen,
{
    lemma_override_round_trip(m);
}

} // verus!
