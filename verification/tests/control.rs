use rnote_actions::axes::AxisId;
use rnote_actions::axes::BackendKind;
use rnote_actions::axes::DrawStyle;
use rnote_actions::axes::PenKind;
use rnote_actions::axes::ShapeKind;
use rnote_actions::axes::StateValue;
use rnote_actions::axes::backend_from_tag;
use rnote_actions::axes::pen_from_tag;
use rnote_actions::axes::pen_tag;
use rnote_actions::axes::shape_from_tag;
use rnote_actions::axes::style_from_tag;
use rnote_actions::machine::DialogKind;
use rnote_actions::machine::Effect;
use rnote_actions::machine::Machine;
use rnote_actions::machine::MenuKind;
use rnote_actions::machine::OverrideFrame;
use rnote_actions::registry::CmdError;
use rnote_actions::registry::CommandId;
use rnote_actions::registry::Registry;
use rnote_actions::registry::Value;
use rnote_actions::registry::setup_actions;
use rnote_actions::save::SavePlan;
use rnote_actions::save::plan_save;
use rnote_actions::save::retain_target;

fn tag(s: &str) -> Value {
    Value::Tag(s.to_string())
}

fn ready_registry() -> Registry {
    let mut reg = Registry::new();
    setup_actions(&mut reg);
    reg
}

#[test]
fn idempotent_pen_set_notifies_nobody() {
    let mut m = Machine::new();
    m.register_observer(AxisId::Pen);
    m.set_pen(PenKind::Marker);
    assert_eq!(m.notes_len(), 0);
    m.set_pen(PenKind::Marker);
    assert_eq!(m.notes_len(), 0);
}

#[test]
fn idempotent_bool_set_notifies_nobody() {
    let mut m = Machine::new();
    m.register_observer(AxisId::Devel);
    m.set_devel(false);
    m.set_devel(false);
    assert_eq!(m.notes_len(), 0);
    m.set_devel(true);
    assert_eq!(m.notes_len(), 1);
    m.set_devel(true);
    assert_eq!(m.notes_len(), 1);
}

#[test]
fn accepted_transition_keeps_exactly_one_toggle_active() {
    let mut m = Machine::new();
    m.set_pen(PenKind::Shaper);
    let w = m.widget_state();
    let active = [
        w.marker_toggle,
        w.brush_toggle,
        w.shaper_toggle,
        w.eraser_toggle,
        w.selector_toggle,
    ];
    assert_eq!(active.iter().filter(|a| **a).count(), 1);
    assert!(w.shaper_toggle);
    m.set_shape(ShapeKind::Ellipse);
    let w = m.widget_state();
    let shapes = [w.line_toggle, w.rectangle_toggle, w.ellipse_toggle];
    assert_eq!(shapes.iter().filter(|a| **a).count(), 1);
    assert!(w.ellipse_toggle);
}

#[test]
fn axes_are_independent() {
    let mut m = Machine::new();
    m.set_shape(ShapeKind::Line);
    assert_eq!(m.tool_state().pen, PenKind::Marker);
    m.set_pen(PenKind::Brush);
    assert_eq!(m.tool_state().shape, ShapeKind::Line);
    assert_eq!(m.tool_state().style, DrawStyle::Smooth);
    assert_eq!(m.tool_state().backend, BackendKind::Librsvg);
}

#[test]
fn override_round_trips_from_every_pen() {
    let pens = [
        PenKind::Marker,
        PenKind::Brush,
        PenKind::Shaper,
        PenKind::Eraser,
        PenKind::Selector,
    ];
    for p in pens {
        let mut m = Machine::new();
        m.set_pen(p);
        m.begin_override();
        assert_eq!(m.tool_state().pen, PenKind::Eraser);
        m.end_override();
        assert_eq!(m.tool_state().pen, p);
        assert_eq!(m.override_frame(), OverrideFrame::Normal);
    }
}

#[test]
fn override_double_begin_keeps_first_saved_pen() {
    let mut m = Machine::new();
    m.set_pen(PenKind::Brush);
    m.begin_override();
    m.begin_override();
    m.end_override();
    assert_eq!(m.tool_state().pen, PenKind::Brush);
    assert_eq!(m.override_frame(), OverrideFrame::Normal);
}

#[test]
fn override_toggle_form_matches_explicit_form() {
    let mut a = Machine::new();
    let mut b = Machine::new();
    a.set_pen(PenKind::Selector);
    b.set_pen(PenKind::Selector);
    a.toggle_override();
    b.set_override(true);
    assert_eq!(a.tool_state().pen, b.tool_state().pen);
    assert_eq!(a.override_frame(), b.override_frame());
    a.toggle_override();
    b.set_override(false);
    assert_eq!(a.tool_state().pen, PenKind::Selector);
    assert_eq!(b.tool_state().pen, PenKind::Selector);
}

#[test]
fn invoke_and_set_state_are_equivalent_for_enum_command() {
    let mut a = ready_registry();
    let mut b = ready_registry();
    a.machine_mut().register_observer(AxisId::Pen);
    b.machine_mut().register_observer(AxisId::Pen);
    let ra = a.invoke(&"current-pen".to_string(), &tag("eraser"));
    let rb = b.set_state(&"current-pen".to_string(), &tag("eraser"));
    assert_eq!(ra, rb);
    assert_eq!(a.machine().tool_state(), b.machine().tool_state());
    assert_eq!(a.machine().notes_len(), b.machine().notes_len());
    for i in 0..a.machine().notes_len() {
        assert_eq!(a.machine().note_at(i), b.machine().note_at(i));
    }
}

#[test]
fn invoke_and_set_state_are_equivalent_for_bool_command() {
    let mut a = ready_registry();
    let mut b = ready_registry();
    a.machine_mut().register_observer(AxisId::FormatBorders);
    b.machine_mut().register_observer(AxisId::FormatBorders);
    let ra = a.invoke(&"format-borders".to_string(), &Value::Flag(true));
    let rb = b.set_state(&"format-borders".to_string(), &Value::Flag(true));
    assert_eq!(ra, rb);
    assert_eq!(a.machine().toggle_state(), b.machine().toggle_state());
    assert_eq!(a.machine().notes_len(), b.machine().notes_len());
    for i in 0..a.machine().notes_len() {
        assert_eq!(a.machine().note_at(i), b.machine().note_at(i));
    }
}

#[test]
fn invoke_and_set_state_agree_on_already_current_value() {
    let mut a = ready_registry();
    let mut b = ready_registry();
    a.machine_mut().register_observer(AxisId::Pen);
    b.machine_mut().register_observer(AxisId::Pen);
    let ra = a.invoke(&"current-pen".to_string(), &tag("marker"));
    let rb = b.set_state(&"current-pen".to_string(), &tag("marker"));
    assert_eq!(ra, rb);
    assert_eq!(ra, Ok(()));
    assert_eq!(a.machine().notes_len(), 0);
    assert_eq!(b.machine().notes_len(), 0);
}

#[test]
fn layout_mirror_round_trips() {
    let mut m = Machine::new();
    let original = m.layout_state();
    assert!(original.righthanded);
    m.set_righthanded(false);
    let mirrored = m.layout_state();
    assert!(!mirrored.righthanded);
    assert_ne!(original, mirrored);
    m.set_righthanded(true);
    assert_eq!(m.layout_state(), original);
}

#[test]
fn layout_slots_mirror_each_other() {
    let mut m = Machine::new();
    let right = m.layout_state();
    m.set_righthanded(false);
    let left = m.layout_state();
    assert_eq!(right.sidebar.col, 0);
    assert_eq!(left.sidebar.col, 2);
    assert_eq!(right.sidebar_sep.col, 1);
    assert_eq!(left.sidebar_sep.col, 1);
    assert_eq!(right.canvas.col, 2);
    assert_eq!(left.canvas.col, 0);
    assert_ne!(right.tool_group, left.tool_group);
    assert_ne!(right.flap, left.flap);
    assert_ne!(right.marker_color_anchor, left.marker_color_anchor);
    assert_ne!(right.brush_help_arrow, left.brush_help_arrow);
    let w = m.widget_state();
    assert!(w.lefthanded_toggle);
    assert!(!w.righthanded_toggle);
}

#[test]
fn pen_switch_scenario_fires_observer_once_and_syncs_widgets() {
    let mut reg = ready_registry();
    let id = reg.machine_mut().register_observer(AxisId::Pen);
    assert_eq!(reg.machine().tool_state().pen, PenKind::Marker);
    let r = reg.invoke(&"current-pen".to_string(), &tag("eraser"));
    assert_eq!(r, Ok(()));
    assert_eq!(reg.machine().notes_len(), 1);
    let note = reg.machine().note_at(0);
    assert_eq!(note.observer, id);
    assert_eq!(note.axis, AxisId::Pen);
    assert_eq!(note.value, StateValue::Pen(PenKind::Eraser));
    let w = reg.machine().widget_state();
    assert_eq!(w.sidebar_page, PenKind::Eraser);
    assert!(w.eraser_toggle);
    assert!(!w.marker_toggle);
}

#[test]
fn shape_switch_scenario_drives_fill_revealer() {
    let mut reg = ready_registry();
    reg.invoke(&"current-shape".to_string(), &tag("line")).unwrap();
    assert!(!reg.machine().widget_state().fill_revealer);
    reg.invoke(&"current-shape".to_string(), &tag("rectangle")).unwrap();
    assert!(reg.machine().widget_state().fill_revealer);
}

#[test]
fn zoom_fit_width_scenario() {
    let s = rnote_actions::zoom::scale_fit_width(1000, 10, 480).unwrap();
    assert_eq!(s.num, 980);
    assert_eq!(s.den, 480);
    let factor = s.num as f64 / s.den as f64;
    assert!((factor - 2.0417).abs() < 1e-3);
}

#[test]
fn zoom_fit_width_rejects_degenerate_inputs() {
    assert!(rnote_actions::zoom::scale_fit_width(1000, 10, 0).is_none());
    assert!(rnote_actions::zoom::scale_fit_width(15, 10, 480).is_none());
}

#[test]
fn zoom_steps_are_exact() {
    let unit = rnote_actions::zoom::Scale { num: 1, den: 1 };
    let stepped = rnote_actions::zoom::scale_zoom_in(unit, unit).unwrap();
    assert_eq!(stepped.num, 11);
    assert_eq!(stepped.den, 10);
    let back = rnote_actions::zoom::scale_zoom_out(unit, unit).unwrap();
    assert_eq!(back.num, 9);
    assert_eq!(back.den, 10);
    let huge = rnote_actions::zoom::Scale { num: u64::MAX, den: 1 };
    assert!(rnote_actions::zoom::scale_zoom_in(huge, unit).is_none());
}

#[test]
fn zoom_reset_returns_default_scale() {
    let s = rnote_actions::zoom::scale_reset();
    assert_eq!(s.num, rnote_actions::zoom::SCALE_DEFAULT_NUM);
    assert_eq!(s.den, rnote_actions::zoom::SCALE_DEFAULT_DEN);
}

#[test]
fn unknown_command_is_rejected() {
    let mut reg = ready_registry();
    let r = reg.invoke(&"does-not-exist".to_string(), &Value::Empty);
    assert_eq!(r, Err(CmdError::UnknownCommand));
}

#[test]
fn registration_succeeds_once_then_rejects_the_name() {
    let mut reg = Registry::new();
    assert_eq!(
        reg.invoke(&"about".to_string(), &Value::Empty),
        Err(CmdError::UnknownCommand)
    );
    assert_eq!(reg.register(CommandId::About), Ok(()));
    assert_eq!(reg.register(CommandId::About), Err(CmdError::DuplicateName));
    assert_eq!(reg.invoke(&"about".to_string(), &Value::Empty), Ok(()));
}

#[test]
fn duplicate_registration_is_rejected() {
    let mut reg = ready_registry();
    let r = reg.register(CommandId::About);
    assert_eq!(r, Err(CmdError::DuplicateName));
}

#[test]
fn type_mismatch_is_rejected() {
    let mut reg = ready_registry();
    assert_eq!(
        reg.invoke(&"devel".to_string(), &tag("yes")),
        Err(CmdError::TypeMismatch)
    );
    assert_eq!(
        reg.invoke(&"current-pen".to_string(), &Value::Flag(true)),
        Err(CmdError::TypeMismatch)
    );
    assert_eq!(
        reg.set_state(&"about".to_string(), &Value::Flag(true)),
        Err(CmdError::TypeMismatch)
    );
    assert_eq!(
        reg.set_state(&"devel".to_string(), &Value::Empty),
        Err(CmdError::TypeMismatch)
    );
}

#[test]
fn invalid_variant_leaves_axis_unchanged() {
    let mut reg = ready_registry();
    reg.machine_mut().register_observer(AxisId::Pen);
    let r = reg.invoke(&"current-pen".to_string(), &tag("pencil"));
    assert_eq!(r, Err(CmdError::InvalidVariant));
    assert_eq!(reg.machine().tool_state().pen, PenKind::Marker);
    assert_eq!(reg.machine().notes_len(), 0);
}

#[test]
fn stateless_command_records_effect_once_whatever_the_value() {
    let mut reg = ready_registry();
    reg.invoke(&"about".to_string(), &Value::Empty).unwrap();
    assert_eq!(reg.machine().effects_len(), 1);
    assert_eq!(
        *reg.machine().effect_at(0),
        Effect::ShowDialog(DialogKind::About)
    );
    reg.invoke(&"about".to_string(), &Value::Flag(true)).unwrap();
    assert_eq!(reg.machine().effects_len(), 2);
}

#[test]
fn log_commands_carry_their_message() {
    let mut reg = ready_registry();
    reg.invoke(&"warning".to_string(), &tag("low ink")).unwrap();
    reg.invoke(&"error".to_string(), &Value::Empty).unwrap();
    assert_eq!(
        *reg.machine().effect_at(0),
        Effect::Warn(Some("low ink".to_string()))
    );
    assert_eq!(*reg.machine().effect_at(1), Effect::ReportError(None));
}

#[test]
fn every_registered_command_resolves() {
    let mut reg = ready_registry();
    let stateless = [
        "about",
        "clear-sheet",
        "open-canvasmenu",
        "open-appmenu",
        "zoom-reset",
        "zoom-fit-width",
        "zoom-in",
        "zoom-out",
        "delete-selection",
        "duplicate-selection",
        "import-file",
        "export-selection-as-svg",
        "export-sheet-as-svg",
        "keyboard-shortcuts",
        "warning",
        "error",
        "new-sheet",
        "save-sheet",
        "save-sheet-as",
        "open-sheet",
        "open-workspace",
        "print-sheet",
        "devel-settings",
    ];
    for name in stateless {
        assert_eq!(reg.invoke(&name.to_string(), &Value::Empty), Ok(()), "{name}");
    }
    assert_eq!(reg.machine().effects_len(), stateless.len());
    let toggles = [
        "tmperaser",
        "devel",
        "visual-debug",
        "format-borders",
        "touch-drawing",
        "autoexpand-height",
        "righthanded",
    ];
    for name in toggles {
        assert_eq!(reg.invoke(&name.to_string(), &Value::Empty), Ok(()), "{name}");
    }
    assert_eq!(reg.invoke(&"current-pen".to_string(), &tag("brush")), Ok(()));
    assert_eq!(reg.invoke(&"current-shape".to_string(), &tag("ellipse")), Ok(()));
    assert_eq!(reg.invoke(&"shaper-drawstyle".to_string(), &tag("rough")), Ok(()));
    assert_eq!(reg.invoke(&"renderer-backend".to_string(), &tag("resvg")), Ok(()));
}

#[test]
fn backend_switch_requests_regeneration() {
    let mut reg = ready_registry();
    reg.invoke(&"renderer-backend".to_string(), &tag("resvg")).unwrap();
    assert_eq!(reg.machine().tool_state().backend, BackendKind::Resvg);
    assert_eq!(
        *reg.machine().effect_at(0),
        Effect::Regenerate { content: true, background: true }
    );
    reg.machine_mut().clear_effects();
    assert_eq!(reg.machine().effects_len(), 0);
    reg.invoke(&"renderer-backend".to_string(), &tag("resvg")).unwrap();
    assert_eq!(reg.machine().effects_len(), 0);
}

#[test]
fn disabling_devel_cascades_to_visual_debug() {
    let mut m = Machine::new();
    m.register_observer(AxisId::VisualDebug);
    m.set_devel(true);
    m.set_visual_debug(true);
    assert_eq!(m.notes_len(), 1);
    m.set_devel(false);
    assert!(!m.toggle_state().devel);
    assert!(!m.toggle_state().visual_debug);
    assert_eq!(m.notes_len(), 2);
    let note = m.note_at(1);
    assert_eq!(note.axis, AxisId::VisualDebug);
    assert_eq!(note.value, StateValue::Flag(false));
    assert!(!m.widget_state().devel_revealer);
}

#[test]
fn observers_fire_in_registration_order() {
    let mut m = Machine::new();
    let first = m.register_observer(AxisId::Pen);
    let other = m.register_observer(AxisId::Shape);
    let second = m.register_observer(AxisId::Pen);
    assert_eq!((first, other, second), (0, 1, 2));
    m.set_pen(PenKind::Brush);
    assert_eq!(m.notes_len(), 2);
    assert_eq!(m.note_at(0).observer, first);
    assert_eq!(m.note_at(1).observer, second);
}

#[test]
fn tag_parsing_accepts_the_closed_sets_only() {
    assert_eq!(pen_from_tag(&"marker".to_string()), Some(PenKind::Marker));
    assert_eq!(pen_from_tag(&"selector".to_string()), Some(PenKind::Selector));
    assert_eq!(pen_from_tag(&"quill".to_string()), None);
    assert_eq!(shape_from_tag(&"ellipse".to_string()), Some(ShapeKind::Ellipse));
    assert_eq!(shape_from_tag(&"circle".to_string()), None);
    assert_eq!(style_from_tag(&"rough".to_string()), Some(DrawStyle::Rough));
    assert_eq!(style_from_tag(&"scratchy".to_string()), None);
    assert_eq!(backend_from_tag(&"librsvg".to_string()), Some(BackendKind::Librsvg));
    assert_eq!(backend_from_tag(&"cairo".to_string()), None);
    assert_eq!(pen_from_tag(&pen_tag(PenKind::Shaper)), Some(PenKind::Shaper));
}

#[test]
fn accelerator_table_maps_chords_to_commands() {
    let accels = rnote_actions::registry::setup_accels();
    assert_eq!(accels.len(), 16);
    assert_eq!(accels[0].chord, "<Ctrl>question");
    assert_eq!(accels[0].command, "keyboard-shortcuts");
    assert_eq!(accels[0].param, Value::Empty);
    let eraser = accels.last().unwrap();
    assert_eq!(eraser.chord, "d");
    assert_eq!(eraser.command, "tmperaser");
    assert_eq!(eraser.param, Value::Flag(true));
}

#[test]
fn save_decisions_follow_the_cached_target() {
    assert_eq!(plan_save(false), SavePlan::PromptForTarget);
    assert_eq!(plan_save(true), SavePlan::SaveToCurrent);
    assert!(retain_target(true, true));
    assert!(!retain_target(true, false));
    assert!(!retain_target(false, true));
}

#[test]
fn autoexpand_height_drives_pageedit_revealer() {
    let mut m = Machine::new();
    assert!(m.widget_state().pageedit_revealer);
    m.set_autoexpand_height(true);
    assert!(!m.widget_state().pageedit_revealer);
    m.set_autoexpand_height(false);
    assert!(m.widget_state().pageedit_revealer);
}
