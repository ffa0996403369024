//! The command registry: resolves a command name, validates the
//! parameter's shape against the command's kind, and runs the command
//! against the tool-mode machine.
//!
//! A stateless command records its side effect for the host exactly
//! once per invocation, whatever the parameter. A stateful command can
//! be driven through `invoke` or through `set_state`; both route into
//! the same guarded transitions of the machine, so the two entry
//! points are equivalent. Every failure is non-fatal: the registry and
//! the machine are left exactly as they were.

use vstd::prelude::*;

use crate::axes::spec_backend_from_tag;
use crate::axes::spec_pen_from_tag;
use crate::axes::spec_shape_from_tag;
use crate::axes::spec_style_from_tag;
use crate::axes::backend_from_tag;
use crate::axes::pen_from_tag;
use crate::axes::shape_from_tag;
use crate::axes::style_from_tag;
use crate::machine::DialogKind;
use crate::machine::Effect;
use crate::machine::Machine;
use crate::machine::MachineModel;
use crate::machine::MenuKind;
use crate::machine::initial_model;
use crate::machine::lemma_transitions_idempotent;
use crate::machine::spec_record_effect;
use crate::machine::spec_set_autoexpand_height;
use crate::machine::spec_set_backend;
use crate::machine::spec_set_devel;
use crate::machine::spec_set_format_borders;
use crate::machine::spec_set_override;
use crate::machine::spec_set_pen;
use crate::machine::spec_set_righthanded;
use crate::machine::spec_set_shape;
use crate::machine::spec_set_style;
use crate::machine::spec_set_touch_drawing;
use crate::machine::spec_set_visual_debug;

verus! {

/// Everything that can go wrong in the registry. All four are
/// non-fatal: the caller reports them and the machine keeps its last
/// valid configuration.
#[derive(Clone, Copy, PartialEq, Eq, Structural, Debug)]
pub enum CmdError {
    UnknownCommand,
    DuplicateName,
    TypeMismatch,
    InvalidVariant,
}

/// The closed set of commands the application registers at start.
#[derive(Clone, Copy, PartialEq, Eq, Structural, Debug)]
pub enum CommandId {
    About,
    ClearSheet,
    OpenCanvasMenu,
    OpenAppMenu,
    ZoomReset,
    ZoomFitWidth,
    ZoomIn,
    ZoomOut,
    DeleteSelection,
    DuplicateSelection,
    ImportFile,
    ExportSelectionAsSvg,
    ExportSheetAsSvg,
    KeyboardShortcuts,
    Warning,
    ErrorMessage,
    NewSheet,
    SaveSheet,
    SaveSheetAs,
    OpenSheet,
    OpenWorkspace,
    PrintSheet,
    DevelSettings,
    TmpEraser,
    CurrentPen,
    CurrentShape,
    ShaperDrawstyle,
    Devel,
    RendererBackend,
    FormatBorders,
    TouchDrawing,
    AutoexpandHeight,
    Righthanded,
    VisualDebug,
}

/// A command either has no state, a boolean state, or one variant of a
/// closed enumeration as state.
#[derive(Clone, Copy, PartialEq, Eq, Structural, Debug)]
pub enum CommandKind {
    Stateless,
    BoolStateful,
    EnumStateful,
}

/// The optional parameter a command is invoked with: nothing, a
/// boolean, or a string tag.
#[derive(Clone, PartialEq, Eq, Debug)]
pub enum Value {
    Empty,
    Flag(bool),
    Tag(String),
}

/// The unique name under which each command is registered and
/// addressed.
pub open spec fn spec_name_of(id: CommandId) -> Seq<char> {
    match id {
        CommandId::About => "about"@,
        CommandId::ClearSheet => "clear-sheet"@,
        CommandId::OpenCanvasMenu => "open-canvasmenu"@,
        CommandId::OpenAppMenu => "open-appmenu"@,
        CommandId::ZoomReset => "zoom-reset"@,
        CommandId::ZoomFitWidth => "zoom-fit-width"@,
        CommandId::ZoomIn => "zoom-in"@,
        CommandId::ZoomOut => "zoom-out"@,
        CommandId::DeleteSelection => "delete-selection"@,
        CommandId::DuplicateSelection => "duplicate-selection"@,
        CommandId::ImportFile => "import-file"@,
        CommandId::ExportSelectionAsSvg => "export-selection-as-svg"@,
        CommandId::ExportSheetAsSvg => "export-sheet-as-svg"@,
        CommandId::KeyboardShortcuts => "keyboard-shortcuts"@,
        CommandId::Warning => "warning"@,
        CommandId::ErrorMessage => "error"@,
        CommandId::NewSheet => "new-sheet"@,
        CommandId::SaveSheet => "save-sheet"@,
        CommandId::SaveSheetAs => "save-sheet-as"@,
        CommandId::OpenSheet => "open-sheet"@,
        CommandId::OpenWorkspace => "open-workspace"@,
        CommandId::PrintSheet => "print-sheet"@,
        CommandId::DevelSettings => "devel-settings"@,
        CommandId::TmpEraser => "tmperaser"@,
        CommandId::CurrentPen => "current-pen"@,
        CommandId::CurrentShape => "current-shape"@,
        CommandId::ShaperDrawstyle => "shaper-drawstyle"@,
        CommandId::Devel => "devel"@,
        CommandId::RendererBackend => "renderer-backend"@,
        CommandId::FormatBorders => "format-borders"@,
        CommandId::TouchDrawing => "touch-drawing"@,
        CommandId::AutoexpandHeight => "autoexpand-height"@,
        CommandId::Righthanded => "righthanded"@,
        CommandId::VisualDebug => "visual-debug"@,
    }
}

/// Builds the name under which a command is registered.
pub fn name_of(id: CommandId) -> (r: String)
    ensures
        r@ == spec_name_of(id),
{
    match id {
        CommandId::About => "about".to_owned(),
        CommandId::ClearSheet => "clear-sheet".to_owned(),
        CommandId::OpenCanvasMenu => "open-canvasmenu".to_owned(),
        CommandId::OpenAppMenu => "open-appmenu".to_owned(),
        CommandId::ZoomReset => "zoom-reset".to_owned(),
        CommandId::ZoomFitWidth => "zoom-fit-width".to_owned(),
        CommandId::ZoomIn => "zoom-in".to_owned(),
        CommandId::ZoomOut => "zoom-out".to_owned(),
        CommandId::DeleteSelection => "delete-selection".to_owned(),
        CommandId::DuplicateSelection => "duplicate-selection".to_owned(),
        CommandId::ImportFile => "import-file".to_owned(),
        CommandId::ExportSelectionAsSvg => "export-selection-as-svg".to_owned(),
        CommandId::ExportSheetAsSvg => "export-sheet-as-svg".to_owned(),
        CommandId::KeyboardShortcuts => "keyboard-shortcuts".to_owned(),
        CommandId::Warning => "warning".to_owned(),
        CommandId::ErrorMessage => "error".to_owned(),
        CommandId::NewSheet => "new-sheet".to_owned(),
        CommandId::SaveSheet => "save-sheet".to_owned(),
        CommandId::SaveSheetAs => "save-sheet-as".to_owned(),
        CommandId::OpenSheet => "open-sheet".to_owned(),
        CommandId::OpenWorkspace => "open-workspace".to_owned(),
        CommandId::PrintSheet => "print-sheet".to_owned(),
        CommandId::DevelSettings => "devel-settings".to_owned(),
        CommandId::TmpEraser => "tmperaser".to_owned(),
        CommandId::CurrentPen => "current-pen".to_owned(),
        CommandId::CurrentShape => "current-shape".to_owned(),
        CommandId::ShaperDrawstyle => "shaper-drawstyle".to_owned(),
        CommandId::Devel => "devel".to_owned(),
        CommandId::RendererBackend => "renderer-backend".to_owned(),
        CommandId::FormatBorders => "format-borders".to_owned(),
        CommandId::TouchDrawing => "touch-drawing".to_owned(),
        CommandId::AutoexpandHeight => "autoexpand-height".to_owned(),
        CommandId::Righthanded => "righthanded".to_owned(),
        CommandId::VisualDebug => "visual-debug".to_owned(),
    }
}

/// Which of the three kinds each command is.
pub open spec fn spec_kind_of(id: CommandId) -> CommandKind {
    match id {
        CommandId::TmpEraser => CommandKind::BoolStateful,
        CommandId::Devel => CommandKind::BoolStateful,
        CommandId::VisualDebug => CommandKind::BoolStateful,
        CommandId::FormatBorders => CommandKind::BoolStateful,
        CommandId::TouchDrawing => CommandKind::BoolStateful,
        CommandId::AutoexpandHeight => CommandKind::BoolStateful,
        CommandId::Righthanded => CommandKind::BoolStateful,
        CommandId::CurrentPen => CommandKind::EnumStateful,
        CommandId::CurrentShape => CommandKind::EnumStateful,
        CommandId::ShaperDrawstyle => CommandKind::EnumStateful,
        CommandId::RendererBackend => CommandKind::EnumStateful,
        _ => CommandKind::Stateless,
    }
}

/// Reports which of the three kinds a command is.
pub fn kind_of(id: CommandId) -> (r: CommandKind)
    ensures
        r == spec_kind_of(id),
{
    match id {
        CommandId::TmpEraser => CommandKind::BoolStateful,
        CommandId::Devel => CommandKind::BoolStateful,
        CommandId::VisualDebug => CommandKind::BoolStateful,
        CommandId::FormatBorders => CommandKind::BoolStateful,
        CommandId::TouchDrawing => CommandKind::BoolStateful,
        CommandId::AutoexpandHeight => CommandKind::BoolStateful,
        CommandId::Righthanded => CommandKind::BoolStateful,
        CommandId::CurrentPen => CommandKind::EnumStateful,
        CommandId::CurrentShape => CommandKind::EnumStateful,
        CommandId::ShaperDrawstyle => CommandKind::EnumStateful,
        CommandId::RendererBackend => CommandKind::EnumStateful,
        _ => CommandKind::Stateless,
    }
}

/// The side effect a stateless command records for the host, or
/// nothing for a stateful command. The `warning` and `error` commands
/// carry their message through when one was given.
pub open spec fn spec_effect_of(id: CommandId, v: Value) -> Option<Effect> {
    match id {
        CommandId::About => Some(Effect::ShowDialog(DialogKind::About)),
        CommandId::ClearSheet => Some(Effect::ShowDialog(DialogKind::ClearSheet)),
        CommandId::OpenCanvasMenu => Some(Effect::OpenMenu(MenuKind::CanvasMenu)),
        CommandId::OpenAppMenu => Some(Effect::OpenMenu(MenuKind::AppMenu)),
        CommandId::ZoomReset => Some(Effect::ZoomReset),
        CommandId::ZoomFitWidth => Some(Effect::ZoomFitWidth),
        CommandId::ZoomIn => Some(Effect::ZoomIn),
        CommandId::ZoomOut => Some(Effect::ZoomOut),
        CommandId::DeleteSelection => Some(Effect::DeleteSelection),
        CommandId::DuplicateSelection => Some(Effect::DuplicateSelection),
        CommandId::ImportFile => Some(Effect::ShowDialog(DialogKind::ImportFile)),
        CommandId::ExportSelectionAsSvg => Some(Effect::ShowDialog(DialogKind::ExportSelection)),
        CommandId::ExportSheetAsSvg => Some(Effect::ShowDialog(DialogKind::ExportSheet)),
        CommandId::KeyboardShortcuts => Some(Effect::ShowDialog(DialogKind::KeyboardShortcuts)),
        CommandId::Warning => Some(Effect::Warn(spec_message_of(v))),
        CommandId::ErrorMessage => Some(Effect::ReportError(spec_message_of(v))),
        CommandId::NewSheet => Some(Effect::ShowDialog(DialogKind::NewSheet)),
        CommandId::SaveSheet => Some(Effect::SaveSheet),
        CommandId::SaveSheetAs => Some(Effect::ShowDialog(DialogKind::SaveSheetAs)),
        CommandId::OpenSheet => Some(Effect::ShowDialog(DialogKind::OpenSheet)),
        CommandId::OpenWorkspace => Some(Effect::ShowDialog(DialogKind::OpenWorkspace)),
        CommandId::PrintSheet => Some(Effect::PrintSheet),
        CommandId::DevelSettings => Some(Effect::OpenMenu(MenuKind::DevelSettings)),
        _ => None,
    }
}

/// The message a log command passes through: the tag when one was
/// given, nothing otherwise.
pub open spec fn spec_message_of(v: Value) -> Option<String> {
    match v {
        Value::Tag(s) => Some(s),
        _ => None,
    }
}

/// The registry's mathematical state: the registered commands in
/// registration order, and the machine they drive.
pub struct RegistryModel {
    pub commands: Seq<CommandId>,
    pub machine: MachineModel,
}

/// Name resolution: the first registered command bearing the name.
pub open spec fn spec_lookup(cmds: Seq<CommandId>, name: Seq<char>) -> Option<CommandId>
    decreases cmds.len(),
{
    if cmds.len() == 0 {
        None
    } else if spec_name_of(cmds.first()) == name {
        Some(cmds.first())
    } else {
        spec_lookup(cmds.drop_first(), name)
    }
}

/// Registration: fails with `DuplicateName` when the command's name is
/// already taken, otherwise appends the command.
pub open spec fn spec_register(r: RegistryModel, id: CommandId) -> (RegistryModel, Result<
    (),
    CmdError,
>) {
    if spec_lookup(r.commands, spec_name_of(id)) is Some {
        (r, Err(CmdError::DuplicateName))
    } else {
        (RegistryModel { commands: r.commands.push(id), ..r }, Ok(()))
    }
}

/// The boolean state a boolean-stateful command currently holds.
pub open spec fn spec_bool_current(m: MachineModel, id: CommandId) -> bool {
    match id {
        CommandId::TmpEraser => m.over is Overridden,
        CommandId::Devel => m.toggles.devel,
        CommandId::VisualDebug => m.toggles.visual_debug,
        CommandId::FormatBorders => m.toggles.format_borders,
        CommandId::TouchDrawing => m.toggles.touch_drawing,
        CommandId::AutoexpandHeight => m.toggles.autoexpand_height,
        CommandId::Righthanded => m.layout.righthanded,
        _ => false,
    }
}

/// The guarded transition a boolean-stateful command applies.
pub open spec fn spec_apply_bool(m: MachineModel, id: CommandId, b: bool) -> MachineModel {
    match id {
        CommandId::TmpEraser => spec_set_override(m, b),
        CommandId::Devel => spec_set_devel(m, b),
        CommandId::VisualDebug => spec_set_visual_debug(m, b),
        CommandId::FormatBorders => spec_set_format_borders(m, b),
        CommandId::TouchDrawing => spec_set_touch_drawing(m, b),
        CommandId::AutoexpandHeight => spec_set_autoexpand_height(m, b),
        CommandId::Righthanded => spec_set_righthanded(m, b),
        _ => m,
    }
}

/// The direct state-set of an enum-stateful command: the tag is parsed
/// at the boundary; an unknown tag fails with `InvalidVariant` and
/// leaves the axis untouched, a known tag runs the guarded transition.
pub open spec fn spec_apply_tag(m: MachineModel, id: CommandId, tag: Seq<char>) -> (MachineModel,
    Result<(), CmdError>,
) {
    match id {
        CommandId::CurrentPen => match spec_pen_from_tag(tag) {
            Some(k) => (spec_set_pen(m, k), Ok(())),
            None => (m, Err(CmdError::InvalidVariant)),
        },
        CommandId::CurrentShape => match spec_shape_from_tag(tag) {
            Some(k) => (spec_set_shape(m, k), Ok(())),
            None => (m, Err(CmdError::InvalidVariant)),
        },
        CommandId::ShaperDrawstyle => match spec_style_from_tag(tag) {
            Some(k) => (spec_set_style(m, k), Ok(())),
            None => (m, Err(CmdError::InvalidVariant)),
        },
        CommandId::RendererBackend => match spec_backend_from_tag(tag) {
            Some(k) => (spec_set_backend(m, k), Ok(())),
            None => (m, Err(CmdError::InvalidVariant)),
        },
        _ => (m, Err(CmdError::InvalidVariant)),
    }
}

/// The activation of an enum-stateful command: like the direct
/// state-set, but behind an activation guard that compares the
/// requested variant to the current one first and does nothing when
/// they already agree.
pub open spec fn spec_invoke_tag(m: MachineModel, id: CommandId, tag: Seq<char>) -> (MachineModel,
    Result<(), CmdError>,
) {
    match id {
        CommandId::CurrentPen => match spec_pen_from_tag(tag) {
            Some(k) => if k == m.tools.pen {
                (m, Ok(()))
            } else {
                (spec_set_pen(m, k), Ok(()))
            },
            None => (m, Err(CmdError::InvalidVariant)),
        },
        CommandId::CurrentShape => match spec_shape_from_tag(tag) {
            Some(k) => if k == m.tools.shape {
                (m, Ok(()))
            } else {
                (spec_set_shape(m, k), Ok(()))
            },
            None => (m, Err(CmdError::InvalidVariant)),
        },
        CommandId::ShaperDrawstyle => match spec_style_from_tag(tag) {
            Some(k) => if k == m.tools.style {
                (m, Ok(()))
            } else {
                (spec_set_style(m, k), Ok(()))
            },
            None => (m, Err(CmdError::InvalidVariant)),
        },
        CommandId::RendererBackend => match spec_backend_from_tag(tag) {
            Some(k) => if k == m.tools.backend {
                (m, Ok(()))
            } else {
                (spec_set_backend(m, k), Ok(()))
            },
            None => (m, Err(CmdError::InvalidVariant)),
        },
        _ => (m, Err(CmdError::InvalidVariant)),
    }
}

/// Invocation: resolves the name, checks the parameter's shape against
/// the command's kind, and runs it. A stateless command records its
/// effect exactly once whatever the parameter; a boolean command
/// toggles without a parameter and sets with a boolean; an
/// enum-stateful command takes a tag through the activation guard.
pub open spec fn spec_invoke(r: RegistryModel, name: Seq<char>, v: Value) -> (RegistryModel,
    Result<(), CmdError>,
) {
    match spec_lookup(r.commands, name) {
        None => (r, Err(CmdError::UnknownCommand)),
        Some(id) => match spec_kind_of(id) {
            CommandKind::Stateless => (
                RegistryModel {
                    machine: spec_record_effect(r.machine, spec_effect_of(id, v)->Some_0),
                    ..r
                },
                Ok(()),
            ),
            CommandKind::BoolStateful => match v {
                Value::Empty => (
                    RegistryModel {
                        machine: spec_apply_bool(
                            r.machine,
                            id,
                            !spec_bool_current(r.machine, id),
                        ),
                        ..r
                    },
                    Ok(()),
                ),
                Value::Flag(b) => (
                    RegistryModel { machine: spec_apply_bool(r.machine, id, b), ..r },
                    Ok(()),
                ),
                Value::Tag(_) => (r, Err(CmdError::TypeMismatch)),
            },
            CommandKind::EnumStateful => match v {
                Value::Tag(s) => {
                    let stepped = spec_invoke_tag(r.machine, id, s@);
                    (RegistryModel { machine: stepped.0, ..r }, stepped.1)
                },
                _ => (r, Err(CmdError::TypeMismatch)),
            },
        },
    }
}

/// The direct state-set: resolves the name and sets the command's
/// state. A stateless command has no state to set; a boolean command
/// needs a boolean; an enum-stateful command needs a tag, applied
/// through the same guarded transition as `invoke`.
pub open spec fn spec_set_state(r: RegistryModel, name: Seq<char>, v: Value) -> (RegistryModel,
    Result<(), CmdError>,
) {
    match spec_lookup(r.commands, name) {
        None => (r, Err(CmdError::UnknownCommand)),
        Some(id) => match spec_kind_of(id) {
            CommandKind::Stateless => (r, Err(CmdError::TypeMismatch)),
            CommandKind::BoolStateful => match v {
                Value::Flag(b) => (
                    RegistryModel { machine: spec_apply_bool(r.machine, id, b), ..r },
                    Ok(()),
                ),
                _ => (r, Err(CmdError::TypeMismatch)),
            },
            CommandKind::EnumStateful => match v {
                Value::Tag(s) => {
                    let stepped = spec_apply_tag(r.machine, id, s@);
                    (RegistryModel { machine: stepped.0, ..r }, stepped.1)
                },
                _ => (r, Err(CmdError::TypeMismatch)),
            },
        },
    }
}

/// The registry owns the registered commands and the machine they
/// drive.
pub struct Registry {
    commands: Vec<CommandId>,
    machine: Machine,
}

impl Registry {
    /// The registry's mathematical state.
    pub closed spec fn model(&self) -> RegistryModel {
        RegistryModel { commands: self.commands@, machine: self.machine.model() }
    }

    /// Builds an empty registry around a machine in its starting
    /// state.
    pub fn new() -> (r: Registry)
        ensures
            r.model() == (RegistryModel { commands: Seq::empty(), machine: initial_model() }),
    {
        Registry { commands: Vec::new(), machine: Machine::new() }
    }

    /// Read access to the machine, for observing the current state.
    pub fn machine(&self) -> (r: &Machine)
        ensures
            r.model() == self.model().machine,
    {
        &self.machine
    }

    /// Mutable access to the machine, for registering observers and
    /// collecting effects.
    pub fn machine_mut(&mut self) -> (r: &mut Machine)
        ensures
            (*r).model() == old(self).model().machine,
            final(self).model() == (RegistryModel {
                commands: old(self).model().commands,
                machine: final(r).model(),
            }),
    {
        &mut self.machine
    }

    /// Resolves a command name to the first registered command bearing
    /// it.
    fn find(&self, name: &String) -> (r: Option<CommandId>)
        ensures
            r == spec_lookup(self.model().commands, name@),
    {
        let mut i: usize = 0;
        while i < self.commands.len()
            invariant
                i <= self.commands.len(),
                forall|j: int| 0 <= j < i ==> spec_name_of(#[trigger] self.commands@[j]) != name@,
        decreases self.commands.len() - i,
        {
            let candidate = name_of(self.commands[i]);
            if candidate == *name {
                proof {
                    lemma_lookup_skip(self.commands@, name@, i as int);
                }
                return Some(self.commands[i]);
            }
            i = i + 1;
        }
        proof {
            lemma_lookup_skip(self.commands@, name@, self.commands@.len() as int);
        }
        None
    }

    /// Registers a command under its fixed name; fails with
    /// `DuplicateName` when that name is already registered, leaving
    /// the registry unchanged.
    pub fn register(&mut self, id: CommandId) -> (r: Result<(), CmdError>)
        ensures
            final(self).model() == spec_register(old(self).model(), id).0,
            r == spec_register(old(self).model(), id).1,
    {
        let name = name_of(id);
        match self.find(&name) {
            Some(_) => Err(CmdError::DuplicateName),
            None => {
                self.commands.push(id);
                Ok(())
            },
        }
    }

    /// Invokes a command by name with an optional parameter: the
    /// stateless run their side effect once whatever the parameter,
    /// the boolean toggle or set, the enum-stateful switch their axis
    /// through the activation guard.
    pub fn invoke(&mut self, name: &String, v: &Value) -> (r: Result<(), CmdError>)
        ensures
            final(self).model() == spec_invoke(old(self).model(), name@, *v).0,
            r == spec_invoke(old(self).model(), name@, *v).1,
    {
        let id = match self.find(name) {
            None => {
                return Err(CmdError::UnknownCommand);
            },
            Some(id) => id,
        };
        match kind_of(id) {
            CommandKind::Stateless => {
                let message = match v {
                    Value::Tag(s) => Some(s.clone()),
                    _ => None,
                };
                self.machine.record_effect(stateless_effect(id, message));
                Ok(())
            },
            CommandKind::BoolStateful => match v {
                Value::Empty => {
                    let current = self.bool_current(id);
                    self.apply_bool(id, !current);
                    Ok(())
                },
                Value::Flag(b) => {
                    self.apply_bool(id, *b);
                    Ok(())
                },
                Value::Tag(_) => Err(CmdError::TypeMismatch),
            },
            CommandKind::EnumStateful => match v {
                Value::Tag(s) => self.invoke_tag(id, s),
                _ => Err(CmdError::TypeMismatch),
            },
        }
    }

    /// Sets a stateful command's state directly, through the same
    /// guarded transitions as `invoke`.
    pub fn set_state(&mut self, name: &String, v: &Value) -> (r: Result<(), CmdError>)
        ensures
            final(self).model() == spec_set_state(old(self).model(), name@, *v).0,
            r == spec_set_state(old(self).model(), name@, *v).1,
    {
        let id = match self.find(name) {
            None => {
                return Err(CmdError::UnknownCommand);
            },
            Some(id) => id,
        };
        match kind_of(id) {
            CommandKind::Stateless => Err(CmdError::TypeMismatch),
            CommandKind::BoolStateful => match v {
                Value::Flag(b) => {
                    self.apply_bool(id, *b);
                    Ok(())
                },
                _ => Err(CmdError::TypeMismatch),
            },
            CommandKind::EnumStateful => match v {
                Value::Tag(s) => self.apply_tag(id, s),
                _ => Err(CmdError::TypeMismatch),
            },
        }
    }

    /// The current boolean state of a boolean-stateful command.
    fn bool_current(&self, id: CommandId) -> (r: bool)
        ensures
            r == spec_bool_current(self.model().machine, id),
    {
        let toggles = self.machine.toggle_state();
        match id {
            CommandId::TmpEraser => match self.machine.override_frame() {
                crate::machine::OverrideFrame::Overridden { .. } => true,
                crate::machine::OverrideFrame::Normal => false,
            },
            CommandId::Devel => toggles.devel,
            CommandId::VisualDebug => toggles.visual_debug,
            CommandId::FormatBorders => toggles.format_borders,
            CommandId::TouchDrawing => toggles.touch_drawing,
            CommandId::AutoexpandHeight => toggles.autoexpand_height,
            CommandId::Righthanded => self.machine.layout_state().righthanded,
            _ => false,
        }
    }

    /// Runs the guarded boolean transition of a boolean-stateful
    /// command.
    fn apply_bool(&mut self, id: CommandId, b: bool)
        ensures
            final(self).model() == (RegistryModel {
                machine: spec_apply_bool(old(self).model().machine, id, b),
                ..old(self).model()
            }),
    {
        match id {
            CommandId::TmpEraser => self.machine.set_override(b),
            CommandId::Devel => self.machine.set_devel(b),
            CommandId::VisualDebug => self.machine.set_visual_debug(b),
            CommandId::FormatBorders => self.machine.set_format_borders(b),
            CommandId::TouchDrawing => self.machine.set_touch_drawing(b),
            CommandId::AutoexpandHeight => self.machine.set_autoexpand_height(b),
            CommandId::Righthanded => self.machine.set_righthanded(b),
            _ => {},
        }
    }

    /// Runs the direct tag transition of an enum-stateful command.
    fn apply_tag(&mut self, id: CommandId, tag: &String) -> (r: Result<(), CmdError>)
        ensures
            final(self).model() == (RegistryModel {
                machine: spec_apply_tag(old(self).model().machine, id, tag@).0,
                ..old(self).model()
            }),
            r == spec_apply_tag(old(self).model().machine, id, tag@).1,
    {
        match id {
            CommandId::CurrentPen => match pen_from_tag(tag) {
                Some(k) => {
                    self.machine.set_pen(k);
                    Ok(())
                },
                None => Err(CmdError::InvalidVariant),
            },
            CommandId::CurrentShape => match shape_from_tag(tag) {
                Some(k) => {
                    self.machine.set_shape(k);
                    Ok(())
                },
                None => Err(CmdError::InvalidVariant),
            },
            CommandId::ShaperDrawstyle => match style_from_tag(tag) {
                Some(k) => {
                    self.machine.set_style(k);
                    Ok(())
                },
                None => Err(CmdError::InvalidVariant),
            },
            CommandId::RendererBackend => match backend_from_tag(tag) {
                Some(k) => {
                    self.machine.set_backend(k);
                    Ok(())
                },
                None => Err(CmdError::InvalidVariant),
            },
            _ => Err(CmdError::InvalidVariant),
        }
    }

    /// Runs the tag transition of an enum-stateful command behind the
    /// activation guard.
    fn invoke_tag(&mut self, id: CommandId, tag: &String) -> (r: Result<(), CmdError>)
        ensures
            final(self).model() == (RegistryModel {
                machine: spec_invoke_tag(old(self).model().machine, id, tag@).0,
                ..old(self).model()
            }),
            r == spec_invoke_tag(old(self).model().machine, id, tag@).1,
    {
        match id {
            CommandId::CurrentPen => match pen_from_tag(tag) {
                Some(k) => {
                    if k != self.machine.tool_state().pen {
                        self.machine.set_pen(k);
                    }
                    Ok(())
                },
                None => Err(CmdError::InvalidVariant),
            },
            CommandId::CurrentShape => match shape_from_tag(tag) {
                Some(k) => {
                    if k != self.machine.tool_state().shape {
                        self.machine.set_shape(k);
                    }
                    Ok(())
                },
                None => Err(CmdError::InvalidVariant),
            },
            CommandId::ShaperDrawstyle => match style_from_tag(tag) {
                Some(k) => {
                    if k != self.machine.tool_state().style {
                        self.machine.set_style(k);
                    }
                    Ok(())
                },
                None => Err(CmdError::InvalidVariant),
            },
            CommandId::RendererBackend => match backend_from_tag(tag) {
                Some(k) => {
                    if k != self.machine.tool_state().backend {
                        self.machine.set_backend(k);
                    }
                    Ok(())
                },
                None => Err(CmdError::InvalidVariant),
            },
            _ => Err(CmdError::InvalidVariant),
        }
    }
}

/// Builds the effect of a stateless command, with the message already
/// extracted for the log commands.
fn stateless_effect(id: CommandId, message: Option<String>) -> (r: Effect)
    requires
        spec_kind_of(id) == CommandKind::Stateless,
    ensures
        forall|v: Value| spec_message_of(v) == message ==> Some(r) == spec_effect_of(id, v),
{
    match id {
        CommandId::About => Effect::ShowDialog(DialogKind::About),
        CommandId::ClearSheet => Effect::ShowDialog(DialogKind::ClearSheet),
        CommandId::OpenCanvasMenu => Effect::OpenMenu(MenuKind::CanvasMenu),
        CommandId::OpenAppMenu => Effect::OpenMenu(MenuKind::AppMenu),
        CommandId::ZoomReset => Effect::ZoomReset,
        CommandId::ZoomFitWidth => Effect::ZoomFitWidth,
        CommandId::ZoomIn => Effect::ZoomIn,
        CommandId::ZoomOut => Effect::ZoomOut,
        CommandId::DeleteSelection => Effect::DeleteSelection,
        CommandId::DuplicateSelection => Effect::DuplicateSelection,
        CommandId::ImportFile => Effect::ShowDialog(DialogKind::ImportFile),
        CommandId::ExportSelectionAsSvg => Effect::ShowDialog(DialogKind::ExportSelection),
        CommandId::ExportSheetAsSvg => Effect::ShowDialog(DialogKind::ExportSheet),
        CommandId::KeyboardShortcuts => Effect::ShowDialog(DialogKind::KeyboardShortcuts),
        CommandId::Warning => Effect::Warn(message),
        CommandId::ErrorMessage => Effect::ReportError(message),
        CommandId::NewSheet => Effect::ShowDialog(DialogKind::NewSheet),
        CommandId::SaveSheet => Effect::SaveSheet,
        CommandId::SaveSheetAs => Effect::ShowDialog(DialogKind::SaveSheetAs),
        CommandId::OpenSheet => Effect::ShowDialog(DialogKind::OpenSheet),
        CommandId::OpenWorkspace => Effect::ShowDialog(DialogKind::OpenWorkspace),
        CommandId::PrintSheet => Effect::PrintSheet,
        CommandId::DevelSettings => Effect::OpenMenu(MenuKind::DevelSettings),
        _ => Effect::ZoomReset,
    }
}

/// Resolution skips any prefix of commands whose names all differ from
/// the query.
proof fn lemma_lookup_skip(cmds: Seq<CommandId>, name: Seq<char>, i: int)
    requires
        0 <= i <= cmds.len(),
        forall|j: int| 0 <= j < i ==> spec_name_of(#[trigger] cmds[j]) != name,
    ensures
        spec_lookup(cmds, name) == spec_lookup(cmds.skip(i), name),
    decreases i,
{
    if i > 0 {
        assert(cmds.first() == cmds[0]);
        assert(spec_name_of(cmds[0]) != name);
        assert(spec_lookup(cmds, name) == spec_lookup(cmds.drop_first(), name));
        assert forall|j: int| 0 <= j < i - 1 implies spec_name_of(
            #[trigger] cmds.drop_first()[j],
        ) != name by {
            assert(cmds.drop_first()[j] == cmds[j + 1]);
        }
        assert(cmds.drop_first().skip(i - 1) =~= cmds.skip(i));
        lemma_lookup_skip(cmds.drop_first(), name, i - 1);
    } else {
        assert(cmds.skip(0) =~= cmds);
    }
}

/// Law (two-call equivalence): for every stateful command and every
/// actual parameter, invoking the command and setting its state
/// directly produce the same machine, the same observer
/// notifications, and the same outcome; the two entry points differ
/// only for stateless commands (which only `invoke` runs) and for the
/// empty parameter (which only `invoke` accepts, as the toggle form).
pub proof fn lemma_invoke_set_state_equivalent(r: RegistryModel, name: Seq<char>, v: Value)
    requires
        !(v is Empty),
        spec_lookup(r.commands, name) matches Some(id) ==> spec_kind_of(id)
            != CommandKind::Stateless,
    ensures
        spec_invoke(r, name, v) == spec_set_state(r, name, v),
{
    lemma_transitions_idempotent(r.machine);
}

/// The fixed command set the application registers at start, in
/// registration order.
pub open spec fn spec_setup(r: RegistryModel) -> RegistryModel {
    let r = spec_register(r, CommandId::About).0;
    let r = spec_register(r, CommandId::ClearSheet).0;
    let r = spec_register(r, CommandId::OpenCanvasMenu).0;
    let r = spec_register(r, CommandId::OpenAppMenu).0;
    let r = spec_register(r, CommandId::ZoomReset).0;
    let r = spec_register(r, CommandId::ZoomFitWidth).0;
    let r = spec_register(r, CommandId::ZoomIn).0;
    let r = spec_register(r, CommandId::ZoomOut).0;
    let r = spec_register(r, CommandId::DeleteSelection).0;
    let r = spec_register(r, CommandId::DuplicateSelection).0;
    let r = spec_register(r, CommandId::ImportFile).0;
    let r = spec_register(r, CommandId::ExportSelectionAsSvg).0;
    let r = spec_register(r, CommandId::ExportSheetAsSvg).0;
    let r = spec_register(r, CommandId::KeyboardShortcuts).0;
    let r = spec_register(r, CommandId::Warning).0;
    let r = spec_register(r, CommandId::ErrorMessage).0;
    let r = spec_register(r, CommandId::NewSheet).0;
    let r = spec_register(r, CommandId::SaveSheet).0;
    let r = spec_register(r, CommandId::SaveSheetAs).0;
    let r = spec_register(r, CommandId::OpenSheet).0;
    let r = spec_register(r, CommandId::OpenWorkspace).0;
    let r = spec_register(r, CommandId::PrintSheet).0;
    let r = spec_register(r, CommandId::DevelSettings).0;
    let r = spec_register(r, CommandId::TmpEraser).0;
    let r = spec_register(r, CommandId::CurrentPen).0;
    let r = spec_register(r, CommandId::CurrentShape).0;
    let r = spec_register(r, CommandId::ShaperDrawstyle).0;
    let r = spec_register(r, CommandId::Devel).0;
    let r = spec_register(r, CommandId::RendererBackend).0;
    let r = spec_register(r, CommandId::FormatBorders).0;
    let r = spec_register(r, CommandId::TouchDrawing).0;
    let r = spec_register(r, CommandId::AutoexpandHeight).0;
    let r = spec_register(r, CommandId::Righthanded).0;
    let r = spec_register(r, CommandId::VisualDebug).0;
    r
}

/// Registers the application's whole command set: the stateless
/// dialog, zoom, selection, log and output commands, the momentary
/// eraser, the four enum-stateful axes, and the boolean toggles.
pub fn setup_actions(reg: &mut Registry)
    ensures
        final(reg).model() == spec_setup(old(reg).model()),
{
    let _ = reg.register(CommandId::About);
    let _ = reg.register(CommandId::ClearSheet);
    let _ = reg.register(CommandId::OpenCanvasMenu);
    let _ = reg.register(CommandId::OpenAppMenu);
    let _ = reg.register(CommandId::ZoomReset);
    let _ = reg.register(CommandId::ZoomFitWidth);
    let _ = reg.register(CommandId::ZoomIn);
    let _ = reg.register(CommandId::ZoomOut);
    let _ = reg.register(CommandId::DeleteSelection);
    let _ = reg.register(CommandId::DuplicateSelection);
    let _ = reg.register(CommandId::ImportFile);
    let _ = reg.register(CommandId::ExportSelectionAsSvg);
    let _ = reg.register(CommandId::ExportSheetAsSvg);
    let _ = reg.register(CommandId::KeyboardShortcuts);
    let _ = reg.register(CommandId::Warning);
    let _ = reg.register(CommandId::ErrorMessage);
    let _ = reg.register(CommandId::NewSheet);
    let _ = reg.register(CommandId::SaveSheet);
    let _ = reg.register(CommandId::SaveSheetAs);
    let _ = reg.register(CommandId::OpenSheet);
    let _ = reg.register(CommandId::OpenWorkspace);
    let _ = reg.register(CommandId::PrintSheet);
    let _ = reg.register(CommandId::DevelSettings);
    let _ = reg.register(CommandId::TmpEraser);
    let _ = reg.register(CommandId::CurrentPen);
    let _ = reg.register(CommandId::CurrentShape);
    let _ = reg.register(CommandId::ShaperDrawstyle);
    let _ = reg.register(CommandId::Devel);
    let _ = reg.register(CommandId::RendererBackend);
    let _ = reg.register(CommandId::FormatBorders);
    let _ = reg.register(CommandId::TouchDrawing);
    let _ = reg.register(CommandId::AutoexpandHeight);
    let _ = reg.register(CommandId::Righthanded);
    let _ = reg.register(CommandId::VisualDebug);
}


/// One entry of the static accelerator table: a key chord bound to a
/// command name, with an optional literal parameter.
pub struct Accel {
    pub chord: String,
    pub command: String,
    pub param: Value,
}

/// The static accelerator table, loaded once at start: each key chord
/// maps to the command it invokes. The quit chord is resolved by the
/// host shell rather than by this registry, and the momentary-eraser
/// chord carries its explicit `true` parameter.
pub fn setup_accels() -> (r: Vec<Accel>)
    ensures
        r@.len() == 16,
        r@[0].chord@ == "<Ctrl>question"@ && r@[0].command@ == "keyboard-shortcuts"@ && r@[0].param == Value::Empty,
        r@[1].chord@ == "<Ctrl>q"@ && r@[1].command@ == "quit"@ && r@[1].param == Value::Empty,
        r@[2].chord@ == "F9"@ && r@[2].command@ == "open-canvasmenu"@ && r@[2].param == Value::Empty,
        r@[3].chord@ == "F10"@ && r@[3].command@ == "open-appmenu"@ && r@[3].param == Value::Empty,
        r@[4].chord@ == "<Ctrl>n"@ && r@[4].command@ == "new-sheet"@ && r@[4].param == Value::Empty,
        r@[5].chord@ == "<Ctrl>o"@ && r@[5].command@ == "open-sheet"@ && r@[5].param == Value::Empty,
        r@[6].chord@ == "<Ctrl>s"@ && r@[6].command@ == "save-sheet"@ && r@[6].param == Value::Empty,
        r@[7].chord@ == "<Ctrl><Shift>s"@ && r@[7].command@ == "save-sheet-as"@ && r@[7].param == Value::Empty,
        r@[8].chord@ == "<Ctrl>l"@ && r@[8].command@ == "clear-sheet"@ && r@[8].param == Value::Empty,
        r@[9].chord@ == "<Ctrl>p"@ && r@[9].command@ == "print-sheet"@ && r@[9].param == Value::Empty,
        r@[10].chord@ == "<Ctrl>i"@ && r@[10].command@ == "import-file"@ && r@[10].param == Value::Empty,
        r@[11].chord@ == "plus"@ && r@[11].command@ == "zoom-in"@ && r@[11].param == Value::Empty,
        r@[12].chord@ == "minus"@ && r@[12].command@ == "zoom-out"@ && r@[12].param == Value::Empty,
        r@[13].chord@ == "Delete"@ && r@[13].command@ == "delete-selection"@ && r@[13].param == Value::Empty,
        r@[14].chord@ == "<Ctrl>v"@ && r@[14].command@ == "duplicate-selection"@ && r@[14].param == Value::Empty,
        r@[15].chord@ == "d"@ && r@[15].command@ == "tmperaser"@ && r@[15].param == Value::Flag(true),
{
    let mut r: Vec<Accel> = Vec::new();
    r.push(Accel { chord: "<Ctrl>question".to_owned(), command: "keyboard-shortcuts".to_owned(), param: Value::Empty });
    r.push(Accel { chord: "<Ctrl>q".to_owned(), command: "quit".to_owned(), param: Value::Empty });
    r.push(Accel { chord: "F9".to_owned(), command: "open-canvasmenu".to_owned(), param: Value::Empty });
    r.push(Accel { chord: "F10".to_owned(), command: "open-appmenu".to_owned(), param: Value::Empty });
    r.push(Accel { chord: "<Ctrl>n".to_owned(), command: "new-sheet".to_owned(), param: Value::Empty });
    r.push(Accel { chord: "<Ctrl>o".to_owned(), command: "open-sheet".to_owned(), param: Value::Empty });
    r.push(Accel { chord: "<Ctrl>s".to_owned(), command: "save-sheet".to_owned(), param: Value::Empty });
    r.push(Accel { chord: "<Ctrl><Shift>s".to_owned(), command: "save-sheet-as".to_owned(), param: Value::Empty });
    r.push(Accel { chord: "<Ctrl>l".to_owned(), command: "clear-sheet".to_owned(), param: Value::Empty });
    r.push(Accel { chord: "<Ctrl>p".to_owned(), command: "print-sheet".to_owned(), param: Value::Empty });
    r.push(Accel { chord: "<Ctrl>i".to_owned(), command: "import-file".to_owned(), param: Value::Empty });
    r.push(Accel { chord: "plus".to_owned(), command: "zoom-in".to_owned(), param: Value::Empty });
    r.push(Accel { chord: "minus".to_owned(), command: "zoom-out".to_owned(), param: Value::Empty });
    r.push(Accel { chord: "Delete".to_owned(), command: "delete-selection".to_owned(), param: Value::Empty });
    r.push(Accel { chord: "<Ctrl>v".to_owned(), command: "duplicate-selection".to_owned(), param: Value::Empty });
    r.push(Accel { chord: "d".to_owned(), command: "tmperaser".to_owned(), param: Value::Flag(true) });
    r
}


} // verus!
