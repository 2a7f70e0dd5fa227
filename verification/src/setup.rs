//! The one-shot attach sequence.
//!
//! At attach time the extension resolves the host module and a series of
//! symbols, raises the local player's health through the field accessor,
//! registers two UI surfaces and two commands with the host, points the
//! host's current-surface slot at the main menu, and finally redirects the
//! frame-drawing function. Every step is an outside call — a resolver
//! lookup, a host entry point, the hook installer — that only the
//! unverified layer can perform.
//!
//! [`SetupMachine`] is the decision core of that sequence: a state machine
//! that emits the next action to perform and consumes the action's
//! outcome. The driving loop performs each action and reports back; every
//! transition, including exactly which failure abandons setup with which
//! error, is fixed by [`spec_setup_step`]. A failure abandons only the
//! extension's setup — the host process is left intact.

use vstd::prelude::*;

use crate::errors::ExtensionError;
use crate::hook::HookStage;
use crate::registry::BufferKey;

verus! {

/// Byte offset of the health field inside the player record.
pub const HEALTH_OFFSET: u64 = 256;

/// The value the attach sequence writes into the health field.
pub const HEALTH_VALUE: i32 = 1000;

/// How many bytes of the draw function's region the protection change and
/// the installer may rewrite.
pub const HOOK_REGION_SIZE: u64 = 4132;

/// The host symbols the attach sequence resolves, in the host's exact
/// exported (mangled) form.
#[derive(PartialEq, Eq, Structural, Clone, Copy, Debug)]
pub enum SymbolId {
    /// Pointer to the local player record.
    Player1,
    /// Host entry point that registers a menu surface.
    AddMenu,
    /// The host's current-surface slot.
    CurMenu,
    /// Host entry point that appends a manual menu item.
    MenuItemManual,
    /// Host entry point that resets a menu surface.
    MenuReset,
    /// Host entry point that registers a command.
    AddCommand,
    /// The host's window handle, looked up for the attach log.
    Screen,
    /// The frame-drawing function the hook redirects.
    GlDrawFrame,
}

/// The name of the module the host's symbols live in.
pub fn module_name() -> (r: &'static str)
    ensures
        r@ == spec_module_name(),
{
    "linux_64_client"
}

pub open spec fn spec_module_name() -> Seq<char> {
    "linux_64_client"@
}

/// The exported name each symbol is resolved under.
pub open spec fn spec_symbol_name(s: SymbolId) -> Seq<char> {
    match s {
        SymbolId::Player1 => "player1"@,
        SymbolId::AddMenu => "_Z7addmenuPKcS0_bPFvPvbEPFbS1_ibEbb"@,
        SymbolId::CurMenu => "curmenu"@,
        SymbolId::MenuItemManual => "_Z14menuitemmanualPvPcS0_P5colorPKc"@,
        SymbolId::MenuReset => "_Z9menuresetPv"@,
        SymbolId::AddCommand => "_Z10addcommandPKcPFvvES0_"@,
        SymbolId::Screen => "screen"@,
        SymbolId::GlDrawFrame => "_Z12gl_drawframeiiffi"@,
    }
}

/// The exported name each symbol is resolved under; no demangling, no
/// fuzzy matching.
pub fn symbol_name(s: SymbolId) -> (r: &'static str)
    ensures
        r@ == spec_symbol_name(s),
{
    match s {
        SymbolId::Player1 => "player1",
        SymbolId::AddMenu => "_Z7addmenuPKcS0_bPFvPvbEPFbS1_ibEbb",
        SymbolId::CurMenu => "curmenu",
        SymbolId::MenuItemManual => "_Z14menuitemmanualPvPcS0_P5colorPKc",
        SymbolId::MenuReset => "_Z9menuresetPv",
        SymbolId::AddCommand => "_Z10addcommandPKcPFvvES0_",
        SymbolId::Screen => "screen",
        SymbolId::GlDrawFrame => "_Z12gl_drawframeiiffi",
    }
}

/// Whether a missing symbol is a plain resolution failure or the loss of a
/// host extension entry point.
pub open spec fn spec_symbol_error(s: SymbolId) -> ExtensionError {
    match s {
        SymbolId::Player1 => ExtensionError::Resolution,
        SymbolId::Screen => ExtensionError::Resolution,
        SymbolId::GlDrawFrame => ExtensionError::Resolution,
        SymbolId::AddMenu => ExtensionError::AbiResolution,
        SymbolId::CurMenu => ExtensionError::AbiResolution,
        SymbolId::MenuItemManual => ExtensionError::AbiResolution,
        SymbolId::MenuReset => ExtensionError::AbiResolution,
        SymbolId::AddCommand => ExtensionError::AbiResolution,
    }
}

/// The two UI surfaces the extension registers.
#[derive(PartialEq, Eq, Structural, Clone, Copy, Debug)]
pub enum SurfaceId {
    MainMenu,
    SaySurface,
}

/// The name and title buffers a surface is registered with.
pub open spec fn spec_surface_buffers(s: SurfaceId) -> (BufferKey, BufferKey) {
    match s {
        SurfaceId::MainMenu => (BufferKey::MenuName, BufferKey::MenuTitle),
        SurfaceId::SaySurface => (BufferKey::SayMenuName, BufferKey::SayMenuTitle),
    }
}

/// The name and title buffers a surface is registered with.
pub fn surface_buffers(s: SurfaceId) -> (r: (BufferKey, BufferKey))
    ensures
        r == spec_surface_buffers(s),
{
    match s {
        SurfaceId::MainMenu => (BufferKey::MenuName, BufferKey::MenuTitle),
        SurfaceId::SaySurface => (BufferKey::SayMenuName, BufferKey::SayMenuTitle),
    }
}

/// The two commands the extension registers.
#[derive(PartialEq, Eq, Structural, Clone, Copy, Debug)]
pub enum CommandId {
    OpenMenu,
    Say,
}

/// The name and argument-signature buffers a command is registered with.
/// The signature is the host's single-character-per-parameter code: empty
/// for the menu command, one string parameter for the say command.
pub open spec fn spec_command_buffers(c: CommandId) -> (BufferKey, BufferKey) {
    match c {
        CommandId::OpenMenu => (BufferKey::CommandMenuName, BufferKey::CommandMenuSignature),
        CommandId::Say => (BufferKey::CommandSayName, BufferKey::CommandSaySignature),
    }
}

/// The name and argument-signature buffers a command is registered with.
pub fn command_buffers(c: CommandId) -> (r: (BufferKey, BufferKey))
    ensures
        r == spec_command_buffers(c),
{
    match c {
        CommandId::OpenMenu => (BufferKey::CommandMenuName, BufferKey::CommandMenuSignature),
        CommandId::Say => (BufferKey::CommandSayName, BufferKey::CommandSaySignature),
    }
}

/// What the attach sequence is currently waiting for.
#[derive(PartialEq, Eq, Structural, Clone, Copy, Debug)]
pub enum SetupPhase {
    AwaitModule,
    AwaitPlayerSymbol,
    AwaitPlayerPointer,
    AwaitHealthWrite,
    AwaitAddMenuSymbol,
    AwaitMainSurface,
    AwaitSaySurface,
    AwaitCurMenuSymbol,
    AwaitInitialActivate,
    AwaitItemSymbol,
    AwaitResetSymbol,
    AwaitCommandSymbol,
    AwaitOpenCommand,
    AwaitSayCommand,
    AwaitScreenSymbol,
    AwaitDrawSymbol,
    AwaitRedirect,
    /// Setup finished; the hook is live.
    Complete,
    /// Setup was abandoned; the host runs on unmodified.
    Abandoned { error: ExtensionError },
}

/// The next outside call the driving loop owes the machine.
#[derive(PartialEq, Eq, Structural, Clone, Copy, Debug)]
pub enum SetupAction {
    /// Resolve the host module by `module_name()`.
    FindModule,
    /// Resolve `symbol_name(symbol)` inside the resolved module.
    FindSymbol { symbol: SymbolId },
    /// Read the pointer value stored at `address`.
    ReadPointerSlot { address: u64 },
    /// Write `value` into the field `offset` bytes into the record at
    /// `base` (the field accessor computes the exact address).
    WriteField { base: u64, offset: u64, value: i32 },
    /// Register `surface` with the host, passing its name and title
    /// buffers and its refresh callback.
    RegisterSurface { surface: SurfaceId },
    /// Store `handle` into the host's current-surface slot at `slot`.
    ActivateSurface { slot: u64, handle: u64 },
    /// Register `command` with the host, passing its name and signature
    /// buffers and its callback.
    RegisterCommand { command: CommandId },
    /// Run the hook installation protocol on `target` with the
    /// replacement, over `HOOK_REGION_SIZE` bytes.
    InstallRedirect { target: u64 },
    /// Nothing further: setup finished.
    Finished,
    /// Nothing further: setup abandoned with this error.
    Abandoned { error: ExtensionError },
}

/// The outcome of the action last emitted.
#[derive(PartialEq, Eq, Structural, Clone, Copy, Debug)]
pub enum SetupEvent {
    ModuleFound { handle: u64 },
    ModuleMissing,
    SymbolFound { address: u64 },
    SymbolMissing,
    PointerValue { value: u64 },
    FieldWritten,
    SurfaceRegistered { handle: u64 },
    SurfaceActivated,
    /// The host's command table reports whether it accepted the command.
    CommandRegistered { accepted: bool },
    /// The hook installation protocol ran to one of its terminal stages.
    RedirectFinished { stage: HookStage },
}

/// The attach sequence's state: its phase and every address gathered so
/// far (zero until the step that fills it).
#[derive(PartialEq, Eq, Structural, Clone, Copy, Debug)]
pub struct SetupMachine {
    pub phase: SetupPhase,
    /// Handle of the host module.
    pub module: u64,
    /// Address of the pointer to the player record.
    pub player_slot: u64,
    /// Base address of the player record itself.
    pub player_record: u64,
    /// Address of the surface-registration entry point.
    pub addmenu: u64,
    /// Handle of the registered main menu surface.
    pub main_surface: u64,
    /// Handle of the registered say surface.
    pub say_surface: u64,
    /// Address of the host's current-surface slot.
    pub curmenu_slot: u64,
    /// Address of the manual-item entry point.
    pub menuitemmanual: u64,
    /// Address of the surface-reset entry point.
    pub menureset: u64,
    /// Address of the command-registration entry point.
    pub addcommand: u64,
    /// The host's window handle.
    pub screen: u64,
    /// Address of the frame-drawing function, the hook's target.
    pub draw_target: u64,
    /// The trampoline the installer returned.
    pub trampoline: u64,
}

/// Which events answer which phase. The driving loop only ever reports
/// the outcome of the action it was just handed, so a step demands an
/// event of that shape.
pub open spec fn spec_phase_expects(p: SetupPhase, e: SetupEvent) -> bool {
    match p {
        SetupPhase::AwaitModule => e is ModuleFound || e is ModuleMissing,
        SetupPhase::AwaitPlayerSymbol => e is SymbolFound || e is SymbolMissing,
        SetupPhase::AwaitPlayerPointer => e is PointerValue,
        SetupPhase::AwaitHealthWrite => e is FieldWritten,
        SetupPhase::AwaitAddMenuSymbol => e is SymbolFound || e is SymbolMissing,
        SetupPhase::AwaitMainSurface => e is SurfaceRegistered,
        SetupPhase::AwaitSaySurface => e is SurfaceRegistered,
        SetupPhase::AwaitCurMenuSymbol => e is SymbolFound || e is SymbolMissing,
        SetupPhase::AwaitInitialActivate => e is SurfaceActivated,
        SetupPhase::AwaitItemSymbol => e is SymbolFound || e is SymbolMissing,
        SetupPhase::AwaitResetSymbol => e is SymbolFound || e is SymbolMissing,
        SetupPhase::AwaitCommandSymbol => e is SymbolFound || e is SymbolMissing,
        SetupPhase::AwaitOpenCommand => e is CommandRegistered,
        SetupPhase::AwaitSayCommand => e is CommandRegistered,
        SetupPhase::AwaitScreenSymbol => e is SymbolFound || e is SymbolMissing,
        SetupPhase::AwaitDrawSymbol => e is SymbolFound || e is SymbolMissing,
        SetupPhase::AwaitRedirect => e matches SetupEvent::RedirectFinished { stage } && (
        stage is Installed || stage is Failed),
        SetupPhase::Complete => false,
        SetupPhase::Abandoned { .. } => false,
    }
}

/// Abandon with `error`: the terminal transition of every failure.
pub open spec fn spec_abandon(m: SetupMachine, error: ExtensionError) -> (
    SetupMachine,
    SetupAction,
) {
    (
        SetupMachine { phase: SetupPhase::Abandoned { error }, ..m },
        SetupAction::Abandoned { error },
    )
}

/// The whole transition table of the attach sequence: for the machine and
/// the outcome of its last action, the machine after the step and the next
/// action owed. Transitions from a phase that the event cannot answer
/// abandon with a resolution error; the step's precondition keeps the
/// driving loop away from them.
pub open spec fn spec_setup_step(m: SetupMachine, e: SetupEvent) -> (SetupMachine, SetupAction) {
    match m.phase {
        SetupPhase::AwaitModule => match e {
            SetupEvent::ModuleFound { handle } => (
                SetupMachine { phase: SetupPhase::AwaitPlayerSymbol, module: handle, ..m },
                SetupAction::FindSymbol { symbol: SymbolId::Player1 },
            ),
            SetupEvent::ModuleMissing => spec_abandon(m, ExtensionError::Resolution),
            _ => spec_abandon(m, ExtensionError::Resolution),
        },
        SetupPhase::AwaitPlayerSymbol => match e {
            SetupEvent::SymbolFound { address } => (
                SetupMachine { phase: SetupPhase::AwaitPlayerPointer, player_slot: address, ..m },
                SetupAction::ReadPointerSlot { address },
            ),
            SetupEvent::SymbolMissing => spec_abandon(m, spec_symbol_error(SymbolId::Player1)),
            _ => spec_abandon(m, ExtensionError::Resolution),
        },
        SetupPhase::AwaitPlayerPointer => match e {
            SetupEvent::PointerValue { value } => (
                SetupMachine { phase: SetupPhase::AwaitHealthWrite, player_record: value, ..m },
                SetupAction::WriteField { base: value, offset: HEALTH_OFFSET, value: HEALTH_VALUE },
            ),
            _ => spec_abandon(m, ExtensionError::Resolution),
        },
        SetupPhase::AwaitHealthWrite => match e {
            SetupEvent::FieldWritten => (
                SetupMachine { phase: SetupPhase::AwaitAddMenuSymbol, ..m },
                SetupAction::FindSymbol { symbol: SymbolId::AddMenu },
            ),
            _ => spec_abandon(m, ExtensionError::Resolution),
        },
        SetupPhase::AwaitAddMenuSymbol => match e {
            SetupEvent::SymbolFound { address } => (
                SetupMachine { phase: SetupPhase::AwaitMainSurface, addmenu: address, ..m },
                SetupAction::RegisterSurface { surface: SurfaceId::MainMenu },
            ),
            SetupEvent::SymbolMissing => spec_abandon(m, spec_symbol_error(SymbolId::AddMenu)),
            _ => spec_abandon(m, ExtensionError::Resolution),
        },
        SetupPhase::AwaitMainSurface => match e {
            SetupEvent::SurfaceRegistered { handle } => (
                SetupMachine { phase: SetupPhase::AwaitSaySurface, main_surface: handle, ..m },
                SetupAction::RegisterSurface { surface: SurfaceId::SaySurface },
            ),
            _ => spec_abandon(m, ExtensionError::Resolution),
        },
        SetupPhase::AwaitSaySurface => match e {
            SetupEvent::SurfaceRegistered { handle } => (
                SetupMachine { phase: SetupPhase::AwaitCurMenuSymbol, say_surface: handle, ..m },
                SetupAction::FindSymbol { symbol: SymbolId::CurMenu },
            ),
            _ => spec_abandon(m, ExtensionError::Resolution),
        },
        SetupPhase::AwaitCurMenuSymbol => match e {
            SetupEvent::SymbolFound { address } => (
                SetupMachine { phase: SetupPhase::AwaitInitialActivate, curmenu_slot: address, ..m },
                SetupAction::ActivateSurface { slot: address, handle: m.main_surface },
            ),
            SetupEvent::SymbolMissing => spec_abandon(m, spec_symbol_error(SymbolId::CurMenu)),
            _ => spec_abandon(m, ExtensionError::Resolution),
        },
        SetupPhase::AwaitInitialActivate => match e {
            SetupEvent::SurfaceActivated => (
                SetupMachine { phase: SetupPhase::AwaitItemSymbol, ..m },
                SetupAction::FindSymbol { symbol: SymbolId::MenuItemManual },
            ),
            _ => spec_abandon(m, ExtensionError::Resolution),
        },
        SetupPhase::AwaitItemSymbol => match e {
            SetupEvent::SymbolFound { address } => (
                SetupMachine { phase: SetupPhase::AwaitResetSymbol, menuitemmanual: address, ..m },
                SetupAction::FindSymbol { symbol: SymbolId::MenuReset },
            ),
            SetupEvent::SymbolMissing => spec_abandon(
                m,
                spec_symbol_error(SymbolId::MenuItemManual),
            ),
            _ => spec_abandon(m, ExtensionError::Resolution),
        },
        SetupPhase::AwaitResetSymbol => match e {
            SetupEvent::SymbolFound { address } => (
                SetupMachine { phase: SetupPhase::AwaitCommandSymbol, menureset: address, ..m },
                SetupAction::FindSymbol { symbol: SymbolId::AddCommand },
            ),
            SetupEvent::SymbolMissing => spec_abandon(m, spec_symbol_error(SymbolId::MenuReset)),
            _ => spec_abandon(m, ExtensionError::Resolution),
        },
        SetupPhase::AwaitCommandSymbol => match e {
            SetupEvent::SymbolFound { address } => (
                SetupMachine { phase: SetupPhase::AwaitOpenCommand, addcommand: address, ..m },
                SetupAction::RegisterCommand { command: CommandId::OpenMenu },
            ),
            SetupEvent::SymbolMissing => spec_abandon(m, spec_symbol_error(SymbolId::AddCommand)),
            _ => spec_abandon(m, ExtensionError::Resolution),
        },
        SetupPhase::AwaitOpenCommand => match e {
            SetupEvent::CommandRegistered { .. } => (
                SetupMachine { phase: SetupPhase::AwaitSayCommand, ..m },
                SetupAction::RegisterCommand { command: CommandId::Say },
            ),
            _ => spec_abandon(m, ExtensionError::Resolution),
        },
        SetupPhase::AwaitSayCommand => match e {
            SetupEvent::CommandRegistered { .. } => (
                SetupMachine { phase: SetupPhase::AwaitScreenSymbol, ..m },
                SetupAction::FindSymbol { symbol: SymbolId::Screen },
            ),
            _ => spec_abandon(m, ExtensionError::Resolution),
        },
        SetupPhase::AwaitScreenSymbol => match e {
            SetupEvent::SymbolFound { address } => (
                SetupMachine { phase: SetupPhase::AwaitDrawSymbol, screen: address, ..m },
                SetupAction::FindSymbol { symbol: SymbolId::GlDrawFrame },
            ),
            SetupEvent::SymbolMissing => spec_abandon(m, spec_symbol_error(SymbolId::Screen)),
            _ => spec_abandon(m, ExtensionError::Resolution),
        },
        SetupPhase::AwaitDrawSymbol => match e {
            SetupEvent::SymbolFound { address } => (
                SetupMachine { phase: SetupPhase::AwaitRedirect, draw_target: address, ..m },
                SetupAction::InstallRedirect { target: address },
            ),
            SetupEvent::SymbolMissing => spec_abandon(m, spec_symbol_error(SymbolId::GlDrawFrame)),
            _ => spec_abandon(m, ExtensionError::Resolution),
        },
        SetupPhase::AwaitRedirect => match e {
            SetupEvent::RedirectFinished { stage } => match stage {
                HookStage::Installed { trampoline } => (
                    SetupMachine { phase: SetupPhase::Complete, trampoline, ..m },
                    SetupAction::Finished,
                ),
                HookStage::Failed { error } => spec_abandon(m, error),
                _ => spec_abandon(m, ExtensionError::Resolution),
            },
            _ => spec_abandon(m, ExtensionError::Resolution),
        },
        SetupPhase::Complete => spec_abandon(m, ExtensionError::Resolution),
        SetupPhase::Abandoned { error } => spec_abandon(m, error),
    }
}

impl SetupMachine {
    /// Begin the attach sequence: the first action owed is resolving the
    /// host module.
    pub fn start() -> (r: (SetupMachine, SetupAction))
        ensures
            r.0 == spec_start(),
            r.1 == SetupAction::FindModule,
    {
        (
            SetupMachine {
                phase: SetupPhase::AwaitModule,
                module: 0,
                player_slot: 0,
                player_record: 0,
                addmenu: 0,
                main_surface: 0,
                say_surface: 0,
                curmenu_slot: 0,
                menuitemmanual: 0,
                menureset: 0,
                addcommand: 0,
                screen: 0,
                draw_target: 0,
                trampoline: 0,
            },
            SetupAction::FindModule,
        )
    }

    /// Consume the outcome of the last action and hand out the next one.
    /// The machine after the call and the action returned are exactly what
    /// the transition table says.
    pub fn step(&mut self, e: SetupEvent) -> (r: SetupAction)
        requires
            spec_phase_expects(old(self).phase, e),
        ensures
            (*final(self), r) == spec_setup_step(*old(self), e),
    {
        let m = *self;
        match m.phase {
            SetupPhase::AwaitModule => match e {
                SetupEvent::ModuleFound { handle } => {
                    self.phase = SetupPhase::AwaitPlayerSymbol;
                    self.module = handle;
                    SetupAction::FindSymbol { symbol: SymbolId::Player1 }
                },
                _ => self.abandon(ExtensionError::Resolution),
            },
            SetupPhase::AwaitPlayerSymbol => match e {
                SetupEvent::SymbolFound { address } => {
                    self.phase = SetupPhase::AwaitPlayerPointer;
                    self.player_slot = address;
                    SetupAction::ReadPointerSlot { address }
                },
                _ => self.abandon(ExtensionError::Resolution),
            },
            SetupPhase::AwaitPlayerPointer => match e {
                SetupEvent::PointerValue { value } => {
                    self.phase = SetupPhase::AwaitHealthWrite;
                    self.player_record = value;
                    SetupAction::WriteField {
                        base: value,
                        offset: HEALTH_OFFSET,
                        value: HEALTH_VALUE,
                    }
                },
                _ => self.abandon(ExtensionError::Resolution),
            },
            SetupPhase::AwaitHealthWrite => match e {
                SetupEvent::FieldWritten => {
                    self.phase = SetupPhase::AwaitAddMenuSymbol;
                    SetupAction::FindSymbol { symbol: SymbolId::AddMenu }
                },
                _ => self.abandon(ExtensionError::Resolution),
            },
            SetupPhase::AwaitAddMenuSymbol => match e {
                SetupEvent::SymbolFound { address } => {
                    self.phase = SetupPhase::AwaitMainSurface;
                    self.addmenu = address;
                    SetupAction::RegisterSurface { surface: SurfaceId::MainMenu }
                },
                SetupEvent::SymbolMissing => self.abandon(ExtensionError::AbiResolution),
                _ => self.abandon(ExtensionError::Resolution),
            },
            SetupPhase::AwaitMainSurface => match e {
                SetupEvent::SurfaceRegistered { handle } => {
                    self.phase = SetupPhase::AwaitSaySurface;
                    self.main_surface = handle;
                    SetupAction::RegisterSurface { surface: SurfaceId::SaySurface }
                },
                _ => self.abandon(ExtensionError::Resolution),
            },
            SetupPhase::AwaitSaySurface => match e {
                SetupEvent::SurfaceRegistered { handle } => {
                    self.phase = SetupPhase::AwaitCurMenuSymbol;
                    self.say_surface = handle;
                    SetupAction::FindSymbol { symbol: SymbolId::CurMenu }
                },
                _ => self.abandon(ExtensionError::Resolution),
            },
            SetupPhase::AwaitCurMenuSymbol => match e {
                SetupEvent::SymbolFound { address } => {
                    self.phase = SetupPhase::AwaitInitialActivate;
                    self.curmenu_slot = address;
                    SetupAction::ActivateSurface { slot: address, handle: self.main_surface }
                },
                SetupEvent::SymbolMissing => self.abandon(ExtensionError::AbiResolution),
                _ => self.abandon(ExtensionError::Resolution),
            },
            SetupPhase::AwaitInitialActivate => match e {
                SetupEvent::SurfaceActivated => {
                    self.phase = SetupPhase::AwaitItemSymbol;
                    SetupAction::FindSymbol { symbol: SymbolId::MenuItemManual }
                },
                _ => self.abandon(ExtensionError::Resolution),
            },
            SetupPhase::AwaitItemSymbol => match e {
                SetupEvent::SymbolFound { address } => {
                    self.phase = SetupPhase::AwaitResetSymbol;
                    self.menuitemmanual = address;
                    SetupAction::FindSymbol { symbol: SymbolId::MenuReset }
                },
                SetupEvent::SymbolMissing => self.abandon(ExtensionError::AbiResolution),
                _ => self.abandon(ExtensionError::Resolution),
            },
            SetupPhase::AwaitResetSymbol => match e {
                SetupEvent::SymbolFound { address } => {
                    self.phase = SetupPhase::AwaitCommandSymbol;
                    self.menureset = address;
                    SetupAction::FindSymbol { symbol: SymbolId::AddCommand }
                },
                SetupEvent::SymbolMissing => self.abandon(ExtensionError::AbiResolution),
                _ => self.abandon(ExtensionError::Resolution),
            },
            SetupPhase::AwaitCommandSymbol => match e {
                SetupEvent::SymbolFound { address } => {
                    self.phase = SetupPhase::AwaitOpenCommand;
                    self.addcommand = address;
                    SetupAction::RegisterCommand { command: CommandId::OpenMenu }
                },
                SetupEvent::SymbolMissing => self.abandon(ExtensionError::AbiResolution),
                _ => self.abandon(ExtensionError::Resolution),
            },
            SetupPhase::AwaitOpenCommand => match e {
                SetupEvent::CommandRegistered { .. } => {
                    self.phase = SetupPhase::AwaitSayCommand;
                    SetupAction::RegisterCommand { command: CommandId::Say }
                },
                _ => self.abandon(ExtensionError::Resolution),
            },
            SetupPhase::AwaitSayCommand => match e {
                SetupEvent::CommandRegistered { .. } => {
                    self.phase = SetupPhase::AwaitScreenSymbol;
                    SetupAction::FindSymbol { symbol: SymbolId::Screen }
                },
                _ => self.abandon(ExtensionError::Resolution),
            },
            SetupPhase::AwaitScreenSymbol => match e {
                SetupEvent::SymbolFound { address } => {
                    self.phase = SetupPhase::AwaitDrawSymbol;
                    self.screen = address;
                    SetupAction::FindSymbol { symbol: SymbolId::GlDrawFrame }
                },
                SetupEvent::SymbolMissing => self.abandon(ExtensionError::Resolution),
                _ => self.abandon(ExtensionError::Resolution),
            },
            SetupPhase::AwaitDrawSymbol => match e {
                SetupEvent::SymbolFound { address } => {
                    self.phase = SetupPhase::AwaitRedirect;
                    self.draw_target = address;
                    SetupAction::InstallRedirect { target: address }
                },
                SetupEvent::SymbolMissing => self.abandon(ExtensionError::Resolution),
                _ => self.abandon(ExtensionError::Resolution),
            },
            SetupPhase::AwaitRedirect => match e {
                SetupEvent::RedirectFinished { stage } => match stage {
                    HookStage::Installed { trampoline } => {
                        self.phase = SetupPhase::Complete;
                        self.trampoline = trampoline;
                        SetupAction::Finished
                    },
                    HookStage::Failed { error } => self.abandon(error),
                    _ => self.abandon(ExtensionError::Resolution),
                },
                _ => self.abandon(ExtensionError::Resolution),
            },
            SetupPhase::Complete => self.abandon(ExtensionError::Resolution),
            SetupPhase::Abandoned { error } => self.abandon(error),
        }
    }

    /// Abandon setup with `error`; the host keeps running unmodified.
    fn abandon(&mut self, error: ExtensionError) -> (r: SetupAction)
        ensures
            (*final(self), r) == spec_abandon(*old(self), error),
    {
        self.phase = SetupPhase::Abandoned { error };
        SetupAction::Abandoned { error }
    }
}

/// The machine `start` hands out.
pub open spec fn spec_start() -> SetupMachine {
    SetupMachine {
        phase: SetupPhase::AwaitModule,
        module: 0,
        player_slot: 0,
        player_record: 0,
        addmenu: 0,
        main_surface: 0,
        say_surface: 0,
        curmenu_slot: 0,
        menuitemmanual: 0,
        menureset: 0,
        addcommand: 0,
        screen: 0,
        draw_target: 0,
        trampoline: 0,
    }
}

} // verus!
