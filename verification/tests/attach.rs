use rustycube::errors::ExtensionError;
use rustycube::hook::HookStage;
use rustycube::setup::{
    command_buffers, module_name, surface_buffers, symbol_name, CommandId, SetupAction,
    SetupEvent, SetupMachine, SetupPhase, SurfaceId, SymbolId, HEALTH_OFFSET, HEALTH_VALUE,
    HOOK_REGION_SIZE,
};
use rustycube::registry::BufferKey;
use rustycube::textfmt::{log_path, screen_line};

#[test]
fn attach_sequence_happy_path() {
    let (mut m, first) = SetupMachine::start();
    assert_eq!(first, SetupAction::FindModule);

    let a = m.step(SetupEvent::ModuleFound { handle: 1 });
    assert_eq!(a, SetupAction::FindSymbol { symbol: SymbolId::Player1 });

    let a = m.step(SetupEvent::SymbolFound { address: 0x7000 });
    assert_eq!(a, SetupAction::ReadPointerSlot { address: 0x7000 });

    let a = m.step(SetupEvent::PointerValue { value: 0x8000 });
    assert_eq!(
        a,
        SetupAction::WriteField { base: 0x8000, offset: HEALTH_OFFSET, value: HEALTH_VALUE }
    );

    let a = m.step(SetupEvent::FieldWritten);
    assert_eq!(a, SetupAction::FindSymbol { symbol: SymbolId::AddMenu });

    let a = m.step(SetupEvent::SymbolFound { address: 0x7100 });
    assert_eq!(a, SetupAction::RegisterSurface { surface: SurfaceId::MainMenu });

    let a = m.step(SetupEvent::SurfaceRegistered { handle: 10 });
    assert_eq!(a, SetupAction::RegisterSurface { surface: SurfaceId::SaySurface });

    let a = m.step(SetupEvent::SurfaceRegistered { handle: 20 });
    assert_eq!(a, SetupAction::FindSymbol { symbol: SymbolId::CurMenu });

    let a = m.step(SetupEvent::SymbolFound { address: 0x7200 });
    assert_eq!(a, SetupAction::ActivateSurface { slot: 0x7200, handle: 10 });

    let a = m.step(SetupEvent::SurfaceActivated);
    assert_eq!(a, SetupAction::FindSymbol { symbol: SymbolId::MenuItemManual });

    let a = m.step(SetupEvent::SymbolFound { address: 0x7300 });
    assert_eq!(a, SetupAction::FindSymbol { symbol: SymbolId::MenuReset });

    let a = m.step(SetupEvent::SymbolFound { address: 0x7400 });
    assert_eq!(a, SetupAction::FindSymbol { symbol: SymbolId::AddCommand });

    let a = m.step(SetupEvent::SymbolFound { address: 0x7500 });
    assert_eq!(a, SetupAction::RegisterCommand { command: CommandId::OpenMenu });

    let a = m.step(SetupEvent::CommandRegistered { accepted: true });
    assert_eq!(a, SetupAction::RegisterCommand { command: CommandId::Say });

    let a = m.step(SetupEvent::CommandRegistered { accepted: true });
    assert_eq!(a, SetupAction::FindSymbol { symbol: SymbolId::Screen });

    let a = m.step(SetupEvent::SymbolFound { address: 0x7600 });
    assert_eq!(a, SetupAction::FindSymbol { symbol: SymbolId::GlDrawFrame });

    let a = m.step(SetupEvent::SymbolFound { address: 0x1000 });
    assert_eq!(a, SetupAction::InstallRedirect { target: 0x1000 });

    let a = m.step(SetupEvent::RedirectFinished {
        stage: HookStage::Installed { trampoline: 0x2000 },
    });
    assert_eq!(a, SetupAction::Finished);

    assert_eq!(m.phase, SetupPhase::Complete);
    assert_eq!(m.module, 1);
    assert_eq!(m.player_slot, 0x7000);
    assert_eq!(m.player_record, 0x8000);
    assert_eq!(m.main_surface, 10);
    assert_eq!(m.say_surface, 20);
    assert_eq!(m.curmenu_slot, 0x7200);
    assert_eq!(m.menuitemmanual, 0x7300);
    assert_eq!(m.menureset, 0x7400);
    assert_eq!(m.addcommand, 0x7500);
    assert_eq!(m.screen, 0x7600);
    assert_eq!(m.draw_target, 0x1000);
    assert_eq!(m.trampoline, 0x2000);
}

#[test]
fn attach_abandons_when_module_is_missing() {
    let (mut m, _) = SetupMachine::start();
    let a = m.step(SetupEvent::ModuleMissing);
    assert_eq!(a, SetupAction::Abandoned { error: ExtensionError::Resolution });
    assert_eq!(m.phase, SetupPhase::Abandoned { error: ExtensionError::Resolution });
}

#[test]
fn attach_abandons_when_host_entry_point_is_missing() {
    let (mut m, _) = SetupMachine::start();
    m.step(SetupEvent::ModuleFound { handle: 1 });
    m.step(SetupEvent::SymbolFound { address: 0x7000 });
    m.step(SetupEvent::PointerValue { value: 0x8000 });
    m.step(SetupEvent::FieldWritten);
    // The surface-registration entry point cannot be resolved.
    let a = m.step(SetupEvent::SymbolMissing);
    assert_eq!(a, SetupAction::Abandoned { error: ExtensionError::AbiResolution });
    assert_eq!(m.phase, SetupPhase::Abandoned { error: ExtensionError::AbiResolution });
}

#[test]
fn attach_abandons_when_redirect_fails() {
    let (mut m, _) = SetupMachine::start();
    m.step(SetupEvent::ModuleFound { handle: 1 });
    m.step(SetupEvent::SymbolFound { address: 0x7000 });
    m.step(SetupEvent::PointerValue { value: 0x8000 });
    m.step(SetupEvent::FieldWritten);
    m.step(SetupEvent::SymbolFound { address: 0x7100 });
    m.step(SetupEvent::SurfaceRegistered { handle: 10 });
    m.step(SetupEvent::SurfaceRegistered { handle: 20 });
    m.step(SetupEvent::SymbolFound { address: 0x7200 });
    m.step(SetupEvent::SurfaceActivated);
    m.step(SetupEvent::SymbolFound { address: 0x7300 });
    m.step(SetupEvent::SymbolFound { address: 0x7400 });
    m.step(SetupEvent::SymbolFound { address: 0x7500 });
    m.step(SetupEvent::CommandRegistered { accepted: true });
    m.step(SetupEvent::CommandRegistered { accepted: true });
    m.step(SetupEvent::SymbolFound { address: 0x7600 });
    m.step(SetupEvent::SymbolFound { address: 0x1000 });
    let a = m.step(SetupEvent::RedirectFinished {
        stage: HookStage::Failed { error: ExtensionError::Protection },
    });
    assert_eq!(a, SetupAction::Abandoned { error: ExtensionError::Protection });
    assert_eq!(m.phase, SetupPhase::Abandoned { error: ExtensionError::Protection });
}

#[test]
fn names_match_host_exports() {
    assert_eq!(module_name(), "linux_64_client");
    assert_eq!(symbol_name(SymbolId::Player1), "player1");
    assert_eq!(symbol_name(SymbolId::CurMenu), "curmenu");
    assert_eq!(symbol_name(SymbolId::Screen), "screen");
    assert_eq!(symbol_name(SymbolId::AddMenu), "_Z7addmenuPKcS0_bPFvPvbEPFbS1_ibEbb");
    assert_eq!(symbol_name(SymbolId::MenuItemManual), "_Z14menuitemmanualPvPcS0_P5colorPKc");
    assert_eq!(symbol_name(SymbolId::MenuReset), "_Z9menuresetPv");
    assert_eq!(symbol_name(SymbolId::AddCommand), "_Z10addcommandPKcPFvvES0_");
    assert_eq!(symbol_name(SymbolId::GlDrawFrame), "_Z12gl_drawframeiiffi");
    assert_eq!(HOOK_REGION_SIZE, 0x1024);
}

#[test]
fn surface_and_command_buffers_are_fixed() {
    assert_eq!(
        surface_buffers(SurfaceId::MainMenu),
        (BufferKey::MenuName, BufferKey::MenuTitle)
    );
    assert_eq!(
        surface_buffers(SurfaceId::SaySurface),
        (BufferKey::SayMenuName, BufferKey::SayMenuTitle)
    );
    assert_eq!(
        command_buffers(CommandId::OpenMenu),
        (BufferKey::CommandMenuName, BufferKey::CommandMenuSignature)
    );
    assert_eq!(
        command_buffers(CommandId::Say),
        (BufferKey::CommandSayName, BufferKey::CommandSaySignature)
    );
}

#[test]
fn error_descriptions() {
    assert_eq!(ExtensionError::Resolution.describe(), "module or symbol not found");
    assert_eq!(
        ExtensionError::AbiResolution.describe(),
        "host extension entry point not found"
    );
    assert_eq!(ExtensionError::Protection.describe(), "could not change page protection");
    assert_eq!(ExtensionError::HookInstall.describe(), "could not install hook");
    assert_eq!(
        ExtensionError::BufferReinitConflict.describe(),
        "native buffer initialized twice"
    );
}

#[test]
fn decimal_rendering() {
    assert_eq!(screen_line(800, 600), b"800,600".to_vec());
    assert_eq!(screen_line(0, 0), b"0,0".to_vec());
    assert_eq!(screen_line(-5, 7), b"-5,7".to_vec());
    assert_eq!(screen_line(i32::MAX, i32::MIN), b"2147483647,-2147483648".to_vec());
}

#[test]
fn log_path_prefers_home_directory() {
    assert_eq!(log_path(Some(String::from("/home/u"))), "/home/u/rustycube.log");
    assert_eq!(log_path(None), "rustycube.log");
}
