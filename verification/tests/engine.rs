use rustycube::field::OpaqueRecord;
use rustycube::hook::{draw_frame_thunk, thunk_forward, FrameArgs, HookBinding, HookSession, HookStage};
use rustycube::errors::ExtensionError;
use rustycube::sim::SimHost;

#[test]
fn field_pointer_is_base_plus_offset() {
    let record = OpaqueRecord::new(0x5000);
    assert_eq!(record.field_address(256), 0x5100);
    assert_eq!(record.field_address(0), 0x5000);
    let other = OpaqueRecord::new(0xdead0000);
    assert_eq!(other.field_address(256), 0xdead0100);
}

#[test]
fn hook_session_happy_path() {
    let mut session = HookSession::begin(0x1000, 0x9000, 4132);
    assert_eq!(session.protection_request(), (0x1000, 4132));
    session.protection_changed(true);
    assert_eq!(session.stage, HookStage::AwaitInstaller);
    session.installer_returned(Some(0x2000));
    assert_eq!(
        session.binding(),
        Some(HookBinding { target: 0x1000, replacement: 0x9000, trampoline: 0x2000 })
    );
}

#[test]
fn hook_session_protection_rejected() {
    let mut session = HookSession::begin(0x1000, 0x9000, 4132);
    session.protection_changed(false);
    assert_eq!(session.stage, HookStage::Failed { error: ExtensionError::Protection });
    assert_eq!(session.binding(), None);
}

#[test]
fn hook_session_installer_rejected() {
    let mut session = HookSession::begin(0x1000, 0x9000, 4132);
    session.protection_changed(true);
    session.installer_returned(None);
    assert_eq!(session.stage, HookStage::Failed { error: ExtensionError::HookInstall });
    assert_eq!(session.binding(), None);
}

#[test]
fn thunk_forwards_arguments_unmodified() {
    let binding = HookBinding { target: 0x1000, replacement: 0x9000, trampoline: 0x2000 };
    let args = FrameArgs {
        width: 800,
        height: 600,
        lod_bias_bits: 1.5f32.to_bits(),
        fps_bits: 60.0f32.to_bits(),
        elapsed: 16,
    };
    let forward = thunk_forward(&binding, args);
    assert_eq!(forward.target, 0x2000);
    assert_eq!(forward.args, args);
}

#[test]
fn replacement_logs_dimensions_then_forwards() {
    let binding = HookBinding { target: 0x1000, replacement: 0x9000, trampoline: 0x2000 };
    let args = FrameArgs {
        width: 800,
        height: 600,
        lod_bias_bits: 0.0f32.to_bits(),
        fps_bits: 60.0f32.to_bits(),
        elapsed: 16,
    };
    let effect = draw_frame_thunk(&binding, args);
    assert_eq!(effect.screen_line, b"800,600".to_vec());
    assert_eq!(effect.forward.target, 0x2000);
    assert_eq!(effect.forward.args, args);
}

#[test]
fn hooked_target_runs_replacement_first_and_result_matches_prehook() {
    let args = FrameArgs {
        width: 800,
        height: 600,
        lod_bias_bits: 1.0f32.to_bits(),
        fps_bits: 60.0f32.to_bits(),
        elapsed: 16,
    };

    // The pre-hook process: one native function at the target address.
    let mut host = SimHost::new();
    host.add_native(0x1000, 42);
    let (pre_trace, pre_result) = host.invoke(0x1000, args);
    assert_eq!(pre_trace, vec![0x1000]);
    let pre_result = pre_result.expect("native call returns");

    // Install the hook; the double rewrites the target and returns the
    // trampoline in the binding.
    let binding = host
        .install_hook(0x1000, 0x9000, 0x2000)
        .expect("target is native, so installation succeeds");
    assert_eq!(binding, HookBinding { target: 0x1000, replacement: 0x9000, trampoline: 0x2000 });

    // Every call to the target now executes the replacement first, then
    // flows through the trampoline; the result is bit-identical.
    let (trace, result) = host.invoke(0x1000, args);
    assert_eq!(trace, vec![0x1000, 0x9000, 0x2000]);
    assert_eq!(result, Some(pre_result));

    // The trampoline alone reproduces the pre-hook behavior.
    let (tramp_trace, tramp_result) = host.invoke(0x2000, args);
    assert_eq!(tramp_trace, vec![0x2000]);
    assert_eq!(tramp_result, Some(pre_result));

    // Different arguments still agree between trampoline and pre-hook.
    let other_args = FrameArgs { width: 1024, height: 768, ..args };
    let mut fresh = SimHost::new();
    fresh.add_native(0x1000, 42);
    let (_, fresh_result) = fresh.invoke(0x1000, other_args);
    let (_, hooked_result) = host.invoke(0x2000, other_args);
    assert_eq!(hooked_result, fresh_result);
}

#[test]
fn second_hook_on_same_target_is_refused() {
    let mut host = SimHost::new();
    host.add_native(0x1000, 7);
    host.install_hook(0x1000, 0x9000, 0x2000).expect("first installation succeeds");
    let second = host.install_hook(0x1000, 0x9100, 0x3000);
    assert_eq!(second, Err(ExtensionError::HookInstall));
}

#[test]
fn hook_on_unknown_target_is_refused() {
    let mut host = SimHost::new();
    let result = host.install_hook(0x4000, 0x9000, 0x2000);
    assert_eq!(result, Err(ExtensionError::HookInstall));
}
