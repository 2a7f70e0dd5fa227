//! Installing a redirect on a live function.
//!
//! Hook installation is a one-shot, two-step protocol, each step a hard
//! precondition for the next: first the target region's page protection is
//! made executable-readable-writable, then the low-level installer rewrites
//! the target's prologue and returns a trampoline. From then on the
//! trampoline is the only sanctioned way to invoke the original behavior —
//! the overwritten entry point must never be called directly again.
//!
//! The protection mutator and the installer live outside the process model
//! of this crate; [`HookSession`] is the decision machine the unverified
//! layer drives: it asks for each step in order, takes the step's outcome
//! as an event, and either advances or fails with the step's error.

use vstd::prelude::*;

use crate::errors::ExtensionError;

verus! {

/// A hook installed on one target address. Created at most once per
/// target and kept until process teardown.
#[derive(PartialEq, Eq, Structural, Clone, Copy, Debug)]
pub struct HookBinding {
    /// Entry point whose prologue was overwritten.
    pub target: u64,
    /// The function every call to `target` now reaches first.
    pub replacement: u64,
    /// The only sanctioned way to invoke the original behavior.
    pub trampoline: u64,
}

/// Where a hook installation stands.
#[derive(PartialEq, Eq, Structural, Clone, Copy, Debug)]
pub enum HookStage {
    /// Waiting for the page-protection change on the target region.
    AwaitProtection,
    /// Protection is writable; waiting for the installer's trampoline.
    AwaitInstaller,
    /// The hook is live; the trampoline address is final.
    Installed { trampoline: u64 },
    /// A step failed; the target was left unhooked.
    Failed { error: ExtensionError },
}

/// The installation protocol for one target function.
#[derive(PartialEq, Eq, Structural, Clone, Copy, Debug)]
pub struct HookSession {
    pub target: u64,
    pub replacement: u64,
    /// How many bytes of the target region the protection change covers.
    pub region_size: u64,
    pub stage: HookStage,
}

impl HookSession {
    /// Start installing a hook on `target` with `replacement`. The first
    /// step owed is the protection change.
    pub fn begin(target: u64, replacement: u64, region_size: u64) -> (s: HookSession)
        ensures
            s == (HookSession { target, replacement, region_size, stage: HookStage::AwaitProtection }),
    {
        HookSession { target, replacement, region_size, stage: HookStage::AwaitProtection }
    }

    /// The protection change this session is waiting for: the byte range
    /// starting at the target that must become executable+readable+writable.
    pub fn protection_request(&self) -> (r: (u64, u64))
        requires
            self.stage is AwaitProtection,
        ensures
            r == (self.target, self.region_size),
    {
        (self.target, self.region_size)
    }

    /// Outcome of the protection change. Success advances to the installer
    /// step; rejection fails the session with a protection error.
    pub fn protection_changed(&mut self, ok: bool)
        requires
            old(self).stage is AwaitProtection,
        ensures
            *final(self) == (HookSession {
                stage: if ok {
                    HookStage::AwaitInstaller
                } else {
                    HookStage::Failed { error: ExtensionError::Protection }
                },
                ..*old(self)
            }),
    {
        if ok {
            self.stage = HookStage::AwaitInstaller;
        } else {
            self.stage = HookStage::Failed { error: ExtensionError::Protection };
        }
    }

    /// Outcome of the low-level installer: the trampoline address, or
    /// nothing if the target region could not be rewritten (too small,
    /// unsupported pattern, or already hooked).
    pub fn installer_returned(&mut self, trampoline: Option<u64>)
        requires
            old(self).stage is AwaitInstaller,
        ensures
            *final(self) == (HookSession {
                stage: match trampoline {
                    Some(t) => HookStage::Installed { trampoline: t },
                    None => HookStage::Failed { error: ExtensionError::HookInstall },
                },
                ..*old(self)
            }),
    {
        match trampoline {
            Some(t) => {
                self.stage = HookStage::Installed { trampoline: t };
            },
            None => {
                self.stage = HookStage::Failed { error: ExtensionError::HookInstall };
            },
        }
    }

    /// The finished binding, once the session reached `Installed`.
    pub fn binding(&self) -> (r: Option<HookBinding>)
        ensures
            r == match self.stage {
                HookStage::Installed { trampoline } => Some(
                    HookBinding {
                        target: self.target,
                        replacement: self.replacement,
                        trampoline,
                    },
                ),
                _ => None::<HookBinding>,
            },
    {
        match self.stage {
            HookStage::Installed { trampoline } => Some(
                HookBinding { target: self.target, replacement: self.replacement, trampoline },
            ),
            _ => None,
        }
    }
}

/// Arguments of the hooked frame-drawing function, exactly as the host
/// passes them: two integer dimensions, two single-precision floats carried
/// as their raw bits, and an integer elapsed time. Bit-for-bit identity of
/// a forwarded call means equality of this struct.
#[derive(PartialEq, Eq, Structural, Clone, Copy, Debug)]
pub struct FrameArgs {
    pub width: i32,
    pub height: i32,
    pub lod_bias_bits: u32,
    pub fps_bits: u32,
    pub elapsed: i32,
}

/// A call the replacement owes after its own side effects: the trampoline,
/// with the original arguments.
#[derive(PartialEq, Eq, Structural, Clone, Copy, Debug)]
pub struct ForwardCall {
    pub target: u64,
    pub args: FrameArgs,
}

/// The replacement's continuation: after its instrumentation side effects,
/// it must invoke the binding's trampoline — never the overwritten entry
/// point — with the very arguments it received, unmodified.
pub fn thunk_forward(binding: &HookBinding, args: FrameArgs) -> (r: ForwardCall)
    ensures
        r == (ForwardCall { target: binding.trampoline, args }),
{
    ForwardCall { target: binding.trampoline, args }
}

/// Everything one invocation of the replacement does, short of the call
/// itself: the dimensions line it logs, and the forward call it owes.
pub struct ThunkEffect {
    /// The logged line: width, a comma, height, in decimal.
    pub screen_line: Vec<u8>,
    /// The continuation: the trampoline, with the arguments unmodified.
    pub forward: ForwardCall,
}

/// The replacement's whole per-invocation behavior over plain values:
/// instrumentation first (the dimensions line, computed from the arguments
/// alone), then the forward through the trampoline with bit-identical
/// arguments. No argument is retained beyond the call.
pub fn draw_frame_thunk(binding: &HookBinding, args: FrameArgs) -> (r: ThunkEffect)
    ensures
        r.screen_line@ == crate::textfmt::spec_screen_line(args.width as int, args.height as int),
        r.forward == (ForwardCall { target: binding.trampoline, args }),
{
    let screen_line = crate::textfmt::screen_line(args.width, args.height);
    let forward = thunk_forward(binding, args);
    ThunkEffect { screen_line, forward }
}

} // verus!
