//! The extension's globally visible UI state.
//!
//! The host owns a single "current surface" slot that its UI loop reads on
//! every frame; this engine's command callbacks overwrite it to switch
//! which registered surface the host renders. The say command additionally
//! stores the payload the user typed, so the say surface's refresh callback
//! can display it. A value of [`ExtensionState`] mirrors that slot and the
//! stored payload; the unverified layer copies `current` into the host's
//! real slot after every transition.

use vstd::prelude::*;

verus! {

/// Abstract extension state, over plain values.
pub struct StateModel {
    /// The surface handle the host's current-surface slot holds.
    pub current: u64,
    /// Handle of the main menu surface.
    pub main_surface: u64,
    /// Handle of the say surface.
    pub say_surface: u64,
    /// Payload stored by the last say command.
    pub say_text: Seq<char>,
    /// Whether a say payload was ever stored.
    pub say_text_set: bool,
}

/// The mutable extension state: the mirrored current-surface slot, the two
/// registered surface handles, and the stored say payload.
pub struct ExtensionState {
    pub current: u64,
    pub main_surface: u64,
    pub say_surface: u64,
    pub say_text: String,
    pub say_text_set: bool,
}

/// What invoking the main-menu command does: an unconditional overwrite of
/// `current` with the main surface's handle; nothing else changes.
pub open spec fn spec_command_open_menu(s: StateModel) -> StateModel {
    StateModel { current: s.main_surface, ..s }
}

/// What invoking the say command with `payload` does: the payload is stored
/// verbatim and `current` is overwritten with the say surface's handle.
pub open spec fn spec_command_say(s: StateModel, payload: Seq<char>) -> StateModel {
    StateModel { current: s.say_surface, say_text: payload, say_text_set: true, ..s }
}

impl ExtensionState {
    /// Abstract value of this state.
    pub open spec fn model(self) -> StateModel {
        StateModel {
            current: self.current,
            main_surface: self.main_surface,
            say_surface: self.say_surface,
            say_text: self.say_text@,
            say_text_set: self.say_text_set,
        }
    }

    /// State right after both surfaces were registered: the current-surface
    /// slot still holds whatever the host had in it, and no payload is
    /// stored yet.
    pub fn new(main_surface: u64, say_surface: u64, host_current: u64) -> (r: ExtensionState)
        ensures
            r.model() == (StateModel {
                current: host_current,
                main_surface,
                say_surface,
                say_text: Seq::<char>::empty(),
                say_text_set: false,
            }),
    {
        let r = ExtensionState {
            current: host_current,
            main_surface,
            say_surface,
            say_text: String::new(),
            say_text_set: false,
        };
        proof {
            assert(r.say_text@ =~= Seq::<char>::empty());
        }
        r
    }

    /// Point the host's current-surface slot at `surface`: an unconditional
    /// overwrite, never a toggle.
    pub fn activate(&mut self, surface: u64)
        ensures
            final(self).model() == (StateModel { current: surface, ..old(self).model() }),
    {
        self.current = surface;
    }

    /// The main-menu command callback's state transition.
    pub fn command_open_menu(&mut self)
        ensures
            final(self).model() == spec_command_open_menu(old(self).model()),
    {
        let surface = self.main_surface;
        self.activate(surface);
    }

    /// The say command callback's state transition: store the payload the
    /// host tokenized for us, verbatim, and switch to the say surface.
    pub fn command_say(&mut self, payload: String)
        ensures
            final(self).model() == spec_command_say(old(self).model(), payload@),
    {
        self.say_text = payload;
        self.say_text_set = true;
        let surface = self.say_surface;
        self.activate(surface);
    }
}

/// Command callback invocation is a pure state transition: whatever
/// `current` held before, afterwards it holds exactly the invoked command's
/// registered surface handle — for each command independently — and nothing
/// but `current` (and, for the say command, the stored payload) changes.
/// Re-invoking a command while its surface is already active changes
/// nothing.
pub proof fn lemma_command_pure_transition(s: StateModel, payload: Seq<char>)
    ensures
        spec_command_open_menu(s).current == s.main_surface,
        spec_command_open_menu(s) == (StateModel { current: s.main_surface, ..s }),
        spec_command_say(s, payload).current == s.say_surface,
        spec_command_say(s, payload).say_text == payload,
        spec_command_open_menu(spec_command_open_menu(s)) == spec_command_open_menu(s),
        spec_command_say(spec_command_say(s, payload), payload) == spec_command_say(s, payload),
{
}

} // verus!
