//! The hotkey filter: which key events start a run of the pipeline.

use vstd::prelude::*;

verus! {

/// Whether a key went down or came up.
#[derive(Clone, Copy, Debug, PartialEq, Eq, Structural)]
pub enum KeyPhase {
    Press,
    Release,
}

/// A key event as the OS reports it: the key's code and its phase. Nothing
/// else about the event matters here.
#[derive(Clone, Copy, Debug, PartialEq, Eq, Structural)]
pub struct KeyEvent {
    pub key: u32,
    pub phase: KeyPhase,
}

/// Watches the event stream for presses of one configured key.
#[derive(Clone, Copy, Debug, PartialEq, Eq, Structural)]
pub struct HotkeyListener {
    trigger: u32,
}

impl HotkeyListener {
    /// The configured key's code.
    pub closed spec fn trigger_key(&self) -> u32 {
        self.trigger
    }

    /// A listener for presses of `trigger`.
    pub fn new(trigger: u32) -> (r: HotkeyListener)
        ensures
            r.trigger_key() == trigger,
    {
        HotkeyListener { trigger }
    }

    /// The configured key's code.
    pub fn trigger(&self) -> (r: u32)
        ensures
            r == self.trigger_key(),
    {
        self.trigger
    }

    /// Whether `event` starts a run: a press of the configured key does, and
    /// every other event, a release of it included, is ignored. The answer
    /// depends on the event alone, so a run that failed does not change it
    /// for the events that follow.
    pub fn should_run(&self, event: &KeyEvent) -> (r: bool)
        ensures
            r == (event.phase == KeyPhase::Press && event.key == self.trigger_key()),
    {
        match event.phase {
            KeyPhase::Press => event.key == self.trigger,
            KeyPhase::Release => false,
        }
    }
}

} // verus!
