//! Runtime preferences, modeled as injected configuration values.

use vstd::prelude::*;

verus! {

/// The preferences the surrounding application keeps while it runs.
#[derive(Clone, Copy, Debug, PartialEq, Eq, Structural)]
pub struct RuntimePrefs {
    /// Hide the window when it loses focus.
    pub close_on_blur: bool,
    /// Keep the window above all others.
    pub always_on_top: bool,
}

/// A point-in-time copy of the preferences, as handed to callers.
#[derive(Clone, Copy, Debug, PartialEq, Eq, Structural)]
pub struct PrefsSnapshot {
    /// Hide the window when it loses focus.
    pub close_on_blur: bool,
    /// Keep the window above all others.
    pub always_on_top: bool,
}

impl Default for RuntimePrefs {
    /// Both preferences start switched off.
    fn default() -> (r: Self)
        ensures
            !r.close_on_blur,
            !r.always_on_top,
    {
        RuntimePrefs { close_on_blur: false, always_on_top: false }
    }
}

impl RuntimePrefs {
    /// A copy of the current preference values.
    pub fn snapshot(&self) -> (r: PrefsSnapshot)
        ensures
            r.close_on_blur == self.close_on_blur,
            r.always_on_top == self.always_on_top,
    {
        PrefsSnapshot { close_on_blur: self.close_on_blur, always_on_top: self.always_on_top }
    }

    /// Sets whether the window hides when it loses focus.
    pub fn set_close_on_blur(&mut self, value: bool)
        ensures
            final(self).close_on_blur == value,
            final(self).always_on_top == old(self).always_on_top,
    {
        self.close_on_blur = value;
    }

    /// Sets whether the window stays above all others.
    pub fn set_always_on_top(&mut self, value: bool)
        ensures
            final(self).always_on_top == value,
            final(self).close_on_blur == old(self).close_on_blur,
    {
        self.always_on_top = value;
    }
}

} // verus!
