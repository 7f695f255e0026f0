//! Visibility state of the auxiliary windows: the about dialog and the
//! keyboard-shortcuts overlay. Closing either is just a message that
//! clears a flag; there is no in-flight work to cancel.

use vstd::prelude::*;

verus! {

/// State of the about dialog.
#[derive(Debug)]
pub struct AboutDialog {
    pub visible: bool,
}

/// Commands the about dialog accepts.
#[derive(Debug)]
pub enum AboutDialogMsg {
    Show,
    Hide,
}

impl AboutDialog {
    /// The dialog starts hidden.
    pub fn new() -> (r: AboutDialog)
        ensures
            !r.visible,
    {
        AboutDialog { visible: false }
    }

    /// `Show` sets the flag, `Hide` clears it; nothing else changes.
    pub fn update(&mut self, msg: AboutDialogMsg)
        ensures
            final(self).visible == (msg is Show),
    {
        match msg {
            AboutDialogMsg::Show => {
                self.visible = true;
            }
            AboutDialogMsg::Hide => {
                self.visible = false;
            }
        }
    }
}

/// State of the keyboard-shortcuts overlay.
#[derive(Debug)]
pub struct Shortcuts {
    pub visible: bool,
}

/// Commands the shortcuts overlay accepts.
#[derive(Debug)]
pub enum ShortcutsMsg {
    Show,
    Hide,
}

impl Shortcuts {
    /// The overlay starts hidden.
    pub fn new() -> (r: Shortcuts)
        ensures
            !r.visible,
    {
        Shortcuts { visible: false }
    }

    /// `Show` sets the flag, `Hide` clears it; nothing else changes.
    pub fn update(&mut self, msg: ShortcutsMsg)
        ensures
            final(self).visible == (msg is Show),
    {
        match msg {
            ShortcutsMsg::Show => {
                self.visible = true;
            }
            ShortcutsMsg::Hide => {
                self.visible = false;
            }
        }
    }
}

} // verus!
