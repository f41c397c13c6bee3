use vstd::prelude::*;
use crate::action::Action;

verus! {

/// The dismissible popup shown for a failure surfaced by the remote
/// service: carries the human-readable reason and nothing else.
#[derive(Clone, Debug, PartialEq)]
pub struct ErrorPopup {
    pub message: String,
}

/// The overlay listing the key bindings.  It holds no state of its own;
/// presence alone decides interception.
#[derive(Clone, Debug, PartialEq)]
pub struct HelpPopup {
}

impl HelpPopup {
    pub fn new() -> (r: Self)
        ensures
            r == (HelpPopup {  }),
    {
        HelpPopup {  }
    }
}

/// Owns the global overlays of the main window.  While one is present it
/// needs exclusive attention: every action is routed here first and
/// consumed, so nothing below can change state until the popup is
/// dismissed.  A newer error popup replaces an older one (last error
/// wins).
#[derive(Clone, Debug, PartialEq)]
pub struct GlobalPopupManager {
    pub error_popup: Option<ErrorPopup>,
    pub help_popup: Option<HelpPopup>,
}

impl Default for GlobalPopupManager {
    /// Starts with no overlay present.
    fn default() -> (r: Self)
        ensures
            r.error_popup is None,
            r.help_popup is None,
    {
        GlobalPopupManager { error_popup: None, help_popup: None }
    }
}

impl GlobalPopupManager {
    /// True while an overlay is present and must see every action first.
    pub open spec fn needs_action_spec(self) -> bool {
        self.error_popup is Some || self.help_popup is Some
    }

    pub fn needs_action(&self) -> (r: bool)
        ensures
            r == self.needs_action_spec(),
    {
        self.error_popup.is_some() || self.help_popup.is_some()
    }

    /// The manager's state after one action.  An error popup sits on top
    /// of a help popup; Confirm or Quit dismisses the topmost popup and
    /// nothing else changes it.  Without a popup the action is declined.
    pub open spec fn step_state(pre: Self, a: Action) -> Self {
        if pre.error_popup is Some {
            if a is Confirm || a is Quit {
                GlobalPopupManager { error_popup: None, ..pre }
            } else {
                pre
            }
        } else if pre.help_popup is Some {
            if a is Confirm || a is Quit || a is ShowHelp {
                GlobalPopupManager { help_popup: None, ..pre }
            } else {
                pre
            }
        } else {
            pre
        }
    }

    /// What one action yields here: a redraw request when the topmost
    /// popup was dismissed, nothing while a popup consumes the action,
    /// and the action itself, unchanged, when no popup is present.
    pub open spec fn step_out(pre: Self, a: Action) -> Option<Action> {
        if pre.error_popup is Some {
            if a is Confirm || a is Quit {
                Some(Action::Render)
            } else {
                None
            }
        } else if pre.help_popup is Some {
            if a is Confirm || a is Quit || a is ShowHelp {
                Some(Action::Render)
            } else {
                None
            }
        } else {
            Some(a)
        }
    }

    /// Routes one action to the topmost popup.  Total over Action: while
    /// a popup is present the action is consumed (dismissing the popup on
    /// Confirm or Quit); otherwise it falls through unchanged.
    pub fn handle_actions(&mut self, action: Action) -> (r: Option<Action>)
        ensures
            *final(self) == Self::step_state(*old(self), action),
            r == Self::step_out(*old(self), action),
    {
        if self.error_popup.is_some() {
            match action {
                Action::Confirm | Action::Quit => {
                    self.error_popup = None;
                    Some(Action::Render)
                },
                _ => None,
            }
        } else if self.help_popup.is_some() {
            match action {
                Action::Confirm | Action::Quit | Action::ShowHelp => {
                    self.help_popup = None;
                    Some(Action::Render)
                },
                _ => None,
            }
        } else {
            Some(action)
        }
    }
}

} // verus!
