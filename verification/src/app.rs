use vstd::prelude::*;
use crate::action::{event_to_action, event_to_action_spec, Action, KeyEvent, Mode};
use crate::window::MainWindow;

verus! {

#[verifier::external_type_specification]
#[verifier::external_body]
#[verifier::reject_recursive_types(T)]
pub struct ExUnboundedSender<T>(tokio::sync::mpsc::UnboundedSender<T>);

/// Relies on tokio's UnboundedSender::send (sync/mpsc/unbounded.rs):
/// enqueues the action on the unbounded, order-preserving channel without
/// blocking; when the receiving end is gone the session is shutting down,
/// so the send error is discarded and the producer goes on.
#[verifier::external_body]
fn bus_send(tx: &tokio::sync::mpsc::UnboundedSender<Action>, action: Action) {
    let _ = tx.send(action);
}

/// The mode after one action: only the two switch actions move it.
pub open spec fn mode_after(mode: Mode, a: Action) -> Mode {
    match a {
        Action::SwitchToInputMode => Mode::Input,
        Action::SwitchToNormalMode => Mode::Normal,
        _ => mode,
    }
}

/// Entering Input mode twice in a row still leaves Input mode — the
/// switch actions are idempotent under repetition — and from Input mode
/// only SwitchToNormalMode leads back to Normal.
pub proof fn lemma_mode_transitions(m: Mode)
    ensures
        mode_after(mode_after(m, Action::SwitchToInputMode), Action::SwitchToInputMode)
            == Mode::Input,
        mode_after(mode_after(m, Action::SwitchToNormalMode), Action::SwitchToNormalMode)
            == Mode::Normal,
        forall|a: Action|
            mode_after(Mode::Input, a) == Mode::Normal ==> a == Action::SwitchToNormalMode,
{
}

/// While a global overlay is present it intercepts dispatch: ChangeTab
/// cannot change the active tab, and Quit does not end the session — it
/// only dismisses the topmost overlay and requests a redraw.  Without an
/// overlay, Quit ends the session.
pub proof fn lemma_popup_interception(
    pre: App,
    post: App,
    r: Option<Action>,
    t: crate::action::CurrentTab,
)
    ensures
        pre.main_window.global_popup_manager.needs_action_spec() && App::update_ok(
            pre,
            Action::ChangeTab(t),
            post,
            r,
        ) ==> post.main_window.tabs == pre.main_window.tabs,
        pre.main_window.global_popup_manager.needs_action_spec() && App::update_ok(
            pre,
            Action::Quit,
            post,
            r,
        ) ==> post.should_quit == pre.should_quit && r == Some(Action::Render)
            && post.main_window.global_popup_manager
            == crate::popups::GlobalPopupManager::step_state(
            pre.main_window.global_popup_manager,
            Action::Quit,
        ),
        !pre.main_window.global_popup_manager.needs_action_spec() && App::update_ok(
            pre,
            Action::Quit,
            post,
            r,
        ) ==> post.should_quit,
{
}

/// The session: the quit flag, the input-translation mode, the component
/// tree, and the sending ends of the action bus and of the mutation
/// queue that the background scheduler drains.
pub struct App {
    pub should_quit: bool,
    pub action_tx: tokio::sync::mpsc::UnboundedSender<Action>,
    pub trans_tx: tokio::sync::mpsc::UnboundedSender<Action>,
    pub main_window: MainWindow,
    pub mode: Mode,
}

impl App {
    pub open spec fn wf(self) -> bool {
        self.main_window.wf()
    }

    /// A fresh session: not quitting, Normal mode, a fresh window.
    pub fn new(
        action_tx: tokio::sync::mpsc::UnboundedSender<Action>,
        trans_tx: tokio::sync::mpsc::UnboundedSender<Action>,
    ) -> (r: Self)
        ensures
            !r.should_quit,
            r.mode == Mode::Normal,
            r.main_window.tabs.current_tab is Torrents,
            r.main_window.global_popup_manager.error_popup is None,
            r.main_window.global_popup_manager.help_popup is None,
            r.main_window.torrents_tab.statistics_popup is None,
            r.wf(),
    {
        App {
            should_quit: false,
            action_tx,
            trans_tx,
            main_window: MainWindow::new(),
            mode: Mode::Normal,
        }
    }

    /// The dispatch contract of the session tier, the coarsest of the
    /// tree:
    ///
    /// - Quit ends the session — unless a global overlay is present, in
    ///   which case it only dismisses that overlay (routed through the
    ///   window) and the session goes on.
    /// - The two mode switches set the translation mode and request a
    ///   redraw; `mode_after` is the whole mode state machine.
    /// - TorrentAdd is handed to the mutation queue for the background
    ///   scheduler; the UI consumes it without further routing.
    /// - Everything else is routed into the component tree.
    ///
    /// Total over Action.
    pub open spec fn update_ok(pre: Self, a: Action, post: Self, r: Option<Action>) -> bool {
        &&& post.mode == mode_after(pre.mode, a)
        &&& post.action_tx == pre.action_tx
        &&& post.trans_tx == pre.trans_tx
        &&& match a {
            Action::Quit => {
                if pre.main_window.global_popup_manager.needs_action_spec() {
                    &&& post.should_quit == pre.should_quit
                    &&& MainWindow::step_ok(pre.main_window, a, post.main_window, r)
                } else {
                    &&& post.should_quit
                    &&& post.main_window == pre.main_window
                    &&& r is None
                }
            },
            Action::SwitchToInputMode => {
                &&& post.should_quit == pre.should_quit
                &&& post.main_window == pre.main_window
                &&& r == Some(Action::Render)
            },
            Action::SwitchToNormalMode => {
                &&& post.should_quit == pre.should_quit
                &&& post.main_window == pre.main_window
                &&& r == Some(Action::Render)
            },
            Action::TorrentAdd(_) => {
                &&& post.should_quit == pre.should_quit
                &&& post.main_window == pre.main_window
                &&& r is None
            },
            _ => {
                &&& post.should_quit == pre.should_quit
                &&& MainWindow::step_ok(pre.main_window, a, post.main_window, r)
            },
        }
    }

    /// Dispatches one action at the session tier, per `update_ok`.  A
    /// follow-up action is returned, never dispatched synchronously, so
    /// the caller re-enqueues it for a later iteration.
    #[must_use]
    pub fn update(&mut self, action: Action) -> (r: Option<Action>)
        requires
            old(self).wf(),
        ensures
            final(self).wf(),
            Self::update_ok(*old(self), action, *final(self), r),
    {
        match action {
            Action::Quit => {
                if self.main_window.global_popup_manager.needs_action() {
                    self.main_window.handle_actions(Action::Quit)
                } else {
                    self.should_quit = true;
                    None
                }
            },
            Action::SwitchToInputMode => {
                self.mode = Mode::Input;
                Some(Action::Render)
            },
            Action::SwitchToNormalMode => {
                self.mode = Mode::Normal;
                Some(Action::Render)
            },
            Action::TorrentAdd(magnet) => {
                bus_send(&self.trans_tx, Action::TorrentAdd(magnet));
                None
            },
            other => self.main_window.handle_actions(other),
        }
    }

    /// One loop iteration for a terminal input event: the key press is
    /// translated under the current mode, dispatched, and a follow-up,
    /// if any, is re-enqueued on the action bus for a later iteration.
    /// A key press that translates to nothing changes nothing.
    pub fn on_input_event(&mut self, ev: KeyEvent)
        requires
            old(self).wf(),
        ensures
            final(self).wf(),
            event_to_action_spec(old(self).mode, ev) is None ==> *final(self) == *old(self),
            event_to_action_spec(old(self).mode, ev) matches Some(a) ==> exists|r: Option<Action>|
                Self::update_ok(*old(self), a, *final(self), r),
    {
        if let Some(a) = event_to_action(self.mode, ev) {
            let follow_up = self.update(a);
            proof {
                let a_spec = event_to_action_spec(old(self).mode, ev)->Some_0;
                assert(Self::update_ok(*old(self), a_spec, *self, follow_up));
            }
            if let Some(f) = follow_up {
                bus_send(&self.action_tx, f);
            }
        }
    }

    /// One loop iteration for an action taken off the bus: a Render
    /// action requests a redraw and changes nothing; anything else is
    /// dispatched, and a follow-up, if any, is re-enqueued on the bus
    /// for a later iteration.
    pub fn on_bus_action(&mut self, action: Action) -> (render: bool)
        requires
            old(self).wf(),
        ensures
            final(self).wf(),
            render == (action is Render),
            action is Render ==> *final(self) == *old(self),
            !(action is Render) ==> exists|r: Option<Action>|
                Self::update_ok(*old(self), action, *final(self), r),
    {
        if action.is_render() {
            true
        } else {
            let follow_up = self.update(action);
            proof {
                assert(Self::update_ok(*old(self), action, *self, follow_up));
            }
            if let Some(f) = follow_up {
                bus_send(&self.action_tx, f);
            }
            false
        }
    }
}

} // verus!
