use vstd::prelude::*;
use crate::action::{Action, CurrentTab};
use crate::popups::{GlobalPopupManager, HelpPopup};
use crate::search::SearchTab;
use crate::torrents::TorrentsTab;

verus! {

/// The tab bar: which tab of the main window is active.
pub struct TabComponent {
    pub current_tab: CurrentTab,
}

impl TabComponent {
    /// The session opens on the torrents tab.
    pub fn new() -> (r: Self)
        ensures
            r.current_tab == CurrentTab::Torrents,
    {
        TabComponent { current_tab: CurrentTab::Torrents }
    }

    /// Switches to the requested tab and consumes the action; anything
    /// else falls through unchanged.  Total over Action.
    pub fn handle_actions(&mut self, action: Action) -> (r: Option<Action>)
        ensures
            action matches Action::ChangeTab(t) ==> final(self).current_tab == t && r is None,
            !(action is ChangeTab) ==> *final(self) == *old(self) && r == Some(action),
    {
        match action {
            Action::ChangeTab(t) => {
                self.current_tab = t;
                None
            },
            other => Some(other),
        }
    }
}

/// The root of the component tree: the tab bar, the two tabs, and the
/// global overlays.  Actions are routed top-down with early
/// interception, and consumed bottom-up.
pub struct MainWindow {
    pub tabs: TabComponent,
    pub torrents_tab: TorrentsTab,
    pub search_tab: SearchTab,
    pub global_popup_manager: GlobalPopupManager,
}

impl MainWindow {
    /// The window's components keep their own invariants.
    pub open spec fn wf(self) -> bool {
        self.search_tab.wf()
    }

    /// A fresh window: torrents tab active, nothing selected, no overlay.
    pub fn new() -> (r: Self)
        ensures
            r.tabs.current_tab == CurrentTab::Torrents,
            r.torrents_tab.statistics_popup is None,
            r.torrents_tab.table.selected is None,
            r.global_popup_manager.error_popup is None,
            r.global_popup_manager.help_popup is None,
            r.wf(),
    {
        MainWindow {
            tabs: TabComponent::new(),
            torrents_tab: TorrentsTab::new(),
            search_tab: SearchTab::new(),
            global_popup_manager: GlobalPopupManager { error_popup: None, help_popup: None },
        }
    }

    /// The routing contract of the window, top-down with early
    /// interception:
    ///
    /// 1. An Error action installs its popup — a newer error replaces an
    ///    older one — and ShowHelp toggles the help overlay; both request
    ///    a redraw and never travel further.
    /// 2. While a global overlay is present it sees every other action
    ///    first and consumes it; Confirm or Quit dismisses the topmost
    ///    overlay (so Quit closes only the popup, not the session).  In
    ///    particular ChangeTab is blocked: the active tab stays.
    /// 3. Otherwise ChangeTab switches the active tab, and everything
    ///    else is routed to that tab, which may consume it or let it
    ///    fall through unchanged.
    ///
    /// Total over Action.
    pub open spec fn step_ok(pre: Self, a: Action, post: Self, r: Option<Action>) -> bool {
        match a {
            Action::Error(e) => {
                &&& post.global_popup_manager.error_popup == Some(e)
                &&& post.global_popup_manager.help_popup == pre.global_popup_manager.help_popup
                &&& post.tabs == pre.tabs
                &&& post.torrents_tab == pre.torrents_tab
                &&& post.search_tab == pre.search_tab
                &&& r == Some(Action::Render)
            },
            Action::ShowHelp => {
                &&& post.global_popup_manager.help_popup == (if pre.global_popup_manager.help_popup
                    is Some {
                    None
                } else {
                    Some(HelpPopup {  })
                })
                &&& post.global_popup_manager.error_popup == pre.global_popup_manager.error_popup
                &&& post.tabs == pre.tabs
                &&& post.torrents_tab == pre.torrents_tab
                &&& post.search_tab == pre.search_tab
                &&& r == Some(Action::Render)
            },
            _ => {
                if pre.global_popup_manager.needs_action_spec() {
                    &&& post.global_popup_manager == GlobalPopupManager::step_state(
                        pre.global_popup_manager,
                        a,
                    )
                    &&& r == GlobalPopupManager::step_out(pre.global_popup_manager, a)
                    &&& post.tabs == pre.tabs
                    &&& post.torrents_tab == pre.torrents_tab
                    &&& post.search_tab == pre.search_tab
                } else {
                    match a {
                        Action::ChangeTab(t) => {
                            &&& post.tabs.current_tab == t
                            &&& post.global_popup_manager == pre.global_popup_manager
                            &&& post.torrents_tab == pre.torrents_tab
                            &&& post.search_tab == pre.search_tab
                            &&& r == Some(Action::Render)
                        },
                        _ => match pre.tabs.current_tab {
                        CurrentTab::Torrents => {
                            &&& TorrentsTab::step_ok(pre.torrents_tab, a, post.torrents_tab, r)
                            &&& post.tabs == pre.tabs
                            &&& post.global_popup_manager == pre.global_popup_manager
                            &&& post.search_tab == pre.search_tab
                        },
                        CurrentTab::Search => {
                            &&& (a matches Action::Input(req)
                                ==> crate::input::InputBuffer::apply_rel(
                                pre.search_tab.input,
                                req,
                                post.search_tab.input,
                            ) && r == Some(Action::Render))
                            &&& (!(a is Input) ==> post.search_tab == pre.search_tab && r == Some(
                                a,
                            ))
                            &&& post.tabs == pre.tabs
                            &&& post.global_popup_manager == pre.global_popup_manager
                            &&& post.torrents_tab == pre.torrents_tab
                        },
                        },
                    }
                }
            },
        }
    }

    /// Routes one action through the window, per `step_ok`.
    pub fn handle_actions(&mut self, action: Action) -> (r: Option<Action>)
        requires
            old(self).wf(),
        ensures
            final(self).wf(),
            Self::step_ok(*old(self), action, *final(self), r),
    {
        match action {
            Action::Error(e) => {
                self.global_popup_manager.error_popup = Some(e);
                Some(Action::Render)
            },
            Action::ShowHelp => {
                if self.global_popup_manager.help_popup.is_some() {
                    self.global_popup_manager.help_popup = None;
                } else {
                    self.global_popup_manager.help_popup = Some(HelpPopup::new());
                }
                Some(Action::Render)
            },
            other => {
                if self.global_popup_manager.needs_action() {
                    self.global_popup_manager.handle_actions(other)
                } else {
                    match other {
                        Action::ChangeTab(t) => {
                            let _ = self.tabs.handle_actions(Action::ChangeTab(t));
                            Some(Action::Render)
                        },
                        _ => {
                            match self.tabs.current_tab {
                                CurrentTab::Torrents => self.torrents_tab.handle_actions(other),
                                CurrentTab::Search => self.search_tab.handle_actions(other),
                            }
                        },
                    }
                }
            },
        }
    }
}

} // verus!
