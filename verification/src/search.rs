use vstd::prelude::*;
use crate::action::{Action, InputRequest};
use crate::input::InputBuffer;

verus! {

/// The search tab: a focused text buffer that takes the text-editing
/// requests produced under Input mode.
pub struct SearchTab {
    pub input: InputBuffer,
}

impl SearchTab {
    /// The tab's buffer keeps its own invariant.
    pub open spec fn wf(self) -> bool {
        self.input.wf()
    }

    /// A fresh tab with an empty search buffer.
    pub fn new() -> (r: Self)
        ensures
            r.input.chars@ == Seq::<char>::empty(),
            r.input.caret == 0,
            r.wf(),
    {
        SearchTab { input: InputBuffer::new() }
    }

    /// Routes one action through this tab: a text-editing request is
    /// applied to the buffer and a redraw requested; every other action
    /// falls through unchanged.  Total over Action.
    pub fn handle_actions(&mut self, action: Action) -> (r: Option<Action>)
        requires
            old(self).wf(),
        ensures
            final(self).wf(),
            action matches Action::Input(req) ==> InputBuffer::apply_rel(
                old(self).input,
                req,
                final(self).input,
            ) && r == Some(Action::Render),
            !(action is Input) ==> *final(self) == *old(self) && r == Some(action),
    {
        match action {
            Action::Input(req) => {
                self.input.apply(req);
                Some(Action::Render)
            },
            other => Some(other),
        }
    }
}

} // verus!
