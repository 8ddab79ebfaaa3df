use vstd::prelude::*;
use crate::category::{
    InfoCategory, TabState, spec_category_at, spec_next_index, spec_previous_index,
};

verus! {

/// Milliseconds the loop waits for a key before it redraws.
pub const INPUT_TIMEOUT_MS: u64 = 1500;

/// The keys that the dashboard reacts to.
#[derive(Clone, Copy, Debug, PartialEq, Eq, Structural)]
pub enum Key {
    Quit,
    PreviousTab,
    NextTab,
    Other,
}

/// What the driver does after an input has been handled.
#[derive(Clone, Copy, Debug, PartialEq, Eq, Structural)]
pub enum LoopAction {
    /// Draw the next frame.
    Continue,
    /// Restore the terminal and leave the loop.
    Exit,
}

/// The render loop's state: the selected tab and whether the loop runs.
pub struct Dashboard {
    tab: TabState,
    running: bool,
}

impl Dashboard {
    pub closed spec fn wf(&self) -> bool {
        self.tab.wf()
    }

    /// Tab position of the selected category.
    pub closed spec fn spec_tab(&self) -> nat {
        self.tab.spec_index()
    }

    /// Whether the loop is still running.
    pub closed spec fn spec_running(&self) -> bool {
        self.running
    }

    /// A running dashboard on the first tab.
    pub fn new() -> (r: Dashboard)
        ensures
            r.wf(),
            r.spec_tab() == 0,
            r.spec_running(),
    {
        Dashboard { tab: TabState::new(), running: true }
    }

    /// The category whose panel is drawn.
    pub fn active(&self) -> (r: InfoCategory)
        requires
            self.wf(),
        ensures
            r == spec_category_at(self.spec_tab()),
    {
        self.tab.current()
    }

    /// The selected tab position, for highlighting the tab bar.
    pub fn selected_index(&self) -> (r: usize)
        ensures
            r as nat == self.spec_tab(),
    {
        self.tab.index()
    }

    /// Whether the loop is still running.
    pub fn is_running(&self) -> (r: bool)
        ensures
            r == self.spec_running(),
    {
        self.running
    }

    /// Handles the outcome of one wait for input: `None` when it timed out.
    /// Navigation keys move the selection, wrapping around; the quit key
    /// stops the loop, and asks for the terminal to be restored only on the
    /// step that stops it. Once stopped, no input changes anything.
    pub fn handle_input(&mut self, input: Option<Key>) -> (r: LoopAction)
        requires
            old(self).wf(),
        ensures
            final(self).wf(),
            (r == LoopAction::Exit) <==> (old(self).spec_running() && input == Some(Key::Quit)),
            final(self).spec_running() == (old(self).spec_running() && input != Some(Key::Quit)),
            final(self).spec_tab() == if old(self).spec_running() && input == Some(Key::NextTab) {
                spec_next_index(old(self).spec_tab())
            } else if old(self).spec_running() && input == Some(Key::PreviousTab) {
                spec_previous_index(old(self).spec_tab())
            } else {
                old(self).spec_tab()
            },
    {
        if !self.running {
            return LoopAction::Continue;
        }
        match input {
            Some(Key::Quit) => {
                self.running = false;
                LoopAction::Exit
            },
            Some(Key::NextTab) => {
                self.tab.next();
                LoopAction::Continue
            },
            Some(Key::PreviousTab) => {
                self.tab.previous();
                LoopAction::Continue
            },
            _ => LoopAction::Continue,
        }
    }
}

} // verus!
