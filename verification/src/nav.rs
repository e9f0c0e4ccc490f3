//! The navigation state machine: the two modes (selecting a passage,
//! typing against one), the index of the passage being typed, the cursor in
//! the selection list, and the list's visibility. Every transition saturates
//! at the boundaries: the machine never produces an out-of-range index and
//! never rejects a boundary event with an error.

use vstd::prelude::*;

verus! {

/// Whether the session is browsing the passage list or typing against the
/// chosen passage.
#[derive(Clone, Copy, Debug, PartialEq, Eq, Structural)]
pub enum Mode {
    Selecting,
    Typing,
}

/// One key event, as the host's input layer hands it to the session. The
/// host maps its framework's key type onto these variants; `ToggleList`
/// stands for the list-visibility chord, `Other` for every key the session
/// does not handle.
#[derive(Clone, Copy, Debug, PartialEq, Eq, Structural)]
pub enum KeyEvent {
    Character(char),
    Down,
    Up,
    Enter,
    Backspace,
    Delete,
    Tab,
    BackTab,
    Escape,
    ToggleList,
    Other,
}

/// Whether a key event was consumed by the session or should propagate to
/// the host.
#[derive(Clone, Copy, Debug, PartialEq, Eq, Structural)]
pub enum Handled {
    Consumed,
    NotConsumed,
}

/// The mode, the two indices and the list visibility. `count` in the
/// contracts below is the number of passages in the session's set.
#[derive(Clone, Copy, Debug, PartialEq, Eq, Structural)]
pub struct NavigationStateMachine {
    pub mode: Mode,
    /// The passage being typed (in typing mode); may lag behind the cursor
    /// while selecting.
    pub current_index: usize,
    /// The entry highlighted in the passage list.
    pub selection_cursor: usize,
    pub list_visible: bool,
}

impl NavigationStateMachine {
    /// Both indices stay in range while any passage exists; with no
    /// passages the machine sits in selecting mode at index zero.
    pub open spec fn wf(self, count: nat) -> bool {
        &&& count > 0 ==> self.selection_cursor < count && self.current_index < count
        &&& count == 0 ==> self.selection_cursor == 0 && self.current_index == 0 && self.mode
            == Mode::Selecting
    }

    /// The initial state: selecting, both indices zero, list visible.
    pub open spec fn spec_init() -> NavigationStateMachine {
        NavigationStateMachine {
            mode: Mode::Selecting,
            current_index: 0,
            selection_cursor: 0,
            list_visible: true,
        }
    }

    pub open spec fn spec_move_down(self, count: nat) -> NavigationStateMachine {
        if self.selection_cursor + 1 < count {
            NavigationStateMachine { selection_cursor: (self.selection_cursor + 1) as usize, ..self }
        } else {
            self
        }
    }

    pub open spec fn spec_move_up(self) -> NavigationStateMachine {
        if self.selection_cursor > 0 {
            NavigationStateMachine { selection_cursor: (self.selection_cursor - 1) as usize, ..self }
        } else {
            self
        }
    }

    pub open spec fn spec_confirm(self, count: nat) -> NavigationStateMachine {
        if count > 0 {
            NavigationStateMachine {
                mode: Mode::Typing,
                current_index: self.selection_cursor,
                list_visible: false,
                ..self
            }
        } else {
            self
        }
    }

    pub open spec fn spec_next_passage(self, count: nat) -> NavigationStateMachine {
        if self.current_index + 1 < count {
            NavigationStateMachine {
                current_index: (self.current_index + 1) as usize,
                selection_cursor: (self.current_index + 1) as usize,
                ..self
            }
        } else {
            self
        }
    }

    pub open spec fn spec_prev_passage(self) -> NavigationStateMachine {
        if self.current_index > 0 {
            NavigationStateMachine {
                current_index: (self.current_index - 1) as usize,
                selection_cursor: (self.current_index - 1) as usize,
                ..self
            }
        } else {
            self
        }
    }

    pub open spec fn spec_escape(self) -> NavigationStateMachine {
        NavigationStateMachine { mode: Mode::Selecting, list_visible: true, ..self }
    }

    pub open spec fn spec_toggle_list(self) -> NavigationStateMachine {
        NavigationStateMachine { list_visible: !self.list_visible, ..self }
    }

    pub fn init() -> (m: NavigationStateMachine)
        ensures
            m == NavigationStateMachine::spec_init(),
    {
        NavigationStateMachine {
            mode: Mode::Selecting,
            current_index: 0,
            selection_cursor: 0,
            list_visible: true,
        }
    }

    /// Moves the selection cursor down one entry, saturating at the last.
    pub fn move_down(&mut self, count: usize)
        requires
            old(self).wf(count as nat),
        ensures
            *final(self) == old(self).spec_move_down(count as nat),
    {
        if self.selection_cursor + 1 < count {
            self.selection_cursor = self.selection_cursor + 1;
        }
    }

    /// Moves the selection cursor up one entry, saturating at zero.
    pub fn move_up(&mut self)
        ensures
            *final(self) == old(self).spec_move_up(),
    {
        if self.selection_cursor > 0 {
            self.selection_cursor = self.selection_cursor - 1;
        }
    }

    /// Commits the cursor as the passage to type and enters typing mode,
    /// hiding the list; a no-op when there are no passages.
    pub fn confirm(&mut self, count: usize)
        ensures
            *final(self) == old(self).spec_confirm(count as nat),
    {
        if count > 0 {
            self.current_index = self.selection_cursor;
            self.mode = Mode::Typing;
            self.list_visible = false;
        }
    }

    /// Advances to the next passage, saturating at the last; the cursor
    /// follows the committed index.
    pub fn next_passage(&mut self, count: usize)
        requires
            old(self).wf(count as nat),
        ensures
            *final(self) == old(self).spec_next_passage(count as nat),
    {
        if self.current_index + 1 < count {
            self.current_index = self.current_index + 1;
            self.selection_cursor = self.current_index;
        }
    }

    /// Steps back to the previous passage, saturating at the first; the
    /// cursor follows the committed index.
    pub fn prev_passage(&mut self)
        ensures
            *final(self) == old(self).spec_prev_passage(),
    {
        if self.current_index > 0 {
            self.current_index = self.current_index - 1;
            self.selection_cursor = self.current_index;
        }
    }

    /// Returns to selecting mode and shows the list.
    pub fn escape(&mut self)
        ensures
            *final(self) == old(self).spec_escape(),
    {
        self.mode = Mode::Selecting;
        self.list_visible = true;
    }

    /// Flips the list's visibility, in either mode.
    pub fn toggle_list(&mut self)
        ensures
            *final(self) == old(self).spec_toggle_list(),
    {
        self.list_visible = !self.list_visible;
    }
}

} // verus!
