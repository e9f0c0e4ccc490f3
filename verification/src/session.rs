//! The typing session: the composition root of the core. It owns the
//! passage set, the input buffer and the navigation state machine, and
//! exposes exactly two operations to the host: `handle_key`, which applies
//! one key event, and the render projections, which are pure views of the
//! state. The whole behaviour of `handle_key` is captured by the spec-level
//! transition function [`TypingSession::step`].

use vstd::prelude::*;

use crate::buffer::InputBuffer;
use crate::nav::Handled;
use crate::nav::KeyEvent;
use crate::nav::Mode;
use crate::nav::NavigationStateMachine;
use crate::passage::Passage;
use crate::passage::PassageSet;
use crate::style::Style;

verus! {

/// The session state: the filtered passage set (never mutated after
/// construction), the in-progress input, the navigation machine, and the
/// render colors.
#[derive(Debug)]
pub struct TypingSession {
    pub passages: PassageSet,
    pub buffer: InputBuffer,
    pub nav: NavigationStateMachine,
    pub style: Style,
}

impl TypingSession {
    pub open spec fn count(self) -> nat {
        self.passages.spec_len()
    }

    /// The text of the passage being typed.
    pub open spec fn current_text(self) -> Seq<char> {
        self.passages.passages@[self.nav.current_index as int].text@
    }

    /// The session invariant: the set holds no finished passage, the
    /// navigation indices are in range, and in typing mode the input never
    /// exceeds the target text.
    pub open spec fn wf(self) -> bool {
        &&& self.passages.wf()
        &&& self.nav.wf(self.count())
        &&& self.nav.mode == Mode::Typing ==> self.buffer.content@.len()
            <= self.current_text().len()
    }

    /// Which events a mode consumes; the guards of the individual
    /// transitions play no part, since a saturated boundary event is still
    /// absorbed rather than propagated.
    pub open spec fn consumes(mode: Mode, ev: KeyEvent) -> bool {
        match ev {
            KeyEvent::ToggleList => true,
            KeyEvent::Character(c) => mode == Mode::Typing || c == 'j' || c == 'k',
            KeyEvent::Down => mode == Mode::Selecting,
            KeyEvent::Up => mode == Mode::Selecting,
            KeyEvent::Enter => mode == Mode::Selecting,
            KeyEvent::Backspace => mode == Mode::Typing,
            KeyEvent::Delete => mode == Mode::Typing,
            KeyEvent::Tab => mode == Mode::Typing,
            KeyEvent::BackTab => mode == Mode::Typing,
            KeyEvent::Escape => mode == Mode::Typing,
            KeyEvent::Other => false,
        }
    }

    /// The transition function of the whole session: from a state and one
    /// key event to the new navigation state and the new buffer content.
    /// The passage set and the style never change.
    pub open spec fn step(s: TypingSession, ev: KeyEvent) -> (NavigationStateMachine, Seq<char>) {
        TypingSession::step_parts(s.nav, s.buffer.content@, s.passages.passages@, ev)
    }

    /// The same transition, over the three changing components, so that
    /// properties of event sequences can be stated and proved by folding it.
    pub open spec fn step_parts(
        nav: NavigationStateMachine,
        buf: Seq<char>,
        passages: Seq<Passage>,
        ev: KeyEvent,
    ) -> (NavigationStateMachine, Seq<char>) {
        let count = passages.len();
        match ev {
            KeyEvent::ToggleList => (nav.spec_toggle_list(), buf),
            KeyEvent::Character(c) => match nav.mode {
                Mode::Selecting => if c == 'j' {
                    (nav.spec_move_down(count), buf)
                } else if c == 'k' {
                    (nav.spec_move_up(), buf)
                } else {
                    (nav, buf)
                },
                Mode::Typing => (
                    nav,
                    if buf.len() < passages[nav.current_index as int].text@.len() {
                        buf.push(c)
                    } else {
                        buf
                    },
                ),
            },
            KeyEvent::Down => if nav.mode == Mode::Selecting {
                (nav.spec_move_down(count), buf)
            } else {
                (nav, buf)
            },
            KeyEvent::Up => if nav.mode == Mode::Selecting {
                (nav.spec_move_up(), buf)
            } else {
                (nav, buf)
            },
            KeyEvent::Enter => if nav.mode == Mode::Selecting {
                (
                    nav.spec_confirm(count),
                    if count > 0 {
                        Seq::<char>::empty()
                    } else {
                        buf
                    },
                )
            } else {
                (nav, buf)
            },
            KeyEvent::Backspace | KeyEvent::Delete => if nav.mode == Mode::Typing {
                (
                    nav,
                    if buf.len() > 0 {
                        buf.drop_last()
                    } else {
                        buf
                    },
                )
            } else {
                (nav, buf)
            },
            KeyEvent::Tab => if nav.mode == Mode::Typing {
                (
                    nav.spec_next_passage(count),
                    if nav.current_index + 1 < count {
                        Seq::<char>::empty()
                    } else {
                        buf
                    },
                )
            } else {
                (nav, buf)
            },
            KeyEvent::BackTab => if nav.mode == Mode::Typing {
                (
                    nav.spec_prev_passage(),
                    if nav.current_index > 0 {
                        Seq::<char>::empty()
                    } else {
                        buf
                    },
                )
            } else {
                (nav, buf)
            },
            KeyEvent::Escape => if nav.mode == Mode::Typing {
                (nav.spec_escape(), buf)
            } else {
                (nav, buf)
            },
            KeyEvent::Other => (nav, buf),
        }
    }

    /// A fresh session over an already filtered passage set: selecting
    /// mode, both indices zero, list visible, buffer empty.
    pub fn new(passages: PassageSet, style: Style) -> (s: TypingSession)
        requires
            passages.wf(),
        ensures
            s.wf(),
            s.passages == passages,
            s.style == style,
            s.nav == NavigationStateMachine::spec_init(),
            s.buffer.content@ == Seq::<char>::empty(),
    {
        TypingSession {
            passages,
            buffer: InputBuffer::new(),
            nav: NavigationStateMachine::init(),
            style,
        }
    }

    /// Applies one key event. The new state is exactly [`Self::step`] of
    /// the old one; the passage set and the style are untouched; the result
    /// reports whether the event was consumed, per [`Self::consumes`].
    pub fn handle_key(&mut self, ev: KeyEvent) -> (h: Handled)
        requires
            old(self).wf(),
        ensures
            final(self).wf(),
            final(self).passages == old(self).passages,
            final(self).style == old(self).style,
            (final(self).nav, final(self).buffer.content@) == Self::step(*old(self), ev),
            h == (if Self::consumes(old(self).nav.mode, ev) {
                Handled::Consumed
            } else {
                Handled::NotConsumed
            }),
    {
        let count = self.passages.len();
        match ev {
            KeyEvent::ToggleList => {
                self.nav.toggle_list();
                Handled::Consumed
            },
            KeyEvent::Character(c) => match self.nav.mode {
                Mode::Selecting => {
                    if c == 'j' {
                        self.nav.move_down(count);
                        Handled::Consumed
                    } else if c == 'k' {
                        self.nav.move_up();
                        Handled::Consumed
                    } else {
                        Handled::NotConsumed
                    }
                },
                Mode::Typing => {
                    let target_len = self.passages.passage(self.nav.current_index).text.len();
                    if self.buffer.len() < target_len {
                        self.buffer.append(c);
                    }
                    Handled::Consumed
                },
            },
            KeyEvent::Down => {
                if matches!(self.nav.mode, Mode::Selecting) {
                    self.nav.move_down(count);
                    Handled::Consumed
                } else {
                    Handled::NotConsumed
                }
            },
            KeyEvent::Up => {
                if matches!(self.nav.mode, Mode::Selecting) {
                    self.nav.move_up();
                    Handled::Consumed
                } else {
                    Handled::NotConsumed
                }
            },
            KeyEvent::Enter => {
                if matches!(self.nav.mode, Mode::Selecting) {
                    if count > 0 {
                        self.buffer.clear();
                    }
                    self.nav.confirm(count);
                    Handled::Consumed
                } else {
                    Handled::NotConsumed
                }
            },
            KeyEvent::Backspace | KeyEvent::Delete => {
                if matches!(self.nav.mode, Mode::Typing) {
                    self.buffer.erase();
                    Handled::Consumed
                } else {
                    Handled::NotConsumed
                }
            },
            KeyEvent::Tab => {
                if matches!(self.nav.mode, Mode::Typing) {
                    if self.nav.current_index + 1 < count {
                        self.buffer.clear();
                    }
                    self.nav.next_passage(count);
                    Handled::Consumed
                } else {
                    Handled::NotConsumed
                }
            },
            KeyEvent::BackTab => {
                if matches!(self.nav.mode, Mode::Typing) {
                    if self.nav.current_index > 0 {
                        self.buffer.clear();
                    }
                    self.nav.prev_passage();
                    Handled::Consumed
                } else {
                    Handled::NotConsumed
                }
            },
            KeyEvent::Escape => {
                if matches!(self.nav.mode, Mode::Typing) {
                    self.nav.escape();
                    Handled::Consumed
                } else {
                    Handled::NotConsumed
                }
            },
            KeyEvent::Other => Handled::NotConsumed,
        }
    }
}

} // verus!
