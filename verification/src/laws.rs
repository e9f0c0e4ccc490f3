//! The library's laws: properties that hold across several operations or
//! across whole event sequences, stated over the same spec functions the
//! public contracts use and proved once and for all.

use vstd::prelude::*;

use crate::diff::Classification;
use crate::diff::classification_at;
use crate::nav::KeyEvent;
use crate::nav::Mode;
use crate::nav::NavigationStateMachine;
use crate::passage::Passage;
use crate::passage::keep_pred;
use crate::render::RenderModel;
use crate::session::TypingSession;

verus! {

/// The changing components of a session are well formed with respect to the
/// fixed passage sequence: indices in range, and in typing mode the input
/// no longer than the target text. [`TypingSession::wf`] is exactly this
/// together with the passage set's own invariant.
pub open spec fn parts_wf(
    nav: NavigationStateMachine,
    buf: Seq<char>,
    passages: Seq<Passage>,
) -> bool {
    &&& passages.len() <= usize::MAX
    &&& nav.wf(passages.len())
    &&& nav.mode == Mode::Typing ==> buf.len() <= passages[nav.current_index as int].text@.len()
}

/// [`TypingSession::step_parts`] folded over a sequence of key events.
pub open spec fn run_events(
    nav: NavigationStateMachine,
    buf: Seq<char>,
    passages: Seq<Passage>,
    evs: Seq<KeyEvent>,
) -> (NavigationStateMachine, Seq<char>)
    decreases evs.len(),
{
    if evs.len() == 0 {
        (nav, buf)
    } else {
        let (nav2, buf2) = TypingSession::step_parts(nav, buf, passages, evs[0]);
        run_events(nav2, buf2, passages, evs.subrange(1, evs.len() as int))
    }
}

/// The same key event `n` times over.
pub open spec fn repeat_event(ev: KeyEvent, n: nat) -> Seq<KeyEvent>
    decreases n,
{
    if n == 0 {
        Seq::empty()
    } else {
        seq![ev] + repeat_event(ev, (n - 1) as nat)
    }
}

/// For a typed prefix no longer than the target, a typed position is
/// classified correct exactly when it matches the target character.
pub proof fn lemma_classifier_agrees(text: Seq<char>, typed: Seq<char>, i: int)
    requires
        typed.len() <= text.len(),
        0 <= i < typed.len(),
    ensures
        (classification_at(text, typed, i) == Classification::Correct) <==> (typed[i] == text[i]),
{
}

/// Rendering is idempotent: any two frame models of the same state agree on
/// everything observable, so rendering twice without an intervening key
/// event shows the same picture.
pub proof fn lemma_render_deterministic(s: TypingSession, m1: RenderModel, m2: RenderModel)
    requires
        s.matches_render(m1),
        s.matches_render(m2),
    ensures
        m1.background == m2.background,
        m1.list_visible == m2.list_visible,
        m1.left_margin == m2.left_margin,
        m1.entries@.len() == m2.entries@.len(),
        forall|i: int|
            0 <= i < m1.entries@.len() ==> (#[trigger] m1.entries@[i]).label@
                == m2.entries@[i].label@ && m1.entries@[i].selected == m2.entries@[i].selected,
        m1.title@ == m2.title@,
        m1.marks@ == m2.marks@,
{
    assert(m1.marks@ =~= m2.marks@);
}

/// One step preserves the session invariant, whatever the event: indices
/// stay in range and the input stays within the target text.
pub proof fn lemma_step_preserves_wf(
    nav: NavigationStateMachine,
    buf: Seq<char>,
    passages: Seq<Passage>,
    ev: KeyEvent,
)
    requires
        parts_wf(nav, buf, passages),
    ensures
        ({
            let (nav2, buf2) = TypingSession::step_parts(nav, buf, passages, ev);
            parts_wf(nav2, buf2, passages)
        }),
{
}

/// No sequence of key events can break the invariant: in particular the
/// input buffer never grows beyond the current passage's text.
pub proof fn lemma_run_preserves_wf(
    nav: NavigationStateMachine,
    buf: Seq<char>,
    passages: Seq<Passage>,
    evs: Seq<KeyEvent>,
)
    requires
        parts_wf(nav, buf, passages),
    ensures
        ({
            let (nav2, buf2) = run_events(nav, buf, passages, evs);
            parts_wf(nav2, buf2, passages)
        }),
    decreases evs.len(),
{
    if evs.len() > 0 {
        let (nav2, buf2) = TypingSession::step_parts(nav, buf, passages, evs[0]);
        lemma_step_preserves_wf(nav, buf, passages, evs[0]);
        lemma_run_preserves_wf(nav2, buf2, passages, evs.subrange(1, evs.len() as int));
    }
}

/// Character keys while typing never move the navigation state, and never
/// grow the buffer beyond the current passage's text length.
pub proof fn lemma_characters_bounded(
    nav: NavigationStateMachine,
    buf: Seq<char>,
    passages: Seq<Passage>,
    evs: Seq<KeyEvent>,
)
    requires
        parts_wf(nav, buf, passages),
        nav.mode == Mode::Typing,
        forall|i: int| 0 <= i < evs.len() ==> (#[trigger] evs[i]) is Character,
    ensures
        ({
            let (nav2, buf2) = run_events(nav, buf, passages, evs);
            nav2 == nav && buf2.len() <= passages[nav.current_index as int].text@.len()
        }),
    decreases evs.len(),
{
    if evs.len() > 0 {
        let (nav2, buf2) = TypingSession::step_parts(nav, buf, passages, evs[0]);
        assert(nav2 == nav);
        lemma_characters_bounded(nav2, buf2, passages, evs.subrange(1, evs.len() as int));
    }
}

/// A backspace or delete with a non-empty buffer shrinks it by exactly one
/// character; with an empty buffer it is a no-op.
pub proof fn lemma_erase_shrinks_by_one(
    nav: NavigationStateMachine,
    buf: Seq<char>,
    passages: Seq<Passage>,
)
    requires
        nav.mode == Mode::Typing,
    ensures
        ({
            let (nav2, buf2) = TypingSession::step_parts(nav, buf, passages, KeyEvent::Backspace);
            nav2 == nav && buf2.len() == if buf.len() > 0 {
                buf.len() - 1
            } else {
                0
            }
        }),
{
}

/// Repeated move-up events while selecting drive the cursor to the first
/// entry and keep it there: after any `n` at least the starting cursor,
/// the cursor is zero.
pub proof fn lemma_move_up_stabilizes(
    nav: NavigationStateMachine,
    buf: Seq<char>,
    passages: Seq<Passage>,
    n: nat,
)
    requires
        parts_wf(nav, buf, passages),
        nav.mode == Mode::Selecting,
        n >= nav.selection_cursor,
    ensures
        run_events(nav, buf, passages, repeat_event(KeyEvent::Up, n)).0.selection_cursor == 0,
    decreases n,
{
    if n == 0 {
        assert(repeat_event(KeyEvent::Up, 0).len() == 0);
    } else {
        let evs = repeat_event(KeyEvent::Up, n);
        let rest = repeat_event(KeyEvent::Up, (n - 1) as nat);
        assert(evs == seq![KeyEvent::Up] + rest);
        assert(evs[0] == KeyEvent::Up);
        assert(evs.subrange(1, evs.len() as int) =~= rest);
        let (nav2, buf2) = TypingSession::step_parts(nav, buf, passages, KeyEvent::Up);
        lemma_step_preserves_wf(nav, buf, passages, KeyEvent::Up);
        lemma_move_up_stabilizes(nav2, buf2, passages, (n - 1) as nat);
    }
}

/// Repeated move-down events while selecting drive the cursor to the last
/// entry and keep it there.
pub proof fn lemma_move_down_stabilizes(
    nav: NavigationStateMachine,
    buf: Seq<char>,
    passages: Seq<Passage>,
    n: nat,
)
    requires
        parts_wf(nav, buf, passages),
        nav.mode == Mode::Selecting,
        passages.len() > 0,
        n + nav.selection_cursor + 1 >= passages.len(),
    ensures
        run_events(nav, buf, passages, repeat_event(KeyEvent::Down, n)).0.selection_cursor
            == passages.len() - 1,
    decreases n,
{
    if n == 0 {
        assert(repeat_event(KeyEvent::Down, 0).len() == 0);
    } else {
        let evs = repeat_event(KeyEvent::Down, n);
        let rest = repeat_event(KeyEvent::Down, (n - 1) as nat);
        assert(evs == seq![KeyEvent::Down] + rest);
        assert(evs[0] == KeyEvent::Down);
        assert(evs.subrange(1, evs.len() as int) =~= rest);
        let (nav2, buf2) = TypingSession::step_parts(nav, buf, passages, KeyEvent::Down);
        lemma_step_preserves_wf(nav, buf, passages, KeyEvent::Down);
        assert(nav2 == nav.spec_move_down(passages.len()));
        if nav.selection_cursor + 1 < passages.len() {
            assert(nav2.selection_cursor == nav.selection_cursor + 1);
        } else {
            assert(nav2.selection_cursor == nav.selection_cursor);
            assert(nav.selection_cursor == passages.len() - 1);
        }
        lemma_move_down_stabilizes(nav2, buf2, passages, (n - 1) as nat);
    }
}

/// Leaving typing mode with escape always lands in selecting mode with the
/// list shown, before any later toggle.
pub proof fn lemma_escape_shows_list(
    nav: NavigationStateMachine,
    buf: Seq<char>,
    passages: Seq<Passage>,
)
    requires
        nav.mode == Mode::Typing,
    ensures
        ({
            let (nav2, buf2) = TypingSession::step_parts(nav, buf, passages, KeyEvent::Escape);
            nav2.mode == Mode::Selecting && nav2.list_visible && buf2 == buf
        }),
{
}

/// Confirming a selection (with any passage available) always lands in
/// typing mode with the list hidden and the buffer cleared, before any
/// later toggle.
pub proof fn lemma_confirm_hides_list(
    nav: NavigationStateMachine,
    buf: Seq<char>,
    passages: Seq<Passage>,
)
    requires
        nav.mode == Mode::Selecting,
        passages.len() > 0,
    ensures
        ({
            let (nav2, buf2) = TypingSession::step_parts(nav, buf, passages, KeyEvent::Enter);
            nav2.mode == Mode::Typing && !nav2.list_visible && nav2.current_index
                == nav.selection_cursor && buf2 == Seq::<char>::empty()
        }),
{
}

/// A passage flagged as finished never appears in the built set — and since
/// no transition touches the passage sequence, never at any later time
/// either.
pub proof fn lemma_finished_excluded(entries: Seq<Passage>)
    ensures
        forall|i: int|
            0 <= i < entries.filter(keep_pred()).len() ==> !(#[trigger] entries.filter(
                keep_pred(),
            )[i]).finished,
{
    assert forall|i: int| 0 <= i < entries.filter(keep_pred()).len() implies !(
    #[trigger] entries.filter(keep_pred())[i]).finished by {
        entries.lemma_filter_pred(keep_pred(), i);
    }
}

} // verus!
