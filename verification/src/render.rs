//! The render projections: pure views of a session, recomputed every frame.
//!
//! [`TypingSession::render_model`] gives the structured picture: the
//! passage list with the cursor highlighted (when visible), the computed
//! left margin, the displayed passage's label, and the classifier output
//! for it. [`TypingSession::render_cells`] flattens the same picture into
//! positioned cells, one per visible character, for a host that paints a
//! character grid. Neither mutates the session, and both results are pinned
//! to a spec-level function of the state alone.

use vstd::prelude::*;

use crate::diff::Mark;
use crate::diff::Classification;
use crate::diff::classification_at;
use crate::diff::display_at;
use crate::diff::mark_at;
use crate::diff::classify;
use crate::nav::Mode;
use crate::passage::Passage;
use crate::session::TypingSession;
use crate::style::Rgba;
use crate::style::TextRole;

verus! {

/// Columns of padding between the longest list label and the passage text.
pub const LIST_PADDING: usize = 5;

/// Rows of margin above the passage text.
pub const TOP_MARGIN: usize = 10;

/// One entry of the rendered passage list.
#[derive(Debug, PartialEq, Eq)]
pub struct ListEntry {
    pub label: Vec<char>,
    pub selected: bool,
}

/// The structured picture of one frame.
#[derive(Debug, PartialEq, Eq)]
pub struct RenderModel {
    /// The fill color behind everything.
    pub background: Rgba,
    /// Whether the passage list is shown.
    pub list_visible: bool,
    /// The list entries, in passage order; empty when the list is hidden.
    pub entries: Vec<ListEntry>,
    /// Columns reserved for the list: longest label plus padding when the
    /// list is shown, zero otherwise.
    pub left_margin: usize,
    /// The displayed passage's label; empty when the set is empty.
    pub title: Vec<char>,
    /// The classifier output for the displayed passage against the current
    /// input; empty when the set is empty.
    pub marks: Vec<Mark>,
}

/// One positioned character for a grid renderer.
#[derive(Clone, Copy, Debug, PartialEq, Eq, Structural)]
pub struct Cell {
    pub col: usize,
    pub row: usize,
    pub ch: char,
    pub role: TextRole,
}

/// Addition that saturates at the machine limit, so that a column or row
/// never leaves `usize` however wide the content is.
pub open spec fn sat_add_spec(a: nat, b: nat) -> nat {
    if a + b > usize::MAX {
        usize::MAX as nat
    } else {
        a + b
    }
}

pub fn sat_add(a: usize, b: usize) -> (r: usize)
    ensures
        r == sat_add_spec(a as nat, b as nat),
{
    if a <= usize::MAX - b {
        a + b
    } else {
        usize::MAX
    }
}

/// The length of the longest label among `ps`; zero for an empty set.
pub open spec fn max_label_len(ps: Seq<Passage>) -> nat
    decreases ps.len(),
{
    if ps.len() == 0 {
        0
    } else {
        let rest = max_label_len(ps.drop_last());
        if ps.last().label@.len() > rest {
            ps.last().label@.len()
        } else {
            rest
        }
    }
}

/// The semantic role of the character displayed at position `i`.
pub open spec fn role_at(text: Seq<char>, typed: Seq<char>, i: int) -> TextRole {
    match classification_at(text, typed, i) {
        Classification::Correct => TextRole::Correct,
        Classification::Incorrect => TextRole::Error,
        Classification::Pending => TextRole::Shadow,
    }
}

/// The character at position `i` of `chars`.
pub open spec fn char_at(chars: Seq<char>, i: int) -> char {
    chars[i]
}

/// One row of characters starting at column `col0`; the suffix from
/// character `i`.
pub open spec fn row_cells_from(
    chars: Seq<char>,
    col0: usize,
    row: usize,
    role: TextRole,
    i: int,
) -> Seq<Cell>
    decreases chars.len() - i,
{
    if i < 0 || i >= chars.len() {
        Seq::empty()
    } else {
        seq![
            Cell {
                col: sat_add_spec(col0 as nat, i as nat) as usize,
                row: row,
                ch: char_at(chars, i),
                role: role,
            },
        ] + row_cells_from(chars, col0, row, role, i + 1)
    }
}

/// One row of characters starting at column `col0`.
pub open spec fn row_cells(chars: Seq<char>, col0: usize, row: usize, role: TextRole) -> Seq<Cell> {
    row_cells_from(chars, col0, row, role, 0)
}

/// The passage list, one label per row from row zero, the cursor's entry in
/// the correct-text color and the rest shadowed; the suffix from entry `i`.
pub open spec fn list_cells(ps: Seq<Passage>, cursor: int, i: int) -> Seq<Cell>
    decreases ps.len() - i,
{
    if i < 0 || i >= ps.len() {
        Seq::empty()
    } else {
        row_cells(
            ps[i].label@,
            0,
            i as usize,
            if i == cursor {
                TextRole::Correct
            } else {
                TextRole::Shadow
            },
        ) + list_cells(ps, cursor, i + 1)
    }
}

/// The displayed passage's classified text from position `i`, laid out line
/// by line below the top margin and right of the list margin: a newline
/// advances the row and resets the column without emitting a cell.
pub open spec fn body_cells(
    text: Seq<char>,
    typed: Seq<char>,
    margin: usize,
    i: int,
    row: nat,
    col: nat,
) -> Seq<Cell>
    decreases text.len() - i,
{
    if i < 0 || i >= text.len() {
        Seq::empty()
    } else if text[i] == '\n' {
        body_cells(text, typed, margin, i + 1, row + 1, 0)
    } else {
        seq![
            Cell {
                col: sat_add_spec(margin as nat, col) as usize,
                row: sat_add_spec(TOP_MARGIN as nat, row) as usize,
                ch: display_at(text, typed, i),
                role: role_at(text, typed, i),
            },
        ] + body_cells(text, typed, margin, i + 1, row, col + 1)
    }
}

impl TypingSession {
    /// The passage shown on screen: the cursor's while selecting, the
    /// committed one while typing.
    pub open spec fn displayed_index(self) -> int {
        if self.nav.mode == Mode::Selecting {
            self.nav.selection_cursor as int
        } else {
            self.nav.current_index as int
        }
    }

    pub open spec fn displayed_label(self) -> Seq<char> {
        if self.count() > 0 {
            self.passages.passages@[self.displayed_index()].label@
        } else {
            Seq::empty()
        }
    }

    pub open spec fn displayed_text(self) -> Seq<char> {
        if self.count() > 0 {
            self.passages.passages@[self.displayed_index()].text@
        } else {
            Seq::empty()
        }
    }

    /// The columns reserved for the list when it is shown.
    pub open spec fn margin_of(self) -> nat {
        if self.nav.list_visible {
            sat_add_spec(max_label_len(self.passages.passages@), LIST_PADDING as nat)
        } else {
            0
        }
    }

    /// What a correct frame shows for state `self`: every observable field
    /// of the model is an exact function of the state, so any two models of
    /// the same state agree.
    pub open spec fn matches_render(self, m: RenderModel) -> bool {
        &&& m.background == self.style.background
        &&& m.list_visible == self.nav.list_visible
        &&& m.left_margin == self.margin_of()
        &&& m.entries@.len() == if self.nav.list_visible {
            self.count()
        } else {
            0
        }
        &&& forall|i: int|
            0 <= i < m.entries@.len() ==> (#[trigger] m.entries@[i]).label@
                == self.passages.passages@[i].label@ && m.entries@[i].selected == (i
                == self.nav.selection_cursor as int)
        &&& m.title@ == self.displayed_label()
        &&& m.marks@.len() == self.displayed_text().len()
        &&& forall|i: int|
            0 <= i < m.marks@.len() ==> #[trigger] m.marks@[i] == mark_at(
                self.displayed_text(),
                self.buffer.content@,
                i,
            )
    }

    /// The whole frame as positioned cells: the list (when visible), then
    /// the displayed passage's label on the top row right of the margin,
    /// then its classified text below the top margin.
    pub open spec fn cells_spec(self) -> Seq<Cell> {
        (if self.nav.list_visible {
            list_cells(self.passages.passages@, self.nav.selection_cursor as int, 0)
        } else {
            Seq::empty()
        }) + (if self.count() > 0 {
            row_cells(self.displayed_label(), self.margin_of() as usize, 0, TextRole::Label)
                + body_cells(
                self.displayed_text(),
                self.buffer.content@,
                self.margin_of() as usize,
                0,
                0,
                0,
            )
        } else {
            Seq::empty()
        })
    }

    /// The left margin: the longest label plus the fixed padding while the
    /// list is visible, zero otherwise.
    pub fn list_margin(&self) -> (w: usize)
        ensures
            w == self.margin_of(),
    {
        if !self.nav.list_visible {
            return 0;
        }
        let ghost ps = self.passages.passages@;
        let mut longest: usize = 0;
        let mut i: usize = 0;
        proof {
            assert(ps.take(0) =~= Seq::<Passage>::empty());
        }
        while i < self.passages.passages.len()
            invariant
                i <= ps.len(),
                ps == self.passages.passages@,
                longest == max_label_len(ps.take(i as int)),
            decreases ps.len() - i,
        {
            let len = self.passages.passages[i].label.len();
            if len > longest {
                longest = len;
            }
            proof {
                assert(ps.take(i + 1).drop_last() =~= ps.take(i as int));
                assert(ps.take(i + 1).last() == ps[i as int]);
            }
            i = i + 1;
        }
        proof {
            assert(ps.take(ps.len() as int) =~= ps);
        }
        sat_add(longest, LIST_PADDING)
    }

    /// Builds the frame model. Pure: the result is a function of the state
    /// alone, so two calls without an intervening event agree.
    pub fn render_model(&self) -> (m: RenderModel)
        requires
            self.wf(),
        ensures
            self.matches_render(m),
    {
        let left_margin = self.list_margin();
        let mut entries: Vec<ListEntry> = Vec::new();
        if self.nav.list_visible {
            let mut i: usize = 0;
            while i < self.passages.passages.len()
                invariant
                    i <= self.passages.passages@.len(),
                    entries@.len() == i,
                    forall|j: int|
                        0 <= j < i ==> (#[trigger] entries@[j]).label@
                            == self.passages.passages@[j].label@ && entries@[j].selected == (j
                            == self.nav.selection_cursor as int),
                decreases self.passages.passages@.len() - i,
            {
                let label = clone_chars(&self.passages.passages[i].label);
                let selected = i == self.nav.selection_cursor;
                entries.push(ListEntry { label, selected });
                i = i + 1;
            }
        }
        let (title, marks) = if self.passages.passages.len() > 0 {
            let shown = if matches!(self.nav.mode, Mode::Selecting) {
                self.passages.passage(self.nav.selection_cursor)
            } else {
                self.passages.passage(self.nav.current_index)
            };
            (clone_chars(&shown.label), classify(&shown.text, &self.buffer.content))
        } else {
            (Vec::new(), Vec::new())
        };
        RenderModel {
            background: self.style.background,
            list_visible: self.nav.list_visible,
            entries,
            left_margin,
            title,
            marks,
        }
    }

    /// Flattens the frame into positioned cells.
    pub fn render_cells(&self) -> (out: Vec<Cell>)
        requires
            self.wf(),
        ensures
            out@ == self.cells_spec(),
    {
        let margin = self.list_margin();
        let mut out: Vec<Cell> = Vec::new();
        if self.nav.list_visible {
            let ghost ps = self.passages.passages@;
            let ghost cursor = self.nav.selection_cursor as int;
            let mut wi: usize = 0;
            while wi < self.passages.passages.len()
                invariant
                    wi <= ps.len(),
                    ps == self.passages.passages@,
                    cursor == self.nav.selection_cursor as int,
                    out@ + list_cells(ps, cursor, wi as int) == list_cells(ps, cursor, 0),
                decreases ps.len() - wi,
            {
                let ghost before = out@;
                let role = if wi == self.nav.selection_cursor {
                    TextRole::Correct
                } else {
                    TextRole::Shadow
                };
                push_row(&mut out, &self.passages.passages[wi].label, 0, wi, role);
                proof {
                    let head = row_cells(
                        ps[wi as int].label@,
                        0,
                        wi,
                        if wi as int == cursor {
                            TextRole::Correct
                        } else {
                            TextRole::Shadow
                        },
                    );
                    assert(list_cells(ps, cursor, wi as int) == head + list_cells(
                        ps,
                        cursor,
                        wi + 1,
                    ));
                    assert((before + head) + list_cells(ps, cursor, wi + 1) =~= before + (head
                        + list_cells(ps, cursor, wi + 1)));
                }
                wi = wi + 1;
            }
        }
        if self.passages.passages.len() > 0 {
            let shown = if matches!(self.nav.mode, Mode::Selecting) {
                self.passages.passage(self.nav.selection_cursor)
            } else {
                self.passages.passage(self.nav.current_index)
            };
            let ghost after_list = out@;
            push_row(&mut out, &shown.label, margin, 0, TextRole::Label);
            let ghost text = shown.text@;
            let ghost typed = self.buffer.content@;
            let ghost base = out@;
            let mut i: usize = 0;
            let mut row: usize = 0;
            let mut col: usize = 0;
            while i < shown.text.len()
                invariant
                    i <= text.len(),
                    text == shown.text@,
                    typed == self.buffer.content@,
                    col <= i,
                    row <= i,
                    out@ + body_cells(text, typed, margin, i as int, row as nat, col as nat) == base
                        + body_cells(text, typed, margin, 0, 0, 0),
                decreases text.len() - i,
            {
                let target = shown.text[i];
                if target == '\n' {
                    row = row + 1;
                    col = 0;
                } else {
                    let (display, role) = if i < self.buffer.content.len() {
                        let entered = self.buffer.content[i];
                        if entered == target {
                            (entered, TextRole::Correct)
                        } else if target == ' ' {
                            ('_', TextRole::Error)
                        } else {
                            (target, TextRole::Error)
                        }
                    } else {
                        (target, TextRole::Shadow)
                    };
                    let cell = Cell {
                        col: sat_add(margin, col),
                        row: sat_add(TOP_MARGIN, row),
                        ch: display,
                        role,
                    };
                    proof {
                        let ghost prev = out@;
                        assert(cell == (Cell {
                            col: sat_add_spec(margin as nat, col as nat) as usize,
                            row: sat_add_spec(TOP_MARGIN as nat, row as nat) as usize,
                            ch: display_at(text, typed, i as int),
                            role: role_at(text, typed, i as int),
                        }));
                        assert(body_cells(text, typed, margin, i as int, row as nat, col as nat)
                            == seq![cell] + body_cells(
                            text,
                            typed,
                            margin,
                            i + 1,
                            row as nat,
                            (col + 1) as nat,
                        ));
                        assert((prev + seq![cell]) + body_cells(
                            text,
                            typed,
                            margin,
                            i + 1,
                            row as nat,
                            (col + 1) as nat,
                        ) =~= prev + (seq![cell] + body_cells(
                            text,
                            typed,
                            margin,
                            i + 1,
                            row as nat,
                            (col + 1) as nat,
                        )));
                        assert(prev.push(cell) =~= prev + seq![cell]);
                    }
                    out.push(cell);
                    col = col + 1;
                }
                i = i + 1;
            }
        }
        proof {
            assert(out@ =~= self.cells_spec());
        }
        out
    }
}

/// A fresh vector with the same characters.
fn clone_chars(v: &Vec<char>) -> (r: Vec<char>)
    ensures
        r@ == v@,
{
    let mut r: Vec<char> = Vec::new();
    let mut i: usize = 0;
    while i < v.len()
        invariant
            i <= v@.len(),
            r@ == v@.take(i as int),
        decreases v@.len() - i,
    {
        r.push(v[i]);
        proof {
            assert(v@.take(i + 1) =~= v@.take(i as int).push(v@[i as int]));
        }
        i = i + 1;
    }
    proof {
        assert(v@.take(v@.len() as int) =~= v@);
    }
    r
}

/// Appends one row of characters to `out`, starting at column `col0`.
fn push_row(out: &mut Vec<Cell>, chars: &Vec<char>, col0: usize, row: usize, role: TextRole)
    ensures
        final(out)@ == old(out)@ + row_cells(chars@, col0, row, role),
{
    let ghost base = old(out)@;
    let mut i: usize = 0;
    proof {
        assert(base + row_cells_from(chars@, col0, row, role, 0) =~= base + row_cells(
            chars@,
            col0,
            row,
            role,
        ));
    }
    while i < chars.len()
        invariant
            i <= chars@.len(),
            out@ + row_cells_from(chars@, col0, row, role, i as int) == base + row_cells(
                chars@,
                col0,
                row,
                role,
            ),
        decreases chars@.len() - i,
    {
        let cell = Cell { col: sat_add(col0, i), row, ch: chars[i], role };
        proof {
            let ghost prev = out@;
            assert(row_cells_from(chars@, col0, row, role, i as int) == seq![cell]
                + row_cells_from(chars@, col0, row, role, i + 1));
            assert((prev + seq![cell]) + row_cells_from(chars@, col0, row, role, i + 1) =~= prev + (
            seq![cell] + row_cells_from(chars@, col0, row, role, i + 1)));
            assert(prev.push(cell) =~= prev + seq![cell]);
        }
        out.push(cell);
        i = i + 1;
    }
    proof {
        assert(out@ + row_cells_from(chars@, col0, row, role, chars@.len() as int) =~= out@);
    }
}

} // verus!
