//! The diff classifier: a pure function from the target text and the typed
//! text to one verdict per target position. For position `i`: if the user
//! has typed past it, the typed character is compared with the target
//! character; otherwise the position is still pending. A mistyped position
//! displays the target character, except that a mistyped space displays an
//! underscore so the miss stays visible.

use vstd::prelude::*;

verus! {

/// The verdict for one target position.
#[derive(Clone, Copy, Debug, PartialEq, Eq, Structural)]
pub enum Classification {
    Correct,
    Incorrect,
    Pending,
}

/// One classified target position: the verdict and the character to display
/// there.
#[derive(Clone, Copy, Debug, PartialEq, Eq, Structural)]
pub struct Mark {
    pub class: Classification,
    pub display: char,
}

/// The verdict at position `i` of `text`, given the typed prefix `typed`.
pub open spec fn classification_at(text: Seq<char>, typed: Seq<char>, i: int) -> Classification {
    if i < typed.len() {
        if typed[i] == text[i] {
            Classification::Correct
        } else {
            Classification::Incorrect
        }
    } else {
        Classification::Pending
    }
}

/// The character displayed at position `i`: the typed character when it is
/// correct, the target character when pending or mistyped, with an
/// underscore standing in for a mistyped space.
pub open spec fn display_at(text: Seq<char>, typed: Seq<char>, i: int) -> char {
    if i < typed.len() && typed[i] == text[i] {
        typed[i]
    } else if i < typed.len() && text[i] == ' ' {
        '_'
    } else {
        text[i]
    }
}

/// The full classified entry at position `i`.
pub open spec fn mark_at(text: Seq<char>, typed: Seq<char>, i: int) -> Mark {
    Mark { class: classification_at(text, typed, i), display: display_at(text, typed, i) }
}

/// Classifies every position of `text` against `typed`: one entry per code
/// point of `text`, in document order. Pure: the result is a function of the
/// two arguments alone, so it can be re-derived every frame.
pub fn classify(text: &Vec<char>, typed: &Vec<char>) -> (marks: Vec<Mark>)
    ensures
        marks@.len() == text@.len(),
        forall|i: int| 0 <= i < text@.len() ==> marks@[i] == mark_at(text@, typed@, i),
{
    let mut marks: Vec<Mark> = Vec::new();
    let mut i: usize = 0;
    while i < text.len()
        invariant
            i <= text@.len(),
            marks@.len() == i,
            forall|j: int| 0 <= j < i ==> marks@[j] == mark_at(text@, typed@, j),
        decreases text@.len() - i,
    {
        let target = text[i];
        let mark = if i < typed.len() {
            let entered = typed[i];
            if entered == target {
                Mark { class: Classification::Correct, display: entered }
            } else if target == ' ' {
                Mark { class: Classification::Incorrect, display: '_' }
            } else {
                Mark { class: Classification::Incorrect, display: target }
            }
        } else {
            Mark { class: Classification::Pending, display: target }
        };
        proof {
            assert(mark == mark_at(text@, typed@, i as int));
        }
        marks.push(mark);
        i = i + 1;
    }
    marks
}

} // verus!
