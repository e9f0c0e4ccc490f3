//! Colors and the render style: a small value type with named channels for
//! each color, and the set of colors the renderer needs, with their defaults.

use vstd::prelude::*;

verus! {

/// One color with named channels.
#[derive(Clone, Copy, Debug, PartialEq, Eq, Structural)]
pub struct Rgba {
    pub red: u8,
    pub green: u8,
    pub blue: u8,
    pub alpha: u8,
}

impl Rgba {
    pub fn new(red: u8, green: u8, blue: u8, alpha: u8) -> (c: Rgba)
        ensures
            c == (Rgba { red, green, blue, alpha }),
    {
        Rgba { red, green, blue, alpha }
    }
}

/// The semantic role of a rendered character; the host maps each role to a
/// concrete color through [`Style::color_of`].
#[derive(Clone, Copy, Debug, PartialEq, Eq, Structural)]
pub enum TextRole {
    /// A correctly typed character.
    Correct,
    /// A mistyped character.
    Error,
    /// A not-yet-typed character, or an unselected list entry.
    Shadow,
    /// The label of the displayed passage.
    Label,
}

/// The colors used when rendering.
#[derive(Clone, Copy, Debug, PartialEq, Eq, Structural)]
pub struct Style {
    pub spell_error: Rgba,
    pub spell_correct: Rgba,
    pub shadow_text: Rgba,
    pub background: Rgba,
    pub word_color: Rgba,
}

impl Style {
    /// The default color set.
    pub open spec fn spec_default() -> Style {
        Style {
            spell_error: Rgba { red: 200, green: 30, blue: 20, alpha: 90 },
            spell_correct: Rgba { red: 40, green: 200, blue: 50, alpha: 90 },
            shadow_text: Rgba { red: 169, green: 169, blue: 169, alpha: 100 },
            background: Rgba { red: 65, green: 105, blue: 225, alpha: 100 },
            word_color: Rgba { red: 40, green: 200, blue: 50, alpha: 90 },
        }
    }

    /// The color a [`TextRole`] resolves to under this style. List entries
    /// share the correct/shadow colors: the selected entry is drawn like
    /// correct text, the others like pending text.
    pub open spec fn spec_color_of(self, role: TextRole) -> Rgba {
        match role {
            TextRole::Correct => self.spell_correct,
            TextRole::Error => self.spell_error,
            TextRole::Shadow => self.shadow_text,
            TextRole::Label => self.word_color,
        }
    }

    pub fn color_of(&self, role: TextRole) -> (c: Rgba)
        ensures
            c == self.spec_color_of(role),
    {
        match role {
            TextRole::Correct => self.spell_correct,
            TextRole::Error => self.spell_error,
            TextRole::Shadow => self.shadow_text,
            TextRole::Label => self.word_color,
        }
    }
}

impl Default for Style {
    fn default() -> (s: Style)
        ensures
            s == Style::spec_default(),
    {
        Style {
            spell_error: Rgba::new(200, 30, 20, 90),
            spell_correct: Rgba::new(40, 200, 50, 90),
            shadow_text: Rgba::new(169, 169, 169, 100),
            background: Rgba::new(65, 105, 225, 100),
            word_color: Rgba::new(40, 200, 50, 90),
        }
    }
}

} // verus!
