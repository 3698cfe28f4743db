use vstd::prelude::*;

verus! {

/// The positional form a letter takes, or the reason it keeps its own character.
#[derive(Clone, Copy, Debug, PartialEq, Eq, Structural)]
pub enum LetterForm {
    Isolated,
    Initial,
    Medial,
    Final,
    /// Not a letter of the active table (or an already substituted ligature glyph).
    Unsupported,
    /// A letter left as it was written, in place of its isolated glyph.
    Unshaped,
}

impl LetterForm {
    /// Whether the form is one of the four positional glyph forms.
    pub open spec fn is_positional(self) -> bool {
        self is Isolated || self is Initial || self is Medial || self is Final
    }
}

/// The four positional glyphs of a letter or ligature; `'\0'` marks a form that
/// does not exist (the letter does not connect on that side).
#[derive(Clone, Copy, Debug, PartialEq, Eq, Structural)]
pub struct Forms {
    pub isolated: char,
    pub initial: char,
    pub medial: char,
    pub end: char,
}

/// A letter of a letter table, with its positional glyphs.
pub type LettersType = (char, Forms);

/// The character that stands for "no such form".
pub const NO_FORM: char = '\0';

impl Forms {
    /// The glyph for a positional form; `'\0'` for the non-positional tags.
    pub open spec fn glyph(self, form: LetterForm) -> char {
        match form {
            LetterForm::Isolated => self.isolated,
            LetterForm::Initial => self.initial,
            LetterForm::Medial => self.medial,
            LetterForm::Final => self.end,
            _ => NO_FORM,
        }
    }

    /// A letter's forms are usable by the join pass: it has an isolated glyph,
    /// and a letter that can sit between two others can also start and end a run.
    pub open spec fn wf(self) -> bool {
        &&& self.isolated != NO_FORM
        &&& self.medial != NO_FORM ==> self.initial != NO_FORM && self.end != NO_FORM
    }

    pub fn new(isolated: char, initial: char, medial: char, end: char) -> (r: Self)
        ensures
            r == (Forms { isolated, initial, medial, end }),
    {
        Forms { isolated, initial, medial, end }
    }

    /// The glyph for `form`.
    pub fn get(&self, form: LetterForm) -> (r: char)
        requires
            form.is_positional(),
        ensures
            r == self.glyph(form),
    {
        match form {
            LetterForm::Isolated => self.isolated,
            LetterForm::Initial => self.initial,
            LetterForm::Medial => self.medial,
            _ => self.end,
        }
    }
}

} // verus!
