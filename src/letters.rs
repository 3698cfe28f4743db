//! Letter tables and the join predicates read from them.
use vstd::prelude::*;

use crate::config::Language;
use crate::form::{Forms, LetterForm, LettersType};

pub mod letters_db;

verus! {

/// The forms of the first entry of `t` whose key is `c`.
pub open spec fn lookup(t: Seq<LettersType>, c: char) -> Option<Forms>
    decreases t.len(),
{
    if t.len() == 0 {
        None
    } else if t[0].0 == c {
        Some(t[0].1)
    } else {
        lookup(t.drop_first(), c)
    }
}

/// Whether `c` is a key of `t`.
pub open spec fn has_key(t: Seq<LettersType>, c: char) -> bool {
    exists|i: int| 0 <= i < t.len() && t[i].0 == c
}

/// Every letter of the table has forms that the join pass can use.
pub open spec fn table_wf(t: Seq<LettersType>) -> bool {
    forall|i: int| 0 <= i < t.len() ==> (#[trigger] t[i]).1.wf()
}

/// `c` is a letter that can join to a letter before it.
pub open spec fn joins_before(t: Seq<LettersType>, c: char) -> bool {
    match lookup(t, c) {
        Some(f) => f.end != '\0' || f.medial != '\0',
        None => false,
    }
}

/// `c` is a letter that can join to a letter after it.
pub open spec fn joins_after(t: Seq<LettersType>, c: char) -> bool {
    match lookup(t, c) {
        Some(f) => f.initial != '\0' || f.medial != '\0',
        None => false,
    }
}

/// `c` is a letter that can join on both sides.
pub open spec fn joins_both(t: Seq<LettersType>, c: char) -> bool {
    match lookup(t, c) {
        Some(f) => f.medial != '\0',
        None => false,
    }
}

/// The letter table that a language selects.
pub open spec fn table_of(language: Language) -> Seq<LettersType> {
    match language {
        Language::Arabic => letters_db::letters_arabic_spec(),
        Language::ArabicV2 => letters_db::letters_arabic_v2_spec(),
        Language::Kurdish => letters_db::letters_kurdish_spec(),
        Language::Custom(t) => t@,
    }
}

/// A key found in a table is found by `lookup`, and the other way round.
pub proof fn lemma_lookup_has_key(t: Seq<LettersType>, c: char)
    ensures
        lookup(t, c) is Some <==> has_key(t, c),
        lookup(t, c) is Some ==> exists|i: int| 0 <= i < t.len() && t[i].0 == c && t[i].1 == lookup(t, c)->0,
    decreases t.len(),
{
    if t.len() > 0 && t[0].0 != c {
        lemma_lookup_has_key(t.drop_first(), c);
        if has_key(t, c) {
            let i = choose|i: int| 0 <= i < t.len() && t[i].0 == c;
            assert(t.drop_first()[i - 1].0 == c);
        }
        if lookup(t, c) is Some {
            let j = choose|j: int| 0 <= j < t.len() - 1 && t.drop_first()[j].0 == c && t.drop_first()[j].1 == lookup(t, c)->0;
            assert(t[j + 1] == t.drop_first()[j]);
        }
    }
}

/// Forms found in a well-formed table are well-formed.
pub proof fn lemma_lookup_wf(t: Seq<LettersType>, c: char)
    requires
        table_wf(t),
    ensures
        lookup(t, c) matches Some(f) ==> f.wf(),
{
    lemma_lookup_has_key(t, c);
}

/// The letter table of the engine: each lookup scans it in order.
#[derive(Clone)]
pub struct Letters(pub Vec<LettersType>);

impl View for Letters {
    type V = Seq<LettersType>;

    open spec fn view(&self) -> Seq<LettersType> {
        self.0@
    }
}

/// The table of a language, as a new vector.
fn table_for(language: &Language) -> (r: Vec<LettersType>)
    ensures
        r@ == table_of(*language),
        !(language is Custom) ==> table_wf(r@),
{
    match language {
        Language::Arabic => letters_db::letters_arabic(),
        Language::ArabicV2 => letters_db::letters_arabic_v2(),
        Language::Kurdish => letters_db::letters_kurdish(),
        Language::Custom(t) => {
            let mut v: Vec<LettersType> = Vec::new();
            let mut i: usize = 0;
            while i < t.len()
                invariant
                    i <= t.len(),
                    v@ == t@.subrange(0, i as int),
                decreases t.len() - i,
            {
                v.push(t[i]);
                i += 1;
                assert(v@ =~= t@.subrange(0, i as int));
            }
            assert(v@ =~= t@);
            v
        },
    }
}

impl Default for Letters {
    /// The Arabic letters.
    fn default() -> (r: Self)
        ensures
            r@ == table_of(Language::Arabic),
            table_wf(r@),
    {
        Letters(letters_db::letters_arabic())
    }
}

impl Letters {
    /// The letters of the given language.
    pub fn new(language: &Language) -> (r: Self)
        ensures
            r@ == table_of(*language),
            !(language is Custom) ==> table_wf(r@),
    {
        Letters(table_for(language))
    }

    /// Switch to the letters of another language.
    pub fn change_language(&mut self, language: &Language)
        ensures
            final(self)@ == table_of(*language),
            !(language is Custom) ==> table_wf(final(self)@),
    {
        self.0 = table_for(language);
    }

    /// Whether `key` is a letter of the table.
    pub fn contains_key(&self, key: &char) -> (r: bool)
        ensures
            r == has_key(self@, *key),
    {
        let mut i: usize = 0;
        while i < self.0.len()
            invariant
                i <= self@.len(),
                forall|j: int| 0 <= j < i ==> self@[j].0 != *key,
            decreases self@.len() - i,
        {
            if self.0[i].0 == *key {
                return true;
            }
            i += 1;
        }
        false
    }

    /// The forms of `key`, if it is a letter of the table.
    pub fn get(&self, key: &char) -> (r: Option<Forms>)
        ensures
            r == lookup(self@, *key),
    {
        let mut i: usize = 0;
        assert(self@.subrange(0, self@.len() as int) =~= self@);
        while i < self.0.len()
            invariant
                i <= self@.len(),
                lookup(self@, *key) == lookup(self@.subrange(i as int, self@.len() as int), *key),
            decreases self@.len() - i,
        {
            assert(self@.subrange(i as int, self@.len() as int).drop_first() =~= self@.subrange(i + 1, self@.len() as int));
            if self.0[i].0 == *key {
                return Some(self.0[i].1);
            }
            i += 1;
        }
        None
    }

    /// The glyph that `letter` takes in `form`; the letter itself for the
    /// non-positional tags. A positional form must exist for the letter.
    pub fn get_form(&self, letter: char, form: LetterForm) -> (r: char)
        requires
            form.is_positional() ==> lookup(self@, letter) is Some && lookup(self@, letter)->0.glyph(form) != '\0',
        ensures
            r == (if form.is_positional() { lookup(self@, letter)->0.glyph(form) } else { letter }),
            form.is_positional() ==> r != '\0',
    {
        match form {
            LetterForm::Unshaped | LetterForm::Unsupported => letter,
            _ => {
                let forms = self.get(&letter);
                match forms {
                    Some(f) => f.get(form),
                    None => letter,
                }
            },
        }
    }

    /// Whether `letter` can join to a letter before it.
    pub fn connects_with_letter_before(&self, letter: char) -> (r: bool)
        ensures
            r == joins_before(self@, letter),
    {
        match self.get(&letter) {
            Some(f) => f.end != '\0' || f.medial != '\0',
            None => false,
        }
    }

    /// Whether `letter` can join to a letter after it.
    pub fn connects_with_letter_after(&self, letter: char) -> (r: bool)
        ensures
            r == joins_after(self@, letter),
    {
        match self.get(&letter) {
            Some(f) => f.initial != '\0' || f.medial != '\0',
            None => false,
        }
    }

    /// Whether `letter` can join on both sides.
    pub fn connects_with_letters_before_and_after(&self, letter: char) -> (r: bool)
        ensures
            r == joins_both(self@, letter),
    {
        match self.get(&letter) {
            Some(f) => f.medial != '\0',
            None => false,
        }
    }
}

} // verus!
