//! The reshaping engine.
use vstd::prelude::*;
use vstd::std_specs::iter::IteratorSpec;

use crate::config::{default_config, Language, ReshaperConfig};
use crate::form::{Forms, LetterForm, LettersType};
use crate::letters::letters_db::{TATWEEL, ZWJ};
use crate::letters::{has_key, lemma_lookup_has_key, table_of, table_wf, Letters};
use crate::ligatures::{
    lemma_ligatures_len, ligatures, ligatures_spec, ligatures_wf, table_view, Ligature,
};
use crate::laws::{lemma_shaped_cells_ok, slot_ok};
use crate::shaping::{
    add_mark, apply_ligatures, apply_patterns, assemble, cell_form, cells_of, cleaned,
    join_pass, join_prefix, ligature_form, mark_at, needs_reshape, occurs_at, pad_marks, place,
    reshape_spec, scan, shaped_cells, substitute, vacate, lemma_cells_of, Slot, Symbol,
};

verus! {

broadcast use vstd::string::group_string_axioms;

/// Relies on `String::push`: the character is appended.
#[verifier::external_body]
fn push_char(s: &mut String, c: char)
    ensures
        final(s)@ == old(s)@.push(c),
{
    s.push(c);
}

/// The characters of `text`, in order.
fn text_chars(text: &str) -> (r: Vec<char>)
    ensures
        r@ == text@,
{
    let mut it = text.chars();
    let mut r: Vec<char> = Vec::new();
    loop
        invariant
            r@ + it.remaining() == text@,
            it.decrease() is Some,
        ensures
            r@ == text@,
        decreases it.decrease()->0,
    {
        match it.next() {
            Some(c) => {
                r.push(c);
            },
            None => {
                assert(r@ =~= text@);
                break;
            },
        }
    }
    r
}

/// Whether `c` is a haraka: an Arabic combining mark.
pub fn is_harakat(c: char) -> (r: bool)
    ensures
        r == crate::shaping::is_harakat(c),
{
    let v = c as u32;
    (0x0610 <= v && v <= 0x061a) || (0x064b <= v && v <= 0x065f) || v == 0x0670 || (0x06d6 <= v
        && v <= 0x06dc) || (0x06df <= v && v <= 0x06e8) || (0x06ea <= v && v <= 0x06ed) || (0x08d4
        <= v && v <= 0x08e1) || (0x08d4 <= v && v <= 0x08ed) || (0x08e3 <= v && v <= 0x08ff)
}

/// The buckets of harakat as sequences.
pub open spec fn marks_view(m: Seq<Vec<char>>) -> Seq<Seq<char>> {
    m.map_values(|v: Vec<char>| v@)
}

/// `new` differs from `old` only where a ligature took cells.
pub open spec fn only_taken(old: Seq<Slot>, new: Seq<Slot>) -> bool {
    &&& new.len() == old.len()
    &&& forall|i: int| 0 <= i < new.len() && (#[trigger] new[i]) is Letter ==> new[i] == old[i]
}

/// Add `c` to bucket `k`.
fn push_mark(marks: &mut Vec<Vec<char>>, k: usize, c: char, front: bool)
    ensures
        marks_view(final(marks)@) == add_mark(marks_view(old(marks)@), k as int, c, front),
{
    while marks.len() <= k
        invariant
            pad_marks(marks_view(marks@), k as int) == pad_marks(marks_view(old(marks)@), k as int),
        decreases k + 1 - marks@.len(),
    {
        let ghost before = marks_view(marks@);
        marks.push(Vec::new());
        assert(marks_view(marks@) =~= before.push(Seq::empty()));
    }
    assert(pad_marks(marks_view(marks@), k as int) == marks_view(marks@));
    let mut bucket: Vec<char> = Vec::new();
    if front {
        bucket.push(c);
    }
    let ghost start = bucket@;
    let mut j: usize = 0;
    while j < marks[k].len()
        invariant
            k < marks@.len(),
            j <= marks@[k as int]@.len(),
            bucket@ == start + marks@[k as int]@.subrange(0, j as int),
        decreases marks@[k as int]@.len() - j,
    {
        bucket.push(marks[k][j]);
        j += 1;
        assert(bucket@ =~= start + marks@[k as int]@.subrange(0, j as int));
    }
    if !front {
        bucket.push(c);
    }
    let ghost padded = marks_view(marks@);
    assert(marks@[k as int]@.subrange(0, j as int) =~= padded[k as int]);
    marks.set(k, bucket);
    assert(marks_view(marks@) =~= add_mark(marks_view(old(marks)@), k as int, c, front));
}

/// The harakat of bucket `k`, appended to `out`.
fn emit_marks(out: &mut String, marks: &Vec<Vec<char>>, k: usize)
    ensures
        final(out)@ == old(out)@ + mark_at(marks_view(marks@), k as int),
{
    if k < marks.len() {
        let mut j: usize = 0;
        while j < marks[k].len()
            invariant
                k < marks@.len(),
                j <= marks@[k as int]@.len(),
                out@ == old(out)@ + marks@[k as int]@.subrange(0, j as int),
            decreases marks@[k as int]@.len() - j,
        {
            push_char(out, marks[k][j]);
            j += 1;
            assert(out@ =~= old(out)@ + marks@[k as int]@.subrange(0, j as int));
        }
        assert(marks@[k as int]@.subrange(0, j as int) =~= mark_at(marks_view(marks@), k as int));
    } else {
        assert(out@ =~= old(out)@ + mark_at(marks_view(marks@), k as int));
    }
}

/// The form a ligature takes from the forms of its first and last letters.
fn ligature_form_of(first: LetterForm, last: LetterForm) -> (r: LetterForm)
    ensures
        r == ligature_form(first, last),
        r.is_positional(),
{
    let starts = matches!(first, LetterForm::Isolated | LetterForm::Unshaped | LetterForm::Initial);
    let ends = matches!(last, LetterForm::Isolated | LetterForm::Unshaped | LetterForm::Final);
    if starts {
        if ends {
            LetterForm::Isolated
        } else {
            LetterForm::Initial
        }
    } else if ends {
        LetterForm::Final
    } else {
        LetterForm::Medial
    }
}

/// The cell a symbol starts as.
fn letter_cell(s: Symbol) -> (r: Slot)
    ensures
        r == Slot::Letter(s.ch, s.form),
{
    Slot::Letter(s.ch, s.form)
}

/// The form of a cell as the ligature pass reads it.
fn form_of(c: Slot) -> (r: LetterForm)
    ensures
        r == cell_form(c),
{
    match c {
        Slot::Letter(_, f) => f,
        _ => LetterForm::Unsupported,
    }
}

/// Put the ligature `forms` over the cells `[a, b)` if they are free and it has
/// a glyph for the form of the span.
fn substitute_span(cells: &mut Vec<Slot>, a: usize, b: usize, forms: Forms)
    requires
        a < b,
    ensures
        final(cells)@ == substitute(old(cells)@, a as int, b as int, forms),
        only_taken(old(cells)@, final(cells)@),
{
    if b > cells.len() {
        return;
    }
    let mut j: usize = a;
    while j < b
        invariant
            a <= j <= b,
            b <= cells@.len(),
            forall|i: int| a <= i < j ==> #[trigger] cells@[i] is Letter,
        decreases b - j,
    {
        match cells[j] {
            Slot::Letter(_, _) => {},
            _ => {
                return;
            },
        }
        j += 1;
    }
    let g = forms.get(ligature_form_of(form_of(cells[a]), form_of(cells[b - 1])));
    if g == '\0' {
        return;
    }
    let ghost old_cells = cells@;
    cells.set(a, Slot::Glyph(g));
    let mut j: usize = a + 1;
    while j < b
        invariant
            a < j <= b,
            b <= cells@.len(),
            vacate(old_cells.update(a as int, Slot::Glyph(g)), a + 1, b as int) == vacate(cells@, j as int, b as int),
            only_taken(old_cells, cells@),
        decreases b - j,
    {
        cells.set(j, Slot::Vacant);
        j += 1;
    }

}

/// Whether `pat` occurs in `text` at `pos`.
fn occurs(text: &Vec<char>, pat: &Vec<char>, pos: usize) -> (r: bool)
    requires
        pos + pat@.len() <= text@.len(),
    ensures
        r == occurs_at(text@, pat@, pos as int),
{
    let tlen = text.len();
    let mut j: usize = 0;
    while j < pat.len()
        invariant
            j <= pat@.len(),
            tlen == text@.len(),
            pos + pat@.len() <= text@.len(),
            forall|i: int| 0 <= i < j ==> text@[pos + i] == pat@[i],
        decreases pat@.len() - j,
    {
        if text[pos + j] != pat[j] {
            assert(text@.subrange(pos as int, pos + pat@.len())[j as int] != pat@[j as int]);
            return false;
        }
        j += 1;
    }
    assert(text@.subrange(pos as int, pos + pat@.len()) =~= pat@);
    true
}

/// Substitute every occurrence of `pat` in `text`, leftmost first.
fn scan_pattern(cells: &mut Vec<Slot>, text: &Vec<char>, pat: &Vec<char>, forms: Forms)
    requires
        pat@.len() > 0,
    ensures
        final(cells)@ == scan(old(cells)@, text@, pat@, forms, 0),
        only_taken(old(cells)@, final(cells)@),
{
    let plen = pat.len();
    if plen > text.len() {
        return;
    }
    let tlen = text.len();
    let last = tlen - plen;
    let mut pos: usize = 0;
    while pos <= last
        invariant
            tlen == text@.len(),
            last == text@.len() - plen,
            plen == pat@.len(),
            plen > 0,
            plen <= text@.len(),
            pos <= text@.len(),
            scan(old(cells)@, text@, pat@, forms, 0) == scan(cells@, text@, pat@, forms, pos as int),
            only_taken(old(cells)@, cells@),
        decreases text@.len() - pos,
    {
        if occurs(text, pat, pos) {
            substitute_span(cells, pos, pos + plen, forms);
            pos += plen;
        } else {
            pos += 1;
        }
    }
}

/// Which kind of language: the three built-in ones, then a custom table.
fn language_kind(language: &Language) -> (r: u8)
    ensures
        r == match language {
            Language::Arabic => 0u8,
            Language::ArabicV2 => 1u8,
            Language::Kurdish => 2u8,
            Language::Custom(_) => 3u8,
        },
{
    match language {
        Language::Arabic => 0,
        Language::ArabicV2 => 1,
        Language::Kurdish => 2,
        Language::Custom(_) => 3,
    }
}

/// The reshaping engine: a configuration and the tables it selects.
#[derive(Clone)]
pub struct ArabicReshaper {
    config: ReshaperConfig,
    letters: Letters,
    ligatures: Vec<Ligature>,
}

impl ArabicReshaper {
    /// The configuration the engine runs with.
    pub closed spec fn spec_config(&self) -> ReshaperConfig {
        self.config
    }

    /// The engine holds the letter table of its language and the ligature table.
    pub closed spec fn wf(&self) -> bool {
        &&& self.config.wf()
        &&& table_wf(self.letters@)
        &&& self.letters@ == table_of(self.config.language)
        &&& table_view(self.ligatures@) == ligatures_spec()
    }

    /// An engine with the given configuration.
    pub fn new(config: ReshaperConfig) -> (r: Self)
        requires
            config.wf(),
        ensures
            r.wf(),
            r.spec_config() == config,
    {
        let letters = Letters::new(&config.language);
        ArabicReshaper { config, letters, ligatures: ligatures() }
    }

    /// Whether some character of `text` is a letter of the active table.
    pub fn need_reshape(&self, text: &str) -> (r: bool)
        requires
            self.wf(),
        ensures
            r == needs_reshape(table_of(self.spec_config().language), text@),
    {
        let chars = text_chars(text);
        let mut i: usize = 0;
        while i < chars.len()
            invariant
                self.wf(),
                chars@ == text@,
                i <= chars@.len(),
                forall|j: int| 0 <= j < i ==> !has_key(self.letters@, #[trigger] chars@[j]),
            decreases chars@.len() - i,
        {
            if self.letters.contains_key(&chars[i]) {
                return true;
            }
            i += 1;
        }
        false
    }

    /// Place the letter `c` after the symbols so far.
    fn place_letter(&self, syms: &mut Vec<Symbol>, c: char)
        requires
            self.wf(),
        ensures
            final(syms)@ == place(self.config, self.letters@, old(syms)@, c),
    {
        let iso = if self.config.use_unshaped_instead_of_isolated {
            LetterForm::Unshaped
        } else {
            LetterForm::Isolated
        };
        if !self.letters.contains_key(&c) {
            syms.push(Symbol { ch: c, form: LetterForm::Unsupported });
        } else if syms.len() == 0 {
            syms.push(Symbol { ch: c, form: iso });
        } else {
            let last = syms.len() - 1;
            let prev = syms[last];
            if prev.form == LetterForm::Unsupported || !self.letters.connects_with_letter_before(c)
                || !self.letters.connects_with_letter_after(prev.ch) || (prev.form == LetterForm::Final
                && !self.letters.connects_with_letters_before_and_after(prev.ch)) {
                syms.push(Symbol { ch: c, form: iso });
            } else if prev.form == iso {
                syms.set(last, Symbol { ch: prev.ch, form: LetterForm::Initial });
                syms.push(Symbol { ch: c, form: LetterForm::Final });
            } else {
                syms.set(last, Symbol { ch: prev.ch, form: LetterForm::Medial });
                syms.push(Symbol { ch: c, form: LetterForm::Final });
            }
        }
        assert(syms@ =~= place(self.config, self.letters@, old(syms)@, c));
    }

    /// The join pass over `chars`: the symbols and the harakat buckets.
    fn join(&self, chars: &Vec<char>) -> (r: (Vec<Symbol>, Vec<Vec<char>>))
        requires
            self.wf(),
        ensures
            r.0@ == join_pass(self.config, self.letters@, chars@).0,
            marks_view(r.1@) == join_pass(self.config, self.letters@, chars@).1,
    {
        let ghost cfg = self.config;
        let ghost t = self.letters@;
        let mut syms: Vec<Symbol> = Vec::new();
        let mut marks: Vec<Vec<char>> = Vec::new();
        let mut i: usize = 0;
        assert(marks_view(marks@) =~= Seq::empty());
        while i < chars.len()
            invariant
                self.wf(),
                cfg == self.config,
                t == self.letters@,
                i <= chars@.len(),
                (syms@, marks_view(marks@)) == join_prefix(cfg, t, chars@.subrange(0, i as int)),
            decreases chars@.len() - i,
        {
            let c = chars[i];
            assert(chars@.subrange(0, i + 1).drop_last() =~= chars@.subrange(0, i as int));
            if is_harakat(c) {
                if !self.config.delete_harakat {
                    if !self.config.shift_harakat_position {
                        push_mark(&mut marks, syms.len(), c, false);
                    } else if syms.len() > 0 {
                        push_mark(&mut marks, syms.len() - 1, c, true);
                    }
                }
            } else if (c == TATWEEL && self.config.delete_tatweel) || (c == ZWJ
                && !self.config.support_zwj) {
            } else {
                self.place_letter(&mut syms, c);
                if self.config.support_zwj && syms.len() > 1 && syms[syms.len() - 2].ch == ZWJ {
                    syms.remove(syms.len() - 2);
                }
            }
            i += 1;
        }
        assert(chars@.subrange(0, chars@.len() as int) =~= chars@);
        if self.config.support_zwj && syms.len() > 0 && syms[syms.len() - 1].ch == ZWJ {
            syms.pop();
        }
        (syms, marks)
    }

    /// The characters that ligatures are searched in.
    fn ligature_text(&self, chars: &Vec<char>) -> (r: Vec<char>)
        ensures
            r@ == cleaned(self.config, chars@),
    {
        let mut r: Vec<char> = Vec::new();
        let mut i: usize = 0;
        while i < chars.len()
            invariant
                i <= chars@.len(),
                r@ == cleaned(self.config, chars@.subrange(0, i as int)),
            decreases chars@.len() - i,
        {
            let c = chars[i];
            assert(chars@.subrange(0, i + 1).drop_last() =~= chars@.subrange(0, i as int));
            if !is_harakat(c) && !(self.config.delete_tatweel && c == TATWEEL) && c != ZWJ {
                r.push(c);
            }
            i += 1;
        }
        assert(chars@.subrange(0, chars@.len() as int) =~= chars@);
        r
    }

    /// The ligature pass: every enabled ligature, in table order.
    fn substitute_ligatures(&self, cells: &mut Vec<Slot>, text: &Vec<char>)
        requires
            self.wf(),
        ensures
            final(cells)@ == apply_ligatures(old(cells)@, text@, ligatures_spec(), self.config.ligatures.list@, ligatures_spec().len() as int),
            only_taken(old(cells)@, final(cells)@),
    {
        proof {
            lemma_ligatures_len();
        }
        let ghost table = ligatures_spec();
        let ghost list = self.config.ligatures.list@;
        let mut n: usize = 0;
        while n < self.ligatures.len()
            invariant
                self.wf(),
                table == ligatures_spec(),
                list == self.config.ligatures.list@,
                ligatures_wf(table),
                table.len() == self.ligatures@.len(),
                n <= self.ligatures@.len(),
                cells@ == apply_ligatures(old(cells)@, text@, table, list, n as int),
                only_taken(old(cells)@, cells@),
            decreases self.ligatures@.len() - n,
        {
            let ghost before = cells@;
            if n < self.config.ligatures.list.len() && self.config.ligatures.list[n] {
                let lig = &self.ligatures[n];
                assert(table_view(self.ligatures@)[n as int] == lig@);
                let mut p: usize = 0;
                while p < lig.patterns.len()
                    invariant
                        lig@ == table[n as int],
                        0 <= n < table.len(),
                        ligatures_wf(table),
                        p <= lig.patterns@.len(),
                        cells@ == apply_patterns(before, text@, table[n as int], p as int),
                        only_taken(old(cells)@, before),
                        only_taken(old(cells)@, cells@),
                    decreases lig.patterns@.len() - p,
                {
                    let pat = &lig.patterns[p];
                    assert(pat@ =~= table[n as int].0[p as int]);
                    assert(table[n as int].0[p as int].len() > 0);
                    let ghost mid = cells@;
                    scan_pattern(cells, text, pat, lig.forms);
                    assert(only_taken(old(cells)@, cells@)) by {
                        assert forall|i: int| 0 <= i < cells@.len() && (#[trigger] cells@[i]) is Letter implies cells@[i] == old(cells)@[i] by {
                            assert(cells@[i] == mid[i]);
                        }
                    }
                    p += 1;
                }
            }
            n += 1;
        }
    }

    /// The output: each cell's character, each followed by its harakat.
    fn assemble_text(&self, cells: &Vec<Slot>, marks: &Vec<Vec<char>>, Ghost(u): Ghost<Seq<char>>) -> (r: String)
        requires
            self.wf(),
            forall|i: int| 0 <= i < cells@.len() ==> slot_ok(self.letters@, u, #[trigger] cells@[i]),
        ensures
            r@ == assemble(self.letters@, cells@, marks_view(marks@), cells@.len() as int),
    {
        let mut out = String::new();
        emit_marks(&mut out, marks, 0);
        let mut i: usize = 0;
        while i < cells.len()
            invariant
                self.wf(),
                i <= cells@.len(),
                forall|i: int| 0 <= i < cells@.len() ==> slot_ok(self.letters@, u, #[trigger] cells@[i]),
                out@ == assemble(self.letters@, cells@, marks_view(marks@), i as int),
            decreases cells@.len() - i,
        {
            match cells[i] {
                Slot::Letter(c, f) => {
                    assert(slot_ok(self.letters@, u, cells@[i as int]));
                    let g = self.letters.get_form(c, f);
                    push_char(&mut out, g);
                },
                Slot::Glyph(g) => {
                    push_char(&mut out, g);
                },
                Slot::Vacant => {},
            }
            emit_marks(&mut out, marks, i + 1);
            i += 1;
            assert(out@ =~= assemble(self.letters@, cells@, marks_view(marks@), i as int));
        }
        out
    }

    /// Reshape one line of text.
    pub fn reshape(&self, text: &str) -> (r: String)
        requires
            self.wf(),
        ensures
            r@ == reshape_spec(self.spec_config(), text@),
    {
        let chars = text_chars(text);
        if chars.len() == 0 {
            return String::new();
        }
        let (syms, marks) = self.join(&chars);
        let mut cells: Vec<Slot> = Vec::new();
        let mut i: usize = 0;
        while i < syms.len()
            invariant
                i <= syms@.len(),
                cells@ == cells_of(syms@.subrange(0, i as int)),
            decreases syms@.len() - i,
        {
            let c = letter_cell(syms[i]);
            cells.push(c);
            assert(syms@.subrange(0, i + 1).drop_last() =~= syms@.subrange(0, i as int));
            i += 1;
        }
        assert(syms@.subrange(0, syms@.len() as int) =~= syms@);
        if self.config.support_ligatures {
            let text_for_ligatures = self.ligature_text(&chars);
            self.substitute_ligatures(&mut cells, &text_for_ligatures);
        }
        proof {
            lemma_shaped_cells_ok(self.config, text@);
        }
        assert(cells@ == shaped_cells(self.config, chars@));
        self.assemble_text(&cells, &marks, Ghost(text@))
    }

    /// Change the configuration through `func`; the letter table follows the
    /// language it leaves.
    pub fn modify_config<F: FnOnce(&mut ReshaperConfig)>(&mut self, func: F)
        requires
            old(self).wf(),
            forall|m: &mut ReshaperConfig| func.requires((m,)),
            forall|m: &mut ReshaperConfig| #[trigger] func.ensures((m,), ()) ==> final(m).wf(),
        ensures
            final(self).wf(),
            exists|m: &mut ReshaperConfig| *m == old(self).spec_config() && #[trigger] func.ensures((m,), ()) && final(self).spec_config() == *final(m),
    {
        let before = language_kind(&self.config.language);
        func(&mut self.config);
        let after = language_kind(&self.config.language);
        if before != after || after == 3 {
            self.letters.change_language(&self.config.language);
        }
    }

    /// Reshape each line, in order.
    pub fn reshape_lines(&self, lines: &[&str]) -> (r: Vec<String>)
        requires
            self.wf(),
        ensures
            r@.len() == lines@.len(),
            forall|i: int| 0 <= i < lines@.len() ==> (#[trigger] r@[i])@ == reshape_spec(self.spec_config(), lines@[i]@),
    {
        let mut r: Vec<String> = Vec::new();
        let mut i: usize = 0;
        while i < lines.len()
            invariant
                self.wf(),
                i <= lines@.len(),
                r@.len() == i,
                forall|j: int| 0 <= j < i ==> (#[trigger] r@[j])@ == reshape_spec(self.spec_config(), lines@[j]@),
            decreases lines@.len() - i,
        {
            r.push(self.reshape(lines[i]));
            i += 1;
        }
        r
    }
}

impl Default for ArabicReshaper {
    /// An engine with the default configuration.
    fn default() -> (r: Self)
        ensures
            r.wf(),
            default_config(r.spec_config()),
    {
        ArabicReshaper::new(ReshaperConfig::default())
    }
}

} // verus!
