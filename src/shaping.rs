//! The reshaping algorithm stated over sequences: the join pass, the ligature
//! pass and the final assembly with the harakat.
use vstd::prelude::*;

use crate::config::{is_enabled, ReshaperConfig};
use crate::form::{Forms, LetterForm, LettersType};
use crate::letters::letters_db::{TATWEEL, ZWJ};
use crate::letters::{has_key, joins_after, joins_before, joins_both, lookup, table_of};
use crate::ligatures::{ligatures_spec, LigatureSpec};

verus! {

/// A character of the text with the form the join pass gave it.
#[derive(Clone, Copy, Debug, PartialEq, Eq, Structural)]
pub struct Symbol {
    pub ch: char,
    pub form: LetterForm,
}

/// What the join pass produces: the symbols, and the harakat bucket of each
/// anchor (bucket `k` follows symbol `k - 1`; bucket 0 comes before all).
pub type JoinState = (Seq<Symbol>, Seq<Seq<char>>);

/// A slot of the symbol array during ligature substitution.
#[derive(Clone, Copy, Debug, PartialEq, Eq, Structural)]
pub enum Slot {
    /// A character with the form the join pass gave it.
    Letter(char, LetterForm),
    /// The glyph of a ligature that starts here.
    Glyph(char),
    /// Covered by a ligature that starts earlier.
    Vacant,
}

/// Whether `c` is a haraka: an Arabic combining mark.
pub open spec fn is_harakat(c: char) -> bool {
    let v = c as u32;
    ||| 0x0610 <= v <= 0x061a
    ||| 0x064b <= v <= 0x065f
    ||| v == 0x0670
    ||| 0x06d6 <= v <= 0x06dc
    ||| 0x06df <= v <= 0x06e8
    ||| 0x06ea <= v <= 0x06ed
    ||| 0x08d4 <= v <= 0x08e1
    ||| 0x08d4 <= v <= 0x08ed
    ||| 0x08e3 <= v <= 0x08ff
}

/// The tag a letter gets when it joins nothing.
pub open spec fn isolated_tag(cfg: ReshaperConfig) -> LetterForm {
    if cfg.use_unshaped_instead_of_isolated {
        LetterForm::Unshaped
    } else {
        LetterForm::Isolated
    }
}

/// The harakat of bucket `k`.
pub open spec fn mark_at(marks: Seq<Seq<char>>, k: int) -> Seq<char> {
    if 0 <= k < marks.len() {
        marks[k]
    } else {
        Seq::empty()
    }
}

/// `marks` with empty buckets added until bucket `k` exists.
pub open spec fn pad_marks(marks: Seq<Seq<char>>, k: int) -> Seq<Seq<char>>
    decreases k + 1 - marks.len(),
{
    if marks.len() > k {
        marks
    } else {
        pad_marks(marks.push(Seq::empty()), k)
    }
}

/// `marks` with `c` added to bucket `k`: at its end, or at its front when the
/// harakat are shifted.
pub open spec fn add_mark(marks: Seq<Seq<char>>, k: int, c: char, front: bool) -> Seq<Seq<char>> {
    let padded = pad_marks(marks, k);
    padded.update(k, if front { seq![c] + padded[k] } else { padded[k].push(c) })
}

/// Whether the letter `c` may join the symbol `prev` that stands before it.
pub open spec fn may_join(t: Seq<LettersType>, prev: Symbol, c: char) -> bool {
    &&& prev.form != LetterForm::Unsupported
    &&& joins_before(t, c)
    &&& joins_after(t, prev.ch)
    &&& (prev.form == LetterForm::Final ==> joins_both(t, prev.ch))
}

/// The symbols after the character `c` (not a haraka, not dropped) is placed.
pub open spec fn place(cfg: ReshaperConfig, t: Seq<LettersType>, syms: Seq<Symbol>, c: char) -> Seq<Symbol> {
    let iso = isolated_tag(cfg);
    if !has_key(t, c) {
        syms.push(Symbol { ch: c, form: LetterForm::Unsupported })
    } else if syms.len() == 0 {
        syms.push(Symbol { ch: c, form: iso })
    } else {
        let prev = syms.last();
        if !may_join(t, prev, c) {
            syms.push(Symbol { ch: c, form: iso })
        } else if prev.form == iso {
            syms.update(syms.len() - 1, Symbol { ch: prev.ch, form: LetterForm::Initial }).push(Symbol { ch: c, form: LetterForm::Final })
        } else {
            syms.update(syms.len() - 1, Symbol { ch: prev.ch, form: LetterForm::Medial }).push(Symbol { ch: c, form: LetterForm::Final })
        }
    }
}

/// A joiner that is no longer last has done its work and leaves.
pub open spec fn drop_joiner(cfg: ReshaperConfig, syms: Seq<Symbol>) -> Seq<Symbol> {
    if cfg.support_zwj && syms.len() > 1 && syms[syms.len() - 2].ch == ZWJ {
        syms.remove(syms.len() - 2)
    } else {
        syms
    }
}

/// Whether `c` is dropped without a trace.
pub open spec fn is_dropped(cfg: ReshaperConfig, c: char) -> bool {
    (c == TATWEEL && cfg.delete_tatweel) || (c == ZWJ && !cfg.support_zwj)
}

/// One character of the join pass.
pub open spec fn join_step(cfg: ReshaperConfig, t: Seq<LettersType>, st: JoinState, c: char) -> JoinState {
    let syms = st.0;
    let marks = st.1;
    if is_harakat(c) {
        if cfg.delete_harakat {
            st
        } else {
            let shift: int = if cfg.shift_harakat_position { 1 } else { 0 };
            let k = syms.len() - shift;
            if k < 0 {
                st
            } else {
                (syms, add_mark(marks, k, c, cfg.shift_harakat_position))
            }
        }
    } else if is_dropped(cfg, c) {
        st
    } else {
        (drop_joiner(cfg, place(cfg, t, syms, c)), marks)
    }
}

/// The join pass over the characters of `s`, before the final clean-up.
pub open spec fn join_prefix(cfg: ReshaperConfig, t: Seq<LettersType>, s: Seq<char>) -> JoinState
    decreases s.len(),
{
    if s.len() == 0 {
        (Seq::empty(), Seq::empty())
    } else {
        join_step(cfg, t, join_prefix(cfg, t, s.drop_last()), s.last())
    }
}

/// The join pass: a trailing joiner leaves too.
pub open spec fn join_pass(cfg: ReshaperConfig, t: Seq<LettersType>, s: Seq<char>) -> JoinState {
    let st = join_prefix(cfg, t, s);
    if cfg.support_zwj && st.0.len() > 0 && st.0.last().ch == ZWJ {
        (st.0.drop_last(), st.1)
    } else {
        st
    }
}

/// Whether `c` is kept in the text that ligatures are searched in: exactly
/// the characters that stay as symbols after the join pass.
pub open spec fn kept_for_ligatures(cfg: ReshaperConfig, c: char) -> bool {
    !is_harakat(c) && !(cfg.delete_tatweel && c == TATWEEL) && c != ZWJ
}

/// The text that ligatures are searched in: no harakat, no joiner (the join
/// pass never keeps one), and no tatweel when the tatweel is deleted.
pub open spec fn cleaned(cfg: ReshaperConfig, s: Seq<char>) -> Seq<char>
    decreases s.len(),
{
    if s.len() == 0 {
        Seq::empty()
    } else {
        let r = cleaned(cfg, s.drop_last());
        if kept_for_ligatures(cfg, s.last()) {
            r.push(s.last())
        } else {
            r
        }
    }
}

/// The cells that the symbols start as.
pub open spec fn cells_of(syms: Seq<Symbol>) -> Seq<Slot>
    decreases syms.len(),
{
    if syms.len() == 0 {
        Seq::empty()
    } else {
        cells_of(syms.drop_last()).push(Slot::Letter(syms.last().ch, syms.last().form))
    }
}

/// Slot `i` holds symbol `i`.
pub proof fn lemma_cells_of(syms: Seq<Symbol>)
    ensures
        cells_of(syms).len() == syms.len(),
        forall|i: int| 0 <= i < syms.len() ==> #[trigger] cells_of(syms)[i] == Slot::Letter(syms[i].ch, syms[i].form),
    decreases syms.len(),
{
    if syms.len() > 0 {
        lemma_cells_of(syms.drop_last());
    }
}

/// The form of a cell as the ligature pass reads it.
pub open spec fn cell_form(c: Slot) -> LetterForm {
    match c {
        Slot::Letter(_, f) => f,
        _ => LetterForm::Unsupported,
    }
}

/// The form a ligature takes from the forms of its first and last letters.
pub open spec fn ligature_form(first: LetterForm, last: LetterForm) -> LetterForm {
    let starts = first is Isolated || first is Unshaped || first is Initial;
    let ends = last is Isolated || last is Unshaped || last is Final;
    if starts {
        if ends {
            LetterForm::Isolated
        } else {
            LetterForm::Initial
        }
    } else if ends {
        LetterForm::Final
    } else {
        LetterForm::Medial
    }
}

/// No cell of `[a, b)` is taken by a ligature yet.
pub open spec fn span_free(cells: Seq<Slot>, a: int, b: int) -> bool {
    forall|i: int| a <= i < b ==> #[trigger] cells[i] is Letter
}

/// The cells `[from, to)` marked as covered.
pub open spec fn vacate(cells: Seq<Slot>, from: int, to: int) -> Seq<Slot>
    decreases to - from,
{
    if from >= to {
        cells
    } else {
        vacate(cells.update(from, Slot::Vacant), from + 1, to)
    }
}

/// The ligature `forms` put over the cells `[a, b)`, if they are free and the
/// ligature has a glyph for the form of the span.
pub open spec fn substitute(cells: Seq<Slot>, a: int, b: int, forms: Forms) -> Seq<Slot> {
    if 0 <= a < b <= cells.len() && span_free(cells, a, b) {
        let g = forms.glyph(ligature_form(cell_form(cells[a]), cell_form(cells[b - 1])));
        if g == '\0' {
            cells
        } else {
            vacate(cells.update(a, Slot::Glyph(g)), a + 1, b)
        }
    } else {
        cells
    }
}

/// Whether `pat` occurs in `text` at `pos`.
pub open spec fn occurs_at(text: Seq<char>, pat: Seq<char>, pos: int) -> bool {
    0 <= pos && pos + pat.len() <= text.len() && text.subrange(pos, pos + pat.len()) == pat
}

/// The occurrences of `pat` in `text` from `pos` on, leftmost first and not
/// overlapping each other, each substituted in turn.
pub open spec fn scan(cells: Seq<Slot>, text: Seq<char>, pat: Seq<char>, forms: Forms, pos: int) -> Seq<Slot>
    decreases text.len() - pos,
{
    if pat.len() == 0 || pos < 0 || pos + pat.len() > text.len() {
        cells
    } else if occurs_at(text, pat, pos) {
        scan(substitute(cells, pos, pos + pat.len(), forms), text, pat, forms, pos + pat.len())
    } else {
        scan(cells, text, pat, forms, pos + 1)
    }
}

/// The first `n` patterns of a ligature, each scanned in turn.
pub open spec fn apply_patterns(cells: Seq<Slot>, text: Seq<char>, lig: LigatureSpec, n: int) -> Seq<Slot>
    decreases n,
{
    if n <= 0 {
        cells
    } else {
        scan(apply_patterns(cells, text, lig, n - 1), text, lig.0[n - 1], lig.1, 0)
    }
}

/// The first `n` ligatures of `table`, the enabled ones applied in order.
pub open spec fn apply_ligatures(
    cells: Seq<Slot>,
    text: Seq<char>,
    table: Seq<LigatureSpec>,
    list: Seq<bool>,
    n: int,
) -> Seq<Slot>
    decreases n,
{
    if n <= 0 {
        cells
    } else {
        let before = apply_ligatures(cells, text, table, list, n - 1);
        if is_enabled(list, n - 1) {
            apply_patterns(before, text, table[n - 1], table[n - 1].0.len() as int)
        } else {
            before
        }
    }
}

/// The output of one cell.
pub open spec fn cell_text(t: Seq<LettersType>, cell: Slot) -> Seq<char> {
    match cell {
        Slot::Letter(c, f) => if f.is_positional() {
            seq![lookup(t, c)->0.glyph(f)]
        } else {
            seq![c]
        },
        Slot::Glyph(g) => seq![g],
        Slot::Vacant => Seq::empty(),
    }
}

/// The output of the first `n` cells, each followed by its harakat.
pub open spec fn assemble(t: Seq<LettersType>, cells: Seq<Slot>, marks: Seq<Seq<char>>, n: int) -> Seq<char>
    decreases n,
{
    if n <= 0 {
        mark_at(marks, 0)
    } else {
        assemble(t, cells, marks, n - 1) + cell_text(t, cells[n - 1]) + mark_at(marks, n)
    }
}

/// The cells after the ligature pass (or straight from the join pass when
/// ligatures are off).
pub open spec fn shaped_cells(cfg: ReshaperConfig, s: Seq<char>) -> Seq<Slot> {
    let cells = cells_of(join_pass(cfg, table_of(cfg.language), s).0);
    if cfg.support_ligatures {
        let table = ligatures_spec();
        apply_ligatures(cells, cleaned(cfg, s), table, cfg.ligatures.list@, table.len() as int)
    } else {
        cells
    }
}

/// The reshaped text.
pub open spec fn reshape_spec(cfg: ReshaperConfig, s: Seq<char>) -> Seq<char> {
    if s.len() == 0 {
        Seq::empty()
    } else {
        let t = table_of(cfg.language);
        let cells = shaped_cells(cfg, s);
        assemble(t, cells, join_pass(cfg, t, s).1, cells.len() as int)
    }
}

/// Whether some character of `s` is a letter of `t`.
pub open spec fn needs_reshape(t: Seq<LettersType>, s: Seq<char>) -> bool {
    exists|i: int| 0 <= i < s.len() && has_key(t, #[trigger] s[i])
}

} // verus!
