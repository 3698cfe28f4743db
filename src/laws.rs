//! Properties of the reshaping algorithm that hold for all inputs.
use vstd::prelude::*;

use crate::config::ReshaperConfig;
use crate::form::Forms;
use crate::config::Language;
use crate::form::LetterForm;
use crate::letters::letters_db::{
    lemma_letters_arabic_keys, lemma_letters_arabic_v2_keys, lemma_letters_kurdish_keys,
    ligature_start, TATWEEL, ZWJ,
};
use crate::letters::{has_key, lemma_lookup_has_key, lemma_lookup_wf, lookup, table_of, table_wf};
use crate::ligatures::{lemma_ligatures_len, ligatures_spec, LigatureSpec};
use crate::shaping::{
    apply_ligatures, apply_patterns, cleaned, is_dropped, isolated_tag, join_prefix, join_step,
    place, reshape_spec, cell_form, ligature_form, assemble, cells_of, drop_joiner, is_harakat,
    join_pass, lemma_cells_of, add_mark, mark_at, pad_marks, cell_text, JoinState, needs_reshape, occurs_at, Symbol, scan, span_free, substitute, vacate, Slot,
};

verus! {

/// Every cell of `old` already taken by a ligature is the same in `new`.
pub open spec fn keeps_taken(old: Seq<Slot>, new: Seq<Slot>) -> bool {
    &&& new.len() == old.len()
    &&& forall|i: int| 0 <= i < old.len() && !(#[trigger] old[i] is Letter) ==> new[i] == old[i]
}

proof fn lemma_vacate(cells: Seq<Slot>, from: int, to: int)
    requires
        0 <= from,
        to <= cells.len(),
    ensures
        vacate(cells, from, to).len() == cells.len(),
        forall|i: int| 0 <= i < cells.len() && (i < from || i >= to) ==> #[trigger] vacate(cells, from, to)[i] == cells[i],
        forall|i: int| from <= i < to ==> #[trigger] vacate(cells, from, to)[i] == Slot::Vacant,
    decreases to - from,
{
    if from < to {
        lemma_vacate(cells.update(from, Slot::Vacant), from + 1, to);
    }
}

proof fn lemma_substitute_keeps(cells: Seq<Slot>, a: int, b: int, forms: Forms)
    ensures
        keeps_taken(cells, substitute(cells, a, b, forms)),
{
    if 0 <= a < b <= cells.len() && span_free(cells, a, b) {
        let g = forms.glyph(ligature_form(cell_form(cells[a]), cell_form(cells[b - 1])));
        if g != '\0' {
            lemma_vacate(cells.update(a, Slot::Glyph(g)), a + 1, b);
        }
    }
}

proof fn lemma_scan_keeps(cells: Seq<Slot>, text: Seq<char>, pat: Seq<char>, forms: Forms, pos: int)
    ensures
        keeps_taken(cells, scan(cells, text, pat, forms, pos)),
    decreases text.len() - pos,
{
    if pat.len() == 0 || pos < 0 || pos + pat.len() > text.len() {
    } else if crate::shaping::occurs_at(text, pat, pos) {
        let next = substitute(cells, pos, pos + pat.len(), forms);
        lemma_substitute_keeps(cells, pos, pos + pat.len(), forms);
        lemma_scan_keeps(next, text, pat, forms, pos + pat.len());
    } else {
        lemma_scan_keeps(cells, text, pat, forms, pos + 1);
    }
}

proof fn lemma_patterns_keeps(cells: Seq<Slot>, text: Seq<char>, lig: LigatureSpec, n: int)
    ensures
        keeps_taken(cells, apply_patterns(cells, text, lig, n)),
    decreases n,
{
    if n > 0 {
        lemma_patterns_keeps(cells, text, lig, n - 1);
        lemma_scan_keeps(apply_patterns(cells, text, lig, n - 1), text, lig.0[n - 1], lig.1, 0);
    }
}

/// Ligature precedence: whatever the first `n` ligatures of the table have
/// taken (a ligature glyph and the cells it covers) is left as it is by every
/// ligature after them, so an earlier entry wins over a later one that
/// overlaps it.
pub proof fn lemma_ligature_precedence(
    cells: Seq<Slot>,
    text: Seq<char>,
    table: Seq<LigatureSpec>,
    list: Seq<bool>,
    n: int,
    m: int,
)
    requires
        0 <= n <= m,
    ensures
        keeps_taken(apply_ligatures(cells, text, table, list, n), apply_ligatures(cells, text, table, list, m)),
    decreases m - n,
{
    if n < m {
        lemma_ligature_precedence(cells, text, table, list, n, m - 1);
        let before = apply_ligatures(cells, text, table, list, m - 1);
        if crate::config::is_enabled(list, m - 1) {
            lemma_patterns_keeps(before, text, table[m - 1], table[m - 1].0.len() as int);
        }
    }
}

/// The settings of a configuration that reshaping reads.
pub open spec fn same_settings(a: ReshaperConfig, b: ReshaperConfig) -> bool {
    &&& table_of(a.language) == table_of(b.language)
    &&& a.delete_harakat == b.delete_harakat
    &&& a.shift_harakat_position == b.shift_harakat_position
    &&& a.delete_tatweel == b.delete_tatweel
    &&& a.support_zwj == b.support_zwj
    &&& a.use_unshaped_instead_of_isolated == b.use_unshaped_instead_of_isolated
    &&& a.support_ligatures == b.support_ligatures
    &&& a.ligatures.list@ == b.ligatures.list@
}

proof fn lemma_join_same(a: ReshaperConfig, b: ReshaperConfig, s: Seq<char>)
    requires
        same_settings(a, b),
    ensures
        join_prefix(a, table_of(a.language), s) == join_prefix(b, table_of(b.language), s),
    decreases s.len(),
{
    if s.len() > 0 {
        lemma_join_same(a, b, s.drop_last());
        let t = table_of(a.language);
        let st = join_prefix(a, t, s.drop_last());
        assert(isolated_tag(a) == isolated_tag(b));
        assert(place(a, t, st.0, s.last()) == place(b, t, st.0, s.last()));
        assert(is_dropped(a, s.last()) == is_dropped(b, s.last()));
        assert(join_step(a, t, st, s.last()) == join_step(b, t, st, s.last()));
    }
}

proof fn lemma_cleaned_same(a: ReshaperConfig, b: ReshaperConfig, s: Seq<char>)
    requires
        same_settings(a, b),
    ensures
        cleaned(a, s) == cleaned(b, s),
    decreases s.len(),
{
    if s.len() > 0 {
        lemma_cleaned_same(a, b, s.drop_last());
    }
}

/// Determinism: two configurations with the same settings reshape every text
/// to the same output.
pub proof fn lemma_reshape_deterministic(a: ReshaperConfig, b: ReshaperConfig, s: Seq<char>)
    requires
        same_settings(a, b),
    ensures
        reshape_spec(a, s) == reshape_spec(b, s),
{
    lemma_join_same(a, b, s);
    lemma_cleaned_same(a, b, s);
}

/// Each symbol is the character of the text at its place, unsupported.
pub open spec fn all_unsupported(syms: Seq<Symbol>, s: Seq<char>) -> bool {
    &&& syms.len() == s.len()
    &&& forall|i: int| 0 <= i < s.len() ==> (#[trigger] syms[i]).ch == s[i] && syms[i].form == LetterForm::Unsupported
}

/// No character of `s` is a letter of `t`, a haraka, the joiner or the tatweel.
pub open spec fn plain_text(t: Seq<crate::form::LettersType>, s: Seq<char>) -> bool {
    forall|i: int| 0 <= i < s.len() ==> !has_key(t, #[trigger] s[i]) && !is_harakat(s[i]) && s[i] != ZWJ && s[i] != TATWEEL
}

proof fn lemma_step_plain(cfg: ReshaperConfig, t: Seq<crate::form::LettersType>, syms: Seq<Symbol>, marks: Seq<Seq<char>>, c: char)
    requires
        !has_key(t, c),
        !is_harakat(c),
        c != ZWJ,
        c != TATWEEL,
        syms.len() > 0 ==> syms.last().ch != ZWJ,
    ensures
        join_step(cfg, t, (syms, marks), c).1 == marks,
        join_step(cfg, t, (syms, marks), c).0.len() == syms.len() + 1,
        join_step(cfg, t, (syms, marks), c).0.last() == (Symbol { ch: c, form: LetterForm::Unsupported }),
        forall|i: int| 0 <= i < syms.len() ==> #[trigger] join_step(cfg, t, (syms, marks), c).0[i] == syms[i],
{
    let placed = syms.push(Symbol { ch: c, form: LetterForm::Unsupported });
    assert(place(cfg, t, syms, c) == placed);
    if syms.len() > 0 {
        assert(placed[placed.len() - 2] == syms.last());
    }
    assert(drop_joiner(cfg, placed) == placed);
}

proof fn lemma_scan_absent(cells: Seq<Slot>, text: Seq<char>, pat: Seq<char>, forms: Forms, pos: int)
    requires
        pat.len() > 0,
        forall|k: int| 0 <= k < text.len() ==> #[trigger] text[k] != pat[0],
    ensures
        scan(cells, text, pat, forms, pos) == cells,
    decreases text.len() - pos,
{
    if pos >= 0 && pos + pat.len() <= text.len() {
        if occurs_at(text, pat, pos) {
            assert(text.subrange(pos, pos + pat.len())[0] == text[pos]);
        }
        lemma_scan_absent(cells, text, pat, forms, pos + 1);
    }
}

/// The first `n` ligatures change nothing when no pattern's first character is
/// in the text.
proof fn lemma_ligatures_absent(cells: Seq<Slot>, text: Seq<char>, list: Seq<bool>, n: int, t: Seq<crate::form::LettersType>)
    requires
        n <= ligatures_spec().len(),
        plain_text(t, text),
        forall|c: char| ligature_start(c) ==> has_key(t, c),
    ensures
        apply_ligatures(cells, text, ligatures_spec(), list, n) == cells,
    decreases n,
{
    if n > 0 {
        lemma_ligatures_absent(cells, text, list, n - 1, t);
        lemma_ligatures_len();
        let lig = ligatures_spec()[n - 1];
        assert forall|j: int| 0 <= j <= lig.0.len() implies apply_patterns(cells, text, lig, j) == cells by {
            lemma_patterns_absent(cells, text, lig, j, n - 1, t);
        }
    }
}

proof fn lemma_patterns_absent(cells: Seq<Slot>, text: Seq<char>, lig: LigatureSpec, j: int, n: int, t: Seq<crate::form::LettersType>)
    requires
        0 <= n < ligatures_spec().len(),
        lig == ligatures_spec()[n],
        j <= lig.0.len(),
        plain_text(t, text),
        forall|c: char| ligature_start(c) ==> has_key(t, c),
    ensures
        apply_patterns(cells, text, lig, j) == cells,
    decreases j,
{
    if j > 0 {
        lemma_patterns_absent(cells, text, lig, j - 1, n, t);
        lemma_ligatures_len();
        let pat = lig.0[j - 1];
        assert(pat.len() > 0);
        assert(is_harakat(ligatures_spec()[n].0[j - 1][0]) || ligature_start(ligatures_spec()[n].0[j - 1][0]));
        assert forall|k: int| 0 <= k < text.len() implies #[trigger] text[k] != pat[0] by {
            if text[k] == pat[0] {
                assert(!has_key(t, text[k]) && !is_harakat(text[k]));
            }
        }
        lemma_scan_absent(cells, text, pat, lig.1, 0);
    }
}

/// No character of `s` is a letter of `t`, the joiner or the tatweel, and
/// harakat occur only where they stay after their letter.
pub open spec fn quiet_text(cfg: ReshaperConfig, t: Seq<crate::form::LettersType>, s: Seq<char>) -> bool {
    forall|i: int| 0 <= i < s.len() ==> !has_key(t, #[trigger] s[i]) && s[i] != ZWJ && s[i] != TATWEEL && (
    is_harakat(s[i]) ==> !cfg.delete_harakat && !cfg.shift_harakat_position)
}

proof fn lemma_quiet_drop_last(cfg: ReshaperConfig, t: Seq<crate::form::LettersType>, s: Seq<char>)
    requires
        quiet_text(cfg, t, s),
        s.len() > 0,
    ensures
        quiet_text(cfg, t, s.drop_last()),
{
    assert forall|i: int| 0 <= i < s.drop_last().len() implies !has_key(t, #[trigger] s.drop_last()[i]) && s.drop_last()[i] != ZWJ && s.drop_last()[i] != TATWEEL && (
    is_harakat(s.drop_last()[i]) ==> !cfg.delete_harakat && !cfg.shift_harakat_position) by {
        assert(s.drop_last()[i] == s[i]);
    }
}

proof fn lemma_cleaned_quiet(cfg: ReshaperConfig, t: Seq<crate::form::LettersType>, s: Seq<char>)
    requires
        quiet_text(cfg, t, s),
    ensures
        plain_text(t, cleaned(cfg, s)),
    decreases s.len(),
{
    if s.len() > 0 {
        lemma_quiet_drop_last(cfg, t, s);
        lemma_cleaned_quiet(cfg, t, s.drop_last());
        let k = s.len() - 1;
        assert(!has_key(t, s[k]) && s[k] != ZWJ && s[k] != TATWEEL);
        let r = cleaned(cfg, s.drop_last());
        if crate::shaping::kept_for_ligatures(cfg, s.last()) {
            assert forall|i: int| 0 <= i < r.push(s.last()).len() implies !has_key(t, #[trigger] r.push(s.last())[i]) && !is_harakat(r.push(s.last())[i]) && r.push(s.last())[i] != ZWJ && r.push(s.last())[i] != TATWEEL by {
                if i < r.len() {
                    assert(r.push(s.last())[i] == r[i]);
                }
            }
        }
    }
}

proof fn lemma_pad_marks(marks: Seq<Seq<char>>, k: int)
    ensures
        pad_marks(marks, k).len() == if marks.len() > k { marks.len() as int } else { k + 1 },
        forall|j: int| #[trigger] mark_at(pad_marks(marks, k), j) == mark_at(marks, j),
    decreases k + 1 - marks.len(),
{
    if marks.len() <= k {
        lemma_pad_marks(marks.push(Seq::empty()), k);
        assert forall|j: int| #[trigger] mark_at(marks.push(Seq::empty()), j) == mark_at(marks, j) by {
            if 0 <= j < marks.len() {
                assert(marks.push(Seq::empty())[j] == marks[j]);
            }
        }
    }
}

proof fn lemma_assemble_cells(t: Seq<crate::form::LettersType>, c1: Seq<Slot>, c2: Seq<Slot>, marks: Seq<Seq<char>>, n: int)
    requires
        n <= c1.len(),
        n <= c2.len(),
        forall|i: int| 0 <= i < n ==> c1[i] == c2[i],
    ensures
        assemble(t, c1, marks, n) == assemble(t, c2, marks, n),
    decreases n,
{
    if n > 0 {
        lemma_assemble_cells(t, c1, c2, marks, n - 1);
        assert(c1[n - 1] == c2[n - 1]);
    }
}

proof fn lemma_assemble_marks(t: Seq<crate::form::LettersType>, cells: Seq<Slot>, m1: Seq<Seq<char>>, m2: Seq<Seq<char>>, n: int)
    requires
        0 <= n,
        forall|k: int| 0 <= k <= n ==> mark_at(m1, k) == mark_at(m2, k),
    ensures
        assemble(t, cells, m1, n) == assemble(t, cells, m2, n),
    decreases n,
{
    if n > 0 {
        lemma_assemble_marks(t, cells, m1, m2, n - 1);
        assert(mark_at(m1, n) == mark_at(m2, n));
    }
}

proof fn lemma_join_quiet(cfg: ReshaperConfig, t: Seq<crate::form::LettersType>, s: Seq<char>)
    requires
        quiet_text(cfg, t, s),
    ensures
        all_unsupported(join_prefix(cfg, t, s).0, cleaned(cfg, s)),
        join_prefix(cfg, t, s).1.len() <= join_prefix(cfg, t, s).0.len() + 1,
        assemble(t, cells_of(join_prefix(cfg, t, s).0), join_prefix(cfg, t, s).1, join_prefix(cfg, t, s).0.len() as int) == s,
    decreases s.len(),
{
    if s.len() == 0 {
        assert(mark_at(Seq::<Seq<char>>::empty(), 0) =~= Seq::<char>::empty());
        assert(s =~= Seq::<char>::empty());
    } else {
        lemma_quiet_drop_last(cfg, t, s);
        lemma_join_quiet(cfg, t, s.drop_last());
        lemma_cleaned_quiet(cfg, t, s.drop_last());
        let st = join_prefix(cfg, t, s.drop_last());
        let n = st.0.len() as int;
        let k = s.len() - 1;
        let c = s[k];
        assert(s.last() == c);
        assert(!has_key(t, c) && c != ZWJ && c != TATWEEL && (is_harakat(c) ==> !cfg.delete_harakat && !cfg.shift_harakat_position));
        assert(s.drop_last().push(c) =~= s);
        let cells = cells_of(st.0);
        lemma_cells_of(st.0);
        let before = assemble(t, cells, st.1, n);
        assert(before == s.drop_last());
        if is_harakat(c) {
            let m2 = add_mark(st.1, n, c, false);
            assert(join_step(cfg, t, st, c) == (st.0, m2));
            lemma_pad_marks(st.1, n);
            let padded = pad_marks(st.1, n);
            assert(mark_at(padded, n) == mark_at(st.1, n));
            assert forall|j: int| 0 <= j < n implies mark_at(m2, j) == mark_at(st.1, j) by {
                assert(mark_at(padded, j) == mark_at(st.1, j));
            }
            assert(mark_at(m2, n) == mark_at(st.1, n).push(c));
            if n > 0 {
                lemma_assemble_marks(t, cells, st.1, m2, n - 1);
            }
            assert(assemble(t, cells, m2, n) =~= before.push(c));
            assert(cleaned(cfg, s) == cleaned(cfg, s.drop_last()));
        } else {
            if n > 0 {
                assert(st.0.last() == st.0[n - 1]);
                assert(st.0[n - 1].ch == cleaned(cfg, s.drop_last())[n - 1]);
            }
            lemma_step_plain(cfg, t, st.0, st.1, c);
            assert(!is_dropped(cfg, c));
            let syms2 = join_step(cfg, t, st, c).0;
            assert(cleaned(cfg, s) == cleaned(cfg, s.drop_last()).push(c));
            let cl = cleaned(cfg, s);
            assert forall|i: int| 0 <= i < cl.len() implies (#[trigger] syms2[i]).ch == cl[i] && syms2[i].form == LetterForm::Unsupported by {
                if i < n {
                    assert(syms2[i] == st.0[i]);
                    assert(cl[i] == cleaned(cfg, s.drop_last())[i]);
                } else {
                    assert(syms2[i] == syms2.last());
                }
            }
            let cells2 = cells_of(syms2);
            lemma_cells_of(syms2);
            assert forall|i: int| 0 <= i < n implies cells2[i] == cells[i] by {
                assert(syms2[i] == st.0[i]);
            }
            lemma_assemble_cells(t, cells2, cells, st.1, n);
            assert(syms2[n] == syms2.last());
            assert(cells2[n] == Slot::Letter(syms2[n].ch, syms2[n].form));
            assert(crate::shaping::cell_text(t, cells2[n]) == seq![c]);
            assert(mark_at(st.1, n + 1) =~= Seq::<char>::empty());
            assert(assemble(t, cells2, st.1, n + 1) =~= before.push(c));
        }
    }
}

/// Text without letters of a built-in table passes through unchanged. Harakat
/// in it must stay where they are: not deleted and not shifted.
pub proof fn lemma_no_letters_unchanged(cfg: ReshaperConfig, s: Seq<char>)
    requires
        !(cfg.language is Custom),
        !needs_reshape(table_of(cfg.language), s),
        forall|i: int| 0 <= i < s.len() && is_harakat(#[trigger] s[i]) ==> !cfg.delete_harakat && !cfg.shift_harakat_position,
    ensures
        reshape_spec(cfg, s) == s,
{
    let t = table_of(cfg.language);
    assert forall|c: char| ligature_start(c) || c == ZWJ || c == TATWEEL implies has_key(t, c) by {
        match cfg.language {
            Language::Arabic => lemma_letters_arabic_keys(c),
            Language::ArabicV2 => lemma_letters_arabic_v2_keys(c),
            _ => lemma_letters_kurdish_keys(c),
        }
    }
    assert forall|i: int| 0 <= i < s.len() implies !has_key(t, #[trigger] s[i]) && s[i] != ZWJ && s[i] != TATWEEL && (
    is_harakat(s[i]) ==> !cfg.delete_harakat && !cfg.shift_harakat_position) by {
        assert(!has_key(t, s[i]));
    }
    if s.len() > 0 {
        lemma_join_quiet(cfg, t, s);
        lemma_cleaned_quiet(cfg, t, s);
        let st = join_prefix(cfg, t, s);
        let cl = cleaned(cfg, s);
        if st.0.len() > 0 {
            assert(st.0.last() == st.0[st.0.len() - 1]);
            assert(st.0[st.0.len() - 1].ch == cl[st.0.len() - 1]);
        }
        assert(join_pass(cfg, t, s) == st);
        let cells = cells_of(st.0);
        lemma_cells_of(st.0);
        if cfg.support_ligatures {
            lemma_ligatures_len();
            lemma_ligatures_absent(cells, cl, cfg.ligatures.list@, ligatures_spec().len() as int, t);
        }
    }
}

/// A symbol whose form has a glyph in `t`, or that keeps a character of `u`.
pub open spec fn symbol_ok(t: Seq<crate::form::LettersType>, u: Seq<char>, x: Symbol) -> bool {
    if x.form.is_positional() {
        lookup(t, x.ch) is Some && lookup(t, x.ch)->0.glyph(x.form) != '\0'
    } else {
        u.contains(x.ch)
    }
}

/// A slot whose output is a glyph that exists or a character of `u`.
pub open spec fn slot_ok(t: Seq<crate::form::LettersType>, u: Seq<char>, c: Slot) -> bool {
    match c {
        Slot::Letter(ch, f) => symbol_ok(t, u, Symbol { ch, form: f }),
        Slot::Glyph(g) => g != '\0',
        Slot::Vacant => true,
    }
}

/// The join pass's output on a prefix `p` of `u`: every symbol is fine, the
/// last one is unjoined, final or unsupported, and the harakat come from `u`.
pub open spec fn join_ok(cfg: ReshaperConfig, t: Seq<crate::form::LettersType>, u: Seq<char>, st: JoinState) -> bool {
    &&& forall|i: int| 0 <= i < st.0.len() ==> symbol_ok(t, u, #[trigger] st.0[i])
    &&& st.0.len() > 0 ==> {
        let f = st.0.last().form;
        f == isolated_tag(cfg) || f == LetterForm::Final || f == LetterForm::Unsupported
    }
    &&& forall|k: int, j: int| 0 <= j < mark_at(st.1, k).len() ==> u.contains(#[trigger] mark_at(st.1, k)[j])
}

proof fn lemma_place_ok(cfg: ReshaperConfig, t: Seq<crate::form::LettersType>, u: Seq<char>, st: JoinState, c: char)
    requires
        table_wf(t),
        join_ok(cfg, t, u, st),
        u.contains(c),
    ensures
        join_ok(cfg, t, u, (drop_joiner(cfg, place(cfg, t, st.0, c)), st.1)),
{
    let syms = st.0;
    let iso = isolated_tag(cfg);
    lemma_lookup_has_key(t, c);
    lemma_lookup_wf(t, c);
    let p = place(cfg, t, syms, c);
    if syms.len() > 0 {
        let prev = syms.last();
        lemma_lookup_wf(t, prev.ch);
        assert(symbol_ok(t, u, syms[syms.len() - 1]));
    }
    assert forall|i: int| 0 <= i < p.len() implies symbol_ok(t, u, #[trigger] p[i]) by {
        if i < syms.len() - 1 {
            assert(p[i] == syms[i]);
        } else if i == syms.len() - 1 {
            assert(symbol_ok(t, u, syms[i]));
        }
    }
    let d = drop_joiner(cfg, p);
    assert forall|i: int| 0 <= i < d.len() implies symbol_ok(t, u, #[trigger] d[i]) by {
        if d != p {
            if i < p.len() - 2 {
                assert(d[i] == p[i]);
            } else {
                assert(d[i] == p[i + 1]);
            }
        }
    }
    if d != p {
        assert(d.last() == p.last());
    }
}

proof fn lemma_mark_ok(t: Seq<crate::form::LettersType>, u: Seq<char>, marks: Seq<Seq<char>>, k: int, c: char, front: bool)
    requires
        0 <= k,
        u.contains(c),
        forall|q: int, j: int| 0 <= j < mark_at(marks, q).len() ==> u.contains(#[trigger] mark_at(marks, q)[j]),
    ensures
        forall|q: int, j: int| 0 <= j < mark_at(add_mark(marks, k, c, front), q).len() ==> u.contains(#[trigger] mark_at(add_mark(marks, k, c, front), q)[j]),
{
    lemma_pad_marks(marks, k);
    let padded = pad_marks(marks, k);
    let m2 = add_mark(marks, k, c, front);
    assert forall|q: int, j: int| 0 <= j < mark_at(m2, q).len() implies u.contains(#[trigger] mark_at(m2, q)[j]) by {
        assert(mark_at(padded, q) == mark_at(marks, q));
        if q == k {
            assert(mark_at(padded, k) == padded[k]);
            if front {
                if j > 0 {
                    assert(mark_at(m2, q)[j] == padded[k][j - 1]);
                    assert(mark_at(padded, q)[j - 1] == padded[k][j - 1]);
                }
            } else {
                if j < padded[k].len() {
                    assert(mark_at(m2, q)[j] == padded[k][j]);
                    assert(mark_at(padded, q)[j] == padded[k][j]);
                }
            }
        } else {
            assert(mark_at(m2, q) == mark_at(padded, q));
        }
    }
}

proof fn lemma_join_ok(cfg: ReshaperConfig, t: Seq<crate::form::LettersType>, u: Seq<char>, p: Seq<char>)
    requires
        table_wf(t),
        forall|i: int| 0 <= i < p.len() ==> u.contains(#[trigger] p[i]),
    ensures
        join_ok(cfg, t, u, join_prefix(cfg, t, p)),
    decreases p.len(),
{
    if p.len() == 0 {
        assert forall|k: int, j: int| 0 <= j < mark_at(Seq::<Seq<char>>::empty(), k).len() implies u.contains(#[trigger] mark_at(Seq::<Seq<char>>::empty(), k)[j]) by {}
    } else {
        assert forall|i: int| 0 <= i < p.drop_last().len() implies u.contains(#[trigger] p.drop_last()[i]) by {
            assert(p.drop_last()[i] == p[i]);
        }
        lemma_join_ok(cfg, t, u, p.drop_last());
        let st = join_prefix(cfg, t, p.drop_last());
        let c = p[p.len() - 1];
        assert(u.contains(c));
        assert(p.last() == c);
        if crate::shaping::is_harakat(c) {
            if !cfg.delete_harakat {
                let shift: int = if cfg.shift_harakat_position { 1 } else { 0 };
                let k = st.0.len() - shift;
                if k >= 0 {
                    lemma_mark_ok(t, u, st.1, k, c, cfg.shift_harakat_position);
                }
            }
        } else if !is_dropped(cfg, c) {
            lemma_place_ok(cfg, t, u, st, c);
        }
    }
}

proof fn lemma_substitute_ok(t: Seq<crate::form::LettersType>, u: Seq<char>, cells: Seq<Slot>, a: int, b: int, forms: Forms)
    requires
        forall|i: int| 0 <= i < cells.len() ==> slot_ok(t, u, #[trigger] cells[i]),
    ensures
        substitute(cells, a, b, forms).len() == cells.len(),
        forall|i: int| 0 <= i < cells.len() ==> slot_ok(t, u, #[trigger] substitute(cells, a, b, forms)[i]),
{
    if 0 <= a < b <= cells.len() && span_free(cells, a, b) {
        let g = forms.glyph(ligature_form(cell_form(cells[a]), cell_form(cells[b - 1])));
        if g != '\0' {
            let c1 = cells.update(a, Slot::Glyph(g));
            lemma_vacate(c1, a + 1, b);
            assert forall|i: int| 0 <= i < cells.len() implies slot_ok(t, u, #[trigger] substitute(cells, a, b, forms)[i]) by {
                if i < a + 1 || i >= b {
                    assert(substitute(cells, a, b, forms)[i] == c1[i]);
                }
            }
        }
    }
}

proof fn lemma_scan_ok(t: Seq<crate::form::LettersType>, u: Seq<char>, cells: Seq<Slot>, text: Seq<char>, pat: Seq<char>, forms: Forms, pos: int)
    requires
        forall|i: int| 0 <= i < cells.len() ==> slot_ok(t, u, #[trigger] cells[i]),
    ensures
        scan(cells, text, pat, forms, pos).len() == cells.len(),
        forall|i: int| 0 <= i < cells.len() ==> slot_ok(t, u, #[trigger] scan(cells, text, pat, forms, pos)[i]),
    decreases text.len() - pos,
{
    if pat.len() == 0 || pos < 0 || pos + pat.len() > text.len() {
    } else if occurs_at(text, pat, pos) {
        lemma_substitute_ok(t, u, cells, pos, pos + pat.len(), forms);
        lemma_scan_ok(t, u, substitute(cells, pos, pos + pat.len(), forms), text, pat, forms, pos + pat.len());
    } else {
        lemma_scan_ok(t, u, cells, text, pat, forms, pos + 1);
    }
}

proof fn lemma_patterns_ok(t: Seq<crate::form::LettersType>, u: Seq<char>, cells: Seq<Slot>, text: Seq<char>, lig: LigatureSpec, n: int)
    requires
        forall|i: int| 0 <= i < cells.len() ==> slot_ok(t, u, #[trigger] cells[i]),
    ensures
        apply_patterns(cells, text, lig, n).len() == cells.len(),
        forall|i: int| 0 <= i < cells.len() ==> slot_ok(t, u, #[trigger] apply_patterns(cells, text, lig, n)[i]),
    decreases n,
{
    if n > 0 {
        lemma_patterns_ok(t, u, cells, text, lig, n - 1);
        lemma_scan_ok(t, u, apply_patterns(cells, text, lig, n - 1), text, lig.0[n - 1], lig.1, 0);
    }
}

proof fn lemma_ligatures_ok(t: Seq<crate::form::LettersType>, u: Seq<char>, cells: Seq<Slot>, text: Seq<char>, table: Seq<LigatureSpec>, list: Seq<bool>, n: int)
    requires
        forall|i: int| 0 <= i < cells.len() ==> slot_ok(t, u, #[trigger] cells[i]),
    ensures
        apply_ligatures(cells, text, table, list, n).len() == cells.len(),
        forall|i: int| 0 <= i < cells.len() ==> slot_ok(t, u, #[trigger] apply_ligatures(cells, text, table, list, n)[i]),
    decreases n,
{
    if n > 0 {
        lemma_ligatures_ok(t, u, cells, text, table, list, n - 1);
        let before = apply_ligatures(cells, text, table, list, n - 1);
        if crate::config::is_enabled(list, n - 1) {
            lemma_patterns_ok(t, u, before, text, table[n - 1], table[n - 1].0.len() as int);
        }
    }
}

proof fn lemma_assemble_ok(t: Seq<crate::form::LettersType>, u: Seq<char>, cells: Seq<Slot>, marks: Seq<Seq<char>>, n: int)
    requires
        0 <= n <= cells.len(),
        forall|i: int| 0 <= i < cells.len() ==> slot_ok(t, u, #[trigger] cells[i]),
        forall|k: int, j: int| 0 <= j < mark_at(marks, k).len() ==> u.contains(#[trigger] mark_at(marks, k)[j]),
    ensures
        forall|i: int| 0 <= i < assemble(t, cells, marks, n).len() ==> #[trigger] assemble(t, cells, marks, n)[i] != '\0' || u.contains(assemble(t, cells, marks, n)[i]),
    decreases n,
{
    let out = assemble(t, cells, marks, n);
    if n == 0 {
        assert forall|i: int| 0 <= i < out.len() implies #[trigger] out[i] != '\0' || u.contains(out[i]) by {
            assert(u.contains(mark_at(marks, 0)[i]));
        }
    } else {
        lemma_assemble_ok(t, u, cells, marks, n - 1);
        let a = assemble(t, cells, marks, n - 1);
        let ct = cell_text(t, cells[n - 1]);
        let m = mark_at(marks, n);
        assert(slot_ok(t, u, cells[n - 1]));
        assert(out == a + ct + m);
        assert forall|i: int| 0 <= i < out.len() implies #[trigger] out[i] != '\0' || u.contains(out[i]) by {
            if i < a.len() {
                assert(out[i] == a[i]);
            } else if i < a.len() + ct.len() {
                assert(out[i] == ct[i - a.len()]);
            } else {
                assert(out[i] == m[i - a.len() - ct.len()]);
                assert(u.contains(m[i - a.len() - ct.len()]));
            }
        }
    }
}

/// Every cell that the join and ligature passes leave has an existing glyph
/// or keeps a character of `s`.
pub proof fn lemma_shaped_cells_ok(cfg: ReshaperConfig, s: Seq<char>)
    requires
        table_wf(table_of(cfg.language)),
    ensures
        crate::shaping::shaped_cells(cfg, s).len() == join_pass(cfg, table_of(cfg.language), s).0.len(),
        forall|i: int| 0 <= i < crate::shaping::shaped_cells(cfg, s).len() ==> slot_ok(table_of(cfg.language), s, #[trigger] crate::shaping::shaped_cells(cfg, s)[i]),
{
    let t = table_of(cfg.language);
    assert forall|i: int| 0 <= i < s.len() implies s.contains(#[trigger] s[i]) by {}
    lemma_join_ok(cfg, t, s, s);
    let st = join_prefix(cfg, t, s);
    let jp = join_pass(cfg, t, s);
    assert forall|i: int| 0 <= i < jp.0.len() implies symbol_ok(t, s, #[trigger] jp.0[i]) by {
        assert(jp.0[i] == st.0[i]);
    }
    let cells = cells_of(jp.0);
    lemma_cells_of(jp.0);
    assert forall|i: int| 0 <= i < cells.len() implies slot_ok(t, s, #[trigger] cells[i]) by {
        assert(symbol_ok(t, s, jp.0[i]));
    }
    if cfg.support_ligatures {
        lemma_ligatures_ok(t, s, cells, cleaned(cfg, s), ligatures_spec(), cfg.ligatures.list@, ligatures_spec().len() as int);
    }
}

/// No missing glyph: with a well-formed letter table, every character of the
/// output is an existing glyph or a character of the input, so the output
/// holds `'\0'` only where the input does.
pub proof fn lemma_no_missing_glyph(cfg: ReshaperConfig, s: Seq<char>)
    requires
        table_wf(table_of(cfg.language)),
    ensures
        forall|i: int| 0 <= i < reshape_spec(cfg, s).len() ==> #[trigger] reshape_spec(cfg, s)[i] != '\0' || s.contains(reshape_spec(cfg, s)[i]),
{
    if s.len() > 0 {
        let t = table_of(cfg.language);
        let jp = join_pass(cfg, t, s);
        lemma_shaped_cells_ok(cfg, s);
        assert forall|i: int| 0 <= i < s.len() implies s.contains(#[trigger] s[i]) by {}
        lemma_join_ok(cfg, t, s, s);
        let shaped = crate::shaping::shaped_cells(cfg, s);
        lemma_assemble_ok(t, s, shaped, jp.1, shaped.len() as int);
    }
}

/// The characters of the symbols, in order.
pub open spec fn same_chars(syms: Seq<Symbol>, text: Seq<char>, n: int) -> bool {
    forall|i: int| 0 <= i < n ==> (#[trigger] syms[i]).ch == text[i]
}

/// What the join pass holds on a prefix: its symbols are the cleaned text,
/// but for one joiner that may still stand last.
pub open spec fn aligned(cfg: ReshaperConfig, syms: Seq<Symbol>, cl: Seq<char>) -> bool {
    &&& same_chars(syms, cl, cl.len() as int)
    &&& (syms.len() == cl.len() || (cfg.support_zwj && syms.len() == cl.len() + 1 && syms.last().ch == ZWJ))
}

proof fn lemma_place_chars(cfg: ReshaperConfig, t: Seq<crate::form::LettersType>, syms: Seq<Symbol>, c: char)
    ensures
        place(cfg, t, syms, c).len() == syms.len() + 1,
        place(cfg, t, syms, c).last().ch == c,
        forall|i: int| 0 <= i < syms.len() ==> (#[trigger] place(cfg, t, syms, c)[i]).ch == syms[i].ch,
{
}

proof fn lemma_join_aligned(cfg: ReshaperConfig, t: Seq<crate::form::LettersType>, s: Seq<char>)
    ensures
        aligned(cfg, join_prefix(cfg, t, s).0, cleaned(cfg, s)),
    decreases s.len(),
{
    if s.len() > 0 {
        lemma_join_aligned(cfg, t, s.drop_last());
        let st = join_prefix(cfg, t, s.drop_last());
        let cl0 = cleaned(cfg, s.drop_last());
        let c = s.last();
        let cl = cleaned(cfg, s);
        if !crate::shaping::is_harakat(c) && !is_dropped(cfg, c) {
            let p = place(cfg, t, st.0, c);
            lemma_place_chars(cfg, t, st.0, c);
            let d = drop_joiner(cfg, p);
            let n = cl0.len() as int;
            if c == ZWJ {
                assert(cl == cl0);
                if st.0.len() == n + 1 {
                    assert(p[p.len() - 2].ch == st.0.last().ch);
                    assert(d.len() == n + 1);
                    assert forall|i: int| 0 <= i < n implies (#[trigger] d[i]).ch == cl[i] by {
                        assert(d[i] == p[i]);
                    }
                } else if n > 0 {
                    assert(p[p.len() - 2].ch == st.0[n - 1].ch);
                    assert(cl0[n - 1] != ZWJ) by {
                        lemma_cleaned_no_joiner(cfg, s.drop_last());
                    }
                }
            } else {
                assert(crate::shaping::kept_for_ligatures(cfg, c));
                assert(cl == cl0.push(c));
                if st.0.len() == n + 1 {
                    assert(p[p.len() - 2].ch == st.0.last().ch);
                    assert(d.len() == n + 1);
                    assert forall|i: int| 0 <= i <= n implies (#[trigger] d[i]).ch == cl[i] by {
                        if i < n {
                            assert(d[i] == p[i]);
                        } else {
                            assert(d[i] == p[i + 1]);
                        }
                    }
                } else {
                    if n > 0 {
                        assert(p[p.len() - 2].ch == st.0[n - 1].ch);
                        assert(cl0[n - 1] != ZWJ) by {
                            lemma_cleaned_no_joiner(cfg, s.drop_last());
                        }
                    }
                    assert forall|i: int| 0 <= i <= n implies (#[trigger] d[i]).ch == cl[i] by {}
                }
            }
        } else {
            assert(cl == cl0);
        }
    }
}

proof fn lemma_cleaned_no_joiner(cfg: ReshaperConfig, s: Seq<char>)
    ensures
        forall|i: int| 0 <= i < cleaned(cfg, s).len() ==> #[trigger] cleaned(cfg, s)[i] != ZWJ,
    decreases s.len(),
{
    if s.len() > 0 {
        lemma_cleaned_no_joiner(cfg, s.drop_last());
        let r = cleaned(cfg, s.drop_last());
        if crate::shaping::kept_for_ligatures(cfg, s.last()) {
            assert forall|i: int| 0 <= i < r.push(s.last()).len() implies #[trigger] r.push(s.last())[i] != ZWJ by {
                if i < r.len() {
                    assert(r.push(s.last())[i] == r[i]);
                }
            }
        }
    }
}

/// The text that ligatures are searched in lines up with the symbols of the
/// join pass: symbol `i` stands for character `i` of it, so a match there
/// covers exactly the symbols of the matched characters.
pub proof fn lemma_ligature_text_aligned(cfg: ReshaperConfig, s: Seq<char>)
    ensures
        join_pass(cfg, table_of(cfg.language), s).0.len() == cleaned(cfg, s).len(),
        same_chars(join_pass(cfg, table_of(cfg.language), s).0, cleaned(cfg, s), cleaned(cfg, s).len() as int),
{
    let t = table_of(cfg.language);
    lemma_join_aligned(cfg, t, s);
    let st = join_prefix(cfg, t, s);
    let cl = cleaned(cfg, s);
    if st.0.len() == cl.len() && st.0.len() > 0 {
        assert(st.0.last() == st.0[cl.len() - 1]);
        lemma_cleaned_no_joiner(cfg, s);
    }
    let jp = join_pass(cfg, t, s);
    assert forall|i: int| 0 <= i < cl.len() implies (#[trigger] jp.0[i]).ch == cl[i] by {
        assert(jp.0[i] == st.0[i]);
    }
}

/// The cells after the join pass and the first `n` ligatures of the table.
pub open spec fn cells_after(cfg: ReshaperConfig, s: Seq<char>, n: int) -> Seq<Slot> {
    let cells = cells_of(join_pass(cfg, table_of(cfg.language), s).0);
    apply_ligatures(cells, cleaned(cfg, s), ligatures_spec(), cfg.ligatures.list@, n)
}

/// Ligature precedence in the reshaped text: once the first `n` ligatures of
/// the table have put a glyph on a cell (or covered it), that cell reaches
/// the output as they left it. The reshaped text is the assembly of these
/// cells, so a later entry that overlaps an earlier match emits nothing there.
pub proof fn lemma_ligature_precedence_in_output(cfg: ReshaperConfig, s: Seq<char>, n: int, a: int)
    requires
        s.len() > 0,
        cfg.support_ligatures,
        0 <= n <= ligatures_spec().len(),
        0 <= a < cells_after(cfg, s, n).len(),
        !(cells_after(cfg, s, n)[a] is Letter),
    ensures
        crate::shaping::shaped_cells(cfg, s)[a] == cells_after(cfg, s, n)[a],
        reshape_spec(cfg, s) == assemble(
            table_of(cfg.language),
            crate::shaping::shaped_cells(cfg, s),
            join_pass(cfg, table_of(cfg.language), s).1,
            crate::shaping::shaped_cells(cfg, s).len() as int,
        ),
{
    let cells = cells_of(join_pass(cfg, table_of(cfg.language), s).0);
    lemma_ligature_precedence(cells, cleaned(cfg, s), ligatures_spec(), cfg.ligatures.list@, n, ligatures_spec().len() as int);
}

} // verus!
