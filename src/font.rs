//! Building a configuration from the glyphs a TrueType font provides.
use vstd::prelude::*;

use ttf_parser::Face;

use crate::config::{is_default_ligature, Language, Ligatures, LigaturesFlags, ReshaperConfig};
use crate::form::{Forms, LettersType};
use crate::letters::{table_of, Letters};
use crate::ligatures::{
    ligatures, ligatures_spec, table_view, LETTERS_LIGATURES_END, LETTERS_LIGATURES_START,
    LIGATURES_LEN, SENTENCES_LIGATURES_END, SENTENCES_LIGATURES_START, WORDS_LIGATURES_END,
    WORDS_LIGATURES_START, lemma_ligatures_len,
};

verus! {

/// Whether `ttf_parser` accepts `bytes` as a font (face index 0).
pub uninterp spec fn font_parses(bytes: Seq<u8>) -> bool;

/// The number of subtables of the character map of the font in `bytes`;
/// `None` when it has no character map.
pub uninterp spec fn cmap_len(bytes: Seq<u8>) -> Option<u16>;

/// Whether subtable `index` of the character map of the font in `bytes` maps
/// `c` to a glyph.
pub uninterp spec fn subtable_maps_char(bytes: Seq<u8>, index: u16, c: char) -> bool;

/// Relies on `ttf_parser::Face::parse` (face index 0): whether the font is
/// accepted, and otherwise the parse error's message.
#[verifier::external_body]
fn parse_face(bytes: &[u8]) -> (r: Result<(), String>)
    ensures
        r is Ok == font_parses(bytes@),
{
    Face::parse(bytes, 0).map(|_| ()).map_err(|e| e.to_string())
}

/// Relies on `Face::parse`, `Face::tables` and `cmap::Subtables::len`: the
/// number of subtables of the font's character map.
#[verifier::external_body]
fn cmap_subtable_count(bytes: &[u8]) -> (r: Option<u16>)
    ensures
        r == cmap_len(bytes@),
{
    match Face::parse(bytes, 0) {
        Ok(face) => face.tables().cmap.map(|t| t.subtables.len()),
        Err(_) => None,
    }
}

/// Relies on `Face::parse`, `cmap::Subtables::get` and
/// `cmap::Subtable::glyph_index`: whether subtable `index` maps `c` to a glyph.
#[verifier::external_body]
fn subtable_maps(bytes: &[u8], index: u16, c: char) -> (r: bool)
    ensures
        r == subtable_maps_char(bytes@, index, c),
{
    match Face::parse(bytes, 0) {
        Ok(face) => match face.tables().cmap.and_then(|t| t.subtables.get(index)) {
            Some(s) => s.glyph_index(c as u32).is_some(),
            None => false,
        },
        Err(_) => false,
    }
}

/// Where the glyphs a configuration is chosen for come from.
pub enum Coverage<'a> {
    /// Exactly the listed characters.
    Chars(&'a Vec<char>),
    /// The font in the bytes, whose character map has the given number of
    /// subtables.
    Font(&'a [u8], u16),
}

/// Whether some subtable `i < n` of the font's character map maps `c`.
pub open spec fn font_covers(bytes: Seq<u8>, n: u16, c: char) -> bool {
    exists|i: u16| i < n && #[trigger] subtable_maps_char(bytes, i, c)
}

impl<'a> Coverage<'a> {
    /// Whether `c` has a glyph.
    pub open spec fn spec_covers(&self, c: char) -> bool {
        match self {
            Coverage::Chars(v) => v@.contains(c),
            Coverage::Font(b, n) => font_covers(b@, *n, c),
        }
    }

    /// Whether `c` has a glyph.
    fn covers(&self, c: char) -> (r: bool)
        ensures
            r == self.spec_covers(c),
    {
        match self {
            Coverage::Chars(v) => contains(v, c),
            Coverage::Font(b, n) => {
                let mut i: u16 = 0;
                while i < *n
                    invariant
                        i <= *n,
                        self.spec_covers(c) == font_covers(b@, *n, c),
                        forall|j: u16| j < i ==> !#[trigger] subtable_maps_char(b@, j, c),
                    decreases *n - i,
                {
                    if subtable_maps(b, i, c) {
                        assert(i < *n && subtable_maps_char(b@, i, c));
                        return true;
                    }
                    i += 1;
                }
                false
            },
        }
    }
}

/// Whether ligature `i` belongs to a group that `flags` turns on.
pub open spec fn in_enabled_group(flags: LigaturesFlags, i: int) -> bool {
    ||| flags.sentences_ligatures && SENTENCES_LIGATURES_START <= i < SENTENCES_LIGATURES_END
    ||| flags.words_ligatures && WORDS_LIGATURES_START <= i < WORDS_LIGATURES_END
    ||| flags.letters_ligatures && LETTERS_LIGATURES_START <= i < LETTERS_LIGATURES_END
}

/// Some letter of `t` has no isolated glyph among `covered`.
pub open spec fn lacks_isolated(t: Seq<LettersType>, covered: Coverage) -> bool {
    exists|i: int| 0 <= i < t.len() && missing_isolated(#[trigger] t[i].1, covered)
}

/// `f` has no isolated glyph among `covered`.
pub open spec fn missing_isolated(f: Forms, covered: Coverage) -> bool {
    f.isolated == '\0' || !covered.spec_covers(f.isolated)
}

/// Every glyph of `f` is among `covered`.
pub open spec fn forms_covered(f: Forms, covered: Coverage) -> bool {
    &&& (f.isolated != '\0' ==> covered.spec_covers(f.isolated))
    &&& (f.initial != '\0' ==> covered.spec_covers(f.initial))
    &&& (f.medial != '\0' ==> covered.spec_covers(f.medial))
    &&& (f.end != '\0' ==> covered.spec_covers(f.end))
}

/// `c` is the configuration for a font whose glyphs are `covered` (`None`: a
/// font without a character map): isolated glyphs are replaced by
/// the letters themselves when the font lacks one of them, and each ligature
/// of a selected group is enabled iff the font has all of its glyphs.
pub open spec fn font_config(c: ReshaperConfig, language: Language, flags: LigaturesFlags, covered: Option<Coverage>) -> bool {
    &&& c.language == language
    &&& c.delete_harakat
    &&& !c.shift_harakat_position
    &&& !c.delete_tatweel
    &&& c.support_zwj
    &&& c.support_ligatures == !flags.spec_is_none_enabled()
    &&& match covered {
        None => {
            &&& c.use_unshaped_instead_of_isolated
            &&& c.ligatures.list@ == Seq::new(LIGATURES_LEN as nat, |i: int| false)
        },
        Some(cov) => {
            &&& c.use_unshaped_instead_of_isolated == lacks_isolated(table_of(language), cov)
            &&& c.ligatures.list@.len() == LIGATURES_LEN
            &&& forall|i: int| 0 <= i < LIGATURES_LEN ==> #[trigger] c.ligatures.list@[i] == if !flags.spec_is_none_enabled() && in_enabled_group(flags, i) {
                forms_covered(ligatures_spec()[i].1, cov)
            } else {
                is_default_ligature(i)
            }
        },
    }
}

/// Whether `c` is one of `v`.
fn contains(v: &Vec<char>, c: char) -> (r: bool)
    ensures
        r == v@.contains(c),
{
    let mut i: usize = 0;
    while i < v.len()
        invariant
            i <= v@.len(),
            forall|j: int| 0 <= j < i ==> v@[j] != c,
        decreases v@.len() - i,
    {
        if v[i] == c {
            assert(v@[i as int] == c);
            return true;
        }
        i += 1;
    }
    false
}

/// Whether every glyph of `f` is covered.
fn all_covered(f: Forms, covered: &Coverage) -> (r: bool)
    ensures
        r == forms_covered(f, *covered),
{
    (f.isolated == '\0' || covered.covers(f.isolated)) && (f.initial == '\0' || covered.covers(f.initial))
        && (f.medial == '\0' || covered.covers(f.medial)) && (f.end == '\0' || covered.covers(f.end))
}

impl ReshaperConfig {
    /// The configuration for a font that maps the characters `covered` (`None`
    /// for a font without a character map).
    pub fn from_coverage(language: Language, ligatures_flags: LigaturesFlags, covered: Option<&Vec<char>>) -> (r: Self)
        ensures
            font_config(r, language, ligatures_flags, match covered {
                Some(v) => Some(Coverage::Chars(v)),
                None => None,
            }),
    {
        let cov = match covered {
            Some(v) => Some(Coverage::Chars(v)),
            None => None,
        };
        ReshaperConfig::config_for(language, ligatures_flags, cov)
    }

    /// The configuration for a font whose glyphs are `covered`.
    fn config_for(language: Language, ligatures_flags: LigaturesFlags, covered: Option<Coverage>) -> (r: Self)
        ensures
            font_config(r, language, ligatures_flags, covered),
    {
        let none = ligatures_flags.is_none_enabled();
        match covered {
            None => ReshaperConfig {
                language,
                delete_harakat: true,
                shift_harakat_position: false,
                delete_tatweel: false,
                support_zwj: true,
                use_unshaped_instead_of_isolated: true,
                support_ligatures: !none,
                ligatures: Ligatures::empty(),
            },
            Some(cov) => {
                let letters = Letters::new(&language);
                let mut unshaped = false;
                let mut i: usize = 0;
                while i < letters.0.len()
                    invariant
                        i <= letters@.len(),
                        letters@ == table_of(language),
                        unshaped == exists|j: int| 0 <= j < i && missing_isolated(#[trigger] letters@[j].1, cov),
                    decreases letters@.len() - i,
                {
                    let f = letters.0[i].1;
                    let missing = f.isolated == '\0' || !cov.covers(f.isolated);
                    assert(missing == missing_isolated(letters@[i as int].1, cov));
                    unshaped = unshaped || missing;
                    i += 1;
                }
                let mut ligs = Ligatures::default();
                if !none {
                    let table = ligatures();
                    proof {
                        lemma_ligatures_len();
                    }
                    let mut n: usize = 0;
                    while n < LIGATURES_LEN
                        invariant
                            n <= LIGATURES_LEN,
                            !none,
                            none == ligatures_flags.spec_is_none_enabled(),
                            table@.len() == LIGATURES_LEN,
                            table_view(table@) == ligatures_spec(),
                            ligs.list@.len() == LIGATURES_LEN,
                            forall|i: int| 0 <= i < LIGATURES_LEN ==> #[trigger] ligs.list@[i] == if i < n && in_enabled_group(ligatures_flags, i) {
                                forms_covered(ligatures_spec()[i].1, cov)
                            } else {
                                is_default_ligature(i)
                            },
                        decreases LIGATURES_LEN - n,
                    {
                        let in_group = (ligatures_flags.sentences_ligatures && SENTENCES_LIGATURES_START <= n && n < SENTENCES_LIGATURES_END)
                            || (ligatures_flags.words_ligatures && WORDS_LIGATURES_START <= n && n < WORDS_LIGATURES_END)
                            || (ligatures_flags.letters_ligatures && LETTERS_LIGATURES_START <= n && n < LETTERS_LIGATURES_END);
                        if in_group {
                            assert(table_view(table@)[n as int] == table@[n as int]@);
                            let ok = all_covered(table[n].forms, &cov);
                            ligs.list.set(n, ok);
                        }
                        n += 1;
                    }
                }
                ReshaperConfig {
                    language,
                    delete_harakat: true,
                    shift_harakat_position: false,
                    delete_tatweel: false,
                    support_zwj: true,
                    use_unshaped_instead_of_isolated: unshaped,
                    support_ligatures: !none,
                    ligatures: ligs,
                }
            },
        }
    }

    /// The configuration for the TrueType font in `bytes`, chosen from the
    /// glyphs its character map provides (see `font_config`). Fails with the
    /// parser's message when the font cannot be read.
    pub fn from_font(bytes: &[u8], language: Language, ligatures_flags: LigaturesFlags) -> (r: Result<Self, String>)
        ensures
            r is Ok == font_parses(bytes@),
            r matches Ok(c) ==> font_config(c, language, ligatures_flags, match cmap_len(bytes@) {
                Some(n) => Some(Coverage::Font(bytes, n)),
                None => None,
            }),
    {
        match parse_face(bytes) {
            Ok(()) => {},
            Err(e) => {
                return Err(e);
            },
        }
        let cov = match cmap_subtable_count(bytes) {
            Some(n) => Some(Coverage::Font(bytes, n)),
            None => None,
        };
        Ok(ReshaperConfig::config_for(language, ligatures_flags, cov))
    }
}

} // verus!
