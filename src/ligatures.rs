//! The ligature table: which character sequences a single glyph may replace.
//!
//! Order matters: sentences first, then words, then letter pairs and triples,
//! so that a longer ligature is found before the shorter ones inside it.
use vstd::prelude::*;

use crate::form::Forms;
use crate::letters::letters_db::ligature_start;
use crate::shaping::is_harakat;

verus! {

/// First index of the sentence ligatures.
pub const SENTENCES_LIGATURES_START: usize = 0;
/// End (exclusive) of the sentence ligatures.
pub const SENTENCES_LIGATURES_END: usize = 3;
/// First index of the word ligatures.
pub const WORDS_LIGATURES_START: usize = 3;
/// End (exclusive) of the word ligatures.
pub const WORDS_LIGATURES_END: usize = 12;
/// First index of the letter ligatures.
pub const LETTERS_LIGATURES_START: usize = 12;
/// End (exclusive) of the letter ligatures.
pub const LETTERS_LIGATURES_END: usize = 286;
/// Number of ligatures in the table.
pub const LIGATURES_LEN: usize = 286;

/// One ligature: the character sequences it replaces (variants of one another)
/// and the glyph for each position the sequence can stand in.
#[derive(Clone, Debug)]
pub struct Ligature {
    pub patterns: Vec<Vec<char>>,
    pub forms: Forms,
}

/// A ligature as mathematical values: its patterns and its forms.
pub type LigatureSpec = (Seq<Seq<char>>, Forms);

impl View for Ligature {
    type V = LigatureSpec;

    open spec fn view(&self) -> LigatureSpec {
        (self.patterns.deep_view(), self.forms)
    }
}

/// The view of each ligature of a table.
pub open spec fn table_view(t: Seq<Ligature>) -> Seq<LigatureSpec> {
    t.map_values(|l: Ligature| l@)
}

/// Every pattern of every ligature is non-empty.
pub open spec fn ligatures_wf(t: Seq<LigatureSpec>) -> bool {
    forall|i: int, j: int| 0 <= i < t.len() && 0 <= j < t[i].0.len() ==> #[trigger] t[i].0[j].len() > 0
}

/// Every pattern starts with a haraka or with a character of `ligature_start`.
pub open spec fn starts_known(t: Seq<LigatureSpec>) -> bool {
    forall|i: int, j: int| 0 <= i < t.len() && 0 <= j < t[i].0.len() ==> (is_harakat(#[trigger] t[i].0[j][0]) || ligature_start(t[i].0[j][0]))
}

/// A ligature entry from its patterns and its four glyphs.
pub open spec fn lig(patterns: Seq<Seq<char>>, isolated: char, initial: char, medial: char, end: char) -> LigatureSpec {
    (patterns, Forms { isolated, initial, medial, end })
}

/// The name of each ligature, in table order.
#[allow(non_camel_case_types)]
#[derive(Clone, Copy, Debug, PartialEq, Eq, Structural, Hash)]
pub enum LigatureNames {
    ARABIC_LIGATURE_BISMILLAH_AR_RAHMAN_AR_RAHEEM,
    ARABIC_LIGATURE_JALLAJALALOUHOU,
    ARABIC_LIGATURE_SALLALLAHOU_ALAYHE_WASALLAM,
    ARABIC_LIGATURE_ALLAH,
    ARABIC_LIGATURE_AKBAR,
    ARABIC_LIGATURE_ALAYHE,
    ARABIC_LIGATURE_MOHAMMAD,
    ARABIC_LIGATURE_RASOUL,
    ARABIC_LIGATURE_SALAM,
    ARABIC_LIGATURE_SALLA,
    ARABIC_LIGATURE_WASALLAM,
    RIAL_SIGN,
    ARABIC_LIGATURE_AIN_WITH_ALEF_MAKSURA,
    ARABIC_LIGATURE_AIN_WITH_JEEM,
    ARABIC_LIGATURE_AIN_WITH_JEEM_WITH_MEEM,
    ARABIC_LIGATURE_AIN_WITH_MEEM,
    ARABIC_LIGATURE_AIN_WITH_MEEM_WITH_ALEF_MAKSURA,
    ARABIC_LIGATURE_AIN_WITH_MEEM_WITH_MEEM,
    ARABIC_LIGATURE_AIN_WITH_MEEM_WITH_YEH,
    ARABIC_LIGATURE_AIN_WITH_YEH,
    ARABIC_LIGATURE_ALEF_MAKSURA_WITH_SUPERSCRIPT_ALEF,
    ARABIC_LIGATURE_ALEF_WITH_FATHATAN,
    ARABIC_LIGATURE_BEH_WITH_ALEF_MAKSURA,
    ARABIC_LIGATURE_BEH_WITH_HAH,
    ARABIC_LIGATURE_BEH_WITH_HAH_WITH_YEH,
    ARABIC_LIGATURE_BEH_WITH_HEH,
    ARABIC_LIGATURE_BEH_WITH_JEEM,
    ARABIC_LIGATURE_BEH_WITH_KHAH,
    ARABIC_LIGATURE_BEH_WITH_KHAH_WITH_YEH,
    ARABIC_LIGATURE_BEH_WITH_MEEM,
    ARABIC_LIGATURE_BEH_WITH_NOON,
    ARABIC_LIGATURE_BEH_WITH_REH,
    ARABIC_LIGATURE_BEH_WITH_YEH,
    ARABIC_LIGATURE_BEH_WITH_ZAIN,
    ARABIC_LIGATURE_DAD_WITH_ALEF_MAKSURA,
    ARABIC_LIGATURE_DAD_WITH_HAH,
    ARABIC_LIGATURE_DAD_WITH_HAH_WITH_ALEF_MAKSURA,
    ARABIC_LIGATURE_DAD_WITH_HAH_WITH_YEH,
    ARABIC_LIGATURE_DAD_WITH_JEEM,
    ARABIC_LIGATURE_DAD_WITH_KHAH,
    ARABIC_LIGATURE_DAD_WITH_KHAH_WITH_MEEM,
    ARABIC_LIGATURE_DAD_WITH_MEEM,
    ARABIC_LIGATURE_DAD_WITH_REH,
    ARABIC_LIGATURE_DAD_WITH_YEH,
    ARABIC_LIGATURE_FEH_WITH_ALEF_MAKSURA,
    ARABIC_LIGATURE_FEH_WITH_HAH,
    ARABIC_LIGATURE_FEH_WITH_JEEM,
    ARABIC_LIGATURE_FEH_WITH_KHAH,
    ARABIC_LIGATURE_FEH_WITH_KHAH_WITH_MEEM,
    ARABIC_LIGATURE_FEH_WITH_MEEM,
    ARABIC_LIGATURE_FEH_WITH_MEEM_WITH_YEH,
    ARABIC_LIGATURE_FEH_WITH_YEH,
    ARABIC_LIGATURE_GHAIN_WITH_ALEF_MAKSURA,
    ARABIC_LIGATURE_GHAIN_WITH_JEEM,
    ARABIC_LIGATURE_GHAIN_WITH_MEEM,
    ARABIC_LIGATURE_GHAIN_WITH_MEEM_WITH_ALEF_MAKSURA,
    ARABIC_LIGATURE_GHAIN_WITH_MEEM_WITH_MEEM,
    ARABIC_LIGATURE_GHAIN_WITH_MEEM_WITH_YEH,
    ARABIC_LIGATURE_GHAIN_WITH_YEH,
    ARABIC_LIGATURE_HAH_WITH_ALEF_MAKSURA,
    ARABIC_LIGATURE_HAH_WITH_JEEM,
    ARABIC_LIGATURE_HAH_WITH_JEEM_WITH_YEH,
    ARABIC_LIGATURE_HAH_WITH_MEEM,
    ARABIC_LIGATURE_HAH_WITH_MEEM_WITH_ALEF_MAKSURA,
    ARABIC_LIGATURE_HAH_WITH_MEEM_WITH_YEH,
    ARABIC_LIGATURE_HAH_WITH_YEH,
    ARABIC_LIGATURE_HEH_WITH_ALEF_MAKSURA,
    ARABIC_LIGATURE_HEH_WITH_JEEM,
    ARABIC_LIGATURE_HEH_WITH_MEEM,
    ARABIC_LIGATURE_HEH_WITH_MEEM_WITH_JEEM,
    ARABIC_LIGATURE_HEH_WITH_MEEM_WITH_MEEM,
    ARABIC_LIGATURE_HEH_WITH_SUPERSCRIPT_ALEF,
    ARABIC_LIGATURE_HEH_WITH_YEH,
    ARABIC_LIGATURE_JEEM_WITH_ALEF_MAKSURA,
    ARABIC_LIGATURE_JEEM_WITH_HAH,
    ARABIC_LIGATURE_JEEM_WITH_HAH_WITH_ALEF_MAKSURA,
    ARABIC_LIGATURE_JEEM_WITH_HAH_WITH_YEH,
    ARABIC_LIGATURE_JEEM_WITH_MEEM,
    ARABIC_LIGATURE_JEEM_WITH_MEEM_WITH_ALEF_MAKSURA,
    ARABIC_LIGATURE_JEEM_WITH_MEEM_WITH_HAH,
    ARABIC_LIGATURE_JEEM_WITH_MEEM_WITH_YEH,
    ARABIC_LIGATURE_JEEM_WITH_YEH,
    ARABIC_LIGATURE_KAF_WITH_ALEF,
    ARABIC_LIGATURE_KAF_WITH_ALEF_MAKSURA,
    ARABIC_LIGATURE_KAF_WITH_HAH,
    ARABIC_LIGATURE_KAF_WITH_JEEM,
    ARABIC_LIGATURE_KAF_WITH_KHAH,
    ARABIC_LIGATURE_KAF_WITH_LAM,
    ARABIC_LIGATURE_KAF_WITH_MEEM,
    ARABIC_LIGATURE_KAF_WITH_MEEM_WITH_MEEM,
    ARABIC_LIGATURE_KAF_WITH_MEEM_WITH_YEH,
    ARABIC_LIGATURE_KAF_WITH_YEH,
    ARABIC_LIGATURE_KHAH_WITH_ALEF_MAKSURA,
    ARABIC_LIGATURE_KHAH_WITH_HAH,
    ARABIC_LIGATURE_KHAH_WITH_JEEM,
    ARABIC_LIGATURE_KHAH_WITH_MEEM,
    ARABIC_LIGATURE_KHAH_WITH_YEH,
    ARABIC_LIGATURE_LAM_WITH_ALEF,
    ARABIC_LIGATURE_LAM_WITH_ALEF_MAKSURA,
    ARABIC_LIGATURE_LAM_WITH_ALEF_WITH_HAMZA_ABOVE,
    ARABIC_LIGATURE_LAM_WITH_ALEF_WITH_HAMZA_BELOW,
    ARABIC_LIGATURE_LAM_WITH_ALEF_WITH_MADDA_ABOVE,
    ARABIC_LIGATURE_LAM_WITH_HAH,
    ARABIC_LIGATURE_LAM_WITH_HAH_WITH_ALEF_MAKSURA,
    ARABIC_LIGATURE_LAM_WITH_HAH_WITH_MEEM,
    ARABIC_LIGATURE_LAM_WITH_HAH_WITH_YEH,
    ARABIC_LIGATURE_LAM_WITH_HEH,
    ARABIC_LIGATURE_LAM_WITH_JEEM,
    ARABIC_LIGATURE_LAM_WITH_JEEM_WITH_JEEM,
    ARABIC_LIGATURE_LAM_WITH_JEEM_WITH_MEEM,
    ARABIC_LIGATURE_LAM_WITH_JEEM_WITH_YEH,
    ARABIC_LIGATURE_LAM_WITH_KHAH,
    ARABIC_LIGATURE_LAM_WITH_KHAH_WITH_MEEM,
    ARABIC_LIGATURE_LAM_WITH_MEEM,
    ARABIC_LIGATURE_LAM_WITH_MEEM_WITH_HAH,
    ARABIC_LIGATURE_LAM_WITH_MEEM_WITH_YEH,
    ARABIC_LIGATURE_LAM_WITH_YEH,
    ARABIC_LIGATURE_MEEM_WITH_ALEF,
    ARABIC_LIGATURE_MEEM_WITH_ALEF_MAKSURA,
    ARABIC_LIGATURE_MEEM_WITH_HAH,
    ARABIC_LIGATURE_MEEM_WITH_HAH_WITH_JEEM,
    ARABIC_LIGATURE_MEEM_WITH_HAH_WITH_MEEM,
    ARABIC_LIGATURE_MEEM_WITH_HAH_WITH_YEH,
    ARABIC_LIGATURE_MEEM_WITH_JEEM,
    ARABIC_LIGATURE_MEEM_WITH_JEEM_WITH_HAH,
    ARABIC_LIGATURE_MEEM_WITH_JEEM_WITH_KHAH,
    ARABIC_LIGATURE_MEEM_WITH_JEEM_WITH_MEEM,
    ARABIC_LIGATURE_MEEM_WITH_JEEM_WITH_YEH,
    ARABIC_LIGATURE_MEEM_WITH_KHAH,
    ARABIC_LIGATURE_MEEM_WITH_KHAH_WITH_JEEM,
    ARABIC_LIGATURE_MEEM_WITH_KHAH_WITH_MEEM,
    ARABIC_LIGATURE_MEEM_WITH_KHAH_WITH_YEH,
    ARABIC_LIGATURE_MEEM_WITH_MEEM,
    ARABIC_LIGATURE_MEEM_WITH_MEEM_WITH_YEH,
    ARABIC_LIGATURE_MEEM_WITH_YEH,
    ARABIC_LIGATURE_NOON_WITH_ALEF_MAKSURA,
    ARABIC_LIGATURE_NOON_WITH_HAH,
    ARABIC_LIGATURE_NOON_WITH_HAH_WITH_ALEF_MAKSURA,
    ARABIC_LIGATURE_NOON_WITH_HAH_WITH_MEEM,
    ARABIC_LIGATURE_NOON_WITH_HAH_WITH_YEH,
    ARABIC_LIGATURE_NOON_WITH_HEH,
    ARABIC_LIGATURE_NOON_WITH_JEEM,
    ARABIC_LIGATURE_NOON_WITH_JEEM_WITH_ALEF_MAKSURA,
    ARABIC_LIGATURE_NOON_WITH_JEEM_WITH_HAH,
    ARABIC_LIGATURE_NOON_WITH_JEEM_WITH_MEEM,
    ARABIC_LIGATURE_NOON_WITH_JEEM_WITH_YEH,
    ARABIC_LIGATURE_NOON_WITH_KHAH,
    ARABIC_LIGATURE_NOON_WITH_MEEM,
    ARABIC_LIGATURE_NOON_WITH_MEEM_WITH_ALEF_MAKSURA,
    ARABIC_LIGATURE_NOON_WITH_MEEM_WITH_YEH,
    ARABIC_LIGATURE_NOON_WITH_NOON,
    ARABIC_LIGATURE_NOON_WITH_REH,
    ARABIC_LIGATURE_NOON_WITH_YEH,
    ARABIC_LIGATURE_NOON_WITH_ZAIN,
    ARABIC_LIGATURE_QAF_WITH_ALEF_MAKSURA,
    ARABIC_LIGATURE_QAF_WITH_HAH,
    ARABIC_LIGATURE_QAF_WITH_MEEM,
    ARABIC_LIGATURE_QAF_WITH_MEEM_WITH_HAH,
    ARABIC_LIGATURE_QAF_WITH_MEEM_WITH_MEEM,
    ARABIC_LIGATURE_QAF_WITH_MEEM_WITH_YEH,
    ARABIC_LIGATURE_QAF_WITH_YEH,
    ARABIC_LIGATURE_QALA_USED_AS_KORANIC_STOP_SIGN,
    ARABIC_LIGATURE_REH_WITH_SUPERSCRIPT_ALEF,
    ARABIC_LIGATURE_SAD_WITH_ALEF_MAKSURA,
    ARABIC_LIGATURE_SAD_WITH_HAH,
    ARABIC_LIGATURE_SAD_WITH_HAH_WITH_HAH,
    ARABIC_LIGATURE_SAD_WITH_HAH_WITH_YEH,
    ARABIC_LIGATURE_SAD_WITH_KHAH,
    ARABIC_LIGATURE_SAD_WITH_MEEM,
    ARABIC_LIGATURE_SAD_WITH_MEEM_WITH_MEEM,
    ARABIC_LIGATURE_SAD_WITH_REH,
    ARABIC_LIGATURE_SAD_WITH_YEH,
    ARABIC_LIGATURE_SALLA_USED_AS_KORANIC_STOP_SIGN,
    ARABIC_LIGATURE_SEEN_WITH_ALEF_MAKSURA,
    ARABIC_LIGATURE_SEEN_WITH_HAH,
    ARABIC_LIGATURE_SEEN_WITH_HAH_WITH_JEEM,
    ARABIC_LIGATURE_SEEN_WITH_HEH,
    ARABIC_LIGATURE_SEEN_WITH_JEEM,
    ARABIC_LIGATURE_SEEN_WITH_JEEM_WITH_ALEF_MAKSURA,
    ARABIC_LIGATURE_SEEN_WITH_JEEM_WITH_HAH,
    ARABIC_LIGATURE_SEEN_WITH_KHAH,
    ARABIC_LIGATURE_SEEN_WITH_KHAH_WITH_ALEF_MAKSURA,
    ARABIC_LIGATURE_SEEN_WITH_KHAH_WITH_YEH,
    ARABIC_LIGATURE_SEEN_WITH_MEEM,
    ARABIC_LIGATURE_SEEN_WITH_MEEM_WITH_HAH,
    ARABIC_LIGATURE_SEEN_WITH_MEEM_WITH_JEEM,
    ARABIC_LIGATURE_SEEN_WITH_MEEM_WITH_MEEM,
    ARABIC_LIGATURE_SEEN_WITH_REH,
    ARABIC_LIGATURE_SEEN_WITH_YEH,
    ARABIC_LIGATURE_SHADDA_WITH_DAMMATAN_ISOLATED_FORM,
    ARABIC_LIGATURE_SHADDA_WITH_KASRATAN_ISOLATED_FORM,
    ARABIC_LIGATURE_SHADDA_WITH_FATHA_ISOLATED_FORM,
    ARABIC_LIGATURE_SHADDA_WITH_DAMMA_ISOLATED_FORM,
    ARABIC_LIGATURE_SHADDA_WITH_KASRA_ISOLATED_FORM,
    ARABIC_LIGATURE_SHADDA_WITH_SUPERSCRIPT_ALEF,
    ARABIC_LIGATURE_SHADDA_WITH_FATHA_MEDIAL_FORM,
    ARABIC_LIGATURE_SHADDA_WITH_DAMMA_MEDIAL_FORM,
    ARABIC_LIGATURE_SHADDA_WITH_KASRA_MEDIAL_FORM,
    ARABIC_LIGATURE_SHADDA_WITH_FATHA,
    ARABIC_LIGATURE_SHADDA_WITH_DAMMA,
    ARABIC_LIGATURE_SHADDA_WITH_KASRA,
    ARABIC_LIGATURE_SHEEN_WITH_ALEF_MAKSURA,
    ARABIC_LIGATURE_SHEEN_WITH_HAH,
    ARABIC_LIGATURE_SHEEN_WITH_HAH_WITH_MEEM,
    ARABIC_LIGATURE_SHEEN_WITH_HAH_WITH_YEH,
    ARABIC_LIGATURE_SHEEN_WITH_HEH,
    ARABIC_LIGATURE_SHEEN_WITH_JEEM,
    ARABIC_LIGATURE_SHEEN_WITH_JEEM_WITH_YEH,
    ARABIC_LIGATURE_SHEEN_WITH_KHAH,
    ARABIC_LIGATURE_SHEEN_WITH_MEEM,
    ARABIC_LIGATURE_SHEEN_WITH_MEEM_WITH_KHAH,
    ARABIC_LIGATURE_SHEEN_WITH_MEEM_WITH_MEEM,
    ARABIC_LIGATURE_SHEEN_WITH_REH,
    ARABIC_LIGATURE_SHEEN_WITH_YEH,
    ARABIC_LIGATURE_TAH_WITH_ALEF_MAKSURA,
    ARABIC_LIGATURE_TAH_WITH_HAH,
    ARABIC_LIGATURE_TAH_WITH_MEEM,
    ARABIC_LIGATURE_TAH_WITH_MEEM_WITH_HAH,
    ARABIC_LIGATURE_TAH_WITH_MEEM_WITH_MEEM,
    ARABIC_LIGATURE_TAH_WITH_MEEM_WITH_YEH,
    ARABIC_LIGATURE_TAH_WITH_YEH,
    ARABIC_LIGATURE_TEH_WITH_ALEF_MAKSURA,
    ARABIC_LIGATURE_TEH_WITH_HAH,
    ARABIC_LIGATURE_TEH_WITH_HAH_WITH_JEEM,
    ARABIC_LIGATURE_TEH_WITH_HAH_WITH_MEEM,
    ARABIC_LIGATURE_TEH_WITH_HEH,
    ARABIC_LIGATURE_TEH_WITH_JEEM,
    ARABIC_LIGATURE_TEH_WITH_JEEM_WITH_ALEF_MAKSURA,
    ARABIC_LIGATURE_TEH_WITH_JEEM_WITH_MEEM,
    ARABIC_LIGATURE_TEH_WITH_JEEM_WITH_YEH,
    ARABIC_LIGATURE_TEH_WITH_KHAH,
    ARABIC_LIGATURE_TEH_WITH_KHAH_WITH_ALEF_MAKSURA,
    ARABIC_LIGATURE_TEH_WITH_KHAH_WITH_MEEM,
    ARABIC_LIGATURE_TEH_WITH_KHAH_WITH_YEH,
    ARABIC_LIGATURE_TEH_WITH_MEEM,
    ARABIC_LIGATURE_TEH_WITH_MEEM_WITH_ALEF_MAKSURA,
    ARABIC_LIGATURE_TEH_WITH_MEEM_WITH_HAH,
    ARABIC_LIGATURE_TEH_WITH_MEEM_WITH_JEEM,
    ARABIC_LIGATURE_TEH_WITH_MEEM_WITH_KHAH,
    ARABIC_LIGATURE_TEH_WITH_MEEM_WITH_YEH,
    ARABIC_LIGATURE_TEH_WITH_NOON,
    ARABIC_LIGATURE_TEH_WITH_REH,
    ARABIC_LIGATURE_TEH_WITH_YEH,
    ARABIC_LIGATURE_TEH_WITH_ZAIN,
    ARABIC_LIGATURE_THAL_WITH_SUPERSCRIPT_ALEF,
    ARABIC_LIGATURE_THEH_WITH_ALEF_MAKSURA,
    ARABIC_LIGATURE_THEH_WITH_HEH,
    ARABIC_LIGATURE_THEH_WITH_JEEM,
    ARABIC_LIGATURE_THEH_WITH_MEEM,
    ARABIC_LIGATURE_THEH_WITH_NOON,
    ARABIC_LIGATURE_THEH_WITH_REH,
    ARABIC_LIGATURE_THEH_WITH_YEH,
    ARABIC_LIGATURE_THEH_WITH_ZAIN,
    ARABIC_LIGATURE_UIGHUR_KIRGHIZ_YEH_WITH_HAMZA_ABOVE_WITH_ALEF_MAKSURA,
    ARABIC_LIGATURE_YEH_WITH_ALEF_MAKSURA,
    ARABIC_LIGATURE_YEH_WITH_HAH,
    ARABIC_LIGATURE_YEH_WITH_HAH_WITH_YEH,
    ARABIC_LIGATURE_YEH_WITH_HAMZA_ABOVE_WITH_AE,
    ARABIC_LIGATURE_YEH_WITH_HAMZA_ABOVE_WITH_ALEF,
    ARABIC_LIGATURE_YEH_WITH_HAMZA_ABOVE_WITH_ALEF_MAKSURA,
    ARABIC_LIGATURE_YEH_WITH_HAMZA_ABOVE_WITH_E,
    ARABIC_LIGATURE_YEH_WITH_HAMZA_ABOVE_WITH_HAH,
    ARABIC_LIGATURE_YEH_WITH_HAMZA_ABOVE_WITH_HEH,
    ARABIC_LIGATURE_YEH_WITH_HAMZA_ABOVE_WITH_JEEM,
    ARABIC_LIGATURE_YEH_WITH_HAMZA_ABOVE_WITH_KHAH,
    ARABIC_LIGATURE_YEH_WITH_HAMZA_ABOVE_WITH_MEEM,
    ARABIC_LIGATURE_YEH_WITH_HAMZA_ABOVE_WITH_NOON,
    ARABIC_LIGATURE_YEH_WITH_HAMZA_ABOVE_WITH_OE,
    ARABIC_LIGATURE_YEH_WITH_HAMZA_ABOVE_WITH_REH,
    ARABIC_LIGATURE_YEH_WITH_HAMZA_ABOVE_WITH_U,
    ARABIC_LIGATURE_YEH_WITH_HAMZA_ABOVE_WITH_WAW,
    ARABIC_LIGATURE_YEH_WITH_HAMZA_ABOVE_WITH_YEH,
    ARABIC_LIGATURE_YEH_WITH_HAMZA_ABOVE_WITH_YU,
    ARABIC_LIGATURE_YEH_WITH_HAMZA_ABOVE_WITH_ZAIN,
    ARABIC_LIGATURE_YEH_WITH_HEH,
    ARABIC_LIGATURE_YEH_WITH_JEEM,
    ARABIC_LIGATURE_YEH_WITH_JEEM_WITH_YEH,
    ARABIC_LIGATURE_YEH_WITH_KHAH,
    ARABIC_LIGATURE_YEH_WITH_MEEM,
    ARABIC_LIGATURE_YEH_WITH_MEEM_WITH_MEEM,
    ARABIC_LIGATURE_YEH_WITH_MEEM_WITH_YEH,
    ARABIC_LIGATURE_YEH_WITH_NOON,
    ARABIC_LIGATURE_YEH_WITH_REH,
    ARABIC_LIGATURE_YEH_WITH_YEH,
    ARABIC_LIGATURE_YEH_WITH_ZAIN,
    ARABIC_LIGATURE_ZAH_WITH_MEEM,
}

impl LigatureNames {
    /// The position of the ligature in the table.
    pub open spec fn spec_index(self) -> int {
        match self {
            LigatureNames::ARABIC_LIGATURE_BISMILLAH_AR_RAHMAN_AR_RAHEEM => 0,
            LigatureNames::ARABIC_LIGATURE_JALLAJALALOUHOU => 1,
            LigatureNames::ARABIC_LIGATURE_SALLALLAHOU_ALAYHE_WASALLAM => 2,
            LigatureNames::ARABIC_LIGATURE_ALLAH => 3,
            LigatureNames::ARABIC_LIGATURE_AKBAR => 4,
            LigatureNames::ARABIC_LIGATURE_ALAYHE => 5,
            LigatureNames::ARABIC_LIGATURE_MOHAMMAD => 6,
            LigatureNames::ARABIC_LIGATURE_RASOUL => 7,
            LigatureNames::ARABIC_LIGATURE_SALAM => 8,
            LigatureNames::ARABIC_LIGATURE_SALLA => 9,
            LigatureNames::ARABIC_LIGATURE_WASALLAM => 10,
            LigatureNames::RIAL_SIGN => 11,
            LigatureNames::ARABIC_LIGATURE_AIN_WITH_ALEF_MAKSURA => 12,
            LigatureNames::ARABIC_LIGATURE_AIN_WITH_JEEM => 13,
            LigatureNames::ARABIC_LIGATURE_AIN_WITH_JEEM_WITH_MEEM => 14,
            LigatureNames::ARABIC_LIGATURE_AIN_WITH_MEEM => 15,
            LigatureNames::ARABIC_LIGATURE_AIN_WITH_MEEM_WITH_ALEF_MAKSURA => 16,
            LigatureNames::ARABIC_LIGATURE_AIN_WITH_MEEM_WITH_MEEM => 17,
            LigatureNames::ARABIC_LIGATURE_AIN_WITH_MEEM_WITH_YEH => 18,
            LigatureNames::ARABIC_LIGATURE_AIN_WITH_YEH => 19,
            LigatureNames::ARABIC_LIGATURE_ALEF_MAKSURA_WITH_SUPERSCRIPT_ALEF => 20,
            LigatureNames::ARABIC_LIGATURE_ALEF_WITH_FATHATAN => 21,
            LigatureNames::ARABIC_LIGATURE_BEH_WITH_ALEF_MAKSURA => 22,
            LigatureNames::ARABIC_LIGATURE_BEH_WITH_HAH => 23,
            LigatureNames::ARABIC_LIGATURE_BEH_WITH_HAH_WITH_YEH => 24,
            LigatureNames::ARABIC_LIGATURE_BEH_WITH_HEH => 25,
            LigatureNames::ARABIC_LIGATURE_BEH_WITH_JEEM => 26,
            LigatureNames::ARABIC_LIGATURE_BEH_WITH_KHAH => 27,
            LigatureNames::ARABIC_LIGATURE_BEH_WITH_KHAH_WITH_YEH => 28,
            LigatureNames::ARABIC_LIGATURE_BEH_WITH_MEEM => 29,
            LigatureNames::ARABIC_LIGATURE_BEH_WITH_NOON => 30,
            LigatureNames::ARABIC_LIGATURE_BEH_WITH_REH => 31,
            LigatureNames::ARABIC_LIGATURE_BEH_WITH_YEH => 32,
            LigatureNames::ARABIC_LIGATURE_BEH_WITH_ZAIN => 33,
            LigatureNames::ARABIC_LIGATURE_DAD_WITH_ALEF_MAKSURA => 34,
            LigatureNames::ARABIC_LIGATURE_DAD_WITH_HAH => 35,
            LigatureNames::ARABIC_LIGATURE_DAD_WITH_HAH_WITH_ALEF_MAKSURA => 36,
            LigatureNames::ARABIC_LIGATURE_DAD_WITH_HAH_WITH_YEH => 37,
            LigatureNames::ARABIC_LIGATURE_DAD_WITH_JEEM => 38,
            LigatureNames::ARABIC_LIGATURE_DAD_WITH_KHAH => 39,
            LigatureNames::ARABIC_LIGATURE_DAD_WITH_KHAH_WITH_MEEM => 40,
            LigatureNames::ARABIC_LIGATURE_DAD_WITH_MEEM => 41,
            LigatureNames::ARABIC_LIGATURE_DAD_WITH_REH => 42,
            LigatureNames::ARABIC_LIGATURE_DAD_WITH_YEH => 43,
            LigatureNames::ARABIC_LIGATURE_FEH_WITH_ALEF_MAKSURA => 44,
            LigatureNames::ARABIC_LIGATURE_FEH_WITH_HAH => 45,
            LigatureNames::ARABIC_LIGATURE_FEH_WITH_JEEM => 46,
            LigatureNames::ARABIC_LIGATURE_FEH_WITH_KHAH => 47,
            LigatureNames::ARABIC_LIGATURE_FEH_WITH_KHAH_WITH_MEEM => 48,
            LigatureNames::ARABIC_LIGATURE_FEH_WITH_MEEM => 49,
            LigatureNames::ARABIC_LIGATURE_FEH_WITH_MEEM_WITH_YEH => 50,
            LigatureNames::ARABIC_LIGATURE_FEH_WITH_YEH => 51,
            LigatureNames::ARABIC_LIGATURE_GHAIN_WITH_ALEF_MAKSURA => 52,
            LigatureNames::ARABIC_LIGATURE_GHAIN_WITH_JEEM => 53,
            LigatureNames::ARABIC_LIGATURE_GHAIN_WITH_MEEM => 54,
            LigatureNames::ARABIC_LIGATURE_GHAIN_WITH_MEEM_WITH_ALEF_MAKSURA => 55,
            LigatureNames::ARABIC_LIGATURE_GHAIN_WITH_MEEM_WITH_MEEM => 56,
            LigatureNames::ARABIC_LIGATURE_GHAIN_WITH_MEEM_WITH_YEH => 57,
            LigatureNames::ARABIC_LIGATURE_GHAIN_WITH_YEH => 58,
            LigatureNames::ARABIC_LIGATURE_HAH_WITH_ALEF_MAKSURA => 59,
            LigatureNames::ARABIC_LIGATURE_HAH_WITH_JEEM => 60,
            LigatureNames::ARABIC_LIGATURE_HAH_WITH_JEEM_WITH_YEH => 61,
            LigatureNames::ARABIC_LIGATURE_HAH_WITH_MEEM => 62,
            LigatureNames::ARABIC_LIGATURE_HAH_WITH_MEEM_WITH_ALEF_MAKSURA => 63,
            LigatureNames::ARABIC_LIGATURE_HAH_WITH_MEEM_WITH_YEH => 64,
            LigatureNames::ARABIC_LIGATURE_HAH_WITH_YEH => 65,
            LigatureNames::ARABIC_LIGATURE_HEH_WITH_ALEF_MAKSURA => 66,
            LigatureNames::ARABIC_LIGATURE_HEH_WITH_JEEM => 67,
            LigatureNames::ARABIC_LIGATURE_HEH_WITH_MEEM => 68,
            LigatureNames::ARABIC_LIGATURE_HEH_WITH_MEEM_WITH_JEEM => 69,
            LigatureNames::ARABIC_LIGATURE_HEH_WITH_MEEM_WITH_MEEM => 70,
            LigatureNames::ARABIC_LIGATURE_HEH_WITH_SUPERSCRIPT_ALEF => 71,
            LigatureNames::ARABIC_LIGATURE_HEH_WITH_YEH => 72,
            LigatureNames::ARABIC_LIGATURE_JEEM_WITH_ALEF_MAKSURA => 73,
            LigatureNames::ARABIC_LIGATURE_JEEM_WITH_HAH => 74,
            LigatureNames::ARABIC_LIGATURE_JEEM_WITH_HAH_WITH_ALEF_MAKSURA => 75,
            LigatureNames::ARABIC_LIGATURE_JEEM_WITH_HAH_WITH_YEH => 76,
            LigatureNames::ARABIC_LIGATURE_JEEM_WITH_MEEM => 77,
            LigatureNames::ARABIC_LIGATURE_JEEM_WITH_MEEM_WITH_ALEF_MAKSURA => 78,
            LigatureNames::ARABIC_LIGATURE_JEEM_WITH_MEEM_WITH_HAH => 79,
            LigatureNames::ARABIC_LIGATURE_JEEM_WITH_MEEM_WITH_YEH => 80,
            LigatureNames::ARABIC_LIGATURE_JEEM_WITH_YEH => 81,
            LigatureNames::ARABIC_LIGATURE_KAF_WITH_ALEF => 82,
            LigatureNames::ARABIC_LIGATURE_KAF_WITH_ALEF_MAKSURA => 83,
            LigatureNames::ARABIC_LIGATURE_KAF_WITH_HAH => 84,
            LigatureNames::ARABIC_LIGATURE_KAF_WITH_JEEM => 85,
            LigatureNames::ARABIC_LIGATURE_KAF_WITH_KHAH => 86,
            LigatureNames::ARABIC_LIGATURE_KAF_WITH_LAM => 87,
            LigatureNames::ARABIC_LIGATURE_KAF_WITH_MEEM => 88,
            LigatureNames::ARABIC_LIGATURE_KAF_WITH_MEEM_WITH_MEEM => 89,
            LigatureNames::ARABIC_LIGATURE_KAF_WITH_MEEM_WITH_YEH => 90,
            LigatureNames::ARABIC_LIGATURE_KAF_WITH_YEH => 91,
            LigatureNames::ARABIC_LIGATURE_KHAH_WITH_ALEF_MAKSURA => 92,
            LigatureNames::ARABIC_LIGATURE_KHAH_WITH_HAH => 93,
            LigatureNames::ARABIC_LIGATURE_KHAH_WITH_JEEM => 94,
            LigatureNames::ARABIC_LIGATURE_KHAH_WITH_MEEM => 95,
            LigatureNames::ARABIC_LIGATURE_KHAH_WITH_YEH => 96,
            LigatureNames::ARABIC_LIGATURE_LAM_WITH_ALEF => 97,
            LigatureNames::ARABIC_LIGATURE_LAM_WITH_ALEF_MAKSURA => 98,
            LigatureNames::ARABIC_LIGATURE_LAM_WITH_ALEF_WITH_HAMZA_ABOVE => 99,
            LigatureNames::ARABIC_LIGATURE_LAM_WITH_ALEF_WITH_HAMZA_BELOW => 100,
            LigatureNames::ARABIC_LIGATURE_LAM_WITH_ALEF_WITH_MADDA_ABOVE => 101,
            LigatureNames::ARABIC_LIGATURE_LAM_WITH_HAH => 102,
            LigatureNames::ARABIC_LIGATURE_LAM_WITH_HAH_WITH_ALEF_MAKSURA => 103,
            LigatureNames::ARABIC_LIGATURE_LAM_WITH_HAH_WITH_MEEM => 104,
            LigatureNames::ARABIC_LIGATURE_LAM_WITH_HAH_WITH_YEH => 105,
            LigatureNames::ARABIC_LIGATURE_LAM_WITH_HEH => 106,
            LigatureNames::ARABIC_LIGATURE_LAM_WITH_JEEM => 107,
            LigatureNames::ARABIC_LIGATURE_LAM_WITH_JEEM_WITH_JEEM => 108,
            LigatureNames::ARABIC_LIGATURE_LAM_WITH_JEEM_WITH_MEEM => 109,
            LigatureNames::ARABIC_LIGATURE_LAM_WITH_JEEM_WITH_YEH => 110,
            LigatureNames::ARABIC_LIGATURE_LAM_WITH_KHAH => 111,
            LigatureNames::ARABIC_LIGATURE_LAM_WITH_KHAH_WITH_MEEM => 112,
            LigatureNames::ARABIC_LIGATURE_LAM_WITH_MEEM => 113,
            LigatureNames::ARABIC_LIGATURE_LAM_WITH_MEEM_WITH_HAH => 114,
            LigatureNames::ARABIC_LIGATURE_LAM_WITH_MEEM_WITH_YEH => 115,
            LigatureNames::ARABIC_LIGATURE_LAM_WITH_YEH => 116,
            LigatureNames::ARABIC_LIGATURE_MEEM_WITH_ALEF => 117,
            LigatureNames::ARABIC_LIGATURE_MEEM_WITH_ALEF_MAKSURA => 118,
            LigatureNames::ARABIC_LIGATURE_MEEM_WITH_HAH => 119,
            LigatureNames::ARABIC_LIGATURE_MEEM_WITH_HAH_WITH_JEEM => 120,
            LigatureNames::ARABIC_LIGATURE_MEEM_WITH_HAH_WITH_MEEM => 121,
            LigatureNames::ARABIC_LIGATURE_MEEM_WITH_HAH_WITH_YEH => 122,
            LigatureNames::ARABIC_LIGATURE_MEEM_WITH_JEEM => 123,
            LigatureNames::ARABIC_LIGATURE_MEEM_WITH_JEEM_WITH_HAH => 124,
            LigatureNames::ARABIC_LIGATURE_MEEM_WITH_JEEM_WITH_KHAH => 125,
            LigatureNames::ARABIC_LIGATURE_MEEM_WITH_JEEM_WITH_MEEM => 126,
            LigatureNames::ARABIC_LIGATURE_MEEM_WITH_JEEM_WITH_YEH => 127,
            LigatureNames::ARABIC_LIGATURE_MEEM_WITH_KHAH => 128,
            LigatureNames::ARABIC_LIGATURE_MEEM_WITH_KHAH_WITH_JEEM => 129,
            LigatureNames::ARABIC_LIGATURE_MEEM_WITH_KHAH_WITH_MEEM => 130,
            LigatureNames::ARABIC_LIGATURE_MEEM_WITH_KHAH_WITH_YEH => 131,
            LigatureNames::ARABIC_LIGATURE_MEEM_WITH_MEEM => 132,
            LigatureNames::ARABIC_LIGATURE_MEEM_WITH_MEEM_WITH_YEH => 133,
            LigatureNames::ARABIC_LIGATURE_MEEM_WITH_YEH => 134,
            LigatureNames::ARABIC_LIGATURE_NOON_WITH_ALEF_MAKSURA => 135,
            LigatureNames::ARABIC_LIGATURE_NOON_WITH_HAH => 136,
            LigatureNames::ARABIC_LIGATURE_NOON_WITH_HAH_WITH_ALEF_MAKSURA => 137,
            LigatureNames::ARABIC_LIGATURE_NOON_WITH_HAH_WITH_MEEM => 138,
            LigatureNames::ARABIC_LIGATURE_NOON_WITH_HAH_WITH_YEH => 139,
            LigatureNames::ARABIC_LIGATURE_NOON_WITH_HEH => 140,
            LigatureNames::ARABIC_LIGATURE_NOON_WITH_JEEM => 141,
            LigatureNames::ARABIC_LIGATURE_NOON_WITH_JEEM_WITH_ALEF_MAKSURA => 142,
            LigatureNames::ARABIC_LIGATURE_NOON_WITH_JEEM_WITH_HAH => 143,
            LigatureNames::ARABIC_LIGATURE_NOON_WITH_JEEM_WITH_MEEM => 144,
            LigatureNames::ARABIC_LIGATURE_NOON_WITH_JEEM_WITH_YEH => 145,
            LigatureNames::ARABIC_LIGATURE_NOON_WITH_KHAH => 146,
            LigatureNames::ARABIC_LIGATURE_NOON_WITH_MEEM => 147,
            LigatureNames::ARABIC_LIGATURE_NOON_WITH_MEEM_WITH_ALEF_MAKSURA => 148,
            LigatureNames::ARABIC_LIGATURE_NOON_WITH_MEEM_WITH_YEH => 149,
            LigatureNames::ARABIC_LIGATURE_NOON_WITH_NOON => 150,
            LigatureNames::ARABIC_LIGATURE_NOON_WITH_REH => 151,
            LigatureNames::ARABIC_LIGATURE_NOON_WITH_YEH => 152,
            LigatureNames::ARABIC_LIGATURE_NOON_WITH_ZAIN => 153,
            LigatureNames::ARABIC_LIGATURE_QAF_WITH_ALEF_MAKSURA => 154,
            LigatureNames::ARABIC_LIGATURE_QAF_WITH_HAH => 155,
            LigatureNames::ARABIC_LIGATURE_QAF_WITH_MEEM => 156,
            LigatureNames::ARABIC_LIGATURE_QAF_WITH_MEEM_WITH_HAH => 157,
            LigatureNames::ARABIC_LIGATURE_QAF_WITH_MEEM_WITH_MEEM => 158,
            LigatureNames::ARABIC_LIGATURE_QAF_WITH_MEEM_WITH_YEH => 159,
            LigatureNames::ARABIC_LIGATURE_QAF_WITH_YEH => 160,
            LigatureNames::ARABIC_LIGATURE_QALA_USED_AS_KORANIC_STOP_SIGN => 161,
            LigatureNames::ARABIC_LIGATURE_REH_WITH_SUPERSCRIPT_ALEF => 162,
            LigatureNames::ARABIC_LIGATURE_SAD_WITH_ALEF_MAKSURA => 163,
            LigatureNames::ARABIC_LIGATURE_SAD_WITH_HAH => 164,
            LigatureNames::ARABIC_LIGATURE_SAD_WITH_HAH_WITH_HAH => 165,
            LigatureNames::ARABIC_LIGATURE_SAD_WITH_HAH_WITH_YEH => 166,
            LigatureNames::ARABIC_LIGATURE_SAD_WITH_KHAH => 167,
            LigatureNames::ARABIC_LIGATURE_SAD_WITH_MEEM => 168,
            LigatureNames::ARABIC_LIGATURE_SAD_WITH_MEEM_WITH_MEEM => 169,
            LigatureNames::ARABIC_LIGATURE_SAD_WITH_REH => 170,
            LigatureNames::ARABIC_LIGATURE_SAD_WITH_YEH => 171,
            LigatureNames::ARABIC_LIGATURE_SALLA_USED_AS_KORANIC_STOP_SIGN => 172,
            LigatureNames::ARABIC_LIGATURE_SEEN_WITH_ALEF_MAKSURA => 173,
            LigatureNames::ARABIC_LIGATURE_SEEN_WITH_HAH => 174,
            LigatureNames::ARABIC_LIGATURE_SEEN_WITH_HAH_WITH_JEEM => 175,
            LigatureNames::ARABIC_LIGATURE_SEEN_WITH_HEH => 176,
            LigatureNames::ARABIC_LIGATURE_SEEN_WITH_JEEM => 177,
            LigatureNames::ARABIC_LIGATURE_SEEN_WITH_JEEM_WITH_ALEF_MAKSURA => 178,
            LigatureNames::ARABIC_LIGATURE_SEEN_WITH_JEEM_WITH_HAH => 179,
            LigatureNames::ARABIC_LIGATURE_SEEN_WITH_KHAH => 180,
            LigatureNames::ARABIC_LIGATURE_SEEN_WITH_KHAH_WITH_ALEF_MAKSURA => 181,
            LigatureNames::ARABIC_LIGATURE_SEEN_WITH_KHAH_WITH_YEH => 182,
            LigatureNames::ARABIC_LIGATURE_SEEN_WITH_MEEM => 183,
            LigatureNames::ARABIC_LIGATURE_SEEN_WITH_MEEM_WITH_HAH => 184,
            LigatureNames::ARABIC_LIGATURE_SEEN_WITH_MEEM_WITH_JEEM => 185,
            LigatureNames::ARABIC_LIGATURE_SEEN_WITH_MEEM_WITH_MEEM => 186,
            LigatureNames::ARABIC_LIGATURE_SEEN_WITH_REH => 187,
            LigatureNames::ARABIC_LIGATURE_SEEN_WITH_YEH => 188,
            LigatureNames::ARABIC_LIGATURE_SHADDA_WITH_DAMMATAN_ISOLATED_FORM => 189,
            LigatureNames::ARABIC_LIGATURE_SHADDA_WITH_KASRATAN_ISOLATED_FORM => 190,
            LigatureNames::ARABIC_LIGATURE_SHADDA_WITH_FATHA_ISOLATED_FORM => 191,
            LigatureNames::ARABIC_LIGATURE_SHADDA_WITH_DAMMA_ISOLATED_FORM => 192,
            LigatureNames::ARABIC_LIGATURE_SHADDA_WITH_KASRA_ISOLATED_FORM => 193,
            LigatureNames::ARABIC_LIGATURE_SHADDA_WITH_SUPERSCRIPT_ALEF => 194,
            LigatureNames::ARABIC_LIGATURE_SHADDA_WITH_FATHA_MEDIAL_FORM => 195,
            LigatureNames::ARABIC_LIGATURE_SHADDA_WITH_DAMMA_MEDIAL_FORM => 196,
            LigatureNames::ARABIC_LIGATURE_SHADDA_WITH_KASRA_MEDIAL_FORM => 197,
            LigatureNames::ARABIC_LIGATURE_SHADDA_WITH_FATHA => 198,
            LigatureNames::ARABIC_LIGATURE_SHADDA_WITH_DAMMA => 199,
            LigatureNames::ARABIC_LIGATURE_SHADDA_WITH_KASRA => 200,
            LigatureNames::ARABIC_LIGATURE_SHEEN_WITH_ALEF_MAKSURA => 201,
            LigatureNames::ARABIC_LIGATURE_SHEEN_WITH_HAH => 202,
            LigatureNames::ARABIC_LIGATURE_SHEEN_WITH_HAH_WITH_MEEM => 203,
            LigatureNames::ARABIC_LIGATURE_SHEEN_WITH_HAH_WITH_YEH => 204,
            LigatureNames::ARABIC_LIGATURE_SHEEN_WITH_HEH => 205,
            LigatureNames::ARABIC_LIGATURE_SHEEN_WITH_JEEM => 206,
            LigatureNames::ARABIC_LIGATURE_SHEEN_WITH_JEEM_WITH_YEH => 207,
            LigatureNames::ARABIC_LIGATURE_SHEEN_WITH_KHAH => 208,
            LigatureNames::ARABIC_LIGATURE_SHEEN_WITH_MEEM => 209,
            LigatureNames::ARABIC_LIGATURE_SHEEN_WITH_MEEM_WITH_KHAH => 210,
            LigatureNames::ARABIC_LIGATURE_SHEEN_WITH_MEEM_WITH_MEEM => 211,
            LigatureNames::ARABIC_LIGATURE_SHEEN_WITH_REH => 212,
            LigatureNames::ARABIC_LIGATURE_SHEEN_WITH_YEH => 213,
            LigatureNames::ARABIC_LIGATURE_TAH_WITH_ALEF_MAKSURA => 214,
            LigatureNames::ARABIC_LIGATURE_TAH_WITH_HAH => 215,
            LigatureNames::ARABIC_LIGATURE_TAH_WITH_MEEM => 216,
            LigatureNames::ARABIC_LIGATURE_TAH_WITH_MEEM_WITH_HAH => 217,
            LigatureNames::ARABIC_LIGATURE_TAH_WITH_MEEM_WITH_MEEM => 218,
            LigatureNames::ARABIC_LIGATURE_TAH_WITH_MEEM_WITH_YEH => 219,
            LigatureNames::ARABIC_LIGATURE_TAH_WITH_YEH => 220,
            LigatureNames::ARABIC_LIGATURE_TEH_WITH_ALEF_MAKSURA => 221,
            LigatureNames::ARABIC_LIGATURE_TEH_WITH_HAH => 222,
            LigatureNames::ARABIC_LIGATURE_TEH_WITH_HAH_WITH_JEEM => 223,
            LigatureNames::ARABIC_LIGATURE_TEH_WITH_HAH_WITH_MEEM => 224,
            LigatureNames::ARABIC_LIGATURE_TEH_WITH_HEH => 225,
            LigatureNames::ARABIC_LIGATURE_TEH_WITH_JEEM => 226,
            LigatureNames::ARABIC_LIGATURE_TEH_WITH_JEEM_WITH_ALEF_MAKSURA => 227,
            LigatureNames::ARABIC_LIGATURE_TEH_WITH_JEEM_WITH_MEEM => 228,
            LigatureNames::ARABIC_LIGATURE_TEH_WITH_JEEM_WITH_YEH => 229,
            LigatureNames::ARABIC_LIGATURE_TEH_WITH_KHAH => 230,
            LigatureNames::ARABIC_LIGATURE_TEH_WITH_KHAH_WITH_ALEF_MAKSURA => 231,
            LigatureNames::ARABIC_LIGATURE_TEH_WITH_KHAH_WITH_MEEM => 232,
            LigatureNames::ARABIC_LIGATURE_TEH_WITH_KHAH_WITH_YEH => 233,
            LigatureNames::ARABIC_LIGATURE_TEH_WITH_MEEM => 234,
            LigatureNames::ARABIC_LIGATURE_TEH_WITH_MEEM_WITH_ALEF_MAKSURA => 235,
            LigatureNames::ARABIC_LIGATURE_TEH_WITH_MEEM_WITH_HAH => 236,
            LigatureNames::ARABIC_LIGATURE_TEH_WITH_MEEM_WITH_JEEM => 237,
            LigatureNames::ARABIC_LIGATURE_TEH_WITH_MEEM_WITH_KHAH => 238,
            LigatureNames::ARABIC_LIGATURE_TEH_WITH_MEEM_WITH_YEH => 239,
            LigatureNames::ARABIC_LIGATURE_TEH_WITH_NOON => 240,
            LigatureNames::ARABIC_LIGATURE_TEH_WITH_REH => 241,
            LigatureNames::ARABIC_LIGATURE_TEH_WITH_YEH => 242,
            LigatureNames::ARABIC_LIGATURE_TEH_WITH_ZAIN => 243,
            LigatureNames::ARABIC_LIGATURE_THAL_WITH_SUPERSCRIPT_ALEF => 244,
            LigatureNames::ARABIC_LIGATURE_THEH_WITH_ALEF_MAKSURA => 245,
            LigatureNames::ARABIC_LIGATURE_THEH_WITH_HEH => 246,
            LigatureNames::ARABIC_LIGATURE_THEH_WITH_JEEM => 247,
            LigatureNames::ARABIC_LIGATURE_THEH_WITH_MEEM => 248,
            LigatureNames::ARABIC_LIGATURE_THEH_WITH_NOON => 249,
            LigatureNames::ARABIC_LIGATURE_THEH_WITH_REH => 250,
            LigatureNames::ARABIC_LIGATURE_THEH_WITH_YEH => 251,
            LigatureNames::ARABIC_LIGATURE_THEH_WITH_ZAIN => 252,
            LigatureNames::ARABIC_LIGATURE_UIGHUR_KIRGHIZ_YEH_WITH_HAMZA_ABOVE_WITH_ALEF_MAKSURA => 253,
            LigatureNames::ARABIC_LIGATURE_YEH_WITH_ALEF_MAKSURA => 254,
            LigatureNames::ARABIC_LIGATURE_YEH_WITH_HAH => 255,
            LigatureNames::ARABIC_LIGATURE_YEH_WITH_HAH_WITH_YEH => 256,
            LigatureNames::ARABIC_LIGATURE_YEH_WITH_HAMZA_ABOVE_WITH_AE => 257,
            LigatureNames::ARABIC_LIGATURE_YEH_WITH_HAMZA_ABOVE_WITH_ALEF => 258,
            LigatureNames::ARABIC_LIGATURE_YEH_WITH_HAMZA_ABOVE_WITH_ALEF_MAKSURA => 259,
            LigatureNames::ARABIC_LIGATURE_YEH_WITH_HAMZA_ABOVE_WITH_E => 260,
            LigatureNames::ARABIC_LIGATURE_YEH_WITH_HAMZA_ABOVE_WITH_HAH => 261,
            LigatureNames::ARABIC_LIGATURE_YEH_WITH_HAMZA_ABOVE_WITH_HEH => 262,
            LigatureNames::ARABIC_LIGATURE_YEH_WITH_HAMZA_ABOVE_WITH_JEEM => 263,
            LigatureNames::ARABIC_LIGATURE_YEH_WITH_HAMZA_ABOVE_WITH_KHAH => 264,
            LigatureNames::ARABIC_LIGATURE_YEH_WITH_HAMZA_ABOVE_WITH_MEEM => 265,
            LigatureNames::ARABIC_LIGATURE_YEH_WITH_HAMZA_ABOVE_WITH_NOON => 266,
            LigatureNames::ARABIC_LIGATURE_YEH_WITH_HAMZA_ABOVE_WITH_OE => 267,
            LigatureNames::ARABIC_LIGATURE_YEH_WITH_HAMZA_ABOVE_WITH_REH => 268,
            LigatureNames::ARABIC_LIGATURE_YEH_WITH_HAMZA_ABOVE_WITH_U => 269,
            LigatureNames::ARABIC_LIGATURE_YEH_WITH_HAMZA_ABOVE_WITH_WAW => 270,
            LigatureNames::ARABIC_LIGATURE_YEH_WITH_HAMZA_ABOVE_WITH_YEH => 271,
            LigatureNames::ARABIC_LIGATURE_YEH_WITH_HAMZA_ABOVE_WITH_YU => 272,
            LigatureNames::ARABIC_LIGATURE_YEH_WITH_HAMZA_ABOVE_WITH_ZAIN => 273,
            LigatureNames::ARABIC_LIGATURE_YEH_WITH_HEH => 274,
            LigatureNames::ARABIC_LIGATURE_YEH_WITH_JEEM => 275,
            LigatureNames::ARABIC_LIGATURE_YEH_WITH_JEEM_WITH_YEH => 276,
            LigatureNames::ARABIC_LIGATURE_YEH_WITH_KHAH => 277,
            LigatureNames::ARABIC_LIGATURE_YEH_WITH_MEEM => 278,
            LigatureNames::ARABIC_LIGATURE_YEH_WITH_MEEM_WITH_MEEM => 279,
            LigatureNames::ARABIC_LIGATURE_YEH_WITH_MEEM_WITH_YEH => 280,
            LigatureNames::ARABIC_LIGATURE_YEH_WITH_NOON => 281,
            LigatureNames::ARABIC_LIGATURE_YEH_WITH_REH => 282,
            LigatureNames::ARABIC_LIGATURE_YEH_WITH_YEH => 283,
            LigatureNames::ARABIC_LIGATURE_YEH_WITH_ZAIN => 284,
            LigatureNames::ARABIC_LIGATURE_ZAH_WITH_MEEM => 285,
        }
    }

    /// The position of the ligature in the table.
    pub fn index(self) -> (r: usize)
        ensures
            r == self.spec_index(),
            r < LIGATURES_LEN,
    {
        match self {
            LigatureNames::ARABIC_LIGATURE_BISMILLAH_AR_RAHMAN_AR_RAHEEM => 0,
            LigatureNames::ARABIC_LIGATURE_JALLAJALALOUHOU => 1,
            LigatureNames::ARABIC_LIGATURE_SALLALLAHOU_ALAYHE_WASALLAM => 2,
            LigatureNames::ARABIC_LIGATURE_ALLAH => 3,
            LigatureNames::ARABIC_LIGATURE_AKBAR => 4,
            LigatureNames::ARABIC_LIGATURE_ALAYHE => 5,
            LigatureNames::ARABIC_LIGATURE_MOHAMMAD => 6,
            LigatureNames::ARABIC_LIGATURE_RASOUL => 7,
            LigatureNames::ARABIC_LIGATURE_SALAM => 8,
            LigatureNames::ARABIC_LIGATURE_SALLA => 9,
            LigatureNames::ARABIC_LIGATURE_WASALLAM => 10,
            LigatureNames::RIAL_SIGN => 11,
            LigatureNames::ARABIC_LIGATURE_AIN_WITH_ALEF_MAKSURA => 12,
            LigatureNames::ARABIC_LIGATURE_AIN_WITH_JEEM => 13,
            LigatureNames::ARABIC_LIGATURE_AIN_WITH_JEEM_WITH_MEEM => 14,
            LigatureNames::ARABIC_LIGATURE_AIN_WITH_MEEM => 15,
            LigatureNames::ARABIC_LIGATURE_AIN_WITH_MEEM_WITH_ALEF_MAKSURA => 16,
            LigatureNames::ARABIC_LIGATURE_AIN_WITH_MEEM_WITH_MEEM => 17,
            LigatureNames::ARABIC_LIGATURE_AIN_WITH_MEEM_WITH_YEH => 18,
            LigatureNames::ARABIC_LIGATURE_AIN_WITH_YEH => 19,
            LigatureNames::ARABIC_LIGATURE_ALEF_MAKSURA_WITH_SUPERSCRIPT_ALEF => 20,
            LigatureNames::ARABIC_LIGATURE_ALEF_WITH_FATHATAN => 21,
            LigatureNames::ARABIC_LIGATURE_BEH_WITH_ALEF_MAKSURA => 22,
            LigatureNames::ARABIC_LIGATURE_BEH_WITH_HAH => 23,
            LigatureNames::ARABIC_LIGATURE_BEH_WITH_HAH_WITH_YEH => 24,
            LigatureNames::ARABIC_LIGATURE_BEH_WITH_HEH => 25,
            LigatureNames::ARABIC_LIGATURE_BEH_WITH_JEEM => 26,
            LigatureNames::ARABIC_LIGATURE_BEH_WITH_KHAH => 27,
            LigatureNames::ARABIC_LIGATURE_BEH_WITH_KHAH_WITH_YEH => 28,
            LigatureNames::ARABIC_LIGATURE_BEH_WITH_MEEM => 29,
            LigatureNames::ARABIC_LIGATURE_BEH_WITH_NOON => 30,
            LigatureNames::ARABIC_LIGATURE_BEH_WITH_REH => 31,
            LigatureNames::ARABIC_LIGATURE_BEH_WITH_YEH => 32,
            LigatureNames::ARABIC_LIGATURE_BEH_WITH_ZAIN => 33,
            LigatureNames::ARABIC_LIGATURE_DAD_WITH_ALEF_MAKSURA => 34,
            LigatureNames::ARABIC_LIGATURE_DAD_WITH_HAH => 35,
            LigatureNames::ARABIC_LIGATURE_DAD_WITH_HAH_WITH_ALEF_MAKSURA => 36,
            LigatureNames::ARABIC_LIGATURE_DAD_WITH_HAH_WITH_YEH => 37,
            LigatureNames::ARABIC_LIGATURE_DAD_WITH_JEEM => 38,
            LigatureNames::ARABIC_LIGATURE_DAD_WITH_KHAH => 39,
            LigatureNames::ARABIC_LIGATURE_DAD_WITH_KHAH_WITH_MEEM => 40,
            LigatureNames::ARABIC_LIGATURE_DAD_WITH_MEEM => 41,
            LigatureNames::ARABIC_LIGATURE_DAD_WITH_REH => 42,
            LigatureNames::ARABIC_LIGATURE_DAD_WITH_YEH => 43,
            LigatureNames::ARABIC_LIGATURE_FEH_WITH_ALEF_MAKSURA => 44,
            LigatureNames::ARABIC_LIGATURE_FEH_WITH_HAH => 45,
            LigatureNames::ARABIC_LIGATURE_FEH_WITH_JEEM => 46,
            LigatureNames::ARABIC_LIGATURE_FEH_WITH_KHAH => 47,
            LigatureNames::ARABIC_LIGATURE_FEH_WITH_KHAH_WITH_MEEM => 48,
            LigatureNames::ARABIC_LIGATURE_FEH_WITH_MEEM => 49,
            LigatureNames::ARABIC_LIGATURE_FEH_WITH_MEEM_WITH_YEH => 50,
            LigatureNames::ARABIC_LIGATURE_FEH_WITH_YEH => 51,
            LigatureNames::ARABIC_LIGATURE_GHAIN_WITH_ALEF_MAKSURA => 52,
            LigatureNames::ARABIC_LIGATURE_GHAIN_WITH_JEEM => 53,
            LigatureNames::ARABIC_LIGATURE_GHAIN_WITH_MEEM => 54,
            LigatureNames::ARABIC_LIGATURE_GHAIN_WITH_MEEM_WITH_ALEF_MAKSURA => 55,
            LigatureNames::ARABIC_LIGATURE_GHAIN_WITH_MEEM_WITH_MEEM => 56,
            LigatureNames::ARABIC_LIGATURE_GHAIN_WITH_MEEM_WITH_YEH => 57,
            LigatureNames::ARABIC_LIGATURE_GHAIN_WITH_YEH => 58,
            LigatureNames::ARABIC_LIGATURE_HAH_WITH_ALEF_MAKSURA => 59,
            LigatureNames::ARABIC_LIGATURE_HAH_WITH_JEEM => 60,
            LigatureNames::ARABIC_LIGATURE_HAH_WITH_JEEM_WITH_YEH => 61,
            LigatureNames::ARABIC_LIGATURE_HAH_WITH_MEEM => 62,
            LigatureNames::ARABIC_LIGATURE_HAH_WITH_MEEM_WITH_ALEF_MAKSURA => 63,
            LigatureNames::ARABIC_LIGATURE_HAH_WITH_MEEM_WITH_YEH => 64,
            LigatureNames::ARABIC_LIGATURE_HAH_WITH_YEH => 65,
            LigatureNames::ARABIC_LIGATURE_HEH_WITH_ALEF_MAKSURA => 66,
            LigatureNames::ARABIC_LIGATURE_HEH_WITH_JEEM => 67,
            LigatureNames::ARABIC_LIGATURE_HEH_WITH_MEEM => 68,
            LigatureNames::ARABIC_LIGATURE_HEH_WITH_MEEM_WITH_JEEM => 69,
            LigatureNames::ARABIC_LIGATURE_HEH_WITH_MEEM_WITH_MEEM => 70,
            LigatureNames::ARABIC_LIGATURE_HEH_WITH_SUPERSCRIPT_ALEF => 71,
            LigatureNames::ARABIC_LIGATURE_HEH_WITH_YEH => 72,
            LigatureNames::ARABIC_LIGATURE_JEEM_WITH_ALEF_MAKSURA => 73,
            LigatureNames::ARABIC_LIGATURE_JEEM_WITH_HAH => 74,
            LigatureNames::ARABIC_LIGATURE_JEEM_WITH_HAH_WITH_ALEF_MAKSURA => 75,
            LigatureNames::ARABIC_LIGATURE_JEEM_WITH_HAH_WITH_YEH => 76,
            LigatureNames::ARABIC_LIGATURE_JEEM_WITH_MEEM => 77,
            LigatureNames::ARABIC_LIGATURE_JEEM_WITH_MEEM_WITH_ALEF_MAKSURA => 78,
            LigatureNames::ARABIC_LIGATURE_JEEM_WITH_MEEM_WITH_HAH => 79,
            LigatureNames::ARABIC_LIGATURE_JEEM_WITH_MEEM_WITH_YEH => 80,
            LigatureNames::ARABIC_LIGATURE_JEEM_WITH_YEH => 81,
            LigatureNames::ARABIC_LIGATURE_KAF_WITH_ALEF => 82,
            LigatureNames::ARABIC_LIGATURE_KAF_WITH_ALEF_MAKSURA => 83,
            LigatureNames::ARABIC_LIGATURE_KAF_WITH_HAH => 84,
            LigatureNames::ARABIC_LIGATURE_KAF_WITH_JEEM => 85,
            LigatureNames::ARABIC_LIGATURE_KAF_WITH_KHAH => 86,
            LigatureNames::ARABIC_LIGATURE_KAF_WITH_LAM => 87,
            LigatureNames::ARABIC_LIGATURE_KAF_WITH_MEEM => 88,
            LigatureNames::ARABIC_LIGATURE_KAF_WITH_MEEM_WITH_MEEM => 89,
            LigatureNames::ARABIC_LIGATURE_KAF_WITH_MEEM_WITH_YEH => 90,
            LigatureNames::ARABIC_LIGATURE_KAF_WITH_YEH => 91,
            LigatureNames::ARABIC_LIGATURE_KHAH_WITH_ALEF_MAKSURA => 92,
            LigatureNames::ARABIC_LIGATURE_KHAH_WITH_HAH => 93,
            LigatureNames::ARABIC_LIGATURE_KHAH_WITH_JEEM => 94,
            LigatureNames::ARABIC_LIGATURE_KHAH_WITH_MEEM => 95,
            LigatureNames::ARABIC_LIGATURE_KHAH_WITH_YEH => 96,
            LigatureNames::ARABIC_LIGATURE_LAM_WITH_ALEF => 97,
            LigatureNames::ARABIC_LIGATURE_LAM_WITH_ALEF_MAKSURA => 98,
            LigatureNames::ARABIC_LIGATURE_LAM_WITH_ALEF_WITH_HAMZA_ABOVE => 99,
            LigatureNames::ARABIC_LIGATURE_LAM_WITH_ALEF_WITH_HAMZA_BELOW => 100,
            LigatureNames::ARABIC_LIGATURE_LAM_WITH_ALEF_WITH_MADDA_ABOVE => 101,
            LigatureNames::ARABIC_LIGATURE_LAM_WITH_HAH => 102,
            LigatureNames::ARABIC_LIGATURE_LAM_WITH_HAH_WITH_ALEF_MAKSURA => 103,
            LigatureNames::ARABIC_LIGATURE_LAM_WITH_HAH_WITH_MEEM => 104,
            LigatureNames::ARABIC_LIGATURE_LAM_WITH_HAH_WITH_YEH => 105,
            LigatureNames::ARABIC_LIGATURE_LAM_WITH_HEH => 106,
            LigatureNames::ARABIC_LIGATURE_LAM_WITH_JEEM => 107,
            LigatureNames::ARABIC_LIGATURE_LAM_WITH_JEEM_WITH_JEEM => 108,
            LigatureNames::ARABIC_LIGATURE_LAM_WITH_JEEM_WITH_MEEM => 109,
            LigatureNames::ARABIC_LIGATURE_LAM_WITH_JEEM_WITH_YEH => 110,
            LigatureNames::ARABIC_LIGATURE_LAM_WITH_KHAH => 111,
            LigatureNames::ARABIC_LIGATURE_LAM_WITH_KHAH_WITH_MEEM => 112,
            LigatureNames::ARABIC_LIGATURE_LAM_WITH_MEEM => 113,
            LigatureNames::ARABIC_LIGATURE_LAM_WITH_MEEM_WITH_HAH => 114,
            LigatureNames::ARABIC_LIGATURE_LAM_WITH_MEEM_WITH_YEH => 115,
            LigatureNames::ARABIC_LIGATURE_LAM_WITH_YEH => 116,
            LigatureNames::ARABIC_LIGATURE_MEEM_WITH_ALEF => 117,
            LigatureNames::ARABIC_LIGATURE_MEEM_WITH_ALEF_MAKSURA => 118,
            LigatureNames::ARABIC_LIGATURE_MEEM_WITH_HAH => 119,
            LigatureNames::ARABIC_LIGATURE_MEEM_WITH_HAH_WITH_JEEM => 120,
            LigatureNames::ARABIC_LIGATURE_MEEM_WITH_HAH_WITH_MEEM => 121,
            LigatureNames::ARABIC_LIGATURE_MEEM_WITH_HAH_WITH_YEH => 122,
            LigatureNames::ARABIC_LIGATURE_MEEM_WITH_JEEM => 123,
            LigatureNames::ARABIC_LIGATURE_MEEM_WITH_JEEM_WITH_HAH => 124,
            LigatureNames::ARABIC_LIGATURE_MEEM_WITH_JEEM_WITH_KHAH => 125,
            LigatureNames::ARABIC_LIGATURE_MEEM_WITH_JEEM_WITH_MEEM => 126,
            LigatureNames::ARABIC_LIGATURE_MEEM_WITH_JEEM_WITH_YEH => 127,
            LigatureNames::ARABIC_LIGATURE_MEEM_WITH_KHAH => 128,
            LigatureNames::ARABIC_LIGATURE_MEEM_WITH_KHAH_WITH_JEEM => 129,
            LigatureNames::ARABIC_LIGATURE_MEEM_WITH_KHAH_WITH_MEEM => 130,
            LigatureNames::ARABIC_LIGATURE_MEEM_WITH_KHAH_WITH_YEH => 131,
            LigatureNames::ARABIC_LIGATURE_MEEM_WITH_MEEM => 132,
            LigatureNames::ARABIC_LIGATURE_MEEM_WITH_MEEM_WITH_YEH => 133,
            LigatureNames::ARABIC_LIGATURE_MEEM_WITH_YEH => 134,
            LigatureNames::ARABIC_LIGATURE_NOON_WITH_ALEF_MAKSURA => 135,
            LigatureNames::ARABIC_LIGATURE_NOON_WITH_HAH => 136,
            LigatureNames::ARABIC_LIGATURE_NOON_WITH_HAH_WITH_ALEF_MAKSURA => 137,
            LigatureNames::ARABIC_LIGATURE_NOON_WITH_HAH_WITH_MEEM => 138,
            LigatureNames::ARABIC_LIGATURE_NOON_WITH_HAH_WITH_YEH => 139,
            LigatureNames::ARABIC_LIGATURE_NOON_WITH_HEH => 140,
            LigatureNames::ARABIC_LIGATURE_NOON_WITH_JEEM => 141,
            LigatureNames::ARABIC_LIGATURE_NOON_WITH_JEEM_WITH_ALEF_MAKSURA => 142,
            LigatureNames::ARABIC_LIGATURE_NOON_WITH_JEEM_WITH_HAH => 143,
            LigatureNames::ARABIC_LIGATURE_NOON_WITH_JEEM_WITH_MEEM => 144,
            LigatureNames::ARABIC_LIGATURE_NOON_WITH_JEEM_WITH_YEH => 145,
            LigatureNames::ARABIC_LIGATURE_NOON_WITH_KHAH => 146,
            LigatureNames::ARABIC_LIGATURE_NOON_WITH_MEEM => 147,
            LigatureNames::ARABIC_LIGATURE_NOON_WITH_MEEM_WITH_ALEF_MAKSURA => 148,
            LigatureNames::ARABIC_LIGATURE_NOON_WITH_MEEM_WITH_YEH => 149,
            LigatureNames::ARABIC_LIGATURE_NOON_WITH_NOON => 150,
            LigatureNames::ARABIC_LIGATURE_NOON_WITH_REH => 151,
            LigatureNames::ARABIC_LIGATURE_NOON_WITH_YEH => 152,
            LigatureNames::ARABIC_LIGATURE_NOON_WITH_ZAIN => 153,
            LigatureNames::ARABIC_LIGATURE_QAF_WITH_ALEF_MAKSURA => 154,
            LigatureNames::ARABIC_LIGATURE_QAF_WITH_HAH => 155,
            LigatureNames::ARABIC_LIGATURE_QAF_WITH_MEEM => 156,
            LigatureNames::ARABIC_LIGATURE_QAF_WITH_MEEM_WITH_HAH => 157,
            LigatureNames::ARABIC_LIGATURE_QAF_WITH_MEEM_WITH_MEEM => 158,
            LigatureNames::ARABIC_LIGATURE_QAF_WITH_MEEM_WITH_YEH => 159,
            LigatureNames::ARABIC_LIGATURE_QAF_WITH_YEH => 160,
            LigatureNames::ARABIC_LIGATURE_QALA_USED_AS_KORANIC_STOP_SIGN => 161,
            LigatureNames::ARABIC_LIGATURE_REH_WITH_SUPERSCRIPT_ALEF => 162,
            LigatureNames::ARABIC_LIGATURE_SAD_WITH_ALEF_MAKSURA => 163,
            LigatureNames::ARABIC_LIGATURE_SAD_WITH_HAH => 164,
            LigatureNames::ARABIC_LIGATURE_SAD_WITH_HAH_WITH_HAH => 165,
            LigatureNames::ARABIC_LIGATURE_SAD_WITH_HAH_WITH_YEH => 166,
            LigatureNames::ARABIC_LIGATURE_SAD_WITH_KHAH => 167,
            LigatureNames::ARABIC_LIGATURE_SAD_WITH_MEEM => 168,
            LigatureNames::ARABIC_LIGATURE_SAD_WITH_MEEM_WITH_MEEM => 169,
            LigatureNames::ARABIC_LIGATURE_SAD_WITH_REH => 170,
            LigatureNames::ARABIC_LIGATURE_SAD_WITH_YEH => 171,
            LigatureNames::ARABIC_LIGATURE_SALLA_USED_AS_KORANIC_STOP_SIGN => 172,
            LigatureNames::ARABIC_LIGATURE_SEEN_WITH_ALEF_MAKSURA => 173,
            LigatureNames::ARABIC_LIGATURE_SEEN_WITH_HAH => 174,
            LigatureNames::ARABIC_LIGATURE_SEEN_WITH_HAH_WITH_JEEM => 175,
            LigatureNames::ARABIC_LIGATURE_SEEN_WITH_HEH => 176,
            LigatureNames::ARABIC_LIGATURE_SEEN_WITH_JEEM => 177,
            LigatureNames::ARABIC_LIGATURE_SEEN_WITH_JEEM_WITH_ALEF_MAKSURA => 178,
            LigatureNames::ARABIC_LIGATURE_SEEN_WITH_JEEM_WITH_HAH => 179,
            LigatureNames::ARABIC_LIGATURE_SEEN_WITH_KHAH => 180,
            LigatureNames::ARABIC_LIGATURE_SEEN_WITH_KHAH_WITH_ALEF_MAKSURA => 181,
            LigatureNames::ARABIC_LIGATURE_SEEN_WITH_KHAH_WITH_YEH => 182,
            LigatureNames::ARABIC_LIGATURE_SEEN_WITH_MEEM => 183,
            LigatureNames::ARABIC_LIGATURE_SEEN_WITH_MEEM_WITH_HAH => 184,
            LigatureNames::ARABIC_LIGATURE_SEEN_WITH_MEEM_WITH_JEEM => 185,
            LigatureNames::ARABIC_LIGATURE_SEEN_WITH_MEEM_WITH_MEEM => 186,
            LigatureNames::ARABIC_LIGATURE_SEEN_WITH_REH => 187,
            LigatureNames::ARABIC_LIGATURE_SEEN_WITH_YEH => 188,
            LigatureNames::ARABIC_LIGATURE_SHADDA_WITH_DAMMATAN_ISOLATED_FORM => 189,
            LigatureNames::ARABIC_LIGATURE_SHADDA_WITH_KASRATAN_ISOLATED_FORM => 190,
            LigatureNames::ARABIC_LIGATURE_SHADDA_WITH_FATHA_ISOLATED_FORM => 191,
            LigatureNames::ARABIC_LIGATURE_SHADDA_WITH_DAMMA_ISOLATED_FORM => 192,
            LigatureNames::ARABIC_LIGATURE_SHADDA_WITH_KASRA_ISOLATED_FORM => 193,
            LigatureNames::ARABIC_LIGATURE_SHADDA_WITH_SUPERSCRIPT_ALEF => 194,
            LigatureNames::ARABIC_LIGATURE_SHADDA_WITH_FATHA_MEDIAL_FORM => 195,
            LigatureNames::ARABIC_LIGATURE_SHADDA_WITH_DAMMA_MEDIAL_FORM => 196,
            LigatureNames::ARABIC_LIGATURE_SHADDA_WITH_KASRA_MEDIAL_FORM => 197,
            LigatureNames::ARABIC_LIGATURE_SHADDA_WITH_FATHA => 198,
            LigatureNames::ARABIC_LIGATURE_SHADDA_WITH_DAMMA => 199,
            LigatureNames::ARABIC_LIGATURE_SHADDA_WITH_KASRA => 200,
            LigatureNames::ARABIC_LIGATURE_SHEEN_WITH_ALEF_MAKSURA => 201,
            LigatureNames::ARABIC_LIGATURE_SHEEN_WITH_HAH => 202,
            LigatureNames::ARABIC_LIGATURE_SHEEN_WITH_HAH_WITH_MEEM => 203,
            LigatureNames::ARABIC_LIGATURE_SHEEN_WITH_HAH_WITH_YEH => 204,
            LigatureNames::ARABIC_LIGATURE_SHEEN_WITH_HEH => 205,
            LigatureNames::ARABIC_LIGATURE_SHEEN_WITH_JEEM => 206,
            LigatureNames::ARABIC_LIGATURE_SHEEN_WITH_JEEM_WITH_YEH => 207,
            LigatureNames::ARABIC_LIGATURE_SHEEN_WITH_KHAH => 208,
            LigatureNames::ARABIC_LIGATURE_SHEEN_WITH_MEEM => 209,
            LigatureNames::ARABIC_LIGATURE_SHEEN_WITH_MEEM_WITH_KHAH => 210,
            LigatureNames::ARABIC_LIGATURE_SHEEN_WITH_MEEM_WITH_MEEM => 211,
            LigatureNames::ARABIC_LIGATURE_SHEEN_WITH_REH => 212,
            LigatureNames::ARABIC_LIGATURE_SHEEN_WITH_YEH => 213,
            LigatureNames::ARABIC_LIGATURE_TAH_WITH_ALEF_MAKSURA => 214,
            LigatureNames::ARABIC_LIGATURE_TAH_WITH_HAH => 215,
            LigatureNames::ARABIC_LIGATURE_TAH_WITH_MEEM => 216,
            LigatureNames::ARABIC_LIGATURE_TAH_WITH_MEEM_WITH_HAH => 217,
            LigatureNames::ARABIC_LIGATURE_TAH_WITH_MEEM_WITH_MEEM => 218,
            LigatureNames::ARABIC_LIGATURE_TAH_WITH_MEEM_WITH_YEH => 219,
            LigatureNames::ARABIC_LIGATURE_TAH_WITH_YEH => 220,
            LigatureNames::ARABIC_LIGATURE_TEH_WITH_ALEF_MAKSURA => 221,
            LigatureNames::ARABIC_LIGATURE_TEH_WITH_HAH => 222,
            LigatureNames::ARABIC_LIGATURE_TEH_WITH_HAH_WITH_JEEM => 223,
            LigatureNames::ARABIC_LIGATURE_TEH_WITH_HAH_WITH_MEEM => 224,
            LigatureNames::ARABIC_LIGATURE_TEH_WITH_HEH => 225,
            LigatureNames::ARABIC_LIGATURE_TEH_WITH_JEEM => 226,
            LigatureNames::ARABIC_LIGATURE_TEH_WITH_JEEM_WITH_ALEF_MAKSURA => 227,
            LigatureNames::ARABIC_LIGATURE_TEH_WITH_JEEM_WITH_MEEM => 228,
            LigatureNames::ARABIC_LIGATURE_TEH_WITH_JEEM_WITH_YEH => 229,
            LigatureNames::ARABIC_LIGATURE_TEH_WITH_KHAH => 230,
            LigatureNames::ARABIC_LIGATURE_TEH_WITH_KHAH_WITH_ALEF_MAKSURA => 231,
            LigatureNames::ARABIC_LIGATURE_TEH_WITH_KHAH_WITH_MEEM => 232,
            LigatureNames::ARABIC_LIGATURE_TEH_WITH_KHAH_WITH_YEH => 233,
            LigatureNames::ARABIC_LIGATURE_TEH_WITH_MEEM => 234,
            LigatureNames::ARABIC_LIGATURE_TEH_WITH_MEEM_WITH_ALEF_MAKSURA => 235,
            LigatureNames::ARABIC_LIGATURE_TEH_WITH_MEEM_WITH_HAH => 236,
            LigatureNames::ARABIC_LIGATURE_TEH_WITH_MEEM_WITH_JEEM => 237,
            LigatureNames::ARABIC_LIGATURE_TEH_WITH_MEEM_WITH_KHAH => 238,
            LigatureNames::ARABIC_LIGATURE_TEH_WITH_MEEM_WITH_YEH => 239,
            LigatureNames::ARABIC_LIGATURE_TEH_WITH_NOON => 240,
            LigatureNames::ARABIC_LIGATURE_TEH_WITH_REH => 241,
            LigatureNames::ARABIC_LIGATURE_TEH_WITH_YEH => 242,
            LigatureNames::ARABIC_LIGATURE_TEH_WITH_ZAIN => 243,
            LigatureNames::ARABIC_LIGATURE_THAL_WITH_SUPERSCRIPT_ALEF => 244,
            LigatureNames::ARABIC_LIGATURE_THEH_WITH_ALEF_MAKSURA => 245,
            LigatureNames::ARABIC_LIGATURE_THEH_WITH_HEH => 246,
            LigatureNames::ARABIC_LIGATURE_THEH_WITH_JEEM => 247,
            LigatureNames::ARABIC_LIGATURE_THEH_WITH_MEEM => 248,
            LigatureNames::ARABIC_LIGATURE_THEH_WITH_NOON => 249,
            LigatureNames::ARABIC_LIGATURE_THEH_WITH_REH => 250,
            LigatureNames::ARABIC_LIGATURE_THEH_WITH_YEH => 251,
            LigatureNames::ARABIC_LIGATURE_THEH_WITH_ZAIN => 252,
            LigatureNames::ARABIC_LIGATURE_UIGHUR_KIRGHIZ_YEH_WITH_HAMZA_ABOVE_WITH_ALEF_MAKSURA => 253,
            LigatureNames::ARABIC_LIGATURE_YEH_WITH_ALEF_MAKSURA => 254,
            LigatureNames::ARABIC_LIGATURE_YEH_WITH_HAH => 255,
            LigatureNames::ARABIC_LIGATURE_YEH_WITH_HAH_WITH_YEH => 256,
            LigatureNames::ARABIC_LIGATURE_YEH_WITH_HAMZA_ABOVE_WITH_AE => 257,
            LigatureNames::ARABIC_LIGATURE_YEH_WITH_HAMZA_ABOVE_WITH_ALEF => 258,
            LigatureNames::ARABIC_LIGATURE_YEH_WITH_HAMZA_ABOVE_WITH_ALEF_MAKSURA => 259,
            LigatureNames::ARABIC_LIGATURE_YEH_WITH_HAMZA_ABOVE_WITH_E => 260,
            LigatureNames::ARABIC_LIGATURE_YEH_WITH_HAMZA_ABOVE_WITH_HAH => 261,
            LigatureNames::ARABIC_LIGATURE_YEH_WITH_HAMZA_ABOVE_WITH_HEH => 262,
            LigatureNames::ARABIC_LIGATURE_YEH_WITH_HAMZA_ABOVE_WITH_JEEM => 263,
            LigatureNames::ARABIC_LIGATURE_YEH_WITH_HAMZA_ABOVE_WITH_KHAH => 264,
            LigatureNames::ARABIC_LIGATURE_YEH_WITH_HAMZA_ABOVE_WITH_MEEM => 265,
            LigatureNames::ARABIC_LIGATURE_YEH_WITH_HAMZA_ABOVE_WITH_NOON => 266,
            LigatureNames::ARABIC_LIGATURE_YEH_WITH_HAMZA_ABOVE_WITH_OE => 267,
            LigatureNames::ARABIC_LIGATURE_YEH_WITH_HAMZA_ABOVE_WITH_REH => 268,
            LigatureNames::ARABIC_LIGATURE_YEH_WITH_HAMZA_ABOVE_WITH_U => 269,
            LigatureNames::ARABIC_LIGATURE_YEH_WITH_HAMZA_ABOVE_WITH_WAW => 270,
            LigatureNames::ARABIC_LIGATURE_YEH_WITH_HAMZA_ABOVE_WITH_YEH => 271,
            LigatureNames::ARABIC_LIGATURE_YEH_WITH_HAMZA_ABOVE_WITH_YU => 272,
            LigatureNames::ARABIC_LIGATURE_YEH_WITH_HAMZA_ABOVE_WITH_ZAIN => 273,
            LigatureNames::ARABIC_LIGATURE_YEH_WITH_HEH => 274,
            LigatureNames::ARABIC_LIGATURE_YEH_WITH_JEEM => 275,
            LigatureNames::ARABIC_LIGATURE_YEH_WITH_JEEM_WITH_YEH => 276,
            LigatureNames::ARABIC_LIGATURE_YEH_WITH_KHAH => 277,
            LigatureNames::ARABIC_LIGATURE_YEH_WITH_MEEM => 278,
            LigatureNames::ARABIC_LIGATURE_YEH_WITH_MEEM_WITH_MEEM => 279,
            LigatureNames::ARABIC_LIGATURE_YEH_WITH_MEEM_WITH_YEH => 280,
            LigatureNames::ARABIC_LIGATURE_YEH_WITH_NOON => 281,
            LigatureNames::ARABIC_LIGATURE_YEH_WITH_REH => 282,
            LigatureNames::ARABIC_LIGATURE_YEH_WITH_YEH => 283,
            LigatureNames::ARABIC_LIGATURE_YEH_WITH_ZAIN => 284,
            LigatureNames::ARABIC_LIGATURE_ZAH_WITH_MEEM => 285,
        }
    }
}

/// Entries 0 to 29 of the ligature table.
#[verifier::opaque]
pub open spec fn ligatures_part_0() -> Seq<LigatureSpec> {
    seq![
        lig(seq![seq!['\u{0628}', '\u{0633}', '\u{0645}', ' ', '\u{0627}', '\u{0644}', '\u{0644}', '\u{0647}', ' ', '\u{0627}', '\u{0644}', '\u{0631}', '\u{062D}', '\u{0645}', '\u{0646}', ' ', '\u{0627}', '\u{0644}', '\u{0631}', '\u{062D}', '\u{064A}', '\u{0645}']], '\u{FDFD}', '\0', '\0', '\0'),
        lig(seq![seq!['\u{062C}', '\u{0644}', ' ', '\u{062C}', '\u{0644}', '\u{0627}', '\u{0644}', '\u{0647}']], '\u{FDFB}', '\0', '\0', '\0'),
        lig(seq![seq!['\u{0635}', '\u{0644}', '\u{0649}', ' ', '\u{0627}', '\u{0644}', '\u{0644}', '\u{0647}', ' ', '\u{0639}', '\u{0644}', '\u{064A}', '\u{0647}', ' ', '\u{0648}', '\u{0633}', '\u{0644}', '\u{0645}']], '\u{FDFA}', '\0', '\0', '\0'),
        lig(seq![seq!['\u{0627}', '\u{0644}', '\u{0644}', '\u{0647}']], '\u{FDF2}', '\0', '\0', '\0'),
        lig(seq![seq!['\u{0623}', '\u{0643}', '\u{0628}', '\u{0631}']], '\u{FDF3}', '\0', '\0', '\0'),
        lig(seq![seq!['\u{0639}', '\u{0644}', '\u{064A}', '\u{0647}']], '\u{FDF7}', '\0', '\0', '\0'),
        lig(seq![seq!['\u{0645}', '\u{062D}', '\u{0645}', '\u{062F}']], '\u{FDF4}', '\0', '\0', '\0'),
        lig(seq![seq!['\u{0631}', '\u{0633}', '\u{0648}', '\u{0644}']], '\u{FDF6}', '\0', '\0', '\0'),
        lig(seq![seq!['\u{0635}', '\u{0644}', '\u{0639}', '\u{0645}']], '\u{FDF5}', '\0', '\0', '\0'),
        lig(seq![seq!['\u{0635}', '\u{0644}', '\u{0649}']], '\u{FDF9}', '\0', '\0', '\0'),
        lig(seq![seq!['\u{0648}', '\u{0633}', '\u{0644}', '\u{0645}']], '\u{FDF8}', '\0', '\0', '\0'),
        lig(seq![seq!['\u{0631}', '[', '\u{06CC}', '\u{064A}', ']', '\u{0627}', '\u{0644}']], '\u{FDFC}', '\0', '\0', '\0'),
        lig(seq![seq!['\u{0639}', '\u{0649}']], '\u{FCF7}', '\0', '\0', '\u{FD13}'),
        lig(seq![seq!['\u{0639}', '\u{062C}']], '\u{FC29}', '\u{FCBA}', '\0', '\0'),
        lig(seq![seq!['\u{0639}', '\u{062C}', '\u{0645}']], '\0', '\u{FDC4}', '\0', '\u{FD75}'),
        lig(seq![seq!['\u{0639}', '\u{0645}']], '\u{FC2A}', '\u{FCBB}', '\0', '\0'),
        lig(seq![seq!['\u{0639}', '\u{0645}', '\u{0649}']], '\0', '\0', '\0', '\u{FD78}'),
        lig(seq![seq!['\u{0639}', '\u{0645}', '\u{0645}']], '\0', '\u{FD77}', '\0', '\u{FD76}'),
        lig(seq![seq!['\u{0639}', '\u{0645}', '\u{064A}']], '\0', '\0', '\0', '\u{FDB6}'),
        lig(seq![seq!['\u{0639}', '\u{064A}']], '\u{FCF8}', '\0', '\0', '\u{FD14}'),
        lig(seq![seq!['\u{0649}', '\u{0670}']], '\u{FC5D}', '\0', '\0', '\u{FC90}'),
        lig(seq![seq!['\u{0627}', '\u{064B}']], '\u{FD3D}', '\0', '\0', '\u{FD3C}'),
        lig(seq![seq!['\u{0628}', '\u{0649}']], '\u{FC09}', '\0', '\0', '\u{FC6E}'),
        lig(seq![seq!['\u{0628}', '\u{062D}']], '\u{FC06}', '\u{FC9D}', '\0', '\0'),
        lig(seq![seq!['\u{0628}', '\u{062D}', '\u{064A}']], '\0', '\0', '\0', '\u{FDC2}'),
        lig(seq![seq!['\u{0628}', '\u{0647}']], '\0', '\u{FCA0}', '\u{FCE2}', '\0'),
        lig(seq![seq!['\u{0628}', '\u{062C}']], '\u{FC05}', '\u{FC9C}', '\0', '\0'),
        lig(seq![seq!['\u{0628}', '\u{062E}']], '\u{FC07}', '\u{FC9E}', '\0', '\0'),
        lig(seq![seq!['\u{0628}', '\u{062E}', '\u{064A}']], '\0', '\0', '\0', '\u{FD9E}'),
        lig(seq![seq!['\u{0628}', '\u{0645}']], '\u{FC08}', '\u{FC9F}', '\u{FCE1}', '\u{FC6C}'),
    ]
}

/// Entries 30 to 59 of the ligature table.
#[verifier::opaque]
pub open spec fn ligatures_part_1() -> Seq<LigatureSpec> {
    seq![
        lig(seq![seq!['\u{0628}', '\u{0646}']], '\0', '\0', '\0', '\u{FC6D}'),
        lig(seq![seq!['\u{0628}', '\u{0631}']], '\0', '\0', '\0', '\u{FC6A}'),
        lig(seq![seq!['\u{0628}', '\u{064A}']], '\u{FC0A}', '\0', '\0', '\u{FC6F}'),
        lig(seq![seq!['\u{0628}', '\u{0632}']], '\0', '\0', '\0', '\u{FC6B}'),
        lig(seq![seq!['\u{0636}', '\u{0649}']], '\u{FD07}', '\0', '\0', '\u{FD23}'),
        lig(seq![seq!['\u{0636}', '\u{062D}']], '\u{FC23}', '\u{FCB5}', '\0', '\0'),
        lig(seq![seq!['\u{0636}', '\u{062D}', '\u{0649}']], '\0', '\0', '\0', '\u{FD6E}'),
        lig(seq![seq!['\u{0636}', '\u{062D}', '\u{064A}']], '\0', '\0', '\0', '\u{FDAB}'),
        lig(seq![seq!['\u{0636}', '\u{062C}']], '\u{FC22}', '\u{FCB4}', '\0', '\0'),
        lig(seq![seq!['\u{0636}', '\u{062E}']], '\u{FC24}', '\u{FCB6}', '\0', '\0'),
        lig(seq![seq!['\u{0636}', '\u{062E}', '\u{0645}']], '\0', '\u{FD70}', '\0', '\u{FD6F}'),
        lig(seq![seq!['\u{0636}', '\u{0645}']], '\u{FC25}', '\u{FCB7}', '\0', '\0'),
        lig(seq![seq!['\u{0636}', '\u{0631}']], '\u{FD10}', '\0', '\0', '\u{FD2C}'),
        lig(seq![seq!['\u{0636}', '\u{064A}']], '\u{FD08}', '\0', '\0', '\u{FD24}'),
        lig(seq![seq!['\u{0641}', '\u{0649}']], '\u{FC31}', '\0', '\0', '\u{FC7C}'),
        lig(seq![seq!['\u{0641}', '\u{062D}']], '\u{FC2E}', '\u{FCBF}', '\0', '\0'),
        lig(seq![seq!['\u{0641}', '\u{062C}']], '\u{FC2D}', '\u{FCBE}', '\0', '\0'),
        lig(seq![seq!['\u{0641}', '\u{062E}']], '\u{FC2F}', '\u{FCC0}', '\0', '\0'),
        lig(seq![seq!['\u{0641}', '\u{062E}', '\u{0645}']], '\0', '\u{FD7D}', '\0', '\u{FD7C}'),
        lig(seq![seq!['\u{0641}', '\u{0645}']], '\u{FC30}', '\u{FCC1}', '\0', '\0'),
        lig(seq![seq!['\u{0641}', '\u{0645}', '\u{064A}']], '\0', '\0', '\0', '\u{FDC1}'),
        lig(seq![seq!['\u{0641}', '\u{064A}']], '\u{FC32}', '\0', '\0', '\u{FC7D}'),
        lig(seq![seq!['\u{063A}', '\u{0649}']], '\u{FCF9}', '\0', '\0', '\u{FD15}'),
        lig(seq![seq!['\u{063A}', '\u{062C}']], '\u{FC2B}', '\u{FCBC}', '\0', '\0'),
        lig(seq![seq!['\u{063A}', '\u{0645}']], '\u{FC2C}', '\u{FCBD}', '\0', '\0'),
        lig(seq![seq!['\u{063A}', '\u{0645}', '\u{0649}']], '\0', '\0', '\0', '\u{FD7B}'),
        lig(seq![seq!['\u{063A}', '\u{0645}', '\u{0645}']], '\0', '\0', '\0', '\u{FD79}'),
        lig(seq![seq!['\u{063A}', '\u{0645}', '\u{064A}']], '\0', '\0', '\0', '\u{FD7A}'),
        lig(seq![seq!['\u{063A}', '\u{064A}']], '\u{FCFA}', '\0', '\0', '\u{FD16}'),
        lig(seq![seq!['\u{062D}', '\u{0649}']], '\u{FCFF}', '\0', '\0', '\u{FD1B}'),
    ]
}

/// Entries 60 to 89 of the ligature table.
#[verifier::opaque]
pub open spec fn ligatures_part_2() -> Seq<LigatureSpec> {
    seq![
        lig(seq![seq!['\u{062D}', '\u{062C}']], '\u{FC17}', '\u{FCA9}', '\0', '\0'),
        lig(seq![seq!['\u{062D}', '\u{062C}', '\u{064A}']], '\0', '\0', '\0', '\u{FDBF}'),
        lig(seq![seq!['\u{062D}', '\u{0645}']], '\u{FC18}', '\u{FCAA}', '\0', '\0'),
        lig(seq![seq!['\u{062D}', '\u{0645}', '\u{0649}']], '\0', '\0', '\0', '\u{FD5B}'),
        lig(seq![seq!['\u{062D}', '\u{0645}', '\u{064A}']], '\0', '\0', '\0', '\u{FD5A}'),
        lig(seq![seq!['\u{062D}', '\u{064A}']], '\u{FD00}', '\0', '\0', '\u{FD1C}'),
        lig(seq![seq!['\u{0647}', '\u{0649}']], '\u{FC53}', '\0', '\0', '\0'),
        lig(seq![seq!['\u{0647}', '\u{062C}']], '\u{FC51}', '\u{FCD7}', '\0', '\0'),
        lig(seq![seq!['\u{0647}', '\u{0645}']], '\u{FC52}', '\u{FCD8}', '\0', '\0'),
        lig(seq![seq!['\u{0647}', '\u{0645}', '\u{062C}']], '\0', '\u{FD93}', '\0', '\0'),
        lig(seq![seq!['\u{0647}', '\u{0645}', '\u{0645}']], '\0', '\u{FD94}', '\0', '\0'),
        lig(seq![seq!['\u{0647}', '\u{0670}']], '\0', '\u{FCD9}', '\0', '\0'),
        lig(seq![seq!['\u{0647}', '\u{064A}']], '\u{FC54}', '\0', '\0', '\0'),
        lig(seq![seq!['\u{062C}', '\u{0649}']], '\u{FD01}', '\0', '\0', '\u{FD1D}'),
        lig(seq![seq!['\u{062C}', '\u{062D}']], '\u{FC15}', '\u{FCA7}', '\0', '\0'),
        lig(seq![seq!['\u{062C}', '\u{062D}', '\u{0649}']], '\0', '\0', '\0', '\u{FDA6}'),
        lig(seq![seq!['\u{062C}', '\u{062D}', '\u{064A}']], '\0', '\0', '\0', '\u{FDBE}'),
        lig(seq![seq!['\u{062C}', '\u{0645}']], '\u{FC16}', '\u{FCA8}', '\0', '\0'),
        lig(seq![seq!['\u{062C}', '\u{0645}', '\u{0649}']], '\0', '\0', '\0', '\u{FDA7}'),
        lig(seq![seq!['\u{062C}', '\u{0645}', '\u{062D}']], '\0', '\u{FD59}', '\0', '\u{FD58}'),
        lig(seq![seq!['\u{062C}', '\u{0645}', '\u{064A}']], '\0', '\0', '\0', '\u{FDA5}'),
        lig(seq![seq!['\u{062C}', '\u{064A}']], '\u{FD02}', '\0', '\0', '\u{FD1E}'),
        lig(seq![seq!['\u{0643}', '\u{0627}']], '\u{FC37}', '\0', '\0', '\u{FC80}'),
        lig(seq![seq!['\u{0643}', '\u{0649}']], '\u{FC3D}', '\0', '\0', '\u{FC83}'),
        lig(seq![seq!['\u{0643}', '\u{062D}']], '\u{FC39}', '\u{FCC5}', '\0', '\0'),
        lig(seq![seq!['\u{0643}', '\u{062C}']], '\u{FC38}', '\u{FCC4}', '\0', '\0'),
        lig(seq![seq!['\u{0643}', '\u{062E}']], '\u{FC3A}', '\u{FCC6}', '\0', '\0'),
        lig(seq![seq!['\u{0643}', '\u{0644}']], '\u{FC3B}', '\u{FCC7}', '\u{FCEB}', '\u{FC81}'),
        lig(seq![seq!['\u{0643}', '\u{0645}']], '\u{FC3C}', '\u{FCC8}', '\u{FCEC}', '\u{FC82}'),
        lig(seq![seq!['\u{0643}', '\u{0645}', '\u{0645}']], '\0', '\u{FDC3}', '\0', '\u{FDBB}'),
    ]
}

/// Entries 90 to 119 of the ligature table.
#[verifier::opaque]
pub open spec fn ligatures_part_3() -> Seq<LigatureSpec> {
    seq![
        lig(seq![seq!['\u{0643}', '\u{0645}', '\u{064A}']], '\0', '\0', '\0', '\u{FDB7}'),
        lig(seq![seq!['\u{0643}', '\u{064A}']], '\u{FC3E}', '\0', '\0', '\u{FC84}'),
        lig(seq![seq!['\u{062E}', '\u{0649}']], '\u{FD03}', '\0', '\0', '\u{FD1F}'),
        lig(seq![seq!['\u{062E}', '\u{062D}']], '\u{FC1A}', '\0', '\0', '\0'),
        lig(seq![seq!['\u{062E}', '\u{062C}']], '\u{FC19}', '\u{FCAB}', '\0', '\0'),
        lig(seq![seq!['\u{062E}', '\u{0645}']], '\u{FC1B}', '\u{FCAC}', '\0', '\0'),
        lig(seq![seq!['\u{062E}', '\u{064A}']], '\u{FD04}', '\0', '\0', '\u{FD20}'),
        lig(seq![seq!['\u{0644}', '\u{0627}']], '\u{FEFB}', '\0', '\0', '\u{FEFC}'),
        lig(seq![seq!['\u{0644}', '\u{0649}']], '\u{FC43}', '\0', '\0', '\u{FC86}'),
        lig(seq![seq!['\u{0644}', '\u{0623}']], '\u{FEF7}', '\0', '\0', '\u{FEF8}'),
        lig(seq![seq!['\u{0644}', '\u{0625}']], '\u{FEF9}', '\0', '\0', '\u{FEFA}'),
        lig(seq![seq!['\u{0644}', '\u{0622}']], '\u{FEF5}', '\0', '\0', '\u{FEF6}'),
        lig(seq![seq!['\u{0644}', '\u{062D}']], '\u{FC40}', '\u{FCCA}', '\0', '\0'),
        lig(seq![seq!['\u{0644}', '\u{062D}', '\u{0649}']], '\0', '\0', '\0', '\u{FD82}'),
        lig(seq![seq!['\u{0644}', '\u{062D}', '\u{0645}']], '\0', '\u{FDB5}', '\0', '\u{FD80}'),
        lig(seq![seq!['\u{0644}', '\u{062D}', '\u{064A}']], '\0', '\0', '\0', '\u{FD81}'),
        lig(seq![seq!['\u{0644}', '\u{0647}']], '\0', '\u{FCCD}', '\0', '\0'),
        lig(seq![seq!['\u{0644}', '\u{062C}']], '\u{FC3F}', '\u{FCC9}', '\0', '\0'),
        lig(seq![seq!['\u{0644}', '\u{062C}', '\u{062C}']], '\0', '\u{FD83}', '\0', '\u{FD84}'),
        lig(seq![seq!['\u{0644}', '\u{062C}', '\u{0645}']], '\0', '\u{FDBA}', '\0', '\u{FDBC}'),
        lig(seq![seq!['\u{0644}', '\u{062C}', '\u{064A}']], '\0', '\0', '\0', '\u{FDAC}'),
        lig(seq![seq!['\u{0644}', '\u{062E}']], '\u{FC41}', '\u{FCCB}', '\0', '\0'),
        lig(seq![seq!['\u{0644}', '\u{062E}', '\u{0645}']], '\0', '\u{FD86}', '\0', '\u{FD85}'),
        lig(seq![seq!['\u{0644}', '\u{0645}']], '\u{FC42}', '\u{FCCC}', '\u{FCED}', '\u{FC85}'),
        lig(seq![seq!['\u{0644}', '\u{0645}', '\u{062D}']], '\0', '\u{FD88}', '\0', '\u{FD87}'),
        lig(seq![seq!['\u{0644}', '\u{0645}', '\u{064A}']], '\0', '\0', '\0', '\u{FDAD}'),
        lig(seq![seq!['\u{0644}', '\u{064A}']], '\u{FC44}', '\0', '\0', '\u{FC87}'),
        lig(seq![seq!['\u{0645}', '\u{0627}']], '\0', '\0', '\0', '\u{FC88}'),
        lig(seq![seq!['\u{0645}', '\u{0649}']], '\u{FC49}', '\0', '\0', '\0'),
        lig(seq![seq!['\u{0645}', '\u{062D}']], '\u{FC46}', '\u{FCCF}', '\0', '\0'),
    ]
}

/// Entries 120 to 149 of the ligature table.
#[verifier::opaque]
pub open spec fn ligatures_part_4() -> Seq<LigatureSpec> {
    seq![
        lig(seq![seq!['\u{0645}', '\u{062D}', '\u{062C}']], '\0', '\u{FD89}', '\0', '\0'),
        lig(seq![seq!['\u{0645}', '\u{062D}', '\u{0645}']], '\0', '\u{FD8A}', '\0', '\0'),
        lig(seq![seq!['\u{0645}', '\u{062D}', '\u{064A}']], '\0', '\0', '\0', '\u{FD8B}'),
        lig(seq![seq!['\u{0645}', '\u{062C}']], '\u{FC45}', '\u{FCCE}', '\0', '\0'),
        lig(seq![seq!['\u{0645}', '\u{062C}', '\u{062D}']], '\0', '\u{FD8C}', '\0', '\0'),
        lig(seq![seq!['\u{0645}', '\u{062C}', '\u{062E}']], '\0', '\u{FD92}', '\0', '\0'),
        lig(seq![seq!['\u{0645}', '\u{062C}', '\u{0645}']], '\0', '\u{FD8D}', '\0', '\0'),
        lig(seq![seq!['\u{0645}', '\u{062C}', '\u{064A}']], '\0', '\0', '\0', '\u{FDC0}'),
        lig(seq![seq!['\u{0645}', '\u{062E}']], '\u{FC47}', '\u{FCD0}', '\0', '\0'),
        lig(seq![seq!['\u{0645}', '\u{062E}', '\u{062C}']], '\0', '\u{FD8E}', '\0', '\0'),
        lig(seq![seq!['\u{0645}', '\u{062E}', '\u{0645}']], '\0', '\u{FD8F}', '\0', '\0'),
        lig(seq![seq!['\u{0645}', '\u{062E}', '\u{064A}']], '\0', '\0', '\0', '\u{FDB9}'),
        lig(seq![seq!['\u{0645}', '\u{0645}']], '\u{FC48}', '\u{FCD1}', '\0', '\u{FC89}'),
        lig(seq![seq!['\u{0645}', '\u{0645}', '\u{064A}']], '\0', '\0', '\0', '\u{FDB1}'),
        lig(seq![seq!['\u{0645}', '\u{064A}']], '\u{FC4A}', '\0', '\0', '\0'),
        lig(seq![seq!['\u{0646}', '\u{0649}']], '\u{FC4F}', '\0', '\0', '\u{FC8E}'),
        lig(seq![seq!['\u{0646}', '\u{062D}']], '\u{FC4C}', '\u{FCD3}', '\0', '\0'),
        lig(seq![seq!['\u{0646}', '\u{062D}', '\u{0649}']], '\0', '\0', '\0', '\u{FD96}'),
        lig(seq![seq!['\u{0646}', '\u{062D}', '\u{0645}']], '\0', '\u{FD95}', '\0', '\0'),
        lig(seq![seq!['\u{0646}', '\u{062D}', '\u{064A}']], '\0', '\0', '\0', '\u{FDB3}'),
        lig(seq![seq!['\u{0646}', '\u{0647}']], '\0', '\u{FCD6}', '\u{FCEF}', '\0'),
        lig(seq![seq!['\u{0646}', '\u{062C}']], '\u{FC4B}', '\u{FCD2}', '\0', '\0'),
        lig(seq![seq!['\u{0646}', '\u{062C}', '\u{0649}']], '\0', '\0', '\0', '\u{FD99}'),
        lig(seq![seq!['\u{0646}', '\u{062C}', '\u{062D}']], '\0', '\u{FDB8}', '\0', '\u{FDBD}'),
        lig(seq![seq!['\u{0646}', '\u{062C}', '\u{0645}']], '\0', '\u{FD98}', '\0', '\u{FD97}'),
        lig(seq![seq!['\u{0646}', '\u{062C}', '\u{064A}']], '\0', '\0', '\0', '\u{FDC7}'),
        lig(seq![seq!['\u{0646}', '\u{062E}']], '\u{FC4D}', '\u{FCD4}', '\0', '\0'),
        lig(seq![seq!['\u{0646}', '\u{0645}']], '\u{FC4E}', '\u{FCD5}', '\u{FCEE}', '\u{FC8C}'),
        lig(seq![seq!['\u{0646}', '\u{0645}', '\u{0649}']], '\0', '\0', '\0', '\u{FD9B}'),
        lig(seq![seq!['\u{0646}', '\u{0645}', '\u{064A}']], '\0', '\0', '\0', '\u{FD9A}'),
    ]
}

/// Entries 150 to 179 of the ligature table.
#[verifier::opaque]
pub open spec fn ligatures_part_5() -> Seq<LigatureSpec> {
    seq![
        lig(seq![seq!['\u{0646}', '\u{0646}']], '\0', '\0', '\0', '\u{FC8D}'),
        lig(seq![seq!['\u{0646}', '\u{0631}']], '\0', '\0', '\0', '\u{FC8A}'),
        lig(seq![seq!['\u{0646}', '\u{064A}']], '\u{FC50}', '\0', '\0', '\u{FC8F}'),
        lig(seq![seq!['\u{0646}', '\u{0632}']], '\0', '\0', '\0', '\u{FC8B}'),
        lig(seq![seq!['\u{0642}', '\u{0649}']], '\u{FC35}', '\0', '\0', '\u{FC7E}'),
        lig(seq![seq!['\u{0642}', '\u{062D}']], '\u{FC33}', '\u{FCC2}', '\0', '\0'),
        lig(seq![seq!['\u{0642}', '\u{0645}']], '\u{FC34}', '\u{FCC3}', '\0', '\0'),
        lig(seq![seq!['\u{0642}', '\u{0645}', '\u{062D}']], '\0', '\u{FDB4}', '\0', '\u{FD7E}'),
        lig(seq![seq!['\u{0642}', '\u{0645}', '\u{0645}']], '\0', '\0', '\0', '\u{FD7F}'),
        lig(seq![seq!['\u{0642}', '\u{0645}', '\u{064A}']], '\0', '\0', '\0', '\u{FDB2}'),
        lig(seq![seq!['\u{0642}', '\u{064A}']], '\u{FC36}', '\0', '\0', '\u{FC7F}'),
        lig(seq![seq!['\u{0642}', '\u{0644}', '\u{06D2}']], '\u{FDF1}', '\0', '\0', '\0'),
        lig(seq![seq!['\u{0631}', '\u{0670}']], '\u{FC5C}', '\0', '\0', '\0'),
        lig(seq![seq!['\u{0635}', '\u{0649}']], '\u{FD05}', '\0', '\0', '\u{FD21}'),
        lig(seq![seq!['\u{0635}', '\u{062D}']], '\u{FC20}', '\u{FCB1}', '\0', '\0'),
        lig(seq![seq!['\u{0635}', '\u{062D}', '\u{062D}']], '\0', '\u{FD65}', '\0', '\u{FD64}'),
        lig(seq![seq!['\u{0635}', '\u{062D}', '\u{064A}']], '\0', '\0', '\0', '\u{FDA9}'),
        lig(seq![seq!['\u{0635}', '\u{062E}']], '\0', '\u{FCB2}', '\0', '\0'),
        lig(seq![seq!['\u{0635}', '\u{0645}']], '\u{FC21}', '\u{FCB3}', '\0', '\0'),
        lig(seq![seq!['\u{0635}', '\u{0645}', '\u{0645}']], '\0', '\u{FDC5}', '\0', '\u{FD66}'),
        lig(seq![seq!['\u{0635}', '\u{0631}']], '\u{FD0F}', '\0', '\0', '\u{FD2B}'),
        lig(seq![seq!['\u{0635}', '\u{064A}']], '\u{FD06}', '\0', '\0', '\u{FD22}'),
        lig(seq![seq!['\u{0635}', '\u{0644}', '\u{06D2}']], '\u{FDF0}', '\0', '\0', '\0'),
        lig(seq![seq!['\u{0633}', '\u{0649}']], '\u{FCFB}', '\0', '\0', '\u{FD17}'),
        lig(seq![seq!['\u{0633}', '\u{062D}']], '\u{FC1D}', '\u{FCAE}', '\u{FD35}', '\0'),
        lig(seq![seq!['\u{0633}', '\u{062D}', '\u{062C}']], '\0', '\u{FD5C}', '\0', '\0'),
        lig(seq![seq!['\u{0633}', '\u{0647}']], '\0', '\u{FD31}', '\u{FCE8}', '\0'),
        lig(seq![seq!['\u{0633}', '\u{062C}']], '\u{FC1C}', '\u{FCAD}', '\u{FD34}', '\0'),
        lig(seq![seq!['\u{0633}', '\u{062C}', '\u{0649}']], '\0', '\0', '\0', '\u{FD5E}'),
        lig(seq![seq!['\u{0633}', '\u{062C}', '\u{062D}']], '\0', '\u{FD5D}', '\0', '\0'),
    ]
}

/// Entries 180 to 209 of the ligature table.
#[verifier::opaque]
pub open spec fn ligatures_part_6() -> Seq<LigatureSpec> {
    seq![
        lig(seq![seq!['\u{0633}', '\u{062E}']], '\u{FC1E}', '\u{FCAF}', '\u{FD36}', '\0'),
        lig(seq![seq!['\u{0633}', '\u{062E}', '\u{0649}']], '\0', '\0', '\0', '\u{FDA8}'),
        lig(seq![seq!['\u{0633}', '\u{062E}', '\u{064A}']], '\0', '\0', '\0', '\u{FDC6}'),
        lig(seq![seq!['\u{0633}', '\u{0645}']], '\u{FC1F}', '\u{FCB0}', '\u{FCE7}', '\0'),
        lig(seq![seq!['\u{0633}', '\u{0645}', '\u{062D}']], '\0', '\u{FD60}', '\0', '\u{FD5F}'),
        lig(seq![seq!['\u{0633}', '\u{0645}', '\u{062C}']], '\0', '\u{FD61}', '\0', '\0'),
        lig(seq![seq!['\u{0633}', '\u{0645}', '\u{0645}']], '\0', '\u{FD63}', '\0', '\u{FD62}'),
        lig(seq![seq!['\u{0633}', '\u{0631}']], '\u{FD0E}', '\0', '\0', '\u{FD2A}'),
        lig(seq![seq!['\u{0633}', '\u{064A}']], '\u{FCFC}', '\0', '\0', '\u{FD18}'),
        lig(seq![seq!['\u{064C}', '\u{0651}'], seq!['\u{0651}', '\u{064C}']], '\u{FC5E}', '\u{FC5E}', '\u{FC5E}', '\u{FC5E}'),
        lig(seq![seq!['\u{064D}', '\u{0651}'], seq!['\u{0651}', '\u{064D}']], '\u{FC5F}', '\u{FC5F}', '\u{FC5F}', '\u{FC5F}'),
        lig(seq![seq!['\u{064E}', '\u{0651}'], seq!['\u{0651}', '\u{064E}']], '\u{FC60}', '\u{FC60}', '\u{FC60}', '\u{FC60}'),
        lig(seq![seq!['\u{064F}', '\u{0651}'], seq!['\u{0651}', '\u{064F}']], '\u{FC61}', '\u{FC61}', '\u{FC61}', '\u{FC61}'),
        lig(seq![seq!['\u{0650}', '\u{0651}'], seq!['\u{0651}', '\u{0650}']], '\u{FC62}', '\u{FC62}', '\u{FC62}', '\u{FC62}'),
        lig(seq![seq!['\u{0651}', '\u{0670}'], seq!['\u{0670}', '\u{0651}']], '\u{FC63}', '\0', '\0', '\0'),
        lig(seq![seq!['\u{0640}', '\u{064E}', '\u{0651}'], seq!['\u{0640}', '\u{0651}', '\u{064E}']], '\u{FCF2}', '\u{FCF2}', '\u{FCF2}', '\u{FCF2}'),
        lig(seq![seq!['\u{0640}', '\u{064F}', '\u{0651}'], seq!['\u{0640}', '\u{0651}', '\u{064F}']], '\u{FCF3}', '\u{FCF3}', '\u{FCF3}', '\u{FCF3}'),
        lig(seq![seq!['\u{0640}', '\u{0650}', '\u{0651}'], seq!['\u{0640}', '\u{0651}', '\u{0650}']], '\u{FCF4}', '\u{FCF4}', '\u{FCF4}', '\u{FCF4}'),
        lig(seq![seq!['\u{0640}', '\u{064E}', '\u{0651}'], seq!['\u{0640}', '\u{0651}', '\u{064E}']], '\u{FCF2}', '\u{FCF2}', '\u{FCF2}', '\u{FCF2}'),
        lig(seq![seq!['\u{0640}', '\u{064F}', '\u{0651}'], seq!['\u{0640}', '\u{0651}', '\u{064F}']], '\u{FCF3}', '\u{FCF3}', '\u{FCF3}', '\u{FCF3}'),
        lig(seq![seq!['\u{0640}', '\u{0650}', '\u{0651}'], seq!['\u{0640}', '\u{0651}', '\u{0650}']], '\u{FCF4}', '\u{FCF4}', '\u{FCF4}', '\u{FCF4}'),
        lig(seq![seq!['\u{0634}', '\u{0649}']], '\u{FCFD}', '\0', '\0', '\u{FD19}'),
        lig(seq![seq!['\u{0634}', '\u{062D}']], '\u{FD0A}', '\u{FD2E}', '\u{FD38}', '\u{FD26}'),
        lig(seq![seq!['\u{0634}', '\u{062D}', '\u{0645}']], '\0', '\u{FD68}', '\0', '\u{FD67}'),
        lig(seq![seq!['\u{0634}', '\u{062D}', '\u{064A}']], '\0', '\0', '\0', '\u{FDAA}'),
        lig(seq![seq!['\u{0634}', '\u{0647}']], '\0', '\u{FD32}', '\u{FCEA}', '\0'),
        lig(seq![seq!['\u{0634}', '\u{062C}']], '\u{FD09}', '\u{FD2D}', '\u{FD37}', '\u{FD25}'),
        lig(seq![seq!['\u{0634}', '\u{062C}', '\u{064A}']], '\0', '\0', '\0', '\u{FD69}'),
        lig(seq![seq!['\u{0634}', '\u{062E}']], '\u{FD0B}', '\u{FD2F}', '\u{FD39}', '\u{FD27}'),
        lig(seq![seq!['\u{0634}', '\u{0645}']], '\u{FD0C}', '\u{FD30}', '\u{FCE9}', '\u{FD28}'),
    ]
}

/// Entries 210 to 239 of the ligature table.
#[verifier::opaque]
pub open spec fn ligatures_part_7() -> Seq<LigatureSpec> {
    seq![
        lig(seq![seq!['\u{0634}', '\u{0645}', '\u{062E}']], '\0', '\u{FD6B}', '\0', '\u{FD6A}'),
        lig(seq![seq!['\u{0634}', '\u{0645}', '\u{0645}']], '\0', '\u{FD6D}', '\0', '\u{FD6C}'),
        lig(seq![seq!['\u{0634}', '\u{0631}']], '\u{FD0D}', '\0', '\0', '\u{FD29}'),
        lig(seq![seq!['\u{0634}', '\u{064A}']], '\u{FCFE}', '\0', '\0', '\u{FD1A}'),
        lig(seq![seq!['\u{0637}', '\u{0649}']], '\u{FCF5}', '\0', '\0', '\u{FD11}'),
        lig(seq![seq!['\u{0637}', '\u{062D}']], '\u{FC26}', '\u{FCB8}', '\0', '\0'),
        lig(seq![seq!['\u{0637}', '\u{0645}']], '\u{FC27}', '\u{FD33}', '\u{FD3A}', '\0'),
        lig(seq![seq!['\u{0637}', '\u{0645}', '\u{062D}']], '\0', '\u{FD72}', '\0', '\u{FD71}'),
        lig(seq![seq!['\u{0637}', '\u{0645}', '\u{0645}']], '\0', '\u{FD73}', '\0', '\0'),
        lig(seq![seq!['\u{0637}', '\u{0645}', '\u{064A}']], '\0', '\0', '\0', '\u{FD74}'),
        lig(seq![seq!['\u{0637}', '\u{064A}']], '\u{FCF6}', '\0', '\0', '\u{FD12}'),
        lig(seq![seq!['\u{062A}', '\u{0649}']], '\u{FC0F}', '\0', '\0', '\u{FC74}'),
        lig(seq![seq!['\u{062A}', '\u{062D}']], '\u{FC0C}', '\u{FCA2}', '\0', '\0'),
        lig(seq![seq!['\u{062A}', '\u{062D}', '\u{062C}']], '\0', '\u{FD52}', '\0', '\u{FD51}'),
        lig(seq![seq!['\u{062A}', '\u{062D}', '\u{0645}']], '\0', '\u{FD53}', '\0', '\0'),
        lig(seq![seq!['\u{062A}', '\u{0647}']], '\0', '\u{FCA5}', '\u{FCE4}', '\0'),
        lig(seq![seq!['\u{062A}', '\u{062C}']], '\u{FC0B}', '\u{FCA1}', '\0', '\0'),
        lig(seq![seq!['\u{062A}', '\u{062C}', '\u{0649}']], '\0', '\0', '\0', '\u{FDA0}'),
        lig(seq![seq!['\u{062A}', '\u{062C}', '\u{0645}']], '\0', '\u{FD50}', '\0', '\0'),
        lig(seq![seq!['\u{062A}', '\u{062C}', '\u{064A}']], '\0', '\0', '\0', '\u{FD9F}'),
        lig(seq![seq!['\u{062A}', '\u{062E}']], '\u{FC0D}', '\u{FCA3}', '\0', '\0'),
        lig(seq![seq!['\u{062A}', '\u{062E}', '\u{0649}']], '\0', '\0', '\0', '\u{FDA2}'),
        lig(seq![seq!['\u{062A}', '\u{062E}', '\u{0645}']], '\0', '\u{FD54}', '\0', '\0'),
        lig(seq![seq!['\u{062A}', '\u{062E}', '\u{064A}']], '\0', '\0', '\0', '\u{FDA1}'),
        lig(seq![seq!['\u{062A}', '\u{0645}']], '\u{FC0E}', '\u{FCA4}', '\u{FCE3}', '\u{FC72}'),
        lig(seq![seq!['\u{062A}', '\u{0645}', '\u{0649}']], '\0', '\0', '\0', '\u{FDA4}'),
        lig(seq![seq!['\u{062A}', '\u{0645}', '\u{062D}']], '\0', '\u{FD56}', '\0', '\0'),
        lig(seq![seq!['\u{062A}', '\u{0645}', '\u{062C}']], '\0', '\u{FD55}', '\0', '\0'),
        lig(seq![seq!['\u{062A}', '\u{0645}', '\u{062E}']], '\0', '\u{FD57}', '\0', '\0'),
        lig(seq![seq!['\u{062A}', '\u{0645}', '\u{064A}']], '\0', '\0', '\0', '\u{FDA3}'),
    ]
}

/// Entries 240 to 269 of the ligature table.
#[verifier::opaque]
pub open spec fn ligatures_part_8() -> Seq<LigatureSpec> {
    seq![
        lig(seq![seq!['\u{062A}', '\u{0646}']], '\0', '\0', '\0', '\u{FC73}'),
        lig(seq![seq!['\u{062A}', '\u{0631}']], '\0', '\0', '\0', '\u{FC70}'),
        lig(seq![seq!['\u{062A}', '\u{064A}']], '\u{FC10}', '\0', '\0', '\u{FC75}'),
        lig(seq![seq!['\u{062A}', '\u{0632}']], '\0', '\0', '\0', '\u{FC71}'),
        lig(seq![seq!['\u{0630}', '\u{0670}']], '\u{FC5B}', '\0', '\0', '\0'),
        lig(seq![seq!['\u{062B}', '\u{0649}']], '\u{FC13}', '\0', '\0', '\u{FC7A}'),
        lig(seq![seq!['\u{062B}', '\u{0647}']], '\0', '\0', '\u{FCE6}', '\0'),
        lig(seq![seq!['\u{062B}', '\u{062C}']], '\u{FC11}', '\0', '\0', '\0'),
        lig(seq![seq!['\u{062B}', '\u{0645}']], '\u{FC12}', '\u{FCA6}', '\u{FCE5}', '\u{FC78}'),
        lig(seq![seq!['\u{062B}', '\u{0646}']], '\0', '\0', '\0', '\u{FC79}'),
        lig(seq![seq!['\u{062B}', '\u{0631}']], '\0', '\0', '\0', '\u{FC76}'),
        lig(seq![seq!['\u{062B}', '\u{064A}']], '\u{FC14}', '\0', '\0', '\u{FC7B}'),
        lig(seq![seq!['\u{062B}', '\u{0632}']], '\0', '\0', '\0', '\u{FC77}'),
        lig(seq![seq!['\u{0626}', '\u{0649}']], '\u{FBF9}', '\u{FBFB}', '\0', '\u{FBFA}'),
        lig(seq![seq!['\u{064A}', '\u{0649}']], '\u{FC59}', '\0', '\0', '\u{FC95}'),
        lig(seq![seq!['\u{064A}', '\u{062D}']], '\u{FC56}', '\u{FCDB}', '\0', '\0'),
        lig(seq![seq!['\u{064A}', '\u{062D}', '\u{064A}']], '\0', '\0', '\0', '\u{FDAE}'),
        lig(seq![seq!['\u{0626}', '\u{06D5}']], '\u{FBEC}', '\0', '\0', '\u{FBED}'),
        lig(seq![seq!['\u{0626}', '\u{0627}']], '\u{FBEA}', '\0', '\0', '\u{FBEB}'),
        lig(seq![seq!['\u{0626}', '\u{0649}']], '\u{FC03}', '\0', '\0', '\u{FC68}'),
        lig(seq![seq!['\u{0626}', '\u{06D0}']], '\u{FBF6}', '\u{FBF8}', '\0', '\u{FBF7}'),
        lig(seq![seq!['\u{0626}', '\u{062D}']], '\u{FC01}', '\u{FC98}', '\0', '\0'),
        lig(seq![seq!['\u{0626}', '\u{0647}']], '\0', '\u{FC9B}', '\u{FCE0}', '\0'),
        lig(seq![seq!['\u{0626}', '\u{062C}']], '\u{FC00}', '\u{FC97}', '\0', '\0'),
        lig(seq![seq!['\u{0626}', '\u{062E}']], '\0', '\u{FC99}', '\0', '\0'),
        lig(seq![seq!['\u{0626}', '\u{0645}']], '\u{FC02}', '\u{FC9A}', '\u{FCDF}', '\u{FC66}'),
        lig(seq![seq!['\u{0626}', '\u{0646}']], '\0', '\0', '\0', '\u{FC67}'),
        lig(seq![seq!['\u{0626}', '\u{06C6}']], '\u{FBF2}', '\0', '\0', '\u{FBF3}'),
        lig(seq![seq!['\u{0626}', '\u{0631}']], '\0', '\0', '\0', '\u{FC64}'),
        lig(seq![seq!['\u{0626}', '\u{06C7}']], '\u{FBF0}', '\0', '\0', '\u{FBF1}'),
    ]
}

/// Entries 270 to 285 of the ligature table.
#[verifier::opaque]
pub open spec fn ligatures_part_9() -> Seq<LigatureSpec> {
    seq![
        lig(seq![seq!['\u{0626}', '\u{0648}']], '\u{FBEE}', '\0', '\0', '\u{FBEF}'),
        lig(seq![seq!['\u{0626}', '\u{064A}']], '\u{FC04}', '\0', '\0', '\u{FC69}'),
        lig(seq![seq!['\u{0626}', '\u{06C8}']], '\u{FBF4}', '\0', '\0', '\u{FBF5}'),
        lig(seq![seq!['\u{0626}', '\u{0632}']], '\0', '\0', '\0', '\u{FC65}'),
        lig(seq![seq!['\u{064A}', '\u{0647}']], '\0', '\u{FCDE}', '\u{FCF1}', '\0'),
        lig(seq![seq!['\u{064A}', '\u{062C}']], '\u{FC55}', '\u{FCDA}', '\0', '\0'),
        lig(seq![seq!['\u{064A}', '\u{062C}', '\u{064A}']], '\0', '\0', '\0', '\u{FDAF}'),
        lig(seq![seq!['\u{064A}', '\u{062E}']], '\u{FC57}', '\u{FCDC}', '\0', '\0'),
        lig(seq![seq!['\u{064A}', '\u{0645}']], '\u{FC58}', '\u{FCDD}', '\u{FCF0}', '\u{FC93}'),
        lig(seq![seq!['\u{064A}', '\u{0645}', '\u{0645}']], '\0', '\u{FD9D}', '\0', '\u{FD9C}'),
        lig(seq![seq!['\u{064A}', '\u{0645}', '\u{064A}']], '\0', '\0', '\0', '\u{FDB0}'),
        lig(seq![seq!['\u{064A}', '\u{0646}']], '\0', '\0', '\0', '\u{FC94}'),
        lig(seq![seq!['\u{064A}', '\u{0631}']], '\0', '\0', '\0', '\u{FC91}'),
        lig(seq![seq!['\u{064A}', '\u{064A}']], '\u{FC5A}', '\0', '\0', '\u{FC96}'),
        lig(seq![seq!['\u{064A}', '\u{0632}']], '\0', '\0', '\0', '\u{FC92}'),
        lig(seq![seq!['\u{0638}', '\u{0645}']], '\u{FC28}', '\u{FCB9}', '\u{FD3B}', '\0'),
    ]
}

/// The whole ligature table, in priority order.
pub open spec fn ligatures_spec() -> Seq<LigatureSpec> {
    ligatures_part_0()
        + ligatures_part_1()
        + ligatures_part_2()
        + ligatures_part_3()
        + ligatures_part_4()
        + ligatures_part_5()
        + ligatures_part_6()
        + ligatures_part_7()
        + ligatures_part_8()
        + ligatures_part_9()
}

fn push_ligatures_part_0(t: &mut Vec<Ligature>)
    ensures
        table_view(final(t)@) == table_view(old(t)@) + ligatures_part_0(),
{
    reveal(ligatures_part_0);
    let mut v: Vec<Ligature> = vec![
        // ARABIC_LIGATURE_BISMILLAH_AR_RAHMAN_AR_RAHEEM
        Ligature { patterns: vec![vec!['\u{0628}', '\u{0633}', '\u{0645}', ' ', '\u{0627}', '\u{0644}', '\u{0644}', '\u{0647}', ' ', '\u{0627}', '\u{0644}', '\u{0631}', '\u{062D}', '\u{0645}', '\u{0646}', ' ', '\u{0627}', '\u{0644}', '\u{0631}', '\u{062D}', '\u{064A}', '\u{0645}']], forms: Forms::new('\u{FDFD}', '\0', '\0', '\0') },
        // ARABIC_LIGATURE_JALLAJALALOUHOU
        Ligature { patterns: vec![vec!['\u{062C}', '\u{0644}', ' ', '\u{062C}', '\u{0644}', '\u{0627}', '\u{0644}', '\u{0647}']], forms: Forms::new('\u{FDFB}', '\0', '\0', '\0') },
        // ARABIC_LIGATURE_SALLALLAHOU_ALAYHE_WASALLAM
        Ligature { patterns: vec![vec!['\u{0635}', '\u{0644}', '\u{0649}', ' ', '\u{0627}', '\u{0644}', '\u{0644}', '\u{0647}', ' ', '\u{0639}', '\u{0644}', '\u{064A}', '\u{0647}', ' ', '\u{0648}', '\u{0633}', '\u{0644}', '\u{0645}']], forms: Forms::new('\u{FDFA}', '\0', '\0', '\0') },
        // ARABIC_LIGATURE_ALLAH
        Ligature { patterns: vec![vec!['\u{0627}', '\u{0644}', '\u{0644}', '\u{0647}']], forms: Forms::new('\u{FDF2}', '\0', '\0', '\0') },
        // ARABIC_LIGATURE_AKBAR
        Ligature { patterns: vec![vec!['\u{0623}', '\u{0643}', '\u{0628}', '\u{0631}']], forms: Forms::new('\u{FDF3}', '\0', '\0', '\0') },
        // ARABIC_LIGATURE_ALAYHE
        Ligature { patterns: vec![vec!['\u{0639}', '\u{0644}', '\u{064A}', '\u{0647}']], forms: Forms::new('\u{FDF7}', '\0', '\0', '\0') },
        // ARABIC_LIGATURE_MOHAMMAD
        Ligature { patterns: vec![vec!['\u{0645}', '\u{062D}', '\u{0645}', '\u{062F}']], forms: Forms::new('\u{FDF4}', '\0', '\0', '\0') },
        // ARABIC_LIGATURE_RASOUL
        Ligature { patterns: vec![vec!['\u{0631}', '\u{0633}', '\u{0648}', '\u{0644}']], forms: Forms::new('\u{FDF6}', '\0', '\0', '\0') },
        // ARABIC_LIGATURE_SALAM
        Ligature { patterns: vec![vec!['\u{0635}', '\u{0644}', '\u{0639}', '\u{0645}']], forms: Forms::new('\u{FDF5}', '\0', '\0', '\0') },
        // ARABIC_LIGATURE_SALLA
        Ligature { patterns: vec![vec!['\u{0635}', '\u{0644}', '\u{0649}']], forms: Forms::new('\u{FDF9}', '\0', '\0', '\0') },
        // ARABIC_LIGATURE_WASALLAM
        Ligature { patterns: vec![vec!['\u{0648}', '\u{0633}', '\u{0644}', '\u{0645}']], forms: Forms::new('\u{FDF8}', '\0', '\0', '\0') },
        // RIAL_SIGN
        Ligature { patterns: vec![vec!['\u{0631}', '[', '\u{06CC}', '\u{064A}', ']', '\u{0627}', '\u{0644}']], forms: Forms::new('\u{FDFC}', '\0', '\0', '\0') },
        // ARABIC_LIGATURE_AIN_WITH_ALEF_MAKSURA
        Ligature { patterns: vec![vec!['\u{0639}', '\u{0649}']], forms: Forms::new('\u{FCF7}', '\0', '\0', '\u{FD13}') },
        // ARABIC_LIGATURE_AIN_WITH_JEEM
        Ligature { patterns: vec![vec!['\u{0639}', '\u{062C}']], forms: Forms::new('\u{FC29}', '\u{FCBA}', '\0', '\0') },
        // ARABIC_LIGATURE_AIN_WITH_JEEM_WITH_MEEM
        Ligature { patterns: vec![vec!['\u{0639}', '\u{062C}', '\u{0645}']], forms: Forms::new('\0', '\u{FDC4}', '\0', '\u{FD75}') },
        // ARABIC_LIGATURE_AIN_WITH_MEEM
        Ligature { patterns: vec![vec!['\u{0639}', '\u{0645}']], forms: Forms::new('\u{FC2A}', '\u{FCBB}', '\0', '\0') },
        // ARABIC_LIGATURE_AIN_WITH_MEEM_WITH_ALEF_MAKSURA
        Ligature { patterns: vec![vec!['\u{0639}', '\u{0645}', '\u{0649}']], forms: Forms::new('\0', '\0', '\0', '\u{FD78}') },
        // ARABIC_LIGATURE_AIN_WITH_MEEM_WITH_MEEM
        Ligature { patterns: vec![vec!['\u{0639}', '\u{0645}', '\u{0645}']], forms: Forms::new('\0', '\u{FD77}', '\0', '\u{FD76}') },
        // ARABIC_LIGATURE_AIN_WITH_MEEM_WITH_YEH
        Ligature { patterns: vec![vec!['\u{0639}', '\u{0645}', '\u{064A}']], forms: Forms::new('\0', '\0', '\0', '\u{FDB6}') },
        // ARABIC_LIGATURE_AIN_WITH_YEH
        Ligature { patterns: vec![vec!['\u{0639}', '\u{064A}']], forms: Forms::new('\u{FCF8}', '\0', '\0', '\u{FD14}') },
        // ARABIC_LIGATURE_ALEF_MAKSURA_WITH_SUPERSCRIPT_ALEF
        Ligature { patterns: vec![vec!['\u{0649}', '\u{0670}']], forms: Forms::new('\u{FC5D}', '\0', '\0', '\u{FC90}') },
        // ARABIC_LIGATURE_ALEF_WITH_FATHATAN
        Ligature { patterns: vec![vec!['\u{0627}', '\u{064B}']], forms: Forms::new('\u{FD3D}', '\0', '\0', '\u{FD3C}') },
        // ARABIC_LIGATURE_BEH_WITH_ALEF_MAKSURA
        Ligature { patterns: vec![vec!['\u{0628}', '\u{0649}']], forms: Forms::new('\u{FC09}', '\0', '\0', '\u{FC6E}') },
        // ARABIC_LIGATURE_BEH_WITH_HAH
        Ligature { patterns: vec![vec!['\u{0628}', '\u{062D}']], forms: Forms::new('\u{FC06}', '\u{FC9D}', '\0', '\0') },
        // ARABIC_LIGATURE_BEH_WITH_HAH_WITH_YEH
        Ligature { patterns: vec![vec!['\u{0628}', '\u{062D}', '\u{064A}']], forms: Forms::new('\0', '\0', '\0', '\u{FDC2}') },
        // ARABIC_LIGATURE_BEH_WITH_HEH
        Ligature { patterns: vec![vec!['\u{0628}', '\u{0647}']], forms: Forms::new('\0', '\u{FCA0}', '\u{FCE2}', '\0') },
        // ARABIC_LIGATURE_BEH_WITH_JEEM
        Ligature { patterns: vec![vec!['\u{0628}', '\u{062C}']], forms: Forms::new('\u{FC05}', '\u{FC9C}', '\0', '\0') },
        // ARABIC_LIGATURE_BEH_WITH_KHAH
        Ligature { patterns: vec![vec!['\u{0628}', '\u{062E}']], forms: Forms::new('\u{FC07}', '\u{FC9E}', '\0', '\0') },
        // ARABIC_LIGATURE_BEH_WITH_KHAH_WITH_YEH
        Ligature { patterns: vec![vec!['\u{0628}', '\u{062E}', '\u{064A}']], forms: Forms::new('\0', '\0', '\0', '\u{FD9E}') },
        // ARABIC_LIGATURE_BEH_WITH_MEEM
        Ligature { patterns: vec![vec!['\u{0628}', '\u{0645}']], forms: Forms::new('\u{FC08}', '\u{FC9F}', '\u{FCE1}', '\u{FC6C}') },
    ];
    assert(table_view(v@) =~~= ligatures_part_0());
    let ghost before = old(t)@;
    t.append(&mut v);
    assert(table_view(t@) =~= table_view(before) + ligatures_part_0());
}

fn push_ligatures_part_1(t: &mut Vec<Ligature>)
    ensures
        table_view(final(t)@) == table_view(old(t)@) + ligatures_part_1(),
{
    reveal(ligatures_part_1);
    let mut v: Vec<Ligature> = vec![
        // ARABIC_LIGATURE_BEH_WITH_NOON
        Ligature { patterns: vec![vec!['\u{0628}', '\u{0646}']], forms: Forms::new('\0', '\0', '\0', '\u{FC6D}') },
        // ARABIC_LIGATURE_BEH_WITH_REH
        Ligature { patterns: vec![vec!['\u{0628}', '\u{0631}']], forms: Forms::new('\0', '\0', '\0', '\u{FC6A}') },
        // ARABIC_LIGATURE_BEH_WITH_YEH
        Ligature { patterns: vec![vec!['\u{0628}', '\u{064A}']], forms: Forms::new('\u{FC0A}', '\0', '\0', '\u{FC6F}') },
        // ARABIC_LIGATURE_BEH_WITH_ZAIN
        Ligature { patterns: vec![vec!['\u{0628}', '\u{0632}']], forms: Forms::new('\0', '\0', '\0', '\u{FC6B}') },
        // ARABIC_LIGATURE_DAD_WITH_ALEF_MAKSURA
        Ligature { patterns: vec![vec!['\u{0636}', '\u{0649}']], forms: Forms::new('\u{FD07}', '\0', '\0', '\u{FD23}') },
        // ARABIC_LIGATURE_DAD_WITH_HAH
        Ligature { patterns: vec![vec!['\u{0636}', '\u{062D}']], forms: Forms::new('\u{FC23}', '\u{FCB5}', '\0', '\0') },
        // ARABIC_LIGATURE_DAD_WITH_HAH_WITH_ALEF_MAKSURA
        Ligature { patterns: vec![vec!['\u{0636}', '\u{062D}', '\u{0649}']], forms: Forms::new('\0', '\0', '\0', '\u{FD6E}') },
        // ARABIC_LIGATURE_DAD_WITH_HAH_WITH_YEH
        Ligature { patterns: vec![vec!['\u{0636}', '\u{062D}', '\u{064A}']], forms: Forms::new('\0', '\0', '\0', '\u{FDAB}') },
        // ARABIC_LIGATURE_DAD_WITH_JEEM
        Ligature { patterns: vec![vec!['\u{0636}', '\u{062C}']], forms: Forms::new('\u{FC22}', '\u{FCB4}', '\0', '\0') },
        // ARABIC_LIGATURE_DAD_WITH_KHAH
        Ligature { patterns: vec![vec!['\u{0636}', '\u{062E}']], forms: Forms::new('\u{FC24}', '\u{FCB6}', '\0', '\0') },
        // ARABIC_LIGATURE_DAD_WITH_KHAH_WITH_MEEM
        Ligature { patterns: vec![vec!['\u{0636}', '\u{062E}', '\u{0645}']], forms: Forms::new('\0', '\u{FD70}', '\0', '\u{FD6F}') },
        // ARABIC_LIGATURE_DAD_WITH_MEEM
        Ligature { patterns: vec![vec!['\u{0636}', '\u{0645}']], forms: Forms::new('\u{FC25}', '\u{FCB7}', '\0', '\0') },
        // ARABIC_LIGATURE_DAD_WITH_REH
        Ligature { patterns: vec![vec!['\u{0636}', '\u{0631}']], forms: Forms::new('\u{FD10}', '\0', '\0', '\u{FD2C}') },
        // ARABIC_LIGATURE_DAD_WITH_YEH
        Ligature { patterns: vec![vec!['\u{0636}', '\u{064A}']], forms: Forms::new('\u{FD08}', '\0', '\0', '\u{FD24}') },
        // ARABIC_LIGATURE_FEH_WITH_ALEF_MAKSURA
        Ligature { patterns: vec![vec!['\u{0641}', '\u{0649}']], forms: Forms::new('\u{FC31}', '\0', '\0', '\u{FC7C}') },
        // ARABIC_LIGATURE_FEH_WITH_HAH
        Ligature { patterns: vec![vec!['\u{0641}', '\u{062D}']], forms: Forms::new('\u{FC2E}', '\u{FCBF}', '\0', '\0') },
        // ARABIC_LIGATURE_FEH_WITH_JEEM
        Ligature { patterns: vec![vec!['\u{0641}', '\u{062C}']], forms: Forms::new('\u{FC2D}', '\u{FCBE}', '\0', '\0') },
        // ARABIC_LIGATURE_FEH_WITH_KHAH
        Ligature { patterns: vec![vec!['\u{0641}', '\u{062E}']], forms: Forms::new('\u{FC2F}', '\u{FCC0}', '\0', '\0') },
        // ARABIC_LIGATURE_FEH_WITH_KHAH_WITH_MEEM
        Ligature { patterns: vec![vec!['\u{0641}', '\u{062E}', '\u{0645}']], forms: Forms::new('\0', '\u{FD7D}', '\0', '\u{FD7C}') },
        // ARABIC_LIGATURE_FEH_WITH_MEEM
        Ligature { patterns: vec![vec!['\u{0641}', '\u{0645}']], forms: Forms::new('\u{FC30}', '\u{FCC1}', '\0', '\0') },
        // ARABIC_LIGATURE_FEH_WITH_MEEM_WITH_YEH
        Ligature { patterns: vec![vec!['\u{0641}', '\u{0645}', '\u{064A}']], forms: Forms::new('\0', '\0', '\0', '\u{FDC1}') },
        // ARABIC_LIGATURE_FEH_WITH_YEH
        Ligature { patterns: vec![vec!['\u{0641}', '\u{064A}']], forms: Forms::new('\u{FC32}', '\0', '\0', '\u{FC7D}') },
        // ARABIC_LIGATURE_GHAIN_WITH_ALEF_MAKSURA
        Ligature { patterns: vec![vec!['\u{063A}', '\u{0649}']], forms: Forms::new('\u{FCF9}', '\0', '\0', '\u{FD15}') },
        // ARABIC_LIGATURE_GHAIN_WITH_JEEM
        Ligature { patterns: vec![vec!['\u{063A}', '\u{062C}']], forms: Forms::new('\u{FC2B}', '\u{FCBC}', '\0', '\0') },
        // ARABIC_LIGATURE_GHAIN_WITH_MEEM
        Ligature { patterns: vec![vec!['\u{063A}', '\u{0645}']], forms: Forms::new('\u{FC2C}', '\u{FCBD}', '\0', '\0') },
        // ARABIC_LIGATURE_GHAIN_WITH_MEEM_WITH_ALEF_MAKSURA
        Ligature { patterns: vec![vec!['\u{063A}', '\u{0645}', '\u{0649}']], forms: Forms::new('\0', '\0', '\0', '\u{FD7B}') },
        // ARABIC_LIGATURE_GHAIN_WITH_MEEM_WITH_MEEM
        Ligature { patterns: vec![vec!['\u{063A}', '\u{0645}', '\u{0645}']], forms: Forms::new('\0', '\0', '\0', '\u{FD79}') },
        // ARABIC_LIGATURE_GHAIN_WITH_MEEM_WITH_YEH
        Ligature { patterns: vec![vec!['\u{063A}', '\u{0645}', '\u{064A}']], forms: Forms::new('\0', '\0', '\0', '\u{FD7A}') },
        // ARABIC_LIGATURE_GHAIN_WITH_YEH
        Ligature { patterns: vec![vec!['\u{063A}', '\u{064A}']], forms: Forms::new('\u{FCFA}', '\0', '\0', '\u{FD16}') },
        // ARABIC_LIGATURE_HAH_WITH_ALEF_MAKSURA
        Ligature { patterns: vec![vec!['\u{062D}', '\u{0649}']], forms: Forms::new('\u{FCFF}', '\0', '\0', '\u{FD1B}') },
    ];
    assert(table_view(v@) =~~= ligatures_part_1());
    let ghost before = old(t)@;
    t.append(&mut v);
    assert(table_view(t@) =~= table_view(before) + ligatures_part_1());
}

fn push_ligatures_part_2(t: &mut Vec<Ligature>)
    ensures
        table_view(final(t)@) == table_view(old(t)@) + ligatures_part_2(),
{
    reveal(ligatures_part_2);
    let mut v: Vec<Ligature> = vec![
        // ARABIC_LIGATURE_HAH_WITH_JEEM
        Ligature { patterns: vec![vec!['\u{062D}', '\u{062C}']], forms: Forms::new('\u{FC17}', '\u{FCA9}', '\0', '\0') },
        // ARABIC_LIGATURE_HAH_WITH_JEEM_WITH_YEH
        Ligature { patterns: vec![vec!['\u{062D}', '\u{062C}', '\u{064A}']], forms: Forms::new('\0', '\0', '\0', '\u{FDBF}') },
        // ARABIC_LIGATURE_HAH_WITH_MEEM
        Ligature { patterns: vec![vec!['\u{062D}', '\u{0645}']], forms: Forms::new('\u{FC18}', '\u{FCAA}', '\0', '\0') },
        // ARABIC_LIGATURE_HAH_WITH_MEEM_WITH_ALEF_MAKSURA
        Ligature { patterns: vec![vec!['\u{062D}', '\u{0645}', '\u{0649}']], forms: Forms::new('\0', '\0', '\0', '\u{FD5B}') },
        // ARABIC_LIGATURE_HAH_WITH_MEEM_WITH_YEH
        Ligature { patterns: vec![vec!['\u{062D}', '\u{0645}', '\u{064A}']], forms: Forms::new('\0', '\0', '\0', '\u{FD5A}') },
        // ARABIC_LIGATURE_HAH_WITH_YEH
        Ligature { patterns: vec![vec!['\u{062D}', '\u{064A}']], forms: Forms::new('\u{FD00}', '\0', '\0', '\u{FD1C}') },
        // ARABIC_LIGATURE_HEH_WITH_ALEF_MAKSURA
        Ligature { patterns: vec![vec!['\u{0647}', '\u{0649}']], forms: Forms::new('\u{FC53}', '\0', '\0', '\0') },
        // ARABIC_LIGATURE_HEH_WITH_JEEM
        Ligature { patterns: vec![vec!['\u{0647}', '\u{062C}']], forms: Forms::new('\u{FC51}', '\u{FCD7}', '\0', '\0') },
        // ARABIC_LIGATURE_HEH_WITH_MEEM
        Ligature { patterns: vec![vec!['\u{0647}', '\u{0645}']], forms: Forms::new('\u{FC52}', '\u{FCD8}', '\0', '\0') },
        // ARABIC_LIGATURE_HEH_WITH_MEEM_WITH_JEEM
        Ligature { patterns: vec![vec!['\u{0647}', '\u{0645}', '\u{062C}']], forms: Forms::new('\0', '\u{FD93}', '\0', '\0') },
        // ARABIC_LIGATURE_HEH_WITH_MEEM_WITH_MEEM
        Ligature { patterns: vec![vec!['\u{0647}', '\u{0645}', '\u{0645}']], forms: Forms::new('\0', '\u{FD94}', '\0', '\0') },
        // ARABIC_LIGATURE_HEH_WITH_SUPERSCRIPT_ALEF
        Ligature { patterns: vec![vec!['\u{0647}', '\u{0670}']], forms: Forms::new('\0', '\u{FCD9}', '\0', '\0') },
        // ARABIC_LIGATURE_HEH_WITH_YEH
        Ligature { patterns: vec![vec!['\u{0647}', '\u{064A}']], forms: Forms::new('\u{FC54}', '\0', '\0', '\0') },
        // ARABIC_LIGATURE_JEEM_WITH_ALEF_MAKSURA
        Ligature { patterns: vec![vec!['\u{062C}', '\u{0649}']], forms: Forms::new('\u{FD01}', '\0', '\0', '\u{FD1D}') },
        // ARABIC_LIGATURE_JEEM_WITH_HAH
        Ligature { patterns: vec![vec!['\u{062C}', '\u{062D}']], forms: Forms::new('\u{FC15}', '\u{FCA7}', '\0', '\0') },
        // ARABIC_LIGATURE_JEEM_WITH_HAH_WITH_ALEF_MAKSURA
        Ligature { patterns: vec![vec!['\u{062C}', '\u{062D}', '\u{0649}']], forms: Forms::new('\0', '\0', '\0', '\u{FDA6}') },
        // ARABIC_LIGATURE_JEEM_WITH_HAH_WITH_YEH
        Ligature { patterns: vec![vec!['\u{062C}', '\u{062D}', '\u{064A}']], forms: Forms::new('\0', '\0', '\0', '\u{FDBE}') },
        // ARABIC_LIGATURE_JEEM_WITH_MEEM
        Ligature { patterns: vec![vec!['\u{062C}', '\u{0645}']], forms: Forms::new('\u{FC16}', '\u{FCA8}', '\0', '\0') },
        // ARABIC_LIGATURE_JEEM_WITH_MEEM_WITH_ALEF_MAKSURA
        Ligature { patterns: vec![vec!['\u{062C}', '\u{0645}', '\u{0649}']], forms: Forms::new('\0', '\0', '\0', '\u{FDA7}') },
        // ARABIC_LIGATURE_JEEM_WITH_MEEM_WITH_HAH
        Ligature { patterns: vec![vec!['\u{062C}', '\u{0645}', '\u{062D}']], forms: Forms::new('\0', '\u{FD59}', '\0', '\u{FD58}') },
        // ARABIC_LIGATURE_JEEM_WITH_MEEM_WITH_YEH
        Ligature { patterns: vec![vec!['\u{062C}', '\u{0645}', '\u{064A}']], forms: Forms::new('\0', '\0', '\0', '\u{FDA5}') },
        // ARABIC_LIGATURE_JEEM_WITH_YEH
        Ligature { patterns: vec![vec!['\u{062C}', '\u{064A}']], forms: Forms::new('\u{FD02}', '\0', '\0', '\u{FD1E}') },
        // ARABIC_LIGATURE_KAF_WITH_ALEF
        Ligature { patterns: vec![vec!['\u{0643}', '\u{0627}']], forms: Forms::new('\u{FC37}', '\0', '\0', '\u{FC80}') },
        // ARABIC_LIGATURE_KAF_WITH_ALEF_MAKSURA
        Ligature { patterns: vec![vec!['\u{0643}', '\u{0649}']], forms: Forms::new('\u{FC3D}', '\0', '\0', '\u{FC83}') },
        // ARABIC_LIGATURE_KAF_WITH_HAH
        Ligature { patterns: vec![vec!['\u{0643}', '\u{062D}']], forms: Forms::new('\u{FC39}', '\u{FCC5}', '\0', '\0') },
        // ARABIC_LIGATURE_KAF_WITH_JEEM
        Ligature { patterns: vec![vec!['\u{0643}', '\u{062C}']], forms: Forms::new('\u{FC38}', '\u{FCC4}', '\0', '\0') },
        // ARABIC_LIGATURE_KAF_WITH_KHAH
        Ligature { patterns: vec![vec!['\u{0643}', '\u{062E}']], forms: Forms::new('\u{FC3A}', '\u{FCC6}', '\0', '\0') },
        // ARABIC_LIGATURE_KAF_WITH_LAM
        Ligature { patterns: vec![vec!['\u{0643}', '\u{0644}']], forms: Forms::new('\u{FC3B}', '\u{FCC7}', '\u{FCEB}', '\u{FC81}') },
        // ARABIC_LIGATURE_KAF_WITH_MEEM
        Ligature { patterns: vec![vec!['\u{0643}', '\u{0645}']], forms: Forms::new('\u{FC3C}', '\u{FCC8}', '\u{FCEC}', '\u{FC82}') },
        // ARABIC_LIGATURE_KAF_WITH_MEEM_WITH_MEEM
        Ligature { patterns: vec![vec!['\u{0643}', '\u{0645}', '\u{0645}']], forms: Forms::new('\0', '\u{FDC3}', '\0', '\u{FDBB}') },
    ];
    assert(table_view(v@) =~~= ligatures_part_2());
    let ghost before = old(t)@;
    t.append(&mut v);
    assert(table_view(t@) =~= table_view(before) + ligatures_part_2());
}

fn push_ligatures_part_3(t: &mut Vec<Ligature>)
    ensures
        table_view(final(t)@) == table_view(old(t)@) + ligatures_part_3(),
{
    reveal(ligatures_part_3);
    let mut v: Vec<Ligature> = vec![
        // ARABIC_LIGATURE_KAF_WITH_MEEM_WITH_YEH
        Ligature { patterns: vec![vec!['\u{0643}', '\u{0645}', '\u{064A}']], forms: Forms::new('\0', '\0', '\0', '\u{FDB7}') },
        // ARABIC_LIGATURE_KAF_WITH_YEH
        Ligature { patterns: vec![vec!['\u{0643}', '\u{064A}']], forms: Forms::new('\u{FC3E}', '\0', '\0', '\u{FC84}') },
        // ARABIC_LIGATURE_KHAH_WITH_ALEF_MAKSURA
        Ligature { patterns: vec![vec!['\u{062E}', '\u{0649}']], forms: Forms::new('\u{FD03}', '\0', '\0', '\u{FD1F}') },
        // ARABIC_LIGATURE_KHAH_WITH_HAH
        Ligature { patterns: vec![vec!['\u{062E}', '\u{062D}']], forms: Forms::new('\u{FC1A}', '\0', '\0', '\0') },
        // ARABIC_LIGATURE_KHAH_WITH_JEEM
        Ligature { patterns: vec![vec!['\u{062E}', '\u{062C}']], forms: Forms::new('\u{FC19}', '\u{FCAB}', '\0', '\0') },
        // ARABIC_LIGATURE_KHAH_WITH_MEEM
        Ligature { patterns: vec![vec!['\u{062E}', '\u{0645}']], forms: Forms::new('\u{FC1B}', '\u{FCAC}', '\0', '\0') },
        // ARABIC_LIGATURE_KHAH_WITH_YEH
        Ligature { patterns: vec![vec!['\u{062E}', '\u{064A}']], forms: Forms::new('\u{FD04}', '\0', '\0', '\u{FD20}') },
        // ARABIC_LIGATURE_LAM_WITH_ALEF
        Ligature { patterns: vec![vec!['\u{0644}', '\u{0627}']], forms: Forms::new('\u{FEFB}', '\0', '\0', '\u{FEFC}') },
        // ARABIC_LIGATURE_LAM_WITH_ALEF_MAKSURA
        Ligature { patterns: vec![vec!['\u{0644}', '\u{0649}']], forms: Forms::new('\u{FC43}', '\0', '\0', '\u{FC86}') },
        // ARABIC_LIGATURE_LAM_WITH_ALEF_WITH_HAMZA_ABOVE
        Ligature { patterns: vec![vec!['\u{0644}', '\u{0623}']], forms: Forms::new('\u{FEF7}', '\0', '\0', '\u{FEF8}') },
        // ARABIC_LIGATURE_LAM_WITH_ALEF_WITH_HAMZA_BELOW
        Ligature { patterns: vec![vec!['\u{0644}', '\u{0625}']], forms: Forms::new('\u{FEF9}', '\0', '\0', '\u{FEFA}') },
        // ARABIC_LIGATURE_LAM_WITH_ALEF_WITH_MADDA_ABOVE
        Ligature { patterns: vec![vec!['\u{0644}', '\u{0622}']], forms: Forms::new('\u{FEF5}', '\0', '\0', '\u{FEF6}') },
        // ARABIC_LIGATURE_LAM_WITH_HAH
        Ligature { patterns: vec![vec!['\u{0644}', '\u{062D}']], forms: Forms::new('\u{FC40}', '\u{FCCA}', '\0', '\0') },
        // ARABIC_LIGATURE_LAM_WITH_HAH_WITH_ALEF_MAKSURA
        Ligature { patterns: vec![vec!['\u{0644}', '\u{062D}', '\u{0649}']], forms: Forms::new('\0', '\0', '\0', '\u{FD82}') },
        // ARABIC_LIGATURE_LAM_WITH_HAH_WITH_MEEM
        Ligature { patterns: vec![vec!['\u{0644}', '\u{062D}', '\u{0645}']], forms: Forms::new('\0', '\u{FDB5}', '\0', '\u{FD80}') },
        // ARABIC_LIGATURE_LAM_WITH_HAH_WITH_YEH
        Ligature { patterns: vec![vec!['\u{0644}', '\u{062D}', '\u{064A}']], forms: Forms::new('\0', '\0', '\0', '\u{FD81}') },
        // ARABIC_LIGATURE_LAM_WITH_HEH
        Ligature { patterns: vec![vec!['\u{0644}', '\u{0647}']], forms: Forms::new('\0', '\u{FCCD}', '\0', '\0') },
        // ARABIC_LIGATURE_LAM_WITH_JEEM
        Ligature { patterns: vec![vec!['\u{0644}', '\u{062C}']], forms: Forms::new('\u{FC3F}', '\u{FCC9}', '\0', '\0') },
        // ARABIC_LIGATURE_LAM_WITH_JEEM_WITH_JEEM
        Ligature { patterns: vec![vec!['\u{0644}', '\u{062C}', '\u{062C}']], forms: Forms::new('\0', '\u{FD83}', '\0', '\u{FD84}') },
        // ARABIC_LIGATURE_LAM_WITH_JEEM_WITH_MEEM
        Ligature { patterns: vec![vec!['\u{0644}', '\u{062C}', '\u{0645}']], forms: Forms::new('\0', '\u{FDBA}', '\0', '\u{FDBC}') },
        // ARABIC_LIGATURE_LAM_WITH_JEEM_WITH_YEH
        Ligature { patterns: vec![vec!['\u{0644}', '\u{062C}', '\u{064A}']], forms: Forms::new('\0', '\0', '\0', '\u{FDAC}') },
        // ARABIC_LIGATURE_LAM_WITH_KHAH
        Ligature { patterns: vec![vec!['\u{0644}', '\u{062E}']], forms: Forms::new('\u{FC41}', '\u{FCCB}', '\0', '\0') },
        // ARABIC_LIGATURE_LAM_WITH_KHAH_WITH_MEEM
        Ligature { patterns: vec![vec!['\u{0644}', '\u{062E}', '\u{0645}']], forms: Forms::new('\0', '\u{FD86}', '\0', '\u{FD85}') },
        // ARABIC_LIGATURE_LAM_WITH_MEEM
        Ligature { patterns: vec![vec!['\u{0644}', '\u{0645}']], forms: Forms::new('\u{FC42}', '\u{FCCC}', '\u{FCED}', '\u{FC85}') },
        // ARABIC_LIGATURE_LAM_WITH_MEEM_WITH_HAH
        Ligature { patterns: vec![vec!['\u{0644}', '\u{0645}', '\u{062D}']], forms: Forms::new('\0', '\u{FD88}', '\0', '\u{FD87}') },
        // ARABIC_LIGATURE_LAM_WITH_MEEM_WITH_YEH
        Ligature { patterns: vec![vec!['\u{0644}', '\u{0645}', '\u{064A}']], forms: Forms::new('\0', '\0', '\0', '\u{FDAD}') },
        // ARABIC_LIGATURE_LAM_WITH_YEH
        Ligature { patterns: vec![vec!['\u{0644}', '\u{064A}']], forms: Forms::new('\u{FC44}', '\0', '\0', '\u{FC87}') },
        // ARABIC_LIGATURE_MEEM_WITH_ALEF
        Ligature { patterns: vec![vec!['\u{0645}', '\u{0627}']], forms: Forms::new('\0', '\0', '\0', '\u{FC88}') },
        // ARABIC_LIGATURE_MEEM_WITH_ALEF_MAKSURA
        Ligature { patterns: vec![vec!['\u{0645}', '\u{0649}']], forms: Forms::new('\u{FC49}', '\0', '\0', '\0') },
        // ARABIC_LIGATURE_MEEM_WITH_HAH
        Ligature { patterns: vec![vec!['\u{0645}', '\u{062D}']], forms: Forms::new('\u{FC46}', '\u{FCCF}', '\0', '\0') },
    ];
    assert(table_view(v@) =~~= ligatures_part_3());
    let ghost before = old(t)@;
    t.append(&mut v);
    assert(table_view(t@) =~= table_view(before) + ligatures_part_3());
}

fn push_ligatures_part_4(t: &mut Vec<Ligature>)
    ensures
        table_view(final(t)@) == table_view(old(t)@) + ligatures_part_4(),
{
    reveal(ligatures_part_4);
    let mut v: Vec<Ligature> = vec![
        // ARABIC_LIGATURE_MEEM_WITH_HAH_WITH_JEEM
        Ligature { patterns: vec![vec!['\u{0645}', '\u{062D}', '\u{062C}']], forms: Forms::new('\0', '\u{FD89}', '\0', '\0') },
        // ARABIC_LIGATURE_MEEM_WITH_HAH_WITH_MEEM
        Ligature { patterns: vec![vec!['\u{0645}', '\u{062D}', '\u{0645}']], forms: Forms::new('\0', '\u{FD8A}', '\0', '\0') },
        // ARABIC_LIGATURE_MEEM_WITH_HAH_WITH_YEH
        Ligature { patterns: vec![vec!['\u{0645}', '\u{062D}', '\u{064A}']], forms: Forms::new('\0', '\0', '\0', '\u{FD8B}') },
        // ARABIC_LIGATURE_MEEM_WITH_JEEM
        Ligature { patterns: vec![vec!['\u{0645}', '\u{062C}']], forms: Forms::new('\u{FC45}', '\u{FCCE}', '\0', '\0') },
        // ARABIC_LIGATURE_MEEM_WITH_JEEM_WITH_HAH
        Ligature { patterns: vec![vec!['\u{0645}', '\u{062C}', '\u{062D}']], forms: Forms::new('\0', '\u{FD8C}', '\0', '\0') },
        // ARABIC_LIGATURE_MEEM_WITH_JEEM_WITH_KHAH
        Ligature { patterns: vec![vec!['\u{0645}', '\u{062C}', '\u{062E}']], forms: Forms::new('\0', '\u{FD92}', '\0', '\0') },
        // ARABIC_LIGATURE_MEEM_WITH_JEEM_WITH_MEEM
        Ligature { patterns: vec![vec!['\u{0645}', '\u{062C}', '\u{0645}']], forms: Forms::new('\0', '\u{FD8D}', '\0', '\0') },
        // ARABIC_LIGATURE_MEEM_WITH_JEEM_WITH_YEH
        Ligature { patterns: vec![vec!['\u{0645}', '\u{062C}', '\u{064A}']], forms: Forms::new('\0', '\0', '\0', '\u{FDC0}') },
        // ARABIC_LIGATURE_MEEM_WITH_KHAH
        Ligature { patterns: vec![vec!['\u{0645}', '\u{062E}']], forms: Forms::new('\u{FC47}', '\u{FCD0}', '\0', '\0') },
        // ARABIC_LIGATURE_MEEM_WITH_KHAH_WITH_JEEM
        Ligature { patterns: vec![vec!['\u{0645}', '\u{062E}', '\u{062C}']], forms: Forms::new('\0', '\u{FD8E}', '\0', '\0') },
        // ARABIC_LIGATURE_MEEM_WITH_KHAH_WITH_MEEM
        Ligature { patterns: vec![vec!['\u{0645}', '\u{062E}', '\u{0645}']], forms: Forms::new('\0', '\u{FD8F}', '\0', '\0') },
        // ARABIC_LIGATURE_MEEM_WITH_KHAH_WITH_YEH
        Ligature { patterns: vec![vec!['\u{0645}', '\u{062E}', '\u{064A}']], forms: Forms::new('\0', '\0', '\0', '\u{FDB9}') },
        // ARABIC_LIGATURE_MEEM_WITH_MEEM
        Ligature { patterns: vec![vec!['\u{0645}', '\u{0645}']], forms: Forms::new('\u{FC48}', '\u{FCD1}', '\0', '\u{FC89}') },
        // ARABIC_LIGATURE_MEEM_WITH_MEEM_WITH_YEH
        Ligature { patterns: vec![vec!['\u{0645}', '\u{0645}', '\u{064A}']], forms: Forms::new('\0', '\0', '\0', '\u{FDB1}') },
        // ARABIC_LIGATURE_MEEM_WITH_YEH
        Ligature { patterns: vec![vec!['\u{0645}', '\u{064A}']], forms: Forms::new('\u{FC4A}', '\0', '\0', '\0') },
        // ARABIC_LIGATURE_NOON_WITH_ALEF_MAKSURA
        Ligature { patterns: vec![vec!['\u{0646}', '\u{0649}']], forms: Forms::new('\u{FC4F}', '\0', '\0', '\u{FC8E}') },
        // ARABIC_LIGATURE_NOON_WITH_HAH
        Ligature { patterns: vec![vec!['\u{0646}', '\u{062D}']], forms: Forms::new('\u{FC4C}', '\u{FCD3}', '\0', '\0') },
        // ARABIC_LIGATURE_NOON_WITH_HAH_WITH_ALEF_MAKSURA
        Ligature { patterns: vec![vec!['\u{0646}', '\u{062D}', '\u{0649}']], forms: Forms::new('\0', '\0', '\0', '\u{FD96}') },
        // ARABIC_LIGATURE_NOON_WITH_HAH_WITH_MEEM
        Ligature { patterns: vec![vec!['\u{0646}', '\u{062D}', '\u{0645}']], forms: Forms::new('\0', '\u{FD95}', '\0', '\0') },
        // ARABIC_LIGATURE_NOON_WITH_HAH_WITH_YEH
        Ligature { patterns: vec![vec!['\u{0646}', '\u{062D}', '\u{064A}']], forms: Forms::new('\0', '\0', '\0', '\u{FDB3}') },
        // ARABIC_LIGATURE_NOON_WITH_HEH
        Ligature { patterns: vec![vec!['\u{0646}', '\u{0647}']], forms: Forms::new('\0', '\u{FCD6}', '\u{FCEF}', '\0') },
        // ARABIC_LIGATURE_NOON_WITH_JEEM
        Ligature { patterns: vec![vec!['\u{0646}', '\u{062C}']], forms: Forms::new('\u{FC4B}', '\u{FCD2}', '\0', '\0') },
        // ARABIC_LIGATURE_NOON_WITH_JEEM_WITH_ALEF_MAKSURA
        Ligature { patterns: vec![vec!['\u{0646}', '\u{062C}', '\u{0649}']], forms: Forms::new('\0', '\0', '\0', '\u{FD99}') },
        // ARABIC_LIGATURE_NOON_WITH_JEEM_WITH_HAH
        Ligature { patterns: vec![vec!['\u{0646}', '\u{062C}', '\u{062D}']], forms: Forms::new('\0', '\u{FDB8}', '\0', '\u{FDBD}') },
        // ARABIC_LIGATURE_NOON_WITH_JEEM_WITH_MEEM
        Ligature { patterns: vec![vec!['\u{0646}', '\u{062C}', '\u{0645}']], forms: Forms::new('\0', '\u{FD98}', '\0', '\u{FD97}') },
        // ARABIC_LIGATURE_NOON_WITH_JEEM_WITH_YEH
        Ligature { patterns: vec![vec!['\u{0646}', '\u{062C}', '\u{064A}']], forms: Forms::new('\0', '\0', '\0', '\u{FDC7}') },
        // ARABIC_LIGATURE_NOON_WITH_KHAH
        Ligature { patterns: vec![vec!['\u{0646}', '\u{062E}']], forms: Forms::new('\u{FC4D}', '\u{FCD4}', '\0', '\0') },
        // ARABIC_LIGATURE_NOON_WITH_MEEM
        Ligature { patterns: vec![vec!['\u{0646}', '\u{0645}']], forms: Forms::new('\u{FC4E}', '\u{FCD5}', '\u{FCEE}', '\u{FC8C}') },
        // ARABIC_LIGATURE_NOON_WITH_MEEM_WITH_ALEF_MAKSURA
        Ligature { patterns: vec![vec!['\u{0646}', '\u{0645}', '\u{0649}']], forms: Forms::new('\0', '\0', '\0', '\u{FD9B}') },
        // ARABIC_LIGATURE_NOON_WITH_MEEM_WITH_YEH
        Ligature { patterns: vec![vec!['\u{0646}', '\u{0645}', '\u{064A}']], forms: Forms::new('\0', '\0', '\0', '\u{FD9A}') },
    ];
    assert(table_view(v@) =~~= ligatures_part_4());
    let ghost before = old(t)@;
    t.append(&mut v);
    assert(table_view(t@) =~= table_view(before) + ligatures_part_4());
}

fn push_ligatures_part_5(t: &mut Vec<Ligature>)
    ensures
        table_view(final(t)@) == table_view(old(t)@) + ligatures_part_5(),
{
    reveal(ligatures_part_5);
    let mut v: Vec<Ligature> = vec![
        // ARABIC_LIGATURE_NOON_WITH_NOON
        Ligature { patterns: vec![vec!['\u{0646}', '\u{0646}']], forms: Forms::new('\0', '\0', '\0', '\u{FC8D}') },
        // ARABIC_LIGATURE_NOON_WITH_REH
        Ligature { patterns: vec![vec!['\u{0646}', '\u{0631}']], forms: Forms::new('\0', '\0', '\0', '\u{FC8A}') },
        // ARABIC_LIGATURE_NOON_WITH_YEH
        Ligature { patterns: vec![vec!['\u{0646}', '\u{064A}']], forms: Forms::new('\u{FC50}', '\0', '\0', '\u{FC8F}') },
        // ARABIC_LIGATURE_NOON_WITH_ZAIN
        Ligature { patterns: vec![vec!['\u{0646}', '\u{0632}']], forms: Forms::new('\0', '\0', '\0', '\u{FC8B}') },
        // ARABIC_LIGATURE_QAF_WITH_ALEF_MAKSURA
        Ligature { patterns: vec![vec!['\u{0642}', '\u{0649}']], forms: Forms::new('\u{FC35}', '\0', '\0', '\u{FC7E}') },
        // ARABIC_LIGATURE_QAF_WITH_HAH
        Ligature { patterns: vec![vec!['\u{0642}', '\u{062D}']], forms: Forms::new('\u{FC33}', '\u{FCC2}', '\0', '\0') },
        // ARABIC_LIGATURE_QAF_WITH_MEEM
        Ligature { patterns: vec![vec!['\u{0642}', '\u{0645}']], forms: Forms::new('\u{FC34}', '\u{FCC3}', '\0', '\0') },
        // ARABIC_LIGATURE_QAF_WITH_MEEM_WITH_HAH
        Ligature { patterns: vec![vec!['\u{0642}', '\u{0645}', '\u{062D}']], forms: Forms::new('\0', '\u{FDB4}', '\0', '\u{FD7E}') },
        // ARABIC_LIGATURE_QAF_WITH_MEEM_WITH_MEEM
        Ligature { patterns: vec![vec!['\u{0642}', '\u{0645}', '\u{0645}']], forms: Forms::new('\0', '\0', '\0', '\u{FD7F}') },
        // ARABIC_LIGATURE_QAF_WITH_MEEM_WITH_YEH
        Ligature { patterns: vec![vec!['\u{0642}', '\u{0645}', '\u{064A}']], forms: Forms::new('\0', '\0', '\0', '\u{FDB2}') },
        // ARABIC_LIGATURE_QAF_WITH_YEH
        Ligature { patterns: vec![vec!['\u{0642}', '\u{064A}']], forms: Forms::new('\u{FC36}', '\0', '\0', '\u{FC7F}') },
        // ARABIC_LIGATURE_QALA_USED_AS_KORANIC_STOP_SIGN
        Ligature { patterns: vec![vec!['\u{0642}', '\u{0644}', '\u{06D2}']], forms: Forms::new('\u{FDF1}', '\0', '\0', '\0') },
        // ARABIC_LIGATURE_REH_WITH_SUPERSCRIPT_ALEF
        Ligature { patterns: vec![vec!['\u{0631}', '\u{0670}']], forms: Forms::new('\u{FC5C}', '\0', '\0', '\0') },
        // ARABIC_LIGATURE_SAD_WITH_ALEF_MAKSURA
        Ligature { patterns: vec![vec!['\u{0635}', '\u{0649}']], forms: Forms::new('\u{FD05}', '\0', '\0', '\u{FD21}') },
        // ARABIC_LIGATURE_SAD_WITH_HAH
        Ligature { patterns: vec![vec!['\u{0635}', '\u{062D}']], forms: Forms::new('\u{FC20}', '\u{FCB1}', '\0', '\0') },
        // ARABIC_LIGATURE_SAD_WITH_HAH_WITH_HAH
        Ligature { patterns: vec![vec!['\u{0635}', '\u{062D}', '\u{062D}']], forms: Forms::new('\0', '\u{FD65}', '\0', '\u{FD64}') },
        // ARABIC_LIGATURE_SAD_WITH_HAH_WITH_YEH
        Ligature { patterns: vec![vec!['\u{0635}', '\u{062D}', '\u{064A}']], forms: Forms::new('\0', '\0', '\0', '\u{FDA9}') },
        // ARABIC_LIGATURE_SAD_WITH_KHAH
        Ligature { patterns: vec![vec!['\u{0635}', '\u{062E}']], forms: Forms::new('\0', '\u{FCB2}', '\0', '\0') },
        // ARABIC_LIGATURE_SAD_WITH_MEEM
        Ligature { patterns: vec![vec!['\u{0635}', '\u{0645}']], forms: Forms::new('\u{FC21}', '\u{FCB3}', '\0', '\0') },
        // ARABIC_LIGATURE_SAD_WITH_MEEM_WITH_MEEM
        Ligature { patterns: vec![vec!['\u{0635}', '\u{0645}', '\u{0645}']], forms: Forms::new('\0', '\u{FDC5}', '\0', '\u{FD66}') },
        // ARABIC_LIGATURE_SAD_WITH_REH
        Ligature { patterns: vec![vec!['\u{0635}', '\u{0631}']], forms: Forms::new('\u{FD0F}', '\0', '\0', '\u{FD2B}') },
        // ARABIC_LIGATURE_SAD_WITH_YEH
        Ligature { patterns: vec![vec!['\u{0635}', '\u{064A}']], forms: Forms::new('\u{FD06}', '\0', '\0', '\u{FD22}') },
        // ARABIC_LIGATURE_SALLA_USED_AS_KORANIC_STOP_SIGN
        Ligature { patterns: vec![vec!['\u{0635}', '\u{0644}', '\u{06D2}']], forms: Forms::new('\u{FDF0}', '\0', '\0', '\0') },
        // ARABIC_LIGATURE_SEEN_WITH_ALEF_MAKSURA
        Ligature { patterns: vec![vec!['\u{0633}', '\u{0649}']], forms: Forms::new('\u{FCFB}', '\0', '\0', '\u{FD17}') },
        // ARABIC_LIGATURE_SEEN_WITH_HAH
        Ligature { patterns: vec![vec!['\u{0633}', '\u{062D}']], forms: Forms::new('\u{FC1D}', '\u{FCAE}', '\u{FD35}', '\0') },
        // ARABIC_LIGATURE_SEEN_WITH_HAH_WITH_JEEM
        Ligature { patterns: vec![vec!['\u{0633}', '\u{062D}', '\u{062C}']], forms: Forms::new('\0', '\u{FD5C}', '\0', '\0') },
        // ARABIC_LIGATURE_SEEN_WITH_HEH
        Ligature { patterns: vec![vec!['\u{0633}', '\u{0647}']], forms: Forms::new('\0', '\u{FD31}', '\u{FCE8}', '\0') },
        // ARABIC_LIGATURE_SEEN_WITH_JEEM
        Ligature { patterns: vec![vec!['\u{0633}', '\u{062C}']], forms: Forms::new('\u{FC1C}', '\u{FCAD}', '\u{FD34}', '\0') },
        // ARABIC_LIGATURE_SEEN_WITH_JEEM_WITH_ALEF_MAKSURA
        Ligature { patterns: vec![vec!['\u{0633}', '\u{062C}', '\u{0649}']], forms: Forms::new('\0', '\0', '\0', '\u{FD5E}') },
        // ARABIC_LIGATURE_SEEN_WITH_JEEM_WITH_HAH
        Ligature { patterns: vec![vec!['\u{0633}', '\u{062C}', '\u{062D}']], forms: Forms::new('\0', '\u{FD5D}', '\0', '\0') },
    ];
    assert(table_view(v@) =~~= ligatures_part_5());
    let ghost before = old(t)@;
    t.append(&mut v);
    assert(table_view(t@) =~= table_view(before) + ligatures_part_5());
}

fn push_ligatures_part_6(t: &mut Vec<Ligature>)
    ensures
        table_view(final(t)@) == table_view(old(t)@) + ligatures_part_6(),
{
    reveal(ligatures_part_6);
    let mut v: Vec<Ligature> = vec![
        // ARABIC_LIGATURE_SEEN_WITH_KHAH
        Ligature { patterns: vec![vec!['\u{0633}', '\u{062E}']], forms: Forms::new('\u{FC1E}', '\u{FCAF}', '\u{FD36}', '\0') },
        // ARABIC_LIGATURE_SEEN_WITH_KHAH_WITH_ALEF_MAKSURA
        Ligature { patterns: vec![vec!['\u{0633}', '\u{062E}', '\u{0649}']], forms: Forms::new('\0', '\0', '\0', '\u{FDA8}') },
        // ARABIC_LIGATURE_SEEN_WITH_KHAH_WITH_YEH
        Ligature { patterns: vec![vec!['\u{0633}', '\u{062E}', '\u{064A}']], forms: Forms::new('\0', '\0', '\0', '\u{FDC6}') },
        // ARABIC_LIGATURE_SEEN_WITH_MEEM
        Ligature { patterns: vec![vec!['\u{0633}', '\u{0645}']], forms: Forms::new('\u{FC1F}', '\u{FCB0}', '\u{FCE7}', '\0') },
        // ARABIC_LIGATURE_SEEN_WITH_MEEM_WITH_HAH
        Ligature { patterns: vec![vec!['\u{0633}', '\u{0645}', '\u{062D}']], forms: Forms::new('\0', '\u{FD60}', '\0', '\u{FD5F}') },
        // ARABIC_LIGATURE_SEEN_WITH_MEEM_WITH_JEEM
        Ligature { patterns: vec![vec!['\u{0633}', '\u{0645}', '\u{062C}']], forms: Forms::new('\0', '\u{FD61}', '\0', '\0') },
        // ARABIC_LIGATURE_SEEN_WITH_MEEM_WITH_MEEM
        Ligature { patterns: vec![vec!['\u{0633}', '\u{0645}', '\u{0645}']], forms: Forms::new('\0', '\u{FD63}', '\0', '\u{FD62}') },
        // ARABIC_LIGATURE_SEEN_WITH_REH
        Ligature { patterns: vec![vec!['\u{0633}', '\u{0631}']], forms: Forms::new('\u{FD0E}', '\0', '\0', '\u{FD2A}') },
        // ARABIC_LIGATURE_SEEN_WITH_YEH
        Ligature { patterns: vec![vec!['\u{0633}', '\u{064A}']], forms: Forms::new('\u{FCFC}', '\0', '\0', '\u{FD18}') },
        // ARABIC_LIGATURE_SHADDA_WITH_DAMMATAN_ISOLATED_FORM
        Ligature { patterns: vec![vec!['\u{064C}', '\u{0651}'], vec!['\u{0651}', '\u{064C}']], forms: Forms::new('\u{FC5E}', '\u{FC5E}', '\u{FC5E}', '\u{FC5E}') },
        // ARABIC_LIGATURE_SHADDA_WITH_KASRATAN_ISOLATED_FORM
        Ligature { patterns: vec![vec!['\u{064D}', '\u{0651}'], vec!['\u{0651}', '\u{064D}']], forms: Forms::new('\u{FC5F}', '\u{FC5F}', '\u{FC5F}', '\u{FC5F}') },
        // ARABIC_LIGATURE_SHADDA_WITH_FATHA_ISOLATED_FORM
        Ligature { patterns: vec![vec!['\u{064E}', '\u{0651}'], vec!['\u{0651}', '\u{064E}']], forms: Forms::new('\u{FC60}', '\u{FC60}', '\u{FC60}', '\u{FC60}') },
        // ARABIC_LIGATURE_SHADDA_WITH_DAMMA_ISOLATED_FORM
        Ligature { patterns: vec![vec!['\u{064F}', '\u{0651}'], vec!['\u{0651}', '\u{064F}']], forms: Forms::new('\u{FC61}', '\u{FC61}', '\u{FC61}', '\u{FC61}') },
        // ARABIC_LIGATURE_SHADDA_WITH_KASRA_ISOLATED_FORM
        Ligature { patterns: vec![vec!['\u{0650}', '\u{0651}'], vec!['\u{0651}', '\u{0650}']], forms: Forms::new('\u{FC62}', '\u{FC62}', '\u{FC62}', '\u{FC62}') },
        // ARABIC_LIGATURE_SHADDA_WITH_SUPERSCRIPT_ALEF
        Ligature { patterns: vec![vec!['\u{0651}', '\u{0670}'], vec!['\u{0670}', '\u{0651}']], forms: Forms::new('\u{FC63}', '\0', '\0', '\0') },
        // ARABIC_LIGATURE_SHADDA_WITH_FATHA_MEDIAL_FORM
        Ligature { patterns: vec![vec!['\u{0640}', '\u{064E}', '\u{0651}'], vec!['\u{0640}', '\u{0651}', '\u{064E}']], forms: Forms::new('\u{FCF2}', '\u{FCF2}', '\u{FCF2}', '\u{FCF2}') },
        // ARABIC_LIGATURE_SHADDA_WITH_DAMMA_MEDIAL_FORM
        Ligature { patterns: vec![vec!['\u{0640}', '\u{064F}', '\u{0651}'], vec!['\u{0640}', '\u{0651}', '\u{064F}']], forms: Forms::new('\u{FCF3}', '\u{FCF3}', '\u{FCF3}', '\u{FCF3}') },
        // ARABIC_LIGATURE_SHADDA_WITH_KASRA_MEDIAL_FORM
        Ligature { patterns: vec![vec!['\u{0640}', '\u{0650}', '\u{0651}'], vec!['\u{0640}', '\u{0651}', '\u{0650}']], forms: Forms::new('\u{FCF4}', '\u{FCF4}', '\u{FCF4}', '\u{FCF4}') },
        // ARABIC_LIGATURE_SHADDA_WITH_FATHA
        Ligature { patterns: vec![vec!['\u{0640}', '\u{064E}', '\u{0651}'], vec!['\u{0640}', '\u{0651}', '\u{064E}']], forms: Forms::new('\u{FCF2}', '\u{FCF2}', '\u{FCF2}', '\u{FCF2}') },
        // ARABIC_LIGATURE_SHADDA_WITH_DAMMA
        Ligature { patterns: vec![vec!['\u{0640}', '\u{064F}', '\u{0651}'], vec!['\u{0640}', '\u{0651}', '\u{064F}']], forms: Forms::new('\u{FCF3}', '\u{FCF3}', '\u{FCF3}', '\u{FCF3}') },
        // ARABIC_LIGATURE_SHADDA_WITH_KASRA
        Ligature { patterns: vec![vec!['\u{0640}', '\u{0650}', '\u{0651}'], vec!['\u{0640}', '\u{0651}', '\u{0650}']], forms: Forms::new('\u{FCF4}', '\u{FCF4}', '\u{FCF4}', '\u{FCF4}') },
        // ARABIC_LIGATURE_SHEEN_WITH_ALEF_MAKSURA
        Ligature { patterns: vec![vec!['\u{0634}', '\u{0649}']], forms: Forms::new('\u{FCFD}', '\0', '\0', '\u{FD19}') },
        // ARABIC_LIGATURE_SHEEN_WITH_HAH
        Ligature { patterns: vec![vec!['\u{0634}', '\u{062D}']], forms: Forms::new('\u{FD0A}', '\u{FD2E}', '\u{FD38}', '\u{FD26}') },
        // ARABIC_LIGATURE_SHEEN_WITH_HAH_WITH_MEEM
        Ligature { patterns: vec![vec!['\u{0634}', '\u{062D}', '\u{0645}']], forms: Forms::new('\0', '\u{FD68}', '\0', '\u{FD67}') },
        // ARABIC_LIGATURE_SHEEN_WITH_HAH_WITH_YEH
        Ligature { patterns: vec![vec!['\u{0634}', '\u{062D}', '\u{064A}']], forms: Forms::new('\0', '\0', '\0', '\u{FDAA}') },
        // ARABIC_LIGATURE_SHEEN_WITH_HEH
        Ligature { patterns: vec![vec!['\u{0634}', '\u{0647}']], forms: Forms::new('\0', '\u{FD32}', '\u{FCEA}', '\0') },
        // ARABIC_LIGATURE_SHEEN_WITH_JEEM
        Ligature { patterns: vec![vec!['\u{0634}', '\u{062C}']], forms: Forms::new('\u{FD09}', '\u{FD2D}', '\u{FD37}', '\u{FD25}') },
        // ARABIC_LIGATURE_SHEEN_WITH_JEEM_WITH_YEH
        Ligature { patterns: vec![vec!['\u{0634}', '\u{062C}', '\u{064A}']], forms: Forms::new('\0', '\0', '\0', '\u{FD69}') },
        // ARABIC_LIGATURE_SHEEN_WITH_KHAH
        Ligature { patterns: vec![vec!['\u{0634}', '\u{062E}']], forms: Forms::new('\u{FD0B}', '\u{FD2F}', '\u{FD39}', '\u{FD27}') },
        // ARABIC_LIGATURE_SHEEN_WITH_MEEM
        Ligature { patterns: vec![vec!['\u{0634}', '\u{0645}']], forms: Forms::new('\u{FD0C}', '\u{FD30}', '\u{FCE9}', '\u{FD28}') },
    ];
    assert(table_view(v@) =~~= ligatures_part_6());
    let ghost before = old(t)@;
    t.append(&mut v);
    assert(table_view(t@) =~= table_view(before) + ligatures_part_6());
}

fn push_ligatures_part_7(t: &mut Vec<Ligature>)
    ensures
        table_view(final(t)@) == table_view(old(t)@) + ligatures_part_7(),
{
    reveal(ligatures_part_7);
    let mut v: Vec<Ligature> = vec![
        // ARABIC_LIGATURE_SHEEN_WITH_MEEM_WITH_KHAH
        Ligature { patterns: vec![vec!['\u{0634}', '\u{0645}', '\u{062E}']], forms: Forms::new('\0', '\u{FD6B}', '\0', '\u{FD6A}') },
        // ARABIC_LIGATURE_SHEEN_WITH_MEEM_WITH_MEEM
        Ligature { patterns: vec![vec!['\u{0634}', '\u{0645}', '\u{0645}']], forms: Forms::new('\0', '\u{FD6D}', '\0', '\u{FD6C}') },
        // ARABIC_LIGATURE_SHEEN_WITH_REH
        Ligature { patterns: vec![vec!['\u{0634}', '\u{0631}']], forms: Forms::new('\u{FD0D}', '\0', '\0', '\u{FD29}') },
        // ARABIC_LIGATURE_SHEEN_WITH_YEH
        Ligature { patterns: vec![vec!['\u{0634}', '\u{064A}']], forms: Forms::new('\u{FCFE}', '\0', '\0', '\u{FD1A}') },
        // ARABIC_LIGATURE_TAH_WITH_ALEF_MAKSURA
        Ligature { patterns: vec![vec!['\u{0637}', '\u{0649}']], forms: Forms::new('\u{FCF5}', '\0', '\0', '\u{FD11}') },
        // ARABIC_LIGATURE_TAH_WITH_HAH
        Ligature { patterns: vec![vec!['\u{0637}', '\u{062D}']], forms: Forms::new('\u{FC26}', '\u{FCB8}', '\0', '\0') },
        // ARABIC_LIGATURE_TAH_WITH_MEEM
        Ligature { patterns: vec![vec!['\u{0637}', '\u{0645}']], forms: Forms::new('\u{FC27}', '\u{FD33}', '\u{FD3A}', '\0') },
        // ARABIC_LIGATURE_TAH_WITH_MEEM_WITH_HAH
        Ligature { patterns: vec![vec!['\u{0637}', '\u{0645}', '\u{062D}']], forms: Forms::new('\0', '\u{FD72}', '\0', '\u{FD71}') },
        // ARABIC_LIGATURE_TAH_WITH_MEEM_WITH_MEEM
        Ligature { patterns: vec![vec!['\u{0637}', '\u{0645}', '\u{0645}']], forms: Forms::new('\0', '\u{FD73}', '\0', '\0') },
        // ARABIC_LIGATURE_TAH_WITH_MEEM_WITH_YEH
        Ligature { patterns: vec![vec!['\u{0637}', '\u{0645}', '\u{064A}']], forms: Forms::new('\0', '\0', '\0', '\u{FD74}') },
        // ARABIC_LIGATURE_TAH_WITH_YEH
        Ligature { patterns: vec![vec!['\u{0637}', '\u{064A}']], forms: Forms::new('\u{FCF6}', '\0', '\0', '\u{FD12}') },
        // ARABIC_LIGATURE_TEH_WITH_ALEF_MAKSURA
        Ligature { patterns: vec![vec!['\u{062A}', '\u{0649}']], forms: Forms::new('\u{FC0F}', '\0', '\0', '\u{FC74}') },
        // ARABIC_LIGATURE_TEH_WITH_HAH
        Ligature { patterns: vec![vec!['\u{062A}', '\u{062D}']], forms: Forms::new('\u{FC0C}', '\u{FCA2}', '\0', '\0') },
        // ARABIC_LIGATURE_TEH_WITH_HAH_WITH_JEEM
        Ligature { patterns: vec![vec!['\u{062A}', '\u{062D}', '\u{062C}']], forms: Forms::new('\0', '\u{FD52}', '\0', '\u{FD51}') },
        // ARABIC_LIGATURE_TEH_WITH_HAH_WITH_MEEM
        Ligature { patterns: vec![vec!['\u{062A}', '\u{062D}', '\u{0645}']], forms: Forms::new('\0', '\u{FD53}', '\0', '\0') },
        // ARABIC_LIGATURE_TEH_WITH_HEH
        Ligature { patterns: vec![vec!['\u{062A}', '\u{0647}']], forms: Forms::new('\0', '\u{FCA5}', '\u{FCE4}', '\0') },
        // ARABIC_LIGATURE_TEH_WITH_JEEM
        Ligature { patterns: vec![vec!['\u{062A}', '\u{062C}']], forms: Forms::new('\u{FC0B}', '\u{FCA1}', '\0', '\0') },
        // ARABIC_LIGATURE_TEH_WITH_JEEM_WITH_ALEF_MAKSURA
        Ligature { patterns: vec![vec!['\u{062A}', '\u{062C}', '\u{0649}']], forms: Forms::new('\0', '\0', '\0', '\u{FDA0}') },
        // ARABIC_LIGATURE_TEH_WITH_JEEM_WITH_MEEM
        Ligature { patterns: vec![vec!['\u{062A}', '\u{062C}', '\u{0645}']], forms: Forms::new('\0', '\u{FD50}', '\0', '\0') },
        // ARABIC_LIGATURE_TEH_WITH_JEEM_WITH_YEH
        Ligature { patterns: vec![vec!['\u{062A}', '\u{062C}', '\u{064A}']], forms: Forms::new('\0', '\0', '\0', '\u{FD9F}') },
        // ARABIC_LIGATURE_TEH_WITH_KHAH
        Ligature { patterns: vec![vec!['\u{062A}', '\u{062E}']], forms: Forms::new('\u{FC0D}', '\u{FCA3}', '\0', '\0') },
        // ARABIC_LIGATURE_TEH_WITH_KHAH_WITH_ALEF_MAKSURA
        Ligature { patterns: vec![vec!['\u{062A}', '\u{062E}', '\u{0649}']], forms: Forms::new('\0', '\0', '\0', '\u{FDA2}') },
        // ARABIC_LIGATURE_TEH_WITH_KHAH_WITH_MEEM
        Ligature { patterns: vec![vec!['\u{062A}', '\u{062E}', '\u{0645}']], forms: Forms::new('\0', '\u{FD54}', '\0', '\0') },
        // ARABIC_LIGATURE_TEH_WITH_KHAH_WITH_YEH
        Ligature { patterns: vec![vec!['\u{062A}', '\u{062E}', '\u{064A}']], forms: Forms::new('\0', '\0', '\0', '\u{FDA1}') },
        // ARABIC_LIGATURE_TEH_WITH_MEEM
        Ligature { patterns: vec![vec!['\u{062A}', '\u{0645}']], forms: Forms::new('\u{FC0E}', '\u{FCA4}', '\u{FCE3}', '\u{FC72}') },
        // ARABIC_LIGATURE_TEH_WITH_MEEM_WITH_ALEF_MAKSURA
        Ligature { patterns: vec![vec!['\u{062A}', '\u{0645}', '\u{0649}']], forms: Forms::new('\0', '\0', '\0', '\u{FDA4}') },
        // ARABIC_LIGATURE_TEH_WITH_MEEM_WITH_HAH
        Ligature { patterns: vec![vec!['\u{062A}', '\u{0645}', '\u{062D}']], forms: Forms::new('\0', '\u{FD56}', '\0', '\0') },
        // ARABIC_LIGATURE_TEH_WITH_MEEM_WITH_JEEM
        Ligature { patterns: vec![vec!['\u{062A}', '\u{0645}', '\u{062C}']], forms: Forms::new('\0', '\u{FD55}', '\0', '\0') },
        // ARABIC_LIGATURE_TEH_WITH_MEEM_WITH_KHAH
        Ligature { patterns: vec![vec!['\u{062A}', '\u{0645}', '\u{062E}']], forms: Forms::new('\0', '\u{FD57}', '\0', '\0') },
        // ARABIC_LIGATURE_TEH_WITH_MEEM_WITH_YEH
        Ligature { patterns: vec![vec!['\u{062A}', '\u{0645}', '\u{064A}']], forms: Forms::new('\0', '\0', '\0', '\u{FDA3}') },
    ];
    assert(table_view(v@) =~~= ligatures_part_7());
    let ghost before = old(t)@;
    t.append(&mut v);
    assert(table_view(t@) =~= table_view(before) + ligatures_part_7());
}

fn push_ligatures_part_8(t: &mut Vec<Ligature>)
    ensures
        table_view(final(t)@) == table_view(old(t)@) + ligatures_part_8(),
{
    reveal(ligatures_part_8);
    let mut v: Vec<Ligature> = vec![
        // ARABIC_LIGATURE_TEH_WITH_NOON
        Ligature { patterns: vec![vec!['\u{062A}', '\u{0646}']], forms: Forms::new('\0', '\0', '\0', '\u{FC73}') },
        // ARABIC_LIGATURE_TEH_WITH_REH
        Ligature { patterns: vec![vec!['\u{062A}', '\u{0631}']], forms: Forms::new('\0', '\0', '\0', '\u{FC70}') },
        // ARABIC_LIGATURE_TEH_WITH_YEH
        Ligature { patterns: vec![vec!['\u{062A}', '\u{064A}']], forms: Forms::new('\u{FC10}', '\0', '\0', '\u{FC75}') },
        // ARABIC_LIGATURE_TEH_WITH_ZAIN
        Ligature { patterns: vec![vec!['\u{062A}', '\u{0632}']], forms: Forms::new('\0', '\0', '\0', '\u{FC71}') },
        // ARABIC_LIGATURE_THAL_WITH_SUPERSCRIPT_ALEF
        Ligature { patterns: vec![vec!['\u{0630}', '\u{0670}']], forms: Forms::new('\u{FC5B}', '\0', '\0', '\0') },
        // ARABIC_LIGATURE_THEH_WITH_ALEF_MAKSURA
        Ligature { patterns: vec![vec!['\u{062B}', '\u{0649}']], forms: Forms::new('\u{FC13}', '\0', '\0', '\u{FC7A}') },
        // ARABIC_LIGATURE_THEH_WITH_HEH
        Ligature { patterns: vec![vec!['\u{062B}', '\u{0647}']], forms: Forms::new('\0', '\0', '\u{FCE6}', '\0') },
        // ARABIC_LIGATURE_THEH_WITH_JEEM
        Ligature { patterns: vec![vec!['\u{062B}', '\u{062C}']], forms: Forms::new('\u{FC11}', '\0', '\0', '\0') },
        // ARABIC_LIGATURE_THEH_WITH_MEEM
        Ligature { patterns: vec![vec!['\u{062B}', '\u{0645}']], forms: Forms::new('\u{FC12}', '\u{FCA6}', '\u{FCE5}', '\u{FC78}') },
        // ARABIC_LIGATURE_THEH_WITH_NOON
        Ligature { patterns: vec![vec!['\u{062B}', '\u{0646}']], forms: Forms::new('\0', '\0', '\0', '\u{FC79}') },
        // ARABIC_LIGATURE_THEH_WITH_REH
        Ligature { patterns: vec![vec!['\u{062B}', '\u{0631}']], forms: Forms::new('\0', '\0', '\0', '\u{FC76}') },
        // ARABIC_LIGATURE_THEH_WITH_YEH
        Ligature { patterns: vec![vec!['\u{062B}', '\u{064A}']], forms: Forms::new('\u{FC14}', '\0', '\0', '\u{FC7B}') },
        // ARABIC_LIGATURE_THEH_WITH_ZAIN
        Ligature { patterns: vec![vec!['\u{062B}', '\u{0632}']], forms: Forms::new('\0', '\0', '\0', '\u{FC77}') },
        // ARABIC_LIGATURE_UIGHUR_KIRGHIZ_YEH_WITH_HAMZA_ABOVE_WITH_ALEF_MAKSURA
        Ligature { patterns: vec![vec!['\u{0626}', '\u{0649}']], forms: Forms::new('\u{FBF9}', '\u{FBFB}', '\0', '\u{FBFA}') },
        // ARABIC_LIGATURE_YEH_WITH_ALEF_MAKSURA
        Ligature { patterns: vec![vec!['\u{064A}', '\u{0649}']], forms: Forms::new('\u{FC59}', '\0', '\0', '\u{FC95}') },
        // ARABIC_LIGATURE_YEH_WITH_HAH
        Ligature { patterns: vec![vec!['\u{064A}', '\u{062D}']], forms: Forms::new('\u{FC56}', '\u{FCDB}', '\0', '\0') },
        // ARABIC_LIGATURE_YEH_WITH_HAH_WITH_YEH
        Ligature { patterns: vec![vec!['\u{064A}', '\u{062D}', '\u{064A}']], forms: Forms::new('\0', '\0', '\0', '\u{FDAE}') },
        // ARABIC_LIGATURE_YEH_WITH_HAMZA_ABOVE_WITH_AE
        Ligature { patterns: vec![vec!['\u{0626}', '\u{06D5}']], forms: Forms::new('\u{FBEC}', '\0', '\0', '\u{FBED}') },
        // ARABIC_LIGATURE_YEH_WITH_HAMZA_ABOVE_WITH_ALEF
        Ligature { patterns: vec![vec!['\u{0626}', '\u{0627}']], forms: Forms::new('\u{FBEA}', '\0', '\0', '\u{FBEB}') },
        // ARABIC_LIGATURE_YEH_WITH_HAMZA_ABOVE_WITH_ALEF_MAKSURA
        Ligature { patterns: vec![vec!['\u{0626}', '\u{0649}']], forms: Forms::new('\u{FC03}', '\0', '\0', '\u{FC68}') },
        // ARABIC_LIGATURE_YEH_WITH_HAMZA_ABOVE_WITH_E
        Ligature { patterns: vec![vec!['\u{0626}', '\u{06D0}']], forms: Forms::new('\u{FBF6}', '\u{FBF8}', '\0', '\u{FBF7}') },
        // ARABIC_LIGATURE_YEH_WITH_HAMZA_ABOVE_WITH_HAH
        Ligature { patterns: vec![vec!['\u{0626}', '\u{062D}']], forms: Forms::new('\u{FC01}', '\u{FC98}', '\0', '\0') },
        // ARABIC_LIGATURE_YEH_WITH_HAMZA_ABOVE_WITH_HEH
        Ligature { patterns: vec![vec!['\u{0626}', '\u{0647}']], forms: Forms::new('\0', '\u{FC9B}', '\u{FCE0}', '\0') },
        // ARABIC_LIGATURE_YEH_WITH_HAMZA_ABOVE_WITH_JEEM
        Ligature { patterns: vec![vec!['\u{0626}', '\u{062C}']], forms: Forms::new('\u{FC00}', '\u{FC97}', '\0', '\0') },
        // ARABIC_LIGATURE_YEH_WITH_HAMZA_ABOVE_WITH_KHAH
        Ligature { patterns: vec![vec!['\u{0626}', '\u{062E}']], forms: Forms::new('\0', '\u{FC99}', '\0', '\0') },
        // ARABIC_LIGATURE_YEH_WITH_HAMZA_ABOVE_WITH_MEEM
        Ligature { patterns: vec![vec!['\u{0626}', '\u{0645}']], forms: Forms::new('\u{FC02}', '\u{FC9A}', '\u{FCDF}', '\u{FC66}') },
        // ARABIC_LIGATURE_YEH_WITH_HAMZA_ABOVE_WITH_NOON
        Ligature { patterns: vec![vec!['\u{0626}', '\u{0646}']], forms: Forms::new('\0', '\0', '\0', '\u{FC67}') },
        // ARABIC_LIGATURE_YEH_WITH_HAMZA_ABOVE_WITH_OE
        Ligature { patterns: vec![vec!['\u{0626}', '\u{06C6}']], forms: Forms::new('\u{FBF2}', '\0', '\0', '\u{FBF3}') },
        // ARABIC_LIGATURE_YEH_WITH_HAMZA_ABOVE_WITH_REH
        Ligature { patterns: vec![vec!['\u{0626}', '\u{0631}']], forms: Forms::new('\0', '\0', '\0', '\u{FC64}') },
        // ARABIC_LIGATURE_YEH_WITH_HAMZA_ABOVE_WITH_U
        Ligature { patterns: vec![vec!['\u{0626}', '\u{06C7}']], forms: Forms::new('\u{FBF0}', '\0', '\0', '\u{FBF1}') },
    ];
    assert(table_view(v@) =~~= ligatures_part_8());
    let ghost before = old(t)@;
    t.append(&mut v);
    assert(table_view(t@) =~= table_view(before) + ligatures_part_8());
}

fn push_ligatures_part_9(t: &mut Vec<Ligature>)
    ensures
        table_view(final(t)@) == table_view(old(t)@) + ligatures_part_9(),
{
    reveal(ligatures_part_9);
    let mut v: Vec<Ligature> = vec![
        // ARABIC_LIGATURE_YEH_WITH_HAMZA_ABOVE_WITH_WAW
        Ligature { patterns: vec![vec!['\u{0626}', '\u{0648}']], forms: Forms::new('\u{FBEE}', '\0', '\0', '\u{FBEF}') },
        // ARABIC_LIGATURE_YEH_WITH_HAMZA_ABOVE_WITH_YEH
        Ligature { patterns: vec![vec!['\u{0626}', '\u{064A}']], forms: Forms::new('\u{FC04}', '\0', '\0', '\u{FC69}') },
        // ARABIC_LIGATURE_YEH_WITH_HAMZA_ABOVE_WITH_YU
        Ligature { patterns: vec![vec!['\u{0626}', '\u{06C8}']], forms: Forms::new('\u{FBF4}', '\0', '\0', '\u{FBF5}') },
        // ARABIC_LIGATURE_YEH_WITH_HAMZA_ABOVE_WITH_ZAIN
        Ligature { patterns: vec![vec!['\u{0626}', '\u{0632}']], forms: Forms::new('\0', '\0', '\0', '\u{FC65}') },
        // ARABIC_LIGATURE_YEH_WITH_HEH
        Ligature { patterns: vec![vec!['\u{064A}', '\u{0647}']], forms: Forms::new('\0', '\u{FCDE}', '\u{FCF1}', '\0') },
        // ARABIC_LIGATURE_YEH_WITH_JEEM
        Ligature { patterns: vec![vec!['\u{064A}', '\u{062C}']], forms: Forms::new('\u{FC55}', '\u{FCDA}', '\0', '\0') },
        // ARABIC_LIGATURE_YEH_WITH_JEEM_WITH_YEH
        Ligature { patterns: vec![vec!['\u{064A}', '\u{062C}', '\u{064A}']], forms: Forms::new('\0', '\0', '\0', '\u{FDAF}') },
        // ARABIC_LIGATURE_YEH_WITH_KHAH
        Ligature { patterns: vec![vec!['\u{064A}', '\u{062E}']], forms: Forms::new('\u{FC57}', '\u{FCDC}', '\0', '\0') },
        // ARABIC_LIGATURE_YEH_WITH_MEEM
        Ligature { patterns: vec![vec!['\u{064A}', '\u{0645}']], forms: Forms::new('\u{FC58}', '\u{FCDD}', '\u{FCF0}', '\u{FC93}') },
        // ARABIC_LIGATURE_YEH_WITH_MEEM_WITH_MEEM
        Ligature { patterns: vec![vec!['\u{064A}', '\u{0645}', '\u{0645}']], forms: Forms::new('\0', '\u{FD9D}', '\0', '\u{FD9C}') },
        // ARABIC_LIGATURE_YEH_WITH_MEEM_WITH_YEH
        Ligature { patterns: vec![vec!['\u{064A}', '\u{0645}', '\u{064A}']], forms: Forms::new('\0', '\0', '\0', '\u{FDB0}') },
        // ARABIC_LIGATURE_YEH_WITH_NOON
        Ligature { patterns: vec![vec!['\u{064A}', '\u{0646}']], forms: Forms::new('\0', '\0', '\0', '\u{FC94}') },
        // ARABIC_LIGATURE_YEH_WITH_REH
        Ligature { patterns: vec![vec!['\u{064A}', '\u{0631}']], forms: Forms::new('\0', '\0', '\0', '\u{FC91}') },
        // ARABIC_LIGATURE_YEH_WITH_YEH
        Ligature { patterns: vec![vec!['\u{064A}', '\u{064A}']], forms: Forms::new('\u{FC5A}', '\0', '\0', '\u{FC96}') },
        // ARABIC_LIGATURE_YEH_WITH_ZAIN
        Ligature { patterns: vec![vec!['\u{064A}', '\u{0632}']], forms: Forms::new('\0', '\0', '\0', '\u{FC92}') },
        // ARABIC_LIGATURE_ZAH_WITH_MEEM
        Ligature { patterns: vec![vec!['\u{0638}', '\u{0645}']], forms: Forms::new('\u{FC28}', '\u{FCB9}', '\u{FD3B}', '\0') },
    ];
    assert(table_view(v@) =~~= ligatures_part_9());
    let ghost before = old(t)@;
    t.append(&mut v);
    assert(table_view(t@) =~= table_view(before) + ligatures_part_9());
}

/// Concatenating two tables without empty patterns gives one without.
proof fn lemma_wf_concat(a: Seq<LigatureSpec>, b: Seq<LigatureSpec>)
    requires
        ligatures_wf(a),
        ligatures_wf(b),
        starts_known(a),
        starts_known(b),
    ensures
        ligatures_wf(a + b),
        starts_known(a + b),
{
    assert forall|i: int, j: int| 0 <= i < (a + b).len() && 0 <= j < (a + b)[i].0.len() implies #[trigger] (a + b)[i].0[j].len() > 0 by {
        if i >= a.len() {
            assert((a + b)[i] == b[i - a.len()]);
        }
    }
    assert forall|i: int, j: int| 0 <= i < (a + b).len() && 0 <= j < (a + b)[i].0.len() implies (is_harakat(#[trigger] (a + b)[i].0[j][0]) || ligature_start((a + b)[i].0[j][0])) by {
        if i >= a.len() {
            assert((a + b)[i] == b[i - a.len()]);
        }
    }
}

proof fn lemma_part_0()
    ensures
        ligatures_part_0().len() == 30,
        ligatures_wf(ligatures_part_0()),
        starts_known(ligatures_part_0()),
{
    reveal(ligatures_part_0);
}

proof fn lemma_part_1()
    ensures
        ligatures_part_1().len() == 30,
        ligatures_wf(ligatures_part_1()),
        starts_known(ligatures_part_1()),
{
    reveal(ligatures_part_1);
}

proof fn lemma_part_2()
    ensures
        ligatures_part_2().len() == 30,
        ligatures_wf(ligatures_part_2()),
        starts_known(ligatures_part_2()),
{
    reveal(ligatures_part_2);
}

proof fn lemma_part_3()
    ensures
        ligatures_part_3().len() == 30,
        ligatures_wf(ligatures_part_3()),
        starts_known(ligatures_part_3()),
{
    reveal(ligatures_part_3);
}

proof fn lemma_part_4()
    ensures
        ligatures_part_4().len() == 30,
        ligatures_wf(ligatures_part_4()),
        starts_known(ligatures_part_4()),
{
    reveal(ligatures_part_4);
}

proof fn lemma_part_5()
    ensures
        ligatures_part_5().len() == 30,
        ligatures_wf(ligatures_part_5()),
        starts_known(ligatures_part_5()),
{
    reveal(ligatures_part_5);
}

proof fn lemma_part_6()
    ensures
        ligatures_part_6().len() == 30,
        ligatures_wf(ligatures_part_6()),
        starts_known(ligatures_part_6()),
{
    reveal(ligatures_part_6);
}

proof fn lemma_part_7()
    ensures
        ligatures_part_7().len() == 30,
        ligatures_wf(ligatures_part_7()),
        starts_known(ligatures_part_7()),
{
    reveal(ligatures_part_7);
}

proof fn lemma_part_8()
    ensures
        ligatures_part_8().len() == 30,
        ligatures_wf(ligatures_part_8()),
        starts_known(ligatures_part_8()),
{
    reveal(ligatures_part_8);
}

proof fn lemma_part_9()
    ensures
        ligatures_part_9().len() == 16,
        ligatures_wf(ligatures_part_9()),
        starts_known(ligatures_part_9()),
{
    reveal(ligatures_part_9);
}

/// The table has one entry per ligature name, and no empty pattern.
pub proof fn lemma_ligatures_len()
    ensures
        ligatures_spec().len() == LIGATURES_LEN,
        ligatures_wf(ligatures_spec()),
        starts_known(ligatures_spec()),
{
    lemma_part_0();
    lemma_part_1();
    lemma_part_2();
    lemma_part_3();
    lemma_part_4();
    lemma_part_5();
    lemma_part_6();
    lemma_part_7();
    lemma_part_8();
    lemma_part_9();
    lemma_wf_concat(ligatures_part_0(), ligatures_part_1());
    lemma_wf_concat(ligatures_part_0() + ligatures_part_1(), ligatures_part_2());
    lemma_wf_concat(ligatures_part_0() + ligatures_part_1() + ligatures_part_2(), ligatures_part_3());
    lemma_wf_concat(ligatures_part_0() + ligatures_part_1() + ligatures_part_2() + ligatures_part_3(), ligatures_part_4());
    lemma_wf_concat(ligatures_part_0() + ligatures_part_1() + ligatures_part_2() + ligatures_part_3() + ligatures_part_4(), ligatures_part_5());
    lemma_wf_concat(ligatures_part_0() + ligatures_part_1() + ligatures_part_2() + ligatures_part_3() + ligatures_part_4() + ligatures_part_5(), ligatures_part_6());
    lemma_wf_concat(ligatures_part_0() + ligatures_part_1() + ligatures_part_2() + ligatures_part_3() + ligatures_part_4() + ligatures_part_5() + ligatures_part_6(), ligatures_part_7());
    lemma_wf_concat(ligatures_part_0() + ligatures_part_1() + ligatures_part_2() + ligatures_part_3() + ligatures_part_4() + ligatures_part_5() + ligatures_part_6() + ligatures_part_7(), ligatures_part_8());
    lemma_wf_concat(ligatures_part_0() + ligatures_part_1() + ligatures_part_2() + ligatures_part_3() + ligatures_part_4() + ligatures_part_5() + ligatures_part_6() + ligatures_part_7() + ligatures_part_8(), ligatures_part_9());
}

/// The ligature table.
pub fn ligatures() -> (r: Vec<Ligature>)
    ensures
        table_view(r@) == ligatures_spec(),
        r@.len() == LIGATURES_LEN,
{
    proof {
        lemma_ligatures_len();
    }
    let mut t: Vec<Ligature> = Vec::new();
    assert(table_view(t@) =~= Seq::empty());
    push_ligatures_part_0(&mut t);
    assert(table_view(t@) =~= ligatures_part_0());
    push_ligatures_part_1(&mut t);
    push_ligatures_part_2(&mut t);
    push_ligatures_part_3(&mut t);
    push_ligatures_part_4(&mut t);
    push_ligatures_part_5(&mut t);
    push_ligatures_part_6(&mut t);
    push_ligatures_part_7(&mut t);
    push_ligatures_part_8(&mut t);
    push_ligatures_part_9(&mut t);
    t
}

} // verus!
