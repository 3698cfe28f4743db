//! The engine's settings: language, behaviour flags and the enabled ligatures.
use vstd::prelude::*;

use crate::form::LettersType;
use crate::letters::table_wf;
use crate::ligatures::{
    LigatureNames, LETTERS_LIGATURES_END, LETTERS_LIGATURES_START, LIGATURES_LEN,
    SENTENCES_LIGATURES_END, SENTENCES_LIGATURES_START, WORDS_LIGATURES_END, WORDS_LIGATURES_START,
};
use crate::reshaper::ArabicReshaper;

verus! {

/// Which groups of ligatures a new configuration enables.
#[derive(Clone, Copy, Debug)]
pub struct LigaturesFlags {
    /// The few ligatures that are on by default (Allah and the Lam-Alef forms).
    pub default_ligatures: bool,
    pub sentences_ligatures: bool,
    pub words_ligatures: bool,
    pub letters_ligatures: bool,
}

impl LigaturesFlags {
    /// Only the default ligatures.
    pub fn default() -> (r: Self)
        ensures
            r == (LigaturesFlags {
                default_ligatures: true,
                sentences_ligatures: false,
                words_ligatures: false,
                letters_ligatures: false,
            }),
    {
        LigaturesFlags {
            default_ligatures: true,
            sentences_ligatures: false,
            words_ligatures: false,
            letters_ligatures: false,
        }
    }

    /// Every group of ligatures.
    pub fn all() -> (r: Self)
        ensures
            r == (LigaturesFlags {
                default_ligatures: false,
                sentences_ligatures: true,
                words_ligatures: true,
                letters_ligatures: true,
            }),
    {
        LigaturesFlags {
            default_ligatures: false,
            sentences_ligatures: true,
            words_ligatures: true,
            letters_ligatures: true,
        }
    }

    /// No ligature at all.
    pub fn none() -> (r: Self)
        ensures
            r == (LigaturesFlags {
                default_ligatures: false,
                sentences_ligatures: false,
                words_ligatures: false,
                letters_ligatures: false,
            }),
    {
        LigaturesFlags {
            default_ligatures: false,
            sentences_ligatures: false,
            words_ligatures: false,
            letters_ligatures: false,
        }
    }

    pub open spec fn spec_is_none_enabled(&self) -> bool {
        !self.sentences_ligatures && !self.words_ligatures && !self.letters_ligatures
    }

    /// Whether none of the three groups is enabled (the default set does not count).
    pub fn is_none_enabled(&self) -> (r: bool)
        ensures
            r == self.spec_is_none_enabled(),
    {
        !self.sentences_ligatures && !self.words_ligatures && !self.letters_ligatures
    }
}

/// The language whose letter table the engine uses.
#[derive(Clone, Debug)]
pub enum Language {
    /// The default; works in most cases.
    Arabic,
    /// For fonts that lack some of the glyphs `Arabic` uses.
    ArabicV2,
    /// Kurdish, for both the Unicode and the classic Arabic-Kurdish keyboard.
    Kurdish,
    /// A letter table of the caller's own.
    Custom(Vec<LettersType>),
}

impl Language {
    /// The language's name.
    pub fn name(&self) -> (r: &'static str)
        ensures
            r@ == match self {
                Language::Arabic => "Arabic"@,
                Language::ArabicV2 => "ArabicV2"@,
                Language::Kurdish => "Kurdish"@,
                Language::Custom(_) => "Custom"@,
            },
    {
        match self {
            Language::Arabic => "Arabic",
            Language::ArabicV2 => "ArabicV2",
            Language::Kurdish => "Kurdish",
            Language::Custom(_) => "Custom",
        }
    }
}

/// The indices of the ligatures that are on by default.
pub open spec fn is_default_ligature(i: int) -> bool {
    ||| i == LigatureNames::ARABIC_LIGATURE_ALLAH.spec_index()
    ||| i == LigatureNames::ARABIC_LIGATURE_LAM_WITH_ALEF.spec_index()
    ||| i == LigatureNames::ARABIC_LIGATURE_LAM_WITH_ALEF_WITH_HAMZA_ABOVE.spec_index()
    ||| i == LigatureNames::ARABIC_LIGATURE_LAM_WITH_ALEF_WITH_HAMZA_BELOW.spec_index()
    ||| i == LigatureNames::ARABIC_LIGATURE_LAM_WITH_ALEF_WITH_MADDA_ABOVE.spec_index()
}

/// The enable set of the default configuration.
pub open spec fn default_ligature_list() -> Seq<bool> {
    Seq::new(LIGATURES_LEN as nat, |i: int| is_default_ligature(i))
}

/// The enable set that a `LigaturesFlags` asks for.
pub open spec fn flags_ligature_list(flags: LigaturesFlags) -> Seq<bool> {
    Seq::new(
        LIGATURES_LEN as nat,
        |i: int|
            (flags.default_ligatures && is_default_ligature(i)) || (!flags.spec_is_none_enabled() && (
            (flags.sentences_ligatures && SENTENCES_LIGATURES_START <= i < SENTENCES_LIGATURES_END)
                || (flags.words_ligatures && WORDS_LIGATURES_START <= i < WORDS_LIGATURES_END) || (
            flags.letters_ligatures && LETTERS_LIGATURES_START <= i < LETTERS_LIGATURES_END))),
    )
}

/// Whether the ligature at index `i` of the table is enabled in `list`.
pub open spec fn is_enabled(list: Seq<bool>, i: int) -> bool {
    0 <= i < list.len() && list[i]
}

/// Whether some ligature is enabled in `list`.
pub open spec fn any_enabled(list: Seq<bool>) -> bool {
    exists|i: int| #[trigger] is_enabled(list, i)
}

/// Which ligatures are enabled, one flag per entry of the ligature table.
#[derive(Clone, Debug)]
pub struct Ligatures {
    pub list: Vec<bool>,
}

impl Ligatures {
    /// Every ligature disabled.
    pub fn empty() -> (r: Self)
        ensures
            r.list@ == Seq::new(LIGATURES_LEN as nat, |i: int| false),
    {
        let mut list: Vec<bool> = Vec::new();
        let mut i: usize = 0;
        while i < LIGATURES_LEN
            invariant
                i <= LIGATURES_LEN,
                list@ == Seq::new(i as nat, |j: int| false),
            decreases LIGATURES_LEN - i,
        {
            list.push(false);
            i += 1;
            assert(list@ =~= Seq::new(i as nat, |j: int| false));
        }
        Ligatures { list }
    }

    /// Only the ligatures that are on by default.
    pub fn default() -> (r: Self)
        ensures
            r.list@ == default_ligature_list(),
    {
        let mut r = Ligatures::empty();
        r.list.set(LigatureNames::ARABIC_LIGATURE_ALLAH.index(), true);
        r.list.set(LigatureNames::ARABIC_LIGATURE_LAM_WITH_ALEF.index(), true);
        r.list.set(LigatureNames::ARABIC_LIGATURE_LAM_WITH_ALEF_WITH_HAMZA_ABOVE.index(), true);
        r.list.set(LigatureNames::ARABIC_LIGATURE_LAM_WITH_ALEF_WITH_HAMZA_BELOW.index(), true);
        r.list.set(LigatureNames::ARABIC_LIGATURE_LAM_WITH_ALEF_WITH_MADDA_ABOVE.index(), true);
        assert(r.list@ =~= default_ligature_list());
        r
    }

    /// Whether at least one ligature is enabled.
    pub fn is_any_enabled(&self) -> (r: bool)
        ensures
            r == any_enabled(self.list@),
    {
        let mut i: usize = 0;
        while i < self.list.len()
            invariant
                i <= self.list@.len(),
                forall|j: int| 0 <= j < i ==> !self.list@[j],
            decreases self.list@.len() - i,
        {
            if self.list[i] {
                assert(is_enabled(self.list@, i as int));
                return true;
            }
            i += 1;
        }
        false
    }

    /// Whether the named ligature is enabled.
    pub fn is_ligature_enabled(&self, name: LigatureNames) -> (r: bool)
        ensures
            r == is_enabled(self.list@, name.spec_index()),
    {
        let i = name.index();
        i < self.list.len() && self.list[i]
    }
}

/// The engine's configuration.
#[derive(Clone, Debug)]
pub struct ReshaperConfig {
    /// The language whose letter table is used.
    pub language: Language,
    /// Drop the harakat (diacritics) instead of keeping them.
    pub delete_harakat: bool,
    /// Put each haraka one position earlier, so that it lands right once the
    /// text is reversed.
    pub shift_harakat_position: bool,
    /// Drop the tatweel (U+0640).
    pub delete_tatweel: bool,
    /// Let the zero-width joiner (U+200D) force joins.
    pub support_zwj: bool,
    /// Keep a lone letter as written instead of using its isolated glyph.
    pub use_unshaped_instead_of_isolated: bool,
    /// Substitute ligatures at all; when off, the enable set is ignored.
    pub support_ligatures: bool,
    /// Which ligatures are substituted when `support_ligatures` is on.
    pub ligatures: Ligatures,
}

/// The default configuration.
pub open spec fn default_config(c: ReshaperConfig) -> bool {
    &&& c.language is Arabic
    &&& c.delete_harakat
    &&& !c.shift_harakat_position
    &&& !c.delete_tatweel
    &&& c.support_zwj
    &&& !c.use_unshaped_instead_of_isolated
    &&& c.support_ligatures
    &&& c.ligatures.list@ == default_ligature_list()
}

impl Default for ReshaperConfig {
    fn default() -> (r: Self)
        ensures
            default_config(r),
    {
        ReshaperConfig {
            language: Language::Arabic,
            delete_harakat: true,
            shift_harakat_position: false,
            delete_tatweel: false,
            support_zwj: true,
            use_unshaped_instead_of_isolated: false,
            support_ligatures: true,
            ligatures: Ligatures::default(),
        }
    }
}

impl ReshaperConfig {
    /// The configuration can drive the engine: a custom letter table is
    /// well-formed (the built-in ones are).
    pub open spec fn wf(&self) -> bool {
        match self.language {
            Language::Custom(t) => table_wf(t@),
            _ => true,
        }
    }

    /// Whether the configuration can drive an engine (see `wf`).
    pub fn is_usable(&self) -> (r: bool)
        ensures
            r == self.wf(),
    {
        match &self.language {
            Language::Custom(t) => {
                let mut i: usize = 0;
                while i < t.len()
                    invariant
                        i <= t@.len(),
                        self.wf() == table_wf(t@),
                        forall|j: int| 0 <= j < i ==> (#[trigger] t@[j]).1.wf(),
                    decreases t@.len() - i,
                {
                    let f = t[i].1;
                    if f.isolated == '\0' || (f.medial != '\0' && (f.initial == '\0' || f.end == '\0')) {
                        assert(!t@[i as int].1.wf());
                        return false;
                    }
                    i += 1;
                }
                true
            },
            _ => true,
        }
    }

    /// A configuration for `language` with the ligatures that `ligatures_flags`
    /// selects; ligatures are supported iff one of the three groups is on.
    pub fn new(language: Language, ligatures_flags: LigaturesFlags) -> (r: Self)
        ensures
            r.language == language,
            r.delete_harakat,
            !r.shift_harakat_position,
            !r.delete_tatweel,
            r.support_zwj,
            !r.use_unshaped_instead_of_isolated,
            r.support_ligatures == !ligatures_flags.spec_is_none_enabled(),
            r.ligatures.list@ == flags_ligature_list(ligatures_flags),
    {
        let mut ligatures = if ligatures_flags.default_ligatures {
            Ligatures::default()
        } else {
            Ligatures::empty()
        };
        let ghost start = ligatures.list@;
        let none = ligatures_flags.is_none_enabled();
        let mut i: usize = 0;
        while i < LIGATURES_LEN
            invariant
                i <= LIGATURES_LEN,
                ligatures.list@.len() == LIGATURES_LEN,
                start.len() == LIGATURES_LEN,
                none == ligatures_flags.spec_is_none_enabled(),
                forall|j: int| 0 <= j < LIGATURES_LEN ==> #[trigger] start[j] == (ligatures_flags.default_ligatures && is_default_ligature(j)),
                forall|j: int| 0 <= j < LIGATURES_LEN ==> #[trigger] ligatures.list@[j] == if j < i { flags_ligature_list(ligatures_flags)[j] } else { start[j] },
            decreases LIGATURES_LEN - i,
        {
            let in_group = (ligatures_flags.sentences_ligatures && SENTENCES_LIGATURES_START <= i && i < SENTENCES_LIGATURES_END)
                || (ligatures_flags.words_ligatures && WORDS_LIGATURES_START <= i && i < WORDS_LIGATURES_END)
                || (ligatures_flags.letters_ligatures && LETTERS_LIGATURES_START <= i && i < LETTERS_LIGATURES_END);
            if !none && in_group {
                ligatures.list.set(i, true);
            }
            assert(ligatures.list@[i as int] == flags_ligature_list(ligatures_flags)[i as int]);
            i += 1;
        }
        assert(ligatures.list@ =~= flags_ligature_list(ligatures_flags));
        ReshaperConfig {
            language,
            delete_harakat: true,
            shift_harakat_position: false,
            delete_tatweel: false,
            support_zwj: true,
            use_unshaped_instead_of_isolated: false,
            support_ligatures: !none,
            ligatures,
        }
    }

    /// An engine that uses this configuration.
    pub fn to_reshaper(self) -> (r: ArabicReshaper)
        requires
            self.wf(),
        ensures
            r.wf(),
            r.spec_config() == self,
    {
        ArabicReshaper::new(self)
    }

    /// Enable or disable one ligature; ligatures are then supported iff at
    /// least one is enabled.
    pub fn update_ligature(&mut self, name: LigatureNames, enable: bool)
        ensures
            final(self).language == old(self).language,
            final(self).delete_harakat == old(self).delete_harakat,
            final(self).shift_harakat_position == old(self).shift_harakat_position,
            final(self).delete_tatweel == old(self).delete_tatweel,
            final(self).support_zwj == old(self).support_zwj,
            final(self).use_unshaped_instead_of_isolated == old(self).use_unshaped_instead_of_isolated,
            final(self).ligatures.list@.len() == if old(self).ligatures.list@.len() > name.spec_index() {
                old(self).ligatures.list@.len() as int
            } else {
                name.spec_index() + 1
            },
            forall|i: int| 0 <= i < final(self).ligatures.list@.len() ==> #[trigger] final(self).ligatures.list@[i] == if i == name.spec_index() {
                enable
            } else {
                is_enabled(old(self).ligatures.list@, i)
            },
            final(self).support_ligatures == any_enabled(final(self).ligatures.list@),
    {
        let idx = name.index();
        while self.ligatures.list.len() <= idx
            invariant
                idx < LIGATURES_LEN,
                self.language == old(self).language,
                self.delete_harakat == old(self).delete_harakat,
                self.shift_harakat_position == old(self).shift_harakat_position,
                self.delete_tatweel == old(self).delete_tatweel,
                self.support_zwj == old(self).support_zwj,
                self.use_unshaped_instead_of_isolated == old(self).use_unshaped_instead_of_isolated,
                old(self).ligatures.list@.len() > idx ==> self.ligatures.list@.len() == old(self).ligatures.list@.len(),
                old(self).ligatures.list@.len() <= idx ==> old(self).ligatures.list@.len() <= self.ligatures.list@.len() <= idx + 1,
                forall|i: int| 0 <= i < self.ligatures.list@.len() ==> #[trigger] self.ligatures.list@[i] == is_enabled(old(self).ligatures.list@, i),
            decreases idx + 1 - self.ligatures.list@.len(),
        {
            self.ligatures.list.push(false);
        }
        self.ligatures.list.set(idx, enable);
        self.support_ligatures = self.ligatures.is_any_enabled();
    }
}

} // verus!
