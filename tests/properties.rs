use ar_reshaper::config::{LigaturesFlags, Ligatures};
use ar_reshaper::letters::letters_db::{letters_arabic, TATWEEL, ZWJ};
use ar_reshaper::ligatures::{LigatureNames, LIGATURES_LEN};
use ar_reshaper::reshape_line;
use ar_reshaper::{ArabicReshaper, Language, ReshaperConfig};

const ALLAH: &str = "\u{0627}\u{0644}\u{0644}\u{0647}";

#[test]
fn empty_text_gives_empty_output() {
    let reshaper = ArabicReshaper::default();
    assert_eq!(reshaper.reshape(""), "");
    let all = ArabicReshaper::new(ReshaperConfig::new(Language::Kurdish, LigaturesFlags::all()));
    assert_eq!(all.reshape(""), "");
}

#[test]
fn text_without_letters_is_unchanged() {
    let reshaper = ArabicReshaper::default();
    for text in ["Hello, world!", "123 - 456", "\u{00e9}t\u{00e9}", " "] {
        assert_eq!(reshaper.reshape(text), text);
        assert!(!reshaper.need_reshape(text));
    }
}

#[test]
fn need_reshape_finds_one_letter() {
    let reshaper = ArabicReshaper::default();
    assert!(reshaper.need_reshape("abc \u{0628} def"));
    assert!(!reshaper.need_reshape(""));
    assert!(!reshaper.need_reshape("\u{064E}"));
}

#[test]
fn same_config_same_output() {
    let a = ArabicReshaper::default();
    let b = ArabicReshaper::new(ReshaperConfig::default());
    let text = "\u{0627}\u{0644}\u{0633}\u{0644}\u{0627}\u{0645} \u{0639}\u{0644}\u{064A}\u{0643}\u{0645}";
    assert_eq!(a.reshape(text), b.reshape(text));
    assert_eq!(a.reshape(text), a.reshape(text));
}

#[test]
fn longer_ligature_wins_over_shorter_ones() {
    let all = ArabicReshaper::new(ReshaperConfig::new(Language::Arabic, LigaturesFlags::all()));
    assert_eq!(all.reshape(ALLAH), "\u{FDF2}");
    let bismillah = "\u{0628}\u{0633}\u{0645} \u{0627}\u{0644}\u{0644}\u{0647} \u{0627}\u{0644}\u{0631}\u{062D}\u{0645}\u{0646} \u{0627}\u{0644}\u{0631}\u{062D}\u{064A}\u{0645}";
    assert_eq!(all.reshape(bismillah), "\u{FDFD}");
}

#[test]
fn allah_without_ligatures_is_shaped_letter_by_letter() {
    let config = ReshaperConfig {
        support_ligatures: false,
        ..Default::default()
    };
    let plain = ArabicReshaper::new(config).reshape(ALLAH);
    assert_eq!(plain, "\u{FE8D}\u{FEDF}\u{FEE0}\u{FEEA}");
    let with_ligature = ArabicReshaper::default().reshape(ALLAH);
    assert_eq!(with_ligature, "\u{FDF2}");
    assert_ne!(plain, with_ligature);
}

#[test]
fn language_switch_changes_the_table() {
    let mut reshaper = ArabicReshaper::default();
    assert_eq!(reshaper.reshape("\u{0628}"), "\u{FE8F}");
    reshaper.modify_config(|c| {
        c.language = Language::Kurdish;
    });
    assert_eq!(reshaper.reshape("\u{0628}"), "\u{0628}");
    reshaper.modify_config(|c| {
        c.language = Language::Arabic;
    });
    assert_eq!(reshaper.reshape("\u{0628}"), "\u{FE8F}");
}

#[test]
fn custom_language_uses_its_own_table() {
    let beh = letters_arabic().into_iter().find(|(k, _)| *k == '\u{0628}').unwrap();
    let config = ReshaperConfig {
        language: Language::Custom(vec![beh]),
        ..Default::default()
    };
    let reshaper = ArabicReshaper::new(config);
    assert_eq!(reshaper.reshape("\u{0628}\u{0628}"), "\u{FE91}\u{FE90}");
    // ALEF is not in this table: it passes through and breaks the join.
    assert_eq!(reshaper.reshape("\u{0628}\u{0627}\u{0628}"), "\u{FE8F}\u{0627}\u{FE8F}");
}

#[test]
fn unshaped_instead_of_isolated_keeps_lone_letters() {
    let config = ReshaperConfig {
        use_unshaped_instead_of_isolated: true,
        ..Default::default()
    };
    let reshaper = ArabicReshaper::new(config);
    assert_eq!(reshaper.reshape("\u{0628} \u{0628}\u{0628}"), "\u{0628} \u{FE91}\u{FE90}");
}

#[test]
fn tatweel_is_kept_or_deleted() {
    let text = format!("\u{0628}{TATWEEL}\u{0628}");
    let keep = ArabicReshaper::default();
    assert_eq!(keep.reshape(&text), "\u{FE91}\u{0640}\u{FE90}");
    let config = ReshaperConfig {
        delete_tatweel: true,
        ..Default::default()
    };
    let delete = ArabicReshaper::new(config);
    assert_eq!(delete.reshape(&text), "\u{FE91}\u{FE90}");
}

#[test]
fn joiner_is_dropped_when_unsupported() {
    let config = ReshaperConfig {
        support_zwj: false,
        ..Default::default()
    };
    let reshaper = ArabicReshaper::new(config);
    assert_eq!(reshaper.reshape(&format!("{ZWJ}\u{0628}")), "\u{FE8F}");
}

#[test]
fn harakat_are_dropped_by_default_and_kept_on_request() {
    let text = "\u{0628}\u{064E}";
    assert_eq!(ArabicReshaper::default().reshape(text), "\u{FE8F}");
    let config = ReshaperConfig {
        delete_harakat: false,
        ..Default::default()
    };
    assert_eq!(ArabicReshaper::new(config).reshape(text), "\u{FE8F}\u{064E}");
}

#[test]
fn leading_haraka_comes_first() {
    let config = ReshaperConfig {
        delete_harakat: false,
        ..Default::default()
    };
    let reshaper = ArabicReshaper::new(config);
    assert_eq!(reshaper.reshape("\u{064E}\u{0628}"), "\u{064E}\u{FE8F}");
    let shifted = ReshaperConfig {
        delete_harakat: false,
        shift_harakat_position: true,
        ..Default::default()
    };
    // Shifted past the start of the text, the haraka has nowhere to go.
    assert_eq!(ArabicReshaper::new(shifted).reshape("\u{064E}\u{0628}"), "\u{FE8F}");
}

#[test]
fn reshape_lines_keeps_order() {
    let reshaper = ArabicReshaper::default();
    let out = reshaper.reshape_lines(&["\u{0628}", "", "x", ALLAH]);
    assert_eq!(out, vec!["\u{FE8F}".to_string(), String::new(), "x".to_string(), "\u{FDF2}".to_string()]);
}

#[test]
fn reshape_line_uses_the_default_configuration() {
    assert_eq!(reshape_line(ALLAH), "\u{FDF2}");
    assert_eq!(reshape_line("\u{0644}\u{0627}"), "\u{FEFB}");
}

#[test]
fn default_flags_enable_no_group() {
    let config = ReshaperConfig::new(Language::Arabic, LigaturesFlags::default());
    assert!(!config.support_ligatures);
    assert!(config.ligatures.is_ligature_enabled(LigatureNames::ARABIC_LIGATURE_ALLAH));
    assert!(!config.ligatures.is_ligature_enabled(LigatureNames::ARABIC_LIGATURE_AKBAR));
    assert!(LigaturesFlags::default().is_none_enabled());
    assert!(!LigaturesFlags::all().is_none_enabled());
    assert!(LigaturesFlags::none().is_none_enabled());
}

#[test]
fn group_flags_enable_their_ranges() {
    let flags = LigaturesFlags {
        default_ligatures: false,
        sentences_ligatures: false,
        words_ligatures: true,
        letters_ligatures: false,
    };
    let config = ReshaperConfig::new(Language::Arabic, flags);
    assert!(config.support_ligatures);
    assert_eq!(config.ligatures.list.len(), LIGATURES_LEN);
    let enabled: Vec<usize> = (0..LIGATURES_LEN).filter(|i| config.ligatures.list[*i]).collect();
    assert_eq!(enabled, (3..12).collect::<Vec<usize>>());
}

#[test]
fn update_ligature_sets_one_flag() {
    let mut config = ReshaperConfig::new(Language::Arabic, LigaturesFlags::none());
    assert!(!config.support_ligatures);
    config.update_ligature(LigatureNames::ARABIC_LIGATURE_ALLAH, true);
    assert!(config.support_ligatures);
    assert!(config.ligatures.is_ligature_enabled(LigatureNames::ARABIC_LIGATURE_ALLAH));
    config.update_ligature(LigatureNames::ARABIC_LIGATURE_ALLAH, false);
    assert!(!config.support_ligatures);
    let mut short = ReshaperConfig::default();
    short.ligatures = Ligatures { list: Vec::new() };
    short.update_ligature(LigatureNames::ARABIC_LIGATURE_AKBAR, true);
    assert_eq!(short.ligatures.list.len(), LigatureNames::ARABIC_LIGATURE_AKBAR.index() + 1);
    assert!(short.support_ligatures);
}

#[test]
fn default_ligatures_are_the_five_named_ones() {
    let list = Ligatures::default().list;
    assert_eq!(list.len(), LIGATURES_LEN);
    assert_eq!(list.iter().filter(|b| **b).count(), 5);
    assert!(!Ligatures::empty().is_any_enabled());
    assert!(Ligatures::default().is_any_enabled());
}

#[test]
fn language_names() {
    assert_eq!(Language::Arabic.name(), "Arabic");
    assert_eq!(Language::ArabicV2.name(), "ArabicV2");
    assert_eq!(Language::Kurdish.name(), "Kurdish");
    assert_eq!(Language::Custom(Vec::new()).name(), "Custom");
}

#[test]
fn lam_alef_ligature_takes_its_final_form_after_a_joining_letter() {
    // BEH + LAM + ALEF: the ligature follows a joining letter.
    assert_eq!(reshape_line("\u{0628}\u{0644}\u{0627}"), "\u{FE91}\u{FEFC}");
}

#[test]
fn text_without_letters_keeps_its_harakat_in_place() {
    let config = ReshaperConfig {
        delete_harakat: false,
        ..Default::default()
    };
    let reshaper = ArabicReshaper::new(config);
    let text = "\u{064E}a\u{064F}\u{0650}b c";
    assert_eq!(reshaper.reshape(text), text);
    // Deleted harakat do change such text.
    assert_eq!(ArabicReshaper::default().reshape(text), "ab c");
}

#[test]
fn joiner_does_not_shift_ligatures() {
    // BEH, ZWJ, LAM, ALEF, BEH: the lam-alef ligature covers LAM and ALEF only.
    let reshaper = ArabicReshaper::default();
    assert_eq!(
        reshaper.reshape("\u{0628}\u{200D}\u{0644}\u{0627}\u{0628}"),
        "\u{FE91}\u{FEFC}\u{FE8F}"
    );
}
