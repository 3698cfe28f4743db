use ar_reshaper::config::LigaturesFlags;
use ar_reshaper::letters::letters_db::letters_arabic;
use ar_reshaper::ligatures::{LigatureNames, LIGATURES_LEN};
use ar_reshaper::{Language, ReshaperConfig};

#[test]
fn unreadable_font_is_an_error() {
    let r = ReshaperConfig::from_font(b"not a font", Language::Arabic, LigaturesFlags::all());
    assert_eq!(r.err(), Some("unknown magic".to_string()));
}

#[test]
fn font_without_character_map_disables_ligatures() {
    let c = ReshaperConfig::from_coverage(Language::Arabic, LigaturesFlags::all(), None);
    assert!(c.use_unshaped_instead_of_isolated);
    assert!(c.support_ligatures);
    assert_eq!(c.ligatures.list, vec![false; LIGATURES_LEN]);
}

#[test]
fn missing_isolated_glyph_means_unshaped() {
    let c = ReshaperConfig::from_coverage(Language::Arabic, LigaturesFlags::default(), Some(&Vec::new()));
    assert!(c.use_unshaped_instead_of_isolated);
    assert!(!c.support_ligatures);
    assert!(c.ligatures.is_ligature_enabled(LigatureNames::ARABIC_LIGATURE_ALLAH));
    assert_eq!(c.ligatures.list.iter().filter(|b| **b).count(), 5);
}

#[test]
fn covered_font_keeps_isolated_glyphs_and_its_ligatures() {
    let mut covered: Vec<char> = letters_arabic().iter().map(|(_, f)| f.isolated).collect();
    covered.push('\u{FDF2}');
    let flags = LigaturesFlags {
        default_ligatures: false,
        sentences_ligatures: false,
        words_ligatures: true,
        letters_ligatures: false,
    };
    let c = ReshaperConfig::from_coverage(Language::Arabic, flags, Some(&covered));
    assert!(!c.use_unshaped_instead_of_isolated);
    assert!(c.support_ligatures);
    assert!(c.ligatures.is_ligature_enabled(LigatureNames::ARABIC_LIGATURE_ALLAH));
    assert!(!c.ligatures.is_ligature_enabled(LigatureNames::ARABIC_LIGATURE_AKBAR));
    // Outside the selected group the defaults stay.
    assert!(c.ligatures.is_ligature_enabled(LigatureNames::ARABIC_LIGATURE_LAM_WITH_ALEF));
    assert!(matches!(c.language, Language::Arabic));
}

#[test]
fn usable_configurations() {
    assert!(ReshaperConfig::default().is_usable());
    let beh = letters_arabic().into_iter().find(|(k, _)| *k == '\u{0628}').unwrap();
    let mut broken = beh;
    broken.1.initial = '\0';
    let good = ReshaperConfig {
        language: Language::Custom(vec![beh]),
        ..Default::default()
    };
    let bad = ReshaperConfig {
        language: Language::Custom(vec![broken]),
        ..Default::default()
    };
    assert!(good.is_usable());
    assert!(!bad.is_usable());
}
