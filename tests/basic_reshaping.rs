use ar_reshaper::{config::LigaturesFlags, ArabicReshaper, Language, ReshaperConfig};

fn reshaper() -> ArabicReshaper {
    ArabicReshaper::new(ReshaperConfig::new(
        Language::Arabic,
        LigaturesFlags::default(),
    ))
}

#[test]
fn need_reshape() {
    let cases = [
        ("سلام", true),
        ("خوبی؟", true),
        ("Yeah, Im good", false),
        ("How about you?", false),
    ];

    for (text, neeed_reshape) in cases {
        assert_eq!(reshaper().need_reshape(text), neeed_reshape);
    }
}

#[test]
fn basic_reshaping_default_reshaping() {
    let cases = [
        ("چۆمان", "ﭼﯚﻣﺎﻥ"),
        ("گۆیژە", "ﮔﯚﯾﮋە"),
        ("ﺧﯚﻣﺎﻥ ﺧﯚﺵ", "ﺧﯚﻣﺎﻥ ﺧﯚﺵ"),
    ];

    for (before, after) in cases {
        assert_eq!(reshaper().reshape(before), after);
    }
}

#[test]
fn reshaping_03_default_reshaping() {
    let reshaper = ArabicReshaper::default();

    let cases = [
        ("چۆمان", "ﭼﯚﻣﺎﻥ"),
        ("گۆیژە", "ﮔﯚﯾﮋە"),
        ("ﺧﯚﻣﺎﻥ ﺧﯚﺵ", "ﺧﯚﻣﺎﻥ ﺧﯚﺵ"),
    ];

    for (before, after) in cases {
        assert_eq!(reshaper.reshape(before), after);
    }
}
