//! Decoding of the enumerated card fields from their wire names.

use scanner_bot::card::{
    CardBorderColor, CardColor, CardFinishes, CardFrameEffect, CardLang, CardLayout,
    LegalityState,
};

#[test]
fn card_frame_effect_reads_every_name() {
    let cases = [
        ("legendary", CardFrameEffect::Legendary),
        ("miracle", CardFrameEffect::Miracle),
        ("enchantment", CardFrameEffect::Enchantment),
        ("draft", CardFrameEffect::Draft),
        ("devoid", CardFrameEffect::Devoid),
        ("tombstone", CardFrameEffect::Tombstone),
        ("colorshifted", CardFrameEffect::Colorshifted),
        ("inverted", CardFrameEffect::Inverted),
        ("sunmoondfc", CardFrameEffect::SunMoonDFC),
        ("compasslanddfc", CardFrameEffect::CompassLandDFC),
        ("originpwdfc", CardFrameEffect::OriginPwDFC),
        ("mooneldrazidfc", CardFrameEffect::MoonEldraziDFC),
        ("waxingandwaningmoondfc", CardFrameEffect::WaxingAndWaningMoonDFC),
        ("showcase", CardFrameEffect::Showcase),
        ("extendedart", CardFrameEffect::ExtendedArt),
        ("companion", CardFrameEffect::Companion),
        ("etched", CardFrameEffect::Etched),
        ("snow", CardFrameEffect::Snow),
        ("lesson", CardFrameEffect::Lesson),
        ("shatteredglass", CardFrameEffect::ShatteredGlass),
        ("convertdfc", CardFrameEffect::ConvertDFC),
        ("fandfc", CardFrameEffect::FanDFC),
        ("upsidedowndfc", CardFrameEffect::UpsideDownDFC),
        ("spree", CardFrameEffect::Spree),
    ];
    for (wire, variant) in cases {
        assert_eq!(CardFrameEffect::from_name(wire).unwrap(), variant);
    }
    for (i, (_, a)) in cases.iter().enumerate() {
        for (_, b) in cases.iter().skip(i + 1) {
            assert_ne!(a, b);
        }
    }
}

#[test]
fn card_frame_effect_refuses_other_names() {
    let err = CardFrameEffect::from_name("LEGENDARY").unwrap_err();
    assert_eq!(err.found, "LEGENDARY");
    assert_eq!(err.expected, "any valid frame effect name");
    let err = CardFrameEffect::from_name("").unwrap_err();
    assert_eq!(err.found, "");
    assert_eq!(err.expected, "any valid frame effect name");
    let err = CardFrameEffect::from_name("legendary ").unwrap_err();
    assert_eq!(err.found, "legendary ");
    assert_eq!(err.expected, "any valid frame effect name");
    let err = CardFrameEffect::from_name(" legendary").unwrap_err();
    assert_eq!(err.found, " legendary");
    assert_eq!(err.expected, "any valid frame effect name");
    let err = CardFrameEffect::from_name("legendary,").unwrap_err();
    assert_eq!(err.found, "legendary,");
    assert_eq!(err.expected, "any valid frame effect name");
    let err = CardFrameEffect::from_name("unknown").unwrap_err();
    assert_eq!(err.found, "unknown");
    assert_eq!(err.expected, "any valid frame effect name");
}

#[test]
fn card_finishes_reads_every_name() {
    let cases = [
        ("foil", CardFinishes::Foil),
        ("nonfoil", CardFinishes::Nonfoil),
        ("etched", CardFinishes::Etched),
    ];
    for (wire, variant) in cases {
        assert_eq!(CardFinishes::from_name(wire).unwrap(), variant);
    }
    for (i, (_, a)) in cases.iter().enumerate() {
        for (_, b) in cases.iter().skip(i + 1) {
            assert_ne!(a, b);
        }
    }
}

#[test]
fn card_finishes_refuses_other_names() {
    let err = CardFinishes::from_name("FOIL").unwrap_err();
    assert_eq!(err.found, "FOIL");
    assert_eq!(err.expected, "Foil, Nonfoil, or Etched");
    let err = CardFinishes::from_name("").unwrap_err();
    assert_eq!(err.found, "");
    assert_eq!(err.expected, "Foil, Nonfoil, or Etched");
    let err = CardFinishes::from_name("foil ").unwrap_err();
    assert_eq!(err.found, "foil ");
    assert_eq!(err.expected, "Foil, Nonfoil, or Etched");
    let err = CardFinishes::from_name(" foil").unwrap_err();
    assert_eq!(err.found, " foil");
    assert_eq!(err.expected, "Foil, Nonfoil, or Etched");
    let err = CardFinishes::from_name("foil,").unwrap_err();
    assert_eq!(err.found, "foil,");
    assert_eq!(err.expected, "Foil, Nonfoil, or Etched");
    let err = CardFinishes::from_name("unknown").unwrap_err();
    assert_eq!(err.found, "unknown");
    assert_eq!(err.expected, "Foil, Nonfoil, or Etched");
}

#[test]
fn card_border_color_reads_every_name() {
    let cases = [
        ("black", CardBorderColor::Black),
        ("white", CardBorderColor::White),
        ("borderless", CardBorderColor::Borderless),
        ("yellow", CardBorderColor::Yellow),
        ("silver", CardBorderColor::Silver),
        ("gold", CardBorderColor::Gold),
    ];
    for (wire, variant) in cases {
        assert_eq!(CardBorderColor::from_name(wire).unwrap(), variant);
    }
    for (i, (_, a)) in cases.iter().enumerate() {
        for (_, b) in cases.iter().skip(i + 1) {
            assert_ne!(a, b);
        }
    }
}

#[test]
fn card_border_color_refuses_other_names() {
    let err = CardBorderColor::from_name("BLACK").unwrap_err();
    assert_eq!(err.found, "BLACK");
    assert_eq!(err.expected, "Any valid border color");
    let err = CardBorderColor::from_name("").unwrap_err();
    assert_eq!(err.found, "");
    assert_eq!(err.expected, "Any valid border color");
    let err = CardBorderColor::from_name("black ").unwrap_err();
    assert_eq!(err.found, "black ");
    assert_eq!(err.expected, "Any valid border color");
    let err = CardBorderColor::from_name(" black").unwrap_err();
    assert_eq!(err.found, " black");
    assert_eq!(err.expected, "Any valid border color");
    let err = CardBorderColor::from_name("black,").unwrap_err();
    assert_eq!(err.found, "black,");
    assert_eq!(err.expected, "Any valid border color");
    let err = CardBorderColor::from_name("unknown").unwrap_err();
    assert_eq!(err.found, "unknown");
    assert_eq!(err.expected, "Any valid border color");
}

#[test]
fn legality_state_reads_every_name() {
    let cases = [
        ("legal", LegalityState::Legal),
        ("not_legal", LegalityState::NotLegal),
        ("banned", LegalityState::Banned),
        ("restricted", LegalityState::Restricted),
    ];
    for (wire, variant) in cases {
        assert_eq!(LegalityState::from_name(wire).unwrap(), variant);
    }
    for (i, (_, a)) in cases.iter().enumerate() {
        for (_, b) in cases.iter().skip(i + 1) {
            assert_ne!(a, b);
        }
    }
}

#[test]
fn legality_state_refuses_other_names() {
    let err = LegalityState::from_name("LEGAL").unwrap_err();
    assert_eq!(err.found, "LEGAL");
    assert_eq!(err.expected, "any valid legality");
    let err = LegalityState::from_name("").unwrap_err();
    assert_eq!(err.found, "");
    assert_eq!(err.expected, "any valid legality");
    let err = LegalityState::from_name("legal ").unwrap_err();
    assert_eq!(err.found, "legal ");
    assert_eq!(err.expected, "any valid legality");
    let err = LegalityState::from_name(" legal").unwrap_err();
    assert_eq!(err.found, " legal");
    assert_eq!(err.expected, "any valid legality");
    let err = LegalityState::from_name("legal,").unwrap_err();
    assert_eq!(err.found, "legal,");
    assert_eq!(err.expected, "any valid legality");
    let err = LegalityState::from_name("unknown").unwrap_err();
    assert_eq!(err.found, "unknown");
    assert_eq!(err.expected, "any valid legality");
}

#[test]
fn card_color_reads_every_name() {
    let cases = [
        ("W", CardColor::W),
        ("U", CardColor::U),
        ("B", CardColor::B),
        ("R", CardColor::R),
        ("G", CardColor::G),
    ];
    for (wire, variant) in cases {
        assert_eq!(CardColor::from_name(wire).unwrap(), variant);
    }
    for (i, (_, a)) in cases.iter().enumerate() {
        for (_, b) in cases.iter().skip(i + 1) {
            assert_ne!(a, b);
        }
    }
}

#[test]
fn card_color_refuses_other_names() {
    let err = CardColor::from_name("w").unwrap_err();
    assert_eq!(err.found, "w");
    assert_eq!(err.expected, "W, U, B, R, or G");
    let err = CardColor::from_name("").unwrap_err();
    assert_eq!(err.found, "");
    assert_eq!(err.expected, "W, U, B, R, or G");
    let err = CardColor::from_name("W ").unwrap_err();
    assert_eq!(err.found, "W ");
    assert_eq!(err.expected, "W, U, B, R, or G");
    let err = CardColor::from_name(" W").unwrap_err();
    assert_eq!(err.found, " W");
    assert_eq!(err.expected, "W, U, B, R, or G");
    let err = CardColor::from_name("W,").unwrap_err();
    assert_eq!(err.found, "W,");
    assert_eq!(err.expected, "W, U, B, R, or G");
    let err = CardColor::from_name("unknown").unwrap_err();
    assert_eq!(err.found, "unknown");
    assert_eq!(err.expected, "W, U, B, R, or G");
}

#[test]
fn card_lang_reads_every_name() {
    let cases = [
        ("en", CardLang::En),
        ("es", CardLang::Es),
        ("fr", CardLang::Fr),
        ("de", CardLang::De),
        ("it", CardLang::It),
        ("pt", CardLang::Pt),
        ("ja", CardLang::Ja),
        ("ko", CardLang::Ko),
        ("ru", CardLang::Ru),
        ("zhs", CardLang::Zhs),
        ("zht", CardLang::Zht),
        ("he", CardLang::He),
        ("la", CardLang::La),
        ("grc", CardLang::Grc),
        ("ar", CardLang::Ar),
        ("sa", CardLang::Sa),
        ("ph", CardLang::Ph),
        ("qya", CardLang::Qya),
    ];
    for (wire, variant) in cases {
        assert_eq!(CardLang::from_name(wire).unwrap(), variant);
    }
    for (i, (_, a)) in cases.iter().enumerate() {
        for (_, b) in cases.iter().skip(i + 1) {
            assert_ne!(a, b);
        }
    }
}

#[test]
fn card_lang_refuses_other_names() {
    let err = CardLang::from_name("EN").unwrap_err();
    assert_eq!(err.found, "EN");
    assert_eq!(err.expected, "Any valid lang");
    let err = CardLang::from_name("").unwrap_err();
    assert_eq!(err.found, "");
    assert_eq!(err.expected, "Any valid lang");
    let err = CardLang::from_name("en ").unwrap_err();
    assert_eq!(err.found, "en ");
    assert_eq!(err.expected, "Any valid lang");
    let err = CardLang::from_name(" en").unwrap_err();
    assert_eq!(err.found, " en");
    assert_eq!(err.expected, "Any valid lang");
    let err = CardLang::from_name("en,").unwrap_err();
    assert_eq!(err.found, "en,");
    assert_eq!(err.expected, "Any valid lang");
    let err = CardLang::from_name("unknown").unwrap_err();
    assert_eq!(err.found, "unknown");
    assert_eq!(err.expected, "Any valid lang");
}

#[test]
fn card_layout_reads_every_name() {
    let cases = [
        ("normal", CardLayout::Normal),
        ("split", CardLayout::Split),
        ("flip", CardLayout::Flip),
        ("transform", CardLayout::Transform),
        ("modal_dfc", CardLayout::ModalDFC),
        ("meld", CardLayout::Meld),
        ("leveler", CardLayout::Leveler),
        ("class", CardLayout::Class),
        ("case", CardLayout::Case),
        ("saga", CardLayout::Saga),
        ("adventure", CardLayout::Adventure),
        ("mutate", CardLayout::Mutate),
        ("prototype", CardLayout::Prototype),
        ("battle", CardLayout::Battle),
        ("planar", CardLayout::Planar),
        ("scheme", CardLayout::Scheme),
        ("vanguard", CardLayout::Vanguard),
        ("token", CardLayout::Token),
        ("double_faced_token", CardLayout::DoubleFacedToken),
        ("emblem", CardLayout::Emblem),
        ("augment", CardLayout::Augment),
        ("host", CardLayout::Host),
        ("art_series", CardLayout::ArtSeries),
        ("reversible_card", CardLayout::ReversibleCard),
    ];
    for (wire, variant) in cases {
        assert_eq!(CardLayout::from_name(wire).unwrap(), variant);
    }
    for (i, (_, a)) in cases.iter().enumerate() {
        for (_, b) in cases.iter().skip(i + 1) {
            assert_ne!(a, b);
        }
    }
}

#[test]
fn card_layout_refuses_other_names() {
    let err = CardLayout::from_name("NORMAL").unwrap_err();
    assert_eq!(err.found, "NORMAL");
    assert_eq!(err.expected, "Any valid card layout");
    let err = CardLayout::from_name("").unwrap_err();
    assert_eq!(err.found, "");
    assert_eq!(err.expected, "Any valid card layout");
    let err = CardLayout::from_name("normal ").unwrap_err();
    assert_eq!(err.found, "normal ");
    assert_eq!(err.expected, "Any valid card layout");
    let err = CardLayout::from_name(" normal").unwrap_err();
    assert_eq!(err.found, " normal");
    assert_eq!(err.expected, "Any valid card layout");
    let err = CardLayout::from_name("normal,").unwrap_err();
    assert_eq!(err.found, "normal,");
    assert_eq!(err.expected, "Any valid card layout");
    let err = CardLayout::from_name("unknown").unwrap_err();
    assert_eq!(err.found, "unknown");
    assert_eq!(err.expected, "Any valid card layout");
}

#[test]
fn names_belong_to_their_own_field() {
    assert_eq!(CardFinishes::from_name("etched").unwrap(), CardFinishes::Etched);
    assert_eq!(CardFrameEffect::from_name("etched").unwrap(), CardFrameEffect::Etched);
    assert_eq!(CardFinishes::from_name("legendary").unwrap_err().found, "legendary");
    assert_eq!(CardLayout::from_name("not_legal").unwrap_err().expected, "Any valid card layout");
    assert_eq!(LegalityState::from_name("normal").unwrap_err().expected, "any valid legality");
    assert_eq!(CardColor::from_name("C").unwrap_err().found, "C");
    assert_eq!(CardLang::from_name("EN").unwrap_err().found, "EN");
}

#[test]
fn names_with_other_letters_are_refused() {
    assert!(CardLang::from_name("zh").is_err());
    assert!(CardLayout::from_name("modal-dfc").is_err());
    assert!(CardLayout::from_name("modaldfc").is_err());
    assert!(CardBorderColor::from_name("Black").is_err());
    assert!(LegalityState::from_name("notlegal").is_err());
    assert!(CardFrameEffect::from_name("légendary").is_err());
}
