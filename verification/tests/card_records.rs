//! The record types of a card.

use scanner_bot::card::{CardLegalities, LegalityState, RelatedObject};

#[test]
fn legalities_hold_one_state_per_format() {
    let mut legal = CardLegalities {
        standard: LegalityState::NotLegal,
        future: LegalityState::NotLegal,
        historic: LegalityState::Legal,
        timeless: LegalityState::Legal,
        gladiator: LegalityState::Legal,
        pioneer: LegalityState::NotLegal,
        modern: LegalityState::NotLegal,
        legacy: LegalityState::Banned,
        pauper: LegalityState::NotLegal,
        vintage: LegalityState::Restricted,
        penny: LegalityState::NotLegal,
        commander: LegalityState::Legal,
        oathbreaker: LegalityState::Legal,
        standardbrawl: LegalityState::NotLegal,
        brawl: LegalityState::Legal,
        alchemy: LegalityState::NotLegal,
        paupercommander: LegalityState::NotLegal,
        duel: LegalityState::Legal,
        oldschool: LegalityState::NotLegal,
        premodern: LegalityState::NotLegal,
        predh: LegalityState::Legal,
    };
    let copy = legal;
    assert_eq!(copy, legal);
    legal.vintage = LegalityState::Legal;
    assert_ne!(copy, legal);
    assert_eq!(copy.vintage, LegalityState::Restricted);
    assert_eq!(legal.legacy, LegalityState::Banned);
}

#[test]
fn related_object_keeps_its_fields() {
    let part = RelatedObject {
        id: "b6a6f2d2-0b4f-4d6e-9d9c-1c2b3a4d5e6f".to_string(),
        object: "related_card".to_string(),
        component: "token".to_string(),
        name: "Soldier".to_string(),
        type_line: "Token Creature — Soldier".to_string(),
        uri: "https://api.scryfall.com/cards/b6a6f2d2".to_string(),
    };
    assert_eq!(part.component, "token");
    assert_eq!(part.type_line, "Token Creature — Soldier");
}
