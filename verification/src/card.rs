//! The enumerated fields of a card and their decoding from the names that
//! the bulk data writes.

use vstd::prelude::*;

use crate::text::str_eq;

verus! {

/// A name that no variant of the field's type carries.
#[derive(Debug)]
pub struct InvalidValue {
    /// The name that was read.
    pub found: String,
    /// What the field accepts, in words.
    pub expected: &'static str,
}

/// A frame effect printed on a card.
#[derive(Clone, Copy, Debug, PartialEq, Eq, Structural)]
pub enum CardFrameEffect {
    Legendary,
    Miracle,
    Enchantment,
    Draft,
    Devoid,
    Tombstone,
    Colorshifted,
    Inverted,
    SunMoonDFC,
    CompassLandDFC,
    OriginPwDFC,
    MoonEldraziDFC,
    WaxingAndWaningMoonDFC,
    Showcase,
    ExtendedArt,
    Companion,
    Etched,
    Snow,
    Lesson,
    ShatteredGlass,
    ConvertDFC,
    FanDFC,
    UpsideDownDFC,
    Spree,
}

impl CardFrameEffect {
    /// The name by which the bulk data writes this variant.
    pub open spec fn wire_name(self) -> Seq<char> {
        match self {
            CardFrameEffect::Legendary => "legendary"@,
            CardFrameEffect::Miracle => "miracle"@,
            CardFrameEffect::Enchantment => "enchantment"@,
            CardFrameEffect::Draft => "draft"@,
            CardFrameEffect::Devoid => "devoid"@,
            CardFrameEffect::Tombstone => "tombstone"@,
            CardFrameEffect::Colorshifted => "colorshifted"@,
            CardFrameEffect::Inverted => "inverted"@,
            CardFrameEffect::SunMoonDFC => "sunmoondfc"@,
            CardFrameEffect::CompassLandDFC => "compasslanddfc"@,
            CardFrameEffect::OriginPwDFC => "originpwdfc"@,
            CardFrameEffect::MoonEldraziDFC => "mooneldrazidfc"@,
            CardFrameEffect::WaxingAndWaningMoonDFC => "waxingandwaningmoondfc"@,
            CardFrameEffect::Showcase => "showcase"@,
            CardFrameEffect::ExtendedArt => "extendedart"@,
            CardFrameEffect::Companion => "companion"@,
            CardFrameEffect::Etched => "etched"@,
            CardFrameEffect::Snow => "snow"@,
            CardFrameEffect::Lesson => "lesson"@,
            CardFrameEffect::ShatteredGlass => "shatteredglass"@,
            CardFrameEffect::ConvertDFC => "convertdfc"@,
            CardFrameEffect::FanDFC => "fandfc"@,
            CardFrameEffect::UpsideDownDFC => "upsidedowndfc"@,
            CardFrameEffect::Spree => "spree"@,
        }
    }

    /// What a field of this type accepts, in the words of the error it gives.
    pub open spec fn expected_text() -> Seq<char> {
        "any valid frame effect name"@
    }

    /// The variant whose wire name is `name`, or, where no variant has that
    /// name, an error that carries `name` and what the field accepts.
    pub fn from_name(name: &str) -> (r: Result<CardFrameEffect, InvalidValue>)
        ensures
            match r {
                Ok(v) => name@ == v.wire_name(),
                Err(e) => {
                    &&& forall|v: CardFrameEffect| name@ != #[trigger] v.wire_name()
                    &&& e.found@ == name@
                    &&& e.expected@ == CardFrameEffect::expected_text()
                },
            },
            name@ == "legendary"@ ==> r == Ok::<CardFrameEffect, InvalidValue>(CardFrameEffect::Legendary),
            name@ == "miracle"@ ==> r == Ok::<CardFrameEffect, InvalidValue>(CardFrameEffect::Miracle),
            name@ == "enchantment"@ ==> r == Ok::<CardFrameEffect, InvalidValue>(CardFrameEffect::Enchantment),
            name@ == "draft"@ ==> r == Ok::<CardFrameEffect, InvalidValue>(CardFrameEffect::Draft),
            name@ == "devoid"@ ==> r == Ok::<CardFrameEffect, InvalidValue>(CardFrameEffect::Devoid),
            name@ == "tombstone"@ ==> r == Ok::<CardFrameEffect, InvalidValue>(CardFrameEffect::Tombstone),
            name@ == "colorshifted"@ ==> r == Ok::<CardFrameEffect, InvalidValue>(CardFrameEffect::Colorshifted),
            name@ == "inverted"@ ==> r == Ok::<CardFrameEffect, InvalidValue>(CardFrameEffect::Inverted),
            name@ == "sunmoondfc"@ ==> r == Ok::<CardFrameEffect, InvalidValue>(CardFrameEffect::SunMoonDFC),
            name@ == "compasslanddfc"@ ==> r == Ok::<CardFrameEffect, InvalidValue>(CardFrameEffect::CompassLandDFC),
            name@ == "originpwdfc"@ ==> r == Ok::<CardFrameEffect, InvalidValue>(CardFrameEffect::OriginPwDFC),
            name@ == "mooneldrazidfc"@ ==> r == Ok::<CardFrameEffect, InvalidValue>(CardFrameEffect::MoonEldraziDFC),
            name@ == "waxingandwaningmoondfc"@ ==> r == Ok::<CardFrameEffect, InvalidValue>(CardFrameEffect::WaxingAndWaningMoonDFC),
            name@ == "showcase"@ ==> r == Ok::<CardFrameEffect, InvalidValue>(CardFrameEffect::Showcase),
            name@ == "extendedart"@ ==> r == Ok::<CardFrameEffect, InvalidValue>(CardFrameEffect::ExtendedArt),
            name@ == "companion"@ ==> r == Ok::<CardFrameEffect, InvalidValue>(CardFrameEffect::Companion),
            name@ == "etched"@ ==> r == Ok::<CardFrameEffect, InvalidValue>(CardFrameEffect::Etched),
            name@ == "snow"@ ==> r == Ok::<CardFrameEffect, InvalidValue>(CardFrameEffect::Snow),
            name@ == "lesson"@ ==> r == Ok::<CardFrameEffect, InvalidValue>(CardFrameEffect::Lesson),
            name@ == "shatteredglass"@ ==> r == Ok::<CardFrameEffect, InvalidValue>(CardFrameEffect::ShatteredGlass),
            name@ == "convertdfc"@ ==> r == Ok::<CardFrameEffect, InvalidValue>(CardFrameEffect::ConvertDFC),
            name@ == "fandfc"@ ==> r == Ok::<CardFrameEffect, InvalidValue>(CardFrameEffect::FanDFC),
            name@ == "upsidedowndfc"@ ==> r == Ok::<CardFrameEffect, InvalidValue>(CardFrameEffect::UpsideDownDFC),
            name@ == "spree"@ ==> r == Ok::<CardFrameEffect, InvalidValue>(CardFrameEffect::Spree),
            ({
                &&& name@ != "legendary"@
                &&& name@ != "miracle"@
                &&& name@ != "enchantment"@
                &&& name@ != "draft"@
                &&& name@ != "devoid"@
                &&& name@ != "tombstone"@
                &&& name@ != "colorshifted"@
                &&& name@ != "inverted"@
                &&& name@ != "sunmoondfc"@
                &&& name@ != "compasslanddfc"@
                &&& name@ != "originpwdfc"@
                &&& name@ != "mooneldrazidfc"@
                &&& name@ != "waxingandwaningmoondfc"@
                &&& name@ != "showcase"@
                &&& name@ != "extendedart"@
                &&& name@ != "companion"@
                &&& name@ != "etched"@
                &&& name@ != "snow"@
                &&& name@ != "lesson"@
                &&& name@ != "shatteredglass"@
                &&& name@ != "convertdfc"@
                &&& name@ != "fandfc"@
                &&& name@ != "upsidedowndfc"@
                &&& name@ != "spree"@
            }) ==> (r matches Err(e) && e.found@ == name@ && e.expected@ == "any valid frame effect name"@),
    {
        proof {
            // The names are told apart by length or by one character.
            reveal_strlit("legendary");
            reveal_strlit("miracle");
            reveal_strlit("enchantment");
            reveal_strlit("draft");
            reveal_strlit("devoid");
            reveal_strlit("tombstone");
            reveal_strlit("colorshifted");
            reveal_strlit("inverted");
            reveal_strlit("sunmoondfc");
            reveal_strlit("compasslanddfc");
            reveal_strlit("originpwdfc");
            reveal_strlit("mooneldrazidfc");
            reveal_strlit("waxingandwaningmoondfc");
            reveal_strlit("showcase");
            reveal_strlit("extendedart");
            reveal_strlit("companion");
            reveal_strlit("etched");
            reveal_strlit("snow");
            reveal_strlit("lesson");
            reveal_strlit("shatteredglass");
            reveal_strlit("convertdfc");
            reveal_strlit("fandfc");
            reveal_strlit("upsidedowndfc");
            reveal_strlit("spree");
            assert("legendary"@.len() == 9 && "legendary"@[0] == 'l');
            assert("miracle"@.len() == 7);
            assert("enchantment"@.len() == 11 && "enchantment"@[0] == 'e' && "enchantment"@[1] == 'n');
            assert("draft"@.len() == 5 && "draft"@[0] == 'd');
            assert("devoid"@.len() == 6 && "devoid"@[0] == 'd');
            assert("tombstone"@.len() == 9 && "tombstone"@[0] == 't');
            assert("colorshifted"@.len() == 12);
            assert("inverted"@.len() == 8 && "inverted"@[0] == 'i');
            assert("sunmoondfc"@.len() == 10 && "sunmoondfc"@[0] == 's');
            assert("compasslanddfc"@.len() == 14 && "compasslanddfc"@[0] == 'c');
            assert("originpwdfc"@.len() == 11 && "originpwdfc"@[0] == 'o');
            assert("mooneldrazidfc"@.len() == 14 && "mooneldrazidfc"@[0] == 'm');
            assert("waxingandwaningmoondfc"@.len() == 22);
            assert("showcase"@.len() == 8 && "showcase"@[0] == 's');
            assert("extendedart"@.len() == 11 && "extendedart"@[0] == 'e' && "extendedart"@[1] == 'x');
            assert("companion"@.len() == 9 && "companion"@[0] == 'c');
            assert("etched"@.len() == 6 && "etched"@[0] == 'e');
            assert("snow"@.len() == 4);
            assert("lesson"@.len() == 6 && "lesson"@[0] == 'l');
            assert("shatteredglass"@.len() == 14 && "shatteredglass"@[0] == 's');
            assert("convertdfc"@.len() == 10 && "convertdfc"@[0] == 'c');
            assert("fandfc"@.len() == 6 && "fandfc"@[0] == 'f');
            assert("upsidedowndfc"@.len() == 13);
            assert("spree"@.len() == 5 && "spree"@[0] == 's');
        }
        if str_eq(name, "legendary") {
            Ok(CardFrameEffect::Legendary)
        } else if str_eq(name, "miracle") {
            Ok(CardFrameEffect::Miracle)
        } else if str_eq(name, "enchantment") {
            Ok(CardFrameEffect::Enchantment)
        } else if str_eq(name, "draft") {
            Ok(CardFrameEffect::Draft)
        } else if str_eq(name, "devoid") {
            Ok(CardFrameEffect::Devoid)
        } else if str_eq(name, "tombstone") {
            Ok(CardFrameEffect::Tombstone)
        } else if str_eq(name, "colorshifted") {
            Ok(CardFrameEffect::Colorshifted)
        } else if str_eq(name, "inverted") {
            Ok(CardFrameEffect::Inverted)
        } else if str_eq(name, "sunmoondfc") {
            Ok(CardFrameEffect::SunMoonDFC)
        } else if str_eq(name, "compasslanddfc") {
            Ok(CardFrameEffect::CompassLandDFC)
        } else if str_eq(name, "originpwdfc") {
            Ok(CardFrameEffect::OriginPwDFC)
        } else if str_eq(name, "mooneldrazidfc") {
            Ok(CardFrameEffect::MoonEldraziDFC)
        } else if str_eq(name, "waxingandwaningmoondfc") {
            Ok(CardFrameEffect::WaxingAndWaningMoonDFC)
        } else if str_eq(name, "showcase") {
            Ok(CardFrameEffect::Showcase)
        } else if str_eq(name, "extendedart") {
            Ok(CardFrameEffect::ExtendedArt)
        } else if str_eq(name, "companion") {
            Ok(CardFrameEffect::Companion)
        } else if str_eq(name, "etched") {
            Ok(CardFrameEffect::Etched)
        } else if str_eq(name, "snow") {
            Ok(CardFrameEffect::Snow)
        } else if str_eq(name, "lesson") {
            Ok(CardFrameEffect::Lesson)
        } else if str_eq(name, "shatteredglass") {
            Ok(CardFrameEffect::ShatteredGlass)
        } else if str_eq(name, "convertdfc") {
            Ok(CardFrameEffect::ConvertDFC)
        } else if str_eq(name, "fandfc") {
            Ok(CardFrameEffect::FanDFC)
        } else if str_eq(name, "upsidedowndfc") {
            Ok(CardFrameEffect::UpsideDownDFC)
        } else if str_eq(name, "spree") {
            Ok(CardFrameEffect::Spree)
        } else {
            Err(InvalidValue { found: name.to_owned(), expected: "any valid frame effect name" })
        }
    }

    /// No two variants share a wire name, so a name read back gives the
    /// variant it was written for.
    pub proof fn lemma_wire_names_distinct(a: CardFrameEffect, b: CardFrameEffect)
        ensures
            a.wire_name() == b.wire_name() ==> a == b,
    {
        broadcast use vstd::string::group_string_axioms;

        // Each name differs from every other by its length or by the
        // character at the position given for it.
        reveal_strlit("legendary");
        reveal_strlit("miracle");
        reveal_strlit("enchantment");
        reveal_strlit("draft");
        reveal_strlit("devoid");
        reveal_strlit("tombstone");
        reveal_strlit("colorshifted");
        reveal_strlit("inverted");
        reveal_strlit("sunmoondfc");
        reveal_strlit("compasslanddfc");
        reveal_strlit("originpwdfc");
        reveal_strlit("mooneldrazidfc");
        reveal_strlit("waxingandwaningmoondfc");
        reveal_strlit("showcase");
        reveal_strlit("extendedart");
        reveal_strlit("companion");
        reveal_strlit("etched");
        reveal_strlit("snow");
        reveal_strlit("lesson");
        reveal_strlit("shatteredglass");
        reveal_strlit("convertdfc");
        reveal_strlit("fandfc");
        reveal_strlit("upsidedowndfc");
        reveal_strlit("spree");
        assert("legendary"@.len() == 9 && "legendary"@[0] == 'l');
        assert("miracle"@.len() == 7);
        assert("enchantment"@.len() == 11 && "enchantment"@[0] == 'e' && "enchantment"@[1] == 'n');
        assert("draft"@.len() == 5 && "draft"@[0] == 'd');
        assert("devoid"@.len() == 6 && "devoid"@[0] == 'd');
        assert("tombstone"@.len() == 9 && "tombstone"@[0] == 't');
        assert("colorshifted"@.len() == 12);
        assert("inverted"@.len() == 8 && "inverted"@[0] == 'i');
        assert("sunmoondfc"@.len() == 10 && "sunmoondfc"@[0] == 's');
        assert("compasslanddfc"@.len() == 14 && "compasslanddfc"@[0] == 'c');
        assert("originpwdfc"@.len() == 11 && "originpwdfc"@[0] == 'o');
        assert("mooneldrazidfc"@.len() == 14 && "mooneldrazidfc"@[0] == 'm');
        assert("waxingandwaningmoondfc"@.len() == 22);
        assert("showcase"@.len() == 8 && "showcase"@[0] == 's');
        assert("extendedart"@.len() == 11 && "extendedart"@[0] == 'e' && "extendedart"@[1] == 'x');
        assert("companion"@.len() == 9 && "companion"@[0] == 'c');
        assert("etched"@.len() == 6 && "etched"@[0] == 'e');
        assert("snow"@.len() == 4);
        assert("lesson"@.len() == 6 && "lesson"@[0] == 'l');
        assert("shatteredglass"@.len() == 14 && "shatteredglass"@[0] == 's');
        assert("convertdfc"@.len() == 10 && "convertdfc"@[0] == 'c');
        assert("fandfc"@.len() == 6 && "fandfc"@[0] == 'f');
        assert("upsidedowndfc"@.len() == 13);
        assert("spree"@.len() == 5 && "spree"@[0] == 's');
    }
}

/// A finish in which a card is printed.
#[derive(Clone, Copy, Debug, PartialEq, Eq, Structural)]
pub enum CardFinishes {
    Foil,
    Nonfoil,
    Etched,
}

impl CardFinishes {
    /// The name by which the bulk data writes this variant.
    pub open spec fn wire_name(self) -> Seq<char> {
        match self {
            CardFinishes::Foil => "foil"@,
            CardFinishes::Nonfoil => "nonfoil"@,
            CardFinishes::Etched => "etched"@,
        }
    }

    /// What a field of this type accepts, in the words of the error it gives.
    pub open spec fn expected_text() -> Seq<char> {
        "Foil, Nonfoil, or Etched"@
    }

    /// The variant whose wire name is `name`, or, where no variant has that
    /// name, an error that carries `name` and what the field accepts.
    pub fn from_name(name: &str) -> (r: Result<CardFinishes, InvalidValue>)
        ensures
            match r {
                Ok(v) => name@ == v.wire_name(),
                Err(e) => {
                    &&& forall|v: CardFinishes| name@ != #[trigger] v.wire_name()
                    &&& e.found@ == name@
                    &&& e.expected@ == CardFinishes::expected_text()
                },
            },
            name@ == "foil"@ ==> r == Ok::<CardFinishes, InvalidValue>(CardFinishes::Foil),
            name@ == "nonfoil"@ ==> r == Ok::<CardFinishes, InvalidValue>(CardFinishes::Nonfoil),
            name@ == "etched"@ ==> r == Ok::<CardFinishes, InvalidValue>(CardFinishes::Etched),
            ({
                &&& name@ != "foil"@
                &&& name@ != "nonfoil"@
                &&& name@ != "etched"@
            }) ==> (r matches Err(e) && e.found@ == name@ && e.expected@ == "Foil, Nonfoil, or Etched"@),
    {
        proof {
            // The names are told apart by length or by one character.
            reveal_strlit("foil");
            reveal_strlit("nonfoil");
            reveal_strlit("etched");
            assert("foil"@.len() == 4);
            assert("nonfoil"@.len() == 7);
            assert("etched"@.len() == 6);
        }
        if str_eq(name, "foil") {
            Ok(CardFinishes::Foil)
        } else if str_eq(name, "nonfoil") {
            Ok(CardFinishes::Nonfoil)
        } else if str_eq(name, "etched") {
            Ok(CardFinishes::Etched)
        } else {
            Err(InvalidValue { found: name.to_owned(), expected: "Foil, Nonfoil, or Etched" })
        }
    }

    /// No two variants share a wire name, so a name read back gives the
    /// variant it was written for.
    pub proof fn lemma_wire_names_distinct(a: CardFinishes, b: CardFinishes)
        ensures
            a.wire_name() == b.wire_name() ==> a == b,
    {
        broadcast use vstd::string::group_string_axioms;

        // Each name differs from every other by its length or by the
        // character at the position given for it.
        reveal_strlit("foil");
        reveal_strlit("nonfoil");
        reveal_strlit("etched");
        assert("foil"@.len() == 4);
        assert("nonfoil"@.len() == 7);
        assert("etched"@.len() == 6);
    }
}

/// The colour of a card's border.
#[derive(Clone, Copy, Debug, PartialEq, Eq, Structural)]
pub enum CardBorderColor {
    Black,
    White,
    Borderless,
    Yellow,
    Silver,
    Gold,
}

impl CardBorderColor {
    /// The name by which the bulk data writes this variant.
    pub open spec fn wire_name(self) -> Seq<char> {
        match self {
            CardBorderColor::Black => "black"@,
            CardBorderColor::White => "white"@,
            CardBorderColor::Borderless => "borderless"@,
            CardBorderColor::Yellow => "yellow"@,
            CardBorderColor::Silver => "silver"@,
            CardBorderColor::Gold => "gold"@,
        }
    }

    /// What a field of this type accepts, in the words of the error it gives.
    pub open spec fn expected_text() -> Seq<char> {
        "Any valid border color"@
    }

    /// The variant whose wire name is `name`, or, where no variant has that
    /// name, an error that carries `name` and what the field accepts.
    pub fn from_name(name: &str) -> (r: Result<CardBorderColor, InvalidValue>)
        ensures
            match r {
                Ok(v) => name@ == v.wire_name(),
                Err(e) => {
                    &&& forall|v: CardBorderColor| name@ != #[trigger] v.wire_name()
                    &&& e.found@ == name@
                    &&& e.expected@ == CardBorderColor::expected_text()
                },
            },
            name@ == "black"@ ==> r == Ok::<CardBorderColor, InvalidValue>(CardBorderColor::Black),
            name@ == "white"@ ==> r == Ok::<CardBorderColor, InvalidValue>(CardBorderColor::White),
            name@ == "borderless"@ ==> r == Ok::<CardBorderColor, InvalidValue>(CardBorderColor::Borderless),
            name@ == "yellow"@ ==> r == Ok::<CardBorderColor, InvalidValue>(CardBorderColor::Yellow),
            name@ == "silver"@ ==> r == Ok::<CardBorderColor, InvalidValue>(CardBorderColor::Silver),
            name@ == "gold"@ ==> r == Ok::<CardBorderColor, InvalidValue>(CardBorderColor::Gold),
            ({
                &&& name@ != "black"@
                &&& name@ != "white"@
                &&& name@ != "borderless"@
                &&& name@ != "yellow"@
                &&& name@ != "silver"@
                &&& name@ != "gold"@
            }) ==> (r matches Err(e) && e.found@ == name@ && e.expected@ == "Any valid border color"@),
    {
        proof {
            // The names are told apart by length or by one character.
            reveal_strlit("black");
            reveal_strlit("white");
            reveal_strlit("borderless");
            reveal_strlit("yellow");
            reveal_strlit("silver");
            reveal_strlit("gold");
            assert("black"@.len() == 5 && "black"@[0] == 'b');
            assert("white"@.len() == 5 && "white"@[0] == 'w');
            assert("borderless"@.len() == 10);
            assert("yellow"@.len() == 6 && "yellow"@[0] == 'y');
            assert("silver"@.len() == 6 && "silver"@[0] == 's');
            assert("gold"@.len() == 4);
        }
        if str_eq(name, "black") {
            Ok(CardBorderColor::Black)
        } else if str_eq(name, "white") {
            Ok(CardBorderColor::White)
        } else if str_eq(name, "borderless") {
            Ok(CardBorderColor::Borderless)
        } else if str_eq(name, "yellow") {
            Ok(CardBorderColor::Yellow)
        } else if str_eq(name, "silver") {
            Ok(CardBorderColor::Silver)
        } else if str_eq(name, "gold") {
            Ok(CardBorderColor::Gold)
        } else {
            Err(InvalidValue { found: name.to_owned(), expected: "Any valid border color" })
        }
    }

    /// No two variants share a wire name, so a name read back gives the
    /// variant it was written for.
    pub proof fn lemma_wire_names_distinct(a: CardBorderColor, b: CardBorderColor)
        ensures
            a.wire_name() == b.wire_name() ==> a == b,
    {
        broadcast use vstd::string::group_string_axioms;

        // Each name differs from every other by its length or by the
        // character at the position given for it.
        reveal_strlit("black");
        reveal_strlit("white");
        reveal_strlit("borderless");
        reveal_strlit("yellow");
        reveal_strlit("silver");
        reveal_strlit("gold");
        assert("black"@.len() == 5 && "black"@[0] == 'b');
        assert("white"@.len() == 5 && "white"@[0] == 'w');
        assert("borderless"@.len() == 10);
        assert("yellow"@.len() == 6 && "yellow"@[0] == 'y');
        assert("silver"@.len() == 6 && "silver"@[0] == 's');
        assert("gold"@.len() == 4);
    }
}

/// Whether a card may be played in a format.
#[derive(Clone, Copy, Debug, PartialEq, Eq, Structural)]
pub enum LegalityState {
    Legal,
    NotLegal,
    Banned,
    Restricted,
}

impl LegalityState {
    /// The name by which the bulk data writes this variant.
    pub open spec fn wire_name(self) -> Seq<char> {
        match self {
            LegalityState::Legal => "legal"@,
            LegalityState::NotLegal => "not_legal"@,
            LegalityState::Banned => "banned"@,
            LegalityState::Restricted => "restricted"@,
        }
    }

    /// What a field of this type accepts, in the words of the error it gives.
    pub open spec fn expected_text() -> Seq<char> {
        "any valid legality"@
    }

    /// The variant whose wire name is `name`, or, where no variant has that
    /// name, an error that carries `name` and what the field accepts.
    pub fn from_name(name: &str) -> (r: Result<LegalityState, InvalidValue>)
        ensures
            match r {
                Ok(v) => name@ == v.wire_name(),
                Err(e) => {
                    &&& forall|v: LegalityState| name@ != #[trigger] v.wire_name()
                    &&& e.found@ == name@
                    &&& e.expected@ == LegalityState::expected_text()
                },
            },
            name@ == "legal"@ ==> r == Ok::<LegalityState, InvalidValue>(LegalityState::Legal),
            name@ == "not_legal"@ ==> r == Ok::<LegalityState, InvalidValue>(LegalityState::NotLegal),
            name@ == "banned"@ ==> r == Ok::<LegalityState, InvalidValue>(LegalityState::Banned),
            name@ == "restricted"@ ==> r == Ok::<LegalityState, InvalidValue>(LegalityState::Restricted),
            ({
                &&& name@ != "legal"@
                &&& name@ != "not_legal"@
                &&& name@ != "banned"@
                &&& name@ != "restricted"@
            }) ==> (r matches Err(e) && e.found@ == name@ && e.expected@ == "any valid legality"@),
    {
        proof {
            // The names are told apart by length or by one character.
            reveal_strlit("legal");
            reveal_strlit("not_legal");
            reveal_strlit("banned");
            reveal_strlit("restricted");
            assert("legal"@.len() == 5);
            assert("not_legal"@.len() == 9);
            assert("banned"@.len() == 6);
            assert("restricted"@.len() == 10);
        }
        if str_eq(name, "legal") {
            Ok(LegalityState::Legal)
        } else if str_eq(name, "not_legal") {
            Ok(LegalityState::NotLegal)
        } else if str_eq(name, "banned") {
            Ok(LegalityState::Banned)
        } else if str_eq(name, "restricted") {
            Ok(LegalityState::Restricted)
        } else {
            Err(InvalidValue { found: name.to_owned(), expected: "any valid legality" })
        }
    }

    /// No two variants share a wire name, so a name read back gives the
    /// variant it was written for.
    pub proof fn lemma_wire_names_distinct(a: LegalityState, b: LegalityState)
        ensures
            a.wire_name() == b.wire_name() ==> a == b,
    {
        broadcast use vstd::string::group_string_axioms;

        // Each name differs from every other by its length or by the
        // character at the position given for it.
        reveal_strlit("legal");
        reveal_strlit("not_legal");
        reveal_strlit("banned");
        reveal_strlit("restricted");
        assert("legal"@.len() == 5);
        assert("not_legal"@.len() == 9);
        assert("banned"@.len() == 6);
        assert("restricted"@.len() == 10);
    }
}

/// One of the five colours of mana.
#[derive(Clone, Copy, Debug, PartialEq, Eq, Structural)]
pub enum CardColor {
    W,
    U,
    B,
    R,
    G,
}

impl CardColor {
    /// The name by which the bulk data writes this variant.
    pub open spec fn wire_name(self) -> Seq<char> {
        match self {
            CardColor::W => "W"@,
            CardColor::U => "U"@,
            CardColor::B => "B"@,
            CardColor::R => "R"@,
            CardColor::G => "G"@,
        }
    }

    /// What a field of this type accepts, in the words of the error it gives.
    pub open spec fn expected_text() -> Seq<char> {
        "W, U, B, R, or G"@
    }

    /// The variant whose wire name is `name`, or, where no variant has that
    /// name, an error that carries `name` and what the field accepts.
    pub fn from_name(name: &str) -> (r: Result<CardColor, InvalidValue>)
        ensures
            match r {
                Ok(v) => name@ == v.wire_name(),
                Err(e) => {
                    &&& forall|v: CardColor| name@ != #[trigger] v.wire_name()
                    &&& e.found@ == name@
                    &&& e.expected@ == CardColor::expected_text()
                },
            },
            name@ == "W"@ ==> r == Ok::<CardColor, InvalidValue>(CardColor::W),
            name@ == "U"@ ==> r == Ok::<CardColor, InvalidValue>(CardColor::U),
            name@ == "B"@ ==> r == Ok::<CardColor, InvalidValue>(CardColor::B),
            name@ == "R"@ ==> r == Ok::<CardColor, InvalidValue>(CardColor::R),
            name@ == "G"@ ==> r == Ok::<CardColor, InvalidValue>(CardColor::G),
            ({
                &&& name@ != "W"@
                &&& name@ != "U"@
                &&& name@ != "B"@
                &&& name@ != "R"@
                &&& name@ != "G"@
            }) ==> (r matches Err(e) && e.found@ == name@ && e.expected@ == "W, U, B, R, or G"@),
    {
        proof {
            // The names are told apart by length or by one character.
            reveal_strlit("W");
            reveal_strlit("U");
            reveal_strlit("B");
            reveal_strlit("R");
            reveal_strlit("G");
            assert("W"@.len() == 1 && "W"@[0] == 'W');
            assert("U"@.len() == 1 && "U"@[0] == 'U');
            assert("B"@.len() == 1 && "B"@[0] == 'B');
            assert("R"@.len() == 1 && "R"@[0] == 'R');
            assert("G"@.len() == 1 && "G"@[0] == 'G');
        }
        if str_eq(name, "W") {
            Ok(CardColor::W)
        } else if str_eq(name, "U") {
            Ok(CardColor::U)
        } else if str_eq(name, "B") {
            Ok(CardColor::B)
        } else if str_eq(name, "R") {
            Ok(CardColor::R)
        } else if str_eq(name, "G") {
            Ok(CardColor::G)
        } else {
            Err(InvalidValue { found: name.to_owned(), expected: "W, U, B, R, or G" })
        }
    }

    /// No two variants share a wire name, so a name read back gives the
    /// variant it was written for.
    pub proof fn lemma_wire_names_distinct(a: CardColor, b: CardColor)
        ensures
            a.wire_name() == b.wire_name() ==> a == b,
    {
        broadcast use vstd::string::group_string_axioms;

        // Each name differs from every other by its length or by the
        // character at the position given for it.
        reveal_strlit("W");
        reveal_strlit("U");
        reveal_strlit("B");
        reveal_strlit("R");
        reveal_strlit("G");
        assert("W"@.len() == 1 && "W"@[0] == 'W');
        assert("U"@.len() == 1 && "U"@[0] == 'U');
        assert("B"@.len() == 1 && "B"@[0] == 'B');
        assert("R"@.len() == 1 && "R"@[0] == 'R');
        assert("G"@.len() == 1 && "G"@[0] == 'G');
    }
}

/// The language a card is printed in.
#[derive(Clone, Copy, Debug, PartialEq, Eq, Structural)]
pub enum CardLang {
    En,
    Es,
    Fr,
    De,
    It,
    Pt,
    Ja,
    Ko,
    Ru,
    Zhs,
    Zht,
    He,
    La,
    Grc,
    Ar,
    Sa,
    Ph,
    Qya,
}

impl CardLang {
    /// The name by which the bulk data writes this variant.
    pub open spec fn wire_name(self) -> Seq<char> {
        match self {
            CardLang::En => "en"@,
            CardLang::Es => "es"@,
            CardLang::Fr => "fr"@,
            CardLang::De => "de"@,
            CardLang::It => "it"@,
            CardLang::Pt => "pt"@,
            CardLang::Ja => "ja"@,
            CardLang::Ko => "ko"@,
            CardLang::Ru => "ru"@,
            CardLang::Zhs => "zhs"@,
            CardLang::Zht => "zht"@,
            CardLang::He => "he"@,
            CardLang::La => "la"@,
            CardLang::Grc => "grc"@,
            CardLang::Ar => "ar"@,
            CardLang::Sa => "sa"@,
            CardLang::Ph => "ph"@,
            CardLang::Qya => "qya"@,
        }
    }

    /// What a field of this type accepts, in the words of the error it gives.
    pub open spec fn expected_text() -> Seq<char> {
        "Any valid lang"@
    }

    /// The variant whose wire name is `name`, or, where no variant has that
    /// name, an error that carries `name` and what the field accepts.
    pub fn from_name(name: &str) -> (r: Result<CardLang, InvalidValue>)
        ensures
            match r {
                Ok(v) => name@ == v.wire_name(),
                Err(e) => {
                    &&& forall|v: CardLang| name@ != #[trigger] v.wire_name()
                    &&& e.found@ == name@
                    &&& e.expected@ == CardLang::expected_text()
                },
            },
            name@ == "en"@ ==> r == Ok::<CardLang, InvalidValue>(CardLang::En),
            name@ == "es"@ ==> r == Ok::<CardLang, InvalidValue>(CardLang::Es),
            name@ == "fr"@ ==> r == Ok::<CardLang, InvalidValue>(CardLang::Fr),
            name@ == "de"@ ==> r == Ok::<CardLang, InvalidValue>(CardLang::De),
            name@ == "it"@ ==> r == Ok::<CardLang, InvalidValue>(CardLang::It),
            name@ == "pt"@ ==> r == Ok::<CardLang, InvalidValue>(CardLang::Pt),
            name@ == "ja"@ ==> r == Ok::<CardLang, InvalidValue>(CardLang::Ja),
            name@ == "ko"@ ==> r == Ok::<CardLang, InvalidValue>(CardLang::Ko),
            name@ == "ru"@ ==> r == Ok::<CardLang, InvalidValue>(CardLang::Ru),
            name@ == "zhs"@ ==> r == Ok::<CardLang, InvalidValue>(CardLang::Zhs),
            name@ == "zht"@ ==> r == Ok::<CardLang, InvalidValue>(CardLang::Zht),
            name@ == "he"@ ==> r == Ok::<CardLang, InvalidValue>(CardLang::He),
            name@ == "la"@ ==> r == Ok::<CardLang, InvalidValue>(CardLang::La),
            name@ == "grc"@ ==> r == Ok::<CardLang, InvalidValue>(CardLang::Grc),
            name@ == "ar"@ ==> r == Ok::<CardLang, InvalidValue>(CardLang::Ar),
            name@ == "sa"@ ==> r == Ok::<CardLang, InvalidValue>(CardLang::Sa),
            name@ == "ph"@ ==> r == Ok::<CardLang, InvalidValue>(CardLang::Ph),
            name@ == "qya"@ ==> r == Ok::<CardLang, InvalidValue>(CardLang::Qya),
            ({
                &&& name@ != "en"@
                &&& name@ != "es"@
                &&& name@ != "fr"@
                &&& name@ != "de"@
                &&& name@ != "it"@
                &&& name@ != "pt"@
                &&& name@ != "ja"@
                &&& name@ != "ko"@
                &&& name@ != "ru"@
                &&& name@ != "zhs"@
                &&& name@ != "zht"@
                &&& name@ != "he"@
                &&& name@ != "la"@
                &&& name@ != "grc"@
                &&& name@ != "ar"@
                &&& name@ != "sa"@
                &&& name@ != "ph"@
                &&& name@ != "qya"@
            }) ==> (r matches Err(e) && e.found@ == name@ && e.expected@ == "Any valid lang"@),
    {
        proof {
            // The names are told apart by length or by one character.
            reveal_strlit("en");
            reveal_strlit("es");
            reveal_strlit("fr");
            reveal_strlit("de");
            reveal_strlit("it");
            reveal_strlit("pt");
            reveal_strlit("ja");
            reveal_strlit("ko");
            reveal_strlit("ru");
            reveal_strlit("zhs");
            reveal_strlit("zht");
            reveal_strlit("he");
            reveal_strlit("la");
            reveal_strlit("grc");
            reveal_strlit("ar");
            reveal_strlit("sa");
            reveal_strlit("ph");
            reveal_strlit("qya");
            assert("en"@.len() == 2 && "en"@[0] == 'e' && "en"@[1] == 'n');
            assert("es"@.len() == 2 && "es"@[0] == 'e' && "es"@[1] == 's');
            assert("fr"@.len() == 2 && "fr"@[0] == 'f');
            assert("de"@.len() == 2 && "de"@[0] == 'd');
            assert("it"@.len() == 2 && "it"@[0] == 'i');
            assert("pt"@.len() == 2 && "pt"@[0] == 'p' && "pt"@[1] == 't');
            assert("ja"@.len() == 2 && "ja"@[0] == 'j');
            assert("ko"@.len() == 2 && "ko"@[0] == 'k');
            assert("ru"@.len() == 2 && "ru"@[0] == 'r');
            assert("zhs"@.len() == 3 && "zhs"@[0] == 'z' && "zhs"@[2] == 's');
            assert("zht"@.len() == 3 && "zht"@[0] == 'z' && "zht"@[2] == 't');
            assert("he"@.len() == 2 && "he"@[0] == 'h');
            assert("la"@.len() == 2 && "la"@[0] == 'l');
            assert("grc"@.len() == 3 && "grc"@[0] == 'g');
            assert("ar"@.len() == 2 && "ar"@[0] == 'a');
            assert("sa"@.len() == 2 && "sa"@[0] == 's');
            assert("ph"@.len() == 2 && "ph"@[0] == 'p' && "ph"@[1] == 'h');
            assert("qya"@.len() == 3 && "qya"@[0] == 'q');
        }
        if str_eq(name, "en") {
            Ok(CardLang::En)
        } else if str_eq(name, "es") {
            Ok(CardLang::Es)
        } else if str_eq(name, "fr") {
            Ok(CardLang::Fr)
        } else if str_eq(name, "de") {
            Ok(CardLang::De)
        } else if str_eq(name, "it") {
            Ok(CardLang::It)
        } else if str_eq(name, "pt") {
            Ok(CardLang::Pt)
        } else if str_eq(name, "ja") {
            Ok(CardLang::Ja)
        } else if str_eq(name, "ko") {
            Ok(CardLang::Ko)
        } else if str_eq(name, "ru") {
            Ok(CardLang::Ru)
        } else if str_eq(name, "zhs") {
            Ok(CardLang::Zhs)
        } else if str_eq(name, "zht") {
            Ok(CardLang::Zht)
        } else if str_eq(name, "he") {
            Ok(CardLang::He)
        } else if str_eq(name, "la") {
            Ok(CardLang::La)
        } else if str_eq(name, "grc") {
            Ok(CardLang::Grc)
        } else if str_eq(name, "ar") {
            Ok(CardLang::Ar)
        } else if str_eq(name, "sa") {
            Ok(CardLang::Sa)
        } else if str_eq(name, "ph") {
            Ok(CardLang::Ph)
        } else if str_eq(name, "qya") {
            Ok(CardLang::Qya)
        } else {
            Err(InvalidValue { found: name.to_owned(), expected: "Any valid lang" })
        }
    }

    /// No two variants share a wire name, so a name read back gives the
    /// variant it was written for.
    pub proof fn lemma_wire_names_distinct(a: CardLang, b: CardLang)
        ensures
            a.wire_name() == b.wire_name() ==> a == b,
    {
        broadcast use vstd::string::group_string_axioms;

        // Each name differs from every other by its length or by the
        // character at the position given for it.
        reveal_strlit("en");
        reveal_strlit("es");
        reveal_strlit("fr");
        reveal_strlit("de");
        reveal_strlit("it");
        reveal_strlit("pt");
        reveal_strlit("ja");
        reveal_strlit("ko");
        reveal_strlit("ru");
        reveal_strlit("zhs");
        reveal_strlit("zht");
        reveal_strlit("he");
        reveal_strlit("la");
        reveal_strlit("grc");
        reveal_strlit("ar");
        reveal_strlit("sa");
        reveal_strlit("ph");
        reveal_strlit("qya");
        assert("en"@.len() == 2 && "en"@[0] == 'e' && "en"@[1] == 'n');
        assert("es"@.len() == 2 && "es"@[0] == 'e' && "es"@[1] == 's');
        assert("fr"@.len() == 2 && "fr"@[0] == 'f');
        assert("de"@.len() == 2 && "de"@[0] == 'd');
        assert("it"@.len() == 2 && "it"@[0] == 'i');
        assert("pt"@.len() == 2 && "pt"@[0] == 'p' && "pt"@[1] == 't');
        assert("ja"@.len() == 2 && "ja"@[0] == 'j');
        assert("ko"@.len() == 2 && "ko"@[0] == 'k');
        assert("ru"@.len() == 2 && "ru"@[0] == 'r');
        assert("zhs"@.len() == 3 && "zhs"@[0] == 'z' && "zhs"@[2] == 's');
        assert("zht"@.len() == 3 && "zht"@[0] == 'z' && "zht"@[2] == 't');
        assert("he"@.len() == 2 && "he"@[0] == 'h');
        assert("la"@.len() == 2 && "la"@[0] == 'l');
        assert("grc"@.len() == 3 && "grc"@[0] == 'g');
        assert("ar"@.len() == 2 && "ar"@[0] == 'a');
        assert("sa"@.len() == 2 && "sa"@[0] == 's');
        assert("ph"@.len() == 2 && "ph"@[0] == 'p' && "ph"@[1] == 'h');
        assert("qya"@.len() == 3 && "qya"@[0] == 'q');
    }
}

/// The layout of a card.
#[derive(Clone, Copy, Debug, PartialEq, Eq, Structural)]
pub enum CardLayout {
    Normal,
    Split,
    Flip,
    Transform,
    ModalDFC,
    Meld,
    Leveler,
    Class,
    Case,
    Saga,
    Adventure,
    Mutate,
    Prototype,
    Battle,
    Planar,
    Scheme,
    Vanguard,
    Token,
    DoubleFacedToken,
    Emblem,
    Augment,
    Host,
    ArtSeries,
    ReversibleCard,
}

impl CardLayout {
    /// The name by which the bulk data writes this variant.
    pub open spec fn wire_name(self) -> Seq<char> {
        match self {
            CardLayout::Normal => "normal"@,
            CardLayout::Split => "split"@,
            CardLayout::Flip => "flip"@,
            CardLayout::Transform => "transform"@,
            CardLayout::ModalDFC => "modal_dfc"@,
            CardLayout::Meld => "meld"@,
            CardLayout::Leveler => "leveler"@,
            CardLayout::Class => "class"@,
            CardLayout::Case => "case"@,
            CardLayout::Saga => "saga"@,
            CardLayout::Adventure => "adventure"@,
            CardLayout::Mutate => "mutate"@,
            CardLayout::Prototype => "prototype"@,
            CardLayout::Battle => "battle"@,
            CardLayout::Planar => "planar"@,
            CardLayout::Scheme => "scheme"@,
            CardLayout::Vanguard => "vanguard"@,
            CardLayout::Token => "token"@,
            CardLayout::DoubleFacedToken => "double_faced_token"@,
            CardLayout::Emblem => "emblem"@,
            CardLayout::Augment => "augment"@,
            CardLayout::Host => "host"@,
            CardLayout::ArtSeries => "art_series"@,
            CardLayout::ReversibleCard => "reversible_card"@,
        }
    }

    /// What a field of this type accepts, in the words of the error it gives.
    pub open spec fn expected_text() -> Seq<char> {
        "Any valid card layout"@
    }

    /// The variant whose wire name is `name`, or, where no variant has that
    /// name, an error that carries `name` and what the field accepts.
    pub fn from_name(name: &str) -> (r: Result<CardLayout, InvalidValue>)
        ensures
            match r {
                Ok(v) => name@ == v.wire_name(),
                Err(e) => {
                    &&& forall|v: CardLayout| name@ != #[trigger] v.wire_name()
                    &&& e.found@ == name@
                    &&& e.expected@ == CardLayout::expected_text()
                },
            },
            name@ == "normal"@ ==> r == Ok::<CardLayout, InvalidValue>(CardLayout::Normal),
            name@ == "split"@ ==> r == Ok::<CardLayout, InvalidValue>(CardLayout::Split),
            name@ == "flip"@ ==> r == Ok::<CardLayout, InvalidValue>(CardLayout::Flip),
            name@ == "transform"@ ==> r == Ok::<CardLayout, InvalidValue>(CardLayout::Transform),
            name@ == "modal_dfc"@ ==> r == Ok::<CardLayout, InvalidValue>(CardLayout::ModalDFC),
            name@ == "meld"@ ==> r == Ok::<CardLayout, InvalidValue>(CardLayout::Meld),
            name@ == "leveler"@ ==> r == Ok::<CardLayout, InvalidValue>(CardLayout::Leveler),
            name@ == "class"@ ==> r == Ok::<CardLayout, InvalidValue>(CardLayout::Class),
            name@ == "case"@ ==> r == Ok::<CardLayout, InvalidValue>(CardLayout::Case),
            name@ == "saga"@ ==> r == Ok::<CardLayout, InvalidValue>(CardLayout::Saga),
            name@ == "adventure"@ ==> r == Ok::<CardLayout, InvalidValue>(CardLayout::Adventure),
            name@ == "mutate"@ ==> r == Ok::<CardLayout, InvalidValue>(CardLayout::Mutate),
            name@ == "prototype"@ ==> r == Ok::<CardLayout, InvalidValue>(CardLayout::Prototype),
            name@ == "battle"@ ==> r == Ok::<CardLayout, InvalidValue>(CardLayout::Battle),
            name@ == "planar"@ ==> r == Ok::<CardLayout, InvalidValue>(CardLayout::Planar),
            name@ == "scheme"@ ==> r == Ok::<CardLayout, InvalidValue>(CardLayout::Scheme),
            name@ == "vanguard"@ ==> r == Ok::<CardLayout, InvalidValue>(CardLayout::Vanguard),
            name@ == "token"@ ==> r == Ok::<CardLayout, InvalidValue>(CardLayout::Token),
            name@ == "double_faced_token"@ ==> r == Ok::<CardLayout, InvalidValue>(CardLayout::DoubleFacedToken),
            name@ == "emblem"@ ==> r == Ok::<CardLayout, InvalidValue>(CardLayout::Emblem),
            name@ == "augment"@ ==> r == Ok::<CardLayout, InvalidValue>(CardLayout::Augment),
            name@ == "host"@ ==> r == Ok::<CardLayout, InvalidValue>(CardLayout::Host),
            name@ == "art_series"@ ==> r == Ok::<CardLayout, InvalidValue>(CardLayout::ArtSeries),
            name@ == "reversible_card"@ ==> r == Ok::<CardLayout, InvalidValue>(CardLayout::ReversibleCard),
            ({
                &&& name@ != "normal"@
                &&& name@ != "split"@
                &&& name@ != "flip"@
                &&& name@ != "transform"@
                &&& name@ != "modal_dfc"@
                &&& name@ != "meld"@
                &&& name@ != "leveler"@
                &&& name@ != "class"@
                &&& name@ != "case"@
                &&& name@ != "saga"@
                &&& name@ != "adventure"@
                &&& name@ != "mutate"@
                &&& name@ != "prototype"@
                &&& name@ != "battle"@
                &&& name@ != "planar"@
                &&& name@ != "scheme"@
                &&& name@ != "vanguard"@
                &&& name@ != "token"@
                &&& name@ != "double_faced_token"@
                &&& name@ != "emblem"@
                &&& name@ != "augment"@
                &&& name@ != "host"@
                &&& name@ != "art_series"@
                &&& name@ != "reversible_card"@
            }) ==> (r matches Err(e) && e.found@ == name@ && e.expected@ == "Any valid card layout"@),
    {
        proof {
            // The names are told apart by length or by one character.
            reveal_strlit("normal");
            reveal_strlit("split");
            reveal_strlit("flip");
            reveal_strlit("transform");
            reveal_strlit("modal_dfc");
            reveal_strlit("meld");
            reveal_strlit("leveler");
            reveal_strlit("class");
            reveal_strlit("case");
            reveal_strlit("saga");
            reveal_strlit("adventure");
            reveal_strlit("mutate");
            reveal_strlit("prototype");
            reveal_strlit("battle");
            reveal_strlit("planar");
            reveal_strlit("scheme");
            reveal_strlit("vanguard");
            reveal_strlit("token");
            reveal_strlit("double_faced_token");
            reveal_strlit("emblem");
            reveal_strlit("augment");
            reveal_strlit("host");
            reveal_strlit("art_series");
            reveal_strlit("reversible_card");
            assert("normal"@.len() == 6 && "normal"@[0] == 'n');
            assert("split"@.len() == 5 && "split"@[0] == 's');
            assert("flip"@.len() == 4 && "flip"@[0] == 'f');
            assert("transform"@.len() == 9 && "transform"@[0] == 't');
            assert("modal_dfc"@.len() == 9 && "modal_dfc"@[0] == 'm');
            assert("meld"@.len() == 4 && "meld"@[0] == 'm');
            assert("leveler"@.len() == 7 && "leveler"@[0] == 'l');
            assert("class"@.len() == 5 && "class"@[0] == 'c');
            assert("case"@.len() == 4 && "case"@[0] == 'c');
            assert("saga"@.len() == 4 && "saga"@[0] == 's');
            assert("adventure"@.len() == 9 && "adventure"@[0] == 'a');
            assert("mutate"@.len() == 6 && "mutate"@[0] == 'm');
            assert("prototype"@.len() == 9 && "prototype"@[0] == 'p');
            assert("battle"@.len() == 6 && "battle"@[0] == 'b');
            assert("planar"@.len() == 6 && "planar"@[0] == 'p');
            assert("scheme"@.len() == 6 && "scheme"@[0] == 's');
            assert("vanguard"@.len() == 8);
            assert("token"@.len() == 5 && "token"@[0] == 't');
            assert("double_faced_token"@.len() == 18);
            assert("emblem"@.len() == 6 && "emblem"@[0] == 'e');
            assert("augment"@.len() == 7 && "augment"@[0] == 'a');
            assert("host"@.len() == 4 && "host"@[0] == 'h');
            assert("art_series"@.len() == 10);
            assert("reversible_card"@.len() == 15);
        }
        if str_eq(name, "normal") {
            Ok(CardLayout::Normal)
        } else if str_eq(name, "split") {
            Ok(CardLayout::Split)
        } else if str_eq(name, "flip") {
            Ok(CardLayout::Flip)
        } else if str_eq(name, "transform") {
            Ok(CardLayout::Transform)
        } else if str_eq(name, "modal_dfc") {
            Ok(CardLayout::ModalDFC)
        } else if str_eq(name, "meld") {
            Ok(CardLayout::Meld)
        } else if str_eq(name, "leveler") {
            Ok(CardLayout::Leveler)
        } else if str_eq(name, "class") {
            Ok(CardLayout::Class)
        } else if str_eq(name, "case") {
            Ok(CardLayout::Case)
        } else if str_eq(name, "saga") {
            Ok(CardLayout::Saga)
        } else if str_eq(name, "adventure") {
            Ok(CardLayout::Adventure)
        } else if str_eq(name, "mutate") {
            Ok(CardLayout::Mutate)
        } else if str_eq(name, "prototype") {
            Ok(CardLayout::Prototype)
        } else if str_eq(name, "battle") {
            Ok(CardLayout::Battle)
        } else if str_eq(name, "planar") {
            Ok(CardLayout::Planar)
        } else if str_eq(name, "scheme") {
            Ok(CardLayout::Scheme)
        } else if str_eq(name, "vanguard") {
            Ok(CardLayout::Vanguard)
        } else if str_eq(name, "token") {
            Ok(CardLayout::Token)
        } else if str_eq(name, "double_faced_token") {
            Ok(CardLayout::DoubleFacedToken)
        } else if str_eq(name, "emblem") {
            Ok(CardLayout::Emblem)
        } else if str_eq(name, "augment") {
            Ok(CardLayout::Augment)
        } else if str_eq(name, "host") {
            Ok(CardLayout::Host)
        } else if str_eq(name, "art_series") {
            Ok(CardLayout::ArtSeries)
        } else if str_eq(name, "reversible_card") {
            Ok(CardLayout::ReversibleCard)
        } else {
            Err(InvalidValue { found: name.to_owned(), expected: "Any valid card layout" })
        }
    }

    /// No two variants share a wire name, so a name read back gives the
    /// variant it was written for.
    pub proof fn lemma_wire_names_distinct(a: CardLayout, b: CardLayout)
        ensures
            a.wire_name() == b.wire_name() ==> a == b,
    {
        broadcast use vstd::string::group_string_axioms;

        // Each name differs from every other by its length or by the
        // character at the position given for it.
        reveal_strlit("normal");
        reveal_strlit("split");
        reveal_strlit("flip");
        reveal_strlit("transform");
        reveal_strlit("modal_dfc");
        reveal_strlit("meld");
        reveal_strlit("leveler");
        reveal_strlit("class");
        reveal_strlit("case");
        reveal_strlit("saga");
        reveal_strlit("adventure");
        reveal_strlit("mutate");
        reveal_strlit("prototype");
        reveal_strlit("battle");
        reveal_strlit("planar");
        reveal_strlit("scheme");
        reveal_strlit("vanguard");
        reveal_strlit("token");
        reveal_strlit("double_faced_token");
        reveal_strlit("emblem");
        reveal_strlit("augment");
        reveal_strlit("host");
        reveal_strlit("art_series");
        reveal_strlit("reversible_card");
        assert("normal"@.len() == 6 && "normal"@[0] == 'n');
        assert("split"@.len() == 5 && "split"@[0] == 's');
        assert("flip"@.len() == 4 && "flip"@[0] == 'f');
        assert("transform"@.len() == 9 && "transform"@[0] == 't');
        assert("modal_dfc"@.len() == 9 && "modal_dfc"@[0] == 'm');
        assert("meld"@.len() == 4 && "meld"@[0] == 'm');
        assert("leveler"@.len() == 7 && "leveler"@[0] == 'l');
        assert("class"@.len() == 5 && "class"@[0] == 'c');
        assert("case"@.len() == 4 && "case"@[0] == 'c');
        assert("saga"@.len() == 4 && "saga"@[0] == 's');
        assert("adventure"@.len() == 9 && "adventure"@[0] == 'a');
        assert("mutate"@.len() == 6 && "mutate"@[0] == 'm');
        assert("prototype"@.len() == 9 && "prototype"@[0] == 'p');
        assert("battle"@.len() == 6 && "battle"@[0] == 'b');
        assert("planar"@.len() == 6 && "planar"@[0] == 'p');
        assert("scheme"@.len() == 6 && "scheme"@[0] == 's');
        assert("vanguard"@.len() == 8);
        assert("token"@.len() == 5 && "token"@[0] == 't');
        assert("double_faced_token"@.len() == 18);
        assert("emblem"@.len() == 6 && "emblem"@[0] == 'e');
        assert("augment"@.len() == 7 && "augment"@[0] == 'a');
        assert("host"@.len() == 4 && "host"@[0] == 'h');
        assert("art_series"@.len() == 10);
        assert("reversible_card"@.len() == 15);
    }
}

/// Whether a card may be played in each format.
#[derive(Clone, Copy, Debug, PartialEq, Eq, Structural)]
pub struct CardLegalities {
    pub standard: LegalityState,
    pub future: LegalityState,
    pub historic: LegalityState,
    pub timeless: LegalityState,
    pub gladiator: LegalityState,
    pub pioneer: LegalityState,
    pub modern: LegalityState,
    pub legacy: LegalityState,
    pub pauper: LegalityState,
    pub vintage: LegalityState,
    pub penny: LegalityState,
    pub commander: LegalityState,
    pub oathbreaker: LegalityState,
    pub standardbrawl: LegalityState,
    pub brawl: LegalityState,
    pub alchemy: LegalityState,
    pub paupercommander: LegalityState,
    pub duel: LegalityState,
    pub oldschool: LegalityState,
    pub premodern: LegalityState,
    pub predh: LegalityState,
}

/// A card, token or other object that a card refers to.
#[derive(Debug)]
pub struct RelatedObject {
    pub id: String,
    pub object: String,
    pub component: String,
    pub name: String,
    pub type_line: String,
    pub uri: String,
}

} // verus!
