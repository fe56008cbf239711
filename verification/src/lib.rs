//! Card data of the Scryfall bulk export, with verified decoding of the
//! enumerated fields and of the line framing of the bulk file.

pub mod bulk;
pub mod card;
pub mod text;
