# scanner_bot

Reads the Scryfall bulk export of Magic: The Gathering cards.

- `src/` is the verified library (Verus):
  - `card.rs`: the enumerated card fields (frame effects, finishes, border
    colours, legality states, colours, languages, layouts) with their
    decoding from the names the export writes, and the record types
    `CardLegalities` and `RelatedObject`;
  - `bulk.rs`: the choice of an export from the bulk-data index, and the
    line framing of the export file;
  - `text.rs`: string comparison by characters.
- `app/` is the program: it downloads the export, reads the cards with serde
  (the serde-facing copies of the library's types live in `app/card.rs`) and
  logs them.
- `tests/` runs the library on concrete inputs.
