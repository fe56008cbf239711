//! The bulk-data index and the line framing of a bulk export file.
//!
//! The export is a JSON array written one card to a line: a line with `[`
//! opens it, a line with `]` closes it, and every other line holds one card
//! followed by the `,` that separates it from the next.

use vstd::prelude::*;
use vstd::string::StrSliceExecFns;

use crate::text::str_eq;

verus! {

/// The kind of bulk export that holds every card in every language.
pub const TARGET_BULK_TYPE: &'static str = "all_cards";

/// What the choice of an export reads of an entry of the bulk-data index.
#[derive(Debug)]
pub struct BulkIndexEntry {
    /// The kind of export, such as `all_cards`.
    pub bulk_type: String,
    /// Where the export can be downloaded.
    pub download_uri: String,
}

/// Whether `i` is the first position in `entries` whose kind is `bulk_type`.
pub open spec fn is_first_of_type(entries: Seq<BulkIndexEntry>, bulk_type: Seq<char>, i: int) -> bool {
    &&& 0 <= i < entries.len()
    &&& entries[i].bulk_type@ == bulk_type
    &&& forall|j: int| 0 <= j < i ==> entries[j].bulk_type@ != bulk_type
}

/// The download address of the first entry whose kind is `bulk_type`, or
/// `None` where no entry is of that kind.
pub fn download_uri_of(entries: &Vec<BulkIndexEntry>, bulk_type: &str) -> (r: Option<String>)
    ensures
        match r {
            Some(uri) => exists|i: int|
                is_first_of_type(entries@, bulk_type@, i) && uri@ == #[trigger] entries@[i].download_uri@,
            None => true,
        },
        match r {
            Some(uri) => exists|i: int|
                {
                    &&& 0 <= i < entries@.len()
                    &&& entries@[i].bulk_type@ == bulk_type@
                    &&& uri@ == #[trigger] entries@[i].download_uri@
                    &&& forall|j: int| 0 <= j < i ==> entries@[j].bulk_type@ != bulk_type@
                },
            None => forall|i: int| 0 <= i < entries@.len() ==> #[trigger] entries@[i].bulk_type@ != bulk_type@,
        },
{
    let mut i: usize = 0;
    while i < entries.len()
        invariant
            i <= entries@.len(),
            forall|j: int| 0 <= j < i ==> #[trigger] entries@[j].bulk_type@ != bulk_type@,
        decreases entries@.len() - i,
    {
        if str_eq(entries[i].bulk_type.as_str(), bulk_type) {
            let uri = entries[i].download_uri.clone();
            assert(is_first_of_type(entries@, bulk_type@, i as int));
            assert(uri@ == entries@[i as int].download_uri@);
            return Some(uri);
        }
        i += 1;
    }
    None
}

/// Whether a line of the export opens or closes the array of cards.
pub open spec fn is_array_bracket(line: Seq<char>) -> bool {
    line == "["@ || line == "]"@
}

/// Only the two one-character lines `[` and `]` open or close the array;
/// every other line, a card line above all, is no bracket.
pub proof fn lemma_brackets_are_single_characters(line: Seq<char>)
    ensures
        is_array_bracket(line) <==> (line.len() == 1 && (line[0] == '[' || line[0] == ']')),
        line.len() != 1 ==> !is_array_bracket(line),
{
    reveal_strlit("[");
    reveal_strlit("]");
    assert("["@.len() == 1 && "["@[0] == '[');
    assert("]"@.len() == 1 && "]"@[0] == ']');
    if line.len() == 1 && line[0] == '[' {
        assert(line =~= "["@);
    }
    if line.len() == 1 && line[0] == ']' {
        assert(line =~= "]"@);
    }
}

/// The text of the card that a line of the export holds: the line less its
/// last character, the separator; `None` for a line that opens or closes the
/// array.
///
/// A card line must end in a one-byte character, as the separator is; the
/// last card of the export has no separator, and the caller reads that one
/// from the whole line.
pub fn record_text(line: &str) -> (r: Option<&str>)
    requires
        is_array_bracket(line@) || (line@.len() > 0 && (line@.last() as u32) < 128),
    ensures
        is_array_bracket(line@) ==> r is None,
        !is_array_bracket(line@) ==> (r matches Some(text) && text@ == line@.drop_last()),
        line@ == "["@ ==> r is None,
        line@ == "]"@ ==> r is None,
        line@ != "["@ && line@ != "]"@ ==> (r matches Some(text) && text@ == line@.drop_last()),
{
    if str_eq(line, "[") || str_eq(line, "]") {
        return None;
    }
    let n = line.unicode_len();
    Some(line.substring_char(0, n - 1))
}

} // verus!
