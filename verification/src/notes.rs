//! Wash-sale annotations in a trade's free-text notes.

use crate::text::{contains_char, contains_run, has_run};
use vstd::prelude::*;

verus! {

/// The uppercase form of a text.
pub uninterp spec fn uppercase_of(text: Seq<char>) -> Seq<char>;

/// Whether a note and its uppercase form mark a wash sale: the note holds
/// the letter `W`, or the uppercase form holds the word `WASH`.
pub open spec fn marks_wash_sale(note: Seq<char>, upper: Seq<char>) -> bool {
    note.contains('W') || has_run(upper, "WASH"@)
}

/// Whether a note marks a wash sale.
pub open spec fn is_wash_sale_note(note: Seq<char>) -> bool {
    marks_wash_sale(note, uppercase_of(note))
}

/// Whether optional notes mark a wash sale; absent notes mark none.
pub open spec fn is_wash_sale_flagged(notes: Option<String>) -> bool {
    match notes {
        Some(note) => is_wash_sale_note(note@),
        None => false,
    }
}

/// Calls `str::to_uppercase`. Trusted: the result is the text that
/// `uppercase_of` names for the argument.
#[verifier::external_body]
fn to_uppercase(text: &str) -> (r: String)
    ensures
        r@ == uppercase_of(text@),
{
    text.to_uppercase()
}

/// Decides from a note and its uppercase form whether the note marks a wash
/// sale.
pub fn wash_sale_marks(note: &str, upper: &str) -> (r: bool)
    ensures
        r == marks_wash_sale(note@, upper@),
{
    contains_char(note, 'W') || contains_run(upper, "WASH")
}

/// Whether a note marks a wash sale.
pub fn note_marks_wash_sale(note: &str) -> (r: bool)
    ensures
        r == is_wash_sale_note(note@),
{
    let upper = to_uppercase(note);
    wash_sale_marks(note, upper.as_str())
}

/// Whether optional notes mark a wash sale.
pub fn notes_flag_wash_sale(notes: &Option<String>) -> (r: bool)
    ensures
        r == is_wash_sale_flagged(*notes),
{
    match notes {
        Some(note) => note_marks_wash_sale(note.as_str()),
        None => false,
    }
}

} // verus!
