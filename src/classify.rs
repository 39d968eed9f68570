use vstd::prelude::*;
use crate::model::{CategoryView, ValueCategory};

verus! {

/// A type name with every space taken out.
pub open spec fn without_spaces(s: Seq<char>) -> Seq<char> {
    s.filter(|c: char| c != ' ')
}

/// The names, spaces taken out, under which a text type is recognised.
pub open spec fn is_text_name(s: Seq<char>) -> bool {
    s == "String"@ || s == "Option<String>"@
}

/// The names, spaces taken out, under which an identifier type is recognised.
pub open spec fn is_identifier_name(s: Seq<char>) -> bool {
    s == "Uuid"@ || s == "uuid::Uuid"@ || s == "Option<Uuid>"@ || s == "Option<uuid::Uuid>"@
}

/// The category that a declared type name stands for.
pub open spec fn category_of(declared: Seq<char>) -> CategoryView {
    let n = without_spaces(declared);
    if is_text_name(n) {
        CategoryView::Text
    } else if is_identifier_name(n) {
        CategoryView::Identifier
    } else {
        CategoryView::Foreign(n)
    }
}

/// Relies on str::replace: every space is replaced by nothing, and the other
/// characters are kept in order.
#[verifier::external_body]
fn remove_spaces(s: &str) -> (r: String)
    ensures
        r@ == without_spaces(s@),
{
    s.replace(' ', "")
}

/// Maps a declared type name to its value category. Spaces in the name are
/// ignored; an unrecognised name is kept, without its spaces, as a foreign type.
pub fn classify(declared: &str) -> (r: ValueCategory)
    ensures
        r@ == category_of(declared@),
{
    let n = remove_spaces(declared);
    proof {
        reveal_strlit("String");
        reveal_strlit("Option<String>");
        reveal_strlit("Uuid");
        reveal_strlit("uuid::Uuid");
        reveal_strlit("Option<Uuid>");
        reveal_strlit("Option<uuid::Uuid>");
        assert(is_text_name(n@) ==> n@.len() == 6 || n@.len() == 14);
        assert(is_identifier_name(n@) ==> n@.len() == 4 || n@.len() == 10 || n@.len() == 12
            || n@.len() == 18);
    }
    if n == String::from_str("String") || n == String::from_str("Option<String>") {
        ValueCategory::Text
    } else if n == String::from_str("Uuid") || n == String::from_str("uuid::Uuid") || n
        == String::from_str("Option<Uuid>") || n == String::from_str("Option<uuid::Uuid>") {
        ValueCategory::Identifier
    } else {
        ValueCategory::Foreign(n)
    }
}

} // verus!
