//! The parser's event types, as the verifier sees them.
use vstd::prelude::*;

verus! {

/// `pulldown_cmark::Event`: its variants are visible, so stages can match on them.
#[verifier::external_type_specification]
pub struct ExEvent<'a>(pulldown_cmark::Event<'a>);

/// `pulldown_cmark::Tag`: the tag of a start or end event, carried through untouched.
#[verifier::external_type_specification]
#[verifier::external_body]
pub struct ExTag<'a>(pulldown_cmark::Tag<'a>);

/// `pulldown_cmark::CowStr`: the text of a text-like event, carried through untouched.
#[verifier::external_type_specification]
#[verifier::external_body]
pub struct ExCowStr<'a>(pulldown_cmark::CowStr<'a>);

} // verus!
