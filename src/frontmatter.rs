//! Frontmatter values and the one lookup that stages make in them.
use serde_yaml::{Mapping, Value};
use vstd::prelude::*;

verus! {

/// `serde_yaml::Value`: its variants are visible, so stages can match on them.
#[verifier::external_type_specification]
pub struct ExValue(serde_yaml::Value);

/// `serde_yaml::Mapping`: a YAML mapping, read only through [`frontmatter_get`].
#[verifier::external_type_specification]
#[verifier::external_body]
pub struct ExMapping(serde_yaml::Mapping);

/// `serde_yaml::Number`: a YAML number, carried through untouched.
#[verifier::external_type_specification]
#[verifier::external_body]
pub struct ExNumber(serde_yaml::Number);

/// `serde_yaml::value::TaggedValue`: a value with a YAML `!Tag`, carried through untouched.
#[verifier::external_type_specification]
#[verifier::external_body]
pub struct ExTaggedValue(serde_yaml::value::TaggedValue);

/// What a `serde_yaml::Mapping` holds under string keys: the entry whose key
/// is the YAML string `s` stands under `s`; entries with other keys are left out.
pub uninterp spec fn string_entries(m: Mapping) -> Map<Seq<char>, Value>;

/// Relies on `serde_yaml::Mapping::get` with a `&str` index: it finds the
/// entry whose key is the YAML string equal to `key`, if there is one.
#[verifier::external_body]
pub(crate) fn frontmatter_get<'m>(m: &'m Mapping, key: &str) -> (r: Option<&'m Value>)
    ensures
        r.is_some() == string_entries(*m).contains_key(key@),
        r.is_some() ==> *r.unwrap() == string_entries(*m)[key@],
{
    m.get(key)
}

} // verus!
