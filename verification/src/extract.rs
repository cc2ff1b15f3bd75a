//! Members of JSON objects, required or optional.

use crate::error::Error;
use crate::json::{Json, JsonView};
use vstd::prelude::*;

verus! {

/// The characters of the member `key` of `obj`, where `obj` is an object that
/// has such a member and the member is a string.
pub open spec fn text_member(obj: JsonView, key: Seq<char>) -> Option<Seq<char>> {
    match obj.member(key) {
        Some(value) => value.as_text(),
        None => None,
    }
}

/// All the values of `items`, where each of them is there; `None` as soon as
/// one is missing.
pub open spec fn collect<A>(items: Seq<Option<A>>) -> Option<Seq<A>> {
    if forall|i: int| 0 <= i < items.len() ==> (#[trigger] items[i]) is Some {
        Some(Seq::new(items.len(), |i: int| items[i]->Some_0))
    } else {
        None
    }
}

/// A copy of the string member `key` of `obj`. That the member is absent, or
/// is no string, is a violation of the schema.
pub fn required_str(obj: &Json, key: &str) -> (text: Result<String, Error>)
    ensures
        match text {
            Ok(s) => text_member(obj@, key@) == Some(s@),
            Err(e) => e == Error::SchemaViolation && text_member(obj@, key@) is None,
        },
{
    match optional_str(obj, key) {
        Some(s) => Ok(s),
        None => Err(Error::SchemaViolation),
    }
}

/// A copy of the string member `key` of `obj`, and `None` where the member is
/// absent or is no string.
pub fn optional_str(obj: &Json, key: &str) -> (text: Option<String>)
    ensures
        match text {
            Some(s) => text_member(obj@, key@) == Some(s@),
            None => text_member(obj@, key@) is None,
        },
{
    match obj.get(key) {
        Some(value) => match value.as_str() {
            Some(s) => Some(s.to_owned()),
            None => None,
        },
        None => None,
    }
}

} // verus!
