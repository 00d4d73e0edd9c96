//! What is said of values that are shown.
use vstd::prelude::*;

use crate::json::JsonView;

verus! {

/// Whether an object shows an item under a key.
pub open spec fn shows(value: JsonView, key: Seq<char>, item: JsonView) -> bool {
    &&& value is Object
    &&& exists|i: int|
        0 <= i < value->Object_0.len() && #[trigger] value->Object_0[i] == (key, item)
}

/// Whether an object shows this many things.
pub open spec fn shows_only(value: JsonView, count: nat) -> bool {
    value is Object && value->Object_0.len() == count
}

/// What stands at a place of an object is shown.
pub proof fn lemma_shows(value: JsonView, i: int)
    requires
        value is Object,
        0 <= i < value->Object_0.len(),
    ensures
        shows(value, value->Object_0[i].0, value->Object_0[i].1),
{
    let entry = value->Object_0[i];
    assert(value->Object_0[i] == (entry.0, entry.1));
}

/// Everything that stands in an object is shown.
pub proof fn lemma_shows_all(value: JsonView)
    requires
        value is Object,
    ensures
        forall|i: int|
            0 <= i < value->Object_0.len() ==> shows(
                value,
                (#[trigger] value->Object_0[i]).0,
                value->Object_0[i].1,
            ),
{
    assert forall|i: int| 0 <= i < value->Object_0.len() implies shows(
        value,
        (#[trigger] value->Object_0[i]).0,
        value->Object_0[i].1,
    ) by {
        lemma_shows(value, i);
    }
}

/// Whether parameters are an object that holds no key but these.
pub open spec fn only_keys(params: JsonView, keys: Seq<Seq<char>>) -> bool {
    &&& params is Object
    &&& forall|i: int|
        0 <= i < params->Object_0.len() ==> keys.contains((#[trigger] params->Object_0[i]).0)
}

/// Whether a parameter is a text that is neither empty nor longer than 1024
/// bytes.
pub open spec fn gives_text(params: JsonView, key: Seq<char>, text: Seq<char>) -> bool {
    &&& crate::json::field(params, key) == Some(JsonView::Text(text))
    &&& 0 < text.len()
    &&& crate::text::utf8_len(text) <= 1024
}

} // verus!
