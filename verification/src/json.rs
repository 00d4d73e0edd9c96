//! JSON values of the bridge protocol: what they hold, how members are found,
//! a canonical form, and their reading and writing.
use vstd::prelude::*;
use vstd::utf8::*;

use serde_json::Value;

use crate::text::{decode_text, optional, same_text, string_views};
use crate::text_map::{
    at_most, lemma_text_le_antisymmetric, lemma_text_le_reflexive, lemma_text_le_total,
    lemma_text_le_transitive, text_le,
};

verus! {

/// A JSON value. A number keeps the form in which it was read: an integer, or
/// the text of anything else.
pub enum Json {
    Null,
    Bool(bool),
    Unsigned(u64),
    Negative(i64),
    Decimal(String),
    Text(String),
    Array(Vec<Json>),
    Object(Vec<Member>),
}

/// A member of an object.
pub struct Member {
    pub key: String,
    pub value: Json,
}

/// A JSON value as a mathematical value.
pub enum JsonView {
    Null,
    Bool(bool),
    Unsigned(u64),
    Negative(i64),
    Decimal(Seq<char>),
    Text(Seq<char>),
    Array(Seq<JsonView>),
    Object(Seq<(Seq<char>, JsonView)>),
}

/// The members of an object, in order.
pub type Members = Seq<(Seq<char>, JsonView)>;

impl View for Json {
    type V = JsonView;

    open spec fn view(&self) -> JsonView
        decreases self,
    {
        match self {
            Json::Null => JsonView::Null,
            Json::Bool(b) => JsonView::Bool(*b),
            Json::Unsigned(n) => JsonView::Unsigned(*n),
            Json::Negative(n) => JsonView::Negative(*n),
            Json::Decimal(text) => JsonView::Decimal(text@),
            Json::Text(text) => JsonView::Text(text@),
            Json::Array(items) => JsonView::Array(
                Seq::new(
                    items@.len(),
                    |i: int|
                        if 0 <= i < items@.len() {
                            items@[i].view()
                        } else {
                            JsonView::Null
                        },
                ),
            ),
            Json::Object(members) => JsonView::Object(
                Seq::new(
                    members@.len(),
                    |i: int|
                        if 0 <= i < members@.len() {
                            (members@[i].key@, members@[i].value.view())
                        } else {
                            (Seq::empty(), JsonView::Null)
                        },
                ),
            ),
        }
    }
}

/// The views of a list of values.
pub open spec fn item_views(items: Seq<Json>) -> Seq<JsonView> {
    Seq::new(items.len(), |i: int| items[i]@)
}

/// The views of a list of members.
pub open spec fn member_views(members: Seq<Member>) -> Members {
    Seq::new(members.len(), |i: int| (members[i].key@, members[i].value@))
}

pub proof fn lemma_views(value: Json)
    ensures
        value matches Json::Array(items) ==> value@ == JsonView::Array(item_views(items@)),
        value matches Json::Object(members) ==> value@ == JsonView::Object(member_views(members@)),
{
    reveal_with_fuel(<Json as View>::view, 3);
    match value {
        Json::Array(items) => {
            assert(value@->Array_0 =~= item_views(items@));
        },
        Json::Object(members) => {
            assert(value@->Object_0 =~= member_views(members@));
        },
        _ => {},
    }
}

impl Json {
    /// A copy of the value.
    pub fn duplicate(&self) -> (out: Json)
        ensures
            out@ == self@,
        decreases self,
    {
        match self {
            Json::Null => Json::Null,
            Json::Bool(b) => Json::Bool(*b),
            Json::Unsigned(n) => Json::Unsigned(*n),
            Json::Negative(n) => Json::Negative(*n),
            Json::Decimal(text) => Json::Decimal(text.clone()),
            Json::Text(text) => Json::Text(text.clone()),
            Json::Array(items) => {
                let mut copied: Vec<Json> = Vec::new();
                let mut i: usize = 0;
                while i < items.len()
                    invariant
                        i <= items.len(),
                        self matches Json::Array(all) && all == items,
                        copied@.len() == i,
                        forall|j: int| 0 <= j < i ==> (#[trigger] copied@[j])@ == items@[j]@,
                    decreases items.len() - i,
                {
                    copied.push(items[i].duplicate());
                    i = i + 1;
                }
                let out = Json::Array(copied);
                proof {
                    lemma_views(*self);
                    lemma_views(out);
                    assert(item_views(copied@) =~= item_views(items@));
                }
                out
            },
            Json::Object(members) => {
                let mut copied: Vec<Member> = Vec::new();
                let mut i: usize = 0;
                while i < members.len()
                    invariant
                        i <= members.len(),
                        self matches Json::Object(all) && all == members,
                        copied@.len() == i,
                        forall|j: int|
                            0 <= j < i ==> (#[trigger] copied@[j]).key@ == members@[j].key@
                                && copied@[j].value@ == members@[j].value@,
                    decreases members.len() - i,
                {
                    let value = members[i].value.duplicate();
                    copied.push(Member { key: members[i].key.clone(), value });
                    i = i + 1;
                }
                let out = Json::Object(copied);
                proof {
                    lemma_views(*self);
                    lemma_views(out);
                    assert(member_views(copied@) =~= member_views(members@));
                }
                out
            },
        }
    }
}

/// The first member with a key.
pub open spec fn member(members: Members, key: Seq<char>) -> Option<JsonView>
    decreases members.len(),
{
    if members.len() == 0 {
        None
    } else if members[0].0 == key {
        Some(members[0].1)
    } else {
        member(members.skip(1), key)
    }
}

/// The member of a value, where it is an object.
pub open spec fn field(value: JsonView, key: Seq<char>) -> Option<JsonView> {
    match value {
        JsonView::Object(members) => member(members, key),
        _ => None,
    }
}

/// The text in a value that may be missing.
pub open spec fn text_in(value: Option<JsonView>) -> Option<Seq<char>> {
    match value {
        Some(JsonView::Text(text)) => Some(text),
        _ => None,
    }
}

/// The unsigned number in a value that may be missing.
pub open spec fn unsigned_in(value: Option<JsonView>) -> Option<u64> {
    match value {
        Some(JsonView::Unsigned(n)) => Some(n),
        _ => None,
    }
}

/// The signed number in a value that may be missing.
pub open spec fn signed_in(value: Option<JsonView>) -> Option<i64> {
    match value {
        Some(JsonView::Unsigned(n)) => if n <= i64::MAX {
            Some(n as i64)
        } else {
            None
        },
        Some(JsonView::Negative(n)) => Some(n),
        _ => None,
    }
}

/// The view of a borrowed value that may be missing.
pub open spec fn found(value: Option<&Json>) -> Option<JsonView> {
    match value {
        Some(json) => Some(json@),
        None => None,
    }
}

/// The view of a borrowed text that may be missing.
pub open spec fn found_text(value: Option<&str>) -> Option<Seq<char>> {
    match value {
        Some(text) => Some(text@),
        None => None,
    }
}

proof fn lemma_member_skips(members: Members, key: Seq<char>, i: int)
    requires
        0 <= i <= members.len(),
        forall|j: int| 0 <= j < i ==> (#[trigger] members[j]).0 != key,
    ensures
        member(members, key) == member(members.skip(i), key),
    decreases i,
{
    if i == 0 {
        assert(members.skip(0) =~= members);
    } else {
        assert forall|j: int| 0 <= j < i - 1 implies (#[trigger] members.skip(1)[j]).0 != key by {
            assert(members.skip(1)[j] == members[j + 1]);
        }
        lemma_member_skips(members.skip(1), key, i - 1);
        assert(members.skip(1).skip(i - 1) =~= members.skip(i));
        assert(members[0].0 != key);
    }
}

impl Json {
    /// The first member with the key, where the value is an object.
    pub fn get(&self, key: &str) -> (r: Option<&Json>)
        ensures
            found(r) == field(self@, key@),
    {
        match self {
            Json::Object(members) => {
                let ghost views = member_views(members@);
                proof {
                    lemma_views(*self);
                }
                let mut i: usize = 0;
                while i < members.len()
                    invariant
                        i <= members.len(),
                        views == member_views(members@),
                        self@ == JsonView::Object(views),
                        forall|j: int| 0 <= j < i ==> (#[trigger] views[j]).0 != key@,
                    decreases members.len() - i,
                {
                    if same_text(members[i].key.as_str(), key) {
                        proof {
                            lemma_member_skips(views, key@, i as int);
                            assert(views.skip(i as int)[0] == views[i as int]);
                        }
                        return Some(&members[i].value);
                    }
                    i = i + 1;
                }
                proof {
                    lemma_member_skips(views, key@, i as int);
                }
                None
            },
            _ => None,
        }
    }

    /// The text, where the value is one.
    pub fn as_text(&self) -> (r: Option<&str>)
        ensures
            found_text(r) == text_in(Some(self@)),
    {
        match self {
            Json::Text(text) => Some(text.as_str()),
            _ => None,
        }
    }

    /// The number, where the value is an unsigned integer.
    pub fn as_u64(&self) -> (r: Option<u64>)
        ensures
            r == unsigned_in(Some(self@)),
    {
        match self {
            Json::Unsigned(n) => Some(*n),
            _ => None,
        }
    }

    /// The number, where the value is an integer that fits.
    pub fn as_i64(&self) -> (r: Option<i64>)
        ensures
            r == signed_in(Some(self@)),
    {
        match self {
            Json::Unsigned(n) => if *n <= i64::MAX as u64 {
                Some(*n as i64)
            } else {
                None
            },
            Json::Negative(n) => Some(*n),
            _ => None,
        }
    }

    pub fn is_object(&self) -> (r: bool)
        ensures
            r == self@ is Object,
    {
        match self {
            Json::Object(_) => true,
            _ => false,
        }
    }

    /// The items, where the value is an array.
    pub fn as_array(&self) -> (r: Option<&Vec<Json>>)
        ensures
            r is Some == self@ is Array,
            r is Some ==> self@ == JsonView::Array(item_views(r->0@)),
    {
        proof {
            lemma_views(*self);
        }
        match self {
            Json::Array(items) => Some(items),
            _ => None,
        }
    }

    /// The members, where the value is an object.
    pub fn as_object(&self) -> (r: Option<&Vec<Member>>)
        ensures
            r is Some == self@ is Object,
            r is Some ==> self@ == JsonView::Object(member_views(r->0@)),
    {
        proof {
            lemma_views(*self);
        }
        match self {
            Json::Object(members) => Some(members),
            _ => None,
        }
    }
}

/// The text of a member.
pub fn text_field<'a>(value: &'a Json, key: &str) -> (r: Option<&'a str>)
    ensures
        found_text(r) == text_in(field(value@, key@)),
{
    match value.get(key) {
        Some(found) => found.as_text(),
        None => None,
    }
}

/// The unsigned number of a member.
pub fn unsigned_field(value: &Json, key: &str) -> (r: Option<u64>)
    ensures
        r == unsigned_in(field(value@, key@)),
{
    match value.get(key) {
        Some(found) => found.as_u64(),
        None => None,
    }
}

/// The signed number of a member.
pub fn signed_field(value: &Json, key: &str) -> (r: Option<i64>)
    ensures
        r == signed_in(field(value@, key@)),
{
    match value.get(key) {
        Some(found) => found.as_i64(),
        None => None,
    }
}

/// A text as a value.
pub fn text(value: &str) -> (out: Json)
    ensures
        out@ == JsonView::Text(value@),
{
    Json::Text(value.to_owned())
}

/// A text that may be missing as a value: `null` stands for none.
pub open spec fn text_or_null(value: Option<Seq<char>>) -> JsonView {
    match value {
        Some(text) => JsonView::Text(text),
        None => JsonView::Null,
    }
}

/// A text that may be missing as a value.
pub fn optional_text(value: &Option<String>) -> (out: Json)
    ensures
        out@ == text_or_null(optional(*value)),
{
    match value {
        Some(content) => text(content.as_str()),
        None => Json::Null,
    }
}

/// An object that is put together member by member.
pub struct ObjectBuilder {
    members: Vec<Member>,
}

impl View for ObjectBuilder {
    type V = Members;

    closed spec fn view(&self) -> Members {
        member_views(self.members@)
    }
}

impl ObjectBuilder {
    pub fn new() -> (builder: ObjectBuilder)
        ensures
            builder@ == Seq::<(Seq<char>, JsonView)>::empty(),
    {
        let builder = ObjectBuilder { members: Vec::new() };
        assert(builder@ =~= Seq::<(Seq<char>, JsonView)>::empty());
        builder
    }

    /// Adds a member at the end.
    pub fn put(&mut self, key: &str, value: Json)
        ensures
            final(self)@ == old(self)@.push((key@, value@)),
    {
        self.members.push(Member { key: key.to_owned(), value });
        assert(self@ =~= old(self)@.push((key@, value@)));
    }

    /// Adds a text member at the end.
    pub fn put_text(&mut self, key: &str, value: &str)
        ensures
            final(self)@ == old(self)@.push((key@, JsonView::Text(value@))),
    {
        self.put(key, text(value));
    }

    pub fn finish(self) -> (out: Json)
        ensures
            out@ == JsonView::Object(self@),
    {
        let out = Json::Object(self.members);
        proof {
            lemma_views(out);
        }
        out
    }
}

/// An object with one member more, behind the others.
pub open spec fn extended(value: JsonView, key: Seq<char>, item: JsonView) -> JsonView {
    match value {
        JsonView::Object(members) => JsonView::Object(members.push((key, item))),
        other => other,
    }
}

/// An object with one member more, behind the others.
pub fn with_member(value: Json, key: &str, item: Json) -> (out: Json)
    ensures
        out@ == extended(value@, key@, item@),
{
    proof {
        lemma_views(value);
    }
    match value {
        Json::Object(members) => {
            let mut builder = ObjectBuilder { members };
            assert(builder@ =~= value@->Object_0);
            builder.put(key, item);
            builder.finish()
        },
        other => other,
    }
}

/// An array of values.
pub fn array(items: Vec<Json>) -> (out: Json)
    ensures
        out@ == JsonView::Array(item_views(items@)),
{
    let out = Json::Array(items);
    proof {
        lemma_views(out);
    }
    out
}

/// Texts as JSON values.
pub open spec fn text_values(list: Seq<Seq<char>>) -> Seq<JsonView> {
    Seq::new(list.len(), |i: int| JsonView::Text(list[i]))
}

/// An array of texts.
pub fn text_array(list: &Vec<String>) -> (out: Json)
    ensures
        out@ == JsonView::Array(text_values(string_views(list@))),
{
    let mut values: Vec<Json> = Vec::new();
    let mut i: usize = 0;
    while i < list.len()
        invariant
            i <= list@.len(),
            values@.len() == i,
            forall|j: int| 0 <= j < i ==> (#[trigger] values@[j])@ == JsonView::Text(list@[j]@),
        decreases list@.len() - i,
    {
        values.push(text(list[i].as_str()));
        i = i + 1;
    }
    assert(item_views(values@) =~= text_values(string_views(list@)));
    array(values)
}

/// Puts a member behind the last one whose key is not greater.
pub open spec fn insert_member(members: Members, m: (Seq<char>, JsonView)) -> Members
    decreases members.len(),
{
    if members.len() == 0 || text_le(members.last().0, m.0) {
        members.push(m)
    } else {
        insert_member(members.drop_last(), m).push(members.last())
    }
}

/// The members in the order of their keys.
pub open spec fn sorted_members(members: Members) -> Members
    decreases members.len(),
{
    if members.len() == 0 {
        members
    } else {
        insert_member(sorted_members(members.drop_last()), members.last())
    }
}

/// The value with the members of every object in the order of their keys.
pub open spec fn canonical(value: JsonView) -> JsonView
    decreases value,
{
    match value {
        JsonView::Array(items) => JsonView::Array(
            Seq::new(
                items.len(),
                |i: int|
                    if 0 <= i < items.len() {
                        canonical(items[i])
                    } else {
                        JsonView::Null
                    },
            ),
        ),
        JsonView::Object(members) => JsonView::Object(sorted_members(canonical_values(members))),
        other => other,
    }
}

/// The items of an array, each in canonical form.
pub open spec fn canonical_items(items: Seq<JsonView>) -> Seq<JsonView> {
    Seq::new(items.len(), |i: int| canonical(items[i]))
}

/// The members of an object, each value in canonical form.
pub open spec fn canonical_values(members: Members) -> Members
    decreases members,
{
    if members.len() == 0 {
        members
    } else {
        canonical_values(members.drop_last()).push(
            (members.last().0, canonical(members.last().1)),
        )
    }
}

/// Canonical values keep their keys and places.
pub proof fn lemma_canonical_values(members: Members)
    ensures
        canonical_values(members).len() == members.len(),
        forall|i: int|
            0 <= i < members.len() ==> #[trigger] canonical_values(members)[i] == (
                members[i].0,
                canonical(members[i].1),
            ),
    decreases members.len(),
{
    if members.len() > 0 {
        lemma_canonical_values(members.drop_last());
    }
}

proof fn lemma_canonical(value: JsonView)
    ensures
        value matches JsonView::Array(items) ==> canonical(value) == JsonView::Array(
            canonical_items(items),
        ),
        value matches JsonView::Object(members) ==> canonical(value) == JsonView::Object(
            sorted_members(canonical_values(members)),
        ),
{
    reveal_with_fuel(canonical, 3);
    if let JsonView::Array(items) = value {
        assert(canonical(value)->Array_0 =~= canonical_items(items));
    }
}

proof fn lemma_insert_position(members: Members, m: (Seq<char>, JsonView), at: int)
    requires
        0 <= at <= members.len(),
        forall|j: int| at <= j < members.len() ==> !text_le((#[trigger] members[j]).0, m.0),
        at == 0 || text_le(members[at - 1].0, m.0),
    ensures
        insert_member(members, m) == members.insert(at, m),
    decreases members.len(),
{
    if at == members.len() {
        assert(members.insert(at, m) =~= members.push(m));
    } else {
        lemma_insert_position(members.drop_last(), m, at);
        assert(members.insert(at, m) =~= members.drop_last().insert(at, m).push(members.last()));
    }
}

/// The value in canonical form.
pub fn canonicalize(value: &Json) -> (out: Json)
    ensures
        out@ == canonical(value@),
    decreases value,
{
    proof {
        lemma_views(*value);
        lemma_canonical(value@);
    }
    match value {
        Json::Array(items) => {
            let mut done: Vec<Json> = Vec::new();
            let mut i: usize = 0;
            while i < items.len()
                invariant
                    i <= items.len(),
                    value matches Json::Array(all) && all == items,
                    done@.len() == i,
                    forall|j: int| 0 <= j < i ==> (#[trigger] done@[j])@ == canonical(items@[j]@),
                decreases items.len() - i,
            {
                done.push(canonicalize(&items[i]));
                i = i + 1;
            }
            assert(item_views(done@) =~= canonical_items(item_views(items@)));
            array(done)
        },
        Json::Object(members) => {
            let ghost mapped = canonical_values(member_views(members@));
            proof {
                lemma_canonical_values(member_views(members@));
            }
            let mut done: Vec<Member> = Vec::new();
            let mut i: usize = 0;
            assert(member_views(done@) =~= sorted_members(mapped.take(0)));
            while i < members.len()
                invariant
                    i <= members.len(),
                    value matches Json::Object(all) && all == members,
                    mapped.len() == members@.len(),
                    forall|j: int|
                        0 <= j < members@.len() ==> #[trigger] mapped[j] == (
                            members@[j].key@,
                            canonical(members@[j].value@),
                        ),
                    member_views(done@) == sorted_members(mapped.take(i as int)),
                decreases members.len() - i,
            {
                let ghost before = member_views(done@);
                let ghost m = (members@[i as int].key@, canonical(members@[i as int].value@));
                let entry = Member {
                    key: members[i].key.clone(),
                    value: canonicalize(&members[i].value),
                };
                let mut at: usize = done.len();
                while at > 0 && !at_most(done[at - 1].key.as_str(), entry.key.as_str())
                    invariant
                        at <= done.len(),
                        before == member_views(done@),
                        entry.key@ == m.0,
                        forall|j: int|
                            at <= j < before.len() ==> !text_le((#[trigger] before[j]).0, m.0),
                    decreases at,
                {
                    at = at - 1;
                }
                done.insert(at, entry);
                i = i + 1;
                proof {
                    lemma_insert_position(before, m, at as int);
                    assert(member_views(done@) =~= before.insert(at as int, m));
                    assert(mapped.take(i as int).drop_last() =~= mapped.take(i - 1));
                    assert(mapped.take(i as int).last() == m);
                }
            }
            assert(mapped.take(i as int) =~= mapped);
            let out = Json::Object(done);
            proof {
                lemma_views(out);
            }
            out
        },
        _ => value.duplicate(),
    }
}

/// Copies of values.
pub fn duplicate_items(items: &Vec<Json>) -> (out: Vec<Json>)
    ensures
        item_views(out@) == item_views(items@),
{
    let mut out: Vec<Json> = Vec::new();
    let mut i: usize = 0;
    while i < items.len()
        invariant
            i <= items@.len(),
            out@.len() == i,
            forall|j: int| 0 <= j < i ==> (#[trigger] out@[j])@ == items@[j]@,
        decreases items@.len() - i,
    {
        out.push(items[i].duplicate());
        i = i + 1;
    }
    assert(item_views(out@) =~= item_views(items@));
    out
}

/// A value, or nothing.
pub open spec fn value_or_null(value: Option<JsonView>) -> JsonView {
    match value {
        Some(value) => value,
        None => JsonView::Null,
    }
}

/// A value, or nothing.
pub fn optional_value(value: &Option<Json>) -> (out: Json)
    ensures
        out@ == value_or_null(optional(*value)),
{
    match value {
        Some(value) => value.duplicate(),
        None => Json::Null,
    }
}

/// The JSON value that bytes hold; `None` where they hold none.
pub uninterp spec fn parsed_json(bytes: Seq<u8>) -> Option<JsonView>;

/// The compact encoding of a value; `None` where a number's text is no number.
pub uninterp spec fn encoded_json(value: JsonView) -> Option<Seq<u8>>;

/// The encoding of a value over several lines; `None` where a number's text is
/// no number.
pub uninterp spec fn pretty_text(value: JsonView) -> Option<Seq<char>>;

/// The value type of `serde_json`.
#[verifier::external_type_specification]
#[verifier::external_body]
pub struct ExJsonValue(serde_json::Value);

/// Turns a `serde_json::Value` into a `Json`, one variant for one.
#[verifier::external_body]
fn json_from_value(value: Value) -> Json {
    match value {
        Value::Null => Json::Null,
        Value::Bool(flag) => Json::Bool(flag),
        Value::Number(number) => match (number.as_u64(), number.as_i64()) {
            (Some(value), _) => Json::Unsigned(value),
            (_, Some(value)) => Json::Negative(value),
            _ => Json::Decimal(number.to_string()),
        },
        Value::String(text) => Json::Text(text),
        Value::Array(items) => Json::Array(items.into_iter().map(json_from_value).collect()),
        Value::Object(members) => Json::Object(
            members.into_iter().map(|(key, item)| Member { key, value: json_from_value(item) }).collect()),
    }
}

/// Turns a `Json` into a `serde_json::Value`, one variant for one; `None` where
/// the text of a number is not a number.
#[verifier::external_body]
fn value_from_json(value: &Json) -> Option<Value> {
    match value {
        Json::Null => Some(Value::Null),
        Json::Bool(flag) => Some(Value::Bool(*flag)),
        Json::Unsigned(number) => Some((*number).into()),
        Json::Negative(number) => Some((*number).into()),
        Json::Decimal(text) => text.parse().ok().map(Value::Number),
        Json::Text(text) => Some(Value::String(text.clone())),
        Json::Array(items) => items.iter().map(value_from_json).collect(),
        Json::Object(members) => members.iter()
            .map(|member| Some((member.key.clone(), value_from_json(&member.value)?)))
            .collect(),
    }
}

/// `serde_json::from_slice` into a `serde_json::Value`: the value that the
/// bytes hold, or none where they are not one JSON text.
#[verifier::external_body]
pub(crate) fn parse_json(bytes: &[u8]) -> (r: Option<Json>)
    ensures
        optional(r) == parsed_json(bytes@),
{
    serde_json::from_slice(bytes).ok().map(json_from_value)
}

/// `serde_json::to_vec` on a `serde_json::Value`: the compact encoding. It
/// escapes every control character inside texts and writes none between tokens.
#[verifier::external_body]
pub(crate) fn encode_json(value: &Json) -> (r: Option<Vec<u8>>)
    ensures
        optional(r) == encoded_json(value@),
        r is Some ==> forall|i: int| 0 <= i < r->0@.len() ==> #[trigger] r->0@[i] >= 0x20,
{
    serde_json::to_vec(&value_from_json(value)?).ok()
}

/// `serde_json::to_string_pretty` on a `serde_json::Value`: the encoding over
/// several lines.
#[verifier::external_body]
pub(crate) fn pretty_json(value: &Json) -> (r: Option<String>)
    ensures
        optional(r) == pretty_text(value@),
{
    serde_json::to_string_pretty(&value_from_json(value)?).ok()
}

/// The compact encoding of a value as a text.
pub open spec fn compact_text(value: JsonView) -> Option<Seq<char>> {
    match encoded_json(value) {
        Some(bytes) => if valid_utf8(bytes) {
            Some(decode_utf8(bytes))
        } else {
            None
        },
        None => None,
    }
}

/// The compact encoding of a value as a text.
pub fn compact_json(value: &Json) -> (r: Option<String>)
    ensures
        optional(r) == compact_text(value@),
{
    match encode_json(value) {
        Some(bytes) => decode_text(bytes),
        None => None,
    }
}

/// Members whose keys are in order.
pub open spec fn in_key_order(members: Members) -> bool {
    forall|i: int, j: int|
        0 <= i <= j < members.len() ==> text_le((#[trigger] members[i]).0, (#[trigger] members[j]).0)
}

/// Members whose keys are all different.
pub open spec fn distinct_keys(members: Members) -> bool {
    forall|i: int, j: int|
        0 <= i < j < members.len() ==> (#[trigger] members[i]).0 != (#[trigger] members[j]).0
}

proof fn lemma_insert_contains(members: Members, m: (Seq<char>, JsonView), x: (Seq<char>, JsonView))
    ensures
        insert_member(members, m).contains(x) == (members.contains(x) || x == m),
        insert_member(members, m).len() == members.len() + 1,
    decreases members.len(),
{
    if members.len() == 0 || text_le(members.last().0, m.0) {
        let out = members.push(m);
        if members.contains(x) {
            let i = choose|i: int| 0 <= i < members.len() && members[i] == x;
            assert(out[i] == x);
        }
        if x == m {
            assert(out[members.len() as int] == x);
        }
        if out.contains(x) && x != m {
            let i = choose|i: int| 0 <= i < out.len() && out[i] == x;
            assert(members[i] == x);
        }
    } else {
        let rest = insert_member(members.drop_last(), m);
        lemma_insert_contains(members.drop_last(), m, x);
        let out = rest.push(members.last());
        if rest.contains(x) {
            let i = choose|i: int| 0 <= i < rest.len() && rest[i] == x;
            assert(out[i] == x);
        }
        if members.contains(x) {
            let i = choose|i: int| 0 <= i < members.len() && members[i] == x;
            if i < members.len() - 1 {
                assert(members.drop_last()[i] == x);
            } else {
                assert(out[rest.len() as int] == x);
            }
        }
        if out.contains(x) {
            let i = choose|i: int| 0 <= i < out.len() && out[i] == x;
            if i < rest.len() {
                assert(rest[i] == x);
                if members.drop_last().contains(x) {
                    let j = choose|j: int|
                        0 <= j < members.drop_last().len() && members.drop_last()[j] == x;
                    assert(members[j] == x);
                }
            } else {
                assert(members[members.len() - 1] == x);
            }
        }
    }
}

proof fn lemma_insert_keeps_order(members: Members, m: (Seq<char>, JsonView))
    requires
        in_key_order(members),
    ensures
        in_key_order(insert_member(members, m)),
    decreases members.len(),
{
    let out = insert_member(members, m);
    if members.len() == 0 || text_le(members.last().0, m.0) {
        assert forall|i: int, j: int| 0 <= i <= j < out.len() implies text_le(
            (#[trigger] out[i]).0,
            (#[trigger] out[j]).0,
        ) by {
            if j == members.len() {
                if i < members.len() {
                    assert(text_le(members[i].0, members[members.len() - 1].0));
                    lemma_text_le_transitive(members[i].0, members.last().0, m.0);
                } else {
                    lemma_text_le_reflexive(m.0);
                }
            } else {
                assert(text_le(members[i].0, members[j].0));
            }
        }
    } else {
        let rest = insert_member(members.drop_last(), m);
        assert(in_key_order(members.drop_last())) by {
            assert forall|i: int, j: int| 0 <= i <= j < members.drop_last().len() implies text_le(
                (#[trigger] members.drop_last()[i]).0,
                (#[trigger] members.drop_last()[j]).0,
            ) by {
                assert(text_le(members[i].0, members[j].0));
            }
        }
        lemma_insert_keeps_order(members.drop_last(), m);
        lemma_text_le_total(members.last().0, m.0);
        assert forall|i: int, j: int| 0 <= i <= j < out.len() implies text_le(
            (#[trigger] out[i]).0,
            (#[trigger] out[j]).0,
        ) by {
            if j < rest.len() {
                assert(text_le(rest[i].0, rest[j].0));
            } else if i < rest.len() {
                assert(rest.contains(rest[i]));
                lemma_insert_contains(members.drop_last(), m, rest[i]);
                if rest[i] != m {
                    let k = choose|k: int|
                        0 <= k < members.drop_last().len() && members.drop_last()[k] == rest[i];
                    assert(text_le(members[k].0, members[members.len() - 1].0));
                }
            } else {
                lemma_text_le_reflexive(members.last().0);
            }
        }
    }
}

proof fn lemma_sorted(members: Members)
    ensures
        in_key_order(sorted_members(members)),
        sorted_members(members).len() == members.len(),
        forall|x: (Seq<char>, JsonView)| #[trigger]
            sorted_members(members).contains(x) == members.contains(x),
    decreases members.len(),
{
    if members.len() > 0 {
        let rest = members.drop_last();
        lemma_sorted(rest);
        lemma_insert_keeps_order(sorted_members(rest), members.last());
        lemma_insert_contains(sorted_members(rest), members.last(), members.last());
        assert forall|x: (Seq<char>, JsonView)| #[trigger]
            sorted_members(members).contains(x) == members.contains(x) by {
            lemma_insert_contains(sorted_members(rest), members.last(), x);
            if members.contains(x) {
                let i = choose|i: int| 0 <= i < members.len() && members[i] == x;
                if i < members.len() - 1 {
                    assert(rest[i] == x);
                }
            }
            if rest.contains(x) {
                let i = choose|i: int| 0 <= i < rest.len() && rest[i] == x;
                assert(members[i] == x);
            }
            assert(members[members.len() - 1] == members.last());
        }
    }
}

/// The canonical form of an object holds the same members, with canonical
/// values, in the order of their keys.
pub proof fn law_canonical_object(members: Members)
    ensures
        canonical(JsonView::Object(members)) is Object,
        in_key_order(canonical(JsonView::Object(members))->Object_0),
        canonical(JsonView::Object(members))->Object_0.len() == members.len(),
        forall|x: (Seq<char>, JsonView)| #[trigger]
            canonical(JsonView::Object(members))->Object_0.contains(x) == canonical_values(
                members,
            ).contains(x),
{
    lemma_canonical(JsonView::Object(members));
    lemma_sorted(canonical_values(members));
    lemma_canonical_values(members);
}

proof fn lemma_sorted_is_stable(members: Members)
    requires
        in_key_order(members),
    ensures
        sorted_members(members) == members,
    decreases members.len(),
{
    if members.len() > 0 {
        let rest = members.drop_last();
        assert forall|i: int, j: int| 0 <= i <= j < rest.len() implies text_le(
            (#[trigger] rest[i]).0,
            (#[trigger] rest[j]).0,
        ) by {
            assert(text_le(members[i].0, members[j].0));
        }
        lemma_sorted_is_stable(rest);
        if rest.len() > 0 {
            assert(text_le(members[members.len() - 2].0, members[members.len() - 1].0));
        }
        assert(rest.push(members.last()) =~= members);
    }
}

/// Canonical values stay as they are.
pub proof fn law_canonical_is_idempotent(value: JsonView)
    ensures
        canonical(canonical(value)) == canonical(value),
    decreases value,
{
    lemma_canonical(value);
    lemma_canonical(canonical(value));
    match value {
        JsonView::Array(items) => {
            assert forall|i: int| 0 <= i < items.len() implies canonical(
                canonical(#[trigger] items[i]),
            ) == canonical(items[i]) by {
                law_canonical_is_idempotent(items[i]);
            }
            assert(canonical_items(canonical_items(items)) =~= canonical_items(items));
        },
        JsonView::Object(members) => {
            let sorted = sorted_members(canonical_values(members));
            lemma_sorted(canonical_values(members));
            lemma_canonical_values(members);
            lemma_canonical_values(sorted);
            assert forall|i: int| 0 <= i < sorted.len() implies canonical(#[trigger] sorted[i].1)
                == sorted[i].1 by {
                assert(sorted.contains(sorted[i]));
                let k = choose|k: int|
                    0 <= k < canonical_values(members).len() && canonical_values(members)[k]
                        == sorted[i];
                law_canonical_is_idempotent(members[k].1);
            }
            assert(canonical_values(sorted) =~= sorted);
            lemma_sorted_is_stable(sorted);
        },
        _ => {},
    }
}

proof fn lemma_ordered_is_unique(a: Members, b: Members)
    requires
        in_key_order(a),
        in_key_order(b),
        distinct_keys(a),
        distinct_keys(b),
        forall|x: (Seq<char>, JsonView)| #[trigger] a.contains(x) == b.contains(x),
    ensures
        a == b,
    decreases a.len(),
{
    if a.len() == 0 {
        if b.len() > 0 {
            assert(b.contains(b[0]));
            assert(a.contains(b[0]));
        }
        assert(a =~= b);
    } else {
        assert(a.contains(a.last()));
        assert(b.contains(a.last()));
        let k = choose|k: int| 0 <= k < b.len() && b[k] == a.last();
        assert(b.contains(b.last()));
        assert(a.contains(b.last()));
        let l = choose|l: int| 0 <= l < a.len() && a[l] == b.last();
        assert(text_le(b[k].0, b[b.len() - 1].0));
        assert(text_le(a[l].0, a[a.len() - 1].0));
        lemma_text_le_antisymmetric(a.last().0, b.last().0);
        assert(k == b.len() - 1) by {
            if k < b.len() - 1 {
                assert(b[k].0 != b[b.len() - 1].0);
            }
        }
        let ra = a.drop_last();
        let rb = b.drop_last();
        assert(in_key_order(ra)) by {
            assert forall|i: int, j: int| 0 <= i <= j < ra.len() implies text_le(
                (#[trigger] ra[i]).0,
                (#[trigger] ra[j]).0,
            ) by {
                assert(text_le(a[i].0, a[j].0));
            }
        }
        assert(in_key_order(rb)) by {
            assert forall|i: int, j: int| 0 <= i <= j < rb.len() implies text_le(
                (#[trigger] rb[i]).0,
                (#[trigger] rb[j]).0,
            ) by {
                assert(text_le(b[i].0, b[j].0));
            }
        }
        assert(distinct_keys(ra)) by {
            assert forall|i: int, j: int| 0 <= i < j < ra.len() implies (#[trigger] ra[i]).0 != (
            #[trigger] ra[j]).0 by {
                assert(a[i].0 != a[j].0);
            }
        }
        assert(distinct_keys(rb)) by {
            assert forall|i: int, j: int| 0 <= i < j < rb.len() implies (#[trigger] rb[i]).0 != (
            #[trigger] rb[j]).0 by {
                assert(b[i].0 != b[j].0);
            }
        }
        assert forall|x: (Seq<char>, JsonView)| #[trigger] ra.contains(x) == rb.contains(x) by {
            if ra.contains(x) {
                let i = choose|i: int| 0 <= i < ra.len() && ra[i] == x;
                assert(a[i] == x);
                assert(a.contains(x));
                assert(b.contains(x));
                let j = choose|j: int| 0 <= j < b.len() && b[j] == x;
                assert(a[i].0 != a[a.len() - 1].0);
                assert(rb[j] == x);
            }
            if rb.contains(x) {
                let j = choose|j: int| 0 <= j < rb.len() && rb[j] == x;
                assert(b[j] == x);
                assert(b.contains(x));
                assert(a.contains(x));
                let i = choose|i: int| 0 <= i < a.len() && a[i] == x;
                assert(b[j].0 != b[b.len() - 1].0);
                assert(ra[i] == x);
            }
        }
        lemma_ordered_is_unique(ra, rb);
        assert(a =~= ra.push(a.last()));
        assert(b =~= rb.push(b.last()));
    }
}

proof fn lemma_sorted_keeps_distinct(members: Members)
    requires
        distinct_keys(members),
    ensures
        distinct_keys(sorted_members(members)),
    decreases members.len(),
{
    if members.len() > 0 {
        let rest = members.drop_last();
        assert(distinct_keys(rest)) by {
            assert forall|i: int, j: int| 0 <= i < j < rest.len() implies (#[trigger] rest[i]).0
                != (#[trigger] rest[j]).0 by {
                assert(members[i].0 != members[j].0);
            }
        }
        lemma_sorted_keeps_distinct(rest);
        let sorted = sorted_members(rest);
        lemma_sorted(rest);
        assert forall|i: int| 0 <= i < sorted.len() implies (#[trigger] sorted[i]).0
            != members.last().0 by {
            assert(sorted.contains(sorted[i]));
            let k = choose|k: int| 0 <= k < rest.len() && rest[k] == sorted[i];
            assert(members[k].0 != members[members.len() - 1].0);
        }
        lemma_insert_keeps_distinct(sorted, members.last());
    }
}

proof fn lemma_insert_keeps_distinct(members: Members, m: (Seq<char>, JsonView))
    requires
        distinct_keys(members),
        forall|i: int| 0 <= i < members.len() ==> (#[trigger] members[i]).0 != m.0,
    ensures
        distinct_keys(insert_member(members, m)),
    decreases members.len(),
{
    let out = insert_member(members, m);
    if members.len() == 0 || text_le(members.last().0, m.0) {
        assert forall|i: int, j: int| 0 <= i < j < out.len() implies (#[trigger] out[i]).0 != (
        #[trigger] out[j]).0 by {
            assert(out[i] == members[i]);
            if j < members.len() {
                assert(members[i].0 != members[j].0);
            }
        }
    } else {
        let rest = members.drop_last();
        assert(distinct_keys(rest)) by {
            assert forall|i: int, j: int| 0 <= i < j < rest.len() implies (#[trigger] rest[i]).0
                != (#[trigger] rest[j]).0 by {
                assert(members[i].0 != members[j].0);
            }
        }
        assert forall|i: int| 0 <= i < rest.len() implies (#[trigger] rest[i]).0 != m.0 by {
            assert(members[i].0 != m.0);
        }
        lemma_insert_keeps_distinct(rest, m);
        let inner = insert_member(rest, m);
        assert forall|i: int, j: int| 0 <= i < j < out.len() implies (#[trigger] out[i]).0 != (
        #[trigger] out[j]).0 by {
            if j < inner.len() {
                assert(inner[i].0 != inner[j].0);
            } else {
                assert(inner.contains(inner[i]));
                lemma_insert_contains(rest, m, inner[i]);
                if inner[i] == m {
                    assert(members[members.len() - 1].0 != m.0);
                } else {
                    let k = choose|k: int| 0 <= k < rest.len() && rest[k] == inner[i];
                    assert(members[k].0 != members[members.len() - 1].0);
                }
            }
        }
    }
}

/// The order in which an object lists its members does not matter: objects
/// with the same members have the same canonical form.
pub proof fn law_member_order_is_irrelevant(a: Members, b: Members)
    requires
        distinct_keys(a),
        distinct_keys(b),
        forall|x: (Seq<char>, JsonView)| #[trigger] a.contains(x) == b.contains(x),
    ensures
        canonical(JsonView::Object(a)) == canonical(JsonView::Object(b)),
{
    lemma_canonical(JsonView::Object(a));
    lemma_canonical(JsonView::Object(b));
    let ca = canonical_values(a);
    let cb = canonical_values(b);
    lemma_sorted(ca);
    lemma_sorted(cb);
    lemma_canonical_values(a);
    lemma_canonical_values(b);
    assert(distinct_keys(ca)) by {
        assert forall|i: int, j: int| 0 <= i < j < ca.len() implies (#[trigger] ca[i]).0 != (
        #[trigger] ca[j]).0 by {
            assert(a[i].0 != a[j].0);
        }
    }
    assert(distinct_keys(cb)) by {
        assert forall|i: int, j: int| 0 <= i < j < cb.len() implies (#[trigger] cb[i]).0 != (
        #[trigger] cb[j]).0 by {
            assert(b[i].0 != b[j].0);
        }
    }
    lemma_sorted_keeps_distinct(ca);
    lemma_sorted_keeps_distinct(cb);
    assert forall|x: (Seq<char>, JsonView)| #[trigger]
        sorted_members(ca).contains(x) == sorted_members(cb).contains(x) by {
        if ca.contains(x) {
            let i = choose|i: int| 0 <= i < ca.len() && ca[i] == x;
            assert(a.contains(a[i]));
            assert(b.contains(a[i]));
            let j = choose|j: int| 0 <= j < b.len() && b[j] == a[i];
            assert(cb[j] == x);
        }
        if cb.contains(x) {
            let j = choose|j: int| 0 <= j < cb.len() && cb[j] == x;
            assert(b.contains(b[j]));
            assert(a.contains(b[j]));
            let i = choose|i: int| 0 <= i < a.len() && a[i] == b[j];
            assert(ca[i] == x);
        }
    }
    lemma_ordered_is_unique(sorted_members(ca), sorted_members(cb));
}

} // verus!
