//! JSON values, and their text as `serde_json` writes it.

use vstd::prelude::*;

verus! {

/// A JSON value as the request layer holds it: the payload of a request body
/// or the parameter object of a query.
///
/// Numbers are integers. `Int` and `UInt` overlap on the non-negative `i64`
/// range and stand for the same number there. An object lists its members
/// in the order in which they were given.
#[derive(Debug, PartialEq, Eq)]
pub enum JsonValue {
    Null,
    Bool(bool),
    Int(i64),
    UInt(u64),
    String(String),
    Array(Vec<JsonValue>),
    Object(Vec<(String, JsonValue)>),
}

/// The mathematical content of a [`JsonValue`].
pub enum JsonModel {
    Null,
    Bool(bool),
    Number(int),
    Text(Seq<char>),
    Array(Seq<JsonModel>),
    Object(Seq<(Seq<char>, JsonModel)>),
}

/// The model of a value: what it holds, with every string and list taken by
/// its content.
pub open spec fn model_of(value: JsonValue) -> JsonModel
    decreases value,
{
    match value {
        JsonValue::Null => JsonModel::Null,
        JsonValue::Bool(b) => JsonModel::Bool(b),
        JsonValue::Int(n) => JsonModel::Number(n as int),
        JsonValue::UInt(n) => JsonModel::Number(n as int),
        JsonValue::String(text) => JsonModel::Text(text@),
        JsonValue::Array(items) => JsonModel::Array(
            Seq::new(
                items@.len(),
                |i: int|
                    if 0 <= i < items@.len() {
                        model_of(items@[i])
                    } else {
                        JsonModel::Null
                    },
            ),
        ),
        JsonValue::Object(members) => JsonModel::Object(
            Seq::new(
                members@.len(),
                |i: int|
                    if 0 <= i < members@.len() {
                        (members@[i].0@, model_of(members@[i].1))
                    } else {
                        (Seq::empty(), JsonModel::Null)
                    },
            ),
        ),
    }
}

impl View for JsonValue {
    type V = JsonModel;

    open spec fn view(&self) -> JsonModel {
        model_of(*self)
    }
}

/// The model of a member of an object: its key and the model of its value.
pub open spec fn member_model(member: (String, JsonValue)) -> (Seq<char>, JsonModel) {
    (member.0@, member.1@)
}

/// The models of the members of an object, in order.
pub open spec fn members_model(members: Seq<(String, JsonValue)>) -> Seq<(Seq<char>, JsonModel)> {
    members.map_values(|member: (String, JsonValue)| member_model(member))
}

/// The members that an optional value contributes to an object under a key:
/// one where it is there, none where it is not.
pub open spec fn optional_member(key: Seq<char>, value: Option<JsonModel>) -> Seq<
    (Seq<char>, JsonModel),
> {
    match value {
        Some(model) => seq![(key, model)],
        None => Seq::empty(),
    }
}

/// The model of an optional value.
pub open spec fn value_model(value: Option<JsonValue>) -> Option<JsonModel> {
    match value {
        Some(v) => Some(v@),
        None => None,
    }
}

/// The model of an optional text.
pub open spec fn text_model(text: Option<String>) -> Option<JsonModel> {
    match text {
        Some(t) => Some(JsonModel::Text(t@)),
        None => None,
    }
}

/// The model of an optional count.
pub open spec fn count_model(count: Option<u32>) -> Option<JsonModel> {
    match count {
        Some(n) => Some(JsonModel::Number(n as int)),
        None => None,
    }
}

/// The model of an object lists the models of its members, in order.
pub proof fn lemma_object_model(members: Vec<(String, JsonValue)>)
    ensures
        JsonValue::Object(members)@ == JsonModel::Object(members_model(members@)),
{
    assert(JsonValue::Object(members)@->Object_0 =~= members_model(members@));
}

/// The model of an array lists the models of its items, in order.
pub proof fn lemma_array_model(items: Vec<JsonValue>)
    ensures
        JsonValue::Array(items)@ == JsonModel::Array(items@.map_values(|item: JsonValue| item@)),
{
    let listed = items@.map_values(|item: JsonValue| item@);
    assert(JsonValue::Array(items)@->Array_0 =~= listed);
}

/// Adds a member to the members of an object under construction.
pub fn push_member(members: &mut Vec<(String, JsonValue)>, key: &str, value: JsonValue)
    ensures
        members_model(final(members)@) == members_model(old(members)@) + seq![(key@, value@)],
{
    members.push((key.to_owned(), value));
    assert(members_model(members@) =~= members_model(old(members)@) + seq![(key@, value@)]);
}

/// Adds a member to the members of an object under construction where
/// there is a value for it, and leaves them as they are where there is none.
pub fn push_optional(members: &mut Vec<(String, JsonValue)>, key: &str, value: Option<JsonValue>)
    ensures
        members_model(final(members)@) == members_model(old(members)@) + optional_member(
            key@,
            value_model(value),
        ),
{
    match value {
        Some(v) => {
            push_member(members, key, v);
        },
        None => {
            assert(members_model(members@) =~= members_model(old(members)@) + Seq::empty());
        },
    }
}

/// Adds a text member.
pub fn push_text(members: &mut Vec<(String, JsonValue)>, key: &str, text: String)
    ensures
        members_model(final(members)@) == members_model(old(members)@) + seq![
            (key@, JsonModel::Text(text@)),
        ],
{
    push_member(members, key, JsonValue::String(text));
}

/// Adds a text member where there is a text.
pub fn push_optional_text(members: &mut Vec<(String, JsonValue)>, key: &str, text: Option<String>)
    ensures
        members_model(final(members)@) == members_model(old(members)@) + optional_member(
            key@,
            text_model(text),
        ),
{
    match text {
        Some(t) => push_optional(members, key, Some(JsonValue::String(t))),
        None => push_optional(members, key, None),
    }
}

/// Adds a number member where there is a count.
pub fn push_optional_count(members: &mut Vec<(String, JsonValue)>, key: &str, count: Option<u32>)
    ensures
        members_model(final(members)@) == members_model(old(members)@) + optional_member(
            key@,
            count_model(count),
        ),
{
    match count {
        Some(n) => push_optional(members, key, Some(JsonValue::UInt(n as u64))),
        None => push_optional(members, key, None),
    }
}

/// The members of an object under construction, before the first is added.
pub fn no_members() -> (out: Vec<(String, JsonValue)>)
    ensures
        members_model(out@) == Seq::<(Seq<char>, JsonModel)>::empty(),
{
    let out: Vec<(String, JsonValue)> = Vec::new();
    assert(members_model(out@) =~= Seq::empty());
    out
}

/// The object with the given members.
pub fn object_of(members: Vec<(String, JsonValue)>) -> (out: JsonValue)
    ensures
        out@ == JsonModel::Object(members_model(members@)),
{
    proof {
        lemma_object_model(members);
    }
    JsonValue::Object(members)
}

impl Clone for JsonValue {
    /// A copy that holds the same data.
    fn clone(&self) -> (out: JsonValue)
        ensures
            out@ == self@,
        decreases self,
    {
        match self {
            JsonValue::Null => JsonValue::Null,
            JsonValue::Bool(b) => JsonValue::Bool(*b),
            JsonValue::Int(n) => JsonValue::Int(*n),
            JsonValue::UInt(n) => JsonValue::UInt(*n),
            JsonValue::String(text) => JsonValue::String(text.clone()),
            JsonValue::Array(items) => {
                let mut copies: Vec<JsonValue> = Vec::new();
                let mut i: usize = 0;
                while i < items.len()
                    invariant
                        0 <= i <= items.len(),
                        copies.len() == i,
                        *self == JsonValue::Array(*items),
                        forall|k: int| 0 <= k < i ==> (#[trigger] copies@[k])@ == items@[k]@,
                    decreases items.len() - i,
                {
                    proof {
                        vstd::std_specs::vec::axiom_vec_index_decreases(*items, i as int);
                        assert(self->Array_0 == *items);
                    }
                    let copy = items[i].clone();
                    copies.push(copy);
                    i += 1;
                }
                proof {
                    lemma_array_model(*items);
                    lemma_array_model(copies);
                    assert(copies@.map_values(|item: JsonValue| item@) =~= items@.map_values(
                        |item: JsonValue| item@,
                    ));
                }
                JsonValue::Array(copies)
            },
            JsonValue::Object(members) => {
                let mut copies: Vec<(String, JsonValue)> = Vec::new();
                let mut i: usize = 0;
                while i < members.len()
                    invariant
                        0 <= i <= members.len(),
                        copies.len() == i,
                        *self == JsonValue::Object(*members),
                        forall|k: int|
                            0 <= k < i ==> member_model(#[trigger] copies@[k]) == member_model(
                                members@[k],
                            ),
                    decreases members.len() - i,
                {
                    proof {
                        vstd::std_specs::vec::axiom_vec_index_decreases(*members, i as int);
                        assert(self->Object_0 == *members);
                    }
                    let copy = members[i].1.clone();
                    copies.push((members[i].0.clone(), copy));
                    i += 1;
                }
                proof {
                    lemma_object_model(*members);
                    lemma_object_model(copies);
                    assert(members_model(copies@) =~= members_model(members@));
                }
                JsonValue::Object(copies)
            },
        }
    }
}

impl JsonValue {
    /// The object without members, `{}`.
    pub fn empty_object() -> (out: JsonValue)
        ensures
            out@ == JsonModel::Object(Seq::empty()),
    {
        let out = JsonValue::Object(Vec::new());
        assert(out@->Object_0 =~= Seq::empty());
        out
    }
}

/// `serde_json::Value`, the tree that `serde_json` writes as text. Nothing
/// is known of what is inside one.
#[verifier::external_type_specification]
#[verifier::external_body]
pub struct ExSerdeValue(serde_json::Value);

/// `serde_json::Error`, which is carried through to the caller.
#[verifier::external_type_specification]
#[verifier::external_body]
pub struct ExSerdeError(serde_json::Error);

/// The `serde_json::Value` that is built for a model.
pub uninterp spec fn serde_value(model: JsonModel) -> serde_json::Value;

/// What `serde_json::to_string` gives for a value: the JSON text it writes,
/// or `None` where it reports an error.
pub uninterp spec fn json_text(value: serde_json::Value) -> Option<Seq<char>>;

/// The JSON text of a payload, as `serde_json` writes it.
pub open spec fn payload_text(model: JsonModel) -> Option<Seq<char>> {
    json_text(serde_value(model))
}

/// Builds the `serde_json::Value` for a value, variant by variant, with
/// `serde_json`'s own constructors and `From` impls. Not proved: that the
/// result depends on the value's model alone, which the contract states by
/// naming it.
#[verifier::external_body]
fn to_serde(value: &JsonValue) -> (out: serde_json::Value)
    ensures
        out == serde_value(value@),
{
    match value {
        JsonValue::Null => serde_json::Value::Null,
        JsonValue::Bool(b) => serde_json::Value::Bool(*b),
        JsonValue::Int(n) => serde_json::Value::from(*n),
        JsonValue::UInt(n) => serde_json::Value::from(*n),
        JsonValue::String(s) => serde_json::Value::String(s.clone()),
        JsonValue::Array(items) => serde_json::Value::Array(items.iter().map(to_serde).collect()),
        JsonValue::Object(members) => serde_json::Value::Object(
            members.iter().map(|m| (m.0.clone(), to_serde(&m.1))).collect(),
        ),
    }
}

/// Calls `serde_json::to_string`. Not proved: that the outcome is a function
/// of the value, which the contract states by naming it. Nothing is claimed
/// about which values it accepts.
#[verifier::external_body]
fn to_json_string(value: &serde_json::Value) -> (out: Result<String, serde_json::Error>)
    ensures
        match out {
            Ok(text) => json_text(*value) == Some(text@),
            Err(_) => json_text(*value).is_none(),
        },
{
    serde_json::to_string(value)
}

/// Writes a value as JSON text.
pub fn serialize(value: &JsonValue) -> (out: Result<String, serde_json::Error>)
    ensures
        match out {
            Ok(text) => payload_text(value@) == Some(text@),
            Err(_) => payload_text(value@).is_none(),
        },
{
    let tree = to_serde(value);
    to_json_string(&tree)
}

} // verus!
