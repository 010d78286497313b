//! Flat JSON objects: the members of an object as plain values.
use serde_json::Value;
use vstd::prelude::*;

verus! {

/// The value of one member of a JSON object, as far as the wire protocol reads it.
#[derive(Clone, Debug)]
pub enum Member {
    /// A JSON string.
    Text(String),
    /// A JSON boolean.
    Flag(bool),
    /// A JSON number that is a non-negative integer below 2^64.
    Number(u64),
    /// A JSON object, as its compact text.
    Object(String),
    /// Anything else: null, another number or an array.
    Other,
}

/// The mathematical value of a `Member`.
pub enum MemberView {
    Text(Seq<char>),
    Flag(bool),
    Number(u64),
    Object(Seq<char>),
    Other,
}

impl View for Member {
    type V = MemberView;

    open spec fn view(&self) -> MemberView {
        match self {
            Member::Text(s) => MemberView::Text(s@),
            Member::Flag(b) => MemberView::Flag(*b),
            Member::Number(n) => MemberView::Number(*n),
            Member::Object(text) => MemberView::Object(text@),
            Member::Other => MemberView::Other,
        }
    }
}

/// One member of a JSON object: its key and its value.
#[derive(Clone, Debug)]
pub struct Field {
    pub key: String,
    pub value: Member,
}

impl View for Field {
    type V = (Seq<char>, MemberView);

    open spec fn view(&self) -> (Seq<char>, MemberView) {
        (self.key@, self.value@)
    }
}

/// The members of an object as a sequence of key and value.
pub type Members = Seq<(Seq<char>, MemberView)>;

/// The mathematical value of a list of fields.
pub open spec fn members_of(fields: Seq<Field>) -> Members {
    Seq::new(fields.len(), |i: int| fields[i]@)
}

/// The value of the first member with the given key, if there is one.
pub open spec fn member(members: Members, key: Seq<char>) -> Option<MemberView>
    decreases members.len(),
{
    if members.len() == 0 {
        None
    } else if members[0].0 == key {
        Some(members[0].1)
    } else {
        member(members.drop_first(), key)
    }
}

/// Whether no two members have one key.
pub open spec fn distinct_keys(members: Members) -> bool {
    forall|i: int, j: int| 0 <= i < j < members.len() ==> members[i].0 != members[j].0
}

/// Whether no member is a nested object.
pub open spec fn flat(members: Members) -> bool {
    forall|i: int| 0 <= i < members.len() ==> !((#[trigger] members[i]).1 is Object)
}

/// Whether two lists of members give every key the same value.
pub open spec fn same_members(a: Members, b: Members) -> bool {
    forall|key: Seq<char>|
        #![trigger member(a, key)]
        #![trigger member(b, key)]
        member(a, key) == member(b, key)
}

/// The members of the JSON object that a text holds, in the order in which
/// the parser hands them out; `None` where the text is no JSON object.
pub uninterp spec fn json_object_members(text: Seq<char>) -> Option<Members>;

/// The compact JSON text of the object with the given members.
pub uninterp spec fn json_object_text(members: Members) -> Seq<char>;

/// `serde_json::from_str` to a `serde_json::Value`: where the text is a JSON
/// object, its members, each value told apart by its variant; `None` where
/// the parser fails or the value is no object. The object is a map, so
/// it hands out each key once.
#[verifier::external_body]
fn parse_object(text: &str) -> (fields: Option<Vec<Field>>)
    ensures
        match fields {
            Some(fs) => json_object_members(text@) == Some(members_of(fs@)) && distinct_keys(
                members_of(fs@),
            ),
            None => json_object_members(text@) is None,
        },
{
    match serde_json::from_str::<Value>(text) {
        Ok(Value::Object(map)) => Some(map.into_iter().map(|(key, value)| Field {
            key,
            value: match value {
                Value::String(s) => Member::Text(s),
                Value::Bool(b) => Member::Flag(b),
                Value::Number(n) => n.as_u64().map_or(Member::Other, Member::Number),
                Value::Object(inner) => Member::Object(Value::Object(inner).to_string()),
                _ => Member::Other,
            },
        }).collect()),
        _ => None,
    }
}

/// `serde_json::Value::to_string` of the object that holds the fields, a
/// later field taking the place of an earlier one with its key. A nested
/// object is read back from its text with `serde_json::from_str`. What is
/// written is JSON that `serde_json::from_str` reads: where no field is a
/// nested object and no two have one key, the object that it reads from
/// the text gives every key the value that the fields give it. Strings
/// are written with the escapes that the reader undoes, integers in
/// decimal, booleans and null by their names.
#[verifier::external_body]
fn print_object(fields: &Vec<Field>) -> (text: String)
    ensures
        text@ == json_object_text(members_of(fields@)),
        match json_object_members(text@) {
            Some(back) => flat(members_of(fields@)) && distinct_keys(members_of(fields@))
                ==> same_members(back, members_of(fields@)),
            None => !(flat(members_of(fields@)) && distinct_keys(members_of(fields@))),
        },
{
    Value::Object(fields.iter().map(|field| (field.key.clone(), match &field.value {
        Member::Text(s) => Value::String(s.clone()),
        Member::Flag(b) => Value::Bool(*b),
        Member::Number(n) => Value::from(*n),
        Member::Object(text) => serde_json::from_str(text).unwrap_or(Value::Null),
        Member::Other => Value::Null,
    })).collect()).to_string()
}

/// The members of the JSON object in a text, each key once, or `None`
/// where the text holds no JSON object.
pub fn decode_object(text: &str) -> (fields: Option<Vec<Field>>)
    ensures
        match fields {
            Some(fs) => json_object_members(text@) == Some(members_of(fs@)) && distinct_keys(
                members_of(fs@),
            ),
            None => json_object_members(text@) is None,
        },
{
    parse_object(text)
}

/// The compact JSON text of the object with the given fields. Where no
/// field is a nested object and no two have one key, reading the text
/// gives every key the value that the fields give it.
pub fn encode_object(fields: &Vec<Field>) -> (text: String)
    ensures
        text@ == json_object_text(members_of(fields@)),
        match json_object_members(text@) {
            Some(back) => flat(members_of(fields@)) && distinct_keys(members_of(fields@))
                ==> same_members(back, members_of(fields@)),
            None => !(flat(members_of(fields@)) && distinct_keys(members_of(fields@))),
        },
{
    print_object(fields)
}

/// The value of the first field with the given key.
pub fn find<'a>(fields: &'a Vec<Field>, key: &str) -> (found: Option<&'a Member>)
    ensures
        match found {
            Some(m) => member(members_of(fields@), key@) == Some(m@),
            None => member(members_of(fields@), key@) is None,
        },
{
    let mut i: usize = 0;
    assert(members_of(fields@).skip(0) =~= members_of(fields@));
    while i < fields.len()
        invariant
            i <= fields.len(),
            member(members_of(fields@), key@) == member(members_of(fields@).skip(i as int), key@),
        decreases fields.len() - i,
    {
        let ghost rest = members_of(fields@).skip(i as int);
        assert(rest.drop_first() =~= members_of(fields@).skip(i + 1));
        if fields[i].key.as_str().eq(key) {
            return Some(&fields[i].value);
        }
        i += 1;
    }
    None
}

} // verus!
