//! JSON objects as lists of members, read and written by `serde_json`.

use serde_json::Value;
use vstd::prelude::*;

verus! {

/// `serde_json::Error`: why `serde_json` did not read or write. Nothing of
/// its inside is known here.
#[verifier::external_type_specification]
#[verifier::external_body]
pub struct ExJsonError(serde_json::Error);

/// One member of a JSON object: its key and, where its value is a JSON
/// string, the text of that string. `text` is `None` for any other value.
#[derive(PartialEq, Eq)]
pub struct Member {
    pub key: String,
    pub text: Option<String>,
}

impl View for Member {
    type V = (Seq<char>, Option<Seq<char>>);

    open spec fn view(&self) -> (Seq<char>, Option<Seq<char>>) {
        (
            self.key@,
            match self.text {
                Some(text) => Some(text@),
                None => None,
            },
        )
    }
}

/// The members of a list, each as a mathematical value.
pub open spec fn members_view(members: Seq<Member>) -> Seq<(Seq<char>, Option<Seq<char>>)> {
    members.map_values(|member: Member| member@)
}

/// The texts of a list of keys and texts, each as a mathematical value.
pub open spec fn texts_view(texts: Seq<(String, String)>) -> Seq<(Seq<char>, Seq<char>)> {
    texts.map_values(|pair: (String, String)| (pair.0@, pair.1@))
}

/// The members whose values are the strings of these texts.
pub open spec fn text_members(texts: Seq<(Seq<char>, Seq<char>)>) -> Seq<
    (Seq<char>, Option<Seq<char>>),
> {
    texts.map_values(|pair: (Seq<char>, Seq<char>)| (pair.0, Some(pair.1)))
}

/// The members of the JSON object at the front of `bytes`, in the order in
/// which `serde_json` hands them out, or `None` where `bytes` do not begin
/// with a JSON object.
pub uninterp spec fn json_members(bytes: Seq<u8>) -> Option<Seq<(Seq<char>, Option<Seq<char>>)>>;

/// The JSON text that `serde_json` writes for an object with these keys,
/// the value of each being the string of its text, or `None` where it
/// writes none.
pub uninterp spec fn json_text(texts: Seq<(Seq<char>, Seq<char>)>) -> Option<Seq<u8>>;

/// Reads one JSON object from the front of `bytes`: a deserializer made by
/// `serde_json::Deserializer::from_slice` gives a `serde_json::Map`, and
/// the members of that map are handed out, with the text of each value that
/// is a `Value::String`. The bytes after the object are not looked at. A
/// key that the object holds more than once is in the map once, with its
/// last value. The result depends on `bytes` alone.
#[verifier::external_body]
pub(crate) fn read_members(bytes: &[u8]) -> (outcome: Result<Vec<Member>, serde_json::Error>)
    ensures
        match outcome {
            Ok(members) => json_members(bytes@) == Some(members_view(members@)),
            Err(_) => json_members(bytes@) is None,
        },
{
    let mut reader = serde_json::Deserializer::from_slice(bytes);
    let object: serde_json::Map<String, Value> =
        serde::Deserialize::deserialize(&mut reader)?;
    Ok(object.into_iter().map(|(key, value)| Member {
        key,
        text: match value {
            Value::String(text) => Some(text),
            Value::Null | Value::Bool(_) | Value::Number(_) => None,
            Value::Array(_) | Value::Object(_) => None,
        },
    }).collect())
}

/// Writes one JSON object with `serde_json::to_vec`: a `serde_json::Map`
/// that holds each key with its text as a `Value::String`, in the order of
/// the list. The result depends on the keys and texts alone.
#[verifier::external_body]
pub(crate) fn write_texts(texts: &Vec<(String, String)>) -> (outcome: Result<
    Vec<u8>,
    serde_json::Error,
>)
    ensures
        match outcome {
            Ok(bytes) => json_text(texts_view(texts@)) == Some(bytes@),
            Err(_) => json_text(texts_view(texts@)) is None,
        },
{
    let object: serde_json::Map<String, Value> =
        texts.iter().map(|(key, text)| (key.clone(), Value::String(text.clone()))).collect();
    serde_json::to_vec(&object)
}

} // verus!
