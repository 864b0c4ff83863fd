//! The wire form of a message: one flat JSON object with the members
//! `secret`, `type` and `path`, all of them strings.

use crate::json::{
    json_members, json_text, members_view, read_members, text_members, texts_view, write_texts,
    Member,
};
use crate::message::{Message, MessageRequest, MessageView, RequestKind, RequestView};
use crate::secret::{same_secret, seal};
use vstd::prelude::*;

verus! {

/// The members that make up a message.
#[derive(Clone, Copy, Debug, PartialEq, Eq, Structural)]
pub enum Field {
    /// The requester's secret.
    Secret,
    /// The name of the request's kind.
    Kind,
    /// The path that the request is about.
    Path,
}

impl Field {
    /// The key of this member.
    pub open spec fn spec_key(self) -> Seq<char> {
        match self {
            Field::Secret => "secret"@,
            Field::Kind => "type"@,
            Field::Path => "path"@,
        }
    }

    /// The key of this member.
    pub fn key(self) -> (key: &'static str)
        ensures
            key@ == self.spec_key(),
    {
        match self {
            Field::Secret => "secret",
            Field::Kind => "type",
            Field::Path => "path",
        }
    }
}

/// Why bytes are not a message.
#[derive(Clone, Copy, Debug, PartialEq, Eq, Structural)]
pub enum DecodeError {
    /// The bytes do not begin with a JSON object.
    Malformed,
    /// The object has no member of this name.
    Missing(Field),
    /// The member of this name is not a string.
    NotText(Field),
    /// The `type` member names no kind of request.
    UnknownKind,
}

/// Why a message was not put into bytes.
#[derive(Clone, Copy, Debug, PartialEq, Eq, Structural)]
pub enum EncodeError {
    /// No JSON text was written.
    Unwritable,
    /// The text that was written does not decode to the message.
    NotReadBack,
}

/// What a list of members holds under a key.
#[derive(Clone, Copy)]
pub enum Found<'a> {
    /// No member has the key.
    Absent,
    /// The first member with the key is not a string.
    NotText,
    /// The first member with the key is this string.
    Text(&'a String),
}

/// The value of the first member with the key `key`: `None` where no member
/// has the key, `Some(None)` where the value is not a string.
pub open spec fn lookup(members: Seq<(Seq<char>, Option<Seq<char>>)>, key: Seq<char>) -> Option<
    Option<Seq<char>>,
>
    decreases members.len(),
{
    if members.len() == 0 {
        None
    } else if members[0].0 == key {
        Some(members[0].1)
    } else {
        lookup(members.drop_first(), key)
    }
}

/// The text of the member `field`, or why there is none.
pub open spec fn field_text(members: Seq<(Seq<char>, Option<Seq<char>>)>, field: Field) -> Result<
    Seq<char>,
    DecodeError,
> {
    match lookup(members, field.spec_key()) {
        None => Err(DecodeError::Missing(field)),
        Some(None) => Err(DecodeError::NotText(field)),
        Some(Some(text)) => Ok(text),
    }
}

/// The message that an object with these members stands for. The secret is
/// looked at first, then the kind, then the path; members with other keys
/// are passed over.
pub open spec fn message_of_members(members: Seq<(Seq<char>, Option<Seq<char>>)>) -> Result<
    MessageView,
    DecodeError,
> {
    match field_text(members, Field::Secret) {
        Err(e) => Err(e),
        Ok(secret) => match field_text(members, Field::Kind) {
            Err(e) => Err(e),
            Ok(name) => match RequestKind::named(name) {
                None => Err(DecodeError::UnknownKind),
                Some(kind) => match field_text(members, Field::Path) {
                    Err(e) => Err(e),
                    Ok(path) => Ok(MessageView { secret, request: RequestView { kind, path } }),
                },
            },
        },
    }
}

/// The keys and texts that stand for a message, in the order in which they
/// are written.
pub open spec fn texts_of_message(message: MessageView) -> Seq<(Seq<char>, Seq<char>)> {
    seq![
        (Field::Secret.spec_key(), message.secret),
        (Field::Kind.spec_key(), message.request.kind.spec_name()),
        (Field::Path.spec_key(), message.request.path),
    ]
}

/// The message that `bytes` stand for.
pub open spec fn decoded(bytes: Seq<u8>) -> Result<MessageView, DecodeError> {
    match json_members(bytes) {
        None => Err(DecodeError::Malformed),
        Some(members) => message_of_members(members),
    }
}

/// The bytes that stand for `message`: the JSON text of its members, given
/// that this text decodes to `message` again.
pub open spec fn encoded(message: MessageView) -> Result<Seq<u8>, EncodeError> {
    match json_text(texts_of_message(message)) {
        None => Err(EncodeError::Unwritable),
        Some(bytes) => if decoded(bytes) == Ok::<MessageView, DecodeError>(message) {
            Ok(bytes)
        } else {
            Err(EncodeError::NotReadBack)
        },
    }
}

/// Looks up the first member with the key `key`.
pub fn find<'a>(members: &'a Vec<Member>, key: &str) -> (found: Found<'a>)
    ensures
        match found {
            Found::Absent => lookup(members_view(members@), key@) is None,
            Found::NotText => lookup(members_view(members@), key@) == Some(None::<Seq<char>>),
            Found::Text(text) => lookup(members_view(members@), key@) == Some(Some(text@)),
        },
{
    let wanted = key.to_owned();
    let ghost all = members_view(members@);
    let mut i: usize = 0;
    assert(all.skip(0) =~= all);
    while i < members.len()
        invariant
            i <= members.len(),
            wanted@ == key@,
            all == members_view(members@),
            lookup(all, key@) == lookup(all.skip(i as int), key@),
        decreases members.len() - i,
    {
        let ghost rest = all.skip(i as int);
        assert(rest.drop_first() =~= all.skip(i + 1));
        if members[i].key == wanted {
            return match &members[i].text {
                Some(text) => Found::Text(text),
                None => Found::NotText,
            };
        }
        i += 1;
    }
    Found::Absent
}

/// The text of the member `field`, or why there is none.
pub fn text_of<'a>(members: &'a Vec<Member>, field: Field) -> (text: Result<&'a String, DecodeError>)
    ensures
        match text {
            Ok(text) => field_text(members_view(members@), field) == Ok::<_, DecodeError>(text@),
            Err(e) => field_text(members_view(members@), field) == Err::<Seq<char>, _>(e),
        },
{
    match find(members, field.key()) {
        Found::Absent => Err(DecodeError::Missing(field)),
        Found::NotText => Err(DecodeError::NotText(field)),
        Found::Text(text) => Ok(text),
    }
}

/// The message that an object with these members stands for.
pub fn message_from_members(members: &Vec<Member>) -> (outcome: Result<Message, DecodeError>)
    ensures
        match outcome {
            Ok(message) => message_of_members(members_view(members@)) == Ok::<_, DecodeError>(
                message@,
            ),
            Err(e) => message_of_members(members_view(members@)) == Err::<MessageView, _>(e),
        },
{
    let secret = match text_of(members, Field::Secret) {
        Ok(text) => text,
        Err(e) => return Err(e),
    };
    let name = match text_of(members, Field::Kind) {
        Ok(text) => text,
        Err(e) => return Err(e),
    };
    let kind = match RequestKind::from_name(name.as_str()) {
        Some(kind) => kind,
        None => return Err(DecodeError::UnknownKind),
    };
    let path = match text_of(members, Field::Path) {
        Ok(text) => text.clone(),
        Err(e) => return Err(e),
    };
    Ok(Message { secret: seal(secret.clone()), request: MessageRequest::new(kind, path) })
}

/// The keys and texts that stand for `message`, in the order in which they
/// are written.
pub fn texts_from_message(message: &Message) -> (texts: Vec<(String, String)>)
    ensures
        texts_view(texts@) == texts_of_message(message@),
{
    let mut texts: Vec<(String, String)> = Vec::new();
    texts.push((Field::Secret.key().to_owned(), message.secret.unsecure().to_owned()));
    texts.push((Field::Kind.key().to_owned(), message.request.kind().name().to_owned()));
    texts.push((Field::Path.key().to_owned(), message.request.path().to_owned()));
    texts
}

/// Reads the one message that `bytes` begin with.
///
/// The bytes must begin with a JSON object that has the string members
/// `secret`, `type` and `path`, `type` being the name of a kind of request.
/// Other members, and the bytes after the object, are passed over.
pub fn decode(bytes: &[u8]) -> (outcome: Result<Message, DecodeError>)
    ensures
        match outcome {
            Ok(message) => decoded(bytes@) == Ok::<_, DecodeError>(message@),
            Err(e) => decoded(bytes@) == Err::<MessageView, _>(e),
        },
{
    match read_members(bytes) {
        Ok(members) => message_from_members(&members),
        Err(_) => Err(DecodeError::Malformed),
    }
}

/// Whether two messages are the same value.
pub fn same_message(left: &Message, right: &Message) -> (same: bool)
    ensures
        same == (left@ == right@),
{
    same_secret(&left.secret, &right.secret) && left.request.kind() == right.request.kind()
        && left.request.path().to_owned() == right.request.path().to_owned()
}

/// Hands out `bytes` as the wire form of `message` where they decode to it,
/// and refuses them where they do not.
pub fn confirm(message: &Message, bytes: Vec<u8>) -> (outcome: Result<Vec<u8>, EncodeError>)
    ensures
        match outcome {
            Ok(confirmed) => confirmed@ == bytes@ && decoded(bytes@) == Ok::<_, DecodeError>(
                message@,
            ),
            Err(e) => e == EncodeError::NotReadBack && decoded(bytes@) != Ok::<_, DecodeError>(
                message@,
            ),
        },
{
    match decode(bytes.as_slice()) {
        Ok(read) => if same_message(&read, message) {
            Ok(bytes)
        } else {
            Err(EncodeError::NotReadBack)
        },
        Err(_) => Err(EncodeError::NotReadBack),
    }
}

/// Writes `message` as one JSON object with the members `secret`, `type`
/// and `path`, and hands the text out once it has been read back as
/// `message`.
pub fn encode(message: &Message) -> (outcome: Result<Vec<u8>, EncodeError>)
    ensures
        match outcome {
            Ok(bytes) => encoded(message@) == Ok::<_, EncodeError>(bytes@),
            Err(e) => encoded(message@) == Err::<Seq<u8>, _>(e),
        },
{
    let texts = texts_from_message(message);
    match write_texts(&texts) {
        Ok(bytes) => confirm(message, bytes),
        Err(_) => Err(EncodeError::Unwritable),
    }
}

/// The names of the two kinds differ, and each names its own kind.
pub proof fn kind_names_are_distinct(kind: RequestKind)
    ensures
        RequestKind::named(kind.spec_name()) == Some(kind),
{
    reveal_strlit("terminal");
    reveal_strlit("code");
    assert("terminal"@.len() != "code"@.len());
}

/// The members that hold the texts of a message stand for that message.
pub proof fn members_round_trip(message: MessageView)
    ensures
        message_of_members(text_members(texts_of_message(message))) == Ok::<_, DecodeError>(
            message,
        ),
{
    reveal_strlit("secret");
    reveal_strlit("type");
    reveal_strlit("path");
    assert("type"@[0] != "path"@[0]);
    reveal_with_fuel(lookup, 4);
    kind_names_are_distinct(message.request.kind);
}

/// Whether the members are those of a message: the secret, the kind and the
/// path are there and are strings, and the kind's name names a kind.
pub open spec fn complete(members: Seq<(Seq<char>, Option<Seq<char>>)>) -> bool {
    &&& field_text(members, Field::Secret) is Ok
    &&& field_text(members, Field::Kind) matches Ok(name) && RequestKind::named(name) is Some
    &&& field_text(members, Field::Path) is Ok
}

/// Bytes are a message only where they begin with a JSON object whose
/// members are those of a message. All other bytes are rejected: bytes
/// that are no JSON object, an object in which one of the three members is
/// missing or is no string, and an object whose kind is neither of the two.
pub proof fn only_complete_objects_decode(bytes: Seq<u8>)
    ensures
        json_members(bytes) is None ==> decoded(bytes) is Err,
        json_members(bytes) matches Some(members) ==> (decoded(bytes) is Ok <==> complete(members)),
{
}

/// Encoding gives the JSON text of a message's members wherever reading
/// that text gives those members again.
pub proof fn encoding_succeeds_where_json_reads_back(message: MessageView, bytes: Seq<u8>)
    requires
        json_text(texts_of_message(message)) == Some(bytes),
        json_members(bytes) == Some(text_members(texts_of_message(message))),
    ensures
        encoded(message) == Ok::<_, EncodeError>(bytes),
{
    members_round_trip(message);
}

/// Decoding what encoding gave yields the message that was encoded:
/// encoding hands out only bytes that decode to the message.
pub proof fn round_trip(message: MessageView, bytes: Seq<u8>)
    requires
        encoded(message) == Ok::<_, EncodeError>(bytes),
    ensures
        decoded(bytes) == Ok::<_, DecodeError>(message),
{
}

} // verus!
