use vstd::prelude::*;

use bytes::{Bytes, BytesMut};
use serde_json::Value;

use crate::error::{ApiError, Service};

verus! {

/// The largest JSON body the library reads from a service.
pub const MAX_JSON_BYTES: usize = 65536;

/// A JSON value, as `serde_json` reads it. Numbers are kept as the text `serde_json` writes
/// for them; the members of an object come in the order of `serde_json`'s map, one per key.
#[derive(Debug)]
pub enum JsonValue {
    Null,
    Bool(bool),
    Number(String),
    Text(String),
    Array(Vec<JsonValue>),
    Object(Vec<(String, JsonValue)>),
}

#[verifier::external_type_specification]
#[verifier::external_body]
pub struct ExJsonValue(Value);

/// What `serde_json` reads from `body`: the document as a `JsonValue`, or nothing where
/// `body` is not JSON.
pub uninterp spec fn json_document(body: Seq<u8>) -> Option<JsonValue>;

/// `serde_json::from_slice` into a `serde_json::Value`, carried over to a `JsonValue`.
#[verifier::external_body]
fn json_parse(body: &[u8]) -> (doc: Option<JsonValue>)
    ensures
        doc == json_document(body@),
{
    serde_json::from_slice::<Value>(body).ok().map(|value| json_image(&value))
}

/// The `JsonValue` that stands for a `serde_json::Value`, variant for variant; the part of
/// `json_parse` that converts its result.
#[verifier::external_body]
fn json_image(value: &Value) -> JsonValue {
    match value {
        Value::Null => JsonValue::Null,
        Value::Bool(b) => JsonValue::Bool(*b),
        Value::Number(n) => JsonValue::Number(n.to_string()),
        Value::String(text) => JsonValue::Text(text.clone()),
        Value::Array(items) => JsonValue::Array(items.iter().map(json_image).collect()),
        Value::Object(members) => {
            JsonValue::Object(members.iter().map(|(key, member)| (key.clone(), json_image(member))).collect())
        },
    }
}

/// The value of the first member of `members` named `key`.
pub open spec fn member(members: Seq<(String, JsonValue)>, key: Seq<char>) -> Option<JsonValue>
    decreases members.len(),
{
    if members.len() == 0 {
        None
    } else if members[0].0@ == key {
        Some(members[0].1)
    } else {
        member(members.drop_first(), key)
    }
}

/// The member found for a key is the first member with that key, and nothing is found only
/// where no member has it.
pub proof fn member_is_the_first_with_its_key(members: Seq<(String, JsonValue)>, key: Seq<char>)
    ensures
        match member(members, key) {
            Some(value) => exists|i: int| {
                &&& 0 <= i < members.len()
                &&& #[trigger] members[i].0@ == key
                &&& members[i].1 == value
                &&& forall|j: int| 0 <= j < i ==> members[j].0@ != key
            },
            None => forall|i: int| 0 <= i < members.len() ==> members[i].0@ != key,
        },
    decreases members.len(),
{
    if members.len() > 0 && members[0].0@ != key {
        let rest = members.drop_first();
        member_is_the_first_with_its_key(rest, key);
        match member(rest, key) {
            Some(value) => {
                let i = choose|i: int| {
                    &&& 0 <= i < rest.len()
                    &&& #[trigger] rest[i].0@ == key
                    &&& rest[i].1 == value
                    &&& forall|j: int| 0 <= j < i ==> rest[j].0@ != key
                };
                assert(members[i + 1] == rest[i]);
                assert forall|j: int| 0 <= j < i + 1 implies members[j].0@ != key by {
                    if j > 0 {
                        assert(members[j] == rest[j - 1]);
                    }
                }
            },
            None => {
                assert forall|i: int| 0 <= i < members.len() implies members[i].0@ != key by {
                    if i > 0 {
                        assert(members[i] == rest[i - 1]);
                    }
                }
            },
        }
    }
}

/// The member of a document named `key`, where the document is an object that has one.
pub open spec fn document_member(doc: Option<JsonValue>, key: Seq<char>) -> Option<JsonValue> {
    match doc {
        Some(JsonValue::Object(members)) => member(members@, key),
        _ => None,
    }
}

/// Finds the value of the member named `key` of an object.
pub fn find_member<'a>(members: &'a Vec<(String, JsonValue)>, key: &str) -> (found: Option<&'a JsonValue>)
    ensures
        match found {
            Some(value) => member(members@, key@) == Some(*value),
            None => member(members@, key@) is None,
        },
{
    let wanted = String::from_str(key);
    let mut i: usize = 0;
    assert(members@.skip(0) =~= members@);
    while i < members.len()
        invariant
            i <= members@.len(),
            wanted@ == key@,
            member(members@, key@) == member(members@.skip(i as int), key@),
        decreases members@.len() - i,
    {
        assert(members@.skip(i as int)[0] == members@[i as int]);
        if members[i].0 == wanted {
            return Some(&members[i].1);
        }
        assert(members@.skip(i as int).drop_first() =~= members@.skip(i + 1));
        i += 1;
    }
    None
}

/// Finds the member of a document named `key`, where the document is an object.
pub fn find_document_member<'a>(doc: &'a Option<JsonValue>, key: &str) -> (found: Option<&'a JsonValue>)
    ensures
        match found {
            Some(value) => document_member(*doc, key@) == Some(*value),
            None => document_member(*doc, key@) is None,
        },
{
    match doc {
        Some(JsonValue::Object(members)) => find_member(members, key),
        _ => None,
    }
}

/// Whether a document is an object without members.
pub open spec fn is_empty_object(doc: Option<JsonValue>) -> bool {
    doc matches Some(JsonValue::Object(members)) && members@.len() == 0
}

/// Tells whether a document is an object without members.
pub fn empty_object(doc: &Option<JsonValue>) -> (empty: bool)
    ensures
        empty == is_empty_object(*doc),
{
    match doc {
        Some(JsonValue::Object(members)) => members.len() == 0,
        _ => false,
    }
}

/// The message of an error document: its `message` where that is a string; else, where
/// there is no `message` at all, its `errorMessage` where that is a string; else `no message`.
pub open spec fn document_message(doc: Option<JsonValue>) -> Seq<char> {
    match document_member(doc, "message"@) {
        Some(JsonValue::Text(text)) => text@,
        Some(_) => "no message"@,
        None => match document_member(doc, "errorMessage"@) {
            Some(JsonValue::Text(text)) => text@,
            _ => "no message"@,
        },
    }
}

/// Reads the message of an error document, in either of the two shapes the services use.
pub fn message_from_document(doc: &Option<JsonValue>) -> (text: String)
    ensures
        text@ == document_message(*doc),
{
    match find_document_member(doc, "message") {
        Some(JsonValue::Text(text)) => text.clone(),
        Some(_) => String::from_str("no message"),
        None => match find_document_member(doc, "errorMessage") {
            Some(JsonValue::Text(text)) => text.clone(),
            _ => String::from_str("no message"),
        },
    }
}

/// The message of an error document is its `message` where that is a string; where there is a
/// `message` that is not a string, there is no message; only where there is no `message` at
/// all does a string `errorMessage` stand in; and a document that is no object has no message.
pub proof fn error_messages_prefer_message(doc: Option<JsonValue>)
    ensures
        document_member(doc, "message"@) matches Some(JsonValue::Text(t)) ==> document_message(doc) == t@,
        document_member(doc, "message"@) matches Some(v) ==> (!(v is Text) ==> document_message(doc)
            == seq!['n', 'o', ' ', 'm', 'e', 's', 's', 'a', 'g', 'e']),
        document_member(doc, "message"@) is None ==> (document_member(doc, "errorMessage"@) matches Some(
            JsonValue::Text(t),
        ) ==> document_message(doc) == t@),
        (document_member(doc, "message"@) is None && !(document_member(doc, "errorMessage"@) matches Some(
            JsonValue::Text(_),
        ))) ==> document_message(doc) == seq!['n', 'o', ' ', 'm', 'e', 's', 's', 'a', 'g', 'e'],
        !(doc matches Some(JsonValue::Object(_))) ==> document_message(doc) == seq!['n', 'o', ' ', 'm', 'e', 's', 's', 'a', 'g', 'e'],
{
    reveal_strlit("no message");
    assert("no message"@ =~= seq!['n', 'o', ' ', 'm', 'e', 's', 's', 'a', 'g', 'e']);
}

/// The message that a service put in an error body.
pub open spec fn spec_upstream_message(body: Seq<u8>) -> Seq<char> {
    document_message(json_document(body))
}

/// Reads the message of an error body, in either of the two shapes the services use.
pub fn upstream_message(body: &[u8]) -> (text: String)
    ensures
        text@ == spec_upstream_message(body@),
{
    message_from_document(&json_parse(body))
}

/// The JSON document in `body`, as `serde_json` reads it.
pub fn parse_document(body: &[u8]) -> (doc: Option<JsonValue>)
    ensures
        doc == json_document(body@),
{
    json_parse(body)
}

#[verifier::external_type_specification]
#[verifier::external_body]
pub struct ExBytesMut(BytesMut);

#[verifier::external_type_specification]
#[verifier::external_body]
pub struct ExBytes(Bytes);

/// The bytes that a `BytesMut` holds.
pub uninterp spec fn bytes_mut_contents(b: BytesMut) -> Seq<u8>;

/// The bytes that a `Bytes` holds.
pub uninterp spec fn bytes_contents(b: Bytes) -> Seq<u8>;

/// `BytesMut::new`: an empty buffer.
#[verifier::external_body]
fn bytes_mut_new() -> (b: BytesMut)
    ensures
        bytes_mut_contents(b) == Seq::<u8>::empty(),
{
    BytesMut::new()
}

/// `BytesMut::len`: the number of bytes held.
#[verifier::external_body]
fn bytes_mut_len(b: &BytesMut) -> (n: usize)
    ensures
        n == bytes_mut_contents(*b).len(),
{
    b.len()
}

/// `BytesMut::extend_from_slice`: appends `chunk` to what the buffer holds.
#[verifier::external_body]
fn bytes_mut_extend(b: &mut BytesMut, chunk: &[u8])
    ensures
        bytes_mut_contents(*final(b)) == bytes_mut_contents(*old(b)) + chunk@,
{
    b.extend_from_slice(chunk)
}

/// `BytesMut::freeze`: the same bytes, no longer writable.
#[verifier::external_body]
fn bytes_mut_freeze(b: BytesMut) -> (frozen: Bytes)
    ensures
        bytes_contents(frozen) == bytes_mut_contents(b),
{
    b.freeze()
}

/// `Bytes` read through `Deref`, as a slice of the bytes it holds.
#[verifier::external_body]
pub(crate) fn bytes_as_slice(b: &Bytes) -> (s: &[u8])
    ensures
        s@ == bytes_contents(*b),
{
    b.as_ref()
}

/// A response body read chunk by chunk, which refuses to grow beyond a limit.
pub struct BoundedBody {
    service: Service,
    limit: usize,
    body: BytesMut,
}

impl BoundedBody {
    /// The bytes read so far stay within the limit.
    pub closed spec fn wf(self) -> bool {
        bytes_mut_contents(self.body).len() <= self.limit
    }

    /// The bytes read so far.
    pub closed spec fn contents(self) -> Seq<u8> {
        bytes_mut_contents(self.body)
    }

    pub closed spec fn spec_limit(self) -> usize {
        self.limit
    }

    pub closed spec fn spec_service(self) -> Service {
        self.service
    }

    /// An empty body for a response of `service`, which may hold at most `limit` bytes.
    pub fn new(service: Service, limit: usize) -> (body: Self)
        ensures
            body.wf(),
            body.contents() == Seq::<u8>::empty(),
            body.spec_limit() == limit,
            body.spec_service() == service,
    {
        BoundedBody { service, limit, body: bytes_mut_new() }
    }

    /// The number of bytes read so far.
    pub fn len(&self) -> (n: usize)
        requires
            self.wf(),
        ensures
            n == self.contents().len(),
            n <= self.spec_limit(),
    {
        bytes_mut_len(&self.body)
    }

    /// Appends `chunk`, unless the body would then exceed its limit: then the body is left
    /// as it was and the error says the response was too large.
    pub fn push_chunk(&mut self, chunk: &[u8]) -> (res: Result<(), ApiError>)
        requires
            old(self).wf(),
        ensures
            final(self).wf(),
            final(self).spec_limit() == old(self).spec_limit(),
            final(self).spec_service() == old(self).spec_service(),
            old(self).contents().len() + chunk@.len() <= old(self).spec_limit() ==> {
                &&& res is Ok
                &&& final(self).contents() == old(self).contents() + chunk@
            },
            old(self).contents().len() + chunk@.len() > old(self).spec_limit() ==> {
                &&& res matches Err(ApiError::TooLarge { service, limit })
                &&& service == old(self).spec_service()
                &&& limit == old(self).spec_limit()
                &&& final(self).contents() == old(self).contents()
            },
    {
        let held = bytes_mut_len(&self.body);
        if chunk.len() > self.limit - held {
            Err(ApiError::TooLarge { service: self.service, limit: self.limit })
        } else {
            bytes_mut_extend(&mut self.body, chunk);
            Ok(())
        }
    }

    /// The bytes read, frozen.
    pub fn finish(self) -> (bytes: Bytes)
        requires
            self.wf(),
        ensures
            bytes_contents(bytes) == self.contents(),
            bytes_contents(bytes).len() <= self.spec_limit(),
    {
        bytes_mut_freeze(self.body)
    }
}

/// Whether an HTTP status is a success (200 to 299).
pub open spec fn success_status(status: u16) -> bool {
    200 <= status <= 299
}

/// What a JSON response with `status` and `body` amounts to before its body is decoded:
/// a missing subject, an upstream failure, or a body worth decoding.
pub open spec fn json_response_outcome_spec(
    service: Service,
    status: u16,
    body: Seq<u8>,
    subject: Seq<char>,
    res: Result<(), ApiError>,
) -> bool {
    if status == 404 || (success_status(status) && body.len() == 0) {
        res matches Err(ApiError::NotFound { service: s, subject: t }) && s == service && t@ == subject
    } else if !success_status(status) {
        &&& res matches Err(ApiError::Upstream { service: s, status: code, message })
        &&& s == service
        &&& code == status
        &&& message@ == spec_upstream_message(body)
    } else {
        res is Ok
    }
}

/// Every status that is neither 404 nor a success (200 to 299) is an upstream failure that
/// carries that status and the message of the body; a success with a body is worth decoding;
/// and the service is said to have nothing for the subject only on a 404 or an empty success.
pub proof fn json_outcomes_by_status(
    service: Service,
    status: u16,
    body: Seq<u8>,
    subject: Seq<char>,
    res: Result<(), ApiError>,
)
    requires
        json_response_outcome_spec(service, status, body, subject, res),
    ensures
        status != 404 && !(200 <= status && status <= 299) ==> {
            &&& res matches Err(ApiError::Upstream { service: s, status: code, message })
            &&& s == service
            &&& code == status
            &&& message@ == document_message(json_document(body))
        },
        200 <= status <= 299 && body.len() > 0 ==> res is Ok,
        (res matches Err(e) && e is NotFound) <==> (status == 404 || (200 <= status <= 299 && body.len() == 0)),
        res matches Err(ApiError::NotFound { service: s, subject: t }) ==> s == service && t@ == subject,
{
}

/// A 404 from a service always comes out as an error that `is_not_found` recognises,
/// whatever the body holds.
pub proof fn missing_subjects_are_not_found(
    service: Service,
    body: Seq<u8>,
    subject: Seq<char>,
    res: Result<(), ApiError>,
)
    requires
        json_response_outcome_spec(service, 404, body, subject, res),
    ensures
        res matches Err(e) && e is NotFound,
{
}

/// Decides what a JSON response means before its body is decoded: a 404, or a success with
/// an empty body, means that the service has nothing for `subject`; any other status that is
/// not a success is an upstream failure carrying the service's message.
pub fn json_response_outcome(service: Service, status: u16, body: &[u8], subject: &str) -> (res: Result<(), ApiError>)
    ensures
        json_response_outcome_spec(service, status, body@, subject@, res),
{
    if status == 404 {
        return Err(ApiError::NotFound { service, subject: String::from_str(subject) });
    }
    if !(200 <= status && status <= 299) {
        return Err(ApiError::Upstream { service, status, message: upstream_message(body) });
    }
    if body.len() == 0 {
        return Err(ApiError::NotFound { service, subject: String::from_str(subject) });
    }
    Ok(())
}

} // verus!
