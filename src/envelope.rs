use vstd::prelude::*;
use vstd::string::*;
use crate::error::{ErrorKind, LiveblogError};

verus! {

/// A parsed JSON document.
pub enum JsonValue {
    Null,
    Bool(bool),
    Number(i64),
    Str(String),
    Array(Vec<JsonValue>),
    Object(Vec<(String, JsonValue)>),
}

/// How a backend tells success from failure in its responses.
#[derive(Clone, Copy, Debug, PartialEq, Eq, Structural)]
pub enum EnvelopeStyle {
    /// `{"status": n, "data": payload}` or `{"status": n, "error_msg": text}`.
    Coded,
    /// `{"error": false, payload fields...}` or `{"error": true, "message": text}`.
    Flagged,
}

/// Which payload a response is expected to carry on success.
#[derive(Clone, Copy, Debug, PartialEq, Eq, Structural)]
pub enum PayloadKind {
    Media,
    Post,
}

/// An image stored by an image host, to be referenced by one post.
#[derive(Debug)]
pub struct UploadedMedia {
    pub url: String,
    pub mime_type: String,
}

/// The identifier of a created post.
#[derive(Debug)]
pub struct PostReference {
    pub id: String,
}

#[derive(Debug)]
pub enum Payload {
    Media(UploadedMedia),
    Post(PostReference),
}

/// A decoded response: exactly one of a payload or a failure message.
#[derive(Debug)]
pub enum Envelope {
    Success(Payload),
    Failure(String),
}

/// The value of the first member named `key`, looking from position `i` on.
pub open spec fn lookup_from(fields: Seq<(String, JsonValue)>, key: Seq<char>, i: int) -> Option<
    JsonValue,
>
    decreases fields.len() - i,
{
    if i < 0 || i >= fields.len() {
        None
    } else if fields[i].0@ == key {
        Some(fields[i].1)
    } else {
        lookup_from(fields, key, i + 1)
    }
}

/// The value of member `key` of an object.
pub open spec fn field_spec(v: JsonValue, key: Seq<char>) -> Option<JsonValue> {
    match v {
        JsonValue::Object(fs) => lookup_from(fs@, key, 0),
        _ => None,
    }
}

/// The text of member `key` of an object, where that member is a string.
pub open spec fn str_field_spec(v: JsonValue, key: Seq<char>) -> Option<String> {
    match field_spec(v, key) {
        Some(JsonValue::Str(s)) => Some(s),
        _ => None,
    }
}

/// The payload of kind `kind` that an object holds in its members.
pub open spec fn payload_spec(kind: PayloadKind, v: JsonValue) -> Option<Payload> {
    match kind {
        PayloadKind::Media => match (str_field_spec(v, "url"@), str_field_spec(v, "type"@)) {
            (Some(u), Some(m)) => Some(Payload::Media(UploadedMedia { url: u, mime_type: m })),
            _ => None,
        },
        PayloadKind::Post => match str_field_spec(v, "id"@) {
            Some(i) => Some(Payload::Post(PostReference { id: i })),
            None => None,
        },
    }
}

pub open spec fn is_success_status(v: JsonValue) -> bool {
    match field_spec(v, "status"@) {
        Some(JsonValue::Number(n)) => 200 <= n < 300,
        _ => false,
    }
}

/// The payload of a response in the success shape of `style`.
pub open spec fn success_spec(style: EnvelopeStyle, kind: PayloadKind, v: JsonValue) -> Option<
    Payload,
> {
    match style {
        EnvelopeStyle::Coded => if is_success_status(v) {
            match field_spec(v, "data"@) {
                Some(d) => payload_spec(kind, d),
                None => None,
            }
        } else {
            None
        },
        EnvelopeStyle::Flagged => if field_spec(v, "error"@) == Some(JsonValue::Bool(false)) {
            payload_spec(kind, v)
        } else {
            None
        },
    }
}

/// The message of a response in the failure shape of `style`.
pub open spec fn failure_spec(style: EnvelopeStyle, v: JsonValue) -> Option<String> {
    match style {
        EnvelopeStyle::Coded => match field_spec(v, "status"@) {
            Some(JsonValue::Number(_)) => str_field_spec(v, "error_msg"@),
            _ => None,
        },
        EnvelopeStyle::Flagged => if field_spec(v, "error"@) == Some(JsonValue::Bool(true)) {
            str_field_spec(v, "message"@)
        } else {
            None
        },
    }
}

/// The success shape is tried first, then the failure shape.
pub open spec fn decode_spec(style: EnvelopeStyle, kind: PayloadKind, v: JsonValue) -> Option<
    Envelope,
> {
    match success_spec(style, kind, v) {
        Some(p) => Some(Envelope::Success(p)),
        None => match failure_spec(style, v) {
            Some(m) => Some(Envelope::Failure(m)),
            None => None,
        },
    }
}

/// Looks up member `key` of an object.
pub fn field<'a>(v: &'a JsonValue, key: &str) -> (r: Option<&'a JsonValue>)
    ensures
        match r {
            Some(x) => field_spec(*v, key@) == Some(*x),
            None => field_spec(*v, key@) is None,
        },
{
    match v {
        JsonValue::Object(fs) => {
            let k = String::from_str(key);
            let mut i: usize = 0;
            while i < fs.len()
                invariant
                    0 <= i <= fs.len(),
                    k@ == key@,
                    *v == JsonValue::Object(*fs),
                    lookup_from(fs@, key@, 0) == lookup_from(fs@, key@, i as int),
                decreases fs.len() - i,
            {
                let entry = &fs[i];
                if entry.0 == k {
                    assert(lookup_from(fs@, key@, i as int) == Some(entry.1));
                    return Some(&entry.1);
                }
                i = i + 1;
            }
            None
        },
        _ => None,
    }
}

fn str_field(v: &JsonValue, key: &str) -> (r: Option<String>)
    ensures
        r == str_field_spec(*v, key@),
{
    match field(v, key) {
        Some(JsonValue::Str(s)) => Some(s.clone()),
        _ => None,
    }
}

/// Reads the payload of kind `kind` from the members of an object.
pub fn parse_payload(kind: PayloadKind, v: &JsonValue) -> (r: Option<Payload>)
    ensures
        r == payload_spec(kind, *v),
{
    match kind {
        PayloadKind::Media => {
            let u = str_field(v, "url");
            let m = str_field(v, "type");
            match (u, m) {
                (Some(u), Some(m)) => Some(Payload::Media(UploadedMedia { url: u, mime_type: m })),
                _ => None,
            }
        },
        PayloadKind::Post => match str_field(v, "id") {
            Some(i) => Some(Payload::Post(PostReference { id: i })),
            None => None,
        },
    }
}

fn parse_success(style: EnvelopeStyle, kind: PayloadKind, v: &JsonValue) -> (r: Option<Payload>)
    ensures
        r == success_spec(style, kind, *v),
{
    match style {
        EnvelopeStyle::Coded => {
            let ok = match field(v, "status") {
                Some(JsonValue::Number(n)) => 200 <= *n && *n < 300,
                _ => false,
            };
            if !ok {
                return None;
            }
            match field(v, "data") {
                Some(d) => parse_payload(kind, d),
                None => None,
            }
        },
        EnvelopeStyle::Flagged => match field(v, "error") {
            Some(JsonValue::Bool(false)) => parse_payload(kind, v),
            _ => None,
        },
    }
}

fn parse_failure(style: EnvelopeStyle, v: &JsonValue) -> (r: Option<String>)
    ensures
        r == failure_spec(style, *v),
{
    match style {
        EnvelopeStyle::Coded => match field(v, "status") {
            Some(JsonValue::Number(_)) => str_field(v, "error_msg"),
            _ => None,
        },
        EnvelopeStyle::Flagged => match field(v, "error") {
            Some(JsonValue::Bool(true)) => str_field(v, "message"),
            _ => None,
        },
    }
}

/// Decodes a backend response: the success shape first, then the failure
/// shape, and a decode error where neither matches.
pub fn decode(style: EnvelopeStyle, kind: PayloadKind, v: &JsonValue) -> (r: Result<
    Envelope,
    LiveblogError,
>)
    ensures
        match decode_spec(style, kind, *v) {
            Some(e) => r == Ok::<Envelope, LiveblogError>(e),
            None => r matches Err(err) && err.kind == ErrorKind::Decode,
        },
{
    match parse_success(style, kind, v) {
        Some(p) => Ok(Envelope::Success(p)),
        None => match parse_failure(style, v) {
            Some(m) => Ok(Envelope::Failure(m)),
            None => Err(
                LiveblogError::new(
                    ErrorKind::Decode,
                    String::from_str("response matches neither the success nor the error shape"),
                ),
            ),
        },
    }
}


/// The kind of a payload.
pub open spec fn kind_of(p: Payload) -> PayloadKind {
    match p {
        Payload::Media(_) => PayloadKind::Media,
        Payload::Post(_) => PayloadKind::Post,
    }
}

/// `fs`, from position `off` to its end, holds exactly the members of `p`.
pub open spec fn payload_members(p: Payload, fs: Seq<(String, JsonValue)>, off: int) -> bool {
    match p {
        Payload::Media(m) => fs.len() == off + 2 && fs[off].0@ == "url"@ && fs[off].1
            == JsonValue::Str(m.url) && fs[off + 1].0@ == "type"@ && fs[off + 1].1
            == JsonValue::Str(m.mime_type),
        Payload::Post(r) => fs.len() == off + 1 && fs[off].0@ == "id"@ && fs[off].1
            == JsonValue::Str(r.id),
    }
}

/// `v` is the wire form of `env` in the shape of `style`.
pub open spec fn encodes(style: EnvelopeStyle, env: Envelope, v: JsonValue) -> bool {
    match v {
        JsonValue::Object(fs) => match (style, env) {
            (EnvelopeStyle::Coded, Envelope::Success(p)) => fs@.len() == 2 && fs@[0].0@
                == "status"@ && fs@[0].1 == JsonValue::Number(200) && fs@[1].0@ == "data"@
                && match fs@[1].1 {
                JsonValue::Object(ps) => payload_members(p, ps@, 0),
                _ => false,
            },
            (EnvelopeStyle::Coded, Envelope::Failure(m)) => fs@.len() == 2 && fs@[0].0@
                == "status"@ && fs@[0].1 == JsonValue::Number(400) && fs@[1].0@ == "error_msg"@
                && fs@[1].1 == JsonValue::Str(m),
            (EnvelopeStyle::Flagged, Envelope::Success(p)) => fs@.len() >= 1 && fs@[0].0@
                == "error"@ && fs@[0].1 == JsonValue::Bool(false) && payload_members(p, fs@, 1),
            (EnvelopeStyle::Flagged, Envelope::Failure(m)) => fs@.len() == 2 && fs@[0].0@
                == "error"@ && fs@[0].1 == JsonValue::Bool(true) && fs@[1].0@ == "message"@
                && fs@[1].1 == JsonValue::Str(m),
        },
        _ => false,
    }
}

fn member(key: &str, value: JsonValue) -> (r: (String, JsonValue))
    ensures
        r.0@ == key@,
        r.1 == value,
{
    (String::from_str(key), value)
}

fn push_payload_members(p: Payload, fs: &mut Vec<(String, JsonValue)>)
    ensures
        payload_members(p, final(fs)@, old(fs)@.len() as int),
        final(fs)@.subrange(0, old(fs)@.len() as int) == old(fs)@,
{
    match p {
        Payload::Media(m) => {
            fs.push(member("url", JsonValue::Str(m.url)));
            fs.push(member("type", JsonValue::Str(m.mime_type)));
        },
        Payload::Post(r) => {
            fs.push(member("id", JsonValue::Str(r.id)));
        },
    }
    assert(fs@.subrange(0, old(fs)@.len() as int) =~= old(fs)@);
}

/// Builds the wire form of an envelope in the shape of `style`.
pub fn encode(style: EnvelopeStyle, env: Envelope) -> (r: JsonValue)
    ensures
        encodes(style, env, r),
{
    let mut fs: Vec<(String, JsonValue)> = Vec::new();
    match style {
        EnvelopeStyle::Coded => match env {
            Envelope::Success(p) => {
                let mut ps: Vec<(String, JsonValue)> = Vec::new();
                push_payload_members(p, &mut ps);
                fs.push(member("status", JsonValue::Number(200)));
                fs.push(member("data", JsonValue::Object(ps)));
            },
            Envelope::Failure(m) => {
                fs.push(member("status", JsonValue::Number(400)));
                fs.push(member("error_msg", JsonValue::Str(m)));
            },
        },
        EnvelopeStyle::Flagged => match env {
            Envelope::Success(p) => {
                fs.push(member("error", JsonValue::Bool(false)));
                push_payload_members(p, &mut fs);
                assert(fs@[0] == fs@.subrange(0, 1)[0]);
            },
            Envelope::Failure(m) => {
                fs.push(member("error", JsonValue::Bool(true)));
                fs.push(member("message", JsonValue::Str(m)));
            },
        },
    }
    JsonValue::Object(fs)
}

/// Decoding gives back what was encoded: a success envelope its payload and
/// a failure envelope its message, in either shape.
pub proof fn lemma_decode_round_trip(
    style: EnvelopeStyle,
    kind: PayloadKind,
    env: Envelope,
    v: JsonValue,
)
    requires
        encodes(style, env, v),
        env matches Envelope::Success(p) ==> kind == kind_of(p),
    ensures
        decode_spec(style, kind, v) == Some(env),
{
    reveal_strlit("status");
    reveal_strlit("data");
    reveal_strlit("error_msg");
    reveal_strlit("error");
    reveal_strlit("message");
    reveal_strlit("url");
    reveal_strlit("type");
    reveal_strlit("id");
    reveal_with_fuel(lookup_from, 4);
    if let JsonValue::Object(fs) = v {
        match (style, env) {
            (EnvelopeStyle::Coded, Envelope::Success(p)) => {
                assert(field_spec(v, "status"@) == Some(JsonValue::Number(200)));
                assert("status"@.len() != "data"@.len());
                assert(fs@[0].0@ != "data"@);
                assert(lookup_from(fs@, "data"@, 1) == Some(fs@[1].1));
                assert(field_spec(v, "data"@) == Some(fs@[1].1));
                if let JsonValue::Object(ps) = fs@[1].1 {
                    assert("url"@.len() != "type"@.len());
                    assert(payload_members(p, ps@, 0));
                }
                assert(payload_spec(kind, fs@[1].1) == Some(p));
            },
            (EnvelopeStyle::Coded, Envelope::Failure(m)) => {
                assert("status"@.len() != "error_msg"@.len());
                assert(fs@[0].0@ != "error_msg"@);
                assert(str_field_spec(v, "error_msg"@) == Some(m));
            },
            (EnvelopeStyle::Flagged, Envelope::Success(p)) => {
                assert(field_spec(v, "error"@) == Some(JsonValue::Bool(false)));
                assert("error"@.len() != "url"@.len() && "error"@.len() != "type"@.len()
                    && "error"@.len() != "id"@.len());
                assert(fs@[0].0@ != "url"@ && fs@[0].0@ != "type"@ && fs@[0].0@ != "id"@);
                assert("url"@.len() != "type"@.len());
                assert(payload_spec(kind, v) == Some(p));
            },
            (EnvelopeStyle::Flagged, Envelope::Failure(m)) => {
                assert(field_spec(v, "error"@) == Some(JsonValue::Bool(true)));
                assert("error"@.len() != "message"@.len());
                assert(fs@[0].0@ != "message"@);
                assert(str_field_spec(v, "message"@) == Some(m));
            },
        }
    }
}

} // verus!
