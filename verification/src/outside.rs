//! What is called outside this crate, and what is believed of it.
use crate::json::{is_tidy, Json, JsonView, Member};
use crate::number::parsed_integer;
use crate::text::is_space;
use base64::Engine;
use vstd::prelude::*;
use vstd::utf8::*;

verus! {

/// The message of `std::str::from_utf8` on bytes that are not UTF-8.
pub uninterp spec fn utf8_fault(bytes: Seq<u8>) -> Seq<char>;

/// Calls `std::str::from_utf8`: bytes that are UTF-8 give the text that they encode,
/// and other bytes an error, of which the message is kept.
#[verifier::external_body]
pub(crate) fn utf8_text(bytes: &[u8]) -> (r: Result<String, String>)
    ensures
        match r {
            Ok(s) => valid_utf8(bytes@) && s@ == decode_utf8(bytes@),
            Err(e) => !valid_utf8(bytes@) && e@ == utf8_fault(bytes@),
        },
{
    match std::str::from_utf8(bytes) {
        Ok(s) => Ok(s.to_string()),
        Err(e) => Err(e.to_string()),
    }
}

/// The text that `String::from_utf8_lossy` makes of bytes: what they encode, with the
/// replacement character for what is not UTF-8.
pub uninterp spec fn lossy_text(bytes: Seq<u8>) -> Seq<char>;

/// The lossy text of bytes that are UTF-8 is the text that they encode.
pub open spec fn lossy_is_exact(text: Seq<char>, bytes: Seq<u8>) -> bool {
    valid_utf8(bytes) ==> text == decode_utf8(bytes)
}

/// Calls `String::from_utf8_lossy`: bytes that are UTF-8 give the text that they encode.
/// How much of other bytes one replacement character stands for is not stated here.
#[verifier::external_body]
pub(crate) fn text_or_lossy(bytes: &[u8]) -> (r: String)
    ensures
        r@ == lossy_text(bytes@),
        lossy_is_exact(r@, bytes@),
{
    String::from_utf8_lossy(bytes).into_owned()
}

/// The message of `str::parse` on a text that is no `u64`.
pub uninterp spec fn u64_fault(text: Seq<char>) -> Seq<char>;

/// Calls `str::parse` for a `u64`: decimal digits, after at most one plus sign, of a
/// number that fits. Of the error the message is kept.
#[verifier::external_body]
pub(crate) fn u64_or_fault(text: &str) -> (r: Result<u64, String>)
    ensures
        match r {
            Ok(n) => parsed_integer(text@, 0, u64::MAX as int) == Some(n as int),
            Err(e) => parsed_integer(text@, 0, u64::MAX as int) is None && e@ == u64_fault(text@),
        },
{
    text.parse::<u64>().map_err(|e| e.to_string())
}

/// What `serde_json::from_str` reads in a text: a value, or the message of its error.
pub uninterp spec fn json_of(text: Seq<char>) -> Result<JsonView, Seq<char>>;

/// What `serde_json::from_slice` reads in bytes: a value, or the message of its error.
pub uninterp spec fn json_of_bytes(bytes: Seq<u8>) -> Result<JsonView, Seq<char>>;

/// What `serde_json::to_string` writes for a value.
pub uninterp spec fn json_line(v: JsonView) -> Seq<char>;

/// What `serde_json::to_string_pretty` writes for a value.
pub uninterp spec fn json_pretty(v: JsonView) -> Seq<char>;

/// The bytes that `base64`'s standard engine decodes a text to, or the message of its
/// error.
pub uninterp spec fn base64_bytes(text: Seq<char>) -> Result<Seq<u8>, Seq<char>>;

/// A value of `serde_json`, which Verus does not look into.
#[verifier::external_type_specification]
#[verifier::external_body]
pub struct ExSerdeValue(serde_json::Value);

/// A value of `serde_json`, variant by variant. Nothing is claimed of it: the functions
/// that call `serde_json` name what comes out.
#[verifier::external_body]
fn from_serde(v: serde_json::Value) -> (r: Json) {
    match v {
        serde_json::Value::Null => Json::Null,
        serde_json::Value::Bool(b) => Json::Bool(b),
        serde_json::Value::Number(n) => n.as_i128().map_or(Json::Float(n.to_string()), Json::Int),
        serde_json::Value::String(s) => Json::Text(s),
        serde_json::Value::Array(a) => Json::List(a.into_iter().map(from_serde).collect()),
        serde_json::Value::Object(m) => Json::Object(
            m.into_iter().map(|(name, v)| Member { name, value: from_serde(v) }).collect(),
        ),
    }
}

/// A value for `serde_json`, variant by variant. Nothing is claimed of it: the functions
/// that call `serde_json` name what comes out.
#[verifier::external_body]
fn to_serde(j: &Json) -> (r: serde_json::Value) {
    match j {
        Json::Null => serde_json::Value::Null,
        Json::Bool(b) => serde_json::Value::Bool(*b),
        Json::Int(i) => serde_json::Number::from_i128(*i).into(),
        Json::Float(s) => serde_json::Value::from(s.parse::<serde_json::Number>().ok()),
        Json::Text(s) => serde_json::Value::String(s.clone()),
        Json::List(a) => serde_json::Value::Array(a.iter().map(to_serde).collect()),
        Json::Object(m) => serde_json::Value::Object(
            m.iter().map(|m| (m.name.clone(), to_serde(&m.value))).collect(),
        ),
    }
}

/// How deep lists and objects may stand inside one another for `serde_json` to read them.
pub const JSON_DEPTH: u8 = 127;

/// Calls `serde_json::from_str` for a value, of which the parts are moved over one for
/// one. The result is named after the text. What is read has integers of 64 bits, the
/// names of each object in order and once, and no more than `JSON_DEPTH` levels.
#[verifier::external_body]
pub(crate) fn parse_json(text: &str) -> (r: Result<Json, String>)
    ensures
        match r {
            Ok(j) => json_of(text@) == Ok::<JsonView, Seq<char>>(j@) && is_tidy(
                j@,
                JSON_DEPTH as nat,
                true,
            ),
            Err(e) => json_of(text@) == Err::<JsonView, Seq<char>>(e@),
        },
{
    match serde_json::from_str::<serde_json::Value>(text) {
        Ok(v) => Ok(from_serde(v)),
        Err(e) => Err(e.to_string()),
    }
}

/// Calls `serde_json::from_slice` for a value, of which the parts are moved over one for
/// one. The result is named after the bytes.
#[verifier::external_body]
pub(crate) fn parse_json_bytes(bytes: &[u8]) -> (r: Result<Json, String>)
    ensures
        match r {
            Ok(j) => json_of_bytes(bytes@) == Ok::<JsonView, Seq<char>>(j@),
            Err(e) => json_of_bytes(bytes@) == Err::<JsonView, Seq<char>>(e@),
        },
{
    match serde_json::from_slice::<serde_json::Value>(bytes) {
        Ok(v) => Ok(from_serde(v)),
        Err(e) => Err(e.to_string()),
    }
}

/// A text that stands on one line, with no white space at either end.
pub open spec fn is_one_line(text: Seq<char>) -> bool {
    &&& forall|i: int| 0 <= i < text.len() ==> #[trigger] text[i] != '\n'
    &&& text.len() > 0 && !is_space(text[0]) && !is_space(text.last())
}

/// The value is read back from the text, where it is one that JSON text holds and has no
/// floats.
pub open spec fn reads_back(text: Seq<char>, v: JsonView) -> bool {
    is_tidy(v, JSON_DEPTH as nat, false) ==> json_of(text) == Ok::<JsonView, Seq<char>>(v)
}

/// Calls `serde_json::to_string`, through the `Display` of a value, which writes the
/// same. The text is named after the value. It is one line, since control characters are
/// escaped, with no white space round it, and `serde_json::from_str` reads the value back
/// from it where the value has no
/// floats, integers of 64 bits, names in order and once, and no more than `JSON_DEPTH`
/// levels.
#[verifier::external_body]
pub(crate) fn print_json(j: &Json) -> (r: String)
    ensures
        r@ == json_line(j@),
        is_one_line(r@),
        reads_back(r@, j@),
{
    to_serde(j).to_string()
}

/// Calls `serde_json::to_string_pretty`, through the alternate `Display` of a value, which
/// writes the same. The text is named after the value.
#[verifier::external_body]
pub(crate) fn print_json_pretty(j: &Json) -> (r: String)
    ensures
        r@ == json_pretty(j@),
{
    format!("{:#}", to_serde(j))
}

/// Calls `base64::Engine::decode` of the standard engine. The result is named after the
/// text.
#[verifier::external_body]
pub(crate) fn decode_base64(text: &str) -> (r: Result<Vec<u8>, String>)
    ensures
        match r {
            Ok(bytes) => base64_bytes(text@) == Ok::<Seq<u8>, Seq<char>>(bytes@),
            Err(e) => base64_bytes(text@) == Err::<Seq<u8>, Seq<char>>(e@),
        },
{
    base64::prelude::BASE64_STANDARD.decode(text).map_err(|e| e.to_string())
}

/// The shape of a UUID as it is written: groups of 8, 4, 4, 4 and 12 hexadecimal digits
/// in lower case, with hyphens between them.
pub open spec fn is_uuid_text(s: Seq<char>) -> bool {
    &&& s.len() == 36
    &&& forall|i: int|
        0 <= i < 36 ==> if i == 8 || i == 13 || i == 18 || i == 23 {
            #[trigger] s[i] == '-'
        } else {
            ('0' <= s[i] && s[i] <= '9') || ('a' <= s[i] && s[i] <= 'f')
        }
}

/// Calls `uuid::Uuid::new_v4`, and writes the result down as its `Display` does. The
/// digits are chance: only their shape is claimed.
#[verifier::external_body]
pub(crate) fn new_uuid() -> (r: String)
    ensures
        is_uuid_text(r@),
{
    uuid::Uuid::new_v4().to_string()
}

}
