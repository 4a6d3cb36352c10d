//! Text-level model of JSON handling. A body is carried as text; what
//! serde_json would make of that text is captured by two uninterpreted
//! functions, `json_class_of` and `json_canon_of`, applied by the two
//! trusted wrappers below. The wrapping of non-object payloads into
//! `{"data": ...}` — the convention every template can rely on — is
//! verified string construction.

use vstd::prelude::*;
use vstd::string::*;

verus! {

/// What serde_json makes of a text: `Err(m)` when it does not parse as
/// JSON, with `m` the parser's message; `Ok(true)` when it parses to an
/// object; `Ok(false)` when it parses to any other JSON value.
pub uninterp spec fn json_class_of(s: Seq<char>) -> Result<bool, Seq<char>>;

/// The compact serialization of the JSON value a well-formed text parses
/// to (object keys sorted, insignificant whitespace removed).
pub uninterp spec fn json_canon_of(s: Seq<char>) -> Seq<char>;

pub open spec fn json_well_formed(s: Seq<char>) -> bool {
    json_class_of(s) is Ok
}

pub open spec fn json_is_object(s: Seq<char>) -> bool {
    json_class_of(s) == Ok::<bool, Seq<char>>(true)
}

/// Relies on `serde_json::from_str::<Value>`: whether a text parses, which
/// kind of value it parses to, and the parse error's message are functions
/// of the text alone.
#[verifier::external_body]
pub fn classify_json(s: &str) -> (r: Result<bool, String>)
    ensures
        r is Ok <==> json_class_of(s@) is Ok,
        (r matches Ok(o) ==> json_class_of(s@) == Ok::<bool, Seq<char>>(o)),
        (r matches Err(m) ==> json_class_of(s@) == Err::<bool, Seq<char>>(m@)),
{
    match serde_json::from_str::<serde_json::Value>(s) {
        Ok(serde_json::Value::Object(_)) => Ok(true),
        Ok(serde_json::Value::Null) => Ok(false),
        Ok(serde_json::Value::Bool(_)) => Ok(false),
        Ok(serde_json::Value::Number(_)) => Ok(false),
        Ok(serde_json::Value::String(_)) => Ok(false),
        Ok(serde_json::Value::Array(_)) => Ok(false),
        Err(e) => Err(e.to_string()),
    }
}

/// Relies on `serde_json::from_str::<Value>` and `serde_json::to_string`:
/// re-serializing the value a text parses to is a function of the text
/// alone, and serializing a `Value` to a `String` never fails.
#[verifier::external_body]
pub fn reserialize_json(s: &str) -> (r: Option<String>)
    ensures
        r is Some <==> json_class_of(s@) is Ok,
        (r matches Some(t) ==> t@ == json_canon_of(s@)),
{
    match serde_json::from_str::<serde_json::Value>(s) {
        Ok(v) => serde_json::to_string(&v).ok(),
        Err(_) => None,
    }
}

/// The text of a non-object payload wrapped under a single `data` key.
pub open spec fn wrapped_data_text(s: Seq<char>) -> Seq<char> {
    "{\"data\":"@ + s + "}"@
}

/// The text the template is rendered against: an object body stands as it
/// is; any other well-formed body is wrapped under a `data` key.
pub open spec fn template_data_text(s: Seq<char>) -> Seq<char> {
    if json_is_object(s) {
        s
    } else {
        wrapped_data_text(s)
    }
}

/// Turns a request body into the text the template is rendered against:
/// the body itself when it is a JSON object, the body wrapped as
/// `{"data": <body>}` for every other well-formed JSON value, and the
/// parser's message when the body is not JSON at all.
pub fn json_to_template_data(body: &str) -> (r: Result<String, String>)
    ensures
        r is Ok <==> json_well_formed(body@),
        (r matches Ok(t) ==> t@ == template_data_text(body@)),
        (r matches Err(m) ==> json_class_of(body@) == Err::<bool, Seq<char>>(m@)),
{
    match classify_json(body) {
        Ok(true) => Ok(String::from_str(body)),
        Ok(false) => {
            let mut out = String::from_str("{\"data\":");
            out.append(body);
            out.append("}");
            Ok(out)
        },
        Err(m) => Err(m),
    }
}

} // verus!
