//! JSON documents.
//!
//! `serde_json` reads, holds and writes the documents. This module gives its
//! values a mathematical model, [`Json`], and states over that model what each
//! `serde_json` function that the crate calls does.

use serde_json::Value;
use vstd::prelude::*;
use vstd::utf8;

verus! {

/// What a JSON document holds.
///
/// A number is an `Integer` where `serde_json` keeps it as an integer, and a
/// `Float` with the bits of the `f64` otherwise.
pub enum Json {
    Null,
    Bool(bool),
    Integer(int),
    Float(u64),
    Text(Seq<char>),
    Array(Seq<Json>),
    Object(Map<Seq<char>, Json>),
}

/// How many containers `serde_json` reads one inside the other.
pub const MAX_DEPTH: u64 = 127;

impl Json {
    /// Whether no more than `depth` containers stand one inside the other.
    pub open spec fn within_depth(self, depth: nat) -> bool
        decreases depth,
    {
        match self {
            Json::Array(items) => depth > 0 && forall|i: int|
                0 <= i < items.len() ==> (#[trigger] items[i]).within_depth((depth - 1) as nat),
            Json::Object(fields) => depth > 0 && forall|key: Seq<char>|
                #[trigger] fields.contains_key(key) ==> fields[key].within_depth(
                    (depth - 1) as nat,
                ),
            _ => true,
        }
    }

    /// Whether the document, once printed, is a document when it is read back: not
    /// too many containers stand one inside the other.
    pub open spec fn reparses(self) -> bool {
        self.within_depth(MAX_DEPTH as nat)
    }

    /// Whether two documents are the same up to the values of their floats, in
    /// the first `depth` levels and with no level below them.
    pub open spec fn agrees(self, other: Json, depth: nat) -> bool
        decreases depth,
    {
        match (self, other) {
            (Json::Float(_), Json::Float(_)) => true,
            (Json::Array(xs), Json::Array(ys)) => depth > 0 && xs.len() == ys.len() && forall|
                i: int,
            |
                0 <= i < xs.len() ==> (#[trigger] xs[i]).agrees(ys[i], (depth - 1) as nat),
            (Json::Object(xs), Json::Object(ys)) => depth > 0 && xs.dom() == ys.dom() && forall|
                key: Seq<char>,
            | #[trigger]
                xs.contains_key(key) ==> xs[key].agrees(ys[key], (depth - 1) as nat),
            _ => self == other,
        }
    }

    /// Whether a document is what is read once this one is written, in the first `depth`
    /// levels and with no level below them. Floats come back as they do when they are
    /// written alone; everything else comes back as it was.
    pub open spec fn reads_back_as(self, back: Json, depth: nat) -> bool
        decreases depth,
    {
        match (self, back) {
            (Json::Float(_), Json::Float(_)) => parse_result(printed(self)) == Ok::<
                Json,
                Seq<char>,
            >(back),
            (Json::Array(xs), Json::Array(ys)) => depth > 0 && xs.len() == ys.len() && forall|
                i: int,
            |
                0 <= i < xs.len() ==> (#[trigger] xs[i]).reads_back_as(ys[i], (depth - 1) as nat),
            (Json::Object(xs), Json::Object(ys)) => depth > 0 && xs.dom() == ys.dom() && forall|
                key: Seq<char>,
            | #[trigger]
                xs.contains_key(key) ==> xs[key].reads_back_as(ys[key], (depth - 1) as nat),
            _ => self == back,
        }
    }

    /// Whether each float in the first `depth` levels is itself again once it is written
    /// and read.
    pub open spec fn exact(self, depth: nat) -> bool
        decreases depth,
    {
        match self {
            Json::Float(_) => parse_result(printed(self)) == Ok::<Json, Seq<char>>(self),
            Json::Array(items) => depth > 0 ==> forall|i: int|
                0 <= i < items.len() ==> (#[trigger] items[i]).exact((depth - 1) as nat),
            Json::Object(fields) => depth > 0 ==> forall|key: Seq<char>|
                #[trigger] fields.contains_key(key) ==> fields[key].exact((depth - 1) as nat),
            _ => true,
        }
    }

    /// Whether there is no float in the first `depth` levels.
    pub open spec fn floatless(self, depth: nat) -> bool
        decreases depth,
    {
        match self {
            Json::Float(_) => false,
            Json::Array(items) => depth > 0 ==> forall|i: int|
                0 <= i < items.len() ==> (#[trigger] items[i]).floatless((depth - 1) as nat),
            Json::Object(fields) => depth > 0 ==> forall|key: Seq<char>|
                #[trigger] fields.contains_key(key) ==> fields[key].floatless((depth - 1) as nat),
            _ => true,
        }
    }

    /// The value of a field of an object.
    pub open spec fn field(self, key: Seq<char>) -> Option<Json> {
        match self {
            Json::Object(fields) => if fields.contains_key(key) {
                Some(fields[key])
            } else {
                None
            },
            _ => None,
        }
    }

    /// The object with one field set; any other document as it is.
    pub open spec fn with_field(self, key: Seq<char>, value: Json) -> Json {
        match self {
            Json::Object(fields) => Json::Object(fields.insert(key, value)),
            _ => self,
        }
    }

    /// The text of a string.
    pub open spec fn text(self) -> Option<Seq<char>> {
        match self {
            Json::Text(text) => Some(text),
            _ => None,
        }
    }

    /// The text of a field that is a string.
    pub open spec fn text_field(self, key: Seq<char>) -> Option<Seq<char>> {
        match self.field(key) {
            Some(field) => field.text(),
            None => None,
        }
    }

    /// The integer of a number that is one and fits in an `i64`.
    pub open spec fn integer(self) -> Option<i64> {
        match self {
            Json::Integer(n) => if i64::MIN <= n <= i64::MAX {
                Some(n as i64)
            } else {
                None
            },
            _ => None,
        }
    }
}

/// `serde_json::Value`: a JSON document in memory.
#[verifier::external_type_specification]
#[verifier::external_body]
pub struct ExValue(serde_json::Value);

/// `serde_json::Error`: why a document could not be read or written.
#[verifier::external_type_specification]
#[verifier::external_body]
pub struct ExError(serde_json::Error);

/// What a `serde_json::Value` holds.
pub uninterp spec fn content(value: serde_json::Value) -> Json;

/// The text that a `serde_json::Error` displays.
pub uninterp spec fn error_display(error: serde_json::Error) -> Seq<char>;

/// What `serde_json::from_slice` gives for some bytes: the document that they
/// spell, or the text of the error.
pub uninterp spec fn parse_result(raw: Seq<u8>) -> Result<Json, Seq<char>>;

/// The bytes that `serde_json::to_vec` gives for a document.
pub uninterp spec fn printed(document: Json) -> Seq<u8>;

/// Calls `serde_json::from_slice` for a `Value`. The result depends on the bytes
/// alone. A document that is read has at most `MAX_DEPTH` containers one inside
/// the other, for the parser refuses the next one.
#[verifier::external_body]
pub(crate) fn parse_value(raw: &[u8]) -> (r: Result<Value, serde_json::Error>)
    ensures
        parse_result(raw@) == (match r {
            Ok(value) => Ok::<Json, Seq<char>>(content(value)),
            Err(error) => Err(error_display(error)),
        }),
        r matches Ok(value) ==> content(value).within_depth(MAX_DEPTH as nat),
{
    serde_json::from_slice(raw)
}

/// Whether bytes have the outward form of JSON text on one line: UTF-8 without
/// control characters that ends in a visible ASCII character.
pub open spec fn is_json_text(bytes: Seq<u8>) -> bool {
    &&& utf8::valid_utf8(bytes)
    &&& bytes.len() > 0
    &&& 0x20 < bytes.last() < 0x7F
    &&& forall|i: int| 0 <= i < bytes.len() ==> #[trigger] bytes[i] >= 0x20
}

/// Calls `serde_json::to_vec` on a `Value`. It always succeeds: writing into a
/// vector does not fail, and the keys of an object are strings. The bytes depend
/// on the document alone. They are UTF-8; no byte is a control character, for those
/// are escaped in strings and nothing is indented; and the last one is a letter, a
/// digit, a quote or a bracket. Where the document reparses, reading the bytes back
/// gives it again, with each float as it comes back when it is written alone. A float is
/// printed as its shortest correctly rounded decimal, and read as the product of the
/// digits and a power of ten: that may miss the float by a little, but it is finite for
/// the largest one too.
#[verifier::external_body]
pub(crate) fn write_value(value: &Value) -> (r: Result<Vec<u8>, serde_json::Error>)
    ensures
        match r {
            Ok(bytes) => bytes@ == printed(content(*value)) && is_json_text(bytes@),
            Err(_) => false,
        },
        r matches Ok(bytes) ==> content(*value).reparses() ==> (parse_result(bytes@) matches Ok(
            back,
        ) && content(*value).reads_back_as(back, MAX_DEPTH as nat)),
{
    serde_json::to_vec(value)
}

/// Calls `to_string` of the `Display` impl of `serde_json::Error`.
#[verifier::external_body]
pub(crate) fn error_text(error: &serde_json::Error) -> (r: String)
    ensures
        r@ == error_display(*error),
{
    error.to_string()
}

/// Calls `serde_json::Value::get` with a key: the field of that name, where the
/// value is an object that has one.
#[verifier::external_body]
pub(crate) fn get_field<'a>(value: &'a Value, key: &str) -> (r: Option<&'a Value>)
    ensures
        match content(*value).field(key@) {
            Some(field) => r matches Some(found) && content(*found) == field,
            None => r is None,
        },
{
    value.get(key)
}

/// Calls `serde_json::Map::insert` on the fields of an object: the field of that
/// name now holds the value, and the others are as they were.
#[verifier::external_body]
pub(crate) fn set_field(value: &mut Value, key: &str, field: Value)
    requires
        content(*old(value)) is Object,
    ensures
        content(*final(value)) == content(*old(value)).with_field(key@, content(field)),
{
    value.as_object_mut().unwrap().insert(key.to_string(), field);
}

/// Makes the `serde_json::Value` of an object without fields.
#[verifier::external_body]
pub(crate) fn empty_object() -> (r: Value)
    ensures
        content(r) == Json::Object(Map::empty()),
{
    Value::Object(serde_json::Map::new())
}

/// Makes the `serde_json::Value` of a string.
#[verifier::external_body]
pub(crate) fn text_value(text: &str) -> (r: Value)
    ensures
        content(r) == Json::Text(text@),
{
    Value::from(text)
}

/// Makes the `serde_json::Value` of an integer.
#[verifier::external_body]
pub(crate) fn integer_value(n: i64) -> (r: Value)
    ensures
        content(r) == Json::Integer(n as int),
{
    Value::from(n)
}

/// Makes the `serde_json::Value` of null.
#[verifier::external_body]
pub(crate) fn null_value() -> (r: Value)
    ensures
        content(r) == Json::Null,
{
    Value::Null
}

/// `serde_json::Value::is_object`: whether the value is an object.
pub assume_specification[ Value::is_object ](value: &Value) -> (r: bool)
    ensures
        r == (content(*value) is Object),
;

/// `serde_json::Value::is_null`: whether the value is null.
pub assume_specification[ Value::is_null ](value: &Value) -> (r: bool)
    ensures
        r == (content(*value) is Null),
;

/// `serde_json::Value::as_str`: the text of a string, and nothing for any other
/// value.
pub assume_specification[ Value::as_str ](value: &Value) -> (r: Option<&str>)
    ensures
        match content(*value).text() {
            Some(text) => r matches Some(found) && found@ == text,
            None => r is None,
        },
;

/// `serde_json::Value::as_i64`: the integer of a number that is one and fits, and
/// nothing for any other value.
pub assume_specification[ Value::as_i64 ](value: &Value) -> (r: Option<i64>)
    ensures
        r == content(*value).integer(),
;

/// `serde_json::Value::clone`: a value with the same content.
pub assume_specification[ <Value as Clone>::clone ](value: &Value) -> (r: Value)
    ensures
        content(r) == content(*value),
;

/// Agreeing documents have agreeing fields.
pub proof fn lemma_agreeing_fields(a: Json, b: Json, key: Seq<char>, depth: nat)
    requires
        a.agrees(b, depth),
    ensures
        a is Object <==> b is Object,
        a.field(key) is Some <==> b.field(key) is Some,
        a.field(key) matches Some(x) ==> b.field(key) matches Some(y) && x.text() == y.text()
            && x.integer() == y.integer() && (x is Null <==> y is Null),
{
    reveal_with_fuel(Json::agrees, 2);
    if let (Json::Object(xs), Json::Object(ys)) = (a, b) {
        assert(xs.contains_key(key) <==> ys.contains_key(key)) by {
            assert(xs.dom().contains(key) <==> ys.dom().contains(key));
        }
    }
}

/// A document whose floats are read back exactly is read back as it was.
pub proof fn law_exact_documents_are_kept(document: Json, back: Json, depth: nat)
    requires
        document.reads_back_as(back, depth),
        document.exact(depth),
    ensures
        document == back,
    decreases depth,
{
    match (document, back) {
        (Json::Array(xs), Json::Array(ys)) => {
            assert forall|i: int| 0 <= i < xs.len() implies #[trigger] xs[i] == ys[i] by {
                law_exact_documents_are_kept(xs[i], ys[i], (depth - 1) as nat);
            }
            assert(xs =~= ys);
        },
        (Json::Object(xs), Json::Object(ys)) => {
            assert forall|key: Seq<char>| #[trigger] xs.contains_key(key) implies xs[key]
                == ys[key] by {
                law_exact_documents_are_kept(xs[key], ys[key], (depth - 1) as nat);
            }
            assert(xs =~= ys);
        },
        _ => {},
    }
}

/// A document without floats is read back exactly.
pub proof fn law_floatless_documents_are_exact(document: Json, depth: nat)
    requires
        document.floatless(depth),
    ensures
        document.exact(depth),
    decreases depth,
{
    if depth > 0 {
        match document {
            Json::Array(items) => {
                assert forall|i: int| 0 <= i < items.len() implies (#[trigger] items[i]).exact(
                    (depth - 1) as nat,
                ) by {
                    law_floatless_documents_are_exact(items[i], (depth - 1) as nat);
                }
            },
            Json::Object(fields) => {
                assert forall|key: Seq<char>| #[trigger]
                    fields.contains_key(key) implies fields[key].exact((depth - 1) as nat) by {
                    law_floatless_documents_are_exact(fields[key], (depth - 1) as nat);
                }
            },
            _ => {},
        }
    }
}

/// What is read back is the same up to the values of floats.
pub proof fn lemma_read_back_agrees(document: Json, back: Json, depth: nat)
    requires
        document.reads_back_as(back, depth),
    ensures
        document.agrees(back, depth),
    decreases depth,
{
    match (document, back) {
        (Json::Array(xs), Json::Array(ys)) => {
            assert forall|i: int| 0 <= i < xs.len() implies (#[trigger] xs[i]).agrees(
                ys[i],
                (depth - 1) as nat,
            ) by {
                lemma_read_back_agrees(xs[i], ys[i], (depth - 1) as nat);
            }
        },
        (Json::Object(xs), Json::Object(ys)) => {
            assert forall|key: Seq<char>| #[trigger] xs.contains_key(key) implies xs[key].agrees(
                ys[key],
                (depth - 1) as nat,
            ) by {
                lemma_read_back_agrees(xs[key], ys[key], (depth - 1) as nat);
            }
        },
        _ => {},
    }
}

/// Of three documents, two that agree with the third agree with each other.
pub proof fn lemma_agreement_joins(a: Json, b: Json, c: Json, depth: nat)
    requires
        a.agrees(b, depth),
        a.agrees(c, depth),
    ensures
        b.agrees(c, depth),
    decreases depth,
{
    match (a, b, c) {
        (Json::Array(xs), Json::Array(ys), Json::Array(zs)) => {
            assert forall|i: int| 0 <= i < ys.len() implies (#[trigger] ys[i]).agrees(
                zs[i],
                (depth - 1) as nat,
            ) by {
                assert(xs[i].agrees(ys[i], (depth - 1) as nat));
                lemma_agreement_joins(xs[i], ys[i], zs[i], (depth - 1) as nat);
            }
        },
        (Json::Object(xs), Json::Object(ys), Json::Object(zs)) => {
            assert forall|key: Seq<char>| #[trigger] ys.contains_key(key) implies ys[key].agrees(
                zs[key],
                (depth - 1) as nat,
            ) by {
                assert(xs.dom().contains(key) <==> ys.dom().contains(key));
                assert(xs.contains_key(key));
                lemma_agreement_joins(xs[key], ys[key], zs[key], (depth - 1) as nat);
            }
        },
        _ => {},
    }
}

/// Documents that agree still do once a field is set to the same text in both.
pub proof fn lemma_text_field_agrees(a: Json, b: Json, key: Seq<char>, text: Seq<char>, depth: nat)
    requires
        a.agrees(b, depth),
    ensures
        a.with_field(key, Json::Text(text)).agrees(b.with_field(key, Json::Text(text)), depth),
{
    reveal_with_fuel(Json::agrees, 2);
    if let (Json::Object(xs), Json::Object(ys)) = (a, b) {
        let xt = xs.insert(key, Json::Text(text));
        let yt = ys.insert(key, Json::Text(text));
        assert(xt.dom() =~= yt.dom());
        assert forall|k: Seq<char>| #[trigger] xt.contains_key(k) implies xt[k].agrees(
            yt[k],
            (depth - 1) as nat,
        ) by {
            if k != key {
                assert(xs.contains_key(k));
            }
        }
    }
}

/// Setting a field to a string keeps an object readable.
pub proof fn lemma_text_field_reparses(document: Json, key: Seq<char>, text: Seq<char>)
    requires
        document.within_depth(MAX_DEPTH as nat),
    ensures
        document.with_field(key, Json::Text(text)).reparses(),
{
    reveal_with_fuel(Json::within_depth, 2);
}

/// Setting a field to a string keeps an object exact.
pub proof fn lemma_text_field_is_exact(
    document: Json,
    key: Seq<char>,
    text: Seq<char>,
    depth: nat,
)
    requires
        document.exact(depth),
    ensures
        document.with_field(key, Json::Text(text)).exact(depth),
{
    reveal_with_fuel(Json::exact, 2);
}

/// A field that is set has its value, the other fields have theirs, and nothing but an
/// object has fields. A string has its text, and an integer that fits is that integer.
pub proof fn law_fields_and_values(
    fields: Map<Seq<char>, Json>,
    document: Json,
    key: Seq<char>,
    other: Seq<char>,
    value: Json,
    text: Seq<char>,
    n: i64,
)
    ensures
        Json::Object(fields).field(key) == Some(value) <==> fields.contains_key(key) && fields[key]
            == value,
        document is Object ==> document.with_field(key, value).field(key) == Some(value),
        other != key ==> document.with_field(key, value).field(other) == document.field(other),
        document is Object <==> document.with_field(key, value) is Object,
        !(document is Object) ==> document.with_field(key, value) == document && document.field(key)
            is None,
        document.text() == Some(text) <==> document == Json::Text(text),
        document.text_field(key) == Some(text) <==> document.field(key) == Some(Json::Text(text)),
        document.integer() == Some(n) <==> document == Json::Integer(n as int),
{
}

} // verus!
