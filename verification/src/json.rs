//! Request bodies as JSON objects, written through `serde_json`.
//!
//! The library decides which fields a body has; `serde_json` holds them and
//! writes the text. What is believed of `serde_json` stands in the items of
//! this file that carry no proof: the two type declarations, the names
//! `json_fields` and `json_object_text`, and the five functions from
//! `empty_object` to `object_text`.

use vstd::prelude::*;
use crate::dto::{CreateRequestBody, UpdateRequestBody};

verus! {

/// `serde_json::Map`, the object that `serde_json` writes.
#[verifier::external_type_specification]
#[verifier::external_body]
#[verifier::reject_recursive_types(K)]
#[verifier::reject_recursive_types(V)]
pub struct ExJsonMap<K, V>(serde_json::Map<K, V>);

/// `serde_json::Value`, what a field of such an object holds.
#[verifier::external_type_specification]
#[verifier::external_body]
pub struct ExJsonValue(serde_json::Value);

/// What one field of a request body holds.
pub enum JsonField {
    Text(Seq<char>),
    Flag(bool),
    Integer(int),
}

/// The fields that a `serde_json::Map` holds, by key: a string as `Text`,
/// a boolean as `Flag`, an integer as `Integer`.
pub uninterp spec fn json_fields(object: serde_json::Map<String, serde_json::Value>) -> Map<
    Seq<char>,
    JsonField,
>;

/// An object without fields.
pub open spec fn no_fields() -> Map<Seq<char>, JsonField> {
    Map::empty()
}

/// What `serde_json::to_string` gives for an object with these fields: its
/// compact JSON text, or the words of the error that kept it from being
/// written. Both are a function of the fields alone, since the object keeps
/// them sorted by key whatever the order they came in.
pub uninterp spec fn json_object_text(fields: Map<Seq<char>, JsonField>) -> Result<
    Seq<char>,
    Seq<char>,
>;

/// A text or the words of an error, by mathematical value.
pub open spec fn written_view(r: Result<String, String>) -> Result<Seq<char>, Seq<char>> {
    match r {
        Ok(text) => Ok(text@),
        Err(words) => Err(words@),
    }
}

/// `serde_json::Map::new`: an object without fields.
#[verifier::external_body]
fn empty_object() -> (object: serde_json::Map<String, serde_json::Value>)
    ensures
        json_fields(object) == no_fields(),
{
    serde_json::Map::new()
}

/// `serde_json::Map::insert` of the string that `serde_json::Value::from`
/// makes of `value`: afterwards the object holds the text under `key`, in
/// place of what stood there, and every other field as before.
#[verifier::external_body]
fn put_text(object: &mut serde_json::Map<String, serde_json::Value>, key: &str, value: &str)
    ensures
        json_fields(*final(object)) == json_fields(*old(object)).insert(
            key@,
            JsonField::Text(value@),
        ),
{
    object.insert(key.to_owned(), serde_json::Value::from(value));
}

/// `serde_json::Map::insert` of the boolean that `serde_json::Value::from`
/// makes of `value`: afterwards the object holds the flag under `key`, in
/// place of what stood there, and every other field as before.
#[verifier::external_body]
fn put_flag(object: &mut serde_json::Map<String, serde_json::Value>, key: &str, value: bool)
    ensures
        json_fields(*final(object)) == json_fields(*old(object)).insert(
            key@,
            JsonField::Flag(value),
        ),
{
    object.insert(key.to_owned(), serde_json::Value::from(value));
}

/// `serde_json::Map::insert` of the number that `serde_json::Value::from`
/// makes of `value`: afterwards the object holds the integer under `key`, in
/// place of what stood there, and every other field as before.
#[verifier::external_body]
fn put_integer(object: &mut serde_json::Map<String, serde_json::Value>, key: &str, value: i64)
    ensures
        json_fields(*final(object)) == json_fields(*old(object)).insert(
            key@,
            JsonField::Integer(value as int),
        ),
{
    object.insert(key.to_owned(), serde_json::Value::from(value));
}

/// `serde_json::to_string` on an object, with the error's `to_string` in
/// place of the error: the text or the error's words, as the object's fields
/// decide them. Whether the call succeeds is not claimed.
#[verifier::external_body]
fn object_text(object: &serde_json::Map<String, serde_json::Value>) -> (r: Result<String, String>)
    ensures
        written_view(r) == json_object_text(json_fields(*object)),
{
    match serde_json::to_string(object) {
        Ok(text) => Ok(text),
        Err(e) => Err(e.to_string()),
    }
}

impl CreateRequestBody {
    /// The fields of the body: the URL, and each optional field that is
    /// present. An absent field has no key.
    pub open spec fn fields(&self) -> Map<Seq<char>, JsonField> {
        let m = no_fields().insert("url"@, JsonField::Text(self.url@));
        let m = match self.length {
            Some(n) => m.insert("length"@, JsonField::Integer(n as int)),
            None => m,
        };
        let m = match self.number {
            Some(b) => m.insert("number"@, JsonField::Flag(b)),
            None => m,
        };
        let m = match self.capital {
            Some(b) => m.insert("capital"@, JsonField::Flag(b)),
            None => m,
        };
        let m = match self.lowercase {
            Some(b) => m.insert("lowercase"@, JsonField::Flag(b)),
            None => m,
        };
        let m = match self.expiration {
            Some(t) => m.insert("expiration"@, JsonField::Integer(t as int)),
            None => m,
        };
        match self.expiration_ttl {
            Some(t) => m.insert("expiration_ttl"@, JsonField::Integer(t as int)),
            None => m,
        }
    }
}

impl UpdateRequestBody {
    /// The fields of the body: the short key, the URL, and each optional
    /// field that is present. An absent field has no key.
    pub open spec fn fields(&self) -> Map<Seq<char>, JsonField> {
        let m = no_fields().insert("short"@, JsonField::Text(self.short@)).insert(
            "url"@,
            JsonField::Text(self.url@),
        );
        let m = match self.expiration {
            Some(t) => m.insert("expiration"@, JsonField::Integer(t as int)),
            None => m,
        };
        match self.expiration_ttl {
            Some(t) => m.insert("expiration_ttl"@, JsonField::Integer(t as int)),
            None => m,
        }
    }
}

/// The body of a create request has a key for the URL and for each
/// optional field that is present, and no other: an absent field is not
/// written, neither as `null` nor as an empty text.
pub proof fn law_create_body_omits_absent_fields(body: CreateRequestBody)
    ensures
        body.fields().dom().contains("url"@),
        body.fields().dom().contains("length"@) <==> body.length is Some,
        body.fields().dom().contains("number"@) <==> body.number is Some,
        body.fields().dom().contains("capital"@) <==> body.capital is Some,
        body.fields().dom().contains("lowercase"@) <==> body.lowercase is Some,
        body.fields().dom().contains("expiration"@) <==> body.expiration is Some,
        body.fields().dom().contains("expiration_ttl"@) <==> body.expiration_ttl is Some,
        forall|key: Seq<char>| #[trigger]
            body.fields().dom().contains(key) ==> key == "url"@ || key == "length"@ || key
                == "number"@ || key == "capital"@ || key == "lowercase"@ || key == "expiration"@
                || key == "expiration_ttl"@,
        body.fields()["url"@] == JsonField::Text(body.url@),
        body.length matches Some(n) ==> body.fields()["length"@] == JsonField::Integer(n as int),
        body.number matches Some(b) ==> body.fields()["number"@] == JsonField::Flag(b),
        body.capital matches Some(b) ==> body.fields()["capital"@] == JsonField::Flag(b),
        body.lowercase matches Some(b) ==> body.fields()["lowercase"@] == JsonField::Flag(b),
        body.expiration matches Some(t) ==> body.fields()["expiration"@] == JsonField::Integer(
            t as int,
        ),
        body.expiration_ttl matches Some(t) ==> body.fields()["expiration_ttl"@]
            == JsonField::Integer(t as int),
{
    reveal_strlit("url");
    reveal_strlit("length");
    reveal_strlit("number");
    reveal_strlit("capital");
    reveal_strlit("lowercase");
    reveal_strlit("expiration");
    reveal_strlit("expiration_ttl");
    assert("url"@.len() == 3 && "length"@.len() == 6 && "number"@.len() == 6 && "capital"@.len()
        == 7 && "lowercase"@.len() == 9 && "expiration"@.len() == 10 && "expiration_ttl"@.len()
        == 14);
    assert("length"@[0] != "number"@[0]);
}

/// The body of an update request has a key for the short key, for the URL
/// and for each optional field that is present, and no other.
pub proof fn law_update_body_omits_absent_fields(body: UpdateRequestBody)
    ensures
        body.fields().dom().contains("short"@),
        body.fields().dom().contains("url"@),
        body.fields().dom().contains("expiration"@) <==> body.expiration is Some,
        body.fields().dom().contains("expiration_ttl"@) <==> body.expiration_ttl is Some,
        forall|key: Seq<char>| #[trigger]
            body.fields().dom().contains(key) ==> key == "short"@ || key == "url"@ || key
                == "expiration"@ || key == "expiration_ttl"@,
        body.fields()["short"@] == JsonField::Text(body.short@),
        body.fields()["url"@] == JsonField::Text(body.url@),
        body.expiration matches Some(t) ==> body.fields()["expiration"@] == JsonField::Integer(
            t as int,
        ),
        body.expiration_ttl matches Some(t) ==> body.fields()["expiration_ttl"@]
            == JsonField::Integer(t as int),
{
    reveal_strlit("short");
    reveal_strlit("url");
    reveal_strlit("expiration");
    reveal_strlit("expiration_ttl");
    assert("short"@.len() == 5 && "url"@.len() == 3 && "expiration"@.len() == 10
        && "expiration_ttl"@.len() == 14);
}

/// The JSON object of a create request.
fn create_object(body: &CreateRequestBody) -> (object: serde_json::Map<String, serde_json::Value>)
    ensures
        json_fields(object) == body.fields(),
{
    let mut object = empty_object();
    put_text(&mut object, "url", body.url.as_str());
    if let Some(n) = body.length {
        put_integer(&mut object, "length", n as i64);
    }
    if let Some(b) = body.number {
        put_flag(&mut object, "number", b);
    }
    if let Some(b) = body.capital {
        put_flag(&mut object, "capital", b);
    }
    if let Some(b) = body.lowercase {
        put_flag(&mut object, "lowercase", b);
    }
    if let Some(t) = body.expiration {
        put_integer(&mut object, "expiration", t);
    }
    if let Some(t) = body.expiration_ttl {
        put_integer(&mut object, "expiration_ttl", t as i64);
    }
    object
}

/// The JSON text of a create request, or the message of the error that kept
/// it from being written: what `serde_json` gives for the object with the
/// fields of `body`.
pub fn create_body(body: &CreateRequestBody) -> (r: Result<String, String>)
    ensures
        written_view(r) == json_object_text(body.fields()),
{
    let object = create_object(body);
    object_text(&object)
}

/// The JSON object of an update request.
fn update_object(body: &UpdateRequestBody) -> (object: serde_json::Map<String, serde_json::Value>)
    ensures
        json_fields(object) == body.fields(),
{
    let mut object = empty_object();
    put_text(&mut object, "short", body.short.as_str());
    put_text(&mut object, "url", body.url.as_str());
    if let Some(t) = body.expiration {
        put_integer(&mut object, "expiration", t);
    }
    if let Some(t) = body.expiration_ttl {
        put_integer(&mut object, "expiration_ttl", t as i64);
    }
    object
}

/// The JSON text of an update request, or the message of the error that
/// kept it from being written: what `serde_json` gives for the object with
/// the fields of `body`.
pub fn update_body(body: &UpdateRequestBody) -> (r: Result<String, String>)
    ensures
        written_view(r) == json_object_text(body.fields()),
{
    let object = update_object(body);
    object_text(&object)
}

} // verus!
