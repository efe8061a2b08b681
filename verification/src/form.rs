//! The create and update forms: from the text of their fields to the body
//! of a request, or to the message that tells the user which field is wrong.
//! A wrong field ends the submit: nothing is sent and nothing else changes.

use vstd::prelude::*;
use crate::dto::{CreateRequestBody, CreateRequestView, UpdateRequestBody, UpdateRequestView};
use crate::host::{notice, Effects, EffectsView};
use crate::number::{parse_u16, parse_u32, u16_of, u32_of};
use crate::text::{join, same_text};
use crate::time::{datetime_parse, expiration_format, parse_expiration, seconds_view};

verus! {

/// An optional field or the words of its error, by mathematical value.
pub open spec fn field_view<T>(r: Result<Option<T>, String>) -> Result<Option<T>, Seq<char>> {
    match r {
        Ok(value) => Ok(value),
        Err(words) => Err(words@),
    }
}

/// What the field `length` holds: nothing where it is empty, else an
/// unsigned 16-bit number.
pub open spec fn length_of(text: Seq<char>) -> Result<Option<u16>, Seq<char>> {
    if text.len() == 0 {
        Ok(None)
    } else {
        match u16_of(text) {
            Ok(n) => Ok(Some(n)),
            Err(e) => Err("Invalid length "@ + e.words()),
        }
    }
}

/// Reads the field `length`.
pub fn length_field(text: &str) -> (r: Result<Option<u16>, String>)
    ensures
        field_view(r) == length_of(text@),
{
    if text.is_empty() {
        return Ok(None);
    }
    match parse_u16(text) {
        Ok(n) => Ok(Some(n)),
        Err(e) => Err(join("Invalid length ", e.message())),
    }
}

/// What the field `expirationTtl` holds: nothing where it is empty, else
/// an unsigned 32-bit number of seconds.
pub open spec fn ttl_of(text: Seq<char>) -> Result<Option<u32>, Seq<char>> {
    if text.len() == 0 {
        Ok(None)
    } else {
        match u32_of(text) {
            Ok(n) => Ok(Some(n)),
            Err(e) => Err("Invalid expirationTTL, "@ + e.words()),
        }
    }
}

/// Reads the field `expirationTtl`.
pub fn ttl_field(text: &str) -> (r: Result<Option<u32>, String>)
    ensures
        field_view(r) == ttl_of(text@),
{
    if text.is_empty() {
        return Ok(None);
    }
    match parse_u32(text) {
        Ok(n) => Ok(Some(n)),
        Err(e) => Err(join("Invalid expirationTTL, ", e.message())),
    }
}

/// What a checkbox holds: `true` or `false` where its text is that word,
/// else nothing.
pub open spec fn flag_of(text: Seq<char>) -> Option<bool> {
    if text == "true"@ {
        Some(true)
    } else if text == "false"@ {
        Some(false)
    } else {
        None
    }
}

/// Reads a checkbox.
pub fn flag_field(text: &str) -> (r: Option<bool>)
    ensures
        r == flag_of(text@),
{
    if same_text(text, "true") {
        Some(true)
    } else if same_text(text, "false") {
        Some(false)
    } else {
        None
    }
}

/// What a filled-in field `expiration` holds, given what reading it as a
/// date gave: the seconds, or the words of the error behind those that name
/// the field.
pub open spec fn expiration_read(parsed: Result<int, Seq<char>>) -> Result<Option<i64>, Seq<char>> {
    match parsed {
        Ok(seconds) => Ok(Some(seconds as i64)),
        Err(words) => Err("Invalid expiration date format, "@ + words),
    }
}

/// What the field `expiration` holds: nothing where it is empty, else
/// what reading it as a date gave.
pub open spec fn expiration_of(text: Seq<char>, parsed: Result<int, Seq<char>>) -> Result<
    Option<i64>,
    Seq<char>,
> {
    if text.len() == 0 {
        Ok(None)
    } else {
        expiration_read(parsed)
    }
}

/// Turns what reading a filled-in field `expiration` gave into the field's
/// value.
pub fn expiration_from(parsed: Result<i64, String>) -> (r: Result<Option<i64>, String>)
    ensures
        field_view(r) == expiration_read(seconds_view(parsed)),
{
    match parsed {
        Ok(seconds) => Ok(Some(seconds)),
        Err(words) => Err(join("Invalid expiration date format, ", words.as_str())),
    }
}

/// Reads the field `expiration`.
pub fn expiration_field(text: &str) -> (r: Result<Option<i64>, String>)
    ensures
        field_view(r) == expiration_of(text@, datetime_parse(text@, expiration_format())),
{
    if text.is_empty() {
        return Ok(None);
    }
    expiration_from(parse_expiration(text))
}

/// The text of the fields of the create form.
#[derive(Debug, Clone, PartialEq, Eq)]
pub struct CreateForm {
    pub url: String,
    pub length: String,
    pub number: String,
    pub capital: String,
    pub lowercase: String,
    pub expiration: String,
    pub expiration_ttl: String,
}

/// The text of the fields of the update form.
#[derive(Debug, Clone, PartialEq, Eq)]
pub struct UpdateForm {
    pub url: String,
    pub expiration: String,
    pub expiration_ttl: String,
}

/// A request body or what the host does instead, by mathematical value.
pub open spec fn create_view(r: Result<CreateRequestBody, Effects>) -> Result<
    CreateRequestView,
    EffectsView,
> {
    match r {
        Ok(body) => Ok(body@),
        Err(effects) => Err(effects@),
    }
}

/// A request body or what the host does instead, by mathematical value.
pub open spec fn update_view(r: Result<UpdateRequestBody, Effects>) -> Result<
    UpdateRequestView,
    EffectsView,
> {
    match r {
        Ok(body) => Ok(body@),
        Err(effects) => Err(effects@),
    }
}

/// What the create form comes to, given what reading its field
/// `expiration` as a date gave. The fields are read in the order length,
/// expiration, ttl, and the first that is wrong gives the message.
pub open spec fn create_form_result(form: CreateForm, parsed: Result<int, Seq<char>>) -> Result<
    CreateRequestView,
    EffectsView,
> {
    match length_of(form.length@) {
        Err(words) => Err(notice(words)),
        Ok(length) => match expiration_of(form.expiration@, parsed) {
            Err(words) => Err(notice(words)),
            Ok(expiration) => match ttl_of(form.expiration_ttl@) {
                Err(words) => Err(notice(words)),
                Ok(expiration_ttl) => Ok(
                    CreateRequestView {
                        url: form.url@,
                        length,
                        number: flag_of(form.number@),
                        capital: flag_of(form.capital@),
                        lowercase: flag_of(form.lowercase@),
                        expiration,
                        expiration_ttl,
                    },
                ),
            },
        },
    }
}

/// Reads the create form.
pub fn parse_create_form(form: &CreateForm) -> (r: Result<CreateRequestBody, Effects>)
    ensures
        create_view(r) == create_form_result(
            *form,
            datetime_parse(form.expiration@, expiration_format()),
        ),
{
    let length = match length_field(form.length.as_str()) {
        Ok(length) => length,
        Err(words) => {
            return Err(Effects::notice(words));
        },
    };
    let number = flag_field(form.number.as_str());
    let capital = flag_field(form.capital.as_str());
    let lowercase = flag_field(form.lowercase.as_str());
    let expiration = match expiration_field(form.expiration.as_str()) {
        Ok(expiration) => expiration,
        Err(words) => {
            return Err(Effects::notice(words));
        },
    };
    let expiration_ttl = match ttl_field(form.expiration_ttl.as_str()) {
        Ok(ttl) => ttl,
        Err(words) => {
            return Err(Effects::notice(words));
        },
    };
    Ok(
        CreateRequestBody {
            url: form.url.clone(),
            length,
            number,
            capital,
            lowercase,
            expiration,
            expiration_ttl,
        },
    )
}

/// What the update form of the link `key` comes to, given what reading its
/// field `expiration` as a date gave. The fields are read in the order
/// expiration, ttl, and the first that is wrong gives the message.
pub open spec fn update_form_result(
    key: Seq<char>,
    form: UpdateForm,
    parsed: Result<int, Seq<char>>,
) -> Result<UpdateRequestView, EffectsView> {
    match expiration_of(form.expiration@, parsed) {
        Err(words) => Err(notice(words)),
        Ok(expiration) => match ttl_of(form.expiration_ttl@) {
            Err(words) => Err(notice(words)),
            Ok(expiration_ttl) => Ok(
                UpdateRequestView { short: key, url: form.url@, expiration, expiration_ttl },
            ),
        },
    }
}

/// Reads the update form of the link `key`.
pub fn parse_update_form(key: &str, form: &UpdateForm) -> (r: Result<UpdateRequestBody, Effects>)
    ensures
        update_view(r) == update_form_result(
            key@,
            *form,
            datetime_parse(form.expiration@, expiration_format()),
        ),
{
    let expiration = match expiration_field(form.expiration.as_str()) {
        Ok(expiration) => expiration,
        Err(words) => {
            return Err(Effects::notice(words));
        },
    };
    let expiration_ttl = match ttl_field(form.expiration_ttl.as_str()) {
        Ok(ttl) => ttl,
        Err(words) => {
            return Err(Effects::notice(words));
        },
    };
    Ok(UpdateRequestBody { short: key.to_owned(), url: form.url.clone(), expiration, expiration_ttl })
}

/// Whether a submit of a form is under way. While one is, the form takes
/// no other: a create that is sent twice makes two links.
#[derive(Debug, Clone, Copy, PartialEq, Eq, Structural)]
pub struct Submit {
    pub busy: bool,
}

impl Submit {
    /// A form with no submit under way.
    pub fn idle() -> (r: Submit)
        ensures
            !r.busy,
    {
        Submit { busy: false }
    }

    /// Asks to start a submit. It starts where none is under way, and the
    /// form is busy afterwards either way.
    pub fn begin(&mut self) -> (started: bool)
        ensures
            started == !old(self).busy,
            final(self).busy,
    {
        let started = !self.busy;
        self.busy = true;
        started
    }

    /// Ends the submit that is under way.
    pub fn finish(&mut self)
        ensures
            !final(self).busy,
    {
        self.busy = false;
    }
}

} // verus!
