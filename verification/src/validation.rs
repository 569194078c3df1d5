//! The rules that a request must meet before it reaches the database.
//!
//! Every rule bounds the length of a string field, as garde's `length` rule
//! does in its default mode: a string's length is the number of bytes of its
//! UTF-8 encoding. An optional field is checked only when it is present.

use vstd::prelude::*;
use vstd::utf8::encode_utf8;
use crate::models::{CreateRegionRequest, UpdateRegionRequest};

verus! {

/// A field of a region request.
#[derive(PartialEq, Eq, Structural, Clone, Copy, Debug)]
pub enum RegionField {
    Name,
    CountryCode,
    City,
}

impl RegionField {
    /// The field's name in the request body.
    pub fn key(&self) -> (r: &'static str)
        ensures
            r@ == field_key(*self),
    {
        proof {
            reveal_strlit("name");
            reveal_strlit("country_code");
            reveal_strlit("city");
        }
        match self {
            RegionField::Name => "name",
            RegionField::CountryCode => "country_code",
            RegionField::City => "city",
        }
    }
}

/// The name of each field in the request body.
pub open spec fn field_key(f: RegionField) -> Seq<char> {
    match f {
        RegionField::Name => seq!['n', 'a', 'm', 'e'],
        RegionField::CountryCode => seq!['c', 'o', 'u', 'n', 't', 'r', 'y', '_', 'c', 'o', 'd', 'e'],
        RegionField::City => seq!['c', 'i', 't', 'y'],
    }
}

/// A rule that a field breaks, with the message that garde gives for it.
pub struct FieldError {
    pub field: RegionField,
    pub message: String,
}

/// The length of a string as garde's default `length` rule counts it: the
/// number of bytes of its UTF-8 encoding.
pub open spec fn byte_len(s: Seq<char>) -> int {
    encode_utf8(s).len() as int
}

/// Whether a string's length lies in `[min, max]`.
pub open spec fn length_within(s: Seq<char>, min: int, max: int) -> bool {
    min <= byte_len(s) <= max
}

/// Whether an optional string is absent or of a length in `[min, max]`.
pub open spec fn opt_length_within(s: Option<String>, min: int, max: int) -> bool {
    match s {
        Some(v) => length_within(v@, min, max),
        None => true,
    }
}

/// `[f]` when the check fails, else nothing.
pub open spec fn unless(ok: bool, f: RegionField) -> Seq<RegionField> {
    if ok {
        Seq::empty()
    } else {
        seq![f]
    }
}

/// The fields of a creation request that break a rule, in the order of the
/// request: a name of 1 to 100 bytes, a country code of exactly 2 bytes, and
/// a city, when given, of at most 100 bytes.
pub open spec fn create_violations(req: CreateRegionRequest) -> Seq<RegionField> {
    unless(length_within(req.name@, 1, 100), RegionField::Name) + unless(
        length_within(req.country_code@, 2, 2),
        RegionField::CountryCode,
    ) + unless(opt_length_within(req.city, 0, 100), RegionField::City)
}

/// The fields of an update request that break a rule: the same bounds as for
/// a creation, each checked only when the field is given.
pub open spec fn update_violations(req: UpdateRegionRequest) -> Seq<RegionField> {
    unless(opt_length_within(req.name, 1, 100), RegionField::Name) + unless(
        opt_length_within(req.country_code, 2, 2),
        RegionField::CountryCode,
    ) + unless(opt_length_within(req.city, 0, 100), RegionField::City)
}

/// The fields of a list of errors, in order.
pub open spec fn error_fields(errors: Seq<FieldError>) -> Seq<RegionField> {
    errors.map_values(|e: FieldError| e.field)
}

/// Calls garde's `length` rule in its default mode,
/// `garde::rules::length::simple::apply`, on a string. garde counts the bytes
/// of the string and fails exactly when that count is below `min` or above
/// `max`; the error is handed back as its message. The message's text is not
/// stated: garde takes it from the translation handler in force on the thread.
#[verifier::external_body]
fn garde_length(value: &str, min: usize, max: usize) -> (r: Result<(), String>)
    ensures
        r is Ok <==> length_within(value@, min as int, max as int),
{
    match garde::rules::length::simple::apply(&value, (min, max)) {
        Ok(()) => Ok(()),
        Err(e) => Err(e.to_string()),
    }
}

/// Checks one field, adding an error for it when it breaks its rule.
fn check_length(
    errors: &mut Vec<FieldError>,
    field: RegionField,
    value: Option<&String>,
    min: usize,
    max: usize,
)
    ensures
        error_fields(final(errors)@) == error_fields(old(errors)@) + unless(
            match value {
                Some(v) => length_within(v@, min as int, max as int),
                None => true,
            },
            field,
        ),
{
    if let Some(v) = value {
        if let Err(message) = garde_length(v.as_str(), min, max) {
            errors.push(FieldError { field, message });
        }
    }
    proof {
        assert(error_fields(errors@) =~= error_fields(old(errors)@) + unless(
            match value {
                Some(v) => length_within(v@, min as int, max as int),
                None => true,
            },
            field,
        ));
    }
}

/// The errors of a creation request, one for each field that breaks its
/// rule, in the order of the request; no error means the request is valid.
pub fn validate_create_request(req: &CreateRegionRequest) -> (r: Vec<FieldError>)
    ensures
        error_fields(r@) == create_violations(*req),
{
    let mut errors: Vec<FieldError> = Vec::new();
    check_length(&mut errors, RegionField::Name, Some(&req.name), 1, 100);
    check_length(&mut errors, RegionField::CountryCode, Some(&req.country_code), 2, 2);
    check_length(&mut errors, RegionField::City, req.city.as_ref(), 0, 100);
    proof {
        assert(error_fields(Seq::<FieldError>::empty()) =~= Seq::<RegionField>::empty());
        assert(error_fields(errors@) =~= create_violations(*req));
    }
    errors
}

/// The errors of an update request, one for each given field that breaks
/// its rule, in the order of the request; no error means the request is
/// valid.
pub fn validate_update_request(req: &UpdateRegionRequest) -> (r: Vec<FieldError>)
    ensures
        error_fields(r@) == update_violations(*req),
{
    let mut errors: Vec<FieldError> = Vec::new();
    check_length(&mut errors, RegionField::Name, req.name.as_ref(), 1, 100);
    check_length(&mut errors, RegionField::CountryCode, req.country_code.as_ref(), 2, 2);
    check_length(&mut errors, RegionField::City, req.city.as_ref(), 0, 100);
    proof {
        assert(error_fields(Seq::<FieldError>::empty()) =~= Seq::<RegionField>::empty());
        assert(error_fields(errors@) =~= update_violations(*req));
    }
    errors
}

} // verus!
