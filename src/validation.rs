//! Validation of a submitted URL.
use vstd::prelude::*;
use vstd::string::*;
use crate::errors::{AppError, FieldError};

verus! {

/// Whether a string parses as an absolute URL, as the `url` crate decides.
pub uninterp spec fn is_valid_url(s: Seq<char>) -> bool;

/// Relies on validator's `validate_url`: true exactly when `Url::parse`
/// accepts the string, which depends on the string alone.
#[verifier::external_body]
fn url_is_valid(s: &str) -> (r: bool)
    ensures
        r == is_valid_url(s@),
{
    validator::validate_url(s)
}

/// The single failure reported for a malformed `url` field.
pub open spec fn is_url_failure(v: Vec<FieldError>) -> bool {
    &&& v@.len() == 1
    &&& v@[0].field@ == "url"@
    &&& v@[0].code@ == "url"@
}

/// Checks the `url` field of a submission: accepted when it is a
/// well-formed absolute URL, otherwise a validation error that names the
/// field and the rule.
pub fn validate_url_field(url: &str) -> (r: Result<(), AppError>)
    ensures
        r is Ok <==> is_valid_url(url@),
        r is Err ==> (r->Err_0 is ValidationErrors && is_url_failure(r->Err_0->ValidationErrors_0)),
{
    if url_is_valid(url) {
        Ok(())
    } else {
        let f = FieldError { field: String::from_str("url"), code: String::from_str("url") };
        proof {
            reveal_strlit("url");
        }
        let mut v: Vec<FieldError> = Vec::new();
        v.push(f);
        Err(AppError::ValidationErrors(v))
    }
}

} // verus!
