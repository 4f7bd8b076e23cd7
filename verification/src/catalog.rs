//! The addresses of the catalog's records, and the cookie that carries the
//! session token.

use crate::error::{CivitError, CivitErrorView};
use crate::text::{decimal, decimal_text};
use vstd::prelude::*;
use vstd::string::*;

verus! {

/// The root of the catalog's interface.
pub const MAIN_API_URL: &'static str = "https://civitai.com/api/v1";

/// The site that the session cookie belongs to.
pub const SITE_URL: &'static str = "https://civitai.com";

/// What came of asking the catalog for a record.
#[derive(Debug, Clone, PartialEq)]
pub enum Answer<T> {
    /// The catalog could not be reached, or answered with a failure.
    Unreachable,
    /// The catalog answered, but not with a record of the expected shape.
    Malformed,
    /// The record.
    Record(T),
}

/// The address of the record of a model.
pub open spec fn model_url(model_id: Seq<char>) -> Seq<char> {
    MAIN_API_URL@ + "/models/"@ + model_id
}

/// The address of the record of a version.
pub open spec fn model_version_url(version_id: int) -> Seq<char> {
    MAIN_API_URL@ + "/model-versions/"@ + decimal(version_id)
}

/// The cookie that carries the session token `token`.
pub open spec fn cookie_text(token: Seq<char>) -> Seq<char> {
    "__Secure-civitai-token="@ + token
        + "; Domain=.civitai.com; Path=/; HttpOnly; Secure; SameSite=Lax"@
}

/// The address of the record of the model `model_id`.
pub fn model_details_url(model_id: &str) -> (url: String)
    ensures
        url@ == model_url(model_id@),
{
    let mut url = MAIN_API_URL.to_owned();
    url.append("/models/");
    url.append(model_id);
    url
}

/// The address of the record of the version `model_version_id`.
pub fn model_version_details_url(model_version_id: i64) -> (url: String)
    ensures
        url@ == model_version_url(model_version_id as int),
{
    let mut url = MAIN_API_URL.to_owned();
    url.append("/model-versions/");
    url.append(decimal_text(model_version_id).as_str());
    url
}

/// The result of a lookup at `url`: the record, `FetchFailed` with the
/// address when the catalog could not be reached, and `ParseFailed` when its
/// answer had another shape.
pub fn lookup_result<T>(url: String, answer: Answer<T>) -> (result: Result<T, CivitError>)
    ensures
        match answer {
            Answer::Record(record) => result == Ok::<T, CivitError>(record),
            Answer::Unreachable => result matches Err(e) && e@ == (CivitErrorView::FetchFailed {
                url: url@,
            }),
            Answer::Malformed => result matches Err(e) && e@ == CivitErrorView::ParseFailed,
        },
{
    match answer {
        Answer::Record(record) => Ok(record),
        Answer::Unreachable => Err(CivitError::FetchFailed { url }),
        Answer::Malformed => Err(CivitError::ParseFailed),
    }
}

/// The cookie to set for the catalog's site so that requests carry `token`.
pub fn session_cookie(token: &str) -> (cookie: String)
    ensures
        cookie@ == cookie_text(token@),
{
    let mut cookie = "__Secure-civitai-token=".to_owned();
    cookie.append(token);
    cookie.append("; Domain=.civitai.com; Path=/; HttpOnly; Secure; SameSite=Lax");
    cookie
}

} // verus!
