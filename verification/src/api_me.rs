//! Browser bindings for `/api/v1/me`: the wire shapes the SPA reads, the
//! request each binding sends, and how an avatar upload's reply is read.

use vstd::prelude::*;
use crate::api_auth::ApiCall;
use crate::model::Preferences;
use crate::sdk::{is_transport_error, ApiError};
use crate::cli::{json_error, json_parse_error, json_str_member, json_string_field};

verus! {

/// A linked identity as the SPA receives it; `id` may be empty when the
/// reply carried no row ids.
#[derive(Debug, Clone)]
pub struct IdentityView {
    pub id: String,
    pub kind: String,
    pub label: String,
    pub primary_key: String,
    pub verified: Option<bool>,
    pub primary: Option<bool>,
}

/// The signed-in account as the SPA receives it.
#[derive(Debug, Clone)]
pub struct MeView {
    pub player_id: String,
    pub preferred_name: String,
    pub pronouns: String,
    pub bio: String,
    pub identities: Vec<IdentityView>,
    pub prefs: Preferences,
    pub avatar_url: Option<String>,
}

/// The profile patch the SPA sends; absent fields are left out.
#[derive(Debug, Default, Clone)]
pub struct PatchMeBody {
    pub preferred_name: Option<String>,
    pub pronouns: Option<String>,
    pub bio: Option<String>,
    pub prefs: Option<Preferences>,
}

/// `GET /api/v1/me`.
pub fn get() -> (r: ApiCall)
    ensures
        r.method@ == "GET"@,
        r.path@ == "/api/v1/me"@,
{
    ApiCall { method: "GET", path: String::from_str("/api/v1/me") }
}

/// `PATCH /api/v1/me` with the patch body.
pub fn patch(body: PatchMeBody) -> (r: (ApiCall, PatchMeBody))
    ensures
        r.0.method@ == "PATCH"@,
        r.0.path@ == "/api/v1/me"@,
        r.1 == body,
{
    (ApiCall { method: "PATCH", path: String::from_str("/api/v1/me") }, body)
}

/// `DELETE /api/v1/me`.
pub fn delete_me() -> (r: ApiCall)
    ensures
        r.method@ == "DELETE"@,
        r.path@ == "/api/v1/me"@,
{
    ApiCall { method: "DELETE", path: String::from_str("/api/v1/me") }
}

/// `DELETE /api/v1/me/identities/{id}`.
pub fn unlink_identity(id: &str) -> (r: ApiCall)
    ensures
        r.method@ == "DELETE"@,
        r.path@ == "/api/v1/me/identities/"@ + id@,
{
    ApiCall { method: "DELETE", path: String::from_str("/api/v1/me/identities/").concat(id) }
}

/// `POST /api/v1/me/identities/{id}/verify-start`.
pub fn start_verify_identity(id: &str) -> (r: ApiCall)
    ensures
        r.method@ == "POST"@,
        r.path@ == "/api/v1/me/identities/"@ + id@ + "/verify-start"@,
{
    ApiCall {
        method: "POST",
        path: String::from_str("/api/v1/me/identities/").concat(id).concat("/verify-start"),
    }
}

/// The result of an avatar upload from the reply's status and text: a
/// non-2xx status fails with `upload_failed` and the text; a 2xx text that
/// is no JSON fails as a transport error carrying the reading error;
/// otherwise the `avatar_url` string member of the body, or empty when the
/// body names none.
pub fn upload_outcome(status: u16, text: String) -> (r: Result<String, ApiError>)
    ensures
        !(200 <= status < 300) ==> (r matches Err(e) && e.status == status && e.code@
            == "upload_failed"@ && (e.message matches Some(m) && m@ == text@)),
        (200 <= status < 300) ==> match json_parse_error(text@) {
            Some(err) => r matches Err(e) && is_transport_error(e, err),
            None => r matches Ok(u) && match json_string_field(text@, "avatar_url"@) {
                Some(a) => u@ == a,
                None => u@.len() == 0,
            },
        },
{
    if !(200 <= status && status < 300) {
        return Err(ApiError {
            status,
            code: String::from_str("upload_failed"),
            message: Some(text),
        });
    }
    if let Some(err) = json_error(text.as_str()) {
        return Err(ApiError::transport(err));
    }
    match json_str_member(text.as_str(), "avatar_url") {
        Some(a) => Ok(a),
        None => Ok(String::new()),
    }
}

} // verus!
