//! Browser bindings for `/api/v1/auth/*`: which request each binding sends.

use vstd::prelude::*;

verus! {

/// A REST call: the HTTP method and the same-origin path.
#[derive(Debug)]
pub struct ApiCall {
    pub method: &'static str,
    pub path: String,
}

/// The body of `POST /api/v1/auth/email/start`.
#[derive(Debug, Clone)]
pub struct EmailStartBody {
    pub email: String,
}

/// The lobby's acknowledgement that a magic link was sent.
#[derive(Debug, Clone)]
pub struct EmailStartResp {
    pub ok: bool,
    pub message: String,
}

/// The call that starts the email magic-link flow for `email`.
pub fn email_start(email: String) -> (r: (ApiCall, EmailStartBody))
    ensures
        r.0.method@ == "POST"@,
        r.0.path@ == "/api/v1/auth/email/start"@,
        r.1.email@ == email@,
{
    (
        ApiCall { method: "POST", path: String::from_str("/api/v1/auth/email/start") },
        EmailStartBody { email },
    )
}

/// The call that ends the session.
pub fn signout() -> (r: ApiCall)
    ensures
        r.method@ == "POST"@,
        r.path@ == "/api/v1/auth/signout"@,
{
    ApiCall { method: "POST", path: String::from_str("/api/v1/auth/signout") }
}

} // verus!
