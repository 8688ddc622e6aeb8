//! Bootstrapping a game on the configured game server: where the lobby
//! posts the wizard's parameters, and how the server's reply is judged.

use vstd::prelude::*;
use crate::text::{nat_text, trim_end_char, trim_end_matching, u64_text};

verus! {

/// Why a game could not be bootstrapped.
#[derive(Debug)]
pub enum OrchestratorError {
    Transport(String),
    Server { status: u16, body: String },
    BadResponse(&'static str),
}

pub open spec fn orchestrator_error_text(e: OrchestratorError) -> Seq<char> {
    match e {
        OrchestratorError::Transport(m) => "game-server transport: "@ + m@,
        OrchestratorError::Server { status, body } => "game-server returned "@ + nat_text(
            status as nat,
        ) + ": "@ + body@,
        OrchestratorError::BadResponse(field) => "game-server response missing required field: "@
            + field@,
    }
}

impl OrchestratorError {
    /// The human-readable message of this error.
    pub fn message(&self) -> (s: String)
        ensures
            s@ == orchestrator_error_text(*self),
    {
        match self {
            OrchestratorError::Transport(m) => String::from_str("game-server transport: ").concat(
                m.as_str(),
            ),
            OrchestratorError::Server { status, body } => {
                let code = u64_text(*status as u64);
                String::from_str("game-server returned ").concat(code.as_str()).concat(": ").concat(
                    body.as_str(),
                )
            },
            OrchestratorError::BadResponse(field) => String::from_str(
                "game-server response missing required field: ",
            ).concat(field),
        }
    }
}

/// The parameters posted to the game server's `POST /api/v1/games/new`.
#[derive(Debug, Clone)]
pub struct NewGameRequest {
    pub display_name: Option<String>,
    pub width: Option<u32>,
    pub height: Option<u32>,
    pub seed: Option<u64>,
    pub num_ai: Option<u32>,
    pub turn_limit: Option<u32>,
}

/// The game server's reply to a bootstrap.
#[derive(Debug, Clone)]
pub struct NewGameResponse {
    pub game_id: String,
    pub civ_id: String,
    pub token: String,
    pub turn: u32,
}

/// What the lobby remembers of a bootstrapped game.
#[derive(Debug, Clone)]
pub struct BootstrappedGame {
    pub server_url: String,
    pub server_token: String,
    pub remote_game_id: String,
}

/// The server's base URL without trailing slashes, and the bootstrap
/// endpoint under it.
pub fn bootstrap_endpoint(server_url: &str) -> (r: (String, String))
    ensures
        r.0@ == trim_end_char(server_url@, '/'),
        r.1@ == trim_end_char(server_url@, '/') + "/api/v1/games/new"@,
{
    let base = trim_end_matching(server_url, '/');
    let url = base.clone().concat("/api/v1/games/new");
    (base, url)
}

/// Whether an HTTP status is a success (2xx).
pub open spec fn is_success_status(status: u16) -> bool {
    200 <= status && status <= 299
}

/// The outcome of the bootstrap request once its status is known: a
/// non-2xx status is an error carrying the status and the response body.
pub fn reply_outcome(status: u16, body: String) -> (r: Result<(), OrchestratorError>)
    ensures
        is_success_status(status) ==> r is Ok,
        !is_success_status(status) ==> (r matches Err(OrchestratorError::Server { status: s, body: b })
            && s == status && b@ == body@),
        200 <= status <= 299 ==> r is Ok,
        (status < 200 || status > 299) ==> r is Err,
{
    if 200 <= status && status <= 299 {
        Ok(())
    } else {
        Err(OrchestratorError::Server { status, body })
    }
}

/// Judges a parsed bootstrap reply: a token and a game id are required.
pub fn finish_bootstrap(server_url: String, parsed: NewGameResponse) -> (r: Result<
    BootstrappedGame,
    OrchestratorError,
>)
    ensures
        parsed.token@.len() == 0 ==> (r matches Err(OrchestratorError::BadResponse(f)) && f@
            == "token"@),
        parsed.token@.len() != 0 && parsed.game_id@.len() == 0 ==> (r matches Err(
            OrchestratorError::BadResponse(f),
        ) && f@ == "game_id"@),
        parsed.token@.len() != 0 && parsed.game_id@.len() != 0 ==> (r matches Ok(g)
            && g.server_url@ == server_url@ && g.server_token@ == parsed.token@
            && g.remote_game_id@ == parsed.game_id@),
{
    if parsed.token.as_str().is_empty() {
        return Err(OrchestratorError::BadResponse("token"));
    }
    if parsed.game_id.as_str().is_empty() {
        return Err(OrchestratorError::BadResponse("game_id"));
    }
    Ok(BootstrappedGame {
        server_url,
        server_token: parsed.token,
        remote_game_id: parsed.game_id,
    })
}

/// Every 2xx status, and only a 2xx status, is a success: 201 Created and
/// 204 No Content count as much as 200.
pub proof fn lemma_success_is_2xx(status: u16)
    ensures
        is_success_status(status) <==> 200 <= status <= 299,
{
}

} // verus!
