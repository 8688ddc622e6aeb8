//! Browser bindings for `/api/v1/games`: the wire shapes the SPA reads and
//! the request each binding sends.

use vstd::prelude::*;
use crate::api_auth::ApiCall;

verus! {

/// A game as the SPA receives it.
#[derive(Debug, Clone)]
pub struct GameView {
    pub game_id: String,
    pub owner_player_id: String,
    pub name: String,
    pub leader: String,
    pub civ_id: String,
    pub difficulty: String,
    pub players_human: u32,
    pub players_ai: u32,
    pub map_type: String,
    pub map_size: String,
    pub seed: String,
    pub turn: u32,
    pub era: String,
    pub score: i32,
    pub status: String,
    pub server_url: String,
    pub last_played_at: Option<String>,
    pub created_at: String,
}

#[derive(Debug, Clone)]
pub struct GamesListResp {
    pub games: Vec<GameView>,
}

/// The wizard's create request, as the SPA sends it.
#[derive(Debug, Clone)]
pub struct CreateGameBody {
    pub name: String,
    pub leader: String,
    pub civ_id: String,
    pub difficulty: String,
    pub players_human: u32,
    pub players_ai: u32,
    pub map_type: String,
    pub map_size: String,
    pub seed: String,
}

impl Default for CreateGameBody {
    fn default() -> (b: Self)
        ensures
            b.name@.len() == 0 && b.leader@.len() == 0 && b.civ_id@.len() == 0,
            b.difficulty@.len() == 0 && b.map_type@.len() == 0 && b.map_size@.len() == 0,
            b.seed@.len() == 0 && b.players_human == 0 && b.players_ai == 0,
    {
        CreateGameBody {
            name: String::new(),
            leader: String::new(),
            civ_id: String::new(),
            difficulty: String::new(),
            players_human: 0,
            players_ai: 0,
            map_type: String::new(),
            map_size: String::new(),
            seed: String::new(),
        }
    }
}

/// Where to continue a game, and the token to attach there.
#[derive(Debug, Clone)]
pub struct ResumeResp {
    pub url: String,
    pub token: String,
}

/// `GET /api/v1/games`.
pub fn list() -> (r: ApiCall)
    ensures
        r.method@ == "GET"@,
        r.path@ == "/api/v1/games"@,
{
    ApiCall { method: "GET", path: String::from_str("/api/v1/games") }
}

/// `POST /api/v1/games` with the wizard's body.
pub fn create(body: CreateGameBody) -> (r: (ApiCall, CreateGameBody))
    ensures
        r.0.method@ == "POST"@,
        r.0.path@ == "/api/v1/games"@,
        r.1 == body,
{
    (ApiCall { method: "POST", path: String::from_str("/api/v1/games") }, body)
}

/// `DELETE /api/v1/games/{id}`.
pub fn delete_game(game_id: &str) -> (r: ApiCall)
    ensures
        r.method@ == "DELETE"@,
        r.path@ == "/api/v1/games/"@ + game_id@,
{
    ApiCall { method: "DELETE", path: String::from_str("/api/v1/games/").concat(game_id) }
}

/// `POST /api/v1/games/{id}/resume`.
pub fn resume(game_id: &str) -> (r: ApiCall)
    ensures
        r.method@ == "POST"@,
        r.path@ == "/api/v1/games/"@ + game_id@ + "/resume"@,
{
    ApiCall {
        method: "POST",
        path: String::from_str("/api/v1/games/").concat(game_id).concat("/resume"),
    }
}

} // verus!
