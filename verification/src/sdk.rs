//! The typed client SDK: HTTP methods, the error callers see, the bodies of
//! the health and game-bootstrap endpoints, and the request paths of the
//! parameterised endpoints.

use vstd::prelude::*;
use crate::text::{i64_text, int_text, nat_text, u64_text};

verus! {

/// The HTTP methods the SDK uses.
#[derive(Debug, Clone, Copy, PartialEq, Eq, Structural)]
pub enum Method {
    Get,
    Post,
    Put,
    Patch,
    Delete,
}

pub open spec fn method_text(m: Method) -> Seq<char> {
    match m {
        Method::Get => "GET"@,
        Method::Post => "POST"@,
        Method::Put => "PUT"@,
        Method::Patch => "PATCH"@,
        Method::Delete => "DELETE"@,
    }
}

impl Method {
    /// The method's name on the wire.
    pub fn as_str(self) -> (s: &'static str)
        ensures
            s@ == method_text(self),
    {
        match self {
            Method::Get => "GET",
            Method::Post => "POST",
            Method::Put => "PUT",
            Method::Patch => "PATCH",
            Method::Delete => "DELETE",
        }
    }
}

/// An error returned to SDK callers: HTTP status, server error code and
/// optional message.
#[derive(Debug, Clone)]
pub struct ApiError {
    pub status: u16,
    pub code: String,
    pub message: Option<String>,
}

/// How an [`ApiError`] is shown: `{code} ({status})`, then `: {message}`
/// when there is one.
pub open spec fn api_error_text(code: Seq<char>, status: u16, message: Option<Seq<char>>) -> Seq<char> {
    match message {
        Some(m) => code + " ("@ + nat_text(status as nat) + "): "@ + m,
        None => code + " ("@ + nat_text(status as nat) + ")"@,
    }
}

impl ApiError {
    pub open spec fn message_spec(&self) -> Option<Seq<char>> {
        match self.message {
            Some(m) => Some(m@),
            None => None,
        }
    }

    /// The error as text.
    pub fn to_string(&self) -> (s: String)
        ensures
            s@ == api_error_text(self.code@, self.status, self.message_spec()),
    {
        let status = u64_text(self.status as u64);
        let head = self.code.clone().concat(" (").concat(status.as_str());
        match &self.message {
            Some(m) => head.concat("): ").concat(m.as_str()),
            None => head.concat(")"),
        }
    }
}

/// `e` is the transport error carrying `message`: status 0, code
/// `transport`.
pub open spec fn is_transport_error(e: ApiError, message: Seq<char>) -> bool {
    &&& e.status == 0
    &&& e.code@ == "transport"@
    &&& e.message matches Some(m) && m@ == message
}

impl ApiError {
    /// A failure before any HTTP status was read (the request could not be
    /// sent, or the reply could not be read).
    pub fn transport(message: String) -> (e: ApiError)
        ensures
            is_transport_error(e, message@),
    {
        ApiError { status: 0, code: String::from_str("transport"), message: Some(message) }
    }
}

/// The body of `GET /api/v1/health`.
#[derive(Debug, Clone)]
pub struct HealthResponse {
    pub ok: bool,
    pub api: String,
}

impl Default for HealthResponse {
    fn default() -> (r: Self)
        ensures
            !r.ok,
            r.api@.len() == 0,
    {
        HealthResponse { ok: false, api: String::new() }
    }
}

/// The body of `POST /api/v1/games/new`; absent fields are left out.
#[derive(Debug, Clone)]
pub struct NewGameRequest {
    pub display_name: Option<String>,
    pub width: Option<u32>,
    pub height: Option<u32>,
    pub seed: Option<u64>,
    pub num_ai: Option<u32>,
    pub turn_limit: Option<u32>,
}

impl Default for NewGameRequest {
    fn default() -> (r: Self)
        ensures
            r.display_name is None,
            r.width is None,
            r.height is None,
            r.seed is None,
            r.num_ai is None,
            r.turn_limit is None,
    {
        NewGameRequest {
            display_name: None,
            width: None,
            height: None,
            seed: None,
            num_ai: None,
            turn_limit: None,
        }
    }
}

/// The reply to a bootstrap: the game, the player's civ, the bearer token
/// for later calls, and the current turn.
#[derive(Debug, Clone)]
pub struct NewGameResponse {
    pub game_id: String,
    pub civ_id: String,
    pub token: String,
    pub turn: u32,
}

// ───────────────────────────── request paths ─────────────────────────────────

/// `GET /api/v1/combat/preview` for an attacker against the tile `(q, r)`.
pub fn combat_preview_path(attacker_id: &str, defender_q: i32, defender_r: i32) -> (s: String)
    ensures
        s@ == "/api/v1/combat/preview?attacker_id="@ + attacker_id@ + "&defender_q="@ + int_text(
            defender_q as int,
        ) + "&defender_r="@ + int_text(defender_r as int),
{
    let q = i64_text(defender_q as i64);
    let r = i64_text(defender_r as i64);
    String::from_str("/api/v1/combat/preview?attacker_id=").concat(attacker_id).concat(
        "&defender_q=",
    ).concat(q.as_str()).concat("&defender_r=").concat(r.as_str())
}

/// `GET /api/v1/diplomacy/civs/{id}`.
pub fn diplomacy_civ_path(id: &str) -> (s: String)
    ensures
        s@ == "/api/v1/diplomacy/civs/"@ + id@,
{
    String::from_str("/api/v1/diplomacy/civs/").concat(id)
}

/// `GET /api/v1/world/tile/{q}/{r}`.
pub fn world_tile_path(q: i32, r: i32) -> (s: String)
    ensures
        s@ == "/api/v1/world/tile/"@ + int_text(q as int) + "/"@ + int_text(r as int),
{
    let qs = i64_text(q as i64);
    let rs = i64_text(r as i64);
    String::from_str("/api/v1/world/tile/").concat(qs.as_str()).concat("/").concat(rs.as_str())
}

/// `GET /api/v1/world/snapshot` with the given query parameters, in the
/// order `q`, `r`, `radius`: the first present one after `?`, each later one
/// after `&`; no query at all when none is given.
pub open spec fn world_snapshot_path_spec(q: Option<i32>, r: Option<i32>, radius: Option<u32>) -> Seq<char> {
    let p1 = match q {
        Some(v) => seq!['?'] + "q="@ + int_text(v as int),
        None => Seq::empty(),
    };
    let sep2 = if q is Some { '&' } else { '?' };
    let p2 = match r {
        Some(v) => seq![sep2] + "r="@ + int_text(v as int),
        None => Seq::empty(),
    };
    let sep3 = if q is Some || r is Some { '&' } else { '?' };
    let p3 = match radius {
        Some(v) => seq![sep3] + "radius="@ + nat_text(v as nat),
        None => Seq::empty(),
    };
    "/api/v1/world/snapshot"@ + p1 + p2 + p3
}

/// The snapshot path for the optional centre `(q, r)` and radius.
pub fn world_snapshot_path(q: Option<i32>, r: Option<i32>, radius: Option<u32>) -> (s: String)
    ensures
        s@ == world_snapshot_path_spec(q, r, radius),
{
    let mut url = String::from_str("/api/v1/world/snapshot");
    let ghost base = url@;
    let mut sep = '?';
    let ghost mut p1: Seq<char> = Seq::empty();
    let ghost mut p2: Seq<char> = Seq::empty();
    let ghost mut p3: Seq<char> = Seq::empty();
    if let Some(v) = q {
        crate::text::push_char(&mut url, sep);
        url = url.concat("q=").concat(i64_text(v as i64).as_str());
        sep = '&';
        proof {
            p1 = seq!['?'] + "q="@ + int_text(v as int);
        }
    }
    assert(url@ =~= base + p1);
    if let Some(v) = r {
        let ghost before = url@;
        crate::text::push_char(&mut url, sep);
        url = url.concat("r=").concat(i64_text(v as i64).as_str());
        sep = '&';
        proof {
            p2 = seq![if q is Some { '&' } else { '?' }] + "r="@ + int_text(v as int);
        }
        assert(url@ =~= before + p2);
    }
    assert(url@ =~= base + p1 + p2);
    if let Some(v) = radius {
        let ghost before = url@;
        crate::text::push_char(&mut url, sep);
        url = url.concat("radius=").concat(u64_text(v as u64).as_str());
        proof {
            p3 = seq![if q is Some || r is Some { '&' } else { '?' }] + "radius="@ + nat_text(
                v as nat,
            );
        }
        assert(url@ =~= before + p3);
    }
    assert(url@ =~= base + p1 + p2 + p3);
    url
}

/// The snapshot query for every choice of parameters: no query without
/// parameters; otherwise a single `?` before the first parameter given and a
/// `&` before each later one, in the order `q`, `r`, `radius`.
pub proof fn lemma_world_snapshot_query(q: Option<i32>, r: Option<i32>, radius: Option<u32>)
    ensures
        ({
            let b = "/api/v1/world/snapshot"@;
            let p = world_snapshot_path_spec(q, r, radius);
            let qs = |v: i32| "q="@ + int_text(v as int);
            let rs = |v: i32| "r="@ + int_text(v as int);
            let ds = |v: u32| "radius="@ + nat_text(v as nat);
            &&& (q, r, radius) matches (None, None, None) ==> p == b
            &&& (q, r, radius) matches (Some(a), None, None) ==> p == b + seq!['?'] + qs(a)
            &&& (q, r, radius) matches (None, Some(c), None) ==> p == b + seq!['?'] + rs(c)
            &&& (q, r, radius) matches (None, None, Some(d)) ==> p == b + seq!['?'] + ds(d)
            &&& (q, r, radius) matches (Some(a), Some(c), None) ==> p == b + seq!['?'] + qs(a)
                + seq!['&'] + rs(c)
            &&& (q, r, radius) matches (Some(a), None, Some(d)) ==> p == b + seq!['?'] + qs(a)
                + seq!['&'] + ds(d)
            &&& (q, r, radius) matches (None, Some(c), Some(d)) ==> p == b + seq!['?'] + rs(c)
                + seq!['&'] + ds(d)
            &&& (q, r, radius) matches (Some(a), Some(c), Some(d)) ==> p == b + seq!['?'] + qs(a)
                + seq!['&'] + rs(c) + seq!['&'] + ds(d)
        }),
{
    let b = "/api/v1/world/snapshot"@;
    match (q, r, radius) {
        (Some(a), Some(c), Some(d)) => {
            assert(world_snapshot_path_spec(q, r, radius) =~= b + seq!['?'] + ("q="@ + int_text(
                a as int,
            )) + seq!['&'] + ("r="@ + int_text(c as int)) + seq!['&'] + ("radius="@ + nat_text(
                d as nat,
            )));
        },
        (Some(a), Some(c), None) => {
            assert(world_snapshot_path_spec(q, r, radius) =~= b + seq!['?'] + ("q="@ + int_text(
                a as int,
            )) + seq!['&'] + ("r="@ + int_text(c as int)));
        },
        (Some(a), None, Some(d)) => {
            assert(world_snapshot_path_spec(q, r, radius) =~= b + seq!['?'] + ("q="@ + int_text(
                a as int,
            )) + seq!['&'] + ("radius="@ + nat_text(d as nat)));
        },
        (None, Some(c), Some(d)) => {
            assert(world_snapshot_path_spec(q, r, radius) =~= b + seq!['?'] + ("r="@ + int_text(
                c as int,
            )) + seq!['&'] + ("radius="@ + nat_text(d as nat)));
        },
        (Some(a), None, None) => {
            assert(world_snapshot_path_spec(q, r, radius) =~= b + seq!['?'] + ("q="@ + int_text(
                a as int,
            )));
        },
        (None, Some(c), None) => {
            assert(world_snapshot_path_spec(q, r, radius) =~= b + seq!['?'] + ("r="@ + int_text(
                c as int,
            )));
        },
        (None, None, Some(d)) => {
            assert(world_snapshot_path_spec(q, r, radius) =~= b + seq!['?'] + ("radius="@
                + nat_text(d as nat)));
        },
        (None, None, None) => {
            assert(world_snapshot_path_spec(q, r, radius) =~= b);
        },
    }
}

} // verus!
