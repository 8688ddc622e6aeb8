//! The lobby's `/api/v1/games` surface: the wire view of a game row, the
//! checks on the wizard's request, the parameters sent to the game server,
//! and the reply chosen for each store outcome.

use vstd::prelude::*;
use vstd::arithmetic::power::{pow, lemma_pow_increases};
use crate::model::{PlayerId, player_id_text_spec};
use crate::orchestrator::{BootstrappedGame, NewGameRequest, OrchestratorError};
use crate::text::{
    all_hex_digits, chars_of, hex_digit_value, hex_value, is_hex_digit, parse_hex_u64_spec, str_eq,
};

verus! {

// ───────────────────────────── replies ─────────────────────────────────────

/// An error reply: HTTP status, machine-readable code, optional message.
#[derive(Debug)]
pub struct ErrorReply {
    pub status: u16,
    pub error: &'static str,
    pub message: Option<String>,
}

// ───────────────────────────── game rows ───────────────────────────────────

/// Where a game stands for its owner.
#[derive(Clone, Copy, Debug, PartialEq, Eq, Structural)]
pub enum GameStatus {
    YourTurn,
    Waiting,
    Completed,
    Archived,
}

pub open spec fn game_status_text(s: GameStatus) -> Seq<char> {
    match s {
        GameStatus::YourTurn => "your_turn"@,
        GameStatus::Waiting => "waiting"@,
        GameStatus::Completed => "completed"@,
        GameStatus::Archived => "archived"@,
    }
}

impl GameStatus {
    /// The wire name of the status.
    pub fn as_str(self) -> (s: &'static str)
        ensures
            s@ == game_status_text(self),
    {
        match self {
            GameStatus::YourTurn => "your_turn",
            GameStatus::Waiting => "waiting",
            GameStatus::Completed => "completed",
            GameStatus::Archived => "archived",
        }
    }
}

/// One row of the lobby's games index.
#[derive(Debug, Clone)]
pub struct GameRecord {
    pub game_id: String,
    pub owner_player_id: PlayerId,
    pub name: String,
    pub leader: String,
    pub civ_id: String,
    pub difficulty: String,
    pub players_human: u32,
    pub players_ai: u32,
    pub map_type: String,
    pub map_size: String,
    pub seed: String,
    pub turn: u32,
    pub era: String,
    pub score: i32,
    pub status: GameStatus,
    pub server_url: String,
    pub server_token: String,
    pub last_played_at: Option<String>,
    pub created_at: String,
}

/// A game row to create.
#[derive(Debug, Clone)]
pub struct NewGame {
    pub owner_player_id: PlayerId,
    pub name: String,
    pub leader: String,
    pub civ_id: String,
    pub difficulty: String,
    pub players_human: u32,
    pub players_ai: u32,
    pub map_type: String,
    pub map_size: String,
    pub seed: String,
    pub server_url: String,
    pub server_token: String,
}

/// Why the games index refused an operation.
#[derive(Debug)]
pub enum GameStoreError {
    NotFound,
    Forbidden,
    Sqlx(String),
}

pub open spec fn game_store_error_text(e: GameStoreError) -> Seq<char> {
    match e {
        GameStoreError::NotFound => "game not found"@,
        GameStoreError::Forbidden => "forbidden"@,
        GameStoreError::Sqlx(m) => "storage backend: "@ + m@,
    }
}

impl GameStoreError {
    pub fn message(&self) -> (s: String)
        ensures
            s@ == game_store_error_text(*self),
    {
        match self {
            GameStoreError::NotFound => String::from_str("game not found"),
            GameStoreError::Forbidden => String::from_str("forbidden"),
            GameStoreError::Sqlx(m) => String::from_str("storage backend: ").concat(m.as_str()),
        }
    }
}

/// What the browser sees of a game: the row without its server token.
#[derive(Debug)]
pub struct GameView {
    pub game_id: String,
    pub owner_player_id: String,
    pub name: String,
    pub leader: String,
    pub civ_id: String,
    pub difficulty: String,
    pub players_human: u32,
    pub players_ai: u32,
    pub map_type: String,
    pub map_size: String,
    pub seed: String,
    pub turn: u32,
    pub era: String,
    pub score: i32,
    pub status: GameStatus,
    pub server_url: String,
    pub last_played_at: Option<String>,
    pub created_at: String,
}

pub open spec fn opt_view(o: Option<String>) -> Option<Seq<char>> {
    match o {
        Some(s) => Some(s@),
        None => None,
    }
}

/// `v` shows the row `g`: every field but the server token, the owner as
/// the hex form of the player id.
pub open spec fn shows_record(v: GameView, g: GameRecord) -> bool {
    &&& v.game_id@ == g.game_id@
    &&& v.owner_player_id@ == player_id_text_spec(g.owner_player_id.0)
    &&& v.name@ == g.name@
    &&& v.leader@ == g.leader@
    &&& v.civ_id@ == g.civ_id@
    &&& v.difficulty@ == g.difficulty@
    &&& v.players_human == g.players_human
    &&& v.players_ai == g.players_ai
    &&& v.map_type@ == g.map_type@
    &&& v.map_size@ == g.map_size@
    &&& v.seed@ == g.seed@
    &&& v.turn == g.turn
    &&& v.era@ == g.era@
    &&& v.score == g.score
    &&& v.status == g.status
    &&& v.server_url@ == g.server_url@
    &&& opt_view(v.last_played_at) == opt_view(g.last_played_at)
    &&& v.created_at@ == g.created_at@
}

impl GameView {
    /// The browser's view of a game row.
    pub fn from(g: GameRecord) -> (v: GameView)
        ensures
            shows_record(v, g),
    {
        let owner = g.owner_player_id.display();
        GameView {
            game_id: g.game_id,
            owner_player_id: owner,
            name: g.name,
            leader: g.leader,
            civ_id: g.civ_id,
            difficulty: g.difficulty,
            players_human: g.players_human,
            players_ai: g.players_ai,
            map_type: g.map_type,
            map_size: g.map_size,
            seed: g.seed,
            turn: g.turn,
            era: g.era,
            score: g.score,
            status: g.status,
            server_url: g.server_url,
            last_played_at: g.last_played_at,
            created_at: g.created_at,
        }
    }
}

/// The list reply body.
#[derive(Debug)]
pub struct GamesListResp {
    pub games: Vec<GameView>,
}

/// The wizard's create request.
#[derive(Debug, Clone)]
pub struct CreateGameBody {
    pub name: String,
    pub leader: String,
    pub civ_id: String,
    pub difficulty: String,
    pub players_human: u32,
    pub players_ai: u32,
    pub map_type: String,
    pub map_size: String,
    pub seed: String,
}

/// The resume reply: where the client goes and the token it attaches.
#[derive(Debug)]
pub struct ResumeResp {
    pub url: String,
    pub token: String,
}

// ───────────────────────────── errors to replies ─────────────────────────────

pub open spec fn store_error_status(e: GameStoreError) -> u16 {
    match e {
        GameStoreError::NotFound => 404,
        GameStoreError::Forbidden => 403,
        GameStoreError::Sqlx(_) => 500,
    }
}

pub open spec fn store_error_code(e: GameStoreError) -> Seq<char> {
    match e {
        GameStoreError::NotFound => "game_not_found"@,
        GameStoreError::Forbidden => "forbidden"@,
        GameStoreError::Sqlx(_) => "store_error"@,
    }
}

/// `r` is the reply for the store error `e`: its status, its code, and its
/// message.
pub open spec fn is_store_error_reply(r: ErrorReply, e: GameStoreError) -> bool {
    &&& r.status == store_error_status(e)
    &&& r.error@ == store_error_code(e)
    &&& r.message matches Some(m) && m@ == game_store_error_text(e)
}

/// The reply for a store error: 404 `game_not_found`, 403 `forbidden`, or
/// 500 `store_error`, with the error's message.
pub fn store_error_response(e: GameStoreError) -> (r: ErrorReply)
    ensures
        is_store_error_reply(r, e),
{
    let message = Some(e.message());
    match e {
        GameStoreError::NotFound => ErrorReply { status: 404, error: "game_not_found", message },
        GameStoreError::Forbidden => ErrorReply { status: 403, error: "forbidden", message },
        GameStoreError::Sqlx(_) => ErrorReply { status: 500, error: "store_error", message },
    }
}

/// `GET /api/v1/games`: every row as its view, or the store error's reply.
pub fn list_reply(rows: Result<Vec<GameRecord>, GameStoreError>) -> (r: Result<
    GamesListResp,
    ErrorReply,
>)
    ensures
        match rows {
            Ok(v) => r matches Ok(resp) && resp.games@.len() == v@.len() && forall|i: int|
                0 <= i < v@.len() ==> shows_record(#[trigger] resp.games@[i], v@[i]),
            Err(e) => r matches Err(reply) && is_store_error_reply(reply, e),
        },
{
    match rows {
        Ok(v) => {
            let mut games: Vec<GameView> = Vec::new();
            let mut rest = v;
            let ghost all = rest@;
            let ghost mut i: int = 0;
            assert(rest@ =~= all.skip(0));
            while rest.len() > 0
                invariant
                    0 <= i <= all.len(),
                    rest@ == all.skip(i),
                    games@.len() == i,
                    forall|j: int| 0 <= j < i ==> shows_record(#[trigger] games@[j], all[j]),
                decreases rest@.len(),
            {
                let g = rest.remove(0);
                assert(g == all[i]);
                games.push(GameView::from(g));
                assert(rest@ =~= all.skip(i + 1));
                proof {
                    i = i + 1;
                }
            }
            assert(i == all.len());
            Ok(GamesListResp { games })
        },
        Err(e) => Err(store_error_response(e)),
    }
}

// ───────────────────────────── the wizard's parameters ────────────────────────

/// Tile dimensions for the wizard's coarse map size; anything unknown is the
/// standard size.
pub open spec fn map_dims_spec(size: Seq<char>) -> (u32, u32) {
    if size == "duel"@ {
        (44, 26)
    } else if size == "tiny"@ {
        (60, 38)
    } else if size == "small"@ {
        (74, 46)
    } else if size == "large"@ {
        (96, 60)
    } else if size == "huge"@ {
        (106, 66)
    } else {
        (84, 54)
    }
}

/// Maps the wizard's map size (`duel` · `tiny` · `small` · `std` · `large` ·
/// `huge`) to width and height in tiles.
pub fn map_size_to_dims(size: &str) -> (r: (u32, u32))
    ensures
        r == map_dims_spec(size@),
{
    if str_eq(size, "duel") {
        (44, 26)
    } else if str_eq(size, "tiny") {
        (60, 38)
    } else if str_eq(size, "small") {
        (74, 46)
    } else if str_eq(size, "large") {
        (96, 60)
    } else if str_eq(size, "huge") {
        (106, 66)
    } else {
        (84, 54)
    }
}

/// The hexadecimal digits of `s`, in order, every other character dropped.
pub open spec fn hex_chars(s: Seq<char>) -> Seq<char>
    decreases s.len(),
{
    if s.len() == 0 {
        Seq::empty()
    } else if is_hex_digit(s.last()) {
        hex_chars(s.drop_last()).push(s.last())
    } else {
        hex_chars(s.drop_last())
    }
}

/// The first 16 hexadecimal digits of `s`.
pub open spec fn seed_digits(s: Seq<char>) -> Seq<char> {
    if hex_chars(s).len() <= 16 {
        hex_chars(s)
    } else {
        hex_chars(s).take(16)
    }
}

/// The seed a wizard string denotes: its first 16 hex digits read in base
/// 16; none when it holds no hex digit.
pub open spec fn parse_seed_spec(s: Seq<char>) -> Option<u64> {
    if seed_digits(s).len() == 0 {
        None
    } else {
        Some(hex_value(seed_digits(s)) as u64)
    }
}

/// Reads the wizard's seed string (e.g. `0xCAFE·B33F·1A77`) as a number by
/// keeping only its hex digits, at most 16 of them. `None` when no digit
/// remains, so that the game server picks its own seed.
pub fn parse_seed(s: &str) -> (r: Option<u64>)
    ensures
        r == parse_seed_spec(s@),
        r matches Some(v) ==> v == hex_value(seed_digits(s@)),
{
    let v = chars_of(s);
    let n = v.len();
    let mut out: Vec<char> = Vec::new();
    let mut acc: u64 = 0;
    assert(v@.take(0) =~= Seq::<char>::empty());
    assert(pow(16, 0) == 1) by {
        reveal(pow);
    }
    assert(pow(16, 16) == 0x1_0000_0000_0000_0000) by {
        reveal_with_fuel(pow, 17);
    }
    for i in 0..n
        invariant
            n == v@.len(),
            out@ == seed_digits(v@.take(i as int)),
            out@.len() <= 16,
            acc == hex_value(out@),
            acc < pow(16, out@.len()),
            pow(16, 16) == 0x1_0000_0000_0000_0000,
    {
        let c = v[i];
        let ghost pre = v@.take(i as int);
        let ghost next = v@.take(i + 1);
        assert(next.drop_last() =~= pre);
        assert(next.last() == c);
        let ghost h = hex_chars(pre);
        if let Some(d) = hex_digit_of(c) {
            assert(hex_chars(next) == h.push(c));
            if out.len() < 16 {
                assert(h.len() <= 16);
                let ghost old_out = out@;
                out.push(c);
                assert(hex_value(out@) == hex_value(old_out) * 16 + d) by {
                    assert(out@.drop_last() =~= old_out);
                }
                let ghost p = pow(16, old_out.len());
                assert(pow(16, out@.len()) == 16 * p) by {
                    reveal(pow);
                }
                assert(acc * 16 + d < 16 * p) by (nonlinear_arith)
                    requires
                        acc < p,
                        d < 16,
                ;
                proof {
                    lemma_pow_increases(16, out@.len(), 16);
                }
                acc = acc * 16 + d;
            } else {
                proof {
                    assert(h.len() >= 16);
                    assert(h.push(c).take(16) =~= h.take(16));
                    if h.len() == 16 {
                        assert(h.take(16) =~= h);
                    }
                }
            }
        } else {
            assert(hex_chars(next) == h);
        }
    }
    assert(v@.take(n as int) =~= s@);
    if out.len() == 0 {
        None
    } else {
        Some(acc)
    }
}

/// The value of a hexadecimal digit, if `c` is one.
fn hex_digit_of(c: char) -> (r: Option<u64>)
    ensures
        match hex_digit_value(c) {
            Some(d) => r == Some(d as u64),
            None => r is None,
        },
        r matches Some(d) ==> d < 16,
{
    if '0' <= c && c <= '9' {
        Some((c as u32 - '0' as u32) as u64)
    } else if 'a' <= c && c <= 'f' {
        Some((c as u32 - 'a' as u32 + 10) as u64)
    } else if 'A' <= c && c <= 'F' {
        Some((c as u32 - 'A' as u32 + 10) as u64)
    } else {
        None
    }
}

/// Whether a character has Unicode's `White_Space` property (PropList.txt):
/// U+0009..U+000D, U+0020, U+0085, U+00A0, U+1680, U+2000..U+200A, U+2028,
/// U+2029, U+202F, U+205F and U+3000.
pub open spec fn is_whitespace_char(c: char) -> bool {
    let n = c as u32;
    ||| 0x9 <= n <= 0xD
    ||| n == 0x20
    ||| n == 0x85
    ||| n == 0xA0
    ||| n == 0x1680
    ||| 0x2000 <= n <= 0x200A
    ||| n == 0x2028
    ||| n == 0x2029
    ||| n == 0x202F
    ||| n == 0x205F
    ||| n == 0x3000
}

/// Whether `c` is whitespace as `char::is_whitespace` and `str::trim` read
/// it: the `White_Space` property, tested against its code points.
fn char_is_whitespace(c: char) -> (r: bool)
    ensures
        r == is_whitespace_char(c),
{
    let n = c as u32;
    (0x9 <= n && n <= 0xD) || n == 0x20 || n == 0x85 || n == 0xA0 || n == 0x1680 || (0x2000 <= n
        && n <= 0x200A) || n == 0x2028 || n == 0x2029 || n == 0x202F || n == 0x205F || n == 0x3000
}

/// `s` is empty once leading and trailing whitespace is trimmed: every
/// character is whitespace.
pub open spec fn is_blank_spec(s: Seq<char>) -> bool {
    forall|i: int| 0 <= i < s.len() ==> is_whitespace_char(#[trigger] s[i])
}

/// Whether `s.trim()` is empty.
pub fn is_blank(s: &str) -> (r: bool)
    ensures
        r == is_blank_spec(s@),
{
    let v = chars_of(s);
    let n = v.len();
    for i in 0..n
        invariant
            n == v@.len(),
            v@ == s@,
            forall|j: int| 0 <= j < i ==> is_whitespace_char(#[trigger] v@[j]),
    {
        if !char_is_whitespace(v[i]) {
            return false;
        }
    }
    true
}

// ───────────────────────────── creating a game ───────────────────────────────

/// A create request needs a name that is not blank: else 400
/// `name_required`.
pub fn check_create_body(body: &CreateGameBody) -> (r: Result<(), ErrorReply>)
    ensures
        !is_blank_spec(body.name@) <==> r is Ok,
        r matches Err(e) ==> e.status == 400 && e.error@ == "name_required"@ && e.message is None,
{
    if is_blank(body.name.as_str()) {
        Err(ErrorReply { status: 400, error: "name_required", message: None })
    } else {
        Ok(())
    }
}

/// The bootstrap parameters the wizard's request turns into: its name as
/// display name, the map size's dimensions, the parsed seed, the AI count.
pub open spec fn is_bootstrap_request_for(req: NewGameRequest, body: CreateGameBody) -> bool {
    &&& req.display_name matches Some(n) && n@ == body.name@
    &&& req.width == Some(map_dims_spec(body.map_size@).0)
    &&& req.height == Some(map_dims_spec(body.map_size@).1)
    &&& req.seed == parse_seed_spec(body.seed@)
    &&& req.num_ai == Some(body.players_ai)
    &&& req.turn_limit is None
}

/// The game server's bootstrap parameters for a create request.
pub fn bootstrap_request(body: &CreateGameBody) -> (req: NewGameRequest)
    ensures
        is_bootstrap_request_for(req, *body),
{
    let dims = map_size_to_dims(body.map_size.as_str());
    NewGameRequest {
        display_name: Some(body.name.clone()),
        width: Some(dims.0),
        height: Some(dims.1),
        seed: parse_seed(body.seed.as_str()),
        num_ai: Some(body.players_ai),
        turn_limit: None,
    }
}

/// Whether to ask a game server at all: only when one is configured.
pub fn bootstrap_plan(game_server_url: &str, body: &CreateGameBody) -> (r: Option<NewGameRequest>)
    ensures
        game_server_url@.len() == 0 <==> r is None,
        r matches Some(req) ==> is_bootstrap_request_for(req, *body),
{
    if game_server_url.is_empty() {
        None
    } else {
        Some(bootstrap_request(body))
    }
}

/// The server URL and token recorded for a new game: those of a successful
/// bootstrap, else empty (a failed or skipped bootstrap does not fail the
/// create; resume then answers 503).
pub fn server_binding(outcome: Option<Result<BootstrappedGame, OrchestratorError>>) -> (r: (
    String,
    String,
))
    ensures
        match outcome {
            Some(Ok(b)) => r.0@ == b.server_url@ && r.1@ == b.server_token@,
            _ => r.0@.len() == 0 && r.1@.len() == 0,
        },
{
    match outcome {
        Some(Ok(boot)) => (boot.server_url, boot.server_token),
        _ => (String::new(), String::new()),
    }
}

/// The row to create for a request by `player_id`.
pub fn new_game(player_id: PlayerId, body: CreateGameBody, server_url: String, server_token: String) -> (g: NewGame)
    ensures
        g.owner_player_id == player_id,
        g.name@ == body.name@,
        g.leader@ == body.leader@,
        g.civ_id@ == body.civ_id@,
        g.difficulty@ == body.difficulty@,
        g.players_human == body.players_human,
        g.players_ai == body.players_ai,
        g.map_type@ == body.map_type@,
        g.map_size@ == body.map_size@,
        g.seed@ == body.seed@,
        g.server_url@ == server_url@,
        g.server_token@ == server_token@,
{
    NewGame {
        owner_player_id: player_id,
        name: body.name,
        leader: body.leader,
        civ_id: body.civ_id,
        difficulty: body.difficulty,
        players_human: body.players_human,
        players_ai: body.players_ai,
        map_type: body.map_type,
        map_size: body.map_size,
        seed: body.seed,
        server_url,
        server_token,
    }
}

/// `POST /api/v1/games` once the row is written: 201 with the view, or the
/// store error's reply.
pub fn created_reply(created: Result<GameRecord, GameStoreError>) -> (r: Result<(u16, GameView), ErrorReply>)
    ensures
        match created {
            Ok(g) => r matches Ok((status, v)) && status == 201 && shows_record(v, g),
            Err(e) => r matches Err(reply) && is_store_error_reply(reply, e),
        },
{
    match created {
        Ok(g) => Ok((201, GameView::from(g))),
        Err(e) => Err(store_error_response(e)),
    }
}

// ───────────────────────────── reading, deleting, resuming ─────────────────────

/// Who may see a game: its owner gets the row; anyone else 403
/// `not_a_member`; a missing row is 404 `game_not_found`; a store error
/// gets its reply.
pub fn game_access(found: Result<Option<GameRecord>, GameStoreError>, player_id: PlayerId) -> (r:
    Result<GameRecord, ErrorReply>)
    ensures
        match found {
            Ok(Some(g)) => if g.owner_player_id == player_id {
                r matches Ok(x) && x == g
            } else {
                r matches Err(e) && e.status == 403 && e.error@ == "not_a_member"@
                    && e.message is None
            },
            Ok(None) => r matches Err(e) && e.status == 404 && e.error@ == "game_not_found"@
                && e.message is None,
            Err(e) => r matches Err(reply) && is_store_error_reply(reply, e),
        },
{
    match found {
        Ok(Some(g)) => {
            if g.owner_player_id == player_id {
                Ok(g)
            } else {
                Err(ErrorReply { status: 403, error: "not_a_member", message: None })
            }
        },
        Ok(None) => Err(ErrorReply { status: 404, error: "game_not_found", message: None }),
        Err(e) => Err(store_error_response(e)),
    }
}

/// `GET /api/v1/games/{id}`: the owner's view of the row, or the refusal.
pub fn get_one_reply(found: Result<Option<GameRecord>, GameStoreError>, player_id: PlayerId) -> (r:
    Result<GameView, ErrorReply>)
    ensures
        match found {
            Ok(Some(g)) => if g.owner_player_id == player_id {
                r matches Ok(v) && shows_record(v, g)
            } else {
                r matches Err(e) && e.status == 403 && e.error@ == "not_a_member"@
                    && e.message is None
            },
            Ok(None) => r matches Err(e) && e.status == 404 && e.error@ == "game_not_found"@
                && e.message is None,
            Err(e) => r matches Err(reply) && is_store_error_reply(reply, e),
        },
{
    match game_access(found, player_id) {
        Ok(g) => Ok(GameView::from(g)),
        Err(e) => Err(e),
    }
}

/// `DELETE /api/v1/games/{id}`: 204 when the soft delete went through.
pub fn deleted_reply(r: Result<(), GameStoreError>) -> (out: Result<u16, ErrorReply>)
    ensures
        match r {
            Ok(()) => out == Ok::<u16, ErrorReply>(204),
            Err(e) => out matches Err(reply) && is_store_error_reply(reply, e),
        },
{
    match r {
        Ok(()) => Ok(204),
        Err(e) => Err(store_error_response(e)),
    }
}

/// `POST /api/v1/games/{id}/resume` for a game the caller owns: its server
/// URL and token, or 503 `orchestrator_not_ready` while either is missing.
pub fn resume_reply(g: GameRecord) -> (r: Result<ResumeResp, ErrorReply>)
    ensures
        (g.server_url@.len() == 0 || g.server_token@.len() == 0) ==> (r matches Err(e)
            && e.status == 503 && e.error@ == "orchestrator_not_ready"@ && e.message is Some),
        (g.server_url@.len() != 0 && g.server_token@.len() != 0) ==> (r matches Ok(resp)
            && resp.url@ == g.server_url@ && resp.token@ == g.server_token@),
{
    if g.server_url.as_str().is_empty() || g.server_token.as_str().is_empty() {
        return Err(ErrorReply {
            status: 503,
            error: "orchestrator_not_ready",
            message: Some(String::from_str(
                "POST /games/{id}/resume needs the Phase 4.3 orchestrator wired to populate server_url and server_token.",
            )),
        });
    }
    Ok(ResumeResp { url: g.server_url, token: g.server_token })
}

// ───────────────────────────── laws ──────────────────────────────────────────

/// The store errors' replies: a missing game is 404 `game_not_found`, a
/// refused one 403 `forbidden`, a backend failure 500 `store_error`.
pub proof fn lemma_store_error_replies(e: GameStoreError)
    ensures
        e is NotFound ==> store_error_status(e) == 404 && store_error_code(e) == "game_not_found"@,
        e is Forbidden ==> store_error_status(e) == 403 && store_error_code(e) == "forbidden"@,
        e is Sqlx ==> store_error_status(e) == 500 && store_error_code(e) == "store_error"@,
{
}

/// The wizard's map sizes in tiles: duel 44×26, tiny 60×38, small 74×46,
/// std 84×54, large 96×60, huge 106×66; any other size is the standard one.
pub proof fn lemma_map_dims(size: Seq<char>)
    ensures
        size == "duel"@ ==> map_dims_spec(size) == (44u32, 26u32),
        size == "tiny"@ ==> map_dims_spec(size) == (60u32, 38u32),
        size == "small"@ ==> map_dims_spec(size) == (74u32, 46u32),
        size == "std"@ ==> map_dims_spec(size) == (84u32, 54u32),
        size == "large"@ ==> map_dims_spec(size) == (96u32, 60u32),
        size == "huge"@ ==> map_dims_spec(size) == (106u32, 66u32),
        size != "duel"@ && size != "tiny"@ && size != "small"@ && size != "large"@ && size
            != "huge"@ ==> map_dims_spec(size) == (84u32, 54u32),
{
    reveal_strlit("std");
    reveal_strlit("duel");
    reveal_strlit("tiny");
    reveal_strlit("small");
    reveal_strlit("large");
    reveal_strlit("huge");
    assert("duel"@[0] == 'd' && "tiny"@[0] == 't' && "small"@[0] == 's' && "large"@[0] == 'l'
        && "huge"@[0] == 'h' && "std"@[0] == 's');
    assert("small"@.len() == 5 && "std"@.len() == 3);
    assert("tiny"@ != "duel"@);
    assert("small"@ != "duel"@ && "small"@ != "tiny"@);
    assert("large"@ != "duel"@ && "large"@ != "tiny"@ && "large"@ != "small"@);
    assert("huge"@ != "duel"@ && "huge"@ != "tiny"@ && "huge"@ != "small"@ && "huge"@ != "large"@);
    assert("std"@ != "duel"@ && "std"@ != "tiny"@ && "std"@ != "small"@ && "std"@ != "large"@
        && "std"@ != "huge"@);
}

proof fn lemma_hex_chars_of_hex(s: Seq<char>)
    requires
        all_hex_digits(s),
    ensures
        hex_chars(s) == s,
    decreases s.len(),
{
    if s.len() > 0 {
        lemma_hex_chars_of_hex(s.drop_last());
        assert(is_hex_digit(s[s.len() - 1]));
        assert(hex_chars(s.drop_last()).push(s.last()) =~= s);
    }
}

proof fn lemma_hex_value_bound(s: Seq<char>)
    requires
        all_hex_digits(s),
    ensures
        hex_value(s) < pow(16, s.len()),
    decreases s.len(),
{
    reveal(pow);
    if s.len() > 0 {
        let d = s.drop_last();
        lemma_hex_value_bound(d);
        let h = hex_value(d);
        let p = pow(16, d.len());
        assert(is_hex_digit(s[s.len() - 1]));
        let c = hex_digit_value(s.last())->0;
        assert(c < 16);
        assert(pow(16, s.len()) == 16 * p);
        assert(h * 16 + c < 16 * p) by (nonlinear_arith)
            requires
                h < p,
                c < 16,
        ;
    }
}

/// Characters that are no hex digit do not change the seed: appending one
/// gives the same seed.
pub proof fn lemma_seed_ignores_other_chars(s: Seq<char>, c: char)
    requires
        !is_hex_digit(c),
    ensures
        parse_seed_spec(s.push(c)) == parse_seed_spec(s),
{
    assert(s.push(c).drop_last() =~= s);
}

/// A seed of at most 16 hex digits and nothing else reads as
/// `u64::from_str_radix(.., 16)` reads it; a longer run of digits keeps its
/// first 16.
pub proof fn lemma_seed_of_hex_text(s: Seq<char>)
    requires
        all_hex_digits(s),
        s.len() > 0,
    ensures
        s.len() <= 16 ==> parse_seed_spec(s) == parse_hex_u64_spec(s),
        s.len() > 16 ==> parse_seed_spec(s) == parse_hex_u64_spec(s.take(16)),
{
    lemma_hex_chars_of_hex(s);
    assert(pow(16, 16) == 0x1_0000_0000_0000_0000) by {
        reveal_with_fuel(pow, 17);
    }
    let t = seed_digits(s);
    assert(all_hex_digits(t));
    lemma_hex_value_bound(t);
    lemma_pow_increases(16, t.len(), 16);
    assert(t[0] != '+');
}

} // verus!
