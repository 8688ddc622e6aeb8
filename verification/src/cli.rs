//! The command-line client's remote mode: base-URL handling, the errors
//! shown for failed requests, and which REST call each subcommand makes.

use vstd::prelude::*;
use crate::text::{nat_text, trim_end_char, trim_end_matching, u64_text};

verus! {

// ───────────────────────────── base URL and paths ────────────────────────────

/// Where the client sends its requests, and the bearer token it attaches.
pub struct ApiClient {
    base: String,
    token: Option<String>,
}

/// `path` under `base`: joined with one `/` unless `path` already starts
/// with one.
pub open spec fn join_url(base: Seq<char>, path: Seq<char>) -> Seq<char> {
    if path.len() > 0 && path[0] == '/' {
        base + path
    } else {
        base + seq!['/'] + path
    }
}

impl ApiClient {
    pub closed spec fn base_spec(&self) -> Seq<char> {
        self.base@
    }

    pub closed spec fn token_spec(&self) -> Option<Seq<char>> {
        match self.token {
            Some(t) => Some(t@),
            None => None,
        }
    }

    /// A client for the server at `base`; trailing slashes are dropped.
    pub fn new(base: &str) -> (c: ApiClient)
        ensures
            c.base_spec() == trim_end_char(base@, '/'),
            c.token_spec() is None,
    {
        ApiClient { base: trim_end_matching(base, '/'), token: None }
    }

    /// The same client, attaching `token` as a bearer token.
    pub fn with_token(self, token: String) -> (c: ApiClient)
        ensures
            c.base_spec() == self.base_spec(),
            c.token_spec() == Some(token@),
    {
        ApiClient { base: self.base, token: Some(token) }
    }

    /// The base URL, without trailing slashes.
    pub fn base(&self) -> (s: &str)
        ensures
            s@ == self.base_spec(),
    {
        self.base.as_str()
    }

    /// The bearer token, if one is attached.
    pub fn token(&self) -> (t: Option<&str>)
        ensures
            match self.token_spec() {
                Some(x) => t matches Some(y) && y@ == x,
                None => t is None,
            },
    {
        match &self.token {
            Some(t) => Some(t.as_str()),
            None => None,
        }
    }

    /// The full URL of `path` on this server.
    pub fn url(&self, path: &str) -> (u: String)
        ensures
            u@ == join_url(self.base_spec(), path@),
    {
        proof {
            reveal_strlit("/");
        }
        if path.is_empty() {
            let mut u = self.base.clone();
            u.append("/");
            return u;
        }
        let first = crate::text::chars_of(path);
        if first[0] == '/' {
            self.base.clone().concat(path)
        } else {
            self.base.clone().concat("/").concat(path)
        }
    }
}

/// A joined URL is the base, then exactly one `/`, then the path without
/// its own leading `/`.
pub proof fn lemma_join_url(base: Seq<char>, path: Seq<char>)
    ensures
        join_url(base, path).take(base.len() as int) == base,
        join_url(base, path)[base.len() as int] == '/',
        path.len() > 0 && path[0] == '/' ==> join_url(base, path).skip(base.len() as int + 1)
            == path.drop_first(),
        !(path.len() > 0 && path[0] == '/') ==> join_url(base, path).skip(base.len() as int + 1)
            == path,
{
    let u = join_url(base, path);
    assert(u.take(base.len() as int) =~= base);
    if path.len() > 0 && path[0] == '/' {
        assert(u.skip(base.len() as int + 1) =~= path.drop_first());
    } else {
        assert(u.skip(base.len() as int + 1) =~= path);
    }
}

/// The base URL of a client never ends in `/`, so a joined URL has exactly
/// the separator the path brings or the one that `url` adds.
pub proof fn lemma_base_has_no_trailing_slash(s: Seq<char>)
    ensures
        trim_end_char(s, '/').len() == 0 || trim_end_char(s, '/').last() != '/',
        trim_end_char(trim_end_char(s, '/'), '/') == trim_end_char(s, '/'),
    decreases s.len(),
{
    if s.len() > 0 && s.last() == '/' {
        lemma_base_has_no_trailing_slash(s.drop_last());
    }
}

// ───────────────────────────── failed requests ──────────────────────────────

/// The label of a request in messages: the verb and the path.
pub fn request_context(verb: &str, path: &str) -> (s: String)
    ensures
        s@ == verb@ + " "@ + path@,
{
    String::from_str(verb).concat(" ").concat(path)
}

/// The `error` and `message` strings of a JSON body, and how the body is
/// shown: as given by the JSON reading of the text (a function of the text
/// alone).
pub uninterp spec fn json_string_field(text: Seq<char>, field: Seq<char>) -> Option<Seq<char>>;

/// How a response body is shown in an error: the compact JSON of the parsed
/// body, or the text as a JSON string when it is not JSON (a function of the
/// text alone).
pub uninterp spec fn json_body_display(text: Seq<char>) -> Seq<char>;

/// `serde_json::from_str::<Value>` then `Value::get(field)` and
/// `Value::as_str` (serde_json crate): the string member `field` of the
/// JSON object in `text`; `None` when the text is no JSON object, lacks the
/// member, or the member is no string. Only that the result is
/// `json_string_field(text@, field@)` is claimed.
#[verifier::external_body]
pub(crate) fn json_str_member(text: &str, field: &str) -> (r: Option<String>)
    ensures
        match json_string_field(text@, field@) {
            Some(v) => r matches Some(s) && s@ == v,
            None => r is None,
        },
        r is Some ==> json_parse_error(text@) is None,
{
    match serde_json::from_str::<serde_json::Value>(text) {
        Ok(v) => v.get(field).and_then(|x| x.as_str()).map(|x| x.to_string()),
        Err(_) => None,
    }
}

/// `serde_json::from_str::<Value>` and `Value`'s `Display` (serde_json
/// crate): the body re-written as compact JSON, or, when it is no JSON, the
/// text as a JSON string. Only that the result is `json_body_display(text@)`
/// is claimed.
#[verifier::external_body]
fn json_display(text: &str) -> (r: String)
    ensures
        r@ == json_body_display(text@),
{
    match serde_json::from_str::<serde_json::Value>(text) {
        Ok(v) => v.to_string(),
        Err(_) => serde_json::Value::String(text.to_string()).to_string(),
    }
}

/// Whether a text is read as JSON, and if not, the text of the reading
/// error: `None` when `serde_json::from_str::<Value>` accepts it (a
/// function of the text alone).
pub uninterp spec fn json_parse_error(text: Seq<char>) -> Option<Seq<char>>;

/// `serde_json::from_str::<Value>` (serde_json crate), and the `Display` of
/// its error: `None` when the text is JSON, else the error's text. Only
/// that the result is `json_parse_error(text@)` is claimed.
#[verifier::external_body]
pub(crate) fn json_error(text: &str) -> (r: Option<String>)
    ensures
        match json_parse_error(text@) {
            Some(e) => r matches Some(s) && s@ == e,
            None => r is None,
        },
{
    match serde_json::from_str::<serde_json::Value>(text) {
        Ok(_) => None,
        Err(e) => Some(e.to_string()),
    }
}

/// What a 2xx response body holds.
#[derive(Debug, PartialEq, Eq, Structural, Clone, Copy)]
pub enum SuccessBody {
    /// The body is empty: it stands for JSON `null`.
    Null,
    /// The body is a JSON text.
    Json,
}

/// A 2xx body: empty is `null`; JSON is read as it is; anything else fails
/// with `{ctx}: invalid JSON response ({error}): {text}`.
pub fn success_body(ctx: &str, text: &str) -> (r: Result<SuccessBody, String>)
    ensures
        text@.len() == 0 ==> r == Ok::<SuccessBody, String>(SuccessBody::Null),
        text@.len() != 0 ==> match json_parse_error(text@) {
            None => r == Ok::<SuccessBody, String>(SuccessBody::Json),
            Some(e) => r matches Err(m) && m@ == ctx@ + ": invalid JSON response ("@ + e
                + "): "@ + text@,
        },
{
    if text.is_empty() {
        return Ok(SuccessBody::Null);
    }
    match json_error(text) {
        None => Ok(SuccessBody::Json),
        Some(e) => Err(String::from_str(ctx).concat(": invalid JSON response (").concat(
            e.as_str(),
        ).concat("): ").concat(text)),
    }
}

pub open spec fn or_else(o: Option<Seq<char>>, d: Seq<char>) -> Seq<char> {
    match o {
        Some(v) => v,
        None => d,
    }
}

/// The message for a non-2xx response: `{ctx} -> {status} {code}: {msg}
/// ({body})`, the code and message taken from the server's
/// `{error, message}` body, defaulting to `http_error` and the raw text.
pub open spec fn failure_text(
    ctx: Seq<char>,
    status: u16,
    code: Option<Seq<char>>,
    message: Option<Seq<char>>,
    text: Seq<char>,
    body: Seq<char>,
) -> Seq<char> {
    ctx + " -> "@ + nat_text(status as nat) + " "@ + or_else(code, "http_error"@) + ": "@
        + or_else(message, text) + " ("@ + body + ")"@
}

/// The error text for a response with a non-2xx `status` and body `text`.
pub fn failure_message(ctx: &str, status: u16, text: &str) -> (s: String)
    ensures
        s@ == failure_text(
            ctx@,
            status,
            json_string_field(text@, "error"@),
            json_string_field(text@, "message"@),
            text@,
            json_body_display(text@),
        ),
{
    let code = match json_str_member(text, "error") {
        Some(c) => c,
        None => String::from_str("http_error"),
    };
    let msg = match json_str_member(text, "message") {
        Some(m) => m,
        None => String::from_str(text),
    };
    let body = json_display(text);
    let status_text = u64_text(status as u64);
    String::from_str(ctx).concat(" -> ").concat(status_text.as_str()).concat(" ").concat(
        code.as_str(),
    ).concat(": ").concat(msg.as_str()).concat(" (").concat(body.as_str()).concat(")")
}

// ───────────────────────────── list ──────────────────────────────────────────

/// What `list` can be asked for.
#[derive(Debug, Clone)]
pub enum ListKind {
    Units,
    Cities,
    Production { city: String },
    GreatPeople,
    Routes,
    Governors,
    Buildings,
    Improvements,
}

/// The REST call that serves a `list`.
#[derive(Debug)]
pub enum ListTarget {
    /// `GET` this path and print the body.
    Fetch(&'static str),
    /// Read the city's detail and print its `production_options`.
    ProductionOf(String),
}

pub open spec fn unsupported_list_text(kind_name: Seq<char>) -> Seq<char> {
    "server mode does not expose 'list "@ + kind_name + "' yet (no REST endpoint)"@
}

/// Which call serves `list kind` in server mode; the kinds without a REST
/// endpoint are refused.
pub fn list_target(kind: &ListKind) -> (r: Result<ListTarget, String>)
    ensures
        match kind {
            ListKind::Units => r matches Ok(ListTarget::Fetch(p)) && p@ == "/api/v1/units"@,
            ListKind::Cities => r matches Ok(ListTarget::Fetch(p)) && p@ == "/api/v1/cities"@,
            ListKind::Production { city } => r matches Ok(ListTarget::ProductionOf(c)) && c@
                == city@,
            ListKind::GreatPeople => r matches Err(m) && m@ == unsupported_list_text(
                "GreatPeople"@,
            ),
            ListKind::Routes => r matches Err(m) && m@ == unsupported_list_text("Routes"@),
            ListKind::Governors => r matches Err(m) && m@ == unsupported_list_text("Governors"@),
            ListKind::Buildings => r matches Err(m) && m@ == unsupported_list_text("Buildings"@),
            ListKind::Improvements => r matches Err(m) && m@ == unsupported_list_text(
                "Improvements"@,
            ),
        },
{
    let name = match kind {
        ListKind::Units => {
            return Ok(ListTarget::Fetch("/api/v1/units"));
        },
        ListKind::Cities => {
            return Ok(ListTarget::Fetch("/api/v1/cities"));
        },
        ListKind::Production { city } => {
            return Ok(ListTarget::ProductionOf(city.clone()));
        },
        ListKind::GreatPeople => "GreatPeople",
        ListKind::Routes => "Routes",
        ListKind::Governors => "Governors",
        ListKind::Buildings => "Buildings",
        ListKind::Improvements => "Improvements",
    };
    Err(String::from_str("server mode does not expose 'list ").concat(name).concat(
        "' yet (no REST endpoint)",
    ))
}

/// The detail path of a city, by its id.
pub fn city_path(city_id: &str) -> (s: String)
    ensures
        s@ == "/api/v1/cities/"@ + city_id@,
{
    String::from_str("/api/v1/cities/").concat(city_id)
}

// ───────────────────────────── dispatch ──────────────────────────────────────

/// The subcommands of the command-line client, as far as remote mode reads
/// them.
#[derive(Debug)]
pub enum Command {
    NewGame {
        seed: Option<u64>,
        width: u32,
        height: u32,
        player: String,
        ai: Vec<String>,
        game_file: String,
        victory: Option<String>,
    },
    EndTurn,
    View,
    Status { kind: String },
    List { kind: ListKind },
    Action { action: String },
    Repl,
    Play,
    Demo,
    AiDemo,
}

/// The remote handler a subcommand runs, with what it is handed.
#[derive(Debug)]
pub enum RemoteCall {
    NewGame { seed: Option<u64>, width: u32, height: u32, player: String, ai: Vec<String> },
    EndTurn,
    View,
    Status { kind: String },
    List { kind: ListKind },
    Action { action: String },
}

/// Routes a subcommand to its remote handler. Interactive and demo
/// subcommands have none in server mode; `new-game`'s save file and victory
/// settings stay local.
pub fn dispatch(command: Command) -> (r: Result<RemoteCall, String>)
    ensures
        match command {
            Command::NewGame { seed, width, height, player, ai, .. } => r matches Ok(
                RemoteCall::NewGame { seed: s, width: w, height: h, player: p, ai: a },
            ) && s == seed && w == width && h == height && p@ == player@ && a@ == ai@,
            Command::EndTurn => r matches Ok(RemoteCall::EndTurn),
            Command::View => r matches Ok(RemoteCall::View),
            Command::Status { kind } => r matches Ok(RemoteCall::Status { kind: k }) && k@
                == kind@,
            Command::List { kind } => r matches Ok(RemoteCall::List { kind: k }) && k == kind,
            Command::Action { action } => r matches Ok(RemoteCall::Action { action: a }) && a@
                == action@,
            _ => r matches Err(m) && m@
                == "server mode does not support interactive / demo subcommands"@,
        },
{
    match command {
        Command::NewGame { seed, width, height, player, ai, game_file: _, victory: _ } => Ok(
            RemoteCall::NewGame { seed, width, height, player, ai },
        ),
        Command::EndTurn => Ok(RemoteCall::EndTurn),
        Command::View => Ok(RemoteCall::View),
        Command::Status { kind } => Ok(RemoteCall::Status { kind }),
        Command::List { kind } => Ok(RemoteCall::List { kind }),
        Command::Action { action } => Ok(RemoteCall::Action { action }),
        Command::Repl | Command::Play | Command::Demo | Command::AiDemo => Err(String::from_str(
            "server mode does not support interactive / demo subcommands",
        )),
    }
}

/// The path `view` reads: the world snapshot with every explored tile.
pub fn view_path() -> (s: &'static str)
    ensures
        s@ == "/api/v1/world/snapshot?radius=0"@,
{
    "/api/v1/world/snapshot?radius=0"
}

} // verus!
