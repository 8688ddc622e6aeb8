//! The durable encoding of accounts: how identities become rows and rows
//! become identities, the text form of player ids, and how storage outcomes
//! map onto the store's errors.

use vstd::prelude::*;
use crate::model::{
    Identity, IdentityModel, PlayerId, player_id_text_spec,
};
use crate::text::{
    contains_seq, first_index, hex16, hex_fixed, is_hex_digit, lemma_first_index,
    lemma_first_index_is, lemma_hex_fixed_len, lemma_hex_fixed_value, parse_hex_u64,
    parse_hex_u64_spec, push_char, split_once_char, split_once_spec, str_contains, str_eq,
};

verus! {

/// Why a store operation failed. Backend, migration and serialization
/// failures carry the backend's own message.
#[derive(Debug)]
pub enum StoreError {
    Sqlx(String),
    Migrate(String),
    IdentityConflict,
    NotFound,
    Invalid(&'static str),
    Serde(String),
}

/// The message a [`StoreError`] is shown with.
pub open spec fn store_error_text(e: StoreError) -> Seq<char> {
    match e {
        StoreError::Sqlx(m) => "storage backend: "@ + m@,
        StoreError::Migrate(m) => "migration: "@ + m@,
        StoreError::IdentityConflict => "identity already linked to a different account"@,
        StoreError::NotFound => "account not found"@,
        StoreError::Invalid(what) => "invalid input: "@ + what@,
        StoreError::Serde(m) => "serialization: "@ + m@,
    }
}

impl StoreError {
    /// The human-readable message of this error.
    pub fn message(&self) -> (s: String)
        ensures
            s@ == store_error_text(*self),
    {
        match self {
            StoreError::Sqlx(m) => String::from_str("storage backend: ").concat(m.as_str()),
            StoreError::Migrate(m) => String::from_str("migration: ").concat(m.as_str()),
            StoreError::IdentityConflict => String::from_str(
                "identity already linked to a different account",
            ),
            StoreError::NotFound => String::from_str("account not found"),
            StoreError::Invalid(what) => String::from_str("invalid input: ").concat(what),
            StoreError::Serde(m) => String::from_str("serialization: ").concat(m.as_str()),
        }
    }
}

// ───────────────────────────── identity keys ─────────────────────────────────

/// The three kinds of identity, as stored in the `kind` column.
#[derive(Clone, Copy, Debug, PartialEq, Eq, Structural)]
pub enum IdentityKind {
    Email,
    Oidc,
    Atproto,
}

pub open spec fn kind_of(id: IdentityModel) -> IdentityKind {
    match id {
        IdentityModel::Email { .. } => IdentityKind::Email,
        IdentityModel::OpenId { .. } => IdentityKind::Oidc,
        IdentityModel::Atproto { .. } => IdentityKind::Atproto,
    }
}

pub open spec fn kind_text(k: IdentityKind) -> Seq<char> {
    match k {
        IdentityKind::Email => "email"@,
        IdentityKind::Oidc => "oidc"@,
        IdentityKind::Atproto => "atproto"@,
    }
}

impl IdentityKind {
    pub fn as_str(self) -> (s: &'static str)
        ensures
            s@ == kind_text(self),
    {
        match self {
            IdentityKind::Email => "email",
            IdentityKind::Oidc => "oidc",
            IdentityKind::Atproto => "atproto",
        }
    }
}

/// What `str::to_lowercase` gives for a string: Unicode lower-casing of every
/// character (a function of its argument alone).
pub uninterp spec fn lowercase(s: Seq<char>) -> Seq<char>;

/// Every character of `s` is ASCII.
pub open spec fn is_ascii_text(s: Seq<char>) -> bool {
    forall|i: int| 0 <= i < s.len() ==> (#[trigger] s[i] as u32) < 128
}

/// An ASCII upper-case letter `A`..`Z` turned into its lower-case letter;
/// every other character unchanged.
pub open spec fn ascii_lower_char(c: char) -> char {
    if 65 <= (c as u32) <= 90 {
        ((c as u32) + 32) as char
    } else {
        c
    }
}

/// Each character of `s` through [`ascii_lower_char`].
pub open spec fn ascii_lower(s: Seq<char>) -> Seq<char> {
    s.map_values(|c: char| ascii_lower_char(c))
}

/// `str::to_lowercase` (std): the lower-case form of `s` under Unicode's
/// case mapping. Claimed: the result is `lowercase(s@)`, and for an all-ASCII
/// text it is the text with `A`..`Z` mapped to `a`..`z` (the Unicode
/// lower-case mapping of ASCII), everything else unchanged. Nothing more is
/// claimed of other characters.
#[verifier::external_body]
pub(crate) fn str_to_lowercase(s: &str) -> (r: String)
    ensures
        r@ == lowercase(s@),
        is_ascii_text(s@) ==> r@ == ascii_lower(s@),
{
    s.to_lowercase()
}

/// The lower-cased form of an email address that the store keys on: the
/// ASCII lower-casing of an ASCII address, `lowercase` of any other.
pub open spec fn email_key(address: Seq<char>) -> Seq<char> {
    if is_ascii_text(address) {
        ascii_lower(address)
    } else {
        lowercase(address)
    }
}

proof fn lemma_ascii_lower(s: Seq<char>)
    requires
        is_ascii_text(s),
    ensures
        is_ascii_text(ascii_lower(s)),
        ascii_lower(ascii_lower(s)) =~= ascii_lower(s),
        ascii_lower(s).len() == s.len(),
{
    let l = ascii_lower(s);
    assert forall|i: int| 0 <= i < l.len() implies (#[trigger] l[i] as u32) < 128
        && ascii_lower_char(l[i]) == l[i] by {
        let n = s[i] as u32;
        assert(n < 128);
        if 65 <= n <= 90 {
            assert(((n + 32) as char) as u32 == n + 32);
        }
    }
}

/// The key under which an identity is unique: the lower-cased address of an
/// email (see [`email_key`]), `issuer|subject` of an OpenID login, the DID of an atproto account.
pub open spec fn key_text(id: IdentityModel) -> Seq<char> {
    match id {
        IdentityModel::Email { address, .. } => email_key(address),
        IdentityModel::OpenId { issuer, subject, .. } => issuer + seq!['|'] + subject,
        IdentityModel::Atproto { did, .. } => did,
    }
}

/// The (kind, key) pair of an identity, as one value.
pub open spec fn identity_key_spec(id: IdentityModel) -> (IdentityKind, Seq<char>) {
    (kind_of(id), key_text(id))
}

/// The kind and the key of an identity, the kind as an enum.
pub fn identity_key_parts(identity: &Identity) -> (r: (IdentityKind, String))
    ensures
        r.0 == kind_of(identity@),
        r.1@ == key_text(identity@),
{
    match identity {
        Identity::Email { address, .. } => (IdentityKind::Email, str_to_lowercase(address.as_str())),
        Identity::OpenId { issuer, subject, .. } => {
            let mut k = issuer.clone();
            push_char(&mut k, '|');
            let k = k.concat(subject.as_str());
            (IdentityKind::Oidc, k)
        },
        Identity::Atproto { did, .. } => (IdentityKind::Atproto, did.clone()),
    }
}

/// The `(kind, primary_key)` columns that identify an identity row.
pub fn identity_key(identity: &Identity) -> (r: (&'static str, String))
    ensures
        r.0@ == kind_text(kind_of(identity@)),
        r.1@ == key_text(identity@),
{
    let (kind, key) = identity_key_parts(identity);
    (kind.as_str(), key)
}

// ───────────────────────────── player ids as text ────────────────────────────

/// The stored form of a player id: 16 upper-case hex digits.
pub fn player_id_text(id: &PlayerId) -> (s: String)
    ensures
        s@ == player_id_text_spec(id.0),
{
    hex16(id.0)
}

/// Reads a stored player id back: a base-16 number (optional `+`, digits of
/// either case) that fits in 64 bits; anything else is refused as invalid.
pub fn parse_player_id_text(s: &str) -> (r: Result<PlayerId, StoreError>)
    ensures
        match parse_hex_u64_spec(s@) {
            Some(v) => r matches Ok(id) && id.0 == v,
            None => r matches Err(StoreError::Invalid(what)) && what@ == "player_id"@,
        },
{
    match parse_hex_u64(s) {
        Some(raw) => Ok(PlayerId::new(raw)),
        None => Err(StoreError::Invalid("player_id")),
    }
}

/// Reading the stored text of a player id gives back the same player id.
pub proof fn lemma_player_id_text_roundtrip(raw: u64)
    ensures
        parse_hex_u64_spec(player_id_text_spec(raw)) == Some(raw),
{
    let s = player_id_text_spec(raw);
    lemma_hex_fixed_value(raw as nat, 16);
    assert(vstd::arithmetic::power::pow(16, 16) == 0x1_0000_0000_0000_0000) by {
        reveal_with_fuel(vstd::arithmetic::power::pow, 17);
    }
    assert((raw as int) % 0x1_0000_0000_0000_0000 == raw as int);
    lemma_hex_fixed_len(raw as nat, 16);
    assert(is_hex_digit(s[0]));
    assert(s[0] != '+');
}

// ───────────────────────────── fresh player ids ──────────────────────────────

/// `ulid::Ulid::new()` (ulid crate): a new ULID built from the current time
/// and random bits; the player id is its low 64 bits. Nothing is claimed of
/// the value: any 64-bit number may come back.
#[verifier::external_body]
pub(crate) fn rand_player_id() -> u64 {
    ulid::Ulid::new().0 as u64
}

/// A player id for a new account, drawn from a fresh ULID. Any 64-bit id
/// may come back; a store that keys on it must check that it is free.
pub fn draw_player_id() -> (p: PlayerId) {
    PlayerId::new(rand_player_id())
}

// ───────────────────────────── backend errors ────────────────────────────────

/// Whether a database error reports a violated uniqueness constraint: the
/// sqlite extended codes 2067 (UNIQUE) or 1555 (PRIMARY KEY), or a message
/// that mentions `UNIQUE`.
pub fn is_unique_violation(code: Option<&str>, message: &str) -> (r: bool)
    ensures
        r == ((code matches Some(c) && (c@ == "2067"@ || c@ == "1555"@)) || contains_seq(
            message@,
            "UNIQUE"@,
        )),
{
    let by_code = match code {
        Some(c) => str_eq(c, "2067") || str_eq(c, "1555"),
        None => false,
    };
    by_code || str_contains(message, "UNIQUE")
}

/// The outcome of linking an identity, from the outcome of inserting its
/// row: a refused insert that violated uniqueness means the identity already
/// belongs to some account.
pub fn link_identity_outcome(insert: Result<(), StoreError>, unique_violation: bool) -> (r:
    Result<(), StoreError>)
    ensures
        match insert {
            Ok(()) => r is Ok,
            Err(e) => if unique_violation {
                r matches Err(StoreError::IdentityConflict)
            } else {
                r == Err::<(), StoreError>(e)
            },
        },
{
    match insert {
        Ok(()) => Ok(()),
        Err(_) if unique_violation => Err(StoreError::IdentityConflict),
        Err(other) => Err(other),
    }
}

/// A delete that touched no row found nothing to delete.
pub fn rows_affected_outcome(rows_affected: u64) -> (r: Result<(), StoreError>)
    ensures
        rows_affected == 0 <==> r matches Err(StoreError::NotFound),
        rows_affected != 0 <==> r is Ok,
{
    if rows_affected == 0 {
        Err(StoreError::NotFound)
    } else {
        Ok(())
    }
}

// ───────────────────────────── identity rows ─────────────────────────────────

/// One row of the `identities` table.
#[derive(Clone, Debug)]
pub struct IdentityRow {
    pub id: String,
    pub player_id: String,
    pub kind: String,
    pub primary_key: String,
    pub label: String,
    pub is_primary: i64,
    pub verified: i64,
}

/// The `is_primary` column of an identity: set only for a primary email.
pub open spec fn primary_flag(id: IdentityModel) -> i64 {
    match id {
        IdentityModel::Email { primary, .. } => if primary { 1 } else { 0 },
        _ => 0,
    }
}

/// The `verified` column of an identity: an email's own flag; federated
/// identities count as verified.
pub open spec fn verified_flag(id: IdentityModel) -> i64 {
    match id {
        IdentityModel::Email { verified, .. } => if verified { 1 } else { 0 },
        _ => 1,
    }
}

/// The `(is_primary, verified)` columns written for an identity.
pub fn identity_flags(identity: &Identity) -> (r: (i64, i64))
    ensures
        r == (primary_flag(identity@), verified_flag(identity@)),
        !(identity@ is Email) ==> r == (0i64, 1i64),
{
    match identity {
        Identity::Email { primary, verified, .. } => (
            if *primary { 1 } else { 0 },
            if *verified { 1 } else { 0 },
        ),
        _ => (0, 1),
    }
}

/// The identity a row describes. An unknown kind is read as an email.
pub open spec fn row_identity(
    kind: Seq<char>,
    primary_key: Seq<char>,
    label: Seq<char>,
    is_primary: i64,
    verified: i64,
) -> IdentityModel {
    if kind == "oidc"@ {
        match split_once_spec(primary_key, '|') {
            Some((issuer, subject)) => IdentityModel::OpenId { issuer, subject, label },
            None => IdentityModel::OpenId { issuer: primary_key, subject: Seq::empty(), label },
        }
    } else if kind == "atproto"@ {
        IdentityModel::Atproto { did: primary_key, handle: label }
    } else {
        IdentityModel::Email { address: primary_key, verified: verified != 0, primary: is_primary != 0 }
    }
}

pub open spec fn row_model(r: IdentityRow) -> IdentityModel {
    row_identity(r.kind@, r.primary_key@, r.label@, r.is_primary, r.verified)
}

/// Rebuilds the identity a stored row describes.
pub fn row_to_identity(r: &IdentityRow) -> (id: Identity)
    ensures
        id@ == row_model(*r),
{
    proof {
        reveal_strlit("email");
        reveal_strlit("oidc");
        reveal_strlit("atproto");
        assert("email"@.len() == 5);
        assert("oidc"@.len() == 4);
        assert("atproto"@.len() == 7);
    }
    if str_eq(r.kind.as_str(), "email") {
        assert(r.kind@ == "email"@);
        Identity::Email {
            address: r.primary_key.clone(),
            verified: r.verified != 0,
            primary: r.is_primary != 0,
        }
    } else if str_eq(r.kind.as_str(), "oidc") {
        let (issuer, subject) = match split_once_char(r.primary_key.as_str(), '|') {
            Some((a, b)) => (a, b),
            None => (r.primary_key.clone(), String::new()),
        };
        Identity::OpenId { issuer, subject, label: r.label.clone() }
    } else if str_eq(r.kind.as_str(), "atproto") {
        Identity::Atproto { did: r.primary_key.clone(), handle: r.label.clone() }
    } else {
        Identity::Email {
            address: r.primary_key.clone(),
            verified: r.verified != 0,
            primary: r.is_primary != 0,
        }
    }
}

/// The identities that a list of rows describes, in row order.
pub fn rows_to_identities(rows: &Vec<IdentityRow>) -> (out: Vec<Identity>)
    ensures
        out@.len() == rows@.len(),
        forall|i: int| 0 <= i < rows@.len() ==> #[trigger] out@[i]@ == row_model(rows@[i]),
{
    let mut out: Vec<Identity> = Vec::new();
    let n = rows.len();
    for i in 0..n
        invariant
            n == rows@.len(),
            out@.len() == i,
            forall|j: int| 0 <= j < i ==> #[trigger] out@[j]@ == row_model(rows@[j]),
    {
        out.push(row_to_identity(&rows[i]));
    }
    out
}

/// The row written when `identity` is linked to the account whose stored id
/// is `player_id`; `id` is the row's own fresh identifier.
pub fn new_identity_row(id: String, player_id: String, identity: &Identity) -> (r: IdentityRow)
    ensures
        r.id@ == id@,
        r.player_id@ == player_id@,
        r.kind@ == kind_text(kind_of(identity@)),
        r.primary_key@ == key_text(identity@),
        r.label@ == identity@.label(),
        r.is_primary == primary_flag(identity@),
        r.verified == verified_flag(identity@),
        !(identity@ is Email) ==> r.verified == 1 && r.is_primary == 0,
{
    let (kind, primary_key) = identity_key_parts(identity);
    let (is_primary, verified) = identity_flags(identity);
    IdentityRow {
        id,
        player_id,
        kind: String::from_str(kind.as_str()),
        primary_key,
        label: identity.label(),
        is_primary,
        verified,
    }
}

/// Storing an identity and reading its row back gives the same identity,
/// provided the stored key loses nothing: an email address that is its own
/// key (already in lower case), an OpenID issuer without `|`; atproto identities always
/// come back.
pub proof fn lemma_identity_row_roundtrip(id: IdentityModel)
    ensures
        (match id {
            IdentityModel::Email { address, .. } => email_key(address) == address,
            IdentityModel::OpenId { issuer, .. } => first_index(issuer, '|') is None,
            IdentityModel::Atproto { .. } => true,
        }) ==> row_identity(
            kind_text(kind_of(id)),
            key_text(id),
            id.label(),
            primary_flag(id),
            verified_flag(id),
        ) == id,
{
    reveal_strlit("email");
    reveal_strlit("oidc");
    reveal_strlit("atproto");
    assert("email"@.len() == 5);
    assert("oidc"@.len() == 4);
    assert("atproto"@.len() == 7);
    match id {
        IdentityModel::OpenId { issuer, subject, label } => {
            if first_index(issuer, '|') is None {
                let k = issuer + seq!['|'] + subject;
                lemma_first_index(issuer, '|');
                assert forall|j: int| 0 <= j < issuer.len() implies k[j] != '|' by {
                    assert(k[j] == issuer[j]);
                }
                assert(k[issuer.len() as int] == '|');
                lemma_first_index_is(k, '|', issuer.len() as int);
                assert(k.take(issuer.len() as int) =~= issuer);
                assert(k.skip(issuer.len() as int + 1) =~= subject);
                assert(split_once_spec(k, '|') == Some((issuer, subject)));
            }
        },
        _ => {},
    }
}

/// A stored identity reloads under the same lookup key: the row's kind and
/// key give back the kind and key of the identity that was stored. An
/// OpenID key is split at its first `|` and joins back to the same text; an
/// ASCII email address is stored lower-cased, and lower-casing that again
/// changes nothing.
pub proof fn lemma_identity_key_roundtrip(id: IdentityModel, label: Seq<char>, is_primary: i64, verified: i64)
    requires
        id matches IdentityModel::Email { address, .. } ==> is_ascii_text(address),
    ensures
        identity_key_spec(row_identity(kind_text(kind_of(id)), key_text(id), label, is_primary, verified))
            == identity_key_spec(id),
{
    reveal_strlit("email");
    reveal_strlit("oidc");
    reveal_strlit("atproto");
    assert("email"@.len() == 5);
    assert("oidc"@.len() == 4);
    assert("atproto"@.len() == 7);
    match id {
        IdentityModel::Email { address, .. } => {
            lemma_ascii_lower(address);
        },
        IdentityModel::OpenId { issuer, subject, .. } => {
            let k = issuer + seq!['|'] + subject;
            assert(k[issuer.len() as int] == '|');
            lemma_first_index(k, '|');
            match first_index(k, '|') {
                Some(i) => {
                    assert(k.take(i) + seq!['|'] + k.skip(i + 1) =~= k);
                },
                None => {
                    assert(false);
                },
            }
        },
        IdentityModel::Atproto { .. } => {},
    }
}

/// Email lookups ignore ASCII letter case: two ASCII addresses that differ
/// only in the case of their letters have the same key.
pub proof fn lemma_email_key_ignores_case(a: Seq<char>, b: Seq<char>)
    requires
        is_ascii_text(a),
        is_ascii_text(b),
        ascii_lower(a) == ascii_lower(b),
    ensures
        email_key(a) == email_key(b),
        email_key(a) == email_key(email_key(a)),
{
    lemma_ascii_lower(a);
}

/// The flag columns of an identity row: an email row carries the email's own
/// `primary` and `verified` flags; every OpenID or atproto row is stored as
/// not primary and verified.
pub proof fn lemma_identity_row_flags(id: IdentityModel)
    ensures
        id matches IdentityModel::Email { verified, primary, .. } ==> {
            &&& verified_flag(id) == (if verified { 1i64 } else { 0i64 })
            &&& primary_flag(id) == (if primary { 1i64 } else { 0i64 })
        },
        id is OpenId ==> verified_flag(id) == 1 && primary_flag(id) == 0,
        id is Atproto ==> verified_flag(id) == 1 && primary_flag(id) == 0,
{
}

} // verus!
