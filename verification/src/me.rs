//! The lobby's `/api/v1/me` surface: the wire view of the signed-in
//! account, and the reply chosen for each store outcome.

use vstd::prelude::*;
use crate::games::ErrorReply;
use crate::model::{Account, AccountModel, Identity, IdentityModel, Preferences, PreferencesModel, player_id_text_spec};
use crate::store::{StoreError, store_error_text};
use crate::text::push_char;

verus! {

/// How one linked identity is shown to its owner.
#[derive(Debug)]
pub struct IdentityView {
    pub kind: &'static str,
    pub label: String,
    pub primary_key: String,
    pub verified: Option<bool>,
    pub primary: Option<bool>,
}

/// `v` shows the identity `id`: an email by its address with both flags;
/// an OpenID login by its label and `issuer|subject`; an atproto account
/// by its handle and DID; federated identities carry no flags.
pub open spec fn shows_identity(v: IdentityView, id: IdentityModel) -> bool {
    match id {
        IdentityModel::Email { address, verified, primary } => {
            &&& v.kind@ == "email"@
            &&& v.label@ == address
            &&& v.primary_key@ == address
            &&& v.verified == Some(verified)
            &&& v.primary == Some(primary)
        },
        IdentityModel::OpenId { issuer, subject, label } => {
            &&& v.kind@ == "oidc"@
            &&& v.label@ == label
            &&& v.primary_key@ == issuer + seq!['|'] + subject
            &&& v.verified is None
            &&& v.primary is None
        },
        IdentityModel::Atproto { did, handle } => {
            &&& v.kind@ == "atproto"@
            &&& v.label@ == handle
            &&& v.primary_key@ == did
            &&& v.verified is None
            &&& v.primary is None
        },
    }
}

impl IdentityView {
    /// The view of one identity.
    pub fn from_identity(id: &Identity) -> (v: IdentityView)
        ensures
            shows_identity(v, id@),
    {
        match id {
            Identity::Email { address, verified, primary } => IdentityView {
                kind: "email",
                label: address.clone(),
                primary_key: address.clone(),
                verified: Some(*verified),
                primary: Some(*primary),
            },
            Identity::OpenId { issuer, subject, label } => {
                let mut key = issuer.clone();
                push_char(&mut key, '|');
                let key = key.concat(subject.as_str());
                assert(key@ =~= issuer@ + seq!['|'] + subject@);
                IdentityView {
                    kind: "oidc",
                    label: label.clone(),
                    primary_key: key,
                    verified: None,
                    primary: None,
                }
            },
            Identity::Atproto { did, handle } => IdentityView {
                kind: "atproto",
                label: handle.clone(),
                primary_key: did.clone(),
                verified: None,
                primary: None,
            },
        }
    }
}

/// The signed-in account as the client sees it: the player id in its hex
/// form, never the raw number.
#[derive(Debug)]
pub struct MeView {
    pub player_id: String,
    pub preferred_name: String,
    pub pronouns: String,
    pub bio: String,
    pub identities: Vec<IdentityView>,
    pub prefs: Preferences,
}

/// `v` shows the account `a`.
pub open spec fn shows_account(v: MeView, a: AccountModel) -> bool {
    &&& v.player_id@ == player_id_text_spec(a.player_id)
    &&& v.preferred_name@ == a.preferred_name
    &&& v.pronouns@ == a.pronouns
    &&& v.bio@ == a.bio
    &&& v.identities@.len() == a.identities.len()
    &&& forall|i: int|
        0 <= i < a.identities.len() ==> shows_identity(#[trigger] v.identities@[i], a.identities[i])
    &&& v.prefs@ == a.prefs
}

impl MeView {
    /// The client's view of an account.
    pub fn from(a: Account) -> (v: MeView)
        ensures
            shows_account(v, a@),
    {
        let mut identities: Vec<IdentityView> = Vec::new();
        let n = a.identities.len();
        for i in 0..n
            invariant
                n == a.identities@.len(),
                identities@.len() == i,
                forall|j: int|
                    0 <= j < i ==> shows_identity(#[trigger] identities@[j], a@.identities[j]),
        {
            assert(a@.identities[i as int] == a.identities@[i as int]@);
            identities.push(IdentityView::from_identity(&a.identities[i]));
        }
        MeView {
            player_id: a.player_id.display(),
            preferred_name: a.preferred_name,
            pronouns: a.pronouns,
            bio: a.bio,
            identities,
            prefs: a.prefs,
        }
    }
}

/// The editable profile fields of a `PATCH /api/v1/me`; `None` leaves a
/// field alone.
#[derive(Debug, Default)]
pub struct PatchMeBody {
    pub preferred_name: Option<String>,
    pub pronouns: Option<String>,
    pub bio: Option<String>,
    pub prefs: Option<Preferences>,
}

/// `r` is the 500 `store_error` reply for `e`, with its message.
pub open spec fn is_me_store_error_reply(r: ErrorReply, e: StoreError) -> bool {
    &&& r.status == 500
    &&& r.error@ == "store_error"@
    &&& r.message matches Some(m) && m@ == store_error_text(e)
}

fn store_error_reply(e: StoreError) -> (r: ErrorReply)
    ensures
        is_me_store_error_reply(r, e),
{
    ErrorReply { status: 500, error: "store_error", message: Some(e.message()) }
}

/// `GET /api/v1/me`: the account's view; 404 `account_not_found` when the
/// session's account is gone; 500 `store_error` when the store failed.
pub fn me_reply(found: Result<Option<Account>, StoreError>) -> (r: Result<MeView, ErrorReply>)
    ensures
        match found {
            Ok(Some(a)) => r matches Ok(v) && shows_account(v, a@),
            Ok(None) => r matches Err(e) && e.status == 404 && e.error@ == "account_not_found"@
                && e.message is None,
            Err(e) => r matches Err(reply) && is_me_store_error_reply(reply, e),
        },
{
    match found {
        Ok(Some(a)) => Ok(MeView::from(a)),
        Ok(None) => Err(ErrorReply { status: 404, error: "account_not_found", message: None }),
        Err(e) => Err(store_error_reply(e)),
    }
}

/// `PATCH /api/v1/me`: the updated account's view, or 500 `store_error`.
pub fn patched_reply(updated: Result<Account, StoreError>) -> (r: Result<MeView, ErrorReply>)
    ensures
        match updated {
            Ok(a) => r matches Ok(v) && shows_account(v, a@),
            Err(e) => r matches Err(reply) && is_me_store_error_reply(reply, e),
        },
{
    match updated {
        Ok(a) => Ok(MeView::from(a)),
        Err(e) => Err(store_error_reply(e)),
    }
}

/// `DELETE /api/v1/me`: 204 once the account is gone, or 500 `store_error`.
pub fn deleted_me_reply(deleted: Result<(), StoreError>) -> (r: Result<u16, ErrorReply>)
    ensures
        match deleted {
            Ok(()) => r == Ok::<u16, ErrorReply>(204),
            Err(e) => r matches Err(reply) && is_me_store_error_reply(reply, e),
        },
{
    match deleted {
        Ok(()) => Ok(204),
        Err(e) => Err(store_error_reply(e)),
    }
}

} // verus!
