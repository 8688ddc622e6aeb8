//! Accounts: players, their sign-in identities and their preferences.

use vstd::prelude::*;
use crate::text::{hex16, hex_fixed};

verus! {

/// Opaque 64-bit player identifier; every identity of an account maps to it.
#[derive(Clone, Copy, Debug, PartialEq, Eq, Hash, Structural)]
pub struct PlayerId(pub u64);

/// The human-readable hex form of a player id: 16 upper-case hex digits.
pub open spec fn player_id_text_spec(raw: u64) -> Seq<char> {
    hex_fixed(raw as nat, 16)
}

/// The text of a player id is always 16 characters, each an upper-case hex
/// digit.
pub proof fn lemma_player_id_text_shape(raw: u64)
    ensures
        player_id_text_spec(raw).len() == 16,
        forall|i: int| 0 <= i < 16 ==> {
            let c = #[trigger] player_id_text_spec(raw)[i];
            ('0' <= c && c <= '9') || ('A' <= c && c <= 'F')
        },
{
    crate::text::lemma_hex_fixed_upper(raw as nat, 16);
}

impl PlayerId {
    pub fn new(raw: u64) -> (id: PlayerId)
        ensures
            id.0 == raw,
    {
        PlayerId(raw)
    }

    /// The hex form shown to players and clients in place of the raw number.
    pub fn display(&self) -> (s: String)
        ensures
            s@ == player_id_text_spec(self.0),
    {
        hex16(self.0)
    }
}

impl Default for PlayerId {
    fn default() -> (id: Self)
        ensures
            id.0 == 0,
    {
        PlayerId(0)
    }
}

/// One way of signing in that is linked to an account.
#[derive(Clone, Debug, PartialEq, Eq)]
pub enum Identity {
    Email { address: String, verified: bool, primary: bool },
    OpenId { issuer: String, subject: String, label: String },
    Atproto { did: String, handle: String },
}

/// What an [`Identity`] holds, as character sequences.
pub enum IdentityModel {
    Email { address: Seq<char>, verified: bool, primary: bool },
    OpenId { issuer: Seq<char>, subject: Seq<char>, label: Seq<char> },
    Atproto { did: Seq<char>, handle: Seq<char> },
}

impl View for Identity {
    type V = IdentityModel;

    open spec fn view(&self) -> IdentityModel {
        match self {
            Identity::Email { address, verified, primary } => IdentityModel::Email {
                address: address@,
                verified: *verified,
                primary: *primary,
            },
            Identity::OpenId { issuer, subject, label } => IdentityModel::OpenId {
                issuer: issuer@,
                subject: subject@,
                label: label@,
            },
            Identity::Atproto { did, handle } => IdentityModel::Atproto {
                did: did@,
                handle: handle@,
            },
        }
    }
}

impl IdentityModel {
    /// The text an identity is shown under: the address of an email, the
    /// provider label of an OpenID login, the handle of an atproto account.
    pub open spec fn label(self) -> Seq<char> {
        match self {
            IdentityModel::Email { address, .. } => address,
            IdentityModel::OpenId { label, .. } => label,
            IdentityModel::Atproto { handle, .. } => handle,
        }
    }
}

impl Identity {
    /// A copy equal to `self`.
    pub fn duplicate(&self) -> (r: Identity)
        ensures
            r == *self,
            r@ == self@,
    {
        match self {
            Identity::Email { address, verified, primary } => Identity::Email {
                address: address.clone(),
                verified: *verified,
                primary: *primary,
            },
            Identity::OpenId { issuer, subject, label } => Identity::OpenId {
                issuer: issuer.clone(),
                subject: subject.clone(),
                label: label.clone(),
            },
            Identity::Atproto { did, handle } => Identity::Atproto {
                did: did.clone(),
                handle: handle.clone(),
            },
        }
    }

    /// The display label stored beside the identity.
    pub fn label(&self) -> (s: String)
        ensures
            s@ == self@.label(),
    {
        match self {
            Identity::Email { address, .. } => address.clone(),
            Identity::OpenId { label, .. } => label.clone(),
            Identity::Atproto { handle, .. } => handle.clone(),
        }
    }
}

/// A copy of a list of identities, element for element.
pub fn duplicate_identities(v: &Vec<Identity>) -> (r: Vec<Identity>)
    ensures
        r@ == v@,
{
    let mut r: Vec<Identity> = Vec::new();
    let n = v.len();
    for i in 0..n
        invariant
            n == v@.len(),
            r@ == v@.take(i as int),
    {
        r.push(v[i].duplicate());
        assert(v@.take(i as int).push(v@[i as int]) =~= v@.take(i + 1));
    }
    assert(v@.take(n as int) =~= v@);
    r
}

/// The views of a list of identities.
pub open spec fn identity_models(v: Seq<Identity>) -> Seq<IdentityModel> {
    v.map_values(|i: Identity| i@)
}

/// Per-player UI preferences.
#[derive(Clone, Debug, PartialEq, Eq)]
pub struct Preferences {
    pub density: String,
    pub color_scheme: String,
    pub keyboard_nav: bool,
    pub turn_notifications: bool,
    pub discoverable_by_id: bool,
}

pub struct PreferencesModel {
    pub density: Seq<char>,
    pub color_scheme: Seq<char>,
    pub keyboard_nav: bool,
    pub turn_notifications: bool,
    pub discoverable_by_id: bool,
}

impl View for Preferences {
    type V = PreferencesModel;

    open spec fn view(&self) -> PreferencesModel {
        PreferencesModel {
            density: self.density@,
            color_scheme: self.color_scheme@,
            keyboard_nav: self.keyboard_nav,
            turn_notifications: self.turn_notifications,
            discoverable_by_id: self.discoverable_by_id,
        }
    }
}

/// The preferences of a fresh account: empty strings, every switch off.
pub open spec fn default_preferences() -> PreferencesModel {
    PreferencesModel {
        density: Seq::empty(),
        color_scheme: Seq::empty(),
        keyboard_nav: false,
        turn_notifications: false,
        discoverable_by_id: false,
    }
}

impl Default for Preferences {
    fn default() -> (p: Self)
        ensures
            p@ == default_preferences(),
    {
        Preferences {
            density: String::new(),
            color_scheme: String::new(),
            keyboard_nav: false,
            turn_notifications: false,
            discoverable_by_id: false,
        }
    }
}

impl Preferences {
    pub fn duplicate(&self) -> (r: Preferences)
        ensures
            r@ == self@,
    {
        Preferences {
            density: self.density.clone(),
            color_scheme: self.color_scheme.clone(),
            keyboard_nav: self.keyboard_nav,
            turn_notifications: self.turn_notifications,
            discoverable_by_id: self.discoverable_by_id,
        }
    }
}

/// A player account: profile fields, linked identities, preferences.
#[derive(Clone, Debug)]
pub struct Account {
    pub player_id: PlayerId,
    pub preferred_name: String,
    pub pronouns: String,
    pub bio: String,
    pub identities: Vec<Identity>,
    pub prefs: Preferences,
}

pub struct AccountModel {
    pub player_id: u64,
    pub preferred_name: Seq<char>,
    pub pronouns: Seq<char>,
    pub bio: Seq<char>,
    pub identities: Seq<IdentityModel>,
    pub prefs: PreferencesModel,
}

impl View for Account {
    type V = AccountModel;

    open spec fn view(&self) -> AccountModel {
        AccountModel {
            player_id: self.player_id.0,
            preferred_name: self.preferred_name@,
            pronouns: self.pronouns@,
            bio: self.bio@,
            identities: identity_models(self.identities@),
            prefs: self.prefs@,
        }
    }
}

/// A fresh account for `player_id` holding the one identity `first`, with
/// empty profile fields and default preferences.
pub open spec fn new_account_model(player_id: u64, first: IdentityModel) -> AccountModel {
    AccountModel {
        player_id,
        preferred_name: Seq::empty(),
        pronouns: Seq::empty(),
        bio: Seq::empty(),
        identities: seq![first],
        prefs: default_preferences(),
    }
}

impl Default for Account {
    fn default() -> (a: Self)
        ensures
            a@ == (AccountModel {
                player_id: 0,
                preferred_name: Seq::empty(),
                pronouns: Seq::empty(),
                bio: Seq::empty(),
                identities: Seq::empty(),
                prefs: default_preferences(),
            }),
    {
        let a = Account {
            player_id: PlayerId(0),
            preferred_name: String::new(),
            pronouns: String::new(),
            bio: String::new(),
            identities: Vec::new(),
            prefs: Preferences::default(),
        };
        assert(identity_models(a.identities@) =~= Seq::<IdentityModel>::empty());
        a
    }
}

impl Account {
    /// A copy with the same view.
    pub fn duplicate(&self) -> (r: Account)
        ensures
            r@ == self@,
    {
        let identities = duplicate_identities(&self.identities);
        Account {
            player_id: self.player_id,
            preferred_name: self.preferred_name.clone(),
            pronouns: self.pronouns.clone(),
            bio: self.bio.clone(),
            identities,
            prefs: self.prefs.duplicate(),
        }
    }
}

} // verus!
