//! An in-memory account store keyed by player id: the reference semantics of
//! the account store (sign-in landing, identity linking, profile patches and
//! deletion), with every operation stated over a map from player ids to
//! account models.

use vstd::prelude::*;
use std::collections::HashMap;
use vstd::std_specs::iter::IteratorSpec;
use vstd::set_lib::lemma_len_subset;
use crate::model::{
    Account, AccountModel, Identity, IdentityModel, PlayerId, Preferences, PreferencesModel,
    identity_models, new_account_model, default_preferences,
};
use crate::store::{
    IdentityKind, StoreError, identity_key_parts, identity_key_spec, rand_player_id,
};

verus! {

broadcast use vstd::std_specs::hash::group_hash_axioms;

/// The (kind, key) pair under which an identity is unique.
pub type IdentityKeySpec = (IdentityKind, Seq<char>);

/// `a` has an identity with key `k`.
pub open spec fn has_key(a: AccountModel, k: IdentityKeySpec) -> bool {
    exists|i: int| 0 <= i < a.identities.len() && #[trigger] identity_key_spec(a.identities[i]) == k
}

/// Every account is stored under its own player id, and no identity key
/// belongs to two accounts.
pub open spec fn store_wf(m: Map<u64, AccountModel>) -> bool {
    &&& forall|p: u64| #[trigger] m.dom().contains(p) ==> m[p].player_id == p
    &&& forall|p: u64, q: u64, k: IdentityKeySpec|
        #![trigger has_key(m[p], k), has_key(m[q], k)]
        m.dom().contains(p) && m.dom().contains(q) && has_key(m[p], k) && has_key(m[q], k) ==> p
            == q
}

/// The account that owns key `k`, if any.
pub open spec fn spec_lookup(m: Map<u64, AccountModel>, k: IdentityKeySpec) -> Option<AccountModel> {
    if exists|p: u64| m.dom().contains(p) && #[trigger] has_key(m[p], k) {
        let p = choose|p: u64| m.dom().contains(p) && #[trigger] has_key(m[p], k);
        Some(m[p])
    } else {
        None
    }
}

/// Sign-in landing: the account already linked to the identity, unchanged
/// store; or a fresh account under `fresh` holding just that identity.
pub open spec fn find_or_create_spec(m: Map<u64, AccountModel>, id: IdentityModel, fresh: u64) -> (
    AccountModel,
    Map<u64, AccountModel>,
) {
    match spec_lookup(m, identity_key_spec(id)) {
        Some(a) => (a, m),
        None => (new_account_model(fresh, id), m.insert(fresh, new_account_model(fresh, id))),
    }
}

/// `a` with one more identity at the end of its list.
pub open spec fn with_identity(a: AccountModel, id: IdentityModel) -> AccountModel {
    AccountModel { identities: a.identities.push(id), ..a }
}

/// Linking: refused when another account owns the identity, a no-op when
/// this account does, refused for an unknown account, else appended.
pub open spec fn link_spec(m: Map<u64, AccountModel>, pid: u64, id: IdentityModel) -> (
    Result<(), StoreError>,
    Map<u64, AccountModel>,
) {
    match spec_lookup(m, identity_key_spec(id)) {
        Some(a) => if a.player_id != pid {
            (Err(StoreError::IdentityConflict), m)
        } else {
            (Ok(()), m)
        },
        None => if !m.dom().contains(pid) {
            (Err(StoreError::NotFound), m)
        } else {
            (Ok(()), m.insert(pid, with_identity(m[pid], id)))
        },
    }
}

pub open spec fn opt_text(o: Option<String>) -> Option<Seq<char>> {
    match o {
        Some(s) => Some(s@),
        None => None,
    }
}

pub open spec fn opt_prefs(o: Option<Preferences>) -> Option<PreferencesModel> {
    match o {
        Some(p) => Some(p@),
        None => None,
    }
}

pub open spec fn patch_field<T>(current: T, patch: Option<T>) -> T {
    match patch {
        Some(v) => v,
        None => current,
    }
}

/// The profile patch: every `Some` replaces its field, every `None` leaves
/// it alone; identities and the player id stay.
pub open spec fn patched(
    a: AccountModel,
    preferred_name: Option<Seq<char>>,
    pronouns: Option<Seq<char>>,
    bio: Option<Seq<char>>,
    prefs: Option<PreferencesModel>,
) -> AccountModel {
    AccountModel {
        player_id: a.player_id,
        preferred_name: patch_field(a.preferred_name, preferred_name),
        pronouns: patch_field(a.pronouns, pronouns),
        bio: patch_field(a.bio, bio),
        identities: a.identities,
        prefs: patch_field(a.prefs, prefs),
    }
}

/// In-memory account store.
pub struct MemAccountStore {
    accounts: HashMap<u64, Account>,
}

impl View for MemAccountStore {
    type V = Map<u64, AccountModel>;

    closed spec fn view(&self) -> Map<u64, AccountModel> {
        model_of(self.accounts)
    }
}

/// The accounts of a map, by their views.
spec fn model_of(h: HashMap<u64, Account>) -> Map<u64, AccountModel> {
    h@.map_values(|a: Account| a@)
}

/// With the store well formed, the owner of a key is the account holding it.
pub proof fn lemma_lookup_owner(m: Map<u64, AccountModel>, p: u64, k: IdentityKeySpec)
    requires
        store_wf(m),
        m.dom().contains(p),
        has_key(m[p], k),
    ensures
        spec_lookup(m, k) == Some(m[p]),
{
    let q = choose|q: u64| m.dom().contains(q) && #[trigger] has_key(m[q], k);
    assert(has_key(m[q], k) && has_key(m[p], k));
}

proof fn lemma_new_account_keys(fresh: u64, id: IdentityModel, k: IdentityKeySpec)
    ensures
        has_key(new_account_model(fresh, id), k) <==> k == identity_key_spec(id),
{
    let a = new_account_model(fresh, id);
    if k == identity_key_spec(id) {
        assert(identity_key_spec(a.identities[0]) == k);
    }
}

proof fn lemma_with_identity_keys(a: AccountModel, id: IdentityModel, k: IdentityKeySpec)
    ensures
        has_key(with_identity(a, id), k) <==> (has_key(a, k) || k == identity_key_spec(id)),
{
    let b = with_identity(a, id);
    if has_key(a, k) {
        let i = choose|i: int| 0 <= i < a.identities.len() && #[trigger] identity_key_spec(a.identities[i]) == k;
        assert(b.identities[i] == a.identities[i]);
    }
    if k == identity_key_spec(id) {
        assert(b.identities[a.identities.len() as int] == id);
    }
    if has_key(b, k) {
        let i = choose|i: int| 0 <= i < b.identities.len() && #[trigger] identity_key_spec(b.identities[i]) == k;
        if i < a.identities.len() {
            assert(b.identities[i] == a.identities[i]);
        }
    }
}

impl MemAccountStore {
    /// Every store is well formed (see [`store_wf`]).
    #[verifier::type_invariant]
    spec fn wf(self) -> bool {
        store_wf(self@)
    }

    /// An empty store.
    pub fn new() -> (s: MemAccountStore)
        ensures
            store_wf(s@),
            s@ == Map::<u64, AccountModel>::empty(),
    {
        let s = MemAccountStore { accounts: HashMap::new() };
        assert(s@ =~= Map::<u64, AccountModel>::empty());
        s
    }

    /// Whether `acct` holds an identity whose key is `(kind, key)`.
    fn account_has_key(acct: &Account, kind: IdentityKind, key: &String) -> (r: bool)
        ensures
            r == has_key(acct@, (kind, key@)),
    {
        let n = acct.identities.len();
        let ghost k = (kind, key@);
        for i in 0..n
            invariant
                n == acct.identities@.len(),
                k == (kind, key@),
                forall|j: int| 0 <= j < i ==> identity_key_spec(acct@.identities[j]) != k,
        {
            let (kind_i, key_i) = identity_key_parts(&acct.identities[i]);
            assert(acct@.identities[i as int] == acct.identities@[i as int]@);
            if kind_i == kind && key_i == *key {
                assert(identity_key_spec(acct@.identities[i as int]) == k);
                return true;
            }
        }
        assert forall|j: int| 0 <= j < acct@.identities.len() implies #[trigger] identity_key_spec(
            acct@.identities[j],
        ) != k by {}
        false
    }

    /// The account linked to `identity`, if any.
    pub fn lookup_by_identity(&self, identity: &Identity) -> (r: Option<Account>)
        ensures
            match spec_lookup(self@, identity_key_spec(identity@)) {
                Some(a) => r matches Some(x) && x@ == a,
                None => r is None,
            },
    {
        proof {
            use_type_invariant(self);
        }
        let (kind, key) = identity_key_parts(identity);
        let ghost k = identity_key_spec(identity@);
        let ghost m = self@;
        for (pid, acct) in it: self.accounts.iter()
            invariant
                store_wf(m),
                m == self@,
                k == (kind, key@),
                k == identity_key_spec(identity@),
                it.seq() == vstd::std_specs::hash::spec_hash_map_iter(&self.accounts).remaining(),
                forall|j: int| 0 <= j < it.index() ==> !has_key(#[trigger] it.seq()[j].1@, k),
        {
            if Self::account_has_key(acct, kind, &key) {
                assert(self.accounts@.contains_key(*pid) && self.accounts@[*pid] == *acct);
                assert(m.dom().contains(*pid));
                assert(m[*pid] == acct@);
                proof {
                    lemma_lookup_owner(m, *pid, k);
                }
                return Some(acct.duplicate());
            }
        }
        proof {
            let v = vstd::std_specs::hash::spec_hash_map_iter(&self.accounts).remaining();
            if exists|p: u64| m.dom().contains(p) && #[trigger] has_key(m[p], k) {
                let p = choose|p: u64| m.dom().contains(p) && #[trigger] has_key(m[p], k);
                assert(self.accounts@.contains_key(p));
                assert(v.contains((&p, &self.accounts@[p])));
                let j = choose|j: int| 0 <= j < v.len() && v[j] == (&p, &self.accounts@[p]);
                assert(!has_key(v[j].1@, k));
            }
        }
        None
    }

    /// The account stored under `player_id`, if any.
    pub fn get_by_player_id(&self, player_id: PlayerId) -> (r: Option<Account>)
        ensures
            match r {
                Some(a) => self@.dom().contains(player_id.0) && a@ == self@[player_id.0],
                None => !self@.dom().contains(player_id.0),
            },
    {
        match self.accounts.get(&player_id.0) {
            Some(a) => Some(a.duplicate()),
            None => None,
        }
    }

    /// A player id that no account holds: `hint` when it is free, else the
    /// smallest free id (at most the number of accounts).
    pub fn unused_player_id(&self, hint: u64) -> (p: u64)
        ensures
            !self@.dom().contains(p),
            !self@.dom().contains(hint) ==> p == hint,
    {
        if !self.accounts.contains_key(&hint) {
            return hint;
        }
        let n = self.accounts.len() as u64;
        let mut c: u64 = 0;
        while c < n
            invariant
                n == self.accounts@.len(),
                self@.dom().contains(hint),
                c <= n,
                forall|k: u64| k < c ==> #[trigger] self.accounts@.dom().contains(k),
            decreases n - c,
        {
            if !self.accounts.contains_key(&c) {
                return c;
            }
            c = c + 1;
        }
        if !self.accounts.contains_key(&n) {
            return n;
        }
        proof {
            lemma_ids_below(n + 1);
            assert(ids_below(n + 1).subset_of(self.accounts@.dom()));
            lemma_len_subset(ids_below(n + 1), self.accounts@.dom());
        }
        n
    }

    /// Sign-in landing with a suggested player id: the account already
    /// linked to `identity`, unchanged store; or a new account holding it,
    /// under `fresh` when that id is free, else under another free id. A new
    /// account never replaces an existing one.
    pub fn find_or_create_with_id(&mut self, identity: Identity, fresh: u64) -> (r: Account)
        ensures
            store_wf(old(self)@),
            store_wf(final(self)@),
            (r@, final(self)@) == find_or_create_spec(old(self)@, identity@, r.player_id.0),
            spec_lookup(old(self)@, identity_key_spec(identity@)) is None ==> {
                &&& !old(self)@.dom().contains(r.player_id.0)
                &&& !old(self)@.dom().contains(fresh) ==> r.player_id.0 == fresh
                &&& r@ == new_account_model(r.player_id.0, identity@)
                &&& final(self)@ == old(self)@.insert(r.player_id.0, r@)
            },
    {
        proof {
            use_type_invariant(&*self);
        }
        if let Some(a) = self.lookup_by_identity(&identity) {
            return a;
        }
        let pid = self.unused_player_id(fresh);
        let ghost m = self@;
        let ghost id = identity@;
        let mut identities: Vec<Identity> = Vec::new();
        identities.push(identity);
        let acct = Account {
            player_id: PlayerId::new(pid),
            preferred_name: String::new(),
            pronouns: String::new(),
            bio: String::new(),
            identities,
            prefs: Preferences::default(),
        };
        assert(identity_models(acct.identities@) =~= seq![id]);
        assert(acct@ == new_account_model(pid, id));
        let stored = acct.duplicate();
        let mut accounts: HashMap<u64, Account> = HashMap::new();
        std::mem::swap(&mut accounts, &mut self.accounts);
        accounts.insert(pid, stored);
        assert(model_of(accounts) =~= m.insert(pid, acct@));
        proof {
            lemma_create_keeps_wf(m, id, pid);
        }
        self.accounts = accounts;
        acct
    }

    /// Sign-in landing: the account already linked to `identity`, unchanged
    /// store; or a new account under a freshly drawn player id that no
    /// account held before.
    pub fn find_or_create_account_for_identity(&mut self, identity: Identity) -> (r: Account)
        ensures
            store_wf(old(self)@),
            store_wf(final(self)@),
            (r@, final(self)@) == find_or_create_spec(old(self)@, identity@, r.player_id.0),
            spec_lookup(old(self)@, identity_key_spec(identity@)) is None ==> {
                &&& !old(self)@.dom().contains(r.player_id.0)
                &&& r@ == new_account_model(r.player_id.0, identity@)
                &&& final(self)@ == old(self)@.insert(r.player_id.0, r@)
            },
    {
        proof {
            use_type_invariant(&*self);
        }
        let fresh = rand_player_id();
        self.find_or_create_with_id(identity, fresh)
    }

    /// Adds `identity` to the account `player_id`. Refused with
    /// `IdentityConflict` when a different account owns it, with `NotFound`
    /// when the account does not exist.
    pub fn link_identity(&mut self, player_id: PlayerId, identity: Identity) -> (r: Result<
        (),
        StoreError,
    >)
        ensures
            store_wf(old(self)@),
            store_wf(final(self)@),
            (r, final(self)@) == link_spec(old(self)@, player_id.0, identity@),
    {
        proof {
            use_type_invariant(&*self);
        }
        if let Some(other) = self.lookup_by_identity(&identity) {
            if other.player_id.0 != player_id.0 {
                return Err(StoreError::IdentityConflict);
            }
            return Ok(());
        }
        let ghost m = self@;
        let ghost id = identity@;
        let pid = player_id.0;
        match self.accounts.get(&pid) {
            None => Err(StoreError::NotFound),
            Some(a) => {
                assert(self.accounts@.contains_key(pid));
                assert(m.dom().contains(pid));
                let mut b = a.duplicate();
                let ghost before = b.identities@;
                b.identities.push(identity);
                assert(identity_models(b.identities@) =~= identity_models(before).push(id));
                assert(b@ == with_identity(m[pid], id));
                let mut accounts: HashMap<u64, Account> = HashMap::new();
                std::mem::swap(&mut accounts, &mut self.accounts);
                accounts.insert(pid, b);
                assert(model_of(accounts) =~= m.insert(pid, with_identity(m[pid], id)));
                proof {
                    let n = model_of(accounts);
                    let k0 = identity_key_spec(id);
                    assert(m[pid].player_id == pid);
                    assert forall|p: u64| #[trigger] n.dom().contains(p) implies n[p].player_id
                        == p by {
                        if p != pid {
                            assert(m.dom().contains(p));
                        }
                    }
                    assert forall|p: u64, q: u64, k: IdentityKeySpec|
                        n.dom().contains(p) && n.dom().contains(q) && #[trigger] has_key(n[p], k)
                            && #[trigger] has_key(n[q], k) implies p == q by {
                        lemma_with_identity_keys(m[pid], id, k);
                        if p != q && (p == pid || q == pid) {
                            let o = if p == pid { q } else { p };
                            if k == k0 {
                                assert(m.dom().contains(o) && has_key(m[o], k0));
                            } else {
                                assert(has_key(m[p], k) && has_key(m[q], k));
                            }
                        }
                    }
                }
                self.accounts = accounts;
                Ok(())
            },
        }
    }

    /// Unlinking by row id: this store keeps no row ids, so it only checks
    /// that the account exists and leaves it as it is.
    pub fn unlink_identity(&self, player_id: PlayerId, identity_id: &str) -> (r: Result<
        (),
        StoreError,
    >)
        ensures
            self@.dom().contains(player_id.0) <==> r is Ok,
            !self@.dom().contains(player_id.0) <==> r matches Err(StoreError::NotFound),
    {
        let _ = identity_id;
        if self.accounts.contains_key(&player_id.0) {
            Ok(())
        } else {
            Err(StoreError::NotFound)
        }
    }

    /// Patches the profile fields of `player_id`: each `Some` replaces its
    /// field, each `None` leaves it. Returns the updated account.
    pub fn update_profile(
        &mut self,
        player_id: PlayerId,
        preferred_name: Option<String>,
        pronouns: Option<String>,
        bio: Option<String>,
        prefs: Option<Preferences>,
    ) -> (r: Result<Account, StoreError>)
        ensures
            store_wf(old(self)@),
            store_wf(final(self)@),
            !old(self)@.dom().contains(player_id.0) ==> (r matches Err(StoreError::NotFound)
                && final(self)@ == old(self)@),
            old(self)@.dom().contains(player_id.0) ==> {
                let a = patched(
                    old(self)@[player_id.0],
                    opt_text(preferred_name),
                    opt_text(pronouns),
                    opt_text(bio),
                    opt_prefs(prefs),
                );
                &&& r matches Ok(x) && x@ == a
                &&& final(self)@ == old(self)@.insert(player_id.0, a)
            },
    {
        proof {
            use_type_invariant(&*self);
        }
        let ghost m = self@;
        let pid = player_id.0;
        let ghost target = patched(
            m[pid],
            opt_text(preferred_name),
            opt_text(pronouns),
            opt_text(bio),
            opt_prefs(prefs),
        );
        match self.accounts.get(&pid) {
            None => Err(StoreError::NotFound),
            Some(a) => {
                assert(self.accounts@.contains_key(pid));
                assert(m.dom().contains(pid));
                let mut b = a.duplicate();
                if let Some(v) = preferred_name {
                    b.preferred_name = v;
                }
                if let Some(v) = pronouns {
                    b.pronouns = v;
                }
                if let Some(v) = bio {
                    b.bio = v;
                }
                if let Some(v) = prefs {
                    b.prefs = v;
                }
                assert(b@ == target);
                let out = b.duplicate();
                let mut accounts: HashMap<u64, Account> = HashMap::new();
                std::mem::swap(&mut accounts, &mut self.accounts);
                accounts.insert(pid, b);
                assert(model_of(accounts) =~= m.insert(pid, target));
                proof {
                    let n = model_of(accounts);
                    assert(m[pid].player_id == pid);
                    assert forall|p: u64| #[trigger] n.dom().contains(p) implies n[p].player_id
                        == p by {
                        if p != pid {
                            assert(m.dom().contains(p));
                        }
                    }
                    assert forall|p: u64, q: u64, k: IdentityKeySpec|
                        n.dom().contains(p) && n.dom().contains(q) && #[trigger] has_key(n[p], k)
                            && #[trigger] has_key(n[q], k) implies p == q by {
                        assert(has_key(m[p], k) && has_key(m[q], k));
                    }
                }
                self.accounts = accounts;
                Ok(out)
            },
        }
    }

    /// Hard delete of an account and everything linked to it.
    pub fn delete_account(&mut self, player_id: PlayerId) -> (r: Result<(), StoreError>)
        ensures
            store_wf(old(self)@),
            store_wf(final(self)@),
            old(self)@.dom().contains(player_id.0) ==> r is Ok && final(self)@ == old(
                self,
            )@.remove(player_id.0),
            !old(self)@.dom().contains(player_id.0) ==> (r matches Err(StoreError::NotFound)
                && final(self)@ == old(self)@),
    {
        proof {
            use_type_invariant(&*self);
        }
        let ghost m = self@;
        let mut accounts: HashMap<u64, Account> = HashMap::new();
        std::mem::swap(&mut accounts, &mut self.accounts);
        let removed = accounts.remove(&player_id.0);
        match removed {
            Some(_) => {
                assert(model_of(accounts) =~= m.remove(player_id.0));
                proof {
                    let n = model_of(accounts);
                    assert forall|p: u64, q: u64, k: IdentityKeySpec|
                        n.dom().contains(p) && n.dom().contains(q) && #[trigger] has_key(n[p], k)
                            && #[trigger] has_key(n[q], k) implies p == q by {
                        assert(has_key(m[p], k) && has_key(m[q], k));
                    }
                }
                self.accounts = accounts;
                Ok(())
            },
            None => {
                assert(model_of(accounts) =~= m);
                self.accounts = accounts;
                Err(StoreError::NotFound)
            },
        }
    }
}

impl Default for MemAccountStore {
    fn default() -> (s: Self)
        ensures
            store_wf(s@),
            s@ == Map::<u64, AccountModel>::empty(),
    {
        MemAccountStore::new()
    }
}

// ───────────────────────────── laws ────────────────────────────────────────
/// The player ids below `j`.
spec fn ids_below(j: int) -> Set<u64> {
    Set::new(|k: u64| (k as int) < j)
}

proof fn lemma_ids_below(j: int)
    requires
        0 <= j <= 0x1_0000_0000_0000_0000,
    ensures
        ids_below(j).finite(),
        ids_below(j).len() == j,
    decreases j,
{
    if j == 0 {
        assert(ids_below(0) =~= Set::<u64>::empty());
    } else {
        lemma_ids_below(j - 1);
        assert(ids_below(j) =~= ids_below(j - 1).insert((j - 1) as u64));
    }
}


proof fn lemma_create_keeps_wf(m: Map<u64, AccountModel>, id: IdentityModel, fresh: u64)
    requires
        store_wf(m),
        spec_lookup(m, identity_key_spec(id)) is None,
    ensures
        store_wf(m.insert(fresh, new_account_model(fresh, id))),
{
    let n = m.insert(fresh, new_account_model(fresh, id));
    let k0 = identity_key_spec(id);
    assert forall|p: u64| #[trigger] n.dom().contains(p) implies n[p].player_id == p by {
        if p != fresh {
            assert(m.dom().contains(p));
        }
    }
    assert forall|p: u64, q: u64, k: IdentityKeySpec|
        n.dom().contains(p) && n.dom().contains(q) && #[trigger] has_key(n[p], k)
            && #[trigger] has_key(n[q], k) implies p == q by {
        if p == fresh || q == fresh {
            lemma_new_account_keys(fresh, id, k);
            if p != q {
                let o = if p == fresh { q } else { p };
                assert(m.dom().contains(o) && has_key(m[o], k0));
            }
        } else {
            assert(has_key(m[p], k) && has_key(m[q], k));
        }
    }
}

/// Read after write: once sign-in has landed on an account, looking the
/// identity up finds that account.
pub proof fn lemma_find_or_create_then_lookup(m: Map<u64, AccountModel>, id: IdentityModel, fresh: u64)
    requires
        store_wf(m),
    ensures
        store_wf(find_or_create_spec(m, id, fresh).1),
        spec_lookup(find_or_create_spec(m, id, fresh).1, identity_key_spec(id)) == Some(
            find_or_create_spec(m, id, fresh).0,
        ),
{
    let k = identity_key_spec(id);
    if spec_lookup(m, k) is None {
        lemma_create_keeps_wf(m, id, fresh);
        let n = m.insert(fresh, new_account_model(fresh, id));
        lemma_new_account_keys(fresh, id, k);
        lemma_lookup_owner(n, fresh, k);
    }
}

/// Sign-in is idempotent: landing twice with the same identity gives the
/// same account, and the second landing changes nothing, whatever fresh id
/// it draws.
pub proof fn lemma_find_or_create_idempotent(
    m: Map<u64, AccountModel>,
    id: IdentityModel,
    fresh1: u64,
    fresh2: u64,
)
    requires
        store_wf(m),
    ensures
        find_or_create_spec(find_or_create_spec(m, id, fresh1).1, id, fresh2) == find_or_create_spec(
            m,
            id,
            fresh1,
        ),
{
    lemma_find_or_create_then_lookup(m, id, fresh1);
}

/// An identity that landed on one account cannot be linked to any other:
/// the link is refused with `IdentityConflict` and the store is unchanged.
pub proof fn lemma_link_elsewhere_conflicts(
    m: Map<u64, AccountModel>,
    id: IdentityModel,
    fresh: u64,
    other: u64,
)
    requires
        store_wf(m),
        other != find_or_create_spec(m, id, fresh).0.player_id,
    ensures
        link_spec(find_or_create_spec(m, id, fresh).1, other, id) == (
            Err::<(), StoreError>(StoreError::IdentityConflict),
            find_or_create_spec(m, id, fresh).1,
        ),
{
    lemma_find_or_create_then_lookup(m, id, fresh);
}

/// Two sign-ups with different identities land on different accounts, so
/// linking the first identity to the second account is refused with
/// `IdentityConflict`, as long as each new account gets an id that was free.
pub proof fn lemma_signups_then_cross_link_conflicts(
    m: Map<u64, AccountModel>,
    alice: IdentityModel,
    bob: IdentityModel,
    fresh_a: u64,
    fresh_b: u64,
)
    requires
        store_wf(m),
        spec_lookup(m, identity_key_spec(alice)) is None,
        spec_lookup(m, identity_key_spec(bob)) is None,
        identity_key_spec(alice) != identity_key_spec(bob),
        !m.dom().contains(fresh_a),
        !find_or_create_spec(m, alice, fresh_a).1.dom().contains(fresh_b),
    ensures
        ({
            let m1 = find_or_create_spec(m, alice, fresh_a).1;
            let (b, m2) = find_or_create_spec(m1, bob, fresh_b);
            &&& b.player_id == fresh_b
            &&& b.player_id != find_or_create_spec(m, alice, fresh_a).0.player_id
            &&& link_spec(m2, b.player_id, alice).0 == Err::<(), StoreError>(
                StoreError::IdentityConflict,
            )
        }),
{
    let ka = identity_key_spec(alice);
    let kb = identity_key_spec(bob);
    let m1 = m.insert(fresh_a, new_account_model(fresh_a, alice));
    lemma_find_or_create_then_lookup(m, alice, fresh_a);
    assert(find_or_create_spec(m, alice, fresh_a).1 == m1);
    if exists|p: u64| m1.dom().contains(p) && #[trigger] has_key(m1[p], kb) {
        let p = choose|p: u64| m1.dom().contains(p) && #[trigger] has_key(m1[p], kb);
        lemma_new_account_keys(fresh_a, alice, kb);
        if p != fresh_a {
            assert(m.dom().contains(p) && has_key(m[p], kb));
        }
    }
    assert(spec_lookup(m1, kb) is None);
    let m2 = m1.insert(fresh_b, new_account_model(fresh_b, bob));
    lemma_find_or_create_then_lookup(m1, bob, fresh_b);
    lemma_new_account_keys(fresh_a, alice, ka);
    assert(m2[fresh_a] == m1[fresh_a]);
    lemma_lookup_owner(m2, fresh_a, ka);
}

/// After a successful link, looking the identity up finds the account it was
/// linked to.
pub proof fn lemma_link_then_lookup(m: Map<u64, AccountModel>, pid: u64, id: IdentityModel)
    requires
        store_wf(m),
        link_spec(m, pid, id).0 is Ok,
    ensures
        store_wf(link_spec(m, pid, id).1),
        spec_lookup(link_spec(m, pid, id).1, identity_key_spec(id)) matches Some(a)
            && a.player_id == pid,
{
    let k = identity_key_spec(id);
    match spec_lookup(m, k) {
        Some(a) => {
            let p = choose|p: u64| m.dom().contains(p) && #[trigger] has_key(m[p], k);
            assert(m[p].player_id == p);
        },
        None => {
            let n = m.insert(pid, with_identity(m[pid], id));
            assert(m[pid].player_id == pid);
            assert forall|p: u64| #[trigger] n.dom().contains(p) implies n[p].player_id == p by {
                if p != pid {
                    assert(m.dom().contains(p));
                }
            }
            assert forall|p: u64, q: u64, k2: IdentityKeySpec|
                n.dom().contains(p) && n.dom().contains(q) && #[trigger] has_key(n[p], k2)
                    && #[trigger] has_key(n[q], k2) implies p == q by {
                lemma_with_identity_keys(m[pid], id, k2);
                if p != q && (p == pid || q == pid) {
                    let o = if p == pid { q } else { p };
                    if k2 == k {
                        assert(m.dom().contains(o) && has_key(m[o], k));
                    } else {
                        assert(has_key(m[p], k2) && has_key(m[q], k2));
                    }
                } else if p != q {
                    assert(has_key(m[p], k2) && has_key(m[q], k2));
                }
            }
            lemma_with_identity_keys(m[pid], id, k);
            lemma_lookup_owner(n, pid, k);
        },
    }
}

/// Deleting an account forgets its identities: none of them finds an
/// account any more.
pub proof fn lemma_delete_forgets_identities(m: Map<u64, AccountModel>, pid: u64, k: IdentityKeySpec)
    requires
        store_wf(m),
        m.dom().contains(pid),
        has_key(m[pid], k),
    ensures
        spec_lookup(m.remove(pid), k) is None,
{
    let n = m.remove(pid);
    if exists|p: u64| n.dom().contains(p) && #[trigger] has_key(n[p], k) {
        let p = choose|p: u64| n.dom().contains(p) && #[trigger] has_key(n[p], k);
        assert(has_key(m[p], k) && has_key(m[pid], k));
    }
}

/// A profile patch sets each field it is given and leaves the others, and
/// never touches the player id or the identities.
pub proof fn lemma_patch_keeps_identities(
    a: AccountModel,
    preferred_name: Option<Seq<char>>,
    pronouns: Option<Seq<char>>,
    bio: Option<Seq<char>>,
    prefs: Option<PreferencesModel>,
)
    ensures
        patched(a, preferred_name, pronouns, bio, prefs).player_id == a.player_id,
        patched(a, preferred_name, pronouns, bio, prefs).identities == a.identities,
        patched(a, None, None, None, None) == a,
        preferred_name matches Some(v) ==> patched(a, preferred_name, pronouns, bio, prefs).preferred_name
            == v,
        pronouns matches Some(v) ==> patched(a, preferred_name, pronouns, bio, prefs).pronouns == v,
        bio matches Some(v) ==> patched(a, preferred_name, pronouns, bio, prefs).bio == v,
        prefs matches Some(v) ==> patched(a, preferred_name, pronouns, bio, prefs).prefs == v,
        preferred_name is None ==> patched(a, preferred_name, pronouns, bio, prefs).preferred_name
            == a.preferred_name,
        pronouns is None ==> patched(a, preferred_name, pronouns, bio, prefs).pronouns
            == a.pronouns,
        bio is None ==> patched(a, preferred_name, pronouns, bio, prefs).bio == a.bio,
        prefs is None ==> patched(a, preferred_name, pronouns, bio, prefs).prefs == a.prefs,
{
}

} // verus!
