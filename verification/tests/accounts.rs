use open4x::mailer::{LogMailer, Mailer, MailerError, SmtpMailer};
use open4x::mem_store::MemAccountStore;
use open4x::model::{Account, Identity, PlayerId, Preferences};
use open4x::store::{
    draw_player_id, identity_flags, identity_key, is_unique_violation, link_identity_outcome,
    new_identity_row, parse_player_id_text, player_id_text, row_to_identity,
    rows_affected_outcome, rows_to_identities, IdentityRow, StoreError,
};

fn email(address: &str) -> Identity {
    Identity::Email { address: address.into(), verified: false, primary: true }
}

#[test]
fn find_or_create_is_idempotent() {
    let mut store = MemAccountStore::default();
    let id = email("alice@example.com");
    let a = store.find_or_create_account_for_identity(id.clone());
    let b = store.find_or_create_account_for_identity(id);
    assert_eq!(a.player_id, b.player_id);
}

#[test]
fn link_identity_rejects_cross_account_dup() {
    let mut store = MemAccountStore::default();
    let alice = email("alice@example.com");
    let bob = email("bob@example.com");
    let _a = store.find_or_create_account_for_identity(alice.clone());
    let b = store.find_or_create_account_for_identity(bob);
    let err = store.link_identity(b.player_id, alice).unwrap_err();
    assert!(matches!(err, StoreError::IdentityConflict));
}

#[test]
fn fresh_account_has_only_its_identity() {
    let mut store = MemAccountStore::new();
    let a = store.find_or_create_with_id(email("carol@example.com"), 7);
    assert_eq!(a.player_id, PlayerId(7));
    assert_eq!(a.identities, vec![email("carol@example.com")]);
    assert_eq!(a.preferred_name, "");
    assert_eq!(a.prefs, Preferences::default());
    // A second landing with another fresh id still returns account 7.
    let again = store.find_or_create_with_id(email("carol@example.com"), 9);
    assert_eq!(again.player_id, PlayerId(7));
}

#[test]
fn email_identities_match_case_insensitively() {
    let mut store = MemAccountStore::new();
    let a = store.find_or_create_with_id(email("Dave@Example.com"), 1);
    let found = store.lookup_by_identity(&email("dave@example.COM")).unwrap();
    assert_eq!(found.player_id, a.player_id);
}

#[test]
fn link_then_lookup_finds_the_account() {
    let mut store = MemAccountStore::new();
    let a = store.find_or_create_with_id(email("erin@example.com"), 11);
    let oidc = Identity::OpenId {
        issuer: "https://accounts.google.com".into(),
        subject: "110293".into(),
        label: "Google".into(),
    };
    store.link_identity(a.player_id, oidc.clone()).unwrap();
    let found = store.lookup_by_identity(&oidc).unwrap();
    assert_eq!(found.player_id, PlayerId(11));
    assert_eq!(found.identities.len(), 2);
    // Linking it again to the same account is a no-op.
    store.link_identity(a.player_id, oidc).unwrap();
    assert_eq!(store.lookup_by_identity(&email("erin@example.com")).unwrap().identities.len(), 2);
}

#[test]
fn link_to_unknown_account_is_not_found() {
    let mut store = MemAccountStore::new();
    let err = store.link_identity(PlayerId(42), email("frank@example.com")).unwrap_err();
    assert!(matches!(err, StoreError::NotFound));
    assert!(store.lookup_by_identity(&email("frank@example.com")).is_none());
}

#[test]
fn update_profile_patches_only_given_fields() {
    let mut store = MemAccountStore::new();
    let a = store.find_or_create_with_id(email("gina@example.com"), 3);
    let updated = store
        .update_profile(a.player_id, Some("Gina".into()), None, Some("hello".into()), None)
        .unwrap();
    assert_eq!(updated.preferred_name, "Gina");
    assert_eq!(updated.pronouns, "");
    assert_eq!(updated.bio, "hello");
    let again = store
        .update_profile(a.player_id, None, Some("she/her".into()), None, None)
        .unwrap();
    assert_eq!(again.preferred_name, "Gina");
    assert_eq!(again.pronouns, "she/her");
    assert_eq!(again.identities, vec![email("gina@example.com")]);
    let missing = store.update_profile(PlayerId(99), None, None, None, None);
    assert!(matches!(missing, Err(StoreError::NotFound)));
}

#[test]
fn delete_account_forgets_identities() {
    let mut store = MemAccountStore::new();
    let a = store.find_or_create_with_id(email("hank@example.com"), 5);
    store.delete_account(a.player_id).unwrap();
    assert!(store.lookup_by_identity(&email("hank@example.com")).is_none());
    assert!(matches!(store.delete_account(a.player_id), Err(StoreError::NotFound)));
    assert!(matches!(store.unlink_identity(a.player_id, "x"), Err(StoreError::NotFound)));
}

#[test]
fn unlink_identity_checks_account() {
    let mut store = MemAccountStore::new();
    let a = store.find_or_create_with_id(email("ivy@example.com"), 8);
    assert!(store.unlink_identity(a.player_id, "whatever").is_ok());
}

#[test]
fn player_id_text_is_sixteen_upper_hex_digits() {
    assert_eq!(player_id_text(&PlayerId(0)), "0000000000000000");
    assert_eq!(player_id_text(&PlayerId(0xA9C3_7F12_EE04)), "0000A9C37F12EE04");
    assert_eq!(player_id_text(&PlayerId(u64::MAX)), "FFFFFFFFFFFFFFFF");
    assert_eq!(PlayerId(255).display(), "00000000000000FF");
}

#[test]
fn player_id_text_roundtrips() {
    for raw in [0u64, 1, 0xDEAD_BEEF, u64::MAX, 1 << 63] {
        let text = player_id_text(&PlayerId(raw));
        assert_eq!(parse_player_id_text(&text).unwrap(), PlayerId(raw));
    }
}

#[test]
fn parse_player_id_text_follows_from_str_radix() {
    assert_eq!(parse_player_id_text("ff").unwrap(), PlayerId(255));
    assert_eq!(parse_player_id_text("+Ff").unwrap(), PlayerId(255));
    assert_eq!(parse_player_id_text("FFFFFFFFFFFFFFFF").unwrap(), PlayerId(u64::MAX));
    for bad in ["", "+", "-1", "0x10", "g", "10000000000000000", " 1"] {
        match parse_player_id_text(bad) {
            Err(StoreError::Invalid(what)) => assert_eq!(what, "player_id"),
            other => panic!("{bad:?} gave {other:?}"),
        }
        assert_eq!(u64::from_str_radix(bad, 16).is_err(), true);
    }
}

#[test]
fn identity_keys() {
    let (kind, key) = identity_key(&email("Alice@Example.com"));
    assert_eq!((kind, key.as_str()), ("email", "alice@example.com"));
    let oidc = Identity::OpenId { issuer: "iss".into(), subject: "sub".into(), label: "L".into() };
    let (kind, key) = identity_key(&oidc);
    assert_eq!((kind, key.as_str()), ("oidc", "iss|sub"));
    let at = Identity::Atproto { did: "did:plc:abcd".into(), handle: "alice.bsky.social".into() };
    let (kind, key) = identity_key(&at);
    assert_eq!((kind, key.as_str()), ("atproto", "did:plc:abcd"));
    assert_eq!(at.label(), "alice.bsky.social");
    assert_eq!(oidc.label(), "L");
}

#[test]
fn identity_flags_for_rows() {
    let e = Identity::Email { address: "a@b".into(), verified: true, primary: false };
    assert_eq!(identity_flags(&e), (0, 1));
    let e2 = Identity::Email { address: "a@b".into(), verified: false, primary: true };
    assert_eq!(identity_flags(&e2), (1, 0));
    let at = Identity::Atproto { did: "d".into(), handle: "h".into() };
    assert_eq!(identity_flags(&at), (0, 1));
}

fn row(kind: &str, pk: &str, label: &str, is_primary: i64, verified: i64) -> IdentityRow {
    IdentityRow {
        id: "01H".into(),
        player_id: "0000000000000001".into(),
        kind: kind.into(),
        primary_key: pk.into(),
        label: label.into(),
        is_primary,
        verified,
    }
}

#[test]
fn rows_become_identities() {
    assert_eq!(
        row_to_identity(&row("email", "a@b.c", "a@b.c", 1, 0)),
        Identity::Email { address: "a@b.c".into(), verified: false, primary: true }
    );
    assert_eq!(
        row_to_identity(&row("oidc", "iss|sub|x", "G", 0, 1)),
        Identity::OpenId { issuer: "iss".into(), subject: "sub|x".into(), label: "G".into() }
    );
    assert_eq!(
        row_to_identity(&row("oidc", "nobar", "G", 0, 1)),
        Identity::OpenId { issuer: "nobar".into(), subject: "".into(), label: "G".into() }
    );
    assert_eq!(
        row_to_identity(&row("atproto", "did:x", "h", 0, 1)),
        Identity::Atproto { did: "did:x".into(), handle: "h".into() }
    );
    assert_eq!(
        row_to_identity(&row("weird", "k", "l", 0, 7)),
        Identity::Email { address: "k".into(), verified: true, primary: false }
    );
    let all = rows_to_identities(&vec![row("atproto", "d", "h", 0, 1), row("email", "e", "e", 0, 0)]);
    assert_eq!(all.len(), 2);
    assert_eq!(all[0], Identity::Atproto { did: "d".into(), handle: "h".into() });
}

#[test]
fn stored_identity_rows_read_back() {
    let ids = vec![
        Identity::Email { address: "x@y.z".into(), verified: true, primary: true },
        Identity::OpenId { issuer: "https://gitlab.com".into(), subject: "42".into(), label: "GitLab".into() },
        Identity::Atproto { did: "did:plc:1".into(), handle: "me.example".into() },
    ];
    for id in ids {
        let r = new_identity_row("01J".into(), "00000000000000AA".into(), &id);
        assert_eq!(r.player_id, "00000000000000AA");
        assert_eq!(row_to_identity(&r), id);
    }
    // Upper-case addresses are stored lower-cased, so they come back changed.
    let upper = Identity::Email { address: "X@Y.Z".into(), verified: false, primary: false };
    let r = new_identity_row("01J".into(), "1".into(), &upper);
    assert_eq!(r.primary_key, "x@y.z");
    assert_ne!(row_to_identity(&r), upper);
}

#[test]
fn unique_violations() {
    assert!(is_unique_violation(Some("2067"), "constraint failed"));
    assert!(is_unique_violation(Some("1555"), ""));
    assert!(is_unique_violation(None, "UNIQUE constraint failed: identities.kind"));
    assert!(!is_unique_violation(Some("19"), "NOT NULL constraint failed"));
    assert!(!is_unique_violation(None, "unique"));
}

#[test]
fn storage_outcomes() {
    assert!(link_identity_outcome(Ok(()), false).is_ok());
    assert!(matches!(
        link_identity_outcome(Err(StoreError::Sqlx("x".into())), true),
        Err(StoreError::IdentityConflict)
    ));
    match link_identity_outcome(Err(StoreError::Sqlx("disk".into())), false) {
        Err(StoreError::Sqlx(m)) => assert_eq!(m, "disk"),
        other => panic!("{other:?}"),
    }
    assert!(matches!(rows_affected_outcome(0), Err(StoreError::NotFound)));
    assert!(rows_affected_outcome(3).is_ok());
}

#[test]
fn store_error_messages() {
    assert_eq!(StoreError::NotFound.message(), "account not found");
    assert_eq!(
        StoreError::IdentityConflict.message(),
        "identity already linked to a different account"
    );
    assert_eq!(StoreError::Invalid("player_id").message(), "invalid input: player_id");
    assert_eq!(StoreError::Sqlx("boom".into()).message(), "storage backend: boom");
    assert_eq!(StoreError::Migrate("m".into()).message(), "migration: m");
    assert_eq!(StoreError::Serde("s".into()).message(), "serialization: s");
}

#[test]
fn account_default_is_empty() {
    let a = Account::default();
    assert_eq!(a.player_id, PlayerId(0));
    assert!(a.identities.is_empty());
    assert_eq!(a.prefs.density, "");
    assert!(!a.prefs.keyboard_nav);
}

#[test]
fn smtp_mailer_is_not_configured() {
    let m = SmtpMailer;
    assert!(matches!(m.send_magic_link("a@b.c", "https://x"), Err(MailerError::NotConfigured)));
    assert!(matches!(m.send_raw("a@b.c", "s", "b"), Err(MailerError::NotConfigured)));
    assert_eq!(
        MailerError::NotConfigured.message(),
        "backend not configured (build with --features mailer-smtp)"
    );
    assert_eq!(MailerError::Transport("t".into()).message(), "transport error: t");
    assert_eq!(MailerError::Recipient("r".into()).message(), "invalid recipient: r");
}

#[test]
fn log_mailer_lines() {
    let m = LogMailer;
    assert_eq!(
        m.magic_link_log("alice@example.com", "https://lobby.test/verify?t=abc"),
        "[magic-link] to=alice@example.com link=https://lobby.test/verify?t=abc"
    );
    assert_eq!(
        m.raw_mail_log("alice@example.com", "Welcome", "Hi!\nPlease sign in."),
        vec![
            "[mail] to=alice@example.com subject=\"Welcome\"".to_string(),
            "[mail]   Hi!".to_string(),
            "[mail]   Please sign in.".to_string(),
        ]
    );
    assert_eq!(m.raw_mail_log("a", "q\"t", "").len(), 1);
    assert_eq!(m.raw_mail_log("a", "q\"t", "")[0], "[mail] to=a subject=\"q\\\"t\"");
}

#[test]
fn new_accounts_never_replace_existing_ones() {
    let mut store = MemAccountStore::new();
    let carol = store.find_or_create_with_id(email("carol@example.com"), 7);
    assert_eq!(carol.player_id, PlayerId(7));
    // The suggested id is taken: the smallest free id is used instead.
    let dan = store.find_or_create_with_id(email("dan@example.com"), 7);
    assert_eq!(dan.player_id, PlayerId(0));
    let eve = store.find_or_create_with_id(email("eve@example.com"), 0);
    assert_eq!(eve.player_id, PlayerId(1));
    assert_eq!(store.unused_player_id(7), 2);
    assert_eq!(store.unused_player_id(40), 40);
    for (who, pid) in [("carol@example.com", 7), ("dan@example.com", 0), ("eve@example.com", 1)] {
        assert_eq!(store.lookup_by_identity(&email(who)).unwrap().player_id, PlayerId(pid));
    }
    // Linking carol's address to dan's account is refused.
    assert!(matches!(
        store.link_identity(dan.player_id, email("carol@example.com")),
        Err(StoreError::IdentityConflict)
    ));
}

#[test]
fn drawn_player_ids_vary() {
    let a = draw_player_id();
    let b = draw_player_id();
    let c = draw_player_id();
    assert!(a != b || b != c);
}

struct Recorder(std::cell::RefCell<Vec<(String, String)>>);

impl Mailer for Recorder {
    fn send_magic_link(&self, email: &str, link: &str) -> Result<(), MailerError> {
        self.0.borrow_mut().push((email.to_string(), link.to_string()));
        Ok(())
    }
}

#[test]
fn default_send_raw_forwards_magic_links() {
    let m = Recorder(std::cell::RefCell::new(Vec::new()));
    assert!(m.send_raw("alice@example.com", "Your magic link", "https://lobby.test/v?t=1").is_ok());
    assert_eq!(
        m.0.borrow().clone(),
        vec![("alice@example.com".to_string(), "https://lobby.test/v?t=1".to_string())]
    );
    assert!(matches!(m.send_raw("alice@example.com", "Welcome", "hi"), Err(MailerError::NotConfigured)));
    assert!(matches!(m.send_raw("a", "Magic Link", "x"), Err(MailerError::NotConfigured)));
    assert_eq!(m.0.borrow().len(), 1);
    assert!(matches!(SmtpMailer.send_raw("a", "magic link", "x"), Err(MailerError::NotConfigured)));
}

#[test]
fn stored_identities_reload_under_the_same_key() {
    let ids = [
        email("Dave@Example.COM"),
        Identity::OpenId { issuer: "https://a|b".into(), subject: "s|t".into(), label: "L".into() },
        Identity::OpenId { issuer: "https://accounts.google.com".into(), subject: "".into(), label: "".into() },
        Identity::Atproto { did: "did:plc:x".into(), handle: "x.bsky.social".into() },
    ];
    for id in ids {
        let row = new_identity_row("r".into(), "p".into(), &id);
        let back = row_to_identity(&row);
        assert_eq!(identity_key(&back), identity_key(&id));
    }
    assert_eq!(identity_key(&email("Dave@Example.COM")).1, "dave@example.com");
    assert_eq!(identity_key(&email("dave@example.com")), identity_key(&email("DAVE@EXAMPLE.com")));
}

#[test]
fn log_mailer_line_splitting() {
    let m = LogMailer;
    assert_eq!(
        m.raw_mail_log("a", "s", "x\r\ny\r"),
        vec!["[mail] to=a subject=\"s\"".to_string(), "[mail]   x".to_string(), "[mail]   y\r".to_string()]
    );
    assert_eq!(m.raw_mail_log("a", "s", "x\n").len(), 2);
    assert_eq!(m.raw_mail_log("a", "s", "\n").len(), 2);
    assert_eq!(m.raw_mail_log("a", "s", "\n")[1], "[mail]   ");
    assert_eq!(m.raw_mail_log("a", "s", "a\n\nb").len(), 4);
}

#[test]
fn get_by_player_id_reads_the_stored_account() {
    let mut store = MemAccountStore::new();
    assert!(store.get_by_player_id(PlayerId(5)).is_none());
    let a = store.find_or_create_with_id(email("fay@example.com"), 5);
    let got = store.get_by_player_id(PlayerId(5)).unwrap();
    assert_eq!(got.player_id, a.player_id);
    assert_eq!(got.identities, vec![email("fay@example.com")]);
    store.delete_account(PlayerId(5)).unwrap();
    assert!(store.get_by_player_id(PlayerId(5)).is_none());
}
