use open4x::api_auth::{email_start, signout};
use open4x::api_games::{create, delete_game, list, resume, CreateGameBody as ClientCreateGameBody};
use open4x::api_me::{delete_me, get, patch, start_verify_identity, unlink_identity, upload_outcome, PatchMeBody as ClientPatch};
use open4x::games::{
    bootstrap_plan, bootstrap_request, check_create_body, created_reply, deleted_reply,
    game_access, get_one_reply, is_blank, list_reply, map_size_to_dims, new_game, parse_seed,
    resume_reply, server_binding, store_error_response, CreateGameBody, GameRecord, GameStatus,
    GameStoreError, GameView,
};
use open4x::me::{deleted_me_reply, me_reply, patched_reply, MeView};
use open4x::model::{Account, Identity, PlayerId, Preferences};
use open4x::orchestrator::{
    bootstrap_endpoint, finish_bootstrap, reply_outcome, BootstrappedGame, NewGameResponse,
    OrchestratorError,
};
use open4x::store::StoreError;
use open4x::ui::{
    awaiting_count, btn_class, needs_fetch, panel_class, parse_slider_value, step_class,
    step_counter, terrain_class, thumbnail_path, GameStatus as TileStatus, MenuTab, Screen, Step,
    ensure_fetched, finish_fetch, ThumbCell, ThumbnailCache, ThumbnailEntry, ThumbnailGrid,
    back_enabled, civ_card_style, footer_action, leader_initial, notif_tag, ongoing_summary,
    step_body, FooterAction, NavEvent, NavState, StepBody,
    civ_picks, lower_terrain_class,
};

fn body(name: &str, size: &str, seed: &str) -> CreateGameBody {
    CreateGameBody {
        name: name.into(),
        leader: "Saladin".into(),
        civ_id: "arabia".into(),
        difficulty: "prince".into(),
        players_human: 1,
        players_ai: 6,
        map_type: "continents".into(),
        map_size: size.into(),
        seed: seed.into(),
    }
}

fn record(owner: u64, url: &str, token: &str) -> GameRecord {
    GameRecord {
        game_id: "g_2049".into(),
        owner_player_id: PlayerId(owner),
        name: "Cradle of the Indus".into(),
        leader: "Saladin".into(),
        civ_id: "arabia".into(),
        difficulty: "prince".into(),
        players_human: 1,
        players_ai: 7,
        map_type: "continents".into(),
        map_size: "std".into(),
        seed: "0xCAFE".into(),
        turn: 142,
        era: "Medieval".into(),
        score: 814,
        status: GameStatus::YourTurn,
        server_url: url.into(),
        server_token: token.into(),
        last_played_at: None,
        created_at: "2024-01-01T00:00:00Z".into(),
    }
}

#[test]
fn map_sizes() {
    assert_eq!(map_size_to_dims("duel"), (44, 26));
    assert_eq!(map_size_to_dims("tiny"), (60, 38));
    assert_eq!(map_size_to_dims("small"), (74, 46));
    assert_eq!(map_size_to_dims("std"), (84, 54));
    assert_eq!(map_size_to_dims("large"), (96, 60));
    assert_eq!(map_size_to_dims("huge"), (106, 66));
    assert_eq!(map_size_to_dims("enormous"), (84, 54));
    assert_eq!(map_size_to_dims(""), (84, 54));
}

#[test]
fn seeds() {
    assert_eq!(parse_seed("0xCAFE·B33F·1A77"), Some(0x0CAFE_B33F_1A77));
    assert_eq!(parse_seed("no digits here? xyz"), Some(0xdee));
    assert_eq!(parse_seed("xyz"), None);
    assert_eq!(parse_seed(""), None);
    assert_eq!(parse_seed("ffffffffffffffff"), Some(u64::MAX));
    // Only the first 16 digits count.
    assert_eq!(parse_seed("123456789abcdef0123"), Some(0x1234_5678_9abc_def0));
}

#[test]
fn blank_names_are_refused() {
    assert!(is_blank(""));
    assert!(is_blank(" \t\n"));
    assert!(!is_blank(" a "));
    let e = check_create_body(&body("   ", "std", "")).unwrap_err();
    assert_eq!((e.status, e.error, e.message), (400, "name_required", None));
    assert!(check_create_body(&body("My game", "std", "")).is_ok());
}

#[test]
fn bootstrap_parameters() {
    let b = body("Long Winter", "large", "0x10");
    let req = bootstrap_request(&b);
    assert_eq!(req.display_name.as_deref(), Some("Long Winter"));
    assert_eq!((req.width, req.height), (Some(96), Some(60)));
    assert_eq!(req.seed, Some(16));
    assert_eq!(req.num_ai, Some(6));
    assert_eq!(req.turn_limit, None);
    assert!(bootstrap_plan("", &b).is_none());
    assert!(bootstrap_plan("http://localhost:3001", &b).is_some());
}

#[test]
fn server_binding_of_bootstrap_outcomes() {
    let ok = BootstrappedGame {
        server_url: "http://g".into(),
        server_token: "tok".into(),
        remote_game_id: "r".into(),
    };
    assert_eq!(server_binding(Some(Ok(ok))), ("http://g".to_string(), "tok".to_string()));
    assert_eq!(
        server_binding(Some(Err(OrchestratorError::Transport("down".into())))),
        (String::new(), String::new())
    );
    assert_eq!(server_binding(None), (String::new(), String::new()));
    let g = new_game(PlayerId(3), body("n", "std", "s"), "u".into(), "t".into());
    assert_eq!(g.owner_player_id, PlayerId(3));
    assert_eq!((g.server_url.as_str(), g.server_token.as_str()), ("u", "t"));
    assert_eq!(g.name, "n");
}

#[test]
fn game_view_hides_the_token() {
    let v = GameView::from(record(0xA9C3, "http://g", "secret"));
    assert_eq!(v.owner_player_id, "000000000000A9C3");
    assert_eq!(v.server_url, "http://g");
    assert_eq!(v.turn, 142);
    assert_eq!(v.status.as_str(), "your_turn");
    let (status, v) = created_reply(Ok(record(1, "", ""))).unwrap();
    assert_eq!(status, 201);
    assert_eq!(v.game_id, "g_2049");
}

#[test]
fn access_rules() {
    let mine = game_access(Ok(Some(record(1, "u", "t"))), PlayerId(1)).unwrap();
    assert_eq!(mine.game_id, "g_2049");
    let e = game_access(Ok(Some(record(1, "u", "t"))), PlayerId(2)).unwrap_err();
    assert_eq!((e.status, e.error), (403, "not_a_member"));
    let e = game_access(Ok(None), PlayerId(2)).unwrap_err();
    assert_eq!((e.status, e.error), (404, "game_not_found"));
    let e = get_one_reply(Err(GameStoreError::Sqlx("io".into())), PlayerId(2)).unwrap_err();
    assert_eq!((e.status, e.error), (500, "store_error"));
    assert_eq!(e.message.as_deref(), Some("storage backend: io"));
    assert!(get_one_reply(Ok(Some(record(2, "", ""))), PlayerId(2)).is_ok());
}

#[test]
fn store_errors_to_replies() {
    let e = store_error_response(GameStoreError::NotFound);
    assert_eq!((e.status, e.error), (404, "game_not_found"));
    let e = store_error_response(GameStoreError::Forbidden);
    assert_eq!((e.status, e.error), (403, "forbidden"));
    assert_eq!(deleted_reply(Ok(())).unwrap(), 204);
    assert_eq!(deleted_reply(Err(GameStoreError::Forbidden)).unwrap_err().status, 403);
    let listed = list_reply(Ok(vec![record(1, "", ""), record(1, "", "")])).unwrap();
    assert_eq!(listed.games.len(), 2);
    assert_eq!(list_reply(Err(GameStoreError::NotFound)).unwrap_err().status, 404);
}

#[test]
fn resume_needs_server_binding() {
    let e = resume_reply(record(1, "", "tok")).unwrap_err();
    assert_eq!((e.status, e.error), (503, "orchestrator_not_ready"));
    assert!(e.message.is_some());
    let e = resume_reply(record(1, "http://g", "")).unwrap_err();
    assert_eq!(e.status, 503);
    let r = resume_reply(record(1, "http://g", "tok")).unwrap();
    assert_eq!((r.url.as_str(), r.token.as_str()), ("http://g", "tok"));
}

#[test]
fn orchestrator_decisions() {
    let (base, url) = bootstrap_endpoint("http://localhost:3001//");
    assert_eq!(base, "http://localhost:3001");
    assert_eq!(url, "http://localhost:3001/api/v1/games/new");
    assert!(reply_outcome(200, String::new()).is_ok());
    match reply_outcome(502, "bad gateway".into()) {
        Err(e @ OrchestratorError::Server { .. }) => {
            assert_eq!(e.message(), "game-server returned 502: bad gateway")
        }
        other => panic!("{other:?}"),
    }
    let resp = |token: &str, game: &str| NewGameResponse {
        game_id: game.into(),
        civ_id: "c".into(),
        token: token.into(),
        turn: 1,
    };
    match finish_bootstrap("u".into(), resp("", "g")) {
        Err(OrchestratorError::BadResponse(f)) => assert_eq!(f, "token"),
        other => panic!("{other:?}"),
    }
    match finish_bootstrap("u".into(), resp("t", "")) {
        Err(e @ OrchestratorError::BadResponse(_)) => {
            assert_eq!(e.message(), "game-server response missing required field: game_id")
        }
        other => panic!("{other:?}"),
    }
    let b = finish_bootstrap("u".into(), resp("t", "g")).unwrap();
    assert_eq!((b.server_url.as_str(), b.server_token.as_str(), b.remote_game_id.as_str()), ("u", "t", "g"));
    assert_eq!(OrchestratorError::Transport("x".into()).message(), "game-server transport: x");
}

fn account() -> Account {
    Account {
        player_id: PlayerId(0xA9C3_7F12_EE04),
        preferred_name: "Alice".into(),
        pronouns: "she/her".into(),
        bio: "Plays slow.".into(),
        identities: vec![
            Identity::Email { address: "alice@example.com".into(), verified: true, primary: true },
            Identity::OpenId { issuer: "google.com".into(), subject: "110293".into(), label: "Google".into() },
            Identity::Atproto { did: "did:plc:abcd".into(), handle: "alice.bsky.social".into() },
        ],
        prefs: Preferences::default(),
    }
}

#[test]
fn me_view_shows_identities() {
    let v = MeView::from(account());
    assert_eq!(v.player_id, "0000A9C37F12EE04");
    assert_eq!(v.preferred_name, "Alice");
    assert_eq!(v.identities.len(), 3);
    let e = &v.identities[0];
    assert_eq!((e.kind, e.label.as_str(), e.primary_key.as_str()), ("email", "alice@example.com", "alice@example.com"));
    assert_eq!((e.verified, e.primary), (Some(true), Some(true)));
    let o = &v.identities[1];
    assert_eq!((o.kind, o.label.as_str(), o.primary_key.as_str()), ("oidc", "Google", "google.com|110293"));
    assert_eq!((o.verified, o.primary), (None, None));
    let a = &v.identities[2];
    assert_eq!((a.kind, a.label.as_str(), a.primary_key.as_str()), ("atproto", "alice.bsky.social", "did:plc:abcd"));
}

#[test]
fn me_replies() {
    assert!(me_reply(Ok(Some(account()))).is_ok());
    let e = me_reply(Ok(None)).unwrap_err();
    assert_eq!((e.status, e.error), (404, "account_not_found"));
    let e = me_reply(Err(StoreError::NotFound)).unwrap_err();
    assert_eq!((e.status, e.error, e.message.as_deref()), (500, "store_error", Some("account not found")));
    assert!(patched_reply(Ok(account())).is_ok());
    assert_eq!(patched_reply(Err(StoreError::Sqlx("x".into()))).unwrap_err().status, 500);
    assert_eq!(deleted_me_reply(Ok(())).unwrap(), 204);
    assert_eq!(deleted_me_reply(Err(StoreError::NotFound)).unwrap_err().status, 500);
}

#[test]
fn browser_bindings() {
    let (call, b) = email_start("a@b.c".into());
    assert_eq!((call.method, call.path.as_str(), b.email.as_str()), ("POST", "/api/v1/auth/email/start", "a@b.c"));
    assert_eq!(signout().path, "/api/v1/auth/signout");
    assert_eq!(list().method, "GET");
    let (c, _) = create(ClientCreateGameBody::default());
    assert_eq!((c.method, c.path.as_str()), ("POST", "/api/v1/games"));
    let d = delete_game("g1");
    assert_eq!((d.method, d.path.as_str()), ("DELETE", "/api/v1/games/g1"));
    assert_eq!(resume("g1").path, "/api/v1/games/g1/resume");
    assert_eq!(get().path, "/api/v1/me");
    assert_eq!(patch(ClientPatch::default()).0.method, "PATCH");
    assert_eq!(delete_me().method, "DELETE");
    assert_eq!(unlink_identity("i9").path, "/api/v1/me/identities/i9");
    assert_eq!(start_verify_identity("i9").path, "/api/v1/me/identities/i9/verify-start");
}

#[test]
fn avatar_upload_outcomes() {
    let e = upload_outcome(413, "too big".into()).unwrap_err();
    assert_eq!((e.status, e.code.as_str(), e.message.as_deref()), (413, "upload_failed", Some("too big")));
    assert_eq!(upload_outcome(200, "{\"avatar_url\":\"/a.png\"}".into()).unwrap(), "/a.png");
    assert_eq!(upload_outcome(201, "{}".into()).unwrap(), "");
    assert_eq!(upload_outcome(200, "{\"avatar_url\":3}".into()).unwrap(), "");
    let e = upload_outcome(200, "not json".into()).unwrap_err();
    assert_eq!((e.status, e.code.as_str()), (0, "transport"));
    assert!(e.message.unwrap().contains("expected"));
}

#[test]
fn wizard_steps() {
    assert_eq!(Step::all().len(), 5);
    assert_eq!(Step::MapParams.label(), "Map");
    assert_eq!(Step::MapParams.prev(), None);
    assert_eq!(Step::MapParams.next(), Some(Step::Civ));
    assert_eq!(Step::Review.next(), None);
    assert_eq!(Step::Review.prev(), Some(Step::Players));
    for s in Step::all() {
        if let Some(n) = s.next() {
            assert_eq!(n.prev(), Some(s));
            assert_eq!(n.idx(), s.idx() + 1);
        }
    }
}

#[test]
fn labels() {
    assert_eq!(Screen::Landing.label(), "01 Landing");
    assert_eq!(Screen::all().iter().map(|s| s.label()).collect::<Vec<_>>(), vec!["01 Landing", "02 Login", "03 Menu"]);
    assert_eq!(MenuTab::Ongoing.label(), "Ongoing games");
    assert_eq!(MenuTab::Ongoing.icon(), "▣");
    assert_eq!(MenuTab::Docs.icon(), "?");
}

#[test]
fn terrain_classes() {
    assert_eq!(terrain_class("Ocean"), "water");
    assert_eq!(terrain_class("Coast+Reef"), "water");
    assert_eq!(terrain_class("Grassland+Hills"), "land-self");
    assert_eq!(terrain_class("MOUNTAIN"), "land-self");
    assert_eq!(terrain_class("Plains"), "land");
    assert_eq!(terrain_class(""), "land");
}

#[test]
fn thumbnails() {
    assert!(needs_fetch("g1", false));
    assert!(!needs_fetch("g1", true));
    assert!(!needs_fetch("", false));
    assert_eq!(thumbnail_path("g1"), "/api/v1/games/g1/thumbnail");
}

#[test]
fn widget_classes() {
    assert_eq!(btn_class("primary", "sm", ""), "btn primary sm ");
    assert_eq!(panel_class(false, ""), "panel");
    assert_eq!(panel_class(true, ""), "panel flush");
    assert_eq!(panel_class(true, "wide"), "panel flush wide");
    assert_eq!(panel_class(false, "wide"), "panel wide");
    assert_eq!(step_class(0, 2), "step done");
    assert_eq!(step_class(2, 2), "step current");
    assert_eq!(step_class(3, 2), "step");
    assert_eq!(step_counter(Step::Rules), "step 3 of 5");
}

#[test]
fn ongoing_tiles() {
    assert_eq!(TileStatus::YourTurn.resume_label(), "→ Resume");
    assert_eq!(TileStatus::Waiting.resume_label(), "Open");
    assert_eq!(TileStatus::Completed.resume_label(), "Review");
    assert_eq!(TileStatus::YourTurn.tile_class(), "game-tile your-turn");
    assert_eq!(TileStatus::Waiting.tile_class(), "game-tile");
    assert_eq!(TileStatus::YourTurn.resume_variant(), "accent");
    assert_eq!(TileStatus::Completed.resume_variant(), "primary");
    let all = vec![
        TileStatus::YourTurn, TileStatus::YourTurn, TileStatus::YourTurn,
        TileStatus::Waiting, TileStatus::Waiting, TileStatus::Completed,
    ];
    assert_eq!(awaiting_count(&all), 3);
    assert_eq!(awaiting_count(&vec![]), 0);
}

#[test]
fn slider_values() {
    for s in ["0", "42", "-7", "+13", "2147483647", "-2147483648", "", "-", "+", "12a", "2147483648", "-2147483649", " 1", "99999999999999"] {
        assert_eq!(parse_slider_value(s), s.parse::<i32>().ok(), "{s:?}");
    }
}

#[test]
fn thumbnail_cache_fetches_once() {
    let mut cache = ThumbnailCache::new();
    assert!(cache.get_entry("g1").is_none());
    assert!(!ensure_fetched(&mut cache, String::new()));
    assert!(cache.get_entry("").is_none());
    assert!(ensure_fetched(&mut cache, "g1".to_string()));
    assert!(matches!(cache.get_entry("g1"), Some(ThumbnailEntry::Pending)));
    assert!(!ensure_fetched(&mut cache, "g1".to_string()));
    let grid = ThumbnailGrid {
        width: 2,
        height: 1,
        cells: vec![
            ThumbCell { q: 0, r: 0, terrain: "Ocean".into() },
            ThumbCell { q: 1, r: 0, terrain: "Grassland+Hills".into() },
        ],
    };
    finish_fetch(&mut cache, "g1".to_string(), Ok(grid));
    match cache.get_entry("g1") {
        Some(ThumbnailEntry::Ready(g)) => {
            assert_eq!((g.width, g.height, g.cells.len()), (2, 1, 2));
            assert_eq!(g.cells[1].terrain, "Grassland+Hills");
            assert_eq!((g.cells[1].q, g.cells[1].r), (1, 0));
        }
        other => panic!("unexpected entry {other:?}"),
    }
    assert!(!ensure_fetched(&mut cache, "g1".to_string()));
    assert!(ensure_fetched(&mut cache, "g2".to_string()));
    finish_fetch(&mut cache, "g2".to_string(), Err("boom".to_string()));
    assert!(matches!(cache.get_entry("g2"), Some(ThumbnailEntry::Failed(m)) if m == "boom"));
    assert!(!ensure_fetched(&mut cache, "g2".to_string()));
    assert!(matches!(cache.get_entry("g1"), Some(ThumbnailEntry::Ready(_))));
    cache.set_entry("g1".to_string(), ThumbnailEntry::Pending);
    assert!(matches!(cache.get_entry("g1"), Some(ThumbnailEntry::Pending)));
    assert!(ThumbnailCache::default().get_entry("g1").is_none());
}

#[test]
fn wizard_footer_and_bodies() {
    assert!(!back_enabled(Step::MapParams));
    assert!(back_enabled(Step::Civ));
    assert!(back_enabled(Step::Review));
    assert_eq!(footer_action(Step::MapParams), FooterAction::Advance(Step::Civ));
    assert_eq!(footer_action(Step::Players), FooterAction::Advance(Step::Review));
    assert_eq!(footer_action(Step::Review), FooterAction::Generate);
    assert!(matches!(step_body(Step::MapParams), StepBody::MapParams));
    assert!(matches!(step_body(Step::Civ), StepBody::CivPicker));
    assert!(matches!(step_body(Step::Review), StepBody::Review));
    assert!(matches!(step_body(Step::Rules), StepBody::Placeholder("Rules")));
    assert!(matches!(step_body(Step::Players), StepBody::Placeholder("Players")));
}

#[test]
fn civ_cards() {
    assert_eq!(leader_initial("Saladin"), 'S');
    assert_eq!(leader_initial("Ötzi"), 'Ö');
    assert_eq!(leader_initial(""), '?');
    assert!(civ_card_style("Saladin", "Saladin").contains("var(--accent)"));
    assert!(civ_card_style("Saladin", "Trajan").contains("var(--hairline)"));
}

#[test]
fn navigation_events() {
    let st = NavState::initial();
    assert_eq!(st, NavState { screen: Screen::Landing, tab: MenuTab::Ongoing });
    let st = st.step(NavEvent::SignIn);
    assert_eq!(st.screen, Screen::Login);
    let st = st.step(NavEvent::Back);
    assert_eq!(st.screen, Screen::Landing);
    let st = st.step(NavEvent::Show(Screen::Menu)).step(NavEvent::Open(MenuTab::Profile));
    assert_eq!(st, NavState { screen: Screen::Menu, tab: MenuTab::Profile });
    let st = st.step(NavEvent::Show(Screen::Login));
    assert_eq!(st.tab, MenuTab::Profile);
    let st = st.step(NavEvent::StartNewGame);
    assert_eq!(st, NavState { screen: Screen::Menu, tab: MenuTab::NewGame });
    for ev in [NavEvent::SignIn, NavEvent::Back, NavEvent::StartNewGame, NavEvent::Show(Screen::Login), NavEvent::Open(MenuTab::Docs)] {
        let once = st.step(ev);
        assert_eq!(once.step(ev), once);
    }
}

#[test]
fn ongoing_header_and_tags() {
    let all = vec![
        TileStatus::YourTurn, TileStatus::YourTurn, TileStatus::YourTurn,
        TileStatus::Waiting, TileStatus::Waiting, TileStatus::Completed,
    ];
    assert_eq!(ongoing_summary(&all), "6 games · 3 awaiting you");
    assert_eq!(ongoing_summary(&vec![]), "0 games · 0 awaiting you");
    assert_eq!(notif_tag(0), None);
    assert_eq!(notif_tag(3).as_deref(), Some("!3"));
    assert_eq!(notif_tag(12).as_deref(), Some("!12"));
}

#[test]
fn blank_names_follow_unicode_white_space() {
    assert!(is_blank(""));
    assert!(is_blank(" \t\n\r\u{b}\u{c}"));
    assert!(is_blank("\u{85}\u{a0}\u{1680}\u{2000}\u{200a}\u{2028}\u{2029}\u{202f}\u{205f}\u{3000}"));
    assert!(!is_blank("\u{200b}"));
    assert!(!is_blank("\u{feff}"));
    assert!(!is_blank(" a "));
}

#[test]
fn sidebar_entries_and_civs() {
    assert_eq!(MenuTab::Ongoing.badge(), Some(3));
    assert_eq!(MenuTab::Profile.badge(), None);
    assert_eq!(MenuTab::primary(), vec![MenuTab::Ongoing, MenuTab::NewGame, MenuTab::Profile]);
    assert_eq!(MenuTab::secondary(), vec![MenuTab::Friends, MenuTab::Presets, MenuTab::Docs]);
    let civs = civ_picks();
    assert_eq!(civs.len(), 8);
    assert_eq!((civs[0].leader, civs[0].civ, civs[0].unique_unit), ("Saladin", "Arabia", "Mamluk"));
    assert_eq!((civs[7].leader, civs[7].civ), ("Random", "?"));
    assert_eq!(leader_initial(civs[6].leader), 'P');
}

#[test]
fn lower_cased_terrain_classes() {
    assert_eq!(lower_terrain_class("grassland+hills"), "land-self");
    assert_eq!(lower_terrain_class("Ocean"), "land");
    assert_eq!(lower_terrain_class("coast"), "water");
    assert_eq!(terrain_class("OCEAN"), "water");
}

#[test]
fn blank_matches_std_trim_for_every_char() {
    for n in 0u32..=0x10FFFF {
        if let Some(c) = char::from_u32(n) {
            let s = c.to_string();
            assert_eq!(is_blank(&s), s.trim().is_empty(), "U+{n:04X}");
        }
    }
}
