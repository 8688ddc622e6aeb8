use open4x::cli::{
    city_path, dispatch, failure_message, list_target, request_context, success_body, view_path,
    ApiClient, Command, ListKind, ListTarget, RemoteCall, SuccessBody,
};
use open4x::sdk::{
    combat_preview_path, diplomacy_civ_path, world_snapshot_path, world_tile_path, ApiError,
    HealthResponse, Method, NewGameRequest,
};
use open4x::text::{i64_text, u64_text};

#[test]
fn method_names() {
    assert_eq!(Method::Get.as_str(), "GET");
    assert_eq!(Method::Post.as_str(), "POST");
    assert_eq!(Method::Put.as_str(), "PUT");
    assert_eq!(Method::Patch.as_str(), "PATCH");
    assert_eq!(Method::Delete.as_str(), "DELETE");
}

#[test]
fn api_error_text() {
    let e = ApiError { status: 404, code: "not_found".into(), message: Some("no such city".into()) };
    assert_eq!(e.to_string(), "not_found (404): no such city");
    let e = ApiError { status: 0, code: "transport".into(), message: None };
    assert_eq!(e.to_string(), "transport (0)");
}

#[test]
fn endpoint_paths() {
    assert_eq!(world_snapshot_path(None, None, None), "/api/v1/world/snapshot");
    assert_eq!(world_snapshot_path(Some(-3), None, Some(5)), "/api/v1/world/snapshot?q=-3&radius=5");
    assert_eq!(world_snapshot_path(None, Some(7), None), "/api/v1/world/snapshot?r=7");
    assert_eq!(world_snapshot_path(Some(1), Some(2), Some(0)), "/api/v1/world/snapshot?q=1&r=2&radius=0");
    assert_eq!(world_snapshot_path(None, None, Some(32)), "/api/v1/world/snapshot?radius=32");
    assert_eq!(world_tile_path(-1, 12), "/api/v1/world/tile/-1/12");
    assert_eq!(
        combat_preview_path("u1", 3, -4),
        "/api/v1/combat/preview?attacker_id=u1&defender_q=3&defender_r=-4"
    );
    assert_eq!(diplomacy_civ_path("c7"), "/api/v1/diplomacy/civs/c7");
}

#[test]
fn integer_text() {
    assert_eq!(u64_text(0), "0");
    assert_eq!(u64_text(u64::MAX), u64::MAX.to_string());
    assert_eq!(i64_text(i64::MIN), i64::MIN.to_string());
    assert_eq!(i64_text(-7), "-7");
    assert_eq!(i64_text(1203), "1203");
}

#[test]
fn sdk_defaults() {
    let h = HealthResponse::default();
    assert!(!h.ok);
    assert_eq!(h.api, "");
    let r = NewGameRequest::default();
    assert!(r.display_name.is_none() && r.seed.is_none());
}

#[test]
fn client_urls() {
    let c = ApiClient::new("http://localhost:3001///");
    assert_eq!(c.base(), "http://localhost:3001");
    assert_eq!(c.token(), None);
    assert_eq!(c.url("/api/v1/units"), "http://localhost:3001/api/v1/units");
    assert_eq!(c.url("api/v1/units"), "http://localhost:3001/api/v1/units");
    assert_eq!(c.url(""), "http://localhost:3001/");
    let c = c.with_token("abc".into());
    assert_eq!(c.token(), Some("abc"));
    assert_eq!(c.base(), "http://localhost:3001");
}

#[test]
fn failure_messages() {
    assert_eq!(request_context("GET", "/x"), "GET /x");
    assert_eq!(
        failure_message("GET /x", 400, r#"{"error": "bad_request", "message": "expected JSON"}"#),
        r#"GET /x -> 400 bad_request: expected JSON ({"error":"bad_request","message":"expected JSON"})"#
    );
    assert_eq!(
        failure_message("POST /y", 502, "Bad Gateway"),
        r#"POST /y -> 502 http_error: Bad Gateway ("Bad Gateway")"#
    );
    assert_eq!(
        failure_message("DELETE /z", 500, r#"{"error": 5}"#),
        r#"DELETE /z -> 500 http_error: {"error": 5} ({"error":5})"#
    );
}

#[test]
fn list_targets() {
    assert!(matches!(list_target(&ListKind::Units), Ok(ListTarget::Fetch("/api/v1/units"))));
    assert!(matches!(list_target(&ListKind::Cities), Ok(ListTarget::Fetch("/api/v1/cities"))));
    match list_target(&ListKind::Production { city: "01HXYZ".into() }) {
        Ok(ListTarget::ProductionOf(c)) => assert_eq!(c, "01HXYZ"),
        other => panic!("{other:?}"),
    }
    for kind in [ListKind::GreatPeople, ListKind::Routes, ListKind::Governors, ListKind::Buildings, ListKind::Improvements] {
        let expected = format!("server mode does not expose 'list {kind:?}' yet (no REST endpoint)");
        assert_eq!(list_target(&kind).unwrap_err(), expected);
    }
    assert_eq!(city_path("01H"), "/api/v1/cities/01H");
    assert_eq!(view_path(), "/api/v1/world/snapshot?radius=0");
}

#[test]
fn dispatch_routes() {
    let cmd = Command::NewGame {
        seed: Some(42),
        width: 40,
        height: 30,
        player: "Alice".into(),
        ai: vec!["rome".into()],
        game_file: "save.json".into(),
        victory: None,
    };
    match dispatch(cmd) {
        Ok(RemoteCall::NewGame { seed, width, height, player, ai }) => {
            assert_eq!((seed, width, height, player.as_str()), (Some(42), 40, 30, "Alice"));
            assert_eq!(ai, vec!["rome".to_string()]);
        }
        other => panic!("{other:?}"),
    }
    assert!(matches!(dispatch(Command::EndTurn), Ok(RemoteCall::EndTurn)));
    assert!(matches!(dispatch(Command::View), Ok(RemoteCall::View)));
    assert!(matches!(dispatch(Command::List { kind: ListKind::Units }), Ok(RemoteCall::List { .. })));
    for c in [Command::Repl, Command::Play, Command::Demo, Command::AiDemo] {
        assert_eq!(
            dispatch(c).unwrap_err(),
            "server mode does not support interactive / demo subcommands"
        );
    }
}

#[test]
fn success_bodies() {
    assert_eq!(success_body("GET /x", ""), Ok(SuccessBody::Null));
    assert_eq!(success_body("GET /x", "{\"a\": 1}"), Ok(SuccessBody::Json));
    assert_eq!(success_body("GET /x", "null"), Ok(SuccessBody::Json));
    let e = serde_json::from_str::<serde_json::Value>("oops").unwrap_err().to_string();
    assert_eq!(
        success_body("GET /x", "oops"),
        Err(format!("GET /x: invalid JSON response ({e}): oops"))
    );
}

#[test]
fn transport_errors() {
    let e = ApiError::transport("no window".to_string());
    assert_eq!((e.status, e.code.as_str(), e.message.as_deref()), (0, "transport", Some("no window")));
}
