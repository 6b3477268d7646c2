use terraria_server::web::middleware::{guarded, AuthMiddleware, UNAUTHORIZED};

fn gate() -> AuthMiddleware<()> {
    AuthMiddleware { inner: (), token: "xiaoyou".to_string() }
}

#[test]
fn api_paths_are_guarded() {
    assert!(guarded("/api/config"));
    assert!(guarded("http://127.0.0.1:3000/api/game/start"));
    assert!(!guarded("/"));
    assert!(!guarded("/api/ws"));
}

#[test]
fn guarded_request_without_token_is_refused() {
    assert_eq!(gate().check("/api/config", None), Some(401));
    assert_eq!(UNAUTHORIZED, 401);
}

#[test]
fn guarded_request_with_wrong_token_is_refused() {
    assert_eq!(gate().check("/api/game/cmd", Some("guest")), Some(401));
    assert_eq!(gate().check("/api/game/cmd", Some("")), Some(401));
    assert_eq!(gate().check("/api/game/cmd", Some("xiaoyou ")), Some(401));
}

#[test]
fn guarded_request_with_token_passes() {
    assert_eq!(gate().check("/api/config", Some("xiaoyou")), None);
}

#[test]
fn websocket_and_home_pass_without_token() {
    assert_eq!(gate().check("/api/ws", None), None);
    assert_eq!(gate().check("/", None), None);
    assert_eq!(gate().check("/", Some("guest")), None);
}
