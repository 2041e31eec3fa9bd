use application::config::Secret;
use application::oauth::{get_client, OAuthProvider};
use application::config::AuthConfig;
use application::user::{Role, User};

#[test]
fn role_text_round_trip() {
    assert_eq!(Role::Admin.to_string(), "admin");
    assert_eq!(Role::Ordinary.to_string(), "ordinary");
    assert_eq!(Role::parse("admin"), Ok(Role::Admin));
    assert_eq!(Role::parse("ordinary"), Ok(Role::Ordinary));
    assert!(Role::parse("Admin").is_err());
    assert!(Role::parse("").is_err());
}

#[test]
fn user_keeps_id_and_role() {
    let u = User::new(7, Role::Ordinary);
    assert_eq!(*u.id(), 7);
    assert_eq!(*u.role(), Role::Ordinary);
}

#[test]
fn secret_is_masked() {
    let s = Secret::from("hunter2".to_string());
    assert_eq!(s.to_string(), "*******");
    assert_eq!(String::from(s), "hunter2");
}

#[test]
fn client_from_config() {
    let cfg = AuthConfig {
        auth_url: "https://auth".to_string(),
        token_url: "https://token".to_string(),
        client_id: "id".to_string(),
        client_secret: Secret::from("SECRET-REDACTED".to_string()),
        redirect_url: "https://back".to_string(),
    };
    let p = get_client(cfg);
    assert_eq!(p.client_secret, "SECRET-REDACTED");
    assert_eq!(p.auth_url, "https://auth");
    assert!(p.state.is_none());
    let q = OAuthProvider::new(
        "a".to_string(),
        "t".to_string(),
        "c".to_string(),
        "s".to_string(),
        "r".to_string(),
    );
    assert_eq!(q.redirect_url, "r");
}
