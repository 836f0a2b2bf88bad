use lidp_unified::oauth2::error::ErrorCode;
use lidp_unified::oauth2::scope::{intersect_scopes, parse_scopes, scopes_to_string, validate_scopes};

fn owned(items: &[&str]) -> Vec<String> {
    items.iter().map(|s| s.to_string()).collect()
}

#[test]
fn parse_scopes_splits_on_whitespace() {
    assert_eq!(
        parse_scopes("openid profile email"),
        vec!["openid", "profile", "email"]
    );
}

#[test]
fn validate_scopes_rejects_unknown_scope() {
    let requested = vec!["openid".to_string(), "admin".to_string()];
    let allowed = vec!["openid".to_string(), "profile".to_string()];

    let error = validate_scopes(&requested, &allowed).unwrap_err();
    assert_eq!(error.error, ErrorCode::InvalidScope);
}

#[test]
fn parse_scopes_skips_runs_of_whitespace() {
    assert_eq!(parse_scopes("  openid\t\nprofile   email "), vec!["openid", "profile", "email"]);
    assert!(parse_scopes("").is_empty());
    assert!(parse_scopes(" \t ").is_empty());
}

#[test]
fn scopes_to_string_joins_with_spaces() {
    assert_eq!(scopes_to_string(&owned(&["openid", "profile"])), "openid profile");
    assert_eq!(scopes_to_string(&owned(&[])), "");
    assert_eq!(parse_scopes(&scopes_to_string(&owned(&["a", "b", "c"]))), vec!["a", "b", "c"]);
}

#[test]
fn validate_scopes_accepts_allowed_scopes() {
    let allowed = owned(&["openid", "profile", "email"]);
    assert!(validate_scopes(&owned(&["openid", "email"]), &allowed).is_ok());
    assert!(validate_scopes(&owned(&[]), &allowed).is_ok());
}

#[test]
fn validate_scopes_error_names_the_refused_scopes() {
    let error = validate_scopes(&owned(&["openid", "admin", "root"]), &owned(&["openid"])).unwrap_err();
    assert_eq!(error.error, ErrorCode::InvalidScope);
    assert_eq!(error.error_description.as_deref(), Some("unsupported scopes: admin root"));
}

#[test]
fn validate_scopes_refuses_everything_without_allowed_scopes() {
    let error = validate_scopes(&owned(&["openid"]), &owned(&[])).unwrap_err();
    assert_eq!(error.error, ErrorCode::InvalidScope);
    assert_eq!(
        error.error_description.as_deref(),
        Some("client is not authorized for the requested scopes")
    );
    assert!(validate_scopes(&owned(&[]), &owned(&[])).is_ok());
}

#[test]
fn intersect_scopes_keeps_requested_order() {
    let allowed = owned(&["email", "openid", "profile"]);
    assert_eq!(intersect_scopes(&owned(&["profile", "admin", "openid"]), &allowed), vec!["profile", "openid"]);
    assert!(intersect_scopes(&owned(&["admin"]), &allowed).is_empty());
}

#[test]
fn intersect_scopes_without_request_grants_all_allowed() {
    let allowed = owned(&["email", "openid"]);
    assert_eq!(intersect_scopes(&owned(&[]), &allowed), vec!["email", "openid"]);
}
