use client_core::login::{Credentials, Typed};
use client_core::{FetchError, Login, RepositoryError};

#[test]
fn password_hash_is_sha1_in_hex() {
    assert_eq!(Login::password_hash("abc"), "a9993e364706816aba3e25717850c26c9cd0d89d");
    assert_eq!(Login::password_hash(""), "da39a3ee5e6b4b0d3255bfef95601890afd80709");
}

#[test]
fn credentials_line_round_trip() {
    let line = Login::store_credentials("pupil", "a9993e");
    assert_eq!(line, "pupil:a9993e");
    assert_eq!(Login::fetch_credentials(&line), Some(("pupil".to_string(), "a9993e".to_string())));
}

#[test]
fn credentials_end_at_second_colon() {
    assert_eq!(Login::fetch_credentials("a:b:c"), Some(("a".to_string(), "b".to_string())));
    assert_eq!(Login::fetch_credentials(":"), Some((String::new(), String::new())));
}

#[test]
fn line_without_colon_holds_no_credentials() {
    assert_eq!(Login::fetch_credentials("pupil"), None);
    assert_eq!(Login::fetch_credentials(""), None);
}

#[test]
fn session_cookie_is_told_from_the_other() {
    assert_eq!(
        Login::session_cookie("ASP.NET_SessionId=abc123; path=/; HttpOnly"),
        Some(("ENTAB_SESSION_ID".to_string(), "abc123".to_string()))
    );
    assert_eq!(
        Login::session_cookie(".ASPXAUTH=F00D; expires=never"),
        Some(("ENTAB_ASPXAUTH".to_string(), "F00D".to_string()))
    );
    assert_eq!(Login::session_cookie("flag=1"), Some(("ENTAB_ASPXAUTH".to_string(), "1".to_string())));
    assert_eq!(Login::session_cookie("a=b=c"), Some(("ENTAB_ASPXAUTH".to_string(), "b".to_string())));
}

#[test]
fn cookie_without_value_sets_nothing() {
    assert_eq!(Login::session_cookie("HttpOnly"), None);
    assert_eq!(Login::session_cookie(""), None);
}

#[test]
fn token_is_read_from_the_form() {
    let page = "<html><body><form><input type=\"text\" name=\"user\" value=\"u\">\
<input name=\"__RequestVerificationToken\" type=\"hidden\" value=\"tok-1\"></form></body></html>";
    assert_eq!(Login::get_request_verification_token(page), Ok("tok-1".to_string()));
}

#[test]
fn last_token_field_wins() {
    let page = "<input name=\"__RequestVerificationToken\" value=\"one\">\
<input name=\"__RequestVerificationToken\" value=\"two\">";
    assert_eq!(Login::get_request_verification_token(page), Ok("two".to_string()));
}

#[test]
fn page_without_token_field_gives_empty_token() {
    assert_eq!(Login::get_request_verification_token("<p>Closed</p>"), Ok(String::new()));
    assert_eq!(
        Login::get_request_verification_token("<div name=\"__RequestVerificationToken\" value=\"x\"></div>"),
        Ok(String::new())
    );
}

#[test]
fn token_field_without_value_is_malformed() {
    assert_eq!(
        Login::get_request_verification_token("<input name=\"__RequestVerificationToken\">"),
        Err(RepositoryError::Fetch(FetchError::Malformed))
    );
}

#[test]
fn kept_credentials_are_used_only_when_asked_for() {
    let stored = Credentials::Stored { username: "pupil".to_string(), hash: "a999".to_string() };
    assert_eq!(Login::login(true, true, Some("pupil:a999")), stored);
    assert_eq!(Login::login(false, true, Some("pupil:a999")), stored);
    assert_eq!(Login::login(true, false, Some("pupil:a999")), Credentials::Ask { store: true });
    assert_eq!(Login::login(false, false, None), Credentials::Ask { store: false });
    assert_eq!(Login::login(true, true, None), Credentials::Ask { store: true });
    assert_eq!(Login::login(false, true, Some("no colon")), Credentials::Ask { store: false });
}

#[test]
fn typed_password_is_hashed_once() {
    assert_eq!(
        Login::typed("pupil", "abc", true),
        Typed {
            username: "pupil".to_string(),
            hash: "a9993e364706816aba3e25717850c26c9cd0d89d".to_string(),
            keep: Some("pupil:a9993e364706816aba3e25717850c26c9cd0d89d".to_string()),
        }
    );
    assert_eq!(Login::typed("pupil", "abc", false).keep, None);
}
