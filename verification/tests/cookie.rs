use memory_api::api::user::cookie::{find_cookie, SameSite, SessionCookie};
use memory_api::api::user::session_cookie_header;

fn cookie(http_only: bool, secure: bool, same_site: SameSite) -> SessionCookie {
    SessionCookie {
        name: String::from("sid"),
        value: String::from("abc"),
        http_only,
        secure,
        same_site,
        path: String::from("/app"),
    }
}

#[test]
fn session_cookie_has_every_security_attribute() {
    assert_eq!(
        session_cookie_header(String::from("abc.def.ghi")),
        "token=abc.def.ghi; HttpOnly; SameSite=Strict; Secure; Path=/"
    );
}

#[test]
fn session_cookie_has_no_expiry_of_its_own() {
    let header = session_cookie_header(String::from("abc.def.ghi"));
    assert!(!header.contains("Max-Age"));
    assert!(!header.contains("Expires"));
}

#[test]
fn cookie_attributes_are_written_only_where_set() {
    assert_eq!(
        cookie(true, true, SameSite::Strict).header_value(),
        "sid=abc; HttpOnly; SameSite=Strict; Secure; Path=/app"
    );
    assert_eq!(
        cookie(false, true, SameSite::Lax).header_value(),
        "sid=abc; SameSite=Lax; Secure; Path=/app"
    );
    assert_eq!(
        cookie(true, false, SameSite::Lax).header_value(),
        "sid=abc; HttpOnly; SameSite=Lax; Path=/app"
    );
    assert_eq!(
        cookie(false, false, SameSite::Strict).header_value(),
        "sid=abc; SameSite=Strict; Path=/app"
    );
}

#[test]
fn cross_site_cookie_is_written_as_none() {
    assert_eq!(
        cookie(false, true, SameSite::CrossSite).header_value(),
        "sid=abc; SameSite=None; Secure; Path=/app"
    );
    assert_eq!(
        cookie(false, false, SameSite::CrossSite).header_value(),
        "sid=abc; SameSite=None; Path=/app"
    );
}

#[test]
fn cookie_is_found_alone() {
    assert_eq!(find_cookie("token=abc", "token"), Some("abc"));
}

#[test]
fn cookie_is_found_among_others() {
    assert_eq!(find_cookie("theme=dark; token=abc; lang=en", "token"), Some("abc"));
    assert_eq!(find_cookie("theme=dark; token=abc; lang=en", "theme"), Some("dark"));
    assert_eq!(find_cookie("theme=dark; token=abc; lang=en", "lang"), Some("en"));
    assert_eq!(find_cookie("theme=dark;token=abc", "token"), Some("abc"));
    assert_eq!(find_cookie("theme=dark;   token=abc", "token"), Some("abc"));
}

#[test]
fn first_cookie_of_a_name_wins() {
    assert_eq!(find_cookie("token=first; token=second", "token"), Some("first"));
}

#[test]
fn cookie_value_may_be_empty_or_hold_equal_signs() {
    assert_eq!(find_cookie("token=", "token"), Some(""));
    assert_eq!(find_cookie("token=; a=b", "token"), Some(""));
    assert_eq!(find_cookie("token=a=b=c", "token"), Some("a=b=c"));
}

#[test]
fn missing_cookie_is_not_found() {
    assert_eq!(find_cookie("", "token"), None);
    assert_eq!(find_cookie("theme=dark; lang=en", "token"), None);
    assert_eq!(find_cookie("token", "token"), None);
    assert_eq!(find_cookie(";;;", "token"), None);
    assert_eq!(find_cookie("a=b;", "token"), None);
}

#[test]
fn cookie_name_must_match_exactly() {
    assert_eq!(find_cookie("xtoken=abc", "token"), None);
    assert_eq!(find_cookie("token2=abc", "token"), None);
    assert_eq!(find_cookie("Token=abc", "token"), None);
    assert_eq!(find_cookie("tok=abc", "token"), None);
    assert_eq!(find_cookie("a=token=abc", "token"), None);
    assert_eq!(find_cookie("token =abc", "token"), None);
}

#[test]
fn header_outside_ascii_holds_no_cookie() {
    assert_eq!(find_cookie("token=abc; name=caf\u{e9}", "token"), None);
    assert_eq!(find_cookie("token=abc", "tok\u{e9}n"), None);
}
