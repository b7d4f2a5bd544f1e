use fractal::ids::trim;
use fractal::identity::submit_token_url;

#[test]
fn submit_token_url_joins_the_endpoint() {
    assert_eq!(
        submit_token_url("https://id.example.org/"),
        Some("https://id.example.org/_matrix/identity/api/v1/validate/msisdn/submitToken".to_string())
    );
    assert_eq!(
        submit_token_url("https://id.example.org/base/file"),
        Some("https://id.example.org/base/_matrix/identity/api/v1/validate/msisdn/submitToken".to_string())
    );
}

#[test]
fn submit_token_url_needs_a_base_url() {
    assert_eq!(submit_token_url("not a url"), None);
    assert_eq!(submit_token_url("mailto:someone@example.org"), None);
}

#[test]
fn trim_drops_surrounding_white_space() {
    assert_eq!(trim("  !abc:example.org \n"), "!abc:example.org");
    assert_eq!(trim("\u{3000}a b\u{2029}"), "a b");
    assert_eq!(trim(" \t\r\n"), "");
    assert_eq!(trim(""), "");
    assert_eq!(trim("x"), "x");
}
