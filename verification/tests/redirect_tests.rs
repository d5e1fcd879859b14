use authflow::redirect::extract_code;
use authflow::redirect::find_byte;
use authflow::redirect::starts_with;

const REDIRECT: &[u8] = b"https://login.live.com/oauth20_desktop.srf";

#[test]
fn find_byte_first_occurrence() {
    assert_eq!(find_byte(b"a?b?c", b'?'), Some(1));
    assert_eq!(find_byte(b"abc", b'?'), None);
    assert_eq!(find_byte(b"", b'?'), None);
    assert_eq!(find_byte(b"?", b'?'), Some(0));
}

#[test]
fn starts_with_prefix() {
    let url = b"https://login.live.com/oauth20_desktop.srf?code=x";
    assert!(starts_with(url, REDIRECT));
    assert!(starts_with(REDIRECT, REDIRECT));
    assert!(!starts_with(b"https://example.com/?code=x", REDIRECT));
    assert!(!starts_with(b"https", REDIRECT));
    assert!(starts_with(url, b""));
}

#[test]
fn extract_code_simple() {
    let url = b"https://login.live.com/oauth20_desktop.srf?code=abc123";
    assert_eq!(extract_code(url), Some(b"abc123".as_slice()));
}

#[test]
fn extract_code_among_other_parameters() {
    let url = b"https://login.live.com/oauth20_desktop.srf?lc=1033&code=M.R3_BAY.abc&state=xyz";
    assert_eq!(extract_code(url), Some(b"M.R3_BAY.abc".as_slice()));
}

#[test]
fn extract_code_missing() {
    assert_eq!(
        extract_code(b"https://login.live.com/oauth20_desktop.srf?error=access_denied"),
        None
    );
    assert_eq!(extract_code(b"https://login.live.com/oauth20_desktop.srf"), None);
    assert_eq!(extract_code(b""), None);
}

#[test]
fn extract_code_stops_at_fragment() {
    let url = b"https://host/path?code=abc#frag";
    assert_eq!(extract_code(url), Some(b"abc".as_slice()));
    let url2 = b"https://host/path?x=1#code=abc";
    assert_eq!(extract_code(url2), None);
}

#[test]
fn extract_code_empty_value() {
    assert_eq!(extract_code(b"https://host/p?code="), Some(b"".as_slice()));
    // a bare `code` pair with no `=` also counts, with an empty value
    assert_eq!(extract_code(b"https://host/p?code"), Some(b"".as_slice()));
}

#[test]
fn extract_code_key_must_match_exactly() {
    assert_eq!(extract_code(b"https://host/p?codex=1"), None);
    assert_eq!(extract_code(b"https://host/p?cod=1"), None);
    assert_eq!(extract_code(b"https://host/p?CODE=1"), None);
    assert_eq!(extract_code(b"https://host/p?mycode=1"), None);
}

#[test]
fn extract_code_first_pair_wins() {
    assert_eq!(extract_code(b"https://host/p?code=first&code=second"), Some(b"first".as_slice()));
}

#[test]
fn extract_code_value_kept_verbatim() {
    assert_eq!(
        extract_code(b"https://host/p?code=a%2Bb=c"),
        Some(b"a%2Bb=c".as_slice())
    );
}
