use goiam::auth::{
    basic_auth_text, basic_header_text, bearer_auth_text, credentials_text, is_encodable,
};

#[test]
fn credentials_are_joined_by_one_colon() {
    assert_eq!(credentials_text("id", "secret"), "id:secret");
    assert_eq!(credentials_text("", ""), ":");
    assert_eq!(credentials_text("a:b", "c"), "a:b:c");
}

#[test]
fn basic_header_puts_the_scheme_first() {
    assert_eq!(basic_header_text("abc="), "Basic abc=");
    assert_eq!(basic_header_text(""), "Basic ");
}

#[test]
fn basic_auth_encodes_the_credentials() {
    assert_eq!(basic_auth_text("Aladdin", "open sesame"), "Basic QWxhZGRpbjpvcGVuIHNlc2FtZQ==");
    assert_ne!(basic_auth_text("Aladdin", "open sesame"), "Basic Aladdin:open sesame");
}

#[test]
fn basic_auth_uses_the_standard_alphabet() {
    assert_eq!(basic_auth_text("\u{fb}\u{ff}", "\u{fe}~"), "Basic w7vDvzrDvn4=");
    assert_eq!(basic_auth_text("??", ">>"), "Basic Pz86Pj4=");
    assert_eq!(basic_auth_text("", "?>?"), "Basic Oj8+Pw==");
    assert_eq!(basic_auth_text("", "\u{3ff}?"), "Basic Os+/Pw==");
}

#[test]
fn bearer_puts_the_scheme_first() {
    assert_eq!(bearer_auth_text("valid-token"), "Bearer valid-token");
    assert_eq!(bearer_auth_text(""), "Bearer ");
}

#[test]
fn texts_that_fit_in_memory_are_encodable() {
    assert!(is_encodable(""));
    assert!(is_encodable("a"));
    assert!(is_encodable("test_client:test_secret"));
    assert!(is_encodable(&"\u{20ac}".repeat(100_000)));
}
