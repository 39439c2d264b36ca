//! The values of the `Authorization` header.

use vstd::prelude::*;
use vstd::utf8::encode_utf8;

verus! {

/// The Base64 text of the UTF-8 bytes of `text`: standard alphabet, padded
/// with `=`.
pub uninterp spec fn base64_standard(text: Seq<char>) -> Seq<char>;

/// The length of the Base64 text of `bytes` bytes: four characters for
/// every three bytes, the last group padded.
pub open spec fn base64_length(bytes: nat) -> nat {
    (bytes + 2) / 3 * 4
}

/// Whether a text can be encoded: its Base64 text is at most `isize::MAX`
/// characters long, the most that one allocation holds.
pub open spec fn encodable(text: Seq<char>) -> bool {
    base64_length(encode_utf8(text).len()) <= isize::MAX
}

/// `Engine::encode` of `base64::engine::general_purpose::STANDARD`: the
/// padded, standard-alphabet Base64 text of the bytes of `text`. The call
/// panics where the length of that text overflows `usize`, and its
/// allocation where the length exceeds `isize::MAX`; `requires` leaves both
/// out.
#[verifier::external_body]
fn base64_encode(text: &str) -> (encoded: String)
    requires
        encodable(text@),
    ensures
        encoded@ == base64_standard(text@),
{
    base64::Engine::encode(&base64::engine::general_purpose::STANDARD, text)
}

/// What Basic authentication encodes: the client's id, a colon, its secret.
pub open spec fn credentials(client_id: Seq<char>, secret: Seq<char>) -> Seq<char> {
    client_id + ":"@ + secret
}

/// The header value that presents `encoded` credentials.
pub open spec fn basic_header(encoded: Seq<char>) -> Seq<char> {
    "Basic "@ + encoded
}

/// The header value of Basic authentication for a client.
pub open spec fn basic_auth(client_id: Seq<char>, secret: Seq<char>) -> Seq<char> {
    basic_header(base64_standard(credentials(client_id, secret)))
}

/// The header value that presents an access token.
pub open spec fn bearer_auth(token: Seq<char>) -> Seq<char> {
    "Bearer "@ + token
}

/// Joins id and secret with a colon.
pub fn credentials_text(client_id: &str, secret: &str) -> (text: String)
    ensures
        text@ == credentials(client_id@, secret@),
{
    String::from_str(client_id).concat(":").concat(secret)
}

/// Puts the scheme name in front of credentials that are already encoded.
pub fn basic_header_text(encoded: &str) -> (header: String)
    ensures
        header@ == basic_header(encoded@),
{
    String::from_str("Basic ").concat(encoded)
}

/// Tells whether `text` can be encoded, by the number of its bytes.
pub fn is_encodable(text: &str) -> (fits: bool)
    ensures
        fits == encodable(text@),
{
    let bytes: usize = text.as_bytes().len();
    let groups: usize = bytes / 3 + if bytes % 3 == 0 {
        0
    } else {
        1
    };
    assert(groups == (bytes + 2) / 3);
    assert(usize::MAX / 2 == isize::MAX);
    groups <= usize::MAX / 2 / 4
}

/// The `Authorization` value of Basic authentication: the scheme name, then
/// the Base64 text of `client_id:secret`.
pub fn basic_auth_text(client_id: &str, secret: &str) -> (header: String)
    requires
        encodable(credentials(client_id@, secret@)),
    ensures
        header@ == basic_auth(client_id@, secret@),
{
    let plain = credentials_text(client_id, secret);
    let encoded = base64_encode(plain.as_str());
    basic_header_text(encoded.as_str())
}

/// The `Authorization` value that presents an access token.
pub fn bearer_auth_text(token: &str) -> (header: String)
    ensures
        header@ == bearer_auth(token@),
{
    String::from_str("Bearer ").concat(token)
}

} // verus!
