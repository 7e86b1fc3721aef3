//! The request that trades the refresh token for an access token.
use base64::prelude::{Engine, BASE64_STANDARD};
use vstd::prelude::*;

use crate::text::{byte_len, lemma_byte_len_concat};

verus! {

/// The standard Base64 encoding (RFC 4648 alphabet, with `=` padding) of
/// the UTF-8 bytes of `text`, as base64's `BASE64_STANDARD.encode` returns it.
pub uninterp spec fn base64_standard(text: Seq<char>) -> Seq<char>;

/// base64's `Engine::encode` with `BASE64_STANDARD`: the result is named by
/// [`base64_standard`] of the text. The encoder panics when the encoded
/// length overflows `usize`, which the bound on the input rules out.
#[verifier::external_body]
fn encode_base64(text: &str) -> (encoded: String)
    requires
        byte_len(text@) <= isize::MAX,
    ensures
        encoded@ == base64_standard(text@),
{
    BASE64_STANDARD.encode(text)
}

/// The accounts service's token endpoint.
pub open spec fn token_url() -> Seq<char> {
    "https://accounts.spotify.com/api/token"@
}

/// The content type of the token request's form body.
pub open spec fn form_content_type() -> Seq<char> {
    "application/x-www-form-urlencoded"@
}

/// The client credentials as they are encoded: `client_id:client_secret`.
pub open spec fn credentials_text(client_id: Seq<char>, client_secret: Seq<char>) -> Seq<char> {
    client_id + ":"@ + client_secret
}

/// The value of the `Authorization` header: `Basic ` and the encoded credentials.
pub open spec fn authorization_text(client_id: Seq<char>, client_secret: Seq<char>) -> Seq<char> {
    "Basic "@ + base64_standard(credentials_text(client_id, client_secret))
}

/// A POST request to the token endpoint: URL, content type, authorization
/// header and the form pairs of the body.
#[derive(Debug, Clone, PartialEq, Eq)]
pub struct TokenRequest {
    pub url: String,
    pub content_type: String,
    pub authorization: String,
    pub form: Vec<(String, String)>,
}

/// `client_id:client_secret`.
pub fn credentials(client_id: &str, client_secret: &str) -> (text: String)
    ensures
        text@ == credentials_text(client_id@, client_secret@),
{
    proof { reveal_strlit(":"); }
    let mut text = String::from_str(client_id);
    text.append(":");
    text.append(client_secret);
    text
}

/// The `Authorization` header value for already encoded credentials.
pub fn basic_authorization(encoded: &str) -> (value: String)
    ensures
        value@ == "Basic "@ + encoded@,
{
    proof { reveal_strlit("Basic "); }
    let mut value = String::from_str("Basic ");
    value.append(encoded);
    value
}

/// The `Authorization` header value of the token request: the credentials
/// `client_id:client_secret` in standard Base64 behind `Basic `.
pub fn authorization(client_id: &str, client_secret: &str) -> (value: String)
    requires
        byte_len(client_id@) + 1 + byte_len(client_secret@) <= isize::MAX,
    ensures
        value@ == authorization_text(client_id@, client_secret@),
{
    let text = credentials(client_id, client_secret);
    proof {
        reveal_strlit(":");
        lemma_byte_len_concat(client_id@ + ":"@, client_secret@);
        lemma_byte_len_concat(client_id@, ":"@);
        assert(byte_len(":"@) == 1) by {
            let colon = ":"@;
            assert(colon.len() == 1 && colon[0] == ':');
            assert(colon.drop_first().len() == 0);
            assert((':' as u32) == 58);
            assert(vstd::utf8::encode_utf8(colon).len() == 1) by {
                reveal_with_fuel(vstd::utf8::encode_utf8, 2);
            }
        }
    }
    let encoded = encode_base64(text.as_str());
    basic_authorization(encoded.as_str())
}

/// The token request that trades `refresh_token` for an access token, sent
/// with the client's credentials.
pub fn token_request(client_id: &str, client_secret: &str, refresh_token: &str) -> (request: TokenRequest)
    requires
        byte_len(client_id@) + 1 + byte_len(client_secret@) <= isize::MAX,
    ensures
        request.url@ == token_url(),
        request.content_type@ == form_content_type(),
        request.authorization@ == authorization_text(client_id@, client_secret@),
        request.form@.len() == 2,
        request.form@[0].0@ == "grant_type"@ && request.form@[0].1@ == "refresh_token"@,
        request.form@[1].0@ == "refresh_token"@ && request.form@[1].1@ == refresh_token@,
{
    proof {
        reveal_strlit("https://accounts.spotify.com/api/token");
        reveal_strlit("application/x-www-form-urlencoded");
        reveal_strlit("grant_type");
        reveal_strlit("refresh_token");
    }
    let mut form: Vec<(String, String)> = Vec::new();
    form.push((String::from_str("grant_type"), String::from_str("refresh_token")));
    form.push((String::from_str("refresh_token"), String::from_str(refresh_token)));
    TokenRequest {
        url: String::from_str("https://accounts.spotify.com/api/token"),
        content_type: String::from_str("application/x-www-form-urlencoded"),
        authorization: authorization(client_id, client_secret),
        form,
    }
}

} // verus!
