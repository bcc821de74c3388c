//! The credential that each request carries when a client logs in.
use vstd::prelude::*;

verus! {

/// The padded standard base64 text of the UTF-8 encoding of `text`.
pub uninterp spec fn base64_standard(text: Seq<char>) -> Seq<char>;

/// Relies on `base64::Engine::encode` with `general_purpose::STANDARD`: the
/// padded standard base64 text of the UTF-8 bytes of `text`, which depends on
/// `text` alone.
#[verifier::external_body]
fn encode_standard(text: &str) -> (r: String)
    ensures
        r@ == base64_standard(text@),
{
    base64::Engine::encode(&base64::engine::general_purpose::STANDARD, text)
}

/// `username:password`, the text that the credential encodes.
pub open spec fn credential_text(username: Seq<char>, password: Seq<char>) -> Seq<char> {
    username + seq![':'] + password
}

/// The credential of a login by `username` and `password`, where both are given.
pub open spec fn credential_token(username: Option<String>, password: Option<String>) -> Option<
    Seq<char>,
> {
    match (username, password) {
        (Some(u), Some(p)) => Some(base64_standard(credential_text(u@, p@))),
        _ => None,
    }
}

/// Holds the credential, if any, that goes with every request as its
/// authorization header.
#[derive(Debug, Clone)]
pub struct AuthInterceptor {
    token: Option<String>,
}

impl AuthInterceptor {
    pub closed spec fn spec_token(&self) -> Option<Seq<char>> {
        match self.token {
            Some(t) => Some(t@),
            None => None,
        }
    }

    /// The credential of a login: the base64 text of `username:password`
    /// where both are given, and none otherwise.
    pub fn new(username: Option<String>, password: Option<String>) -> (r: AuthInterceptor)
        ensures
            r.spec_token() == credential_token(username, password),
    {
        let token = match (username, password) {
            (Some(u), Some(p)) => {
                let mut text = u.clone();
                let colon = ":";
                proof {
                    reveal_strlit(":");
                }
                text.append(colon);
                text.append(p.as_str());
                assert(text@ =~= credential_text(u@, p@));
                Some(encode_standard(text.as_str()))
            },
            _ => None,
        };
        AuthInterceptor { token }
    }

    /// The value of the authorization header, if one is sent.
    pub fn token(&self) -> (r: Option<&str>)
        ensures
            match r {
                Some(t) => self.spec_token() == Some(t@),
                None => self.spec_token() is None,
            },
    {
        match &self.token {
            Some(t) => Some(t.as_str()),
            None => None,
        }
    }
}

} // verus!
