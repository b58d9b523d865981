//! The `--resume` server conversation token given on the command line.
use vstd::prelude::*;
use crate::text::push_chars;

verus! {

/// An ASCII hexadecimal digit, either case.
pub open spec fn is_hex_digit(c: char) -> bool {
    ('0' <= c && c <= '9') || ('a' <= c && c <= 'f') || ('A' <= c && c <= 'F')
}

/// The 36-character hyphenated form: `-` at positions 8, 13, 18 and 23 and
/// hexadecimal digits everywhere else.
pub open spec fn is_hyphenated_uuid(s: Seq<char>) -> bool {
    &&& s.len() == 36
    &&& forall|i: int|
        0 <= i < 36 ==> if i == 8 || i == 13 || i == 18 || i == 23 {
            #[trigger] s[i] == '-'
        } else {
            is_hex_digit(s[i])
        }
}

/// `c` lowered if it is an ASCII capital letter.
pub open spec fn ascii_lower(c: char) -> char {
    if 'A' <= c && c <= 'Z' {
        ((c as u32) + 32) as char
    } else {
        c
    }
}

/// The strings `uuid::Uuid::parse_str` accepts: 32 hexadecimal digits; the
/// hyphenated form; the hyphenated form in braces; or the hyphenated form
/// after a `urn:uuid:` prefix in any letter case.
pub open spec fn is_uuid_text(s: Seq<char>) -> bool {
    ||| s.len() == 32 && forall|i: int| 0 <= i < 32 ==> is_hex_digit(#[trigger] s[i])
    ||| is_hyphenated_uuid(s)
    ||| s.len() == 38 && s[0] == '{' && s[37] == '}' && is_hyphenated_uuid(s.subrange(1, 37))
    ||| s.len() == 45 && (forall|i: int| 0 <= i < 9 ==> ascii_lower(#[trigger] s[i]) == "urn:uuid:"@[i])
        && is_hyphenated_uuid(s.skip(9))
}

/// `uuid::Uuid::parse_str`: whether the string parses as a UUID. Its parser
/// accepts exactly the four forms of `is_uuid_text`, with hexadecimal digits
/// in either case, and rejects every other string, non-ASCII ones included.
#[verifier::external_body]
fn is_uuid(s: &str) -> (ok: bool)
    ensures
        ok == is_uuid_text(s@),
{
    uuid::Uuid::parse_str(s).is_ok()
}

/// A server conversation token that names a conversation to resume.
pub struct ServerConversationToken {
    token: String,
}

impl ServerConversationToken {
    /// The token's text.
    pub closed spec fn view(self) -> Seq<char> {
        self.token@
    }

    /// The token's text.
    pub fn as_str(&self) -> (s: &str)
        ensures
            s@ == self.view(),
    {
        self.token.as_str()
    }
}

/// The message for a token that is not a UUID.
pub open spec fn invalid_token_message(token: Seq<char>) -> Seq<char> {
    "invalid server conversation token: "@ + token
}

/// Wraps `token` given whether it parsed as a UUID, or reports it invalid.
pub fn resume_token_from_check(token: String, token_is_uuid: bool) -> (res: Result<
    ServerConversationToken,
    String,
>)
    ensures
        token_is_uuid ==> (res matches Ok(t) && t.view() == token@),
        !token_is_uuid ==> (res matches Err(m) && m@ == invalid_token_message(token@)),
{
    if token_is_uuid {
        Ok(ServerConversationToken { token })
    } else {
        let mut message = String::new();
        push_chars(&mut message, "invalid server conversation token: ");
        push_chars(&mut message, token.as_str());
        Err(message)
    }
}

/// Validates and wraps a server conversation token from the command line:
/// it must parse as a UUID.
pub fn parse_resume_token(token: String) -> (res: Result<ServerConversationToken, String>)
    ensures
        is_uuid_text(token@) ==> (res matches Ok(t) && t.view() == token@),
        !is_uuid_text(token@) ==> (res matches Err(m) && m@ == invalid_token_message(token@)),
{
    let ok = is_uuid(token.as_str());
    resume_token_from_check(token, ok)
}

} // verus!
