//! The credential and the headers that every request carries.
use vstd::prelude::*;

verus! {

#[verifier::external_type_specification]
#[verifier::external_body]
pub struct ExHeaderValue(reqwest::header::HeaderValue);

#[verifier::external_type_specification]
#[verifier::external_body]
pub struct ExInvalidHeaderValue(reqwest::header::InvalidHeaderValue);

/// A character may stand in a header value: a tab, or any character from the
/// space upwards except DEL. Every character beyond ASCII encodes to bytes
/// of 0x80 and above in UTF-8, which a header value admits.
pub open spec fn header_char_ok(c: char) -> bool {
    (c as u32 >= 32 && c as u32 != 127) || c == '\t'
}

/// Every character of `s` may stand in a header value.
pub open spec fn header_text_ok(s: Seq<char>) -> bool {
    forall|i: int| 0 <= i < s.len() ==> header_char_ok(#[trigger] s[i])
}

/// Relies on `HeaderValue::from_str`, which refuses a string exactly when one of
/// its bytes is below 32 (but for a tab) or is 127.
#[verifier::external_body]
fn header_value(s: &str) -> (r: Result<reqwest::header::HeaderValue, reqwest::header::InvalidHeaderValue>)
    ensures
        r is Ok <==> header_text_ok(s@),
{
    reqwest::header::HeaderValue::from_str(s)
}

/// The header that carries the access key.
pub const ACCESS_KEY_HEADER: &'static str = "X-Access-Key";

/// The header that declares the content type.
pub const CONTENT_TYPE_HEADER: &'static str = "Content-type";

/// The content type of JSON, as a header value.
pub fn json_content_type() -> reqwest::header::HeaderValue {
    proof {
        reveal_strlit("application/json");
    }
    header_value("application/json").unwrap()
}

/// Why the process cannot start.
#[derive(Debug, Clone, Copy, PartialEq, Eq, Structural)]
pub enum StartupError {
    /// No credential was configured.
    MissingCredential,
    /// The credential is the empty string.
    EmptyCredential,
    /// The credential holds a character that a header value cannot carry.
    InvalidCredential,
}

/// The access key, checked once at startup, with its encoded header value.
pub struct Credential {
    key: String,
    header: reqwest::header::HeaderValue,
}

impl Credential {
    pub closed spec fn key_view(&self) -> Seq<char> {
        self.key@
    }

    /// The access key as it was configured.
    pub fn key(&self) -> (r: &str)
        ensures
            r@ == self.key_view(),
    {
        self.key.as_str()
    }

    /// The key encoded as the value of the access header.
    pub fn header_value(&self) -> &reqwest::header::HeaderValue {
        &self.header
    }
}

/// Checks the configured access key: it must be present, non-empty and
/// encodable as a header value.
pub fn load_credential(configured: Option<String>) -> (r: Result<Credential, StartupError>)
    ensures
        configured is None ==> r == Err::<Credential, StartupError>(StartupError::MissingCredential),
        configured matches Some(k) ==> {
            &&& k@.len() == 0 ==> r == Err::<Credential, StartupError>(StartupError::EmptyCredential)
            &&& (k@.len() > 0 && !header_text_ok(k@)) ==> r == Err::<Credential, StartupError>(StartupError::InvalidCredential)
            &&& (k@.len() > 0 && header_text_ok(k@)) ==> (r matches Ok(c) && c.key_view() == k@)
        },
{
    match configured {
        None => Err(StartupError::MissingCredential),
        Some(key) => {
            if key.as_str().is_empty() {
                Err(StartupError::EmptyCredential)
            } else {
                match header_value(key.as_str()) {
                    Ok(header) => Ok(Credential { key, header }),
                    Err(_) => Err(StartupError::InvalidCredential),
                }
            }
        },
    }
}

} // verus!
