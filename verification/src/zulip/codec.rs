//! Text encodings that requests to the team-chat side need: Base64 for the
//! credentials, JSON string literals for values inside a query parameter,
//! and the resolution of a path against the site's address.

use vstd::prelude::*;
use vstd::string::StringSliceAdditionalSpecFns;

verus! {

/// The standard, padded Base64 encoding of the UTF-8 bytes of a text.
pub uninterp spec fn base64_of(text: Seq<char>) -> Seq<char>;

/// The JSON string literal for a text, or the reason why there is none.
pub uninterp spec fn json_quoted(text: Seq<char>) -> Result<Seq<char>, Seq<char>>;

/// The address that a reference resolves to against a base address, or the
/// reason why the base or the result is not an address.
pub uninterp spec fn url_joined(base: Seq<char>, reference: Seq<char>) -> Result<
    Seq<char>,
    Seq<char>,
>;

/// What is read out of an address: its scheme, its host and its port, each
/// as the address has it; or the reason why the text is not an address.
pub uninterp spec fn url_parts(text: Seq<char>) -> Result<
    (Seq<char>, Option<Seq<char>>, Option<u16>),
    Seq<char>,
>;

/// Whether a text of `len` bytes is short enough for its Base64 encoding
/// to have a length.
pub open spec fn base64_fits(len: nat) -> bool {
    len / 3 * 4 + 4 <= usize::MAX
}

/// Encodes the bytes of `text` with the `encode` method of
/// `base64::engine::general_purpose::STANDARD`. The text must be short
/// enough for the encoded length to fit the machine's word, else `encode`
/// panics.
#[verifier::external_body]
pub(crate) fn base64_encode(text: &str) -> (r: String)
    requires
        base64_fits(text.spec_bytes().len()),
    ensures
        r@ == base64_of(text@),
{
    base64::Engine::encode(&base64::engine::general_purpose::STANDARD, text)
}

/// Serializes `text` as a JSON string with `serde_json::to_string`; an
/// error is given as its message. For a text there is none: the literal is
/// written into a buffer in memory, which takes whatever is written.
#[verifier::external_body]
pub(crate) fn json_quote(text: &str) -> (r: Result<String, String>)
    ensures
        r is Ok,
        match r {
            Ok(quoted) => json_quoted(text@) == Ok::<Seq<char>, Seq<char>>(quoted@),
            Err(reason) => json_quoted(text@) == Err::<Seq<char>, Seq<char>>(reason@),
        },
{
    serde_json::to_string(text).map_err(|e| e.to_string())
}

/// Parses `base` with `url::Url::parse` and resolves `reference` against it
/// with `Url::join`; the result is given as its text, an error of either
/// call as its message.
#[verifier::external_body]
pub(crate) fn url_join(base: &str, reference: &str) -> (r: Result<String, String>)
    ensures
        match r {
            Ok(joined) => url_joined(base@, reference@) == Ok::<Seq<char>, Seq<char>>(joined@),
            Err(reason) => url_joined(base@, reference@) == Err::<Seq<char>, Seq<char>>(reason@),
        },
{
    match url::Url::parse(base) {
        Ok(parsed) => parsed.join(reference).map(String::from).map_err(|e| e.to_string()),
        Err(e) => Err(e.to_string()),
    }
}

/// The parts of an address that the bridge reads.
#[derive(Debug, Clone)]
pub struct UrlParts {
    pub scheme: String,
    pub host: Option<String>,
    pub port: Option<u16>,
}

impl UrlParts {
    /// The parts as plain values.
    pub open spec fn view(&self) -> (Seq<char>, Option<Seq<char>>, Option<u16>) {
        (
            self.scheme@,
            match self.host {
                Some(h) => Some(h@),
                None => None,
            },
            self.port,
        )
    }
}

/// Parses `text` with `url::Url::parse` and reads the result's `scheme`,
/// `host_str` and `port`; an error is given as its message.
#[verifier::external_body]
pub(crate) fn url_parse(text: &str) -> (r: Result<UrlParts, String>)
    ensures
        match r {
            Ok(parts) => url_parts(text@) == Ok::<
                (Seq<char>, Option<Seq<char>>, Option<u16>),
                Seq<char>,
            >(parts.view()),
            Err(reason) => url_parts(text@) == Err::<
                (Seq<char>, Option<Seq<char>>, Option<u16>),
                Seq<char>,
            >(reason@),
        },
{
    match url::Url::parse(text) {
        Ok(parsed) => Ok(
            UrlParts {
                scheme: parsed.scheme().to_owned(),
                host: parsed.host_str().map(ToOwned::to_owned),
                port: parsed.port(),
            },
        ),
        Err(e) => Err(e.to_string()),
    }
}

} // verus!
