//! The credential headers of provider requests. A blank credential (a
//! local endpoint without auth) sends no header; a credential that cannot
//! stand in an HTTP header value is an explicit error, never a request
//! that silently goes out without auth.

use vstd::prelude::*;
use crate::providers_http::ANTHROPIC_VERSION;
use crate::providers_image::ImageProviderError;
use crate::providers_moderation::ModerationProviderError;
use crate::providers_text::{TextModelProviderError, TextModelProviderErrorKind};
use crate::providers_tts::TtsProviderError;
use crate::registry::{ModelDiscoveryError, ModelsAuth};
use crate::schema::ProviderKind;
use crate::text::{is_blank, is_blank_str};

verus! {

/// A character that may stand in an HTTP header value: a tab, or any
/// character from the space up other than DEL (each byte of its UTF-8
/// encoding is then a byte that `http::HeaderValue::from_str` accepts).
pub open spec fn header_char_ok(c: char) -> bool {
    c == '\t' || (c as u32 >= 32 && c as u32 != 127)
}

/// Every character of `s` may stand in an HTTP header value.
pub open spec fn header_value_ok(s: Seq<char>) -> bool {
    forall|i: int| 0 <= i < s.len() ==> header_char_ok(#[trigger] s[i])
}

/// Whether `s` may be sent as an HTTP header value.
pub fn is_header_value(s: &str) -> (r: bool)
    ensures
        r == header_value_ok(s@),
{
    let n = s.unicode_len();
    let mut i: usize = 0;
    while i < n
        invariant
            n == s@.len(),
            i <= n,
            forall|j: int| 0 <= j < i ==> header_char_ok(#[trigger] s@[j]),
        decreases n - i,
    {
        let c = s.get_char(i);
        if !(c == '\t' || (c as u32 >= 32 && c as u32 != 127)) {
            return false;
        }
        i = i + 1;
    }
    true
}

/// How a credential is sent.
#[derive(Clone, Copy, Debug, PartialEq, Eq, Structural)]
pub enum AuthScheme {
    /// `Authorization: Bearer {credential}`.
    Bearer,
    /// `x-api-key: {credential}`.
    ApiKey,
}

/// The header a credential becomes.
#[derive(Clone, Debug, PartialEq, Eq)]
pub enum CredentialHeader {
    /// A blank credential: no header.
    Skip,
    /// The header's name and value.
    Header { name: String, value: String },
    /// The value would hold a character illegal in a header.
    Illegal,
}

/// The name and value of the header that carries `credential`.
pub open spec fn auth_header_of(scheme: AuthScheme, credential: Seq<char>) -> (Seq<char>, Seq<char>) {
    match scheme {
        AuthScheme::Bearer => ("Authorization"@, "Bearer "@ + credential),
        AuthScheme::ApiKey => ("x-api-key"@, credential),
    }
}

/// `h` is what `credential` becomes under `scheme`.
pub open spec fn credential_header_is(h: CredentialHeader, scheme: AuthScheme, credential: Seq<char>) -> bool {
    if is_blank(credential) {
        h is Skip
    } else if header_value_ok(auth_header_of(scheme, credential).1) {
        h matches CredentialHeader::Header { name, value } && (name@, value@) == auth_header_of(
            scheme,
            credential,
        )
    } else {
        h is Illegal
    }
}

pub fn credential_header(scheme: AuthScheme, credential: &str) -> (r: CredentialHeader)
    ensures
        credential_header_is(r, scheme, credential@),
{
    if is_blank_str(credential) {
        return CredentialHeader::Skip;
    }
    let (name, value) = match scheme {
        AuthScheme::Bearer => {
            let mut v = String::from_str("Bearer ");
            v.append(credential);
            (String::from_str("Authorization"), v)
        },
        AuthScheme::ApiKey => (String::from_str("x-api-key"), String::from_str(credential)),
    };
    if is_header_value(value.as_str()) {
        CredentialHeader::Header { name, value }
    } else {
        CredentialHeader::Illegal
    }
}

/// The text of a credential that cannot stand in a header.
pub open spec fn illegal_credential_text() -> Seq<char> {
    "provider credential contains bytes illegal in an HTTP header value"@
}

/// Headers as name and value pairs, in order.
pub open spec fn pushed(
    before: Seq<(String, String)>,
    after: Seq<(String, String)>,
    header: Option<(Seq<char>, Seq<char>)>,
) -> bool {
    match header {
        None => after == before,
        Some((name, value)) => after.len() == before.len() + 1 && after.take(before.len() as int)
            == before && after.last().0@ == name && after.last().1@ == value,
    }
}

fn push_credential(
    headers: &mut Vec<(String, String)>,
    scheme: AuthScheme,
    credential: &str,
) -> (r: bool)
    ensures
        r == (is_blank(credential@) || header_value_ok(auth_header_of(scheme, credential@).1)),
        r ==> pushed(
            old(headers)@,
            final(headers)@,
            if is_blank(credential@) {
                None
            } else {
                Some(auth_header_of(scheme, credential@))
            },
        ),
        !r ==> final(headers)@ == old(headers)@,
{
    match credential_header(scheme, credential) {
        CredentialHeader::Skip => true,
        CredentialHeader::Header { name, value } => {
            headers.push((name, value));
            assert(headers@.take(old(headers)@.len() as int) =~= old(headers)@);
            true
        },
        CredentialHeader::Illegal => false,
    }
}

/// The text provider's credential-header failure.
pub open spec fn is_text_header_error(e: TextModelProviderError) -> bool {
    e.kind == TextModelProviderErrorKind::Provider && e.code@ == "text_provider_credential_header"@
        && e.message@ == illegal_credential_text()
}

/// Adds `Authorization: Bearer {credential}` to `headers`, unless the
/// credential is blank; a credential illegal in a header is an error and
/// adds nothing.
pub fn push_bearer_auth(headers: &mut Vec<(String, String)>, credential: &str) -> (r: Result<
    (),
    TextModelProviderError,
>)
    ensures
        r is Ok <==> (is_blank(credential@) || header_value_ok("Bearer "@ + credential@)),
        r is Ok ==> pushed(
            old(headers)@,
            final(headers)@,
            if is_blank(credential@) {
                None
            } else {
                Some(("Authorization"@, "Bearer "@ + credential@))
            },
        ),
        r matches Err(e) ==> is_text_header_error(e) && final(headers)@ == old(headers)@,
{
    if push_credential(headers, AuthScheme::Bearer, credential) {
        Ok(())
    } else {
        Err(
            TextModelProviderError::provider(
                "text_provider_credential_header",
                "provider credential contains bytes illegal in an HTTP header value",
            ),
        )
    }
}

/// Adds `x-api-key: {credential}` to `headers` (the Anthropic form), unless
/// the credential is blank; a credential illegal in a header is an error
/// and adds nothing.
pub fn push_x_api_key(headers: &mut Vec<(String, String)>, credential: &str) -> (r: Result<
    (),
    TextModelProviderError,
>)
    ensures
        r is Ok <==> (is_blank(credential@) || header_value_ok(credential@)),
        r is Ok ==> pushed(
            old(headers)@,
            final(headers)@,
            if is_blank(credential@) {
                None
            } else {
                Some(("x-api-key"@, credential@))
            },
        ),
        r matches Err(e) ==> is_text_header_error(e) && final(headers)@ == old(headers)@,
{
    if push_credential(headers, AuthScheme::ApiKey, credential) {
        Ok(())
    } else {
        Err(
            TextModelProviderError::provider(
                "text_provider_credential_header",
                "provider credential contains bytes illegal in an HTTP header value",
            ),
        )
    }
}

/// The `Authorization` value of an image, speech or moderation request:
/// none for a blank credential, `Err(())` for one illegal in a header.
pub open spec fn bearer_of(credential: Seq<char>) -> Result<Option<Seq<char>>, ()> {
    if is_blank(credential) {
        Ok(None)
    } else if header_value_ok("Bearer "@ + credential) {
        Ok(Some("Bearer "@ + credential))
    } else {
        Err(())
    }
}

fn bearer_header(credential: &str) -> (r: Result<Option<String>, ()>)
    ensures
        match (r, bearer_of(credential@)) {
            (Ok(None), Ok(None)) => true,
            (Ok(Some(v)), Ok(Some(w))) => v@ == w,
            (Err(()), Err(())) => true,
            _ => false,
        },
{
    match credential_header(AuthScheme::Bearer, credential) {
        CredentialHeader::Skip => Ok(None),
        CredentialHeader::Header { value, .. } => Ok(Some(value)),
        CredentialHeader::Illegal => Err(()),
    }
}

/// The `Authorization` value of an image request (`bearer_of`); an
/// illegal credential is `image_provider_credential_header`.
pub fn image_auth_header(credential: &str) -> (r: Result<Option<String>, ImageProviderError>)
    ensures
        match (r, bearer_of(credential@)) {
            (Ok(None), Ok(None)) => true,
            (Ok(Some(v)), Ok(Some(w))) => v@ == w,
            (Err(e), Err(())) => e.code@ == "image_provider_credential_header"@ && e.message@
                == illegal_credential_text(),
            _ => false,
        },
{
    match bearer_header(credential) {
        Ok(v) => Ok(v),
        Err(()) => Err(
            ImageProviderError::provider(
                "image_provider_credential_header",
                "provider credential contains bytes illegal in an HTTP header value",
            ),
        ),
    }
}

/// The `Authorization` value of a speech request (`bearer_of`); an illegal
/// credential is `tts_provider_credential_header`.
pub fn tts_auth_header(credential: &str) -> (r: Result<Option<String>, TtsProviderError>)
    ensures
        match (r, bearer_of(credential@)) {
            (Ok(None), Ok(None)) => true,
            (Ok(Some(v)), Ok(Some(w))) => v@ == w,
            (Err(e), Err(())) => e.code@ == "tts_provider_credential_header"@ && e.message@
                == illegal_credential_text(),
            _ => false,
        },
{
    match bearer_header(credential) {
        Ok(v) => Ok(v),
        Err(()) => Err(
            TtsProviderError::provider(
                "tts_provider_credential_header",
                "provider credential contains bytes illegal in an HTTP header value",
            ),
        ),
    }
}

/// The `Authorization` value of a moderation request (`bearer_of`); an
/// illegal credential is `moderation_provider_credential_header`.
pub fn moderation_auth_header(credential: &str) -> (r: Result<Option<String>, ModerationProviderError>)
    ensures
        match (r, bearer_of(credential@)) {
            (Ok(None), Ok(None)) => true,
            (Ok(Some(v)), Ok(Some(w))) => v@ == w,
            (Err(e), Err(())) => e.code@ == "moderation_provider_credential_header"@ && e.message@
                == illegal_credential_text(),
            _ => false,
        },
{
    match bearer_header(credential) {
        Ok(v) => Ok(v),
        Err(()) => Err(
            ModerationProviderError::provider(
                "moderation_provider_credential_header",
                "provider credential contains bytes illegal in an HTTP header value",
            ),
        ),
    }
}

/// The headers of a `/models` listing: JSON content type, the Anthropic
/// version for Anthropic providers, and the credential in the listing's
/// auth form; a credential illegal in a header is a `credential_header`
/// failure.
pub fn models_request_headers(auth: ModelsAuth, credential: &str, kind: ProviderKind) -> (r: Result<
    Vec<(String, String)>,
    ModelDiscoveryError,
>)
    ensures
        ({
            let scheme = match auth {
                ModelsAuth::Bearer => AuthScheme::Bearer,
                ModelsAuth::ApiKey => AuthScheme::ApiKey,
            };
            let legal = is_blank(credential@) || header_value_ok(auth_header_of(scheme, credential@).1);
            &&& legal ==> (r matches Ok(h) && {
                let base_len: int = if kind == ProviderKind::AnthropicMessages { 2 } else { 1 };
                &&& h@[0].0@ == "content-type"@ && h@[0].1@ == "application/json"@
                &&& kind == ProviderKind::AnthropicMessages ==> h@[1].0@ == "anthropic-version"@
                    && h@[1].1@ == ANTHROPIC_VERSION@
                &&& is_blank(credential@) ==> h@.len() == base_len
                &&& !is_blank(credential@) ==> h@.len() == base_len + 1 && (h@[base_len].0@,
                    h@[base_len].1@) == auth_header_of(scheme, credential@)
            })
            &&& !legal ==> (r matches Err(ModelDiscoveryError::Http { code, message }) && code@
                == "credential_header"@ && message@ == illegal_credential_text())
        }),
{
    let mut headers: Vec<(String, String)> = Vec::new();
    headers.push((String::from_str("content-type"), String::from_str("application/json")));
    if kind == ProviderKind::AnthropicMessages {
        headers.push((String::from_str("anthropic-version"), String::from_str(ANTHROPIC_VERSION)));
    }
    let scheme = match auth {
        ModelsAuth::Bearer => AuthScheme::Bearer,
        ModelsAuth::ApiKey => AuthScheme::ApiKey,
    };
    let ghost before = headers@;
    if push_credential(&mut headers, scheme, credential) {
        proof {
            if !is_blank(credential@) {
                assert(headers@.take(before.len() as int)[0] == headers@[0]);
                if kind == ProviderKind::AnthropicMessages {
                    assert(headers@.take(before.len() as int)[1] == headers@[1]);
                }
            }
        }
        Ok(headers)
    } else {
        Err(
            ModelDiscoveryError::Http {
                code: String::from_str("credential_header"),
                message: String::from_str(
                    "provider credential contains bytes illegal in an HTTP header value",
                ),
            },
        )
    }
}

} // verus!
