//! The WebAuthn ceremony engine: issues registration challenges and verifies
//! signed responses. The cryptography is webauthn-rs's; this module only
//! declares what the library relies on from it.
use vstd::prelude::*;

use base64::Engine as _;
use webauthn_rs::prelude::{
    CreationChallengeResponse, Passkey, PasskeyRegistration, RegisterPublicKeyCredential, Url, Uuid,
    WebauthnError,
};
use webauthn_rs::{Webauthn, WebauthnBuilder};

use crate::model::RegistrationError;

verus! {

#[verifier::external_type_specification]
#[verifier::external_body]
pub struct ExWebauthn(Webauthn);

#[verifier::external_type_specification]
#[verifier::external_body]
pub struct ExWebauthnError(WebauthnError);

#[verifier::external_type_specification]
#[verifier::external_body]
pub struct ExUuid(Uuid);

#[verifier::external_type_specification]
#[verifier::external_body]
pub struct ExCreationChallengeResponse(CreationChallengeResponse);

#[verifier::external_type_specification]
#[verifier::external_body]
pub struct ExPasskeyRegistration(PasskeyRegistration);

#[verifier::external_type_specification]
#[verifier::external_body]
pub struct ExRegisterPublicKeyCredential(RegisterPublicKeyCredential);

#[verifier::external_type_specification]
#[verifier::external_body]
pub struct ExPasskey(Passkey);

#[verifier::external_type_specification]
#[verifier::external_body]
pub struct ExJsonError(serde_json::Error);

/// The relying party id that credentials bind to.
pub const RP_ID: &'static str = "localhost";

/// The origin that the relying party serves from.
pub const RP_ORIGIN: &'static str = "http://localhost:5173";

/// The relying party name shown to users.
pub const RP_NAME: &'static str = "Passkey Test";

/// A registration challenge for the client, with the ceremony state that
/// stays with the server.
pub type Challenge = (CreationChallengeResponse, PasskeyRegistration);

/// Relies on `Webauthn::start_passkey_registration`: a fresh challenge for
/// the user, with the state that its response must be verified against. It
/// refuses exactly an empty user name or display name (the identifier's
/// sixteen bytes are never empty).
#[verifier::external_body]
fn start_passkey(webauthn: &Webauthn, user: Uuid, user_name: &str, user_display_name: &str) -> (r: Result<Challenge, WebauthnError>)
    ensures
        r is Ok <==> (user_name@.len() > 0 && user_display_name@.len() > 0),
{
    webauthn.start_passkey_registration(user, user_name, user_display_name, None)
}

/// Relies on `Webauthn::finish_passkey_registration`: it checks the signed
/// response against the state of the ceremony and returns the new credential.
pub assume_specification[ Webauthn::finish_passkey_registration ](
    webauthn: &Webauthn,
    reg: &RegisterPublicKeyCredential,
    state: &PasskeyRegistration,
) -> Result<Passkey, WebauthnError>;

/// Relies on `Uuid::new_v4`: a random identifier.
pub assume_specification[ Uuid::new_v4 ]() -> Uuid;

/// Relies on `Uuid::into_bytes`: the sixteen bytes of the identifier.
pub assume_specification[ Uuid::into_bytes ](u: Uuid) -> [u8; 16];

/// The unpadded URL-safe base64 text of `bytes`.
pub uninterp spec fn base64url_text(bytes: Seq<u8>) -> Seq<char>;

/// A character of the URL-safe base64 alphabet.
pub open spec fn is_base64url_char(c: char) -> bool {
    ('A' <= c <= 'Z') || ('a' <= c <= 'z') || ('0' <= c <= '9') || c == '-' || c == '_'
}

/// Relies on base64's `URL_SAFE_NO_PAD` engine and its `encode`: the
/// unpadded URL-safe base64 text of the bytes, which depends on them alone;
/// four characters for each three bytes, two or three for a last one or two,
/// all of the URL-safe alphabet.
#[verifier::external_body]
pub(crate) fn base64url(bytes: &[u8]) -> (r: String)
    ensures
        r@ == base64url_text(bytes@),
        r@.len() == (4 * bytes@.len() + 2) / 3,
        forall|i: int| 0 <= i < r@.len() ==> is_base64url_char(#[trigger] r@[i]),
{
    base64::engine::general_purpose::URL_SAFE_NO_PAD.encode(bytes)
}

/// Relies on `serde_json::to_string`: the JSON text of a ceremony state. The
/// state's `Serialize` is derived over plain fields with no map, so it does
/// not fail.
#[verifier::external_body]
pub(crate) fn state_to_json(state: &PasskeyRegistration) -> (r: Result<String, serde_json::Error>)
    ensures
        r is Ok,
{
    serde_json::to_string(state)
}

/// Relies on `serde_json::from_str`: the ceremony state that a JSON text holds.
#[verifier::external_body]
pub(crate) fn state_from_json(text: &str) -> Result<PasskeyRegistration, serde_json::Error> {
    serde_json::from_str(text)
}

/// Whether `rp_id` and `rp_origin` make a valid relying party: the origin is
/// a URL with a domain, and `rp_id` is that domain or one of its parents.
pub uninterp spec fn rp_identity_valid(rp_id: Seq<char>, rp_origin: Seq<char>) -> bool;

/// Relies on `Url::parse`, then `WebauthnBuilder::new`, `rp_name` and `build`
/// of webauthn-rs: the engine for the relying party. Only the first two can
/// fail, on the relying party's id and origin alone; `build` always succeeds.
#[verifier::external_body]
fn build_webauthn(rp_id: &str, rp_origin: &str, rp_name: &str) -> (r: Option<Webauthn>)
    ensures
        r is Some <==> rp_identity_valid(rp_id@, rp_origin@),
{
    let origin = Url::parse(rp_origin).ok()?;
    let builder = WebauthnBuilder::new(rp_id, &origin).ok()?;
    builder.rp_name(rp_name).build().ok()
}

/// A configured ceremony engine for one relying party, built once and shared
/// by every request.
pub struct CeremonyEngine {
    webauthn: Webauthn,
}

impl CeremonyEngine {
    /// Builds the engine for the relying party `rp_id`, served at
    /// `rp_origin` and shown to users as `rp_name`.
    pub fn new(rp_id: &str, rp_origin: &str, rp_name: &str) -> (r: Result<CeremonyEngine, RegistrationError>)
        ensures
            r is Ok <==> rp_identity_valid(rp_id@, rp_origin@),
            r matches Err(e) ==> e == RegistrationError::Configuration,
    {
        match build_webauthn(rp_id, rp_origin, rp_name) {
            Some(webauthn) => Ok(CeremonyEngine { webauthn }),
            None => Err(RegistrationError::Configuration),
        }
    }

    /// Issues a challenge for a new user with handle `user_handle`; it is
    /// refused exactly when the username or the display name is empty.
    pub fn begin_registration(&self, user_handle: Uuid, username: &str, display_name: &str) -> (r: Result<
        Challenge,
        WebauthnError,
    >)
        ensures
            r is Ok <==> username@.len() > 0 && display_name@.len() > 0,
    {
        start_passkey(&self.webauthn, user_handle, username, display_name)
    }

    /// Verifies `response` against the ceremony state `state`.
    pub fn verify_registration(
        &self,
        response: &RegisterPublicKeyCredential,
        state: &PasskeyRegistration,
    ) -> Result<Passkey, WebauthnError> {
        self.webauthn.finish_passkey_registration(response, state)
    }
}

} // verus!
