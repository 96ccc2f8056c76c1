//! The registration ceremony: `start` issues a challenge and lays out the
//! pending registration for the session store; `finish` judges the record that
//! the store handed over (taken and deleted in one step) and verifies the
//! signed response against exactly the state that was issued with it.
use vstd::prelude::*;

use webauthn_rs::prelude::{
    CreationChallengeResponse, Passkey, RegisterPublicKeyCredential, Uuid, WebauthnError,
};

use crate::engine::{base64url, base64url_text, state_from_json, state_to_json, CeremonyEngine};
use crate::model::{NewUserInfo, RegistrationError};
use crate::record::{
    check_taken, encode_pending, item_view, name_user_id, pending_item, session_outcome,
    stored_text, taken_view, Attribute, LiveSession,
};

verus! {

/// Seconds that a pending registration stays usable after it was issued.
pub const SESSION_TTL_SECS: i64 = 60;

/// Beginning of a session to register a new user: what the caller gets back.
pub struct StartRegistrationSession {
    /// Session id.
    pub session_id: String,
    /// Credential creation options.
    pub credential_creation_options: CreationChallengeResponse,
}

/// End of a session to register a new user: what the caller sends.
pub struct FinishRegistrationSession {
    /// Session id.
    pub session_id: String,
    /// Public key credential.
    pub public_key_credential: RegisterPublicKeyCredential,
}

/// A started registration: the answer for the caller, and the pending
/// registration that the session store must keep under the session's key.
pub struct StartedRegistration {
    pub session: StartRegistrationSession,
    /// Fresh opaque handle of the prospective user.
    pub user_handle: String,
    /// The engine's ceremony state, as JSON text.
    pub ceremony_state: String,
    /// The instant, in seconds, from which the session can no longer finish.
    pub expires_at: i64,
    /// The stored item of the pending registration.
    pub item: Vec<Attribute>,
}

/// A verified new credential, with the handle of the user it belongs to.
pub struct RegisteredCredential {
    pub passkey: Passkey,
    pub user_handle: String,
}

/// `a` followed by `b`.
fn join_bytes(a: &[u8; 16], b: &[u8; 16]) -> (r: Vec<u8>)
    ensures
        r@ == a@ + b@,
{
    let mut v: Vec<u8> = Vec::new();
    let mut i: usize = 0;
    while i < 16
        invariant
            i <= 16,
            v@ == a@.take(i as int),
        decreases 16 - i,
    {
        v.push(a[i]);
        assert(a@.take(i + 1) =~= a@.take(i as int).push(a@[i as int]));
        i = i + 1;
    }
    assert(a@.take(16) =~= a@);
    let mut j: usize = 0;
    while j < 16
        invariant
            j <= 16,
            v@ == a@ + b@.take(j as int),
        decreases 16 - j,
    {
        v.push(b[j]);
        assert(b@.take(j + 1) =~= b@.take(j as int).push(b@[j as int]));
        assert(a@ + b@.take(j + 1) =~= (a@ + b@.take(j as int)).push(b@[j as int]));
        j = j + 1;
    }
    assert(b@.take(16) =~= b@);
    v
}

/// Starts the registration of a new user at instant `now` (seconds). It
/// succeeds exactly when the username and the display name are not empty.
/// The session id spells 32 random bytes (two random identifiers) in
/// unpadded URL-safe base64; the user handle spells 16 more.
pub fn start_registration(engine: &CeremonyEngine, user_info: &NewUserInfo, now: i64) -> (r: Result<
    StartedRegistration,
    RegistrationError,
>)
    requires
        now <= i64::MAX - SESSION_TTL_SECS,
    ensures
        r is Ok <==> user_info.username@.len() > 0 && user_info.display_name@.len() > 0,
        r matches Err(e) ==> e == RegistrationError::InvalidUserInfo,
        r matches Ok(s) ==> {
            &&& s.expires_at == now + SESSION_TTL_SECS
            &&& item_view(s.item@) == pending_item(
                s.session.session_id@,
                s.user_handle@,
                user_info.username@,
                user_info.display_name@,
                s.ceremony_state@,
                s.expires_at as int,
            )
            &&& s.session.session_id@.len() == 43
            &&& s.user_handle@.len() == 22
            &&& exists|b: Seq<u8>| b.len() == 32 && s.session.session_id@ == base64url_text(b)
            &&& exists|b: Seq<u8>| b.len() == 16 && s.user_handle@ == base64url_text(b)
        },
{
    let user_id = Uuid::new_v4();
    let user_bytes = user_id.into_bytes();
    let (ccr, state) = match engine.begin_registration(user_id, user_info.username.as_str(), user_info.display_name.as_str()) {
        Ok(pair) => pair,
        Err(_) => {
            return Err(RegistrationError::InvalidUserInfo);
        },
    };
    let ceremony_state = match state_to_json(&state) {
        Ok(text) => text,
        Err(_) => {
            return Err(RegistrationError::StateEncoding);
        },
    };
    let user_handle = base64url(user_bytes.as_slice());
    let session_bytes = join_bytes(&Uuid::new_v4().into_bytes(), &Uuid::new_v4().into_bytes());
    let session_id = base64url(session_bytes.as_slice());
    let expires_at = now + SESSION_TTL_SECS;
    let item = encode_pending(session_id.as_str(), user_handle.as_str(), user_info, ceremony_state.as_str(), expires_at);
    Ok(StartedRegistration {
        session: StartRegistrationSession { session_id, credential_creation_options: ccr },
        user_handle,
        ceremony_state,
        expires_at,
        item,
    })
}

/// What the engine's verdict on a live session amounts to: the new credential
/// of the session's user, or a failed ceremony.
pub fn conclude_verification(live: LiveSession, verdict: Result<Passkey, WebauthnError>) -> (r: Result<
    RegisteredCredential,
    RegistrationError,
>)
    ensures
        match verdict {
            Ok(p) => r matches Ok(c) && c.passkey == p && c.user_handle == live.user_handle,
            Err(_) => r == Err::<RegisteredCredential, _>(RegistrationError::CeremonyVerificationFailed),
        },
{
    match verdict {
        Ok(passkey) => Ok(RegisteredCredential { passkey, user_handle: live.user_handle }),
        Err(_) => Err(RegistrationError::CeremonyVerificationFailed),
    }
}

/// Finishes the registration `session` at instant `now` (seconds), given the
/// record that the session store took (and deleted) under its key, if any.
pub fn finish_registration(
    engine: &CeremonyEngine,
    session: &FinishRegistrationSession,
    taken: Option<&Vec<Attribute>>,
    now: i64,
) -> (r: Result<RegisteredCredential, RegistrationError>)
    ensures
        session_outcome(taken_view(taken), now as int) matches Err(e) ==> r == Err::<RegisteredCredential, _>(e),
        r is Ok ==> session_outcome(taken_view(taken), now as int) is Ok,
        r matches Ok(c) ==> Some(c.user_handle@) == stored_text(item_view(taken->0@), name_user_id()),
        session_outcome(taken_view(taken), now as int) is Ok && r is Err ==> r->Err_0
            == RegistrationError::MalformedSession || r->Err_0
            == RegistrationError::CeremonyVerificationFailed,
{
    let live = match check_taken(taken, now) {
        Ok(live) => live,
        Err(e) => {
            return Err(e);
        },
    };
    let state = match state_from_json(live.ceremony_state.as_str()) {
        Ok(state) => state,
        Err(_) => {
            return Err(RegistrationError::MalformedSession);
        },
    };
    let verdict = engine.verify_registration(&session.public_key_credential, &state);
    conclude_verification(live, verdict)
}

} // verus!
