use crate::error::WebauthnError;
use crate::ids::new_uuid;
use crate::models::user::{Data, DataView};
use crate::passkey::{
    allowed_credentials, authentication_verdict, challenge_subject, excluded_credentials,
    registration_verdict, AuthenticationChallenge, RegistrationChallenge,
};
use crate::session::{PendingAuthentication, PendingRegistration, SessionState, SessionView};
use crate::state::RelyingParty;
use vstd::prelude::*;
use webauthn_rs::prelude::{
    AuthenticationResult, CreationChallengeResponse, Passkey, PasskeyAuthentication,
    PasskeyRegistration, PublicKeyCredential, RegisterPublicKeyCredential,
    RequestChallengeResponse,
};
use webauthn_rs::Webauthn;

verus! {

/// The session with `pending` as its pending registration, in place of whatever was
/// pending before.
pub open spec fn with_registration(
    session: SessionView,
    pending: Option<(Seq<char>, u128, PasskeyRegistration)>,
) -> SessionView {
    SessionView { reg_state: pending, ..session }
}

/// The session with `pending` as its pending login, in place of whatever was pending
/// before.
pub open spec fn with_authentication(
    session: SessionView,
    pending: Option<(u128, PasskeyAuthentication)>,
) -> SessionView {
    SessionView { auth_state: pending, ..session }
}

/// Puts a registration challenge that was issued for `username` and `user_id` on the
/// session, in place of any registration pending there, and returns what goes to the
/// client. Where no challenge was issued, the session stays as it is and the error is
/// `Unknown`.
pub fn accept_registration_challenge(
    session: &mut SessionState,
    username: String,
    user_id: u128,
    issued: Option<RegistrationChallenge>,
) -> (reply: Result<CreationChallengeResponse, WebauthnError>)
    ensures
        match issued {
            Some(c) => reply == Ok::<CreationChallengeResponse, WebauthnError>(c.challenge)
                && final(session)@ == with_registration(
                old(session)@,
                Some((username@, user_id, c.state)),
            ),
            None => reply == Err::<CreationChallengeResponse, WebauthnError>(
                WebauthnError::Unknown,
            ) && final(session)@ == old(session)@,
        },
{
    match issued {
        Some(c) => {
            session.reg_state = Some(PendingRegistration { username, user_id, state: c.state });
            Ok(c.challenge)
        },
        None => Err(WebauthnError::Unknown),
    }
}

/// The identifier under which `username` registers: its own where the directory knows
/// the name, so that the new credential joins the ones it has; else the `minted` one.
pub open spec fn registrant(users: DataView, username: Seq<char>, minted: u128) -> u128 {
    match users.user_id(username) {
        Some(id) => id,
        None => minted,
    }
}

/// Starts the registration of a credential for `username` on this session, with
/// `minted` as the identifier that a new user gets.
///
/// The challenge excludes the credentials already registered under the user's
/// identifier. Any registration that was pending on the session is gone, whatever the
/// outcome: only the challenge issued here can be answered afterwards. The one input
/// that is refused, with `Unknown`, is the empty username.
pub fn start_register_as(
    site: &RelyingParty,
    users: &Data,
    session: &mut SessionState,
    username: String,
    minted: u128,
) -> (reply: Result<CreationChallengeResponse, WebauthnError>)
    ensures
        reply is Ok <==> username@.len() > 0,
        reply is Err ==> reply->Err_0 == WebauthnError::Unknown,
        final(session)@ == with_registration(old(session)@, final(session)@.reg_state),
        final(session)@.reg_state is Some <==> reply is Ok,
        reply is Ok ==> final(session)@.reg_state->Some_0.0 == username@,
        reply is Ok ==> final(session)@.reg_state->Some_0.1 == registrant(
            users@,
            username@,
            minted,
        ),
        reply is Ok ==> challenge_subject(reply->Ok_0) == (
            registrant(users@, username@, minted),
            username@,
            username@,
        ),
        reply is Ok ==> excluded_credentials(reply->Ok_0) == users@.credential_ids(
            registrant(users@, username@, minted),
        ),
{
    session.reg_state = None;
    let user_id = match users.user_id(username.as_str()) {
        Some(id) => id,
        None => minted,
    };
    let exclude = users.credential_ids(user_id);
    let issued = site.start_passkey_registration(
        user_id,
        username.as_str(),
        username.as_str(),
        exclude,
    );
    accept_registration_challenge(session, username, user_id, issued)
}

/// Starts the registration of a credential for `username` on this session.
///
/// A username that the directory knows keeps its identifier; any other gets a new
/// random one, of which nothing is known. The rest is as [`start_register_as`] says.
pub fn start_register(
    site: &RelyingParty,
    users: &Data,
    session: &mut SessionState,
    username: String,
) -> (reply: Result<CreationChallengeResponse, WebauthnError>)
    ensures
        reply is Ok <==> username@.len() > 0,
        reply is Err ==> reply->Err_0 == WebauthnError::Unknown,
        final(session)@ == with_registration(old(session)@, final(session)@.reg_state),
        final(session)@.reg_state is Some <==> reply is Ok,
        reply is Ok ==> final(session)@.reg_state->Some_0.0 == username@,
        reply is Ok && users@.user_id(username@) is Some ==> users@.user_id(username@) == Some(
            final(session)@.reg_state->Some_0.1,
        ),
        reply is Ok ==> challenge_subject(reply->Ok_0) == (
            final(session)@.reg_state->Some_0.1,
            username@,
            username@,
        ),
        reply is Ok ==> excluded_credentials(reply->Ok_0) == users@.credential_ids(
            final(session)@.reg_state->Some_0.1,
        ),
{
    let minted = match users.user_id(username.as_str()) {
        Some(id) => id,
        None => new_uuid(),
    };
    start_register_as(site, users, session, username, minted)
}

/// Enters the outcome of a registration in the directory: a credential that passed the
/// check is registered under `user_id`, and `username` is recorded as standing for
/// `user_id`; a failed check changes nothing.
pub fn complete_registration(
    users: &mut Data,
    username: String,
    user_id: u128,
    verdict: Option<Passkey>,
) -> (reply: Result<(), WebauthnError>)
    ensures
        match verdict {
            Some(key) => {
                &&& reply == Ok::<(), WebauthnError>(())
                &&& final(users)@ == old(users)@.with_credential(user_id, key).with_name(
                    username@,
                    user_id,
                )
            },
            None => {
                &&& reply == Err::<(), WebauthnError>(WebauthnError::VerificationFailed)
                &&& final(users)@ == old(users)@
            },
        },
{
    match verdict {
        Some(key) => {
            users.add_credential(user_id, key);
            users.insert_name(username, user_id);
            Ok(())
        },
        None => Err(WebauthnError::VerificationFailed),
    }
}

/// How finishing a registration ends on a session with this pending state: without one
/// it is `CorruptSession`, else what the check of `response` against it says.
pub open spec fn registration_reply(
    pending: Option<(Seq<char>, u128, PasskeyRegistration)>,
    site: Webauthn,
    response: RegisterPublicKeyCredential,
) -> Result<(), WebauthnError> {
    match pending {
        None => Err(WebauthnError::CorruptSession),
        Some(p) => match registration_verdict(site, response, p.2) {
            Some(_) => Ok(()),
            None => Err(WebauthnError::VerificationFailed),
        },
    }
}

/// The directory after finishing a registration: where the check passed, the new
/// credential stands under the pending identifier and the pending username stands for
/// it; else nothing has moved.
pub open spec fn users_after_registration(
    users: DataView,
    pending: Option<(Seq<char>, u128, PasskeyRegistration)>,
    site: Webauthn,
    response: RegisterPublicKeyCredential,
) -> DataView {
    match pending {
        None => users,
        Some(p) => match registration_verdict(site, response, p.2) {
            Some(key) => users.with_credential(p.1, key).with_name(p.0, p.1),
            None => users,
        },
    }
}

/// Finishes the registration that is pending on this session with the authenticator's
/// `response`.
///
/// Without a pending registration the call fails with `CorruptSession` and changes
/// nothing. Otherwise the pending state is used up, whatever the check says: a
/// challenge is answered once.
pub fn finish_register(
    site: &RelyingParty,
    users: &mut Data,
    session: &mut SessionState,
    response: &RegisterPublicKeyCredential,
) -> (reply: Result<(), WebauthnError>)
    ensures
        reply == registration_reply(old(session)@.reg_state, site.site(), *response),
        final(users)@ == users_after_registration(
            old(users)@,
            old(session)@.reg_state,
            site.site(),
            *response,
        ),
        final(session)@ == with_registration(old(session)@, None),
        old(session)@.reg_state is None ==> reply == Err::<(), WebauthnError>(
            WebauthnError::CorruptSession,
        ) && final(session)@ == old(session)@,
{
    match session.reg_state.take() {
        None => Err(WebauthnError::CorruptSession),
        Some(pending) => {
            let verdict = site.finish_passkey_registration(response, &pending.state);
            complete_registration(users, pending.username, pending.user_id, verdict)
        },
    }
}

/// Puts a login challenge that was issued for `user_id` on the session, in place of any
/// login pending there, and returns what goes to the client.
pub fn accept_authentication_challenge(
    session: &mut SessionState,
    user_id: u128,
    issued: AuthenticationChallenge,
) -> (reply: RequestChallengeResponse)
    ensures
        reply == issued.challenge,
        final(session)@ == with_authentication(old(session)@, Some((user_id, issued.state))),
{
    session.auth_state = Some(PendingAuthentication { user_id, state: issued.state });
    issued.challenge
}

/// Whom a login for `username` is for: the identifier of a known user with at least
/// one registered credential.
pub open spec fn login_candidate(users: DataView, username: Seq<char>) -> Result<
    u128,
    WebauthnError,
> {
    match users.user_id(username) {
        None => Err(WebauthnError::UserNotFound),
        Some(id) => match users.credentials(id) {
            Some(keys) => if keys.len() > 0 {
                Ok(id)
            } else {
                Err(WebauthnError::UserHasNoCredentials)
            },
            None => Err(WebauthnError::UserHasNoCredentials),
        },
    }
}

/// Starts a login for `username` on this session.
///
/// An unknown username fails with `UserNotFound`, a user without a registered
/// credential with `UserHasNoCredentials`; every other user gets a challenge over the
/// credentials registered for them. Any login that was pending on the session is gone,
/// whatever the outcome.
pub fn start_authentication(
    site: &RelyingParty,
    users: &Data,
    session: &mut SessionState,
    username: &str,
) -> (reply: Result<RequestChallengeResponse, WebauthnError>)
    ensures
        final(session)@ == with_authentication(old(session)@, final(session)@.auth_state),
        match login_candidate(users@, username@) {
            Ok(id) => {
                &&& reply is Ok
                &&& final(session)@.auth_state is Some
                &&& final(session)@.auth_state->Some_0.0 == id
                &&& Some(allowed_credentials(reply->Ok_0)) == users@.credential_ids(id)
            },
            Err(e) => reply is Err && reply->Err_0 == e && final(session)@.auth_state is None,
        },
{
    session.auth_state = None;
    let user_id = match users.user_id(username) {
        Some(id) => id,
        None => { return Err(WebauthnError::UserNotFound); },
    };
    let keys = match users.credentials(user_id) {
        Some(keys) => keys,
        None => { return Err(WebauthnError::UserHasNoCredentials); },
    };
    if keys.len() == 0 {
        return Err(WebauthnError::UserHasNoCredentials);
    }
    let issued = site.start_passkey_authentication(keys);
    Ok(accept_authentication_challenge(session, user_id, issued))
}

/// How a login ends, given the directory before it and what the check said.
pub open spec fn login_reply(users: DataView, user_id: u128, verdict: Option<AuthenticationResult>)
    -> Result<(), WebauthnError> {
    if verdict is None {
        Err(WebauthnError::VerificationFailed)
    } else if users.username(user_id) is None {
        Err(WebauthnError::UserNotFound)
    } else if !users.keys.contains_key(user_id) {
        Err(WebauthnError::UserHasNoCredentials)
    } else {
        Ok(())
    }
}

/// The directory after a login: the credentials of the user have gone through the
/// bookkeeping for it where the login succeeded, and nothing has moved where it failed.
pub open spec fn users_after_login(
    users: DataView,
    user_id: u128,
    verdict: Option<AuthenticationResult>,
) -> DataView {
    if login_reply(users, user_id, verdict) is Ok {
        users.after_login(user_id, verdict->Some_0)
    } else {
        users
    }
}

/// The session after a login: it carries the user's identifier and name where the
/// login succeeded, and is as before where it failed.
pub open spec fn session_after_login(
    users: DataView,
    session: SessionView,
    user_id: u128,
    verdict: Option<AuthenticationResult>,
) -> SessionView {
    if login_reply(users, user_id, verdict) is Ok {
        SessionView { user_id: Some(user_id), username: users.username(user_id), ..session }
    } else {
        session
    }
}

/// Enters the outcome of a login: after a check that passed, every credential of
/// `user_id` goes through the bookkeeping for it and the session carries the user's
/// identity. A failed check, an identifier that no username stands for, and a user
/// without credentials each change nothing.
pub fn complete_authentication(
    users: &mut Data,
    session: &mut SessionState,
    user_id: u128,
    verdict: Option<AuthenticationResult>,
) -> (reply: Result<(), WebauthnError>)
    ensures
        reply == login_reply(old(users)@, user_id, verdict),
        final(users)@ == users_after_login(old(users)@, user_id, verdict),
        final(session)@ == session_after_login(old(users)@, old(session)@, user_id, verdict),
        final(users)@.name_to_id == old(users)@.name_to_id,
        forall|user: u128|
            #[trigger] final(users)@.credential_ids(user) == old(users)@.credential_ids(user),
{
    let result = match verdict {
        Some(result) => result,
        None => { return Err(WebauthnError::VerificationFailed); },
    };
    let username = match users.username(user_id) {
        Some(name) => name,
        None => { return Err(WebauthnError::UserNotFound); },
    };
    if !users.update_credentials(user_id, &result) {
        return Err(WebauthnError::UserHasNoCredentials);
    }
    session.user_id = Some(user_id);
    session.username = Some(username);
    Ok(())
}

/// How finishing a login ends on a session with this pending state: without one it is
/// `CorruptSession`, else what [`login_reply`] says of the check of `response` against
/// it.
pub open spec fn authentication_reply(
    users: DataView,
    pending: Option<(u128, PasskeyAuthentication)>,
    site: Webauthn,
    response: PublicKeyCredential,
) -> Result<(), WebauthnError> {
    match pending {
        None => Err(WebauthnError::CorruptSession),
        Some(p) => login_reply(users, p.0, authentication_verdict(site, response, p.1)),
    }
}

/// The directory after finishing a login.
pub open spec fn users_after_authentication(
    users: DataView,
    pending: Option<(u128, PasskeyAuthentication)>,
    site: Webauthn,
    response: PublicKeyCredential,
) -> DataView {
    match pending {
        None => users,
        Some(p) => users_after_login(users, p.0, authentication_verdict(site, response, p.1)),
    }
}

/// The session after finishing a login: the pending state is gone, and the user's
/// identity is there where the login succeeded.
pub open spec fn session_after_authentication(
    users: DataView,
    session: SessionView,
    site: Webauthn,
    response: PublicKeyCredential,
) -> SessionView {
    match session.auth_state {
        None => session,
        Some(p) => session_after_login(
            users,
            with_authentication(session, None),
            p.0,
            authentication_verdict(site, response, p.1),
        ),
    }
}

/// Finishes the login that is pending on this session with the authenticator's
/// `response`.
///
/// Without a pending login the call fails with `CorruptSession` and changes nothing.
/// Otherwise the pending state is used up, whatever the check says, and the rest is
/// [`complete_authentication`] on what the check said.
pub fn finish_authentication(
    site: &RelyingParty,
    users: &mut Data,
    session: &mut SessionState,
    response: &PublicKeyCredential,
) -> (reply: Result<(), WebauthnError>)
    ensures
        reply == authentication_reply(
            old(users)@,
            old(session)@.auth_state,
            site.site(),
            *response,
        ),
        final(users)@ == users_after_authentication(
            old(users)@,
            old(session)@.auth_state,
            site.site(),
            *response,
        ),
        final(session)@ == session_after_authentication(
            old(users)@,
            old(session)@,
            site.site(),
            *response,
        ),
        final(session)@.auth_state is None,
        old(session)@.auth_state is None ==> reply == Err::<(), WebauthnError>(
            WebauthnError::CorruptSession,
        ) && final(session)@ == old(session)@,
        final(users)@.name_to_id == old(users)@.name_to_id,
        forall|user: u128|
            #[trigger] final(users)@.credential_ids(user) == old(users)@.credential_ids(user),
{
    match session.auth_state.take() {
        None => Err(WebauthnError::CorruptSession),
        Some(pending) => {
            let verdict = site.finish_passkey_authentication(response, &pending.state);
            complete_authentication(users, session, pending.user_id, verdict)
        },
    }
}

} // verus!
