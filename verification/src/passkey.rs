use vstd::prelude::*;
use webauthn_rs::prelude::{
    AuthenticationResult, CreationChallengeResponse, CredentialID, Passkey, PasskeyAuthentication,
    PasskeyRegistration, PublicKeyCredential, RegisterPublicKeyCredential,
    RequestChallengeResponse, Url, Uuid,
};
use webauthn_rs::{Webauthn, WebauthnBuilder};

verus! {

/// A configured site: the relying party that issues challenges and checks answers.
/// Nothing inside it is visible here.
#[verifier::external_type_specification]
#[verifier::external_body]
pub struct ExWebauthn(webauthn_rs::Webauthn);

/// A parsed URL, here the origin that a site is served from. Nothing inside it is visible here.
#[verifier::external_type_specification]
#[verifier::external_body]
pub struct ExUrl(webauthn_rs::prelude::Url);

/// A registered credential of a user. Nothing inside it is visible here.
#[verifier::external_type_specification]
#[verifier::external_body]
pub struct ExPasskey(webauthn_rs::prelude::Passkey);

/// The state of a registration that was started: what the answer is checked against.
/// Nothing inside it is visible here.
#[verifier::external_type_specification]
#[verifier::external_body]
pub struct ExPasskeyRegistration(webauthn_rs::prelude::PasskeyRegistration);

/// The state of a login that was started: what the answer is checked against. Nothing
/// inside it is visible here.
#[verifier::external_type_specification]
#[verifier::external_body]
pub struct ExPasskeyAuthentication(webauthn_rs::prelude::PasskeyAuthentication);

/// The registration challenge that goes to the client. Nothing inside it is visible here.
#[verifier::external_type_specification]
#[verifier::external_body]
pub struct ExCreationChallengeResponse(webauthn_rs::prelude::CreationChallengeResponse);

/// The login challenge that goes to the client. Nothing inside it is visible here.
#[verifier::external_type_specification]
#[verifier::external_body]
pub struct ExRequestChallengeResponse(webauthn_rs::prelude::RequestChallengeResponse);

/// An authenticator's answer to a registration challenge. Nothing inside it is visible here.
#[verifier::external_type_specification]
#[verifier::external_body]
pub struct ExRegisterPublicKeyCredential(webauthn_rs::prelude::RegisterPublicKeyCredential);

/// An authenticator's answer to a login challenge. Nothing inside it is visible here.
#[verifier::external_type_specification]
#[verifier::external_body]
pub struct ExPublicKeyCredential(webauthn_rs::prelude::PublicKeyCredential);

/// What a login that passed the check proved. Nothing inside it is visible here.
#[verifier::external_type_specification]
#[verifier::external_body]
pub struct ExAuthenticationResult(webauthn_rs::prelude::AuthenticationResult);

/// A registration challenge as it was issued: what goes to the client, and the state
/// that must be kept to check the answer.
pub struct RegistrationChallenge {
    pub challenge: CreationChallengeResponse,
    pub state: PasskeyRegistration,
}

/// A login challenge as it was issued: what goes to the client, and the state that must
/// be kept to check the answer.
pub struct AuthenticationChallenge {
    pub challenge: RequestChallengeResponse,
    pub state: PasskeyAuthentication,
}

/// Whether `WebauthnBuilder::new` accepts the pair: whether a relying party with
/// identifier `rp_id` may be served from `origin`.
pub uninterp spec fn origin_serves(rp_id: Seq<char>, origin: Url) -> bool;

/// The timeout that a site was built with: how long, in milliseconds, it lets an
/// authenticator take to answer a challenge.
pub uninterp spec fn challenge_timeout_millis(site: Webauthn) -> nat;

/// What `Passkey::cred_id` returns: the identifier of a registered credential.
pub uninterp spec fn passkey_credential_id(key: Passkey) -> Seq<u8>;

/// What `Passkey::update_credential` leaves: the credential after the bookkeeping that
/// follows a successful login with `result`.
pub uninterp spec fn passkey_after_login(key: Passkey, result: AuthenticationResult) -> Passkey;

/// The identifiers of a list of credentials, in order.
pub open spec fn credential_ids_of(keys: Seq<Passkey>) -> Seq<Seq<u8>> {
    keys.map_values(|k: Passkey| passkey_credential_id(k))
}

/// The byte strings of a list, in order.
pub open spec fn byte_views(ids: Seq<Vec<u8>>) -> Seq<Seq<u8>> {
    ids.map_values(|id: Vec<u8>| id@)
}

/// The user that a registration challenge is for, as it stands under `public_key.user`:
/// the UUID whose bytes are the identifier there, as 128 bits, then the name and the
/// display name.
pub uninterp spec fn challenge_subject(challenge: CreationChallengeResponse) -> (
    u128,
    Seq<char>,
    Seq<char>,
);

/// The identifiers under `public_key.exclude_credentials` of a registration challenge:
/// the credentials that it tells the client to leave out, if it names any.
pub uninterp spec fn excluded_credentials(challenge: CreationChallengeResponse) -> Option<
    Seq<Seq<u8>>,
>;

/// The identifiers under `public_key.allow_credentials` of a login challenge: the
/// credentials that it lets the client answer with.
pub uninterp spec fn allowed_credentials(challenge: RequestChallengeResponse) -> Seq<Seq<u8>>;

/// What `Webauthn::finish_passkey_registration` returns, the error dropped: the
/// credential that `response` registers when it is checked against the pending `state`
/// of a site, if it passes the check.
pub uninterp spec fn registration_verdict(
    site: Webauthn,
    response: RegisterPublicKeyCredential,
    state: PasskeyRegistration,
) -> Option<Passkey>;

/// What `Webauthn::finish_passkey_authentication` returns, the error dropped: what the
/// login `response` proves when it is checked against the pending `state` of a site, if
/// it passes the check.
pub uninterp spec fn authentication_verdict(
    site: Webauthn,
    response: PublicKeyCredential,
    state: PasskeyAuthentication,
) -> Option<AuthenticationResult>;

/// Calls `WebauthnBuilder::new`, then `rp_name` and `build`, which do not fail. The
/// builder accepts the pair exactly when the origin's domain is `rp_id` or lies under
/// it, which `origin_serves` names; a site built this way keeps the builder's default
/// timeout of five minutes.
#[verifier::external_body]
pub(crate) fn build_site(rp_id: &str, rp_origin: &Url, rp_name: &str) -> (site: Option<Webauthn>)
    ensures
        site is Some <==> origin_serves(rp_id@, *rp_origin),
        site matches Some(s) ==> challenge_timeout_millis(s) == 300_000,
{
    let builder = WebauthnBuilder::new(rp_id, rp_origin).ok()?;
    builder.rp_name(rp_name).build().ok()
}

/// Calls `Webauthn::start_passkey_registration`, which draws a random challenge. It
/// refuses an empty name and nothing else; it would panic on a site whose timeout does
/// not fit 32 bits of milliseconds, which the `requires` leaves out. The challenge is
/// for the user given here and tells the client to leave out exactly the credentials
/// given here; nothing is claimed of its random part.
#[verifier::external_body]
pub(crate) fn begin_registration(
    site: &Webauthn,
    user_id: u128,
    user_name: &str,
    user_display_name: &str,
    exclude: Option<Vec<Vec<u8>>>,
) -> (issued: Option<RegistrationChallenge>)
    requires
        challenge_timeout_millis(*site) <= u32::MAX,
    ensures
        issued is Some <==> (user_name@.len() > 0 && user_display_name@.len() > 0),
        issued matches Some(c) ==> challenge_subject(c.challenge) == (
            user_id,
            user_name@,
            user_display_name@,
        ),
        issued matches Some(c) ==> excluded_credentials(c.challenge) == match exclude {
            Some(ids) => Some(byte_views(ids@)),
            None => None,
        },
{
    let exclude = exclude.map(|ids| ids.into_iter().map(CredentialID::from).collect());
    site.start_passkey_registration(Uuid::from_u128(user_id), user_name, user_display_name, exclude)
        .ok()
        .map(|(challenge, state)| RegistrationChallenge { challenge, state })
}

/// Calls `Webauthn::finish_passkey_registration`, which checks the authenticator's
/// answer against the pending state and depends on nothing else: its outcome is what
/// `registration_verdict` names, the error dropped.
#[verifier::external_body]
pub(crate) fn finish_registration(
    site: &Webauthn,
    response: &RegisterPublicKeyCredential,
    state: &PasskeyRegistration,
) -> (key: Option<Passkey>)
    ensures
        key == registration_verdict(*site, *response, *state),
{
    site.finish_passkey_registration(response, state).ok()
}

/// Calls `Webauthn::start_passkey_authentication`, which draws a random challenge over
/// the given credentials and, asked for user verification as it is here, never refuses.
/// It would panic on a site whose timeout does not fit 32 bits of milliseconds, which
/// the `requires` leaves out. The challenge lets the client answer with exactly the
/// given credentials, in their order; nothing is claimed of its random part.
#[verifier::external_body]
pub(crate) fn begin_authentication(site: &Webauthn, keys: &Vec<Passkey>) -> (issued: Option<
    AuthenticationChallenge,
>)
    requires
        challenge_timeout_millis(*site) <= u32::MAX,
    ensures
        issued is Some,
        issued matches Some(c) ==> allowed_credentials(c.challenge) == credential_ids_of(keys@),
{
    site.start_passkey_authentication(keys)
        .ok()
        .map(|(challenge, state)| AuthenticationChallenge { challenge, state })
}

/// Calls `Webauthn::finish_passkey_authentication`, which checks the authenticator's
/// answer against the pending state and depends on nothing else: its outcome is what
/// `authentication_verdict` names, the error dropped.
#[verifier::external_body]
pub(crate) fn finish_authentication(
    site: &Webauthn,
    response: &PublicKeyCredential,
    state: &PasskeyAuthentication,
) -> (result: Option<AuthenticationResult>)
    ensures
        result == authentication_verdict(*site, *response, *state),
{
    site.finish_passkey_authentication(response, state).ok()
}

/// Calls `Passkey::cred_id` and copies the bytes out.
#[verifier::external_body]
pub(crate) fn credential_id(key: &Passkey) -> (id: Vec<u8>)
    ensures
        id@ == passkey_credential_id(*key),
{
    key.cred_id().to_vec()
}

/// Calls `Passkey::update_credential`, which may raise the signature counter and the backup
/// flags of the credential and never touches its identifier.
#[verifier::external_body]
pub(crate) fn update_credential(key: &mut Passkey, result: &AuthenticationResult)
    ensures
        *final(key) == passkey_after_login(*old(key), *result),
        passkey_credential_id(*final(key)) == passkey_credential_id(*old(key)),
{
    let _ = key.update_credential(result);
}

} // verus!
