use crate::passkey::{
    allowed_credentials, authentication_verdict, begin_authentication, begin_registration,
    build_site, byte_views, challenge_subject, challenge_timeout_millis, credential_ids_of,
    excluded_credentials, finish_authentication, finish_registration, origin_serves,
    registration_verdict, AuthenticationChallenge, RegistrationChallenge,
};
use vstd::prelude::*;
use webauthn_rs::prelude::{
    AuthenticationResult, Passkey, PasskeyAuthentication, PasskeyRegistration,
    PublicKeyCredential, RegisterPublicKeyCredential, Url,
};
use webauthn_rs::Webauthn;

verus! {

/// The site that users register with and log in to. It issues the challenges of both
/// ceremonies and checks the answers to them.
pub struct RelyingParty {
    site: Webauthn,
}

impl RelyingParty {
    #[verifier::type_invariant]
    spec fn well_formed(self) -> bool {
        challenge_timeout_millis(self.site) <= u32::MAX
    }

    /// The configured site behind this value.
    pub closed spec fn site(&self) -> Webauthn {
        self.site
    }

    /// The site `rp_id`, served from `rp_origin` and shown to users as `rp_name`. There
    /// is such a site exactly when the origin's domain is `rp_id` or lies under it.
    pub fn new(rp_id: &str, rp_origin: &Url, rp_name: &str) -> (party: Option<RelyingParty>)
        ensures
            party is Some <==> origin_serves(rp_id@, *rp_origin),
    {
        match build_site(rp_id, rp_origin, rp_name) {
            Some(site) => Some(RelyingParty { site }),
            None => None,
        }
    }

    /// A fresh registration challenge for the user, which no credential of `exclude`
    /// may answer. It is issued unless a name is empty.
    pub fn start_passkey_registration(
        &self,
        user_id: u128,
        user_name: &str,
        user_display_name: &str,
        exclude: Option<Vec<Vec<u8>>>,
    ) -> (issued: Option<RegistrationChallenge>)
        ensures
            issued is Some <==> user_name@.len() > 0 && user_display_name@.len() > 0,
            issued matches Some(c) ==> challenge_subject(c.challenge) == (
                user_id,
                user_name@,
                user_display_name@,
            ),
            issued matches Some(c) ==> excluded_credentials(c.challenge) == match exclude {
                Some(ids) => Some(byte_views(ids@)),
                None => None,
            },
    {
        proof {
            use_type_invariant(self);
        }
        begin_registration(&self.site, user_id, user_name, user_display_name, exclude)
    }

    /// The credential that `response` registers, if it answers the challenge behind
    /// `state`.
    pub fn finish_passkey_registration(
        &self,
        response: &RegisterPublicKeyCredential,
        state: &PasskeyRegistration,
    ) -> (key: Option<Passkey>)
        ensures
            key == registration_verdict(self.site(), *response, *state),
    {
        finish_registration(&self.site, response, state)
    }

    /// A fresh login challenge that any of `keys` may answer.
    pub fn start_passkey_authentication(&self, keys: &Vec<Passkey>) -> (issued:
        AuthenticationChallenge)
        ensures
            allowed_credentials(issued.challenge) == credential_ids_of(keys@),
    {
        proof {
            use_type_invariant(self);
        }
        begin_authentication(&self.site, keys).unwrap()
    }

    /// What `response` proves, if it answers the challenge behind `state`.
    pub fn finish_passkey_authentication(
        &self,
        response: &PublicKeyCredential,
        state: &PasskeyAuthentication,
    ) -> (result: Option<AuthenticationResult>)
        ensures
            result == authentication_verdict(self.site(), *response, *state),
    {
        finish_authentication(&self.site, response, state)
    }
}

} // verus!
