use polling::error::WebauthnError;
use polling::handlers::auth::{
    accept_authentication_challenge, accept_registration_challenge, complete_authentication,
    complete_registration, finish_authentication, finish_register, start_authentication,
    start_register, start_register_as,
};
use polling::models::user::Data;
use polling::session::SessionState;
use polling::state::RelyingParty;
use webauthn_authenticator_rs::softpasskey::SoftPasskey;
use webauthn_authenticator_rs::WebauthnAuthenticator;
use webauthn_rs::prelude::{Passkey, PublicKeyCredential, RegisterPublicKeyCredential, Url};

fn origin() -> Url {
    Url::parse("http://localhost:3000").unwrap()
}

fn site() -> RelyingParty {
    RelyingParty::new("localhost", &origin(), "Polling Application").unwrap()
}

fn authenticator() -> WebauthnAuthenticator<SoftPasskey> {
    WebauthnAuthenticator::new(SoftPasskey::new(true))
}

/// Registers `username` with `device` on a session of its own and returns the user's
/// identifier.
fn register(
    site: &RelyingParty,
    users: &mut Data,
    device: &mut WebauthnAuthenticator<SoftPasskey>,
    username: &str,
) -> u128 {
    let mut session = SessionState::new();
    let challenge = start_register(site, users, &mut session, username.to_string()).unwrap();
    let user_id = session.reg_state.as_ref().unwrap().user_id;
    let response = device.do_registration(origin(), challenge).unwrap();
    assert_eq!(finish_register(site, users, &mut session, &response), Ok(()));
    user_id
}

/// An answer to a registration challenge that was issued on some other session.
fn foreign_registration(site: &RelyingParty) -> RegisterPublicKeyCredential {
    let users = Data::new();
    let mut session = SessionState::new();
    let challenge = start_register(site, &users, &mut session, "mallory".to_string()).unwrap();
    authenticator().do_registration(origin(), challenge).unwrap()
}

fn key_ids(keys: &[Passkey]) -> Vec<Vec<u8>> {
    keys.iter().map(|k| k.cred_id().to_vec()).collect()
}

#[test]
fn a_site_needs_an_origin_under_its_identifier() {
    let elsewhere = Url::parse("https://idm.different.com").unwrap();
    assert!(RelyingParty::new("example.com", &elsewhere, "Example").is_none());
    let below = Url::parse("https://idm.example.com").unwrap();
    assert!(RelyingParty::new("example.com", &below, "Example").is_some());
    assert!(RelyingParty::new("localhost", &origin(), "Polling Application").is_some());
}

#[test]
fn finishing_a_registration_that_was_not_started_fails() {
    let site = site();
    let response = foreign_registration(&site);
    let mut users = Data::new();
    let mut session = SessionState::new();
    assert_eq!(
        finish_register(&site, &mut users, &mut session, &response),
        Err(WebauthnError::CorruptSession)
    );
    assert_eq!(users.user_id("mallory"), None);
    assert!(session.reg_state.is_none() && session.auth_state.is_none());
    assert!(session.user_id.is_none() && session.username.is_none());
}

#[test]
fn finishing_a_login_that_was_not_started_fails() {
    let site = site();
    let mut users = Data::new();
    let mut device = authenticator();
    register(&site, &mut users, &mut device, "alice");
    let mut session = SessionState::new();
    let challenge = start_authentication(&site, &users, &mut session, "alice").unwrap();
    let response: PublicKeyCredential = device.do_authentication(origin(), challenge).unwrap();
    let mut other = SessionState::new();
    assert_eq!(
        finish_authentication(&site, &mut users, &mut other, &response),
        Err(WebauthnError::CorruptSession)
    );
    assert!(other.user_id.is_none() && other.username.is_none());
    assert!(session.auth_state.is_some());
}

#[test]
fn a_registration_records_the_user_and_the_credential() {
    let site = site();
    let mut users = Data::new();
    let mut session = SessionState::new();
    let challenge = start_register(&site, &users, &mut session, "alice".to_string()).unwrap();
    let pending = session.reg_state.as_ref().unwrap();
    assert_eq!(pending.username, "alice");
    let user_id = pending.user_id;
    assert!(users.username(user_id).is_none() && users.credentials(user_id).is_none());
    assert_eq!(challenge.public_key.user.name, "alice");
    assert_eq!(challenge.public_key.user.display_name, "alice");
    assert_eq!(challenge.public_key.user.id.as_slice(), &user_id.to_be_bytes()[..]);
    assert!(challenge.public_key.exclude_credentials.is_none());
    let response = authenticator().do_registration(origin(), challenge).unwrap();
    assert_eq!(finish_register(&site, &mut users, &mut session, &response), Ok(()));
    assert!(session.reg_state.is_none());
    assert!(session.user_id.is_none());
    assert_eq!(users.user_id("alice"), Some(user_id));
    assert_eq!(users.username(user_id), Some("alice".to_string()));
    let keys = users.credentials(user_id).unwrap();
    assert_eq!(keys.len(), 1);
    assert_eq!(users.credential_ids(user_id), Some(key_ids(keys)));
    assert_eq!(keys[0].cred_id().to_vec(), response.raw_id.to_vec());
}

#[test]
fn an_empty_username_is_refused() {
    let site = site();
    let users = Data::new();
    let mut session = SessionState::new();
    assert_eq!(
        start_register(&site, &users, &mut session, String::new()).err(),
        Some(WebauthnError::Unknown)
    );
    assert!(session.reg_state.is_none());
}

#[test]
fn a_failed_start_clears_what_was_pending() {
    let site = site();
    let users = Data::new();
    let mut session = SessionState::new();
    start_register(&site, &users, &mut session, "alice".to_string()).unwrap();
    assert!(session.reg_state.is_some());
    assert!(start_register(&site, &users, &mut session, String::new()).is_err());
    assert!(session.reg_state.is_none());
}

#[test]
fn a_known_username_keeps_its_identifier_and_excludes_its_credentials() {
    let site = site();
    let mut users = Data::new();
    let mut phone = authenticator();
    let user_id = register(&site, &mut users, &mut phone, "alice");
    let first = key_ids(users.credentials(user_id).unwrap());

    let mut session = SessionState::new();
    let challenge = start_register(&site, &users, &mut session, "alice".to_string()).unwrap();
    assert_eq!(session.reg_state.as_ref().unwrap().user_id, user_id);
    let excluded: Vec<Vec<u8>> = challenge
        .public_key
        .exclude_credentials
        .as_ref()
        .unwrap()
        .iter()
        .map(|d| d.id.to_vec())
        .collect();
    assert_eq!(excluded, first);

    let mut laptop = authenticator();
    let response = laptop.do_registration(origin(), challenge).unwrap();
    assert_eq!(finish_register(&site, &mut users, &mut session, &response), Ok(()));
    assert_eq!(users.user_id("alice"), Some(user_id));
    let keys = key_ids(users.credentials(user_id).unwrap());
    assert_eq!(keys.len(), 2);
    assert_eq!(keys[0], first[0]);
    assert_eq!(keys[1], response.raw_id.to_vec());
}

#[test]
fn a_new_username_gets_the_minted_identifier() {
    let site = site();
    let mut users = Data::new();
    let alice = register(&site, &mut users, &mut authenticator(), "alice");
    let mut session = SessionState::new();
    let challenge =
        start_register_as(&site, &users, &mut session, "bob".to_string(), 42).unwrap();
    assert_eq!(session.reg_state.as_ref().unwrap().user_id, 42);
    assert_eq!(challenge.public_key.user.id.as_slice(), &42u128.to_be_bytes()[..]);
    assert!(challenge.public_key.exclude_credentials.is_none());
    assert!(start_register_as(&site, &users, &mut session, "alice".to_string(), 42).is_ok());
    assert_eq!(session.reg_state.as_ref().unwrap().user_id, alice);
    assert_eq!(
        start_register_as(&site, &users, &mut session, String::new(), 42).err(),
        Some(WebauthnError::Unknown)
    );
    assert!(session.reg_state.is_none());
}

#[test]
fn a_new_registration_supersedes_the_pending_one() {
    let site = site();
    let mut users = Data::new();
    let mut session = SessionState::new();
    let mut device = authenticator();
    let stale = start_register(&site, &users, &mut session, "alice".to_string()).unwrap();
    let fresh = start_register(&site, &users, &mut session, "alice".to_string()).unwrap();
    assert_ne!(stale.public_key.challenge, fresh.public_key.challenge);
    let late = device.do_registration(origin(), stale).unwrap();
    assert_eq!(
        finish_register(&site, &mut users, &mut session, &late),
        Err(WebauthnError::VerificationFailed)
    );
    assert_eq!(users.user_id("alice"), None);
    assert!(session.reg_state.is_none());
    let answer = device.do_registration(origin(), fresh).unwrap();
    assert_eq!(
        finish_register(&site, &mut users, &mut session, &answer),
        Err(WebauthnError::CorruptSession)
    );
    assert_eq!(users.user_id("alice"), None);
}

#[test]
fn an_answer_to_another_challenge_registers_nothing() {
    let site = site();
    let response = foreign_registration(&site);
    let mut users = Data::new();
    let mut session = SessionState::new();
    start_register(&site, &users, &mut session, "alice".to_string()).unwrap();
    assert_eq!(
        finish_register(&site, &mut users, &mut session, &response),
        Err(WebauthnError::VerificationFailed)
    );
    assert_eq!(users.user_id("alice"), None);
    assert!(session.reg_state.is_none());
}

#[test]
fn a_login_needs_a_known_user_with_a_credential() {
    let site = site();
    let mut users = Data::new();
    let mut session = SessionState::new();
    assert_eq!(
        start_authentication(&site, &users, &mut session, "alice").err(),
        Some(WebauthnError::UserNotFound)
    );
    users.insert_name("alice".to_string(), 77);
    assert_eq!(
        start_authentication(&site, &users, &mut session, "alice").err(),
        Some(WebauthnError::UserHasNoCredentials)
    );
    assert!(session.auth_state.is_none());
}

#[test]
fn a_login_puts_the_identity_on_the_session() {
    let site = site();
    let mut users = Data::new();
    let mut device = authenticator();
    let user_id = register(&site, &mut users, &mut device, "alice");
    let registered = key_ids(users.credentials(user_id).unwrap());

    let mut session = SessionState::new();
    let challenge = start_authentication(&site, &users, &mut session, "alice").unwrap();
    assert_eq!(session.auth_state.as_ref().unwrap().user_id, user_id);
    let allowed: Vec<Vec<u8>> =
        challenge.public_key.allow_credentials.iter().map(|c| c.id.to_vec()).collect();
    assert_eq!(allowed, registered);
    assert!(session.identity().is_none());
    let response = device.do_authentication(origin(), challenge).unwrap();
    assert_eq!(finish_authentication(&site, &mut users, &mut session, &response), Ok(()));
    assert!(session.auth_state.is_none());
    assert_eq!(session.user_id, Some(user_id));
    assert_eq!(session.identity(), Some(user_id));
    assert_eq!(session.username, Some("alice".to_string()));
    assert_eq!(key_ids(users.credentials(user_id).unwrap()), registered);
    assert_eq!(
        finish_authentication(&site, &mut users, &mut session, &response),
        Err(WebauthnError::CorruptSession)
    );
    assert_eq!(session.user_id, Some(user_id));
}

#[test]
fn a_login_brings_the_credential_up_to_date() {
    let site = site();
    let mut users = Data::new();
    let mut device = authenticator();
    let user_id = register(&site, &mut users, &mut device, "alice");
    let before = serde_json::to_string(&users.credentials(user_id).unwrap()[0]).unwrap();
    assert!(before.contains("\"counter\":0"));
    for round in 1..=2 {
        let mut session = SessionState::new();
        let challenge = start_authentication(&site, &users, &mut session, "alice").unwrap();
        let response = device.do_authentication(origin(), challenge).unwrap();
        assert_eq!(finish_authentication(&site, &mut users, &mut session, &response), Ok(()));
        let after = serde_json::to_string(&users.credentials(user_id).unwrap()[0]).unwrap();
        assert!(after.contains(&format!("\"counter\":{round}")));
        assert_eq!(after, before.replace("\"counter\":0", &format!("\"counter\":{round}")));
    }
}

#[test]
fn a_new_login_supersedes_the_pending_one() {
    let site = site();
    let mut users = Data::new();
    let mut device = authenticator();
    register(&site, &mut users, &mut device, "alice");
    let mut session = SessionState::new();
    let stale = start_authentication(&site, &users, &mut session, "alice").unwrap();
    let fresh = start_authentication(&site, &users, &mut session, "alice").unwrap();
    assert_ne!(stale.public_key.challenge, fresh.public_key.challenge);
    let late = device.do_authentication(origin(), stale).unwrap();
    assert_eq!(
        finish_authentication(&site, &mut users, &mut session, &late),
        Err(WebauthnError::VerificationFailed)
    );
    assert!(session.auth_state.is_none());
    assert!(session.user_id.is_none() && session.username.is_none());
}

#[test]
fn a_failed_login_start_clears_what_was_pending() {
    let site = site();
    let mut users = Data::new();
    let mut device = authenticator();
    register(&site, &mut users, &mut device, "alice");
    let mut session = SessionState::new();
    start_authentication(&site, &users, &mut session, "alice").unwrap();
    assert!(session.auth_state.is_some());
    assert!(start_authentication(&site, &users, &mut session, "nobody").is_err());
    assert!(session.auth_state.is_none());
}

#[test]
fn ceremonies_of_different_kinds_do_not_disturb_each_other() {
    let site = site();
    let mut users = Data::new();
    let mut device = authenticator();
    register(&site, &mut users, &mut device, "alice");
    let mut session = SessionState::new();
    let login = start_authentication(&site, &users, &mut session, "alice").unwrap();
    start_register(&site, &users, &mut session, "bob".to_string()).unwrap();
    assert!(session.auth_state.is_some() && session.reg_state.is_some());
    let response = device.do_authentication(origin(), login).unwrap();
    assert_eq!(finish_authentication(&site, &mut users, &mut session, &response), Ok(()));
    assert!(session.reg_state.is_some());
    assert_eq!(session.username, Some("alice".to_string()));
}

#[test]
fn a_session_cannot_finish_what_another_session_started() {
    let site = site();
    let mut users = Data::new();
    let mut device = authenticator();
    let mut hers = SessionState::new();
    let mut his = SessionState::new();
    let challenge = start_register(&site, &users, &mut hers, "alice".to_string()).unwrap();
    start_register(&site, &users, &mut his, "bob".to_string()).unwrap();
    let response = device.do_registration(origin(), challenge).unwrap();
    assert_eq!(
        finish_register(&site, &mut users, &mut his, &response),
        Err(WebauthnError::VerificationFailed)
    );
    assert_eq!(users.user_id("alice"), None);
    assert_eq!(users.user_id("bob"), None);
    assert_eq!(finish_register(&site, &mut users, &mut hers, &response), Ok(()));
    assert!(users.user_id("alice").is_some());
}

#[test]
fn outcomes_are_entered_as_they_come() {
    let site = site();
    let mut users = Data::new();
    let mut session = SessionState::new();
    assert_eq!(
        complete_registration(&mut users, "alice".to_string(), 3, None),
        Err(WebauthnError::VerificationFailed)
    );
    assert_eq!(users.user_id("alice"), None);
    assert_eq!(
        complete_authentication(&mut users, &mut session, 3, None),
        Err(WebauthnError::VerificationFailed)
    );
    assert!(session.user_id.is_none());
    assert_eq!(
        accept_registration_challenge(&mut session, "alice".to_string(), 3, None).err(),
        Some(WebauthnError::Unknown)
    );
    assert!(session.reg_state.is_none());

    let issued = site.start_passkey_registration(3, "alice", "Alice", None).unwrap();
    let challenge = issued.challenge.public_key.challenge.clone();
    let reply =
        accept_registration_challenge(&mut session, "alice".to_string(), 3, Some(issued)).unwrap();
    assert_eq!(reply.public_key.challenge, challenge);
    assert_eq!(reply.public_key.user.display_name, "Alice");
    let pending = session.reg_state.as_ref().unwrap();
    assert_eq!((pending.username.as_str(), pending.user_id), ("alice", 3));
    assert!(site.start_passkey_registration(3, "alice", "", None).is_none());
    assert!(site.start_passkey_registration(3, "", "Alice", None).is_none());

    let response = authenticator().do_registration(origin(), reply).unwrap();
    let key = site.finish_passkey_registration(&response, &pending.state);
    assert!(key.is_some());
    assert_eq!(complete_registration(&mut users, "alice".to_string(), 3, key), Ok(()));
    assert_eq!(users.user_id("alice"), Some(3));

    let keys = users.credentials(3).unwrap();
    let issued = site.start_passkey_authentication(keys);
    let login = issued.challenge.public_key.challenge.clone();
    let reply = accept_authentication_challenge(&mut session, 3, issued);
    assert_eq!(reply.public_key.challenge, login);
    assert_eq!(session.auth_state.as_ref().unwrap().user_id, 3);
}

#[test]
fn a_login_for_an_identifier_without_a_name_or_credentials_fails() {
    let site = site();
    let mut users = Data::new();
    let mut device = authenticator();
    let alice = register(&site, &mut users, &mut device, "alice");
    let mut session = SessionState::new();
    let challenge = start_authentication(&site, &users, &mut session, "alice").unwrap();
    let response = device.do_authentication(origin(), challenge).unwrap();
    let pending = session.auth_state.take().unwrap();
    let verdict = site.finish_passkey_authentication(&response, &pending.state);
    assert!(verdict.is_some());
    let mut names_only = Data::new();
    names_only.insert_name("alice".to_string(), alice);
    assert_eq!(
        complete_authentication(&mut names_only, &mut session, alice, verdict.clone()),
        Err(WebauthnError::UserHasNoCredentials)
    );
    assert_eq!(
        complete_authentication(&mut Data::new(), &mut session, alice, verdict.clone()),
        Err(WebauthnError::UserNotFound)
    );
    assert!(session.user_id.is_none());
    assert_eq!(complete_authentication(&mut users, &mut session, alice, verdict), Ok(()));
    assert_eq!(session.user_id, Some(alice));
}

#[test]
fn the_directory_keeps_names_and_credentials_apart() {
    let site = site();
    let mut users = Data::new();
    assert_eq!(users.user_id("alice"), None);
    assert_eq!(users.username(1), None);
    assert!(users.credentials(1).is_none());
    assert_eq!(users.credential_ids(1), None);
    users.insert_name("alice".to_string(), 1);
    users.insert_name("bob".to_string(), 2);
    users.insert_name("alias".to_string(), 1);
    assert_eq!(users.user_id("alice"), Some(1));
    assert_eq!(users.user_id("bob"), Some(2));
    assert_eq!(users.username(1), Some("alice".to_string()));
    users.insert_name("alice".to_string(), 9);
    assert_eq!(users.user_id("alice"), Some(9));
    assert_eq!(users.username(1), Some("alias".to_string()));
    assert_eq!(users.username(9), Some("alice".to_string()));

    let mut scratch = Data::new();
    let carol = register(&site, &mut scratch, &mut authenticator(), "carol");
    let key = scratch.credentials(carol).unwrap()[0].clone();
    users.add_credential(3, key.clone());
    users.add_credential(3, key.clone());
    assert_eq!(users.username(3), None);
    let id = key.cred_id().to_vec();
    assert!(!id.is_empty());
    assert_eq!(users.credential_ids(3), Some(vec![id.clone(), id]));
}
