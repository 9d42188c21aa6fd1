use vstd::prelude::*;
use webauthn_rs::prelude::{PasskeyAuthentication, PasskeyRegistration};

verus! {

/// A registration that was started on a session and waits for the authenticator's
/// answer.
pub struct PendingRegistration {
    pub username: String,
    pub user_id: u128,
    pub state: PasskeyRegistration,
}

/// A login that was started on a session and waits for the authenticator's answer.
pub struct PendingAuthentication {
    pub user_id: u128,
    pub state: PasskeyAuthentication,
}

/// What one session holds between requests: at most one pending ceremony of each kind,
/// and the identity of the user once a login has succeeded. A session is a value of its
/// own: no operation on one session reads or writes another.
pub struct SessionState {
    pub reg_state: Option<PendingRegistration>,
    pub auth_state: Option<PendingAuthentication>,
    pub user_id: Option<u128>,
    pub username: Option<String>,
}

/// Mathematical value of a [`SessionState`].
pub struct SessionView {
    pub reg_state: Option<(Seq<char>, u128, PasskeyRegistration)>,
    pub auth_state: Option<(u128, PasskeyAuthentication)>,
    pub user_id: Option<u128>,
    pub username: Option<Seq<char>>,
}

impl View for SessionState {
    type V = SessionView;

    open spec fn view(&self) -> SessionView {
        SessionView {
            reg_state: match self.reg_state {
                Some(pending) => Some((pending.username@, pending.user_id, pending.state)),
                None => None,
            },
            auth_state: match self.auth_state {
                Some(pending) => Some((pending.user_id, pending.state)),
                None => None,
            },
            user_id: self.user_id,
            username: match self.username {
                Some(name) => Some(name@),
                None => None,
            },
        }
    }
}

impl SessionView {
    /// The session of a client that has done nothing yet.
    pub open spec fn empty() -> SessionView {
        SessionView { reg_state: None, auth_state: None, user_id: None, username: None }
    }
}

impl SessionState {
    /// The session of a client that has done nothing yet.
    pub fn new() -> (session: SessionState)
        ensures
            session@ == SessionView::empty(),
    {
        SessionState { reg_state: None, auth_state: None, user_id: None, username: None }
    }

    /// The identity that a successful login left on this session.
    pub fn identity(&self) -> (id: Option<u128>)
        ensures
            id == self@.user_id,
    {
        self.user_id
    }
}

} // verus!
