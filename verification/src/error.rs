use vstd::prelude::*;

verus! {

/// Everything that can go wrong in the poll registry and in the login ceremonies.
#[derive(Clone, Copy, Debug, PartialEq, Eq, Structural)]
pub enum WebauthnError {
    /// A failure outside the cases below: an identifier that came out twice, a vote
    /// counter at its limit, a challenge that could not be issued.
    Unknown,
    /// A ceremony was finished on a session that holds no pending challenge for it.
    CorruptSession,
    /// The username is not in the credential directory.
    UserNotFound,
    /// The user has no registered credential.
    UserHasNoCredentials,
    /// The session's stored state could not be read or written.
    InvalidSessionState,
    /// The session layer failed.
    SessionError,
    /// The session carries no identity.
    NotAuthenticated,
    /// The requester is not the creator of the poll.
    Unauthorized,
    /// No poll has this identifier.
    NotFound,
    /// The poll has no option with this identifier.
    OptionNotFound,
    /// The poll is closed to votes.
    Closed,
    /// A poll needs at least one option.
    InvalidPoll,
    /// The authenticator's answer did not verify against the pending challenge.
    VerificationFailed,
}

/// The HTTP status that goes out with each error.
pub open spec fn status_of(error: WebauthnError) -> u16 {
    match error {
        WebauthnError::NotAuthenticated => 401,
        WebauthnError::Unauthorized => 403,
        WebauthnError::NotFound => 404,
        WebauthnError::OptionNotFound => 404,
        WebauthnError::Closed => 409,
        WebauthnError::InvalidPoll => 400,
        WebauthnError::VerificationFailed => 400,
        WebauthnError::Unknown => 500,
        WebauthnError::CorruptSession => 500,
        WebauthnError::UserNotFound => 500,
        WebauthnError::UserHasNoCredentials => 500,
        WebauthnError::InvalidSessionState => 500,
        WebauthnError::SessionError => 500,
    }
}

impl WebauthnError {
    /// The status code of the response for this error.
    pub fn status(&self) -> (code: u16)
        ensures
            code == status_of(*self),
            400 <= code < 600,
    {
        match self {
            WebauthnError::NotAuthenticated => 401,
            WebauthnError::Unauthorized => 403,
            WebauthnError::NotFound | WebauthnError::OptionNotFound => 404,
            WebauthnError::Closed => 409,
            WebauthnError::InvalidPoll | WebauthnError::VerificationFailed => 400,
            WebauthnError::Unknown
            | WebauthnError::CorruptSession
            | WebauthnError::UserNotFound
            | WebauthnError::UserHasNoCredentials
            | WebauthnError::InvalidSessionState
            | WebauthnError::SessionError => 500,
        }
    }

    /// The text shown to the client for this error. It names the kind of failure and
    /// nothing of the state behind it.
    pub fn message(&self) -> (text: &'static str)
        ensures
            text@ == message_of(*self),
    {
        match self {
            WebauthnError::Unknown => "Unknown error occurred",
            WebauthnError::NotAuthenticated => "Not authenticated",
            WebauthnError::Unauthorized => "Not authorized",
            WebauthnError::CorruptSession => "Corrupt Session",
            WebauthnError::UserNotFound => "User Not Found",
            WebauthnError::UserHasNoCredentials => "User Has No Credentials",
            WebauthnError::InvalidSessionState => "Deserialising Session failed",
            WebauthnError::SessionError => "Session Error",
            WebauthnError::NotFound => "Not Found",
            WebauthnError::OptionNotFound => "Option Not Found",
            WebauthnError::Closed => "Poll Closed",
            WebauthnError::InvalidPoll => "Invalid Poll",
            WebauthnError::VerificationFailed => "Verification Failed",
        }
    }

    /// Status and message together: what the gateway turns into a response.
    pub fn into_response(self) -> (response: (u16, &'static str))
        ensures
            response.0 == status_of(self),
            response.1@ == message_of(self),
    {
        (self.status(), self.message())
    }
}

/// The message that goes out with each error.
pub open spec fn message_of(error: WebauthnError) -> Seq<char> {
    match error {
        WebauthnError::Unknown => "Unknown error occurred"@,
        WebauthnError::NotAuthenticated => "Not authenticated"@,
        WebauthnError::Unauthorized => "Not authorized"@,
        WebauthnError::CorruptSession => "Corrupt Session"@,
        WebauthnError::UserNotFound => "User Not Found"@,
        WebauthnError::UserHasNoCredentials => "User Has No Credentials"@,
        WebauthnError::InvalidSessionState => "Deserialising Session failed"@,
        WebauthnError::SessionError => "Session Error"@,
        WebauthnError::NotFound => "Not Found"@,
        WebauthnError::OptionNotFound => "Option Not Found"@,
        WebauthnError::Closed => "Poll Closed"@,
        WebauthnError::InvalidPoll => "Invalid Poll"@,
        WebauthnError::VerificationFailed => "Verification Failed"@,
    }
}

} // verus!
