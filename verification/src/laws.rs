use crate::error::WebauthnError;
use crate::handlers::auth::{
    authentication_reply, registration_reply, session_after_authentication,
    users_after_authentication, users_after_registration, with_authentication,
    with_registration,
};
use crate::models::poll::{option_position, vote_limit, PollEventView, PollView};
use crate::models::user::DataView;
use crate::passkey::{authentication_verdict, registration_verdict};
use crate::session::SessionView;
use crate::store::{
    close_reply, delete_reply, found, lemma_option_unique, lemma_removed_not_found,
    lemma_replaced_found, poll_position, registry_wf, removed, replaced, reset_reply, vote_reply,
};
use crate::websocket::{
    connection_action, connection_after, registry_after, ConnectionView, SocketActionView,
    SocketEventView, WsMessageView,
};
use vstd::prelude::*;
use webauthn_rs::prelude::{
    PasskeyAuthentication, PasskeyRegistration, PublicKeyCredential, RegisterPublicKeyCredential,
};
use webauthn_rs::Webauthn;

verus! {

/// The registry after `n` votes in a row for the option `option_id` of the poll `id`,
/// whatever each of them answered.
pub open spec fn after_votes(polls: Seq<PollView>, id: Seq<char>, option_id: Seq<char>, n: nat)
    -> Seq<PollView>
    decreases n,
{
    if n == 0 {
        polls
    } else {
        let before = after_votes(polls, id, option_id, (n - 1) as nat);
        replaced(before, id, vote_reply(before, id, option_id))
    }
}

/// How many of `n` votes in a row for the option `option_id` of the poll `id` were
/// answered with the poll and not with an error.
pub open spec fn votes_counted(polls: Seq<PollView>, id: Seq<char>, option_id: Seq<char>, n: nat)
    -> nat
    decreases n,
{
    if n == 0 {
        0
    } else {
        let before = after_votes(polls, id, option_id, (n - 1) as nat);
        let earlier = votes_counted(polls, id, option_id, (n - 1) as nat);
        if vote_reply(before, id, option_id) is Ok {
            earlier + 1
        } else {
            earlier
        }
    }
}

/// The count that the registry shows for the option `option_id` of the poll `id`.
pub open spec fn count_of(polls: Seq<PollView>, id: Seq<char>, option_id: Seq<char>) -> int {
    let poll = found(polls, id)->Ok_0;
    poll.options[option_position(poll.options, option_id)->Some_0].votes
}

/// The poll `id` is in the registry, open, with an option `option_id`.
pub open spec fn takes_votes(polls: Seq<PollView>, id: Seq<char>, option_id: Seq<char>) -> bool {
    &&& found(polls, id) is Ok
    &&& !found(polls, id)->Ok_0.is_closed
    &&& option_position(found(polls, id)->Ok_0.options, option_id) is Some
}

/// One vote on an open poll with that option: it is answered with the poll exactly
/// when the count is below the limit, the count goes up by one exactly then, and the
/// poll takes votes afterwards as before.
pub proof fn lemma_one_vote(polls: Seq<PollView>, id: Seq<char>, option_id: Seq<char>)
    requires
        registry_wf(polls),
        takes_votes(polls, id, option_id),
    ensures
        registry_wf(replaced(polls, id, vote_reply(polls, id, option_id))),
        takes_votes(replaced(polls, id, vote_reply(polls, id, option_id)), id, option_id),
        vote_reply(polls, id, option_id) is Ok <==> count_of(polls, id, option_id) < vote_limit(),
        count_of(replaced(polls, id, vote_reply(polls, id, option_id)), id, option_id) == count_of(
            polls,
            id,
            option_id,
        ) + if vote_reply(polls, id, option_id) is Ok {
            1int
        } else {
            0int
        },
{
    let i = poll_position(polls, id)->Some_0;
    let poll = polls[i];
    let j = option_position(poll.options, option_id)->Some_0;
    if poll.options[j].votes < vote_limit() {
        let voted = poll.with_vote(j);
        lemma_replaced_found(polls, i, voted);
        lemma_option_unique(voted.options, j);
    }
}

/// Of any number of votes cast for one option of an open poll, one after another as
/// exclusive access to the registry makes them, each that is answered with the poll
/// adds one to the count and each that is answered with an error adds nothing: no vote
/// is lost and none counts twice. Below the limit every vote counts.
pub proof fn law_votes_are_counted(
    polls: Seq<PollView>,
    id: Seq<char>,
    option_id: Seq<char>,
    n: nat,
)
    requires
        registry_wf(polls),
        takes_votes(polls, id, option_id),
    ensures
        registry_wf(after_votes(polls, id, option_id, n)),
        takes_votes(after_votes(polls, id, option_id, n), id, option_id),
        count_of(after_votes(polls, id, option_id, n), id, option_id) == count_of(
            polls,
            id,
            option_id,
        ) + votes_counted(polls, id, option_id, n),
        count_of(polls, id, option_id) + n <= vote_limit() ==> votes_counted(
            polls,
            id,
            option_id,
            n,
        ) == n,
    decreases n,
{
    if n > 0 {
        let before = after_votes(polls, id, option_id, (n - 1) as nat);
        law_votes_are_counted(polls, id, option_id, (n - 1) as nat);
        lemma_one_vote(before, id, option_id);
    }
}

/// A vote on a closed poll is answered with `Closed` and leaves every count as it was.
pub proof fn law_closed_poll_takes_no_vote(
    polls: Seq<PollView>,
    id: Seq<char>,
    option_id: Seq<char>,
)
    requires
        found(polls, id) is Ok,
        found(polls, id)->Ok_0.is_closed,
    ensures
        vote_reply(polls, id, option_id) == Err::<PollView, WebauthnError>(WebauthnError::Closed),
        replaced(polls, id, vote_reply(polls, id, option_id)) == polls,
{
}

/// Closing, resetting and deleting a poll on behalf of anyone but its creator are each
/// answered with `Unauthorized` and leave the registry as it was.
pub proof fn law_only_the_creator_may(polls: Seq<PollView>, id: Seq<char>, requester_id: u128)
    requires
        found(polls, id) is Ok,
        found(polls, id)->Ok_0.creator_id != requester_id,
    ensures
        close_reply(polls, id, requester_id) == Err::<PollView, WebauthnError>(
            WebauthnError::Unauthorized,
        ),
        reset_reply(polls, id, requester_id) == Err::<PollView, WebauthnError>(
            WebauthnError::Unauthorized,
        ),
        delete_reply(polls, id, requester_id) == Err::<PollView, WebauthnError>(
            WebauthnError::Unauthorized,
        ),
        replaced(polls, id, close_reply(polls, id, requester_id)) == polls,
        replaced(polls, id, reset_reply(polls, id, requester_id)) == polls,
        removed(polls, id, delete_reply(polls, id, requester_id)) == polls,
{
}

/// After a reset by its creator, whatever the counts were, the poll that the registry
/// hands out under that identifier and the poll that stands in the listing both show
/// zero for every option.
pub proof fn law_reset_shows_zero(polls: Seq<PollView>, id: Seq<char>, requester_id: u128)
    requires
        registry_wf(polls),
        reset_reply(polls, id, requester_id) is Ok,
    ensures
        ({
            let after = replaced(polls, id, reset_reply(polls, id, requester_id));
            &&& found(after, id) is Ok
            &&& forall|j: int|
                0 <= j < found(after, id)->Ok_0.options.len() ==> (#[trigger] found(
                    after,
                    id,
                )->Ok_0.options[j]).votes == 0
            &&& forall|k: int, j: int|
                0 <= k < after.len() && after[k].id == id && 0 <= j < after[k].options.len() ==> (
                #[trigger] after[k].options[j]).votes == 0
        }),
{
    let i = poll_position(polls, id)->Some_0;
    lemma_replaced_found(polls, i, polls[i].reset());
}

/// What a change of a poll answers is what the registry hands out under that
/// identifier from then on: the poll with the vote, the closed poll, the poll at zero.
/// After a deletion the registry hands out nothing under the identifier. So an event
/// that carries the answer tells of the registry as it stands.
pub proof fn law_answers_are_current(
    polls: Seq<PollView>,
    id: Seq<char>,
    option_id: Seq<char>,
    requester_id: u128,
)
    requires
        registry_wf(polls),
    ensures
        vote_reply(polls, id, option_id) is Ok ==> found(
            replaced(polls, id, vote_reply(polls, id, option_id)),
            id,
        ) == vote_reply(polls, id, option_id),
        close_reply(polls, id, requester_id) is Ok ==> found(
            replaced(polls, id, close_reply(polls, id, requester_id)),
            id,
        ) == close_reply(polls, id, requester_id),
        reset_reply(polls, id, requester_id) is Ok ==> found(
            replaced(polls, id, reset_reply(polls, id, requester_id)),
            id,
        ) == reset_reply(polls, id, requester_id),
        delete_reply(polls, id, requester_id) is Ok ==> found(
            removed(polls, id, delete_reply(polls, id, requester_id)),
            id,
        ) == Err::<PollView, WebauthnError>(WebauthnError::NotFound),
{
    if poll_position(polls, id) is Some {
        let i = poll_position(polls, id)->Some_0;
        if vote_reply(polls, id, option_id) is Ok {
            lemma_replaced_found(polls, i, vote_reply(polls, id, option_id)->Ok_0);
        }
        lemma_replaced_found(polls, i, polls[i].closed());
        lemma_replaced_found(polls, i, polls[i].reset());
        lemma_removed_not_found(polls, i);
    }
}

/// An open connection that follows a poll passes on every event about that poll, with
/// the poll as the event carries it, and passes on no event about another poll; one
/// that follows all polls passes on every event. Neither moves the registry or the
/// connection.
pub proof fn law_followers_are_told(
    connection: ConnectionView,
    polls: Seq<PollView>,
    event: PollEventView,
)
    requires
        connection.open,
    ensures
        connection_action(connection, polls, SocketEventView::Published(event)) == (
        if connection.poll_id is None || connection.poll_id == Some(event.poll_id) {
            SocketActionView::Send(WsMessageView::PollUpdate { poll: event.poll })
        } else {
            SocketActionView::Nothing
        }),
        connection_after(connection, SocketEventView::Published(event)) == connection,
        registry_after(connection, polls, SocketEventView::Published(event)) == polls,
{
}

/// Once a send has failed or the other side is gone, the connection answers every
/// event with `Close`, stays closed and moves the registry no more.
pub proof fn law_closed_connection_stays_closed(
    connection: ConnectionView,
    polls: Seq<PollView>,
    end: SocketEventView,
    later: SocketEventView,
)
    requires
        end is SendFailed || end is Disconnected,
    ensures
        connection_action(connection, polls, end) == SocketActionView::Close,
        !connection_after(connection, end).open,
        connection_action(connection_after(connection, end), polls, later)
            == SocketActionView::Close,
        !connection_after(connection_after(connection, end), later).open,
        registry_after(connection_after(connection, end), polls, later) == polls,
{
}

/// Finishing a ceremony on a session on which none of that kind is pending fails with
/// `CorruptSession` and leaves the directory alone. A session on which nothing was
/// started is such a session.
pub proof fn law_finish_needs_start(
    users: DataView,
    site: Webauthn,
    registration: RegisterPublicKeyCredential,
    login: PublicKeyCredential,
)
    ensures
        SessionView::empty().reg_state is None,
        SessionView::empty().auth_state is None,
        registration_reply(None, site, registration) == Err::<(), WebauthnError>(
            WebauthnError::CorruptSession,
        ),
        users_after_registration(users, None, site, registration) == users,
        authentication_reply(users, None, site, login) == Err::<(), WebauthnError>(
            WebauthnError::CorruptSession,
        ),
        users_after_authentication(users, None, site, login) == users,
{
}

/// Starting a registration puts the challenge it issued in the place of the one that
/// was pending: the session is the same as if nothing had been pending. So an answer
/// is checked against the newest challenge alone, and one that does not pass that check
/// fails with `VerificationFailed` and registers nothing, whether or not it would have
/// passed against the challenge that was superseded.
pub proof fn law_new_registration_supersedes(
    users: DataView,
    session: SessionView,
    stale: (Seq<char>, u128, PasskeyRegistration),
    fresh: (Seq<char>, u128, PasskeyRegistration),
    site: Webauthn,
    response: RegisterPublicKeyCredential,
)
    ensures
        with_registration(with_registration(session, Some(stale)), Some(fresh))
            == with_registration(session, Some(fresh)),
        with_registration(with_registration(session, Some(stale)), Some(fresh)).reg_state == Some(
            fresh,
        ),
        registration_verdict(site, response, fresh.2) is None ==> registration_reply(
            with_registration(with_registration(session, Some(stale)), Some(fresh)).reg_state,
            site,
            response,
        ) == Err::<(), WebauthnError>(WebauthnError::VerificationFailed),
        registration_verdict(site, response, fresh.2) is None ==> users_after_registration(
            users,
            with_registration(with_registration(session, Some(stale)), Some(fresh)).reg_state,
            site,
            response,
        ) == users,
{
}

/// Starting a login puts the challenge it issued in the place of the one that was
/// pending: the session is the same as if nothing had been pending. So an answer is
/// checked against the newest challenge alone, and one that does not pass that check
/// fails with `VerificationFailed` and changes nothing in the directory, whether or
/// not it would have passed against the challenge that was superseded.
pub proof fn law_new_login_supersedes(
    users: DataView,
    session: SessionView,
    stale: (u128, PasskeyAuthentication),
    fresh: (u128, PasskeyAuthentication),
    site: Webauthn,
    response: PublicKeyCredential,
)
    ensures
        with_authentication(with_authentication(session, Some(stale)), Some(fresh))
            == with_authentication(session, Some(fresh)),
        with_authentication(with_authentication(session, Some(stale)), Some(fresh)).auth_state
            == Some(fresh),
        authentication_verdict(site, response, fresh.1) is None ==> authentication_reply(
            users,
            with_authentication(with_authentication(session, Some(stale)), Some(fresh)).auth_state,
            site,
            response,
        ) == Err::<(), WebauthnError>(WebauthnError::VerificationFailed),
        authentication_verdict(site, response, fresh.1) is None ==> users_after_authentication(
            users,
            with_authentication(with_authentication(session, Some(stale)), Some(fresh)).auth_state,
            site,
            response,
        ) == users,
{
}

/// A challenge is answered once: after a ceremony was finished, whatever the outcome,
/// finishing it again on the same session fails with `CorruptSession`.
pub proof fn law_challenge_is_single_use(
    users: DataView,
    session: SessionView,
    site: Webauthn,
    registration: RegisterPublicKeyCredential,
    login: PublicKeyCredential,
)
    ensures
        registration_reply(with_registration(session, None).reg_state, site, registration) == Err::<
            (),
            WebauthnError,
        >(WebauthnError::CorruptSession),
        session_after_authentication(users, session, site, login).auth_state is None,
        authentication_reply(
            users,
            session_after_authentication(users, session, site, login).auth_state,
            site,
            login,
        ) == Err::<(), WebauthnError>(WebauthnError::CorruptSession),
{
}

} // verus!
