use crate::clock::now;
use crate::error::WebauthnError;
use crate::models::poll::{
    text_views, tombstone, CreatePollRequest, Poll, PollEvent, PollEventView, PollView, Timestamp,
    VoteRequest,
};
use crate::session::{SessionState, SessionView};
use crate::store::{
    answers, close_reply, delete_reply, found, new_poll, poll_position, poll_views, removed,
    replaced, reset_reply, vote_reply, PollStore,
};
use vstd::prelude::*;

verus! {

/// Who acts on a session: the user that a login left on it, or nobody.
pub open spec fn requester(session: SessionView) -> Result<u128, WebauthnError> {
    match session.user_id {
        Some(id) => Ok(id),
        None => Err(WebauthnError::NotAuthenticated),
    }
}

/// What closing answers to a session: `NotAuthenticated` where it has no identity, else
/// what it answers to its user.
pub open spec fn close_for(session: SessionView, polls: Seq<PollView>, id: Seq<char>) -> Result<
    PollView,
    WebauthnError,
> {
    match requester(session) {
        Ok(user) => close_reply(polls, id, user),
        Err(e) => Err(e),
    }
}

/// What a reset answers to a session: `NotAuthenticated` where it has no identity, else
/// what it answers to its user.
pub open spec fn reset_for(session: SessionView, polls: Seq<PollView>, id: Seq<char>) -> Result<
    PollView,
    WebauthnError,
> {
    match requester(session) {
        Ok(user) => reset_reply(polls, id, user),
        Err(e) => Err(e),
    }
}

/// What a deletion answers to a session: `NotAuthenticated` where it has no identity,
/// else what it answers to its user.
pub open spec fn delete_for(session: SessionView, polls: Seq<PollView>, id: Seq<char>) -> Result<
    PollView,
    WebauthnError,
> {
    match requester(session) {
        Ok(user) => delete_reply(polls, id, user),
        Err(e) => Err(e),
    }
}

/// The session belongs to a user, the poll `id` exists, and that user did not make it.
pub open spec fn not_the_creator(session: SessionView, polls: Seq<PollView>, id: Seq<char>)
    -> bool {
    &&& session.user_id is Some
    &&& found(polls, id) is Ok
    &&& found(polls, id)->Ok_0.creator_id != session.user_id->Some_0
}

/// Whether an executable answer with its event is the one that the model gives for the
/// poll `id`: the event carries that identifier and the poll of the answer.
pub open spec fn announces(
    reply: Result<PollEvent, WebauthnError>,
    id: Seq<char>,
    model: Result<PollView, WebauthnError>,
) -> bool {
    match reply {
        Ok(event) => model == Ok::<PollView, WebauthnError>(event@.poll) && event@.poll_id == id,
        Err(e) => model == Err::<PollView, WebauthnError>(e),
    }
}

/// The event that tells of `poll` as it stands.
pub fn snapshot(poll: Poll) -> (event: PollEvent)
    ensures
        event@ == (PollEventView { poll_id: poll@.id, poll: poll@ }),
{
    PollEvent { poll_id: poll.id.clone(), poll }
}

/// The event that tells of the deletion of the poll `poll_id` at the time `at`.
pub fn tombstone_event(poll_id: &str, at: Timestamp) -> (event: PollEvent)
    ensures
        event@ == (PollEventView { poll_id: poll_id@, poll: tombstone(poll_id@, at) }),
{
    let poll = Poll {
        id: poll_id.to_owned(),
        title: String::new(),
        creator_id: 0,
        options: Vec::new(),
        created_at: at,
        is_closed: true,
    };
    assert(poll@.options =~= tombstone(poll_id@, at).options);
    PollEvent { poll_id: poll_id.to_owned(), poll }
}

/// Opens a poll for the user of the session and returns the event that announces it.
///
/// A session without identity gets `NotAuthenticated`, a request without options
/// `InvalidPoll`; `Unknown` means that a random identifier came out that was already
/// taken. On success the new poll stands at the end of the registry, open, without
/// votes, made by that user, with the title and option texts of the request.
pub fn create_poll(store: &mut PollStore, session: &SessionState, req: CreatePollRequest) -> (reply:
    Result<PollEvent, WebauthnError>)
    ensures
        session@.user_id is None <==> reply == Err::<PollEvent, WebauthnError>(
            WebauthnError::NotAuthenticated,
        ),
        session@.user_id is Some ==> (req.options@.len() == 0 <==> reply == Err::<
            PollEvent,
            WebauthnError,
        >(WebauthnError::InvalidPoll)),
        reply is Err ==> reply->Err_0 == WebauthnError::NotAuthenticated || reply->Err_0
            == WebauthnError::InvalidPoll || reply->Err_0 == WebauthnError::Unknown,
        session@.user_id is Some && old(store)@.len() == 0 && req.options@.len() == 1 ==> reply
            is Ok,
        reply is Err ==> final(store)@ == old(store)@,
        reply is Ok ==> final(store)@ == old(store)@.push(reply->Ok_0@.poll),
        reply is Ok ==> poll_position(old(store)@, reply->Ok_0@.poll_id) is None,
        reply is Ok ==> reply->Ok_0@.poll.wf(),
        reply is Ok ==> reply->Ok_0@.poll.created_at.from_clock(),
        reply is Ok ==> reply->Ok_0@.poll_id == reply->Ok_0@.poll.id,
        reply is Ok ==> found(final(store)@, reply->Ok_0@.poll_id) == Ok::<PollView, WebauthnError>(
            reply->Ok_0@.poll,
        ),
        reply is Ok ==> exists|option_ids: Seq<Seq<char>>|
            reply->Ok_0@.poll == new_poll(
                reply->Ok_0@.poll_id,
                req.title@,
                session@.user_id->Some_0,
                option_ids,
                text_views(req.options@),
                reply->Ok_0@.poll.created_at,
            ),
{
    let creator_id = match session.user_id {
        Some(id) => id,
        None => { return Err(WebauthnError::NotAuthenticated); },
    };
    match store.create(req.title, req.options, creator_id) {
        Ok(poll) => Ok(snapshot(poll)),
        Err(e) => Err(e),
    }
}

/// Every poll as it stands, in the order of creation.
pub fn list_polls(store: &PollStore) -> (polls: Vec<Poll>)
    ensures
        poll_views(polls@) == store@,
{
    store.list()
}

/// The poll `poll_id` as it stands, or `NotFound`.
pub fn get_poll(store: &PollStore, poll_id: &str) -> (reply: Result<Poll, WebauthnError>)
    ensures
        answers(reply, found(store@, poll_id@)),
{
    store.get(poll_id)
}

/// Casts the vote of `req` on the poll `poll_id` and returns the event that announces
/// the new counts. Anyone may vote. A vote that fails changes nothing and announces
/// nothing.
pub fn vote_poll(store: &mut PollStore, poll_id: &str, req: &VoteRequest) -> (reply: Result<
    PollEvent,
    WebauthnError,
>)
    ensures
        announces(reply, poll_id@, vote_reply(old(store)@, poll_id@, req.option_id@)),
        final(store)@ == replaced(
            old(store)@,
            poll_id@,
            vote_reply(old(store)@, poll_id@, req.option_id@),
        ),
        reply is Err ==> final(store)@ == old(store)@,
        found(old(store)@, poll_id@) is Ok && found(old(store)@, poll_id@)->Ok_0.is_closed ==> reply
            == Err::<PollEvent, WebauthnError>(WebauthnError::Closed),
        reply is Ok ==> found(final(store)@, poll_id@) == Ok::<PollView, WebauthnError>(
            reply->Ok_0@.poll,
        ),
{
    match store.vote(poll_id, req.option_id.as_str()) {
        Ok(poll) => {
            let event = PollEvent { poll_id: poll_id.to_owned(), poll };
            Ok(event)
        },
        Err(e) => Err(e),
    }
}

/// Closes the poll `poll_id` for the user of the session and returns the event that
/// announces it. Only the poll's creator may; anyone else changes nothing and announces
/// nothing.
pub fn close_poll(store: &mut PollStore, session: &SessionState, poll_id: &str) -> (reply: Result<
    PollEvent,
    WebauthnError,
>)
    ensures
        announces(
            reply,
            poll_id@,
            close_for(session@, old(store)@, poll_id@),
        ),
        final(store)@ == replaced(
            old(store)@,
            poll_id@,
            close_for(session@, old(store)@, poll_id@),
        ),
        reply is Err ==> final(store)@ == old(store)@,
        not_the_creator(session@, old(store)@, poll_id@) ==> reply == Err::<
            PollEvent,
            WebauthnError,
        >(WebauthnError::Unauthorized),
        reply is Ok ==> found(final(store)@, poll_id@) == Ok::<PollView, WebauthnError>(
            reply->Ok_0@.poll,
        ),
{
    let requester_id = match session.user_id {
        Some(id) => id,
        None => { return Err(WebauthnError::NotAuthenticated); },
    };
    match store.close(poll_id, requester_id) {
        Ok(poll) => {
            let event = PollEvent { poll_id: poll_id.to_owned(), poll };
            Ok(event)
        },
        Err(e) => Err(e),
    }
}

/// Sets the counts of the poll `poll_id` to zero for the user of the session and
/// returns the event that announces it. Only the poll's creator may; anyone else
/// changes nothing and announces nothing.
pub fn reset_poll_votes(store: &mut PollStore, session: &SessionState, poll_id: &str) -> (reply:
    Result<PollEvent, WebauthnError>)
    ensures
        announces(
            reply,
            poll_id@,
            reset_for(session@, old(store)@, poll_id@),
        ),
        final(store)@ == replaced(
            old(store)@,
            poll_id@,
            reset_for(session@, old(store)@, poll_id@),
        ),
        reply is Err ==> final(store)@ == old(store)@,
        not_the_creator(session@, old(store)@, poll_id@) ==> reply == Err::<
            PollEvent,
            WebauthnError,
        >(WebauthnError::Unauthorized),
        reply is Ok ==> found(final(store)@, poll_id@) == Ok::<PollView, WebauthnError>(
            reply->Ok_0@.poll,
        ),
{
    let requester_id = match session.user_id {
        Some(id) => id,
        None => { return Err(WebauthnError::NotAuthenticated); },
    };
    match store.reset(poll_id, requester_id) {
        Ok(poll) => {
            let event = PollEvent { poll_id: poll_id.to_owned(), poll };
            Ok(event)
        },
        Err(e) => Err(e),
    }
}

/// Removes the poll `poll_id` for the user of the session and returns the event that
/// announces the deletion: an empty, closed poll of that identifier, stamped with the
/// current time. Only the poll's creator may; anyone else changes nothing and announces
/// nothing.
pub fn delete_poll(store: &mut PollStore, session: &SessionState, poll_id: &str) -> (reply: Result<
    PollEvent,
    WebauthnError,
>)
    ensures
        final(store)@ == removed(
            old(store)@,
            poll_id@,
            delete_for(session@, old(store)@, poll_id@),
        ),
        reply is Err ==> final(store)@ == old(store)@,
        not_the_creator(session@, old(store)@, poll_id@) ==> reply == Err::<
            PollEvent,
            WebauthnError,
        >(WebauthnError::Unauthorized),
        reply is Ok ==> found(final(store)@, poll_id@) == Err::<PollView, WebauthnError>(
            WebauthnError::NotFound,
        ),
        match reply {
            Ok(event) => {
                &&& delete_for(session@, old(store)@, poll_id@) is Ok
                &&& event@.poll.created_at.from_clock()
                &&& event@ == (PollEventView {
                    poll_id: poll_id@,
                    poll: tombstone(poll_id@, event@.poll.created_at),
                })
            },
            Err(e) => delete_for(session@, old(store)@, poll_id@)
                == Err::<PollView, WebauthnError>(e),
        },
{
    let requester_id = match session.user_id {
        Some(id) => id,
        None => { return Err(WebauthnError::NotAuthenticated); },
    };
    match store.delete(poll_id, requester_id) {
        Ok(_) => Ok(tombstone_event(poll_id, now())),
        Err(e) => Err(e),
    }
}

} // verus!
