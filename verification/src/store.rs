use crate::clock::now;
use crate::error::WebauthnError;
use crate::ids::fresh_id;
use crate::models::poll::{
    distinct_option_ids, fresh_options, option_position, option_views,
    text_views, vote_limit, Poll, PollOption, PollOptionView, PollView, Timestamp,
};
use vstd::prelude::*;

verus! {

/// The values of a list of polls, in order.
pub open spec fn poll_views(polls: Seq<Poll>) -> Seq<PollView> {
    polls.map_values(|p: Poll| p@)
}

/// No two polls carry the same identifier.
pub open spec fn distinct_poll_ids(polls: Seq<PollView>) -> bool {
    forall|i: int, j: int|
        0 <= i < j < polls.len() ==> (#[trigger] polls[i]).id != (#[trigger] polls[j]).id
}

/// No two strings of the list are the same.
pub open spec fn distinct_texts(texts: Seq<Seq<char>>) -> bool {
    forall|i: int, j: int| 0 <= i < j < texts.len() ==> #[trigger] texts[i] != #[trigger] texts[j]
}

/// A registry is well formed when its polls are and no identifier occurs twice.
pub open spec fn registry_wf(polls: Seq<PollView>) -> bool {
    &&& distinct_poll_ids(polls)
    &&& forall|i: int| 0 <= i < polls.len() ==> (#[trigger] polls[i]).wf()
}

/// Where the poll with identifier `id` stands, if there is one.
pub open spec fn poll_position(polls: Seq<PollView>, id: Seq<char>) -> Option<int> {
    if exists|i: int| 0 <= i < polls.len() && (#[trigger] polls[i]).id == id {
        Some(choose|i: int| 0 <= i < polls.len() && (#[trigger] polls[i]).id == id)
    } else {
        None
    }
}

/// The poll with identifier `id`, or `NotFound`.
pub open spec fn found(polls: Seq<PollView>, id: Seq<char>) -> Result<PollView, WebauthnError> {
    match poll_position(polls, id) {
        Some(i) => Ok(polls[i]),
        None => Err(WebauthnError::NotFound),
    }
}

/// The poll that a registry gets for these ingredients: open, with no votes, its
/// options in the order of their texts.
pub open spec fn new_poll(
    id: Seq<char>,
    title: Seq<char>,
    creator_id: u128,
    option_ids: Seq<Seq<char>>,
    options: Seq<Seq<char>>,
    created_at: Timestamp,
) -> PollView {
    PollView {
        id,
        title,
        creator_id,
        options: fresh_options(option_ids, options),
        created_at,
        is_closed: false,
    }
}

/// What `create_with` answers: a poll needs an option; its identifier must be new to
/// the registry and its options must get one identifier each, all different.
pub open spec fn create_reply(
    polls: Seq<PollView>,
    id: Seq<char>,
    title: Seq<char>,
    creator_id: u128,
    option_ids: Seq<Seq<char>>,
    options: Seq<Seq<char>>,
    created_at: Timestamp,
) -> Result<PollView, WebauthnError> {
    if options.len() == 0 {
        Err(WebauthnError::InvalidPoll)
    } else if option_ids.len() != options.len() || !distinct_texts(option_ids) || poll_position(
        polls,
        id,
    ) is Some {
        Err(WebauthnError::Unknown)
    } else {
        Ok(new_poll(id, title, creator_id, option_ids, options, created_at))
    }
}

/// What a vote answers: the poll with one more vote on the option, unless the poll is
/// missing or closed, the option is missing, or its count is at the limit.
pub open spec fn vote_reply(polls: Seq<PollView>, id: Seq<char>, option_id: Seq<char>) -> Result<
    PollView,
    WebauthnError,
> {
    match found(polls, id) {
        Err(e) => Err(e),
        Ok(poll) => if poll.is_closed {
            Err(WebauthnError::Closed)
        } else {
            match option_position(poll.options, option_id) {
                None => Err(WebauthnError::OptionNotFound),
                Some(j) => if poll.options[j].votes >= vote_limit() {
                    Err(WebauthnError::Unknown)
                } else {
                    Ok(poll.with_vote(j))
                },
            }
        },
    }
}

/// What closing answers: the poll, closed, for its creator and nobody else.
pub open spec fn close_reply(polls: Seq<PollView>, id: Seq<char>, requester_id: u128) -> Result<
    PollView,
    WebauthnError,
> {
    match found(polls, id) {
        Err(e) => Err(e),
        Ok(poll) => if poll.creator_id != requester_id {
            Err(WebauthnError::Unauthorized)
        } else {
            Ok(poll.closed())
        },
    }
}

/// What a reset answers: the poll with every count at zero, for its creator and nobody
/// else.
pub open spec fn reset_reply(polls: Seq<PollView>, id: Seq<char>, requester_id: u128) -> Result<
    PollView,
    WebauthnError,
> {
    match found(polls, id) {
        Err(e) => Err(e),
        Ok(poll) => if poll.creator_id != requester_id {
            Err(WebauthnError::Unauthorized)
        } else {
            Ok(poll.reset())
        },
    }
}

/// What a deletion answers: the poll as it was removed, for its creator and nobody
/// else.
pub open spec fn delete_reply(polls: Seq<PollView>, id: Seq<char>, requester_id: u128) -> Result<
    PollView,
    WebauthnError,
> {
    match found(polls, id) {
        Err(e) => Err(e),
        Ok(poll) => if poll.creator_id != requester_id {
            Err(WebauthnError::Unauthorized)
        } else {
            Ok(poll)
        },
    }
}

/// The registry after an operation that answered `reply` for the poll `id`: the poll
/// stands changed in its place where the answer is a poll, and nothing has moved where
/// it is an error.
pub open spec fn replaced(
    polls: Seq<PollView>,
    id: Seq<char>,
    reply: Result<PollView, WebauthnError>,
) -> Seq<PollView> {
    match (poll_position(polls, id), reply) {
        (Some(i), Ok(poll)) => polls.update(i, poll),
        _ => polls,
    }
}

/// The registry after a creation that answered `reply`: the new poll stands at the end.
pub open spec fn appended(polls: Seq<PollView>, reply: Result<PollView, WebauthnError>) -> Seq<
    PollView,
> {
    match reply {
        Ok(poll) => polls.push(poll),
        Err(_) => polls,
    }
}

/// The registry after a deletion that answered `reply` for the poll `id`: the poll is
/// gone and the others keep their order.
pub open spec fn removed(
    polls: Seq<PollView>,
    id: Seq<char>,
    reply: Result<PollView, WebauthnError>,
) -> Seq<PollView> {
    match (poll_position(polls, id), reply) {
        (Some(i), Ok(_)) => polls.remove(i),
        _ => polls,
    }
}

/// Whether an executable answer is the one that the model gives.
pub open spec fn answers(reply: Result<Poll, WebauthnError>, model: Result<PollView, WebauthnError>)
    -> bool {
    match reply {
        Ok(poll) => model == Ok::<PollView, WebauthnError>(poll@),
        Err(e) => model == Err::<PollView, WebauthnError>(e),
    }
}

/// In a registry without repeated identifiers, a poll stands where its identifier is
/// found.
pub proof fn lemma_position_unique(polls: Seq<PollView>, i: int)
    requires
        distinct_poll_ids(polls),
        0 <= i < polls.len(),
    ensures
        poll_position(polls, polls[i].id) == Some(i),
{
}

/// Among options without repeated identifiers, an option stands where its identifier is
/// found.
pub proof fn lemma_option_unique(options: Seq<PollOptionView>, j: int)
    requires
        distinct_option_ids(options),
        0 <= j < options.len(),
    ensures
        option_position(options, options[j].id) == Some(j),
{
}

/// Putting a poll in the place of one with the same identifier keeps the identifiers
/// apart, makes that poll the one found under the identifier, and leaves every other
/// identifier with what it had.
pub proof fn lemma_replaced_found(polls: Seq<PollView>, i: int, poll: PollView)
    requires
        distinct_poll_ids(polls),
        0 <= i < polls.len(),
        poll.id == polls[i].id,
    ensures
        distinct_poll_ids(polls.update(i, poll)),
        found(polls.update(i, poll), poll.id) == Ok::<PollView, WebauthnError>(poll),
        forall|other: Seq<char>|
            other != poll.id ==> #[trigger] found(polls.update(i, poll), other) == found(
                polls,
                other,
            ),
{
    let after = polls.update(i, poll);
    lemma_position_unique(after, i);
    assert forall|other: Seq<char>| other != poll.id implies #[trigger] found(after, other)
        == found(polls, other) by {
        lemma_same_ids_same_positions(polls, after, other);
    }
}

/// Two registries that carry the same identifiers in the same places, none of them
/// twice, find every identifier in the same place.
pub proof fn lemma_same_ids_same_positions(a: Seq<PollView>, b: Seq<PollView>, id: Seq<char>)
    requires
        a.len() == b.len(),
        forall|k: int| 0 <= k < a.len() ==> (#[trigger] a[k]).id == b[k].id,
        distinct_poll_ids(a),
    ensures
        distinct_poll_ids(b),
        poll_position(a, id) == poll_position(b, id),
{
    assert forall|x: int, y: int| 0 <= x < y < b.len() implies (#[trigger] b[x]).id != (
    #[trigger] b[y]).id by {
        assert(a[x].id != a[y].id);
    }
    if poll_position(a, id) is Some {
        let k = poll_position(a, id)->Some_0;
        lemma_position_unique(b, k);
    } else {
        if poll_position(b, id) is Some {
            let k = poll_position(b, id)->Some_0;
            assert(a[k].id == id);
        }
    }
}

/// A poll whose identifier is new to a registry is found at its end once it is
/// appended, and every other identifier keeps what it had.
pub proof fn lemma_appended_found(polls: Seq<PollView>, poll: PollView)
    requires
        distinct_poll_ids(polls),
        poll_position(polls, poll.id) is None,
    ensures
        distinct_poll_ids(polls.push(poll)),
        found(polls.push(poll), poll.id) == Ok::<PollView, WebauthnError>(poll),
        forall|other: Seq<char>|
            other != poll.id ==> #[trigger] found(polls.push(poll), other) == found(polls, other),
{
    let after = polls.push(poll);
    lemma_position_unique(after, polls.len() as int);
    assert forall|other: Seq<char>| other != poll.id implies #[trigger] found(after, other)
        == found(polls, other) by {
        if poll_position(polls, other) is Some {
            lemma_position_unique(after, poll_position(polls, other)->Some_0);
        }
    }
}

/// Once a poll is removed from a registry its identifier is found no more, and every
/// other identifier keeps what it had.
pub proof fn lemma_removed_not_found(polls: Seq<PollView>, i: int)
    requires
        distinct_poll_ids(polls),
        0 <= i < polls.len(),
    ensures
        distinct_poll_ids(polls.remove(i)),
        found(polls.remove(i), polls[i].id) == Err::<PollView, WebauthnError>(
            WebauthnError::NotFound,
        ),
        forall|other: Seq<char>|
            other != polls[i].id ==> #[trigger] found(polls.remove(i), other) == found(
                polls,
                other,
            ),
{
    let after = polls.remove(i);
    assert forall|other: Seq<char>| other != polls[i].id implies #[trigger] found(after, other)
        == found(polls, other) by {
        if poll_position(polls, other) is Some {
            let k = poll_position(polls, other)->Some_0;
            lemma_position_unique(after, if k < i { k } else { k - 1 });
        }
    }
}

/// The registry of polls, in the order in which they were created.
///
/// Every registry is well formed ([`registry_wf`]): this is its type invariant. An
/// operation that changes a poll takes the list out of the registry, changes it and
/// puts it back, so that the registry is well formed at every step: an empty registry
/// is, and so is the list once the change is complete.
///
/// Whoever holds the registry mutably holds it alone, so each operation is one step
/// that no other one interleaves with.
pub struct PollStore {
    polls: Vec<Poll>,
}

impl View for PollStore {
    type V = Seq<PollView>;

    closed spec fn view(&self) -> Seq<PollView> {
        poll_views(self.polls@)
    }
}

fn position_of(polls: &Vec<Poll>, id: &String) -> (at: Option<usize>)
    requires
        distinct_poll_ids(poll_views(polls@)),
    ensures
        match at {
            Some(i) => i < polls.len() && poll_position(poll_views(polls@), id@) == Some(i as int),
            None => poll_position(poll_views(polls@), id@) is None,
        },
{
    let ghost views = poll_views(polls@);
    let mut i: usize = 0;
    while i < polls.len()
        invariant
            i <= polls.len(),
            views == poll_views(polls@),
            distinct_poll_ids(views),
            forall|k: int| 0 <= k < i ==> (#[trigger] views[k]).id != id@,
        decreases polls.len() - i,
    {
        if polls[i].id == *id {
            proof {
                lemma_position_unique(views, i as int);
            }
            return Some(i);
        }
        i += 1;
    }
    None
}

fn option_index(options: &Vec<PollOption>, id: &String) -> (at: Option<usize>)
    requires
        distinct_option_ids(option_views(options@)),
    ensures
        match at {
            Some(j) => j < options.len() && option_position(option_views(options@), id@) == Some(
                j as int,
            ),
            None => option_position(option_views(options@), id@) is None,
        },
{
    let ghost views = option_views(options@);
    let mut j: usize = 0;
    while j < options.len()
        invariant
            j <= options.len(),
            views == option_views(options@),
            distinct_option_ids(views),
            forall|k: int| 0 <= k < j ==> (#[trigger] views[k]).id != id@,
        decreases options.len() - j,
    {
        if options[j].id == *id {
            proof {
                lemma_option_unique(views, j as int);
            }
            return Some(j);
        }
        j += 1;
    }
    None
}

fn all_distinct(texts: &Vec<String>) -> (distinct: bool)
    ensures
        distinct == distinct_texts(text_views(texts@)),
{
    let ghost views = text_views(texts@);
    let mut j: usize = 0;
    while j < texts.len()
        invariant
            j <= texts.len(),
            views == text_views(texts@),
            forall|a: int, b: int| 0 <= a < b < j ==> #[trigger] views[a] != #[trigger] views[b],
        decreases texts.len() - j,
    {
        let mut i: usize = 0;
        while i < j
            invariant
                i <= j < texts.len(),
                views == text_views(texts@),
                forall|a: int| 0 <= a < i ==> #[trigger] views[a] != views[j as int],
            decreases j - i,
        {
            assert(views[i as int] == texts[i as int]@);
            assert(views[j as int] == texts[j as int]@);
            if texts[i] == texts[j] {
                return false;
            }
            i += 1;
        }
        j += 1;
    }
    true
}

impl PollStore {
    #[verifier::type_invariant]
    spec fn well_formed(self) -> bool {
        registry_wf(self@)
    }

    /// A registry without polls.
    pub fn new() -> (store: PollStore)
        ensures
            store@ == Seq::<PollView>::empty(),
            registry_wf(store@),
    {
        PollStore { polls: Vec::new() }
    }

    /// The poll with identifier `id`, as it stands.
    pub fn get(&self, id: &str) -> (reply: Result<Poll, WebauthnError>)
        ensures
            answers(reply, found(self@, id@)),
    {
        proof {
            use_type_invariant(self);
        }
        let key = id.to_owned();
        match position_of(&self.polls, &key) {
            Some(i) => Ok(self.polls[i].clone()),
            None => Err(WebauthnError::NotFound),
        }
    }

    /// Enters a poll made of the given ingredients, the identifiers included.
    ///
    /// A poll without options is refused with `InvalidPoll`. Identifiers that do not fit,
    /// because the poll's is already in the registry or the options' are not one each
    /// and all different, are refused with `Unknown`. Otherwise the poll stands at the
    /// end of the registry, open and without votes.
    pub fn create_with(
        &mut self,
        id: String,
        title: String,
        options: Vec<String>,
        creator_id: u128,
        option_ids: Vec<String>,
        created_at: Timestamp,
    ) -> (reply: Result<Poll, WebauthnError>)
        ensures
            answers(
                reply,
                create_reply(
                    old(self)@,
                    id@,
                    title@,
                    creator_id,
                    text_views(option_ids@),
                    text_views(options@),
                    created_at,
                ),
            ),
            final(self)@ == appended(
                old(self)@,
                create_reply(
                    old(self)@,
                    id@,
                    title@,
                    creator_id,
                    text_views(option_ids@),
                    text_views(options@),
                    created_at,
                ),
            ),
            registry_wf(final(self)@),
            reply is Ok ==> found(final(self)@, id@) == Ok::<PollView, WebauthnError>(
                reply->Ok_0@,
            ),
    {
        proof {
            use_type_invariant(&*self);
        }
        if options.len() == 0 {
            return Err(WebauthnError::InvalidPoll);
        }
        if option_ids.len() != options.len() || !all_distinct(&option_ids) {
            return Err(WebauthnError::Unknown);
        }
        if position_of(&self.polls, &id).is_some() {
            return Err(WebauthnError::Unknown);
        }
        let ghost ids = text_views(option_ids@);
        let ghost texts = text_views(options@);
        let mut entries: Vec<PollOption> = Vec::new();
        let mut j: usize = 0;
        while j < options.len()
            invariant
                j <= options.len(),
                option_ids.len() == options.len(),
                entries.len() == j,
                ids == text_views(option_ids@),
                texts == text_views(options@),
                forall|k: int|
                    0 <= k < j ==> (#[trigger] entries[k])@ == (PollOptionView {
                        id: ids[k],
                        text: texts[k],
                        votes: 0,
                    }),
            decreases options.len() - j,
        {
            entries.push(PollOption::new(option_ids[j].clone(), options[j].clone()));
            j += 1;
        }
        assert(option_views(entries@) =~= fresh_options(ids, texts));
        let poll = Poll { id, title, creator_id, options: entries, created_at, is_closed: false };
        let copy = poll.clone();
        let ghost model = new_poll(id@, title@, creator_id, ids, texts, created_at);
        let mut polls: Vec<Poll> = Vec::new();
        core::mem::swap(&mut self.polls, &mut polls);
        polls.push(poll);
        assert(poll_views(polls@) =~= old(self)@.push(model));
        proof {
            lemma_appended_found(old(self)@, model);
        }
        core::mem::swap(&mut self.polls, &mut polls);
        Ok(copy)
    }

    /// Opens a poll: draws random identifiers for it and for each option, stamps it
    /// with the current time and enters it.
    ///
    /// A poll without options is refused with `InvalidPoll`. Any other failure is
    /// `Unknown` and means that an identifier came out that was already taken, which
    /// chance alone decides. On success the poll stands at the end of the registry,
    /// open, without votes, with the given title, creator and option texts.
    pub fn create(&mut self, title: String, options: Vec<String>, creator_id: u128) -> (reply:
        Result<Poll, WebauthnError>)
        ensures
            options@.len() == 0 <==> reply == Err::<Poll, WebauthnError>(
                WebauthnError::InvalidPoll,
            ),
            reply is Err ==> reply->Err_0 == WebauthnError::InvalidPoll || reply->Err_0
                == WebauthnError::Unknown,
            old(self)@.len() == 0 && options@.len() == 1 ==> reply is Ok,
            reply is Err ==> final(self)@ == old(self)@,
            reply is Ok ==> final(self)@ == old(self)@.push(reply->Ok_0@),
            reply is Ok ==> poll_position(old(self)@, reply->Ok_0@.id) is None,
            reply is Ok ==> reply->Ok_0@.wf(),
            reply is Ok ==> reply->Ok_0@.created_at.from_clock(),
            registry_wf(final(self)@),
            reply is Ok ==> found(final(self)@, reply->Ok_0@.id) == Ok::<PollView, WebauthnError>(
                reply->Ok_0@,
            ),
            reply is Ok ==> exists|option_ids: Seq<Seq<char>>|
                reply->Ok_0@ == new_poll(
                    reply->Ok_0@.id,
                    title@,
                    creator_id,
                    option_ids,
                    text_views(options@),
                    reply->Ok_0@.created_at,
                ),
    {
        proof {
            use_type_invariant(&*self);
        }
        let mut option_ids: Vec<String> = Vec::new();
        let mut j: usize = 0;
        while j < options.len()
            invariant
                j <= options.len(),
                option_ids.len() == j,
            decreases options.len() - j,
        {
            option_ids.push(fresh_id());
            j += 1;
        }
        let id = fresh_id();
        let created_at = now();
        let reply = self.create_with(id, title, options, creator_id, option_ids, created_at);
        assert(reply is Ok ==> reply->Ok_0@ == new_poll(
            reply->Ok_0@.id,
            title@,
            creator_id,
            text_views(option_ids@),
            text_views(options@),
            reply->Ok_0@.created_at,
        ));
        reply
    }

    /// Casts one vote for the option `option_id` of the poll `id`.
    ///
    /// Fails with `NotFound` where the poll is missing, `Closed` where it is closed,
    /// `OptionNotFound` where it has no such option, and `Unknown` where the option's
    /// count is at the limit; nothing changes then. Otherwise that one count goes up
    /// by one and the poll is returned as it stands afterwards.
    pub fn vote(&mut self, id: &str, option_id: &str) -> (reply: Result<Poll, WebauthnError>)
        ensures
            answers(reply, vote_reply(old(self)@, id@, option_id@)),
            final(self)@ == replaced(old(self)@, id@, vote_reply(old(self)@, id@, option_id@)),
            registry_wf(final(self)@),
            reply is Err ==> final(self)@ == old(self)@,
            found(old(self)@, id@) is Ok && found(old(self)@, id@)->Ok_0.is_closed ==> reply
                == Err::<Poll, WebauthnError>(WebauthnError::Closed),
            reply is Ok ==> found(final(self)@, id@) == Ok::<PollView, WebauthnError>(
                reply->Ok_0@,
            ),
            forall|other: Seq<char>|
                other != id@ ==> #[trigger] found(final(self)@, other) == found(old(self)@, other),
    {
        proof {
            use_type_invariant(&*self);
        }
        let key = id.to_owned();
        let i = match position_of(&self.polls, &key) {
            Some(i) => i,
            None => { return Err(WebauthnError::NotFound); },
        };
        if self.polls[i].is_closed {
            return Err(WebauthnError::Closed);
        }
        let option_key = option_id.to_owned();
        let j = match option_index(&self.polls[i].options, &option_key) {
            Some(j) => j,
            None => { return Err(WebauthnError::OptionNotFound); },
        };
        if self.polls[i].options[j].votes >= i32::MAX {
            return Err(WebauthnError::Unknown);
        }
        let ghost before = self@[i as int];
        let mut polls: Vec<Poll> = Vec::new();
        core::mem::swap(&mut self.polls, &mut polls);
        let votes = polls[i].options[j].votes;
        polls[i].options[j].votes = votes + 1;
        assert(polls[i as int]@.options =~= before.with_vote(j as int).options);
        let copy = polls[i].clone();
        assert(poll_views(polls@) =~= old(self)@.update(i as int, before.with_vote(j as int)));
        proof {
            lemma_replaced_found(old(self)@, i as int, before.with_vote(j as int));
        }
        core::mem::swap(&mut self.polls, &mut polls);
        Ok(copy)
    }

    /// Closes the poll `id` to votes, on behalf of `requester_id`.
    ///
    /// Fails with `NotFound` where the poll is missing and with `Unauthorized` where
    /// the requester is not its creator; nothing changes then. Closing a closed poll
    /// succeeds and leaves it closed.
    pub fn close(&mut self, id: &str, requester_id: u128) -> (reply: Result<Poll, WebauthnError>)
        ensures
            answers(reply, close_reply(old(self)@, id@, requester_id)),
            final(self)@ == replaced(old(self)@, id@, close_reply(old(self)@, id@, requester_id)),
            registry_wf(final(self)@),
            reply is Err ==> final(self)@ == old(self)@,
            found(old(self)@, id@) is Ok && found(old(self)@, id@)->Ok_0.creator_id
                != requester_id ==> reply == Err::<Poll, WebauthnError>(
                WebauthnError::Unauthorized,
            ),
            reply is Ok ==> found(final(self)@, id@) == Ok::<PollView, WebauthnError>(
                reply->Ok_0@,
            ),
            forall|other: Seq<char>|
                other != id@ ==> #[trigger] found(final(self)@, other) == found(old(self)@, other),
    {
        proof {
            use_type_invariant(&*self);
        }
        let key = id.to_owned();
        let i = match position_of(&self.polls, &key) {
            Some(i) => i,
            None => { return Err(WebauthnError::NotFound); },
        };
        if self.polls[i].creator_id != requester_id {
            return Err(WebauthnError::Unauthorized);
        }
        let ghost before = self@[i as int];
        let mut polls: Vec<Poll> = Vec::new();
        core::mem::swap(&mut self.polls, &mut polls);
        polls[i].is_closed = true;
        let copy = polls[i].clone();
        assert(poll_views(polls@) =~= old(self)@.update(i as int, before.closed()));
        proof {
            lemma_replaced_found(old(self)@, i as int, before.closed());
        }
        core::mem::swap(&mut self.polls, &mut polls);
        Ok(copy)
    }

    /// Sets every count of the poll `id` to zero, on behalf of `requester_id`.
    ///
    /// Fails with `NotFound` where the poll is missing and with `Unauthorized` where
    /// the requester is not its creator; nothing changes then. Whether the poll is
    /// closed plays no part and does not change.
    pub fn reset(&mut self, id: &str, requester_id: u128) -> (reply: Result<Poll, WebauthnError>)
        ensures
            answers(reply, reset_reply(old(self)@, id@, requester_id)),
            final(self)@ == replaced(old(self)@, id@, reset_reply(old(self)@, id@, requester_id)),
            registry_wf(final(self)@),
            reply is Err ==> final(self)@ == old(self)@,
            found(old(self)@, id@) is Ok && found(old(self)@, id@)->Ok_0.creator_id
                != requester_id ==> reply == Err::<Poll, WebauthnError>(
                WebauthnError::Unauthorized,
            ),
            reply is Ok ==> found(final(self)@, id@) == Ok::<PollView, WebauthnError>(
                reply->Ok_0@,
            ),
            forall|other: Seq<char>|
                other != id@ ==> #[trigger] found(final(self)@, other) == found(old(self)@, other),
    {
        proof {
            use_type_invariant(&*self);
        }
        let key = id.to_owned();
        let i = match position_of(&self.polls, &key) {
            Some(i) => i,
            None => { return Err(WebauthnError::NotFound); },
        };
        if self.polls[i].creator_id != requester_id {
            return Err(WebauthnError::Unauthorized);
        }
        let ghost before = self@[i as int];
        let mut polls: Vec<Poll> = Vec::new();
        core::mem::swap(&mut self.polls, &mut polls);
        let ghost others = polls@;
        let count = polls[i].options.len();
        let mut j: usize = 0;
        while j < count
            invariant
                j <= count,
                i < polls.len() == others.len(),
                count == before.options.len(),
                forall|k: int| 0 <= k < polls.len() && k != i ==> #[trigger] polls[k] == others[k],
                polls[i as int]@ == (PollView { options: polls[i as int]@.options, ..before }),
                polls[i as int]@.options.len() == count,
                forall|k: int|
                    0 <= k < j ==> (#[trigger] polls[i as int]@.options[k]) == (PollOptionView {
                        votes: 0,
                        ..before.options[k]
                    }),
                forall|k: int|
                    j <= k < count ==> (#[trigger] polls[i as int]@.options[k])
                        == before.options[k],
            decreases count - j,
        {
            let ghost options_before = polls[i as int]@.options;
            polls[i].options[j].votes = 0;
            assert(polls[i as int]@.options =~= options_before.update(
                j as int,
                PollOptionView { votes: 0, ..options_before[j as int] },
            ));
            j += 1;
        }
        assert(polls[i as int]@.options =~= before.reset().options);
        let copy = polls[i].clone();
        assert(poll_views(polls@) =~= old(self)@.update(i as int, before.reset()));
        proof {
            lemma_replaced_found(old(self)@, i as int, before.reset());
        }
        core::mem::swap(&mut self.polls, &mut polls);
        Ok(copy)
    }

    /// Removes the poll `id`, on behalf of `requester_id`, and returns it as it stood.
    ///
    /// Fails with `NotFound` where the poll is missing and with `Unauthorized` where
    /// the requester is not its creator; nothing changes then. The other polls keep
    /// their order.
    pub fn delete(&mut self, id: &str, requester_id: u128) -> (reply: Result<Poll, WebauthnError>)
        ensures
            answers(reply, delete_reply(old(self)@, id@, requester_id)),
            final(self)@ == removed(old(self)@, id@, delete_reply(old(self)@, id@, requester_id)),
            registry_wf(final(self)@),
            reply is Err ==> final(self)@ == old(self)@,
            found(old(self)@, id@) is Ok && found(old(self)@, id@)->Ok_0.creator_id
                != requester_id ==> reply == Err::<Poll, WebauthnError>(
                WebauthnError::Unauthorized,
            ),
            reply is Ok ==> found(final(self)@, id@) == Err::<PollView, WebauthnError>(
                WebauthnError::NotFound,
            ),
            forall|other: Seq<char>|
                other != id@ ==> #[trigger] found(final(self)@, other) == found(old(self)@, other),
    {
        proof {
            use_type_invariant(&*self);
        }
        let key = id.to_owned();
        let i = match position_of(&self.polls, &key) {
            Some(i) => i,
            None => { return Err(WebauthnError::NotFound); },
        };
        if self.polls[i].creator_id != requester_id {
            return Err(WebauthnError::Unauthorized);
        }
        let mut polls: Vec<Poll> = Vec::new();
        core::mem::swap(&mut self.polls, &mut polls);
        let poll = polls.remove(i);
        assert(poll_views(polls@) =~= old(self)@.remove(i as int));
        proof {
            lemma_removed_not_found(old(self)@, i as int);
        }
        core::mem::swap(&mut self.polls, &mut polls);
        Ok(poll)
    }

    /// Every poll as it stands, in the order of creation.
    pub fn list(&self) -> (polls: Vec<Poll>)
        ensures
            poll_views(polls@) == self@,
    {
        let mut polls: Vec<Poll> = Vec::new();
        let mut i: usize = 0;
        while i < self.polls.len()
            invariant
                i <= self.polls.len(),
                polls.len() == i,
                forall|k: int| 0 <= k < i ==> (#[trigger] polls[k])@ == self.polls[k]@,
            decreases self.polls.len() - i,
        {
            polls.push(self.polls[i].clone());
            i += 1;
        }
        polls
    }
}

} // verus!
