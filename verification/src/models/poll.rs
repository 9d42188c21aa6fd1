use vstd::prelude::*;

verus! {

/// A point in time: whole seconds since the Unix epoch and the nanoseconds past them.
#[derive(Clone, Copy, Debug, PartialEq, Eq, Structural)]
pub struct Timestamp {
    pub seconds: i64,
    pub nanoseconds: u32,
}

impl Timestamp {
    /// A time read from the clock: not before the epoch, the nanoseconds below one
    /// second.
    pub open spec fn from_clock(self) -> bool {
        self.seconds >= 0 && self.nanoseconds < 1_000_000_000
    }
}

/// One choice of a poll, with the number of votes it has received.
#[derive(Debug, PartialEq, Eq)]
pub struct PollOption {
    pub id: String,
    pub text: String,
    pub votes: i32,
}

/// A poll: its choices in display order, who made it, and whether it still takes votes.
#[derive(Debug, PartialEq, Eq)]
pub struct Poll {
    pub id: String,
    pub title: String,
    pub creator_id: u128,
    pub options: Vec<PollOption>,
    pub created_at: Timestamp,
    pub is_closed: bool,
}

/// What a client sends to open a poll.
#[derive(Debug)]
pub struct CreatePollRequest {
    pub title: String,
    pub options: Vec<String>,
}

/// What a client sends to cast a vote.
#[derive(Debug)]
pub struct VoteRequest {
    pub option_id: String,
}

/// A change of one poll, as it goes out to the subscribers: the poll's identifier and
/// the poll as it stands after the change.
#[derive(Debug, PartialEq, Eq)]
pub struct PollEvent {
    pub poll_id: String,
    pub poll: Poll,
}

/// Mathematical value of a [`PollOption`].
pub struct PollOptionView {
    pub id: Seq<char>,
    pub text: Seq<char>,
    pub votes: int,
}

/// Mathematical value of a [`Poll`].
pub struct PollView {
    pub id: Seq<char>,
    pub title: Seq<char>,
    pub creator_id: u128,
    pub options: Seq<PollOptionView>,
    pub created_at: Timestamp,
    pub is_closed: bool,
}

/// Mathematical value of a [`PollEvent`].
pub struct PollEventView {
    pub poll_id: Seq<char>,
    pub poll: PollView,
}

/// The most votes one option can hold.
pub open spec fn vote_limit() -> int {
    i32::MAX as int
}

/// The values of a list of options, in order.
pub open spec fn option_views(options: Seq<PollOption>) -> Seq<PollOptionView> {
    options.map_values(|o: PollOption| o@)
}

/// The texts of a list of strings, in order.
pub open spec fn text_views(texts: Seq<String>) -> Seq<Seq<char>> {
    texts.map_values(|t: String| t@)
}

/// No two options carry the same identifier.
pub open spec fn distinct_option_ids(options: Seq<PollOptionView>) -> bool {
    forall|i: int, j: int|
        0 <= i < j < options.len() ==> (#[trigger] options[i]).id != (#[trigger] options[j]).id
}

/// Every count lies between zero and the limit.
pub open spec fn counts_in_range(options: Seq<PollOptionView>) -> bool {
    forall|i: int| 0 <= i < options.len() ==> 0 <= (#[trigger] options[i]).votes <= vote_limit()
}

/// Where the option with identifier `option_id` stands, if there is one.
pub open spec fn option_position(options: Seq<PollOptionView>, option_id: Seq<char>) -> Option<
    int,
> {
    if exists|j: int| 0 <= j < options.len() && (#[trigger] options[j]).id == option_id {
        Some(choose|j: int| 0 <= j < options.len() && (#[trigger] options[j]).id == option_id)
    } else {
        None
    }
}

/// The options with every count at zero.
pub open spec fn zeroed(options: Seq<PollOptionView>) -> Seq<PollOptionView> {
    Seq::new(options.len(), |j: int| PollOptionView { votes: 0, ..options[j] })
}

/// Options made from identifiers and texts, pair by pair, with no votes yet.
pub open spec fn fresh_options(ids: Seq<Seq<char>>, texts: Seq<Seq<char>>) -> Seq<PollOptionView> {
    Seq::new(texts.len(), |j: int| PollOptionView { id: ids[j], text: texts[j], votes: 0 })
}

impl PollView {
    /// A poll is well formed when it has at least one option, no two options share an
    /// identifier, and every count is in range.
    pub open spec fn wf(self) -> bool {
        &&& self.options.len() > 0
        &&& distinct_option_ids(self.options)
        &&& counts_in_range(self.options)
    }

    /// The poll with one more vote on the option at position `j`.
    pub open spec fn with_vote(self, j: int) -> PollView {
        PollView {
            options: self.options.update(
                j,
                PollOptionView { votes: self.options[j].votes + 1, ..self.options[j] },
            ),
            ..self
        }
    }

    /// The poll, closed.
    pub open spec fn closed(self) -> PollView {
        PollView { is_closed: true, ..self }
    }

    /// The poll with every count at zero.
    pub open spec fn reset(self) -> PollView {
        PollView { options: zeroed(self.options), ..self }
    }
}

/// What is published when the poll `id` is deleted: an empty, closed poll of that
/// identifier, stamped with the time of deletion.
pub open spec fn tombstone(id: Seq<char>, at: Timestamp) -> PollView {
    PollView {
        id,
        title: Seq::empty(),
        creator_id: 0,
        options: Seq::empty(),
        created_at: at,
        is_closed: true,
    }
}

impl View for PollOption {
    type V = PollOptionView;

    open spec fn view(&self) -> PollOptionView {
        PollOptionView { id: self.id@, text: self.text@, votes: self.votes as int }
    }
}

impl View for Poll {
    type V = PollView;

    open spec fn view(&self) -> PollView {
        PollView {
            id: self.id@,
            title: self.title@,
            creator_id: self.creator_id,
            options: option_views(self.options@),
            created_at: self.created_at,
            is_closed: self.is_closed,
        }
    }
}

impl View for PollEvent {
    type V = PollEventView;

    open spec fn view(&self) -> PollEventView {
        PollEventView { poll_id: self.poll_id@, poll: self.poll@ }
    }
}

impl Clone for PollOption {
    fn clone(&self) -> (copy: PollOption)
        ensures
            copy == *self,
    {
        PollOption { id: self.id.clone(), text: self.text.clone(), votes: self.votes }
    }
}

impl Clone for Poll {
    fn clone(&self) -> (copy: Poll)
        ensures
            copy@ == self@,
    {
        let mut options: Vec<PollOption> = Vec::new();
        let mut j: usize = 0;
        while j < self.options.len()
            invariant
                j <= self.options.len(),
                options.len() == j,
                forall|k: int| 0 <= k < j ==> options[k] == self.options[k],
            decreases self.options.len() - j,
        {
            options.push(self.options[j].clone());
            j += 1;
        }
        assert(option_views(options@) =~= option_views(self.options@));
        Poll {
            id: self.id.clone(),
            title: self.title.clone(),
            creator_id: self.creator_id,
            options,
            created_at: self.created_at,
            is_closed: self.is_closed,
        }
    }
}

impl Clone for PollEvent {
    fn clone(&self) -> (copy: PollEvent)
        ensures
            copy@ == self@,
    {
        PollEvent { poll_id: self.poll_id.clone(), poll: self.poll.clone() }
    }
}

impl Clone for CreatePollRequest {
    fn clone(&self) -> (copy: CreatePollRequest)
        ensures
            copy.title@ == self.title@,
            text_views(copy.options@) == text_views(self.options@),
    {
        let mut options: Vec<String> = Vec::new();
        let mut j: usize = 0;
        while j < self.options.len()
            invariant
                j <= self.options.len(),
                options.len() == j,
                forall|k: int| 0 <= k < j ==> options[k] == self.options[k],
            decreases self.options.len() - j,
        {
            options.push(self.options[j].clone());
            j += 1;
        }
        CreatePollRequest { title: self.title.clone(), options }
    }
}

impl Clone for VoteRequest {
    fn clone(&self) -> (copy: VoteRequest)
        ensures
            copy.option_id@ == self.option_id@,
    {
        VoteRequest { option_id: self.option_id.clone() }
    }
}

impl PollOption {
    /// A new option with no votes.
    pub fn new(id: String, text: String) -> (option: PollOption)
        ensures
            option@ == (PollOptionView { id: id@, text: text@, votes: 0 }),
    {
        PollOption { id, text, votes: 0 }
    }
}

} // verus!
