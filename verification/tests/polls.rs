use polling::error::WebauthnError;
use polling::handlers::poll::{
    close_poll, create_poll, delete_poll, get_poll, list_polls, reset_poll_votes, snapshot,
    tombstone_event, vote_poll,
};
use polling::ids::fresh_id;
use polling::models::poll::{CreatePollRequest, Poll, PollOption, Timestamp, VoteRequest};
use polling::session::SessionState;
use polling::store::PollStore;

const ALICE: u128 = 0x1111_2222_3333_4444_5555_6666_7777_8888;
const BOB: u128 = 0x9999_aaaa_bbbb_cccc_dddd_eeee_ffff_0000;

fn texts(items: &[&str]) -> Vec<String> {
    items.iter().map(|s| s.to_string()).collect()
}

fn at(seconds: i64) -> Timestamp {
    Timestamp { seconds, nanoseconds: 0 }
}

fn logged_in(user_id: u128, username: &str) -> SessionState {
    let mut session = SessionState::new();
    session.user_id = Some(user_id);
    session.username = Some(username.to_string());
    session
}

/// A registry with one poll "T" of Alice's, with the options "A" and "B".
fn registry_with_t() -> (PollStore, Poll) {
    let mut store = PollStore::new();
    let poll = store
        .create_with(
            "p-1".to_string(),
            "T".to_string(),
            texts(&["A", "B"]),
            ALICE,
            texts(&["o-a", "o-b"]),
            at(1_700_000_000),
        )
        .unwrap();
    (store, poll)
}

fn counts(poll: &Poll) -> Vec<i32> {
    poll.options.iter().map(|o| o.votes).collect()
}

#[test]
fn create_with_builds_the_poll_from_its_ingredients() {
    let (store, poll) = registry_with_t();
    let expected = Poll {
        id: "p-1".to_string(),
        title: "T".to_string(),
        creator_id: ALICE,
        options: vec![
            PollOption { id: "o-a".to_string(), text: "A".to_string(), votes: 0 },
            PollOption { id: "o-b".to_string(), text: "B".to_string(), votes: 0 },
        ],
        created_at: at(1_700_000_000),
        is_closed: false,
    };
    assert_eq!(poll, expected);
    assert_eq!(store.get("p-1"), Ok(expected.clone()));
    assert_eq!(store.list(), vec![expected]);
}

#[test]
fn create_with_refuses_a_poll_without_options() {
    let mut store = PollStore::new();
    let reply =
        store.create_with("p".to_string(), "T".to_string(), vec![], ALICE, vec![], at(0));
    assert_eq!(reply, Err(WebauthnError::InvalidPoll));
    assert!(store.list().is_empty());
}

#[test]
fn create_with_refuses_an_identifier_that_is_taken() {
    let (mut store, poll) = registry_with_t();
    let reply = store.create_with(
        "p-1".to_string(),
        "Other".to_string(),
        texts(&["X"]),
        BOB,
        texts(&["o-x"]),
        at(5),
    );
    assert_eq!(reply, Err(WebauthnError::Unknown));
    assert_eq!(store.list(), vec![poll]);
}

#[test]
fn create_with_refuses_repeated_option_identifiers() {
    let mut store = PollStore::new();
    let reply = store.create_with(
        "p".to_string(),
        "T".to_string(),
        texts(&["A", "B", "C"]),
        ALICE,
        texts(&["o-1", "o-2", "o-1"]),
        at(0),
    );
    assert_eq!(reply, Err(WebauthnError::Unknown));
    assert!(store.list().is_empty());
}

#[test]
fn create_with_refuses_identifiers_that_do_not_pair_up() {
    let mut store = PollStore::new();
    let reply = store.create_with(
        "p".to_string(),
        "T".to_string(),
        texts(&["A", "B"]),
        ALICE,
        texts(&["o-1"]),
        at(0),
    );
    assert_eq!(reply, Err(WebauthnError::Unknown));
    assert!(store.list().is_empty());
}

#[test]
fn create_with_accepts_equal_texts_and_an_empty_title() {
    let mut store = PollStore::new();
    let poll = store
        .create_with(
            "p".to_string(),
            String::new(),
            texts(&["A", "A"]),
            ALICE,
            texts(&["1", "2"]),
            at(0),
        )
        .unwrap();
    assert_eq!(poll.title, "");
    assert_eq!(poll.options.len(), 2);
    assert_eq!(poll.options[0].text, poll.options[1].text);
}

#[test]
fn create_draws_identifiers_and_stamps_the_time() {
    let mut store = PollStore::new();
    let poll = store.create("Lunch".to_string(), texts(&["Soup", "Salad", "Stew"]), ALICE).unwrap();
    assert_eq!(poll.title, "Lunch");
    assert_eq!(poll.creator_id, ALICE);
    assert!(!poll.is_closed);
    let shown: Vec<&str> = poll.options.iter().map(|o| o.text.as_str()).collect();
    assert_eq!(shown, vec!["Soup", "Salad", "Stew"]);
    assert_eq!(counts(&poll), vec![0, 0, 0]);
    let mut ids: Vec<&str> = poll.options.iter().map(|o| o.id.as_str()).collect();
    ids.push(poll.id.as_str());
    for id in &ids {
        assert!(uuid::Uuid::parse_str(id).is_ok());
    }
    ids.sort();
    ids.dedup();
    assert_eq!(ids.len(), 4);
    assert!(poll.created_at.seconds > 1_600_000_000);
    assert!(poll.created_at.nanoseconds < 1_000_000_000);
    assert_eq!(store.get(&poll.id), Ok(poll));
}

#[test]
fn create_refuses_a_poll_without_options() {
    let mut store = PollStore::new();
    assert_eq!(store.create("T".to_string(), vec![], ALICE), Err(WebauthnError::InvalidPoll));
    assert!(store.list().is_empty());
}

#[test]
fn fresh_identifiers_are_hyphenated_uuids() {
    let id = fresh_id();
    assert_eq!(id.len(), 36);
    let parsed = uuid::Uuid::parse_str(&id).unwrap();
    assert_eq!(parsed.to_string(), id);
    assert_eq!(parsed.get_version_num(), 4);
    let hyphens: Vec<usize> =
        id.char_indices().filter(|(_, c)| *c == '-').map(|(i, _)| i).collect();
    assert_eq!(hyphens, vec![8, 13, 18, 23]);
    assert_ne!(fresh_id(), id);
}

#[test]
fn get_of_an_unknown_poll_is_not_found() {
    let (store, _) = registry_with_t();
    assert_eq!(store.get("p-2"), Err(WebauthnError::NotFound));
    assert_eq!(PollStore::new().get("p-1"), Err(WebauthnError::NotFound));
}

#[test]
fn list_keeps_the_order_of_creation() {
    let mut store = PollStore::new();
    for (n, id) in ["c", "a", "b"].iter().enumerate() {
        store
            .create_with(
                id.to_string(),
                format!("poll {n}"),
                texts(&["x"]),
                ALICE,
                texts(&["o"]),
                at(n as i64),
            )
            .unwrap();
    }
    let ids: Vec<String> = store.list().into_iter().map(|p| p.id).collect();
    assert_eq!(ids, texts(&["c", "a", "b"]));
    store.delete("a", ALICE).unwrap();
    let ids: Vec<String> = store.list().into_iter().map(|p| p.id).collect();
    assert_eq!(ids, texts(&["c", "b"]));
    assert_eq!(store.list(), store.list());
}

#[test]
fn vote_adds_one_to_that_option_alone() {
    let (mut store, _) = registry_with_t();
    let voted = store.vote("p-1", "o-b").unwrap();
    assert_eq!(counts(&voted), vec![0, 1]);
    assert_eq!(store.get("p-1"), Ok(voted));
}

#[test]
fn two_votes_for_a_are_both_counted() {
    let mut store = PollStore::new();
    let poll = store.create("T".to_string(), texts(&["A", "B"]), ALICE).unwrap();
    let a = poll.options[0].id.clone();
    assert!(store.vote(&poll.id, &a).is_ok());
    assert!(store.vote(&poll.id, &a).is_ok());
    let shown = store.get(&poll.id).unwrap();
    assert_eq!(shown.options[0].text, "A");
    assert_eq!(shown.options[0].votes, 2);
    assert_eq!(shown.options[1].text, "B");
    assert_eq!(shown.options[1].votes, 0);
}

#[test]
fn the_count_is_the_number_of_votes_that_were_answered_with_the_poll() {
    let (mut store, _) = registry_with_t();
    let mut answered = 0;
    for round in 0..60 {
        if round == 20 {
            store.close("p-1", ALICE).unwrap();
        }
        if store.vote("p-1", "o-a").is_ok() {
            answered += 1;
        }
    }
    assert_eq!(answered, 20);
    assert_eq!(counts(&store.get("p-1").unwrap()), vec![20, 0]);
}

#[test]
fn vote_on_an_unknown_poll_is_not_found() {
    let (mut store, poll) = registry_with_t();
    assert_eq!(store.vote("p-9", "o-a"), Err(WebauthnError::NotFound));
    assert_eq!(store.list(), vec![poll]);
}

#[test]
fn vote_for_an_unknown_option_is_refused() {
    let (mut store, poll) = registry_with_t();
    assert_eq!(store.vote("p-1", "o-z"), Err(WebauthnError::OptionNotFound));
    assert_eq!(store.vote("p-1", "A"), Err(WebauthnError::OptionNotFound));
    assert_eq!(store.list(), vec![poll]);
}

#[test]
fn vote_on_a_closed_poll_is_refused_and_counts_nothing() {
    let (mut store, _) = registry_with_t();
    store.vote("p-1", "o-a").unwrap();
    let closed = store.close("p-1", ALICE).unwrap();
    assert_eq!(store.vote("p-1", "o-a"), Err(WebauthnError::Closed));
    assert_eq!(store.vote("p-1", "o-z"), Err(WebauthnError::Closed));
    assert_eq!(store.get("p-1"), Ok(closed));
    assert_eq!(counts(&store.get("p-1").unwrap()), vec![1, 0]);
}

#[test]
fn close_by_the_creator_closes_and_may_be_repeated() {
    let (mut store, poll) = registry_with_t();
    let closed = store.close("p-1", ALICE).unwrap();
    assert!(closed.is_closed);
    assert_eq!(closed, Poll { is_closed: true, ..poll });
    assert_eq!(store.close("p-1", ALICE), Ok(closed.clone()));
    assert_eq!(store.get("p-1"), Ok(closed));
}

#[test]
fn only_the_creator_may_close_reset_or_delete() {
    let (mut store, _) = registry_with_t();
    let voted = store.vote("p-1", "o-a").unwrap();
    assert_eq!(store.close("p-1", BOB), Err(WebauthnError::Unauthorized));
    assert_eq!(store.reset("p-1", BOB), Err(WebauthnError::Unauthorized));
    assert_eq!(store.delete("p-1", BOB), Err(WebauthnError::Unauthorized));
    assert_eq!(store.list(), vec![voted]);
}

#[test]
fn close_reset_and_delete_of_an_unknown_poll_are_not_found() {
    let (mut store, poll) = registry_with_t();
    assert_eq!(store.close("p-2", ALICE), Err(WebauthnError::NotFound));
    assert_eq!(store.reset("p-2", ALICE), Err(WebauthnError::NotFound));
    assert_eq!(store.delete("p-2", ALICE), Err(WebauthnError::NotFound));
    assert_eq!(store.list(), vec![poll]);
}

#[test]
fn reset_shows_zero_whatever_was_voted() {
    let (mut store, poll) = registry_with_t();
    for _ in 0..7 {
        store.vote("p-1", "o-a").unwrap();
    }
    for _ in 0..3 {
        store.vote("p-1", "o-b").unwrap();
    }
    assert_eq!(counts(&store.get("p-1").unwrap()), vec![7, 3]);
    let reset = store.reset("p-1", ALICE).unwrap();
    assert_eq!(reset, poll);
    assert_eq!(counts(&store.get("p-1").unwrap()), vec![0, 0]);
    assert_eq!(counts(&store.list()[0]), vec![0, 0]);
}

#[test]
fn delete_hands_out_the_poll_and_forgets_it() {
    let (mut store, _) = registry_with_t();
    let voted = store.vote("p-1", "o-a").unwrap();
    assert_eq!(store.delete("p-1", ALICE), Ok(voted));
    assert_eq!(store.get("p-1"), Err(WebauthnError::NotFound));
    assert!(store.list().is_empty());
    assert_eq!(store.vote("p-1", "o-a"), Err(WebauthnError::NotFound));
    assert_eq!(store.delete("p-1", ALICE), Err(WebauthnError::NotFound));
}

#[test]
fn a_closed_poll_stays_closed_through_a_reset() {
    let (mut store, _) = registry_with_t();
    store.vote("p-1", "o-a").unwrap();
    store.vote("p-1", "o-b").unwrap();
    assert!(store.close("p-1", ALICE).unwrap().is_closed);
    assert_eq!(store.vote("p-1", "o-a"), Err(WebauthnError::Closed));
    let reset = store.reset("p-1", ALICE).unwrap();
    assert_eq!(counts(&reset), vec![0, 0]);
    assert!(reset.is_closed);
    assert_eq!(store.vote("p-1", "o-a"), Err(WebauthnError::Closed));
    assert_eq!(counts(&store.get("p-1").unwrap()), vec![0, 0]);
}

#[test]
fn votes_on_one_poll_leave_the_others_alone() {
    let (mut store, _) = registry_with_t();
    let other = store
        .create_with("p-2".to_string(), "U".to_string(), texts(&["A"]), BOB, texts(&["o-a"]), at(9))
        .unwrap();
    store.vote("p-1", "o-a").unwrap();
    store.close("p-1", ALICE).unwrap();
    assert_eq!(store.get("p-2"), Ok(other));
}

#[test]
fn test_unauthorized_access() {
    let mut store = PollStore::new();
    let session = SessionState::new();
    let req = CreatePollRequest {
        title: "Unauthorized Poll".to_string(),
        options: texts(&["Option 1", "Option 2"]),
    };
    let reply = create_poll(&mut store, &session, req);
    assert_eq!(reply, Err(WebauthnError::NotAuthenticated));
    assert_eq!(WebauthnError::NotAuthenticated.status(), 401);
    assert!(list_polls(&store).is_empty());
}

#[test]
fn create_poll_announces_the_new_poll() {
    let mut store = PollStore::new();
    let session = logged_in(ALICE, "alice");
    let req = CreatePollRequest {
        title: "Test Poll".to_string(),
        options: texts(&["Option 1", "Option 2"]),
    };
    let event = create_poll(&mut store, &session, req.clone()).unwrap();
    assert_eq!(event.poll_id, event.poll.id);
    assert_eq!(event.poll.title, "Test Poll");
    assert_eq!(event.poll.options.len(), 2);
    assert_eq!(event.poll.creator_id, ALICE);
    assert_eq!(get_poll(&store, &event.poll_id), Ok(event.poll.clone()));
    assert_eq!(list_polls(&store), vec![event.poll]);
    assert_eq!(req.title, "Test Poll");
}

#[test]
fn create_poll_refuses_a_request_without_options() {
    let mut store = PollStore::new();
    let session = logged_in(ALICE, "alice");
    let req = CreatePollRequest { title: "Empty".to_string(), options: vec![] };
    assert_eq!(create_poll(&mut store, &session, req), Err(WebauthnError::InvalidPoll));
    assert!(list_polls(&store).is_empty());
}

#[test]
fn vote_poll_announces_the_poll_as_it_stands_after_the_vote() {
    let (mut store, _) = registry_with_t();
    let req = VoteRequest { option_id: "o-a".to_string() };
    let event = vote_poll(&mut store, "p-1", &req).unwrap();
    assert_eq!(event.poll_id, "p-1");
    assert_eq!(counts(&event.poll), vec![1, 0]);
    assert_eq!(get_poll(&store, "p-1"), Ok(event.poll));
    assert_eq!(req.clone().option_id, "o-a");
}

#[test]
fn a_vote_that_fails_announces_nothing() {
    let (mut store, poll) = registry_with_t();
    let missing = VoteRequest { option_id: "o-z".to_string() };
    assert_eq!(vote_poll(&mut store, "p-1", &missing), Err(WebauthnError::OptionNotFound));
    assert_eq!(vote_poll(&mut store, "p-7", &missing), Err(WebauthnError::NotFound));
    assert_eq!(list_polls(&store), vec![poll]);
}

#[test]
fn close_and_reset_announce_the_poll_as_it_stands_afterwards() {
    let (mut store, _) = registry_with_t();
    let alice = logged_in(ALICE, "alice");
    store.vote("p-1", "o-a").unwrap();
    let closed = close_poll(&mut store, &alice, "p-1").unwrap();
    assert_eq!(closed.poll_id, "p-1");
    assert!(closed.poll.is_closed);
    assert_eq!(counts(&closed.poll), vec![1, 0]);
    assert_eq!(get_poll(&store, "p-1"), Ok(closed.poll));
    let reset = reset_poll_votes(&mut store, &alice, "p-1").unwrap();
    assert_eq!(reset.poll_id, "p-1");
    assert_eq!(counts(&reset.poll), vec![0, 0]);
    assert!(reset.poll.is_closed);
    assert_eq!(get_poll(&store, "p-1"), Ok(reset.poll));
}

#[test]
fn creator_only_operations_need_an_identity() {
    let (mut store, poll) = registry_with_t();
    let nobody = SessionState::new();
    assert_eq!(close_poll(&mut store, &nobody, "p-1"), Err(WebauthnError::NotAuthenticated));
    assert_eq!(reset_poll_votes(&mut store, &nobody, "p-1"), Err(WebauthnError::NotAuthenticated));
    assert_eq!(delete_poll(&mut store, &nobody, "p-1"), Err(WebauthnError::NotAuthenticated));
    assert_eq!(close_poll(&mut store, &nobody, "p-9"), Err(WebauthnError::NotAuthenticated));
    assert_eq!(list_polls(&store), vec![poll]);
}

#[test]
fn creator_only_operations_refuse_another_user() {
    let (mut store, poll) = registry_with_t();
    let bob = logged_in(BOB, "bob");
    assert_eq!(close_poll(&mut store, &bob, "p-1"), Err(WebauthnError::Unauthorized));
    assert_eq!(reset_poll_votes(&mut store, &bob, "p-1"), Err(WebauthnError::Unauthorized));
    assert_eq!(delete_poll(&mut store, &bob, "p-1"), Err(WebauthnError::Unauthorized));
    assert_eq!(delete_poll(&mut store, &bob, "p-9"), Err(WebauthnError::NotFound));
    assert_eq!(list_polls(&store), vec![poll]);
}

#[test]
fn delete_poll_announces_a_tombstone() {
    let (mut store, _) = registry_with_t();
    let alice = logged_in(ALICE, "alice");
    let event = delete_poll(&mut store, &alice, "p-1").unwrap();
    assert_eq!(event.poll_id, "p-1");
    assert_eq!(event, tombstone_event("p-1", event.poll.created_at));
    assert!(event.poll.created_at.seconds > 1_600_000_000);
    assert_eq!(get_poll(&store, "p-1"), Err(WebauthnError::NotFound));
}

#[test]
fn a_tombstone_is_an_empty_closed_poll() {
    let event = tombstone_event("gone", at(42));
    let expected = Poll {
        id: "gone".to_string(),
        title: String::new(),
        creator_id: 0,
        options: vec![],
        created_at: at(42),
        is_closed: true,
    };
    assert_eq!(event.poll_id, "gone");
    assert_eq!(event.poll, expected);
}

#[test]
fn a_snapshot_carries_the_identifier_of_its_poll() {
    let (_, poll) = registry_with_t();
    let event = snapshot(poll.clone());
    assert_eq!(event.poll_id, "p-1");
    assert_eq!(event.poll, poll);
    assert_eq!(event.clone(), event);
}

#[test]
fn a_new_option_has_no_votes() {
    let option = PollOption::new("o".to_string(), "Tea".to_string());
    assert_eq!(option, PollOption { id: "o".to_string(), text: "Tea".to_string(), votes: 0 });
    assert_eq!(option.clone(), option);
}
