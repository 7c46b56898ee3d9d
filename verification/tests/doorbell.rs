use phantom_server::doorbell::{
    decide, release_owner, Doorbell, DoorbellDecision, Ring, GHOST_MAX,
};
use std::collections::VecDeque;

fn id(byte: u8) -> [u8; 16] {
    [byte; 16]
}

#[test]
fn first_client_accepted_and_tracked() {
    let mut current = None;
    let mut ghosts = VecDeque::new();
    assert_eq!(
        decide(Some(id(1)), &mut current, &mut ghosts),
        DoorbellDecision::Accept
    );
    assert_eq!(current, Some(id(1)));
    assert!(ghosts.is_empty(), "no one to ghost on first accept");
}

#[test]
fn same_client_reconnect_is_accepted_without_ghost_shuffle() {
    let mut current = Some(id(1));
    let mut ghosts = VecDeque::new();
    assert_eq!(
        decide(Some(id(1)), &mut current, &mut ghosts),
        DoorbellDecision::Accept
    );
    assert_eq!(current, Some(id(1)));
    assert!(
        ghosts.is_empty(),
        "same id reconnect must not push self to ghost set"
    );
}

#[test]
fn new_client_takes_over_and_demotes_old() {
    let mut current = Some(id(1));
    let mut ghosts = VecDeque::new();
    assert_eq!(
        decide(Some(id(2)), &mut current, &mut ghosts),
        DoorbellDecision::Accept
    );
    assert_eq!(current, Some(id(2)));
    assert_eq!(ghosts.len(), 1);
    assert_eq!(ghosts[0], id(1));
}

#[test]
fn ghost_client_is_rejected() {
    let mut current = Some(id(2));
    let mut ghosts = VecDeque::from(vec![id(1)]);
    assert_eq!(
        decide(Some(id(1)), &mut current, &mut ghosts),
        DoorbellDecision::Reject
    );
    // State unchanged: id 2 still owns the session, id 1 is still a ghost.
    assert_eq!(current, Some(id(2)));
    assert_eq!(ghosts.len(), 1);
}

#[test]
fn legacy_client_with_no_id_is_accepted_without_mutating_tracking() {
    let mut current = Some(id(1));
    let mut ghosts = VecDeque::new();
    assert_eq!(
        decide(None, &mut current, &mut ghosts),
        DoorbellDecision::Accept
    );
    assert_eq!(current, Some(id(1)));
    assert!(ghosts.is_empty());
}

#[test]
fn ghost_set_caps_at_max_evicting_oldest() {
    let mut current;
    let mut ghosts = VecDeque::new();
    // Push GHOST_MAX + 5 unique ids through the takeover path.
    for i in 0..(GHOST_MAX + 5) as u8 {
        // Establish current
        current = Some(id(i));
        // Then immediately get displaced by next id
        decide(Some(id(i + 100)), &mut current, &mut ghosts);
    }
    assert_eq!(ghosts.len(), GHOST_MAX);
    // Oldest entries (lowest i) should have been evicted.
    assert!(!ghosts.contains(&id(0)));
    assert!(ghosts.contains(&id((GHOST_MAX + 4) as u8)));
}

#[test]
fn ghost_then_fresh_id_accepted_takeover_path() {
    // Tab A connects, tab B takes over (A becomes a ghost), tab A reloads with
    // a fresh id and takes over from B.
    let mut current = None;
    let mut ghosts = VecDeque::new();
    decide(Some(id(1)), &mut current, &mut ghosts); // A connects
    decide(Some(id(2)), &mut current, &mut ghosts); // B takes over
    assert_eq!(
        decide(Some(id(1)), &mut current, &mut ghosts),
        DoorbellDecision::Reject
    );
    assert_eq!(
        decide(Some(id(3)), &mut current, &mut ghosts),
        DoorbellDecision::Accept
    );
    assert_eq!(current, Some(id(3)));
    assert!(ghosts.contains(&id(2)));
}

#[test]
fn ids_that_differ_in_one_byte_are_two_clients() {
    let mut other = id(1);
    other[15] = 2;
    let mut current = Some(id(1));
    let mut ghosts = VecDeque::new();
    decide(Some(other), &mut current, &mut ghosts);
    assert_eq!(current, Some(other));
    assert_eq!(ghosts, VecDeque::from(vec![id(1)]));
}

#[test]
fn owner_is_released_only_by_its_own_session() {
    let mut current = Some(id(1));
    release_owner(&mut current, Some(id(2)), false);
    assert_eq!(current, Some(id(1)));
    release_owner(&mut current, Some(id(1)), true);
    assert_eq!(current, Some(id(1)));
    release_owner(&mut current, Some(id(1)), false);
    assert_eq!(current, None);
}

#[test]
fn a_refused_client_leaves_the_queue_alone() {
    let mut bell: Doorbell<&str> = Doorbell::new();
    assert_eq!(bell.take(), None);
    assert_eq!(bell.ring(Some(id(1)), "one"), Ring::Queue { replaced: None });
    assert!(bell.is_cancelled());
    assert_eq!(bell.take(), Some("one"));
    assert!(!bell.is_cancelled());
    assert_eq!(bell.ring(Some(id(2)), "two"), Ring::Queue { replaced: None });
    assert_eq!(bell.take(), Some("two"));
    let refused = Ring::Refuse { connection: "again", reason: "ghost client rejected".to_string() };
    assert_eq!(bell.ring(Some(id(1)), "again"), refused);
    assert!(!bell.is_cancelled());
    assert_eq!(bell.take(), None);
    assert_eq!(bell.ring(None, "three"), Ring::Queue { replaced: None });
    assert_eq!(bell.ring(None, "four"), Ring::Queue { replaced: Some("three") });
    assert_eq!(bell.ring(Some(id(1)), "again"), Ring::Refuse {
        connection: "again",
        reason: "ghost client rejected".to_string()
    });
    assert!(bell.is_cancelled());
    assert_eq!(bell.take(), Some("four"));
    bell.cancel();
    assert!(bell.is_cancelled());
    assert_eq!(bell.take(), None);
    assert!(bell.is_cancelled());
    bell.release(Some(id(2)), false);
    assert_eq!(bell.ring(Some(id(3)), "five"), Ring::Queue { replaced: None });
    assert_eq!(bell.ring(Some(id(2)), "six"), Ring::Queue { replaced: Some("five") });
}
