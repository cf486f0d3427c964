use std::collections::BTreeMap;
use std::collections::BTreeSet;
use chat_core::registry::holds;
use chat_core::registry::without;
use chat_core::registry::RoomEvent;
use chat_core::registry::RoomRegistry;

fn sorted(mut v: Vec<u64>) -> Vec<u64> {
    v.sort();
    v
}

#[test]
fn new_registry_has_no_rooms() {
    let r = RoomRegistry::new();
    assert_eq!(r.room_count(), 0);
    assert!(!r.has_room(1));
    assert!(r.snapshot(1).is_empty());
}

#[test]
fn join_creates_the_entry() {
    let mut r = RoomRegistry::new();
    r.join(10, 1);
    assert!(r.has_room(10));
    assert_eq!(r.room_count(), 1);
    assert_eq!(r.snapshot(10), vec![1]);
}

#[test]
fn join_twice_attaches_once() {
    let mut r = RoomRegistry::new();
    r.join(10, 1);
    r.join(10, 1);
    assert_eq!(r.snapshot(10), vec![1]);
}

#[test]
fn leave_of_last_session_deletes_the_entry() {
    let mut r = RoomRegistry::new();
    r.join(10, 1);
    r.join(10, 2);
    r.leave(10, 1);
    assert!(r.has_room(10));
    assert_eq!(r.snapshot(10), vec![2]);
    r.leave(10, 2);
    assert!(!r.has_room(10));
    assert_eq!(r.room_count(), 0);
    assert!(r.snapshot(10).is_empty());
}

#[test]
fn leave_of_a_stranger_changes_nothing() {
    let mut r = RoomRegistry::new();
    r.join(10, 1);
    r.leave(10, 9);
    r.leave(11, 1);
    assert_eq!(r.snapshot(10), vec![1]);
    assert!(!r.has_room(11));
    assert_eq!(r.room_count(), 1);
}

#[test]
fn rooms_are_kept_apart() {
    let mut r = RoomRegistry::new();
    r.join(10, 1);
    r.join(11, 2);
    r.join(11, 1);
    assert_eq!(r.snapshot(10), vec![1]);
    assert_eq!(sorted(r.snapshot(11)), vec![1, 2]);
    r.leave(11, 1);
    assert_eq!(r.snapshot(10), vec![1]);
    assert_eq!(r.snapshot(11), vec![2]);
}

#[test]
fn peers_are_all_but_the_origin() {
    let mut r = RoomRegistry::new();
    r.join(10, 1);
    r.join(10, 2);
    r.join(10, 3);
    r.join(11, 4);
    assert_eq!(sorted(r.peers(10, 2)), vec![1, 3]);
    assert_eq!(sorted(r.peers(10, 9)), vec![1, 2, 3]);
    assert!(r.peers(11, 4).is_empty());
    assert!(r.peers(12, 1).is_empty());
}

#[test]
fn apply_replays_events_in_order() {
    let mut r = RoomRegistry::new();
    let events = vec![
        RoomEvent::Join { room: 1, session: 1 },
        RoomEvent::Join { room: 1, session: 2 },
        RoomEvent::Leave { room: 1, session: 1 },
        RoomEvent::Join { room: 2, session: 1 },
        RoomEvent::Leave { room: 2, session: 1 },
        RoomEvent::Join { room: 1, session: 3 },
        RoomEvent::Leave { room: 1, session: 3 },
        RoomEvent::Join { room: 1, session: 3 },
    ];
    r.apply(&events);
    assert_eq!(sorted(r.snapshot(1)), vec![2, 3]);
    assert!(!r.has_room(2));
    assert_eq!(r.room_count(), 1);
}

#[test]
fn apply_agrees_with_a_replay_on_sets() {
    let mut events = Vec::new();
    let mut x: u64 = 12345;
    for _ in 0..400 {
        x = x.wrapping_mul(6364136223846793005).wrapping_add(1442695040888963407);
        let room = ((x >> 33) % 3) as u128;
        let session = (x >> 40) % 4;
        if (x >> 50) % 2 == 0 {
            events.push(RoomEvent::Join { room, session });
        } else {
            events.push(RoomEvent::Leave { room, session });
        }
    }
    let mut model: BTreeMap<u128, BTreeSet<u64>> = BTreeMap::new();
    let mut r = RoomRegistry::new();
    for event in &events {
        match *event {
            RoomEvent::Join { room, session } => {
                model.entry(room).or_default().insert(session);
                r.join(room, session);
            }
            RoomEvent::Leave { room, session } => {
                if let Some(set) = model.get_mut(&room) {
                    set.remove(&session);
                    if set.is_empty() {
                        model.remove(&room);
                    }
                }
                r.leave(room, session);
            }
        }
        assert_eq!(r.room_count(), model.len());
        for room in 0..3u128 {
            let expected: Vec<u64> =
                model.get(&room).map(|s| s.iter().copied().collect()).unwrap_or_default();
            assert_eq!(sorted(r.snapshot(room)), expected);
            assert_eq!(r.has_room(room), !expected.is_empty());
        }
    }
    let mut replayed = RoomRegistry::new();
    replayed.apply(&events);
    for room in 0..3u128 {
        assert_eq!(sorted(replayed.snapshot(room)), sorted(r.snapshot(room)));
    }
}

#[test]
fn holds_finds_an_item() {
    assert!(holds(&vec![3, 1, 2], 1));
    assert!(!holds(&vec![3, 1, 2], 4));
    assert!(!holds(&vec![], 4));
}

#[test]
fn without_drops_one_item_and_keeps_the_order() {
    assert_eq!(without(&vec![3, 1, 2], 1), vec![3, 2]);
    assert_eq!(without(&vec![3, 1, 2], 7), vec![3, 1, 2]);
    assert_eq!(without(&vec![5], 5), Vec::<u64>::new());
}

#[test]
fn without_drops_every_copy() {
    assert_eq!(without(&vec![1, 2, 1, 3, 1], 1), vec![2, 3]);
}

#[test]
fn interleaving_of_two_sessions_does_not_matter() {
    let first = vec![
        RoomEvent::Join { room: 1, session: 1 },
        RoomEvent::Leave { room: 1, session: 1 },
        RoomEvent::Join { room: 1, session: 1 },
    ];
    let second = vec![
        RoomEvent::Join { room: 1, session: 2 },
        RoomEvent::Join { room: 2, session: 2 },
        RoomEvent::Leave { room: 1, session: 2 },
    ];
    let mut expected: Option<Vec<Vec<u64>>> = None;
    for pattern in 0u32..64 {
        if pattern.count_ones() != 3 {
            continue;
        }
        let (mut i, mut j) = (0, 0);
        let mut merged = Vec::new();
        for bit in 0..6 {
            if pattern & (1 << bit) != 0 {
                merged.push(first[i]);
                i += 1;
            } else {
                merged.push(second[j]);
                j += 1;
            }
        }
        let mut r = RoomRegistry::new();
        r.apply(&merged);
        let seen = vec![sorted(r.snapshot(1)), sorted(r.snapshot(2))];
        assert_eq!(seen, vec![vec![1], vec![2]]);
        match &expected {
            None => expected = Some(seen),
            Some(e) => assert_eq!(&seen, e),
        }
    }
}
