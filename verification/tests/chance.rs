use dispenser::chance::draw;
use dispenser::protocol::{Query, Reply};

fn roll(low: u8, high: u8) -> u8 {
    match draw(Query::Roll { low, high }) {
        Some(Reply::Count(number)) => number,
        _ => panic!("no number"),
    }
}

fn fresh_uuid() -> u128 {
    match draw(Query::FreshUuid) {
        Some(Reply::Uuid(uuid)) => uuid,
        _ => panic!("no identifier"),
    }
}

#[test]
fn rolls_stay_in_their_range() {
    assert_eq!(roll(7, 7), 7);
    assert_eq!(roll(255, 255), 255);
    let mut seen = [false; 4];
    for _ in 0..300 {
        seen[usize::from(roll(1, 3))] = true;
    }
    assert_eq!(seen, [false, true, true, true]);
}

#[test]
fn there_is_no_roll_from_an_empty_range() {
    assert!(draw(Query::Roll { low: 3, high: 2 }).is_none());
}

#[test]
fn identifiers_are_fresh_and_of_version_four() {
    let mut seen: Vec<u128> = Vec::new();
    for _ in 0..50 {
        let uuid = fresh_uuid();
        assert_eq!((uuid >> 76) & 0xf, 4);
        assert_eq!((uuid >> 62) & 0x3, 2);
        assert!(!seen.contains(&uuid));
        seen.push(uuid);
    }
}

#[test]
fn chance_leaves_other_questions_alone() {
    assert!(draw(Query::Slot { index: 0 }).is_none());
    assert!(draw(Query::Evaporates { item: 1 }).is_none());
}
