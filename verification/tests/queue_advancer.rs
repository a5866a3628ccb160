use music_player::queue::next;
use music_player::track::TrackRef;

fn track(id: &str, name: &str, duration: u64) -> TrackRef {
    TrackRef { id: id.to_string(), display_name: name.to_string(), duration }
}

fn sample_queue() -> Vec<TrackRef> {
    vec![track("a", "A", 10), track("b", "B", 5), track("c", "C", 7)]
}

#[test]
fn next_returns_following_element() {
    let q = sample_queue();
    let r = next(&"a".to_string(), &q).unwrap();
    assert_eq!(r.id, "b");
    assert_eq!(r.display_name, "B");
    assert_eq!(r.duration, 5);

    let r = next(&"b".to_string(), &q).unwrap();
    assert_eq!(r.id, "c");
    assert_eq!(r.duration, 7);
}

#[test]
fn next_none_when_last() {
    let q = sample_queue();
    assert!(next(&"c".to_string(), &q).is_none());
}

#[test]
fn next_none_when_absent() {
    let q = sample_queue();
    assert!(next(&"x".to_string(), &q).is_none());
    let empty: Vec<TrackRef> = Vec::new();
    assert!(next(&"a".to_string(), &empty).is_none());
}

#[test]
fn next_uses_first_occurrence() {
    // A duplicated id resolves to the first matching position.
    let q = vec![track("a", "A", 10), track("b", "B", 5), track("a", "A2", 3), track("c", "C", 7)];
    let r = next(&"a".to_string(), &q).unwrap();
    assert_eq!(r.id, "b");
}
