use moon::correlation::PendingCorIds;
use moon::ids::CorId;

#[test]
fn pending_set_tracks_in_flight_ids() {
    let mut pending = PendingCorIds::new();
    assert!(pending.is_empty());

    pending.insert(CorId::new(1));
    pending.insert(CorId::new(2));
    assert!(!pending.is_empty());
    assert!(pending.contains(CorId::new(1)));
    assert!(pending.contains(CorId::new(2)));
    assert!(!pending.contains(CorId::new(3)));

    pending.remove(CorId::new(1));
    assert!(!pending.contains(CorId::new(1)));
    assert!(pending.contains(CorId::new(2)));

    pending.remove(CorId::new(2));
    assert!(pending.is_empty());
}

#[test]
fn double_insert_then_single_remove_clears() {
    let mut pending = PendingCorIds::new();
    pending.insert(CorId::new(5));
    pending.insert(CorId::new(5));
    assert!(pending.contains(CorId::new(5)));
    pending.remove(CorId::new(5));
    assert!(!pending.contains(CorId::new(5)));
    assert!(pending.is_empty());
}

#[test]
fn removing_an_absent_id_changes_nothing() {
    let mut pending = PendingCorIds::new();
    pending.insert(CorId::new(9));
    pending.remove(CorId::new(1));
    assert!(pending.contains(CorId::new(9)));
    assert!(!pending.is_empty());
}
