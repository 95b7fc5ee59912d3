use woodns::address::Ipv4;
use woodns::store::NameStore;

#[test]
fn new_store_is_empty() {
    let store = NameStore::new();
    assert_eq!(store.len(), 0);
    assert_eq!(store.lookup("app.docker."), None);
}

#[test]
fn first_write_wins() {
    let mut store = NameStore::new();
    assert!(store.upsert_if_absent("app.docker.", Ipv4::new(10, 0, 0, 5)));
    assert!(!store.upsert_if_absent("app.docker.", Ipv4::new(10, 0, 0, 6)));
    assert_eq!(store.lookup("app.docker."), Some(Ipv4::new(10, 0, 0, 5)));
    assert_eq!(store.len(), 1);
}

#[test]
fn remove_then_miss() {
    let mut store = NameStore::new();
    store.upsert_if_absent("db.docker.", Ipv4::new(10, 0, 0, 9));
    assert!(store.remove("db.docker."));
    assert_eq!(store.lookup("db.docker."), None);
    assert_eq!(store.len(), 0);
}

#[test]
fn remove_of_unknown_name_changes_nothing() {
    let mut store = NameStore::new();
    store.upsert_if_absent("db.docker.", Ipv4::new(10, 0, 0, 9));
    assert!(!store.remove("web.docker."));
    assert_eq!(store.lookup("db.docker."), Some(Ipv4::new(10, 0, 0, 9)));
    assert_eq!(store.len(), 1);
}

#[test]
fn names_are_compared_exactly() {
    let mut store = NameStore::new();
    store.upsert_if_absent("db.docker.", Ipv4::new(10, 0, 0, 9));
    assert_eq!(store.lookup("DB.docker."), None);
    assert_eq!(store.lookup("db.docker"), None);
}

#[test]
fn a_removed_name_can_be_recorded_again() {
    let mut store = NameStore::new();
    store.upsert_if_absent("db.docker.", Ipv4::new(10, 0, 0, 9));
    store.remove("db.docker.");
    assert!(store.upsert_if_absent("db.docker.", Ipv4::new(10, 0, 0, 10)));
    assert_eq!(store.lookup("db.docker."), Some(Ipv4::new(10, 0, 0, 10)));
}

#[test]
fn octets_round_trip() {
    let address = Ipv4::new(192, 168, 1, 20);
    assert_eq!(address.octets(), [192, 168, 1, 20]);
    assert_eq!(Ipv4::from_octets([192, 168, 1, 20]), address);
}
