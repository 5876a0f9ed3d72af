use user_service::record::Record;
use user_service::store::Store;

fn rec_fields(r: &Record) -> (Option<i64>, &str, &str) {
    (r.id, r.name.as_str(), r.email.as_str())
}

#[test]
fn create_assigns_ids_from_one() {
    let mut s = Store::new();
    let a = s.create(String::from("A"), String::from("a@x")).unwrap();
    let b = s.create(String::from("B"), String::from("b@x")).unwrap();
    assert_eq!(a, 1);
    assert_eq!(b, 2);
}

#[test]
fn read_returns_the_stored_record() {
    let mut s = Store::new();
    let id = s.create(String::from("Ann"), String::from("ann@x.com")).unwrap();
    let rec = s.read(id).unwrap();
    assert_eq!(rec_fields(&rec), (Some(1), "Ann", "ann@x.com"));
    assert!(s.read(99).is_none());
}

#[test]
fn update_replaces_fields_in_place() {
    let mut s = Store::new();
    s.create(String::from("A"), String::from("a@x")).unwrap();
    s.create(String::from("B"), String::from("b@x")).unwrap();
    assert!(s.update(1, String::from("A2"), String::from("a2@x")));
    let rec = s.read(1).unwrap();
    assert_eq!(rec_fields(&rec), (Some(1), "A2", "a2@x"));
    let other = s.read(2).unwrap();
    assert_eq!(rec_fields(&other), (Some(2), "B", "b@x"));
    assert!(!s.update(3, String::from("C"), String::from("c@x")));
}

#[test]
fn delete_removes_exactly_one() {
    let mut s = Store::new();
    s.create(String::from("A"), String::from("a@x")).unwrap();
    s.create(String::from("B"), String::from("b@x")).unwrap();
    assert!(s.delete(1));
    assert!(s.read(1).is_none());
    assert!(s.read(2).is_some());
    assert!(!s.delete(1));
}
