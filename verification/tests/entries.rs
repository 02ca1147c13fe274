use gearsfn::qna::entries::put;

#[test]
fn put_adds_a_new_key_at_the_end() {
    let mut entries: Vec<(String, u8)> = Vec::new();
    put(&mut entries, "a".to_string(), 1);
    put(&mut entries, "b".to_string(), 2);
    put(&mut entries, "".to_string(), 3);
    assert_eq!(
        entries,
        vec![("a".to_string(), 1), ("b".to_string(), 2), ("".to_string(), 3)]
    );
}

#[test]
fn put_replaces_the_value_under_a_key_in_place() {
    let mut entries: Vec<(String, u8)> =
        vec![("a".to_string(), 1), ("b".to_string(), 2), ("c".to_string(), 3)];
    put(&mut entries, "b".to_string(), 20);
    assert_eq!(
        entries,
        vec![("a".to_string(), 1), ("b".to_string(), 20), ("c".to_string(), 3)]
    );
    put(&mut entries, "a".to_string(), 10);
    put(&mut entries, "c".to_string(), 30);
    assert_eq!(
        entries,
        vec![("a".to_string(), 10), ("b".to_string(), 20), ("c".to_string(), 30)]
    );
}
