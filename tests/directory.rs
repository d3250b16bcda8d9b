use fusen_net::server::cache::Directory;

fn s(x: &str) -> String {
    x.to_string()
}

#[test]
fn second_insert_displaces_the_first() {
    let mut d: Directory<u32> = Directory::new();
    assert_eq!(d.insert(s("k"), 1), None);
    assert_eq!(d.insert(s("k"), 2), Some(1));
    assert_eq!(d.get(&s("k")), Some(&2));
    assert_eq!(d.len(), 1);
}

#[test]
fn remove_then_get_finds_nothing() {
    let mut d: Directory<u32> = Directory::new();
    d.insert(s("k"), 7);
    assert_eq!(d.remove(&s("k")), Some(7));
    assert_eq!(d.get(&s("k")), None);
    assert_eq!(d.remove(&s("k")), None);
    assert_eq!(d.len(), 0);
}

#[test]
fn tags_are_case_sensitive() {
    let mut d: Directory<u32> = Directory::new();
    d.insert(s("R"), 1);
    d.insert(s("r"), 2);
    assert_eq!(d.get(&s("R")), Some(&1));
    assert_eq!(d.get(&s("r")), Some(&2));
    assert_eq!(d.len(), 2);
}

#[test]
fn many_inserts_under_one_tag_leave_one_entry() {
    let mut d: Directory<u32> = Directory::new();
    for i in 0..1000u32 {
        let prev = d.insert(s("same"), i);
        assert_eq!(prev, if i == 0 { None } else { Some(i - 1) });
        d.insert(format!("other{}", i % 10), i);
    }
    assert_eq!(d.len(), 11);
    assert_eq!(d.get(&s("same")), Some(&999));
}

#[test]
fn removing_one_tag_keeps_the_others() {
    let mut d: Directory<String> = Directory::new();
    d.insert(s("a"), s("1"));
    d.insert(s("b"), s("2"));
    d.insert(s("c"), s("3"));
    assert_eq!(d.remove(&s("b")), Some(s("2")));
    assert_eq!(d.get(&s("a")), Some(&s("1")));
    assert_eq!(d.get(&s("c")), Some(&s("3")));
    assert_eq!(d.len(), 2);
}

#[test]
fn owned_removal_only_removes_the_owners_entry() {
    let mut d: Directory<(u64, u32)> = Directory::new();
    d.insert(s("k"), (1, 10));
    assert_eq!(d.remove_owned(&s("k"), 2), None);
    assert_eq!(d.get(&s("k")), Some(&(1, 10)));
    assert_eq!(d.remove_owned(&s("absent"), 1), None);
    assert_eq!(d.remove_owned(&s("k"), 1), Some((1, 10)));
    assert_eq!(d.get(&s("k")), None);
    assert_eq!(d.len(), 0);
}
