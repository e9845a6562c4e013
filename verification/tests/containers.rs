use irc_client::membership::Membership;
use irc_client::name_map::NameMap;
use irc_client::name_set::NameSet;

fn text(s: &str) -> String {
    s.to_string()
}

fn sorted(mut names: Vec<String>) -> Vec<String> {
    names.sort();
    names
}

#[test]
fn name_set_holds_each_name_once() {
    let mut set = NameSet::new();
    assert_eq!(set.len(), 0);
    assert!(set.insert(text("a")));
    assert!(set.insert(text("b")));
    assert!(!set.insert(text("a")));
    assert_eq!(set.len(), 2);
    assert!(set.contains(&text("a")));
    assert!(!set.contains(&text("c")));
    assert_eq!(set.to_vec(), vec![text("a"), text("b")]);
    assert_eq!(set.get(1), "b");
    assert_eq!(set.position(&text("b")), Some(1));
    assert_eq!(set.position(&text("z")), None);
}

#[test]
fn name_set_remove_takes_out_one_name() {
    let mut set = NameSet::new();
    set.insert(text("a"));
    set.insert(text("b"));
    set.insert(text("c"));
    assert!(set.remove(&text("b")));
    assert!(!set.remove(&text("b")));
    assert_eq!(set.to_vec(), vec![text("a"), text("c")]);
}

#[test]
fn name_map_finds_what_was_pushed() {
    let mut map: NameMap<u32> = NameMap::new();
    assert_eq!(map.len(), 0);
    map.push(text("one"), 1);
    map.push(text("two"), 2);
    assert_eq!(map.len(), 2);
    assert_eq!(map.position(&text("two")), Some(1));
    assert_eq!(map.position(&text("three")), None);
    assert_eq!(map.key_at(0), "one");
    assert_eq!(*map.value_at(1), 2);
}

#[test]
fn name_map_changes_a_value_where_it_stands() {
    let mut map: NameMap<u32> = NameMap::new();
    map.push(text("one"), 1);
    map.push(text("two"), 2);
    *map.value_mut(0) = 10;
    assert_eq!(*map.value_at(0), 10);
    assert_eq!(*map.value_at(1), 2);
}

#[test]
fn name_map_remove_at_closes_the_gap() {
    let mut map: NameMap<u32> = NameMap::new();
    map.push(text("one"), 1);
    map.push(text("two"), 2);
    map.push(text("three"), 3);
    assert_eq!(map.remove_at(1), 2);
    assert_eq!(map.len(), 2);
    assert_eq!(map.position(&text("three")), Some(1));
    assert_eq!(map.position(&text("two")), None);
    assert_eq!(*map.value_at(1), 3);
}

#[test]
fn membership_records_and_forgets() {
    let mut index = Membership::new();
    assert!(index.get("alice").is_empty());
    index.add("alice", "#a");
    index.add("alice", "#b");
    index.add("alice", "#a");
    index.add("bob", "#a");
    assert_eq!(sorted(index.get("alice")), vec![text("#a"), text("#b")]);
    assert_eq!(index.get("bob"), vec![text("#a")]);
    let taken = index.take("alice");
    assert_eq!(sorted(taken), vec![text("#a"), text("#b")]);
    assert!(index.get("alice").is_empty());
    assert_eq!(index.get("bob"), vec![text("#a")]);
    assert!(index.take("nobody").is_empty());
}

#[test]
fn membership_add_all_unites() {
    let mut index = Membership::new();
    index.add("ally", "#c");
    index.add_all("ally", &vec![text("#a"), text("#c"), text("#b")]);
    assert_eq!(sorted(index.get("ally")), vec![text("#a"), text("#b"), text("#c")]);
}
