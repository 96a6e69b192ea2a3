use lib::config_map::ConfigMap;

#[test]
fn new_map_is_empty() {
    let m: ConfigMap<u32> = ConfigMap::new();
    assert_eq!(m.len(), 0);
    assert!(!m.has(3));
    assert_eq!(m.get(3), None);
    let d: ConfigMap<u32> = ConfigMap::default();
    assert_eq!(d.len(), 0);
}

#[test]
fn get_after_insert_reads_the_written_value() {
    let mut m: ConfigMap<u32> = ConfigMap::new();
    m.insert(1, 10);
    m.insert(2, 20);
    assert_eq!(m.get(1), Some(&10));
    assert_eq!(m.get(2), Some(&20));
    assert_eq!(m.get(3), None);
    assert!(m.has(1));
    assert!(!m.has(3));
}

#[test]
fn insert_replaces_the_single_value_of_a_key() {
    let mut m: ConfigMap<u32> = ConfigMap::new();
    m.insert(7, 1);
    m.insert(7, 2);
    assert_eq!(m.len(), 1);
    assert_eq!(m.get(7), Some(&2));
    m.insert(8, 3);
    assert_eq!(m.len(), 2);
}

#[test]
fn take_hands_back_and_removes() {
    let mut m: ConfigMap<String> = ConfigMap::new();
    m.insert(4, "four".to_string());
    assert_eq!(m.take(4), Some("four".to_string()));
    assert!(!m.has(4));
    assert_eq!(m.take(4), None);
    assert_eq!(m.len(), 0);
}

#[test]
fn get_mut_writes_through() {
    let mut m: ConfigMap<u32> = ConfigMap::new();
    m.insert(1, 5);
    if let Some(v) = m.get_mut(1) {
        *v += 10;
    }
    assert_eq!(m.get(1), Some(&15));
    assert!(m.get_mut(2).is_none());
    assert_eq!(m.len(), 1);
}

#[test]
fn or_insert_fills_a_vacant_entry_and_keeps_an_occupied_one() {
    let mut m: ConfigMap<u32> = ConfigMap::new();
    {
        let v = m.entry(1).or_insert(3);
        assert_eq!(*v, 3);
        *v = 4;
    }
    assert_eq!(m.get(1), Some(&4));
    {
        let v = m.entry(1).or_insert(9);
        assert_eq!(*v, 4);
    }
    assert_eq!(m.get(1), Some(&4));
}

#[test]
fn or_insert_with_calls_the_default_only_when_vacant() {
    let mut m: ConfigMap<u32> = ConfigMap::new();
    assert_eq!(*m.entry(2).or_insert_with(|| 6), 6);
    assert_eq!(*m.entry(2).or_insert_with(|| 8), 6);
    assert_eq!(m.get(2), Some(&6));
}

#[test]
fn and_modify_changes_only_an_occupied_entry() {
    let mut m: ConfigMap<u32> = ConfigMap::new();
    m.insert(1, 1);
    m.entry(1).and_modify(|v| *v += 1);
    assert_eq!(m.get(1), Some(&2));
    m.entry(5).and_modify(|v| *v += 1);
    assert!(!m.has(5));
    let v = m.entry(5).and_modify(|v| *v += 1).or_insert(40);
    assert_eq!(*v, 40);
    assert_eq!(m.get(5), Some(&40));
}

#[test]
fn or_default_inserts_the_default_value() {
    let mut m: ConfigMap<u32> = ConfigMap::new();
    assert_eq!(*m.entry(3).or_default(), 0);
    m.insert(3, 12);
    assert_eq!(*m.entry(3).or_default(), 12);
    let mut s: ConfigMap<Vec<u8>> = ConfigMap::new();
    s.entry(1).or_default().push(7);
    s.entry(1).or_default().push(8);
    assert_eq!(s.get(1), Some(&vec![7, 8]));
}

#[test]
fn len_follows_inserts_takes_and_writes() {
    let mut m: ConfigMap<u32> = ConfigMap::new();
    m.insert(1, 1);
    m.insert(2, 2);
    assert_eq!(m.len(), 2);
    if let Some(v) = m.get_mut(1) {
        *v = 9;
    }
    assert_eq!(m.len(), 2);
    assert_eq!(m.take(2), Some(2));
    assert_eq!(m.len(), 1);
    assert_eq!(m.take(2), None);
    assert_eq!(m.len(), 1);
}
