use nanwei_api_rust::bytes::{append_bytes, bytes_eq, copy_bytes};
use nanwei_api_rust::id_table::IdTable;
use nanwei_api_rust::status::{ClientStatus, SharedStreams};

#[test]
fn table_keeps_order_and_replaces() {
    let mut t: IdTable<u32> = IdTable::new();
    t.insert(vec![2], 20);
    t.insert(vec![1], 10);
    t.insert(vec![2], 21);
    assert_eq!(t.len(), 2);
    assert_eq!(t.id_at(0), &vec![2]);
    assert_eq!(*t.value_at(0), 21);
    assert_eq!(t.position(&[1]), Some(1));
    assert_eq!(t.position(&[3]), None);
    *t.value_mut(1) = 11;
    assert_eq!(*t.value_at(1), 11);
    assert!(t.contains(&[1]));
}

#[test]
fn table_drops_what_is_not_marked() {
    let mut t: IdTable<u32> = IdTable::new();
    for i in 0..5u8 {
        t.insert(vec![i], i as u32);
    }
    t.retain(&vec![true, false, true, false, true]);
    assert_eq!(t.len(), 3);
    assert_eq!(t.id_at(0), &vec![0]);
    assert_eq!(t.id_at(1), &vec![2]);
    assert_eq!(t.id_at(2), &vec![4]);
    assert_eq!(*t.value_at(2), 4);
    t.retain(&vec![false, false, false]);
    assert_eq!(t.len(), 0);
}

#[test]
fn connections_are_accepted_once_and_in_order() {
    let mut s: SharedStreams<u32> = SharedStreams::new();
    assert_eq!(s.accept(), None);
    s.connected(vec![9], 90);
    s.connected(vec![3], 30);
    assert_eq!(s.accept(), Some(0));
    assert_eq!(s.status(&[9]), Some(ClientStatus::Accepted));
    assert_eq!(s.status(&[3]), Some(ClientStatus::Connected));
    assert_eq!(s.accept(), Some(1));
    assert_eq!(s.accept(), None);
}

#[test]
fn closing_marks_one_connection() {
    let mut s: SharedStreams<u32> = SharedStreams::new();
    s.connected(vec![9], 90);
    s.connected(vec![3], 30);
    s.mark_closed(&[3]);
    s.mark_closed(&[4]);
    assert_eq!(s.status(&[9]), Some(ClientStatus::Connected));
    assert_eq!(s.status(&[3]), Some(ClientStatus::Close));
    assert_eq!(s.status(&[4]), None);
    assert_eq!(s.client_status.value_at(1).conn, 30);
}

#[test]
fn byte_strings() {
    assert!(bytes_eq(b"abc", b"abc"));
    assert!(!bytes_eq(b"abc", b"abd"));
    assert!(!bytes_eq(b"abc", b"ab"));
    let mut v = vec![1, 2];
    append_bytes(&mut v, &[3]);
    assert_eq!(v, vec![1, 2, 3]);
    assert_eq!(copy_bytes(&[4, 5]), vec![4, 5]);
}
