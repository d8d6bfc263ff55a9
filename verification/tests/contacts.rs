use learn_htmx::contacts::{archive_line, page_offset, page_or_first, take_page, PAGE_SIZE};
use learn_htmx::db::Contact;

fn contacts(n: i32) -> Vec<Contact> {
    (0..n).map(|id| Contact { id, name: format!("n{id}"), email: format!("e{id}@x.org") }).collect()
}

#[test]
fn first_page_is_the_default() {
    assert_eq!(page_or_first(None), 1);
    assert_eq!(page_or_first(Some(7)), 7);
    assert_eq!(page_or_first(Some(0)), 0);
}

#[test]
fn offsets() {
    assert_eq!(PAGE_SIZE, 10);
    assert_eq!(page_offset(1), 0);
    assert_eq!(page_offset(2), 10);
    assert_eq!(page_offset(0), -10);
    assert_eq!(page_offset(u32::MAX), 42949672940);
}

#[test]
fn a_full_page_with_more_behind_it() {
    let mut all = contacts(11);
    assert!(take_page(&mut all));
    assert_eq!(all.len(), 10);
    assert_eq!(all[9].id, 9);
    assert_eq!(all[0].id, 0);
}

#[test]
fn the_last_page() {
    let mut all = contacts(10);
    assert!(!take_page(&mut all));
    assert_eq!(all.len(), 10);
    let mut few = contacts(3);
    assert!(!take_page(&mut few));
    assert_eq!(few.len(), 3);
    let mut none = contacts(0);
    assert!(!take_page(&mut none));
    assert!(none.is_empty());
}

#[test]
fn archive_lines_are_not_escaped() {
    let c = Contact { id: 1, name: "A & B".to_string(), email: "a@x.org".to_string() };
    assert_eq!(archive_line(&c), "name: 'A & B'\temail: 'a@x.org'\n");
}
