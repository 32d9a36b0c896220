use token_auth::event::{
    delete_event, event_answers, get_event_by_id, get_events_by_class,
    get_events_by_class_filtered_after, get_events_by_class_filtered_both, insert_event,
    select_events, Event, EventQuery, StoreError,
};

fn rows() -> Vec<Event> {
    vec![
        Event { id: 1, class: 10, start: 100, end: Some(150) },
        Event { id: 2, class: 10, start: 200, end: None },
        Event { id: 3, class: 11, start: 300, end: Some(400) },
        Event { id: 4, class: 10, start: 300, end: Some(400) },
    ]
}

#[test]
fn events_of_a_class_come_in_stored_order() {
    let db = rows();
    assert_eq!(get_events_by_class(&db, 10), vec![db[0], db[1], db[3]]);
    assert_eq!(get_events_by_class(&db, 11), vec![db[2]]);
    assert_eq!(get_events_by_class(&db, 12), Vec::<Event>::new());
    assert_eq!(get_events_by_class(&Vec::new(), 10), Vec::<Event>::new());
}

#[test]
fn filter_after_is_strict_and_skips_open_ended_events() {
    let db = rows();
    assert_eq!(get_events_by_class_filtered_after(&db, 10, 149), vec![db[0], db[3]]);
    assert_eq!(get_events_by_class_filtered_after(&db, 10, 150), vec![db[3]]);
    assert_eq!(get_events_by_class_filtered_after(&db, 10, 400), Vec::<Event>::new());
    assert_eq!(get_events_by_class_filtered_after(&db, 10, i64::MIN), vec![db[0], db[3]]);
}

#[test]
fn filter_both_bounds_start_and_end() {
    let db = rows();
    assert_eq!(get_events_by_class_filtered_both(&db, 10, 300, 120), vec![db[0]]);
    assert_eq!(get_events_by_class_filtered_both(&db, 10, 301, 120), vec![db[0], db[3]]);
    assert_eq!(get_events_by_class_filtered_both(&db, 10, 100, 0), Vec::<Event>::new());
    assert_eq!(get_events_by_class_filtered_both(&db, 10, 101, 150), Vec::<Event>::new());
    assert_eq!(get_events_by_class_filtered_both(&db, 11, 301, 399), vec![db[2]]);
}

#[test]
fn queries_test_each_bound() {
    let event = Event { id: 1, class: 10, start: 100, end: Some(150) };
    let open = Event { id: 2, class: 10, start: 100, end: None };
    let any = EventQuery { class: 10, before: None, after: None };
    assert!(event_answers(&event, &any));
    assert!(event_answers(&open, &any));
    assert!(!event_answers(&event, &EventQuery { class: 11, ..any }));
    assert!(event_answers(&event, &EventQuery { before: Some(101), ..any }));
    assert!(!event_answers(&event, &EventQuery { before: Some(100), ..any }));
    assert!(event_answers(&event, &EventQuery { after: Some(149), ..any }));
    assert!(!event_answers(&event, &EventQuery { after: Some(150), ..any }));
    assert!(!event_answers(&open, &EventQuery { after: Some(0), ..any }));
    assert_eq!(select_events(&vec![event, open], &EventQuery { after: Some(0), ..any }), vec![event]);
}

#[test]
fn event_is_found_by_its_id() {
    let db = rows();
    assert_eq!(get_event_by_id(&db, 3), Ok(db[2]));
    assert_eq!(get_event_by_id(&db, 1), Ok(db[0]));
    assert_eq!(get_event_by_id(&db, 9), Err(StoreError::NotFound));
    assert_eq!(get_event_by_id(&Vec::new(), 1), Err(StoreError::NotFound));
}

#[test]
fn insert_appends_a_new_event() {
    let mut db = rows();
    let new = Event { id: 5, class: 12, start: 1, end: None };
    assert_eq!(insert_event(&mut db, new), Ok(new));
    assert_eq!(db.len(), 5);
    assert_eq!(db[4], new);
    assert_eq!(&db[..4], &rows()[..]);
}

#[test]
fn insert_refuses_a_taken_id() {
    let mut db = rows();
    let clash = Event { id: 2, class: 12, start: 1, end: None };
    assert_eq!(insert_event(&mut db, clash), Err(StoreError::Conflict));
    assert_eq!(db, rows());
}

#[test]
fn delete_removes_the_event_and_counts_it() {
    let mut db = rows();
    assert_eq!(delete_event(&mut db, 2), 1);
    assert_eq!(db, vec![rows()[0], rows()[2], rows()[3]]);
    assert_eq!(delete_event(&mut db, 2), 0);
    assert_eq!(db.len(), 3);
    assert_eq!(delete_event(&mut db, 1), 1);
    assert_eq!(delete_event(&mut db, 3), 1);
    assert_eq!(delete_event(&mut db, 4), 1);
    assert!(db.is_empty());
    assert_eq!(delete_event(&mut db, 4), 0);
}
