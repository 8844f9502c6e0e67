use moderator::record::{PartialMessage, Status};
use moderator::store::{Database, DatabaseMessage};

fn record(id: u64) -> PartialMessage {
    PartialMessage::new(id, 1, 100 + id, format!("message {}", id), Status::NotValidated, 1_000 + id as i64)
}

fn ids(window: &Vec<PartialMessage>) -> Vec<u64> {
    let mut out = Vec::new();
    for m in window {
        out.push(m.id());
    }
    out
}

fn statuses(window: &Vec<PartialMessage>) -> Vec<Status> {
    let mut out = Vec::new();
    for m in window {
        out.push(m.status());
    }
    out
}

#[test]
fn new_store_is_empty() {
    let (db, _tx, _rx) = Database::new(4);
    assert_eq!(db.len(), 0);
    assert_eq!(db.capacity(), 4);
    assert!(db.get_latest(10).is_empty());
}

#[test]
fn insert_evicts_the_oldest_at_capacity() {
    let (mut db, _tx, _rx) = Database::new(3);
    for id in 1..=4 {
        db.insert(record(id));
    }
    assert_eq!(db.len(), 3);
    assert_eq!(ids(&db.get_latest(255)), vec![2, 3, 4]);

    assert_eq!(ids(&db.get_latest(2)), vec![3, 4]);

    db.validate_entries(2);
    let all = db.get_latest(255);
    assert_eq!(ids(&all), vec![2, 3, 4]);
    assert_eq!(
        statuses(&all),
        vec![Status::NotValidated, Status::Validated, Status::Validated]
    );
}

#[test]
fn get_latest_beyond_length_returns_everything() {
    let (mut db, _tx, _rx) = Database::new(5);
    db.insert(record(1));
    db.insert(record(2));
    let window = db.get_latest(10);
    assert_eq!(ids(&window), vec![1, 2]);
    assert_eq!(db.len(), 2);
}

#[test]
fn get_latest_of_exactly_the_length_returns_everything() {
    let (mut db, _tx, _rx) = Database::new(5);
    for id in 1..=3 {
        db.insert(record(id));
    }
    assert_eq!(ids(&db.get_latest(3)), vec![1, 2, 3]);
}

#[test]
fn get_latest_zero_is_empty() {
    let (mut db, _tx, _rx) = Database::new(5);
    db.insert(record(1));
    db.insert(record(2));
    assert!(db.get_latest(0).is_empty());
    assert_eq!(db.len(), 2);
}

#[test]
fn get_latest_copies_every_field() {
    let (mut db, _tx, _rx) = Database::new(2);
    db.insert(PartialMessage::new(9, 8, 7, String::from("hello"), Status::Validated, -5));
    let window = db.get_latest(1);
    assert_eq!(window.len(), 1);
    assert_eq!(window[0].id(), 9);
    assert_eq!(window[0].channel_id(), 8);
    assert_eq!(window[0].author_id(), 7);
    assert_eq!(window[0].content(), "hello");
    assert_eq!(window[0].status(), Status::Validated);
    assert_eq!(window[0].timestamp(), -5);
}

#[test]
fn store_never_exceeds_its_capacity() {
    let (mut db, _tx, _rx) = Database::new(7);
    for id in 1..=100u64 {
        db.insert(record(id));
        assert!(db.len() <= 7);
        let expected_len = if id < 7 { id as usize } else { 7 };
        assert_eq!(db.len(), expected_len);
    }
    assert_eq!(ids(&db.get_latest(255)), vec![94, 95, 96, 97, 98, 99, 100]);
}

#[test]
fn one_insert_evicts_at_most_one_record() {
    let (mut db, _tx, _rx) = Database::new(3);
    for id in 1..=3 {
        db.insert(record(id));
    }
    let before = db.len();
    db.insert(record(4));
    assert_eq!(db.len(), before);
    assert_eq!(ids(&db.get_latest(255)), vec![2, 3, 4]);
}

#[test]
fn window_read_after_insert_holds_the_new_record() {
    let (mut db, _tx, _rx) = Database::new(3);
    for id in 1..=10 {
        db.insert(record(id));
        let one = db.get_latest(1);
        assert_eq!(ids(&one), vec![id]);
        let window = db.get_latest(20);
        assert_eq!(window.last().map(|m| m.id()), Some(id));
    }
}

#[test]
fn capacity_of_zero_keeps_the_latest_record() {
    let (mut db, _tx, _rx) = Database::new(0);
    db.insert(record(1));
    assert_eq!(ids(&db.get_latest(255)), vec![1]);
    db.insert(record(2));
    assert_eq!(ids(&db.get_latest(255)), vec![2]);
    assert_eq!(db.len(), 1);
}

#[test]
fn capacity_of_one_keeps_the_latest_record() {
    let (mut db, _tx, _rx) = Database::new(1);
    db.insert(record(1));
    db.insert(record(2));
    db.insert(record(3));
    assert_eq!(ids(&db.get_latest(255)), vec![3]);
}

#[test]
fn validate_entries_marks_only_the_window() {
    let (mut db, _tx, _rx) = Database::new(5);
    for id in 1..=5 {
        db.insert(record(id));
    }
    db.validate_entries(3);
    let all = db.get_latest(255);
    assert_eq!(ids(&all), vec![1, 2, 3, 4, 5]);
    assert_eq!(
        statuses(&all),
        vec![
            Status::NotValidated,
            Status::NotValidated,
            Status::Validated,
            Status::Validated,
            Status::Validated
        ]
    );
    for (i, m) in all.iter().enumerate() {
        let id = i as u64 + 1;
        assert_eq!(m.channel_id(), 1);
        assert_eq!(m.author_id(), 100 + id);
        assert_eq!(m.content(), format!("message {}", id));
        assert_eq!(m.timestamp(), 1_000 + id as i64);
    }
}

#[test]
fn validate_entries_twice_changes_nothing_more() {
    let (mut db, _tx, _rx) = Database::new(4);
    for id in 1..=4 {
        db.insert(record(id));
    }
    db.validate_entries(2);
    let once = db.get_latest(255);
    db.validate_entries(2);
    let twice = db.get_latest(255);
    assert_eq!(ids(&once), ids(&twice));
    assert_eq!(statuses(&once), statuses(&twice));
    assert_eq!(
        statuses(&twice),
        vec![Status::NotValidated, Status::NotValidated, Status::Validated, Status::Validated]
    );
}

#[test]
fn validate_entries_beyond_length_marks_everything() {
    let (mut db, _tx, _rx) = Database::new(4);
    db.insert(record(1));
    db.insert(record(2));
    db.validate_entries(u64::MAX);
    assert_eq!(statuses(&db.get_latest(255)), vec![Status::Validated, Status::Validated]);
    assert_eq!(ids(&db.get_latest(255)), vec![1, 2]);
}

#[test]
fn validate_entries_zero_changes_nothing() {
    let (mut db, _tx, _rx) = Database::new(4);
    db.insert(record(1));
    db.insert(record(2));
    db.validate_entries(0);
    assert_eq!(
        statuses(&db.get_latest(255)),
        vec![Status::NotValidated, Status::NotValidated]
    );
}

#[test]
fn validate_entries_on_an_empty_store_is_harmless() {
    let (mut db, _tx, _rx) = Database::new(4);
    db.validate_entries(3);
    assert_eq!(db.len(), 0);
}

#[test]
fn records_inserted_after_a_mark_are_not_validated() {
    let (mut db, _tx, _rx) = Database::new(3);
    db.insert(record(1));
    db.validate_entries(1);
    db.insert(record(2));
    assert_eq!(
        statuses(&db.get_latest(255)),
        vec![Status::Validated, Status::NotValidated]
    );
}

#[test]
fn handle_answers_only_get_latest() {
    let (mut db, _tx, _rx) = Database::new(3);
    assert!(db.handle(DatabaseMessage::InsertMessage(record(1))).is_none());
    assert!(db.handle(DatabaseMessage::InsertMessage(record(2))).is_none());
    assert!(db.handle(DatabaseMessage::ValidateEntries(1)).is_none());
    let answer = db.handle(DatabaseMessage::GetLatest(5));
    let window = answer.expect("a window is owed");
    assert_eq!(ids(&window), vec![1, 2]);
    assert_eq!(statuses(&window), vec![Status::NotValidated, Status::Validated]);
    assert_eq!(db.len(), 2);
}

#[test]
fn serve_next_handles_requests_in_the_order_sent() {
    let (mut db, tx, rx) = Database::new(3);
    for id in 1..=4 {
        tx.send(DatabaseMessage::InsertMessage(record(id))).unwrap();
    }
    tx.send(DatabaseMessage::GetLatest(2)).unwrap();
    tx.send(DatabaseMessage::ValidateEntries(2)).unwrap();
    tx.send(DatabaseMessage::GetLatest(10)).unwrap();

    for _ in 0..4 {
        assert!(db.serve_next());
        assert!(rx.try_recv().is_err());
    }
    assert!(db.serve_next());
    let first = rx.try_recv().expect("one window per read");
    assert_eq!(ids(&first), vec![3, 4]);
    assert_eq!(statuses(&first), vec![Status::NotValidated, Status::NotValidated]);
    assert!(rx.try_recv().is_err());

    assert!(db.serve_next());
    assert!(rx.try_recv().is_err());

    assert!(db.serve_next());
    let second = rx.try_recv().expect("one window per read");
    assert_eq!(ids(&second), vec![2, 3, 4]);
    assert_eq!(
        statuses(&second),
        vec![Status::NotValidated, Status::Validated, Status::Validated]
    );
    assert!(rx.try_recv().is_err());
}

#[test]
fn serve_next_stops_when_every_sender_is_gone() {
    let (mut db, tx, _rx) = Database::new(3);
    tx.send(DatabaseMessage::InsertMessage(record(1))).unwrap();
    drop(tx);
    assert!(db.serve_next());
    assert!(!db.serve_next());
    assert_eq!(db.len(), 1);
    assert!(!db.serve_next());
}

#[test]
fn serve_next_survives_a_caller_that_stopped_listening() {
    let (mut db, tx, rx) = Database::new(3);
    drop(rx);
    tx.send(DatabaseMessage::InsertMessage(record(1))).unwrap();
    tx.send(DatabaseMessage::GetLatest(1)).unwrap();
    tx.send(DatabaseMessage::InsertMessage(record(2))).unwrap();
    assert!(db.serve_next());
    assert!(db.serve_next());
    assert!(db.serve_next());
    assert_eq!(ids(&db.get_latest(255)), vec![1, 2]);
}

#[test]
fn requests_from_two_callers_take_effect_in_queue_order() {
    let (mut db, tx_a, rx) = Database::new(4);
    let tx_b = tx_a.clone();
    tx_a.send(DatabaseMessage::InsertMessage(record(1))).unwrap();
    tx_b.send(DatabaseMessage::InsertMessage(record(2))).unwrap();
    tx_a.send(DatabaseMessage::ValidateEntries(1)).unwrap();
    tx_b.send(DatabaseMessage::InsertMessage(record(3))).unwrap();
    tx_a.send(DatabaseMessage::GetLatest(10)).unwrap();
    for _ in 0..5 {
        assert!(db.serve_next());
    }
    let window = rx.try_recv().expect("one window per read");
    assert_eq!(ids(&window), vec![1, 2, 3]);
    assert_eq!(
        statuses(&window),
        vec![Status::NotValidated, Status::Validated, Status::NotValidated]
    );
}

#[test]
fn serve_handles_a_request_that_came_out_of_the_queue() {
    let (mut db, _tx, _rx) = Database::new(2);
    let (served, answer) = db.serve(Ok(DatabaseMessage::InsertMessage(record(1))));
    assert!(served);
    assert!(answer.is_none());
    let (served, answer) = db.serve(Ok(DatabaseMessage::InsertMessage(record(2))));
    assert!(served);
    assert!(answer.is_none());
    let (served, answer) = db.serve(Ok(DatabaseMessage::ValidateEntries(1)));
    assert!(served);
    assert!(answer.is_none());
    let (served, answer) = db.serve(Ok(DatabaseMessage::GetLatest(5)));
    assert!(served);
    let window = answer.expect("a read is owed a window");
    assert_eq!(ids(&window), vec![1, 2]);
    assert_eq!(statuses(&window), vec![Status::NotValidated, Status::Validated]);
}

#[test]
fn serve_leaves_the_store_alone_when_the_queue_has_closed() {
    let (mut db, _tx, _rx) = Database::new(2);
    db.insert(record(1));
    let (served, answer) = db.serve(Err(crossbeam::channel::RecvError));
    assert!(!served);
    assert!(answer.is_none());
    assert_eq!(ids(&db.get_latest(255)), vec![1]);
    assert_eq!(statuses(&db.get_latest(255)), vec![Status::NotValidated]);
}
