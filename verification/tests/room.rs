use chatroom::durable::{classify, greet, Action, Chatroom, Lifecycle, Operation};
use chatroom::error::ActorError;
use chatroom::response::Response;

/// Storage that keeps one record and can be told to fail.
struct Storage {
    record: Option<Vec<i32>>,
    reads_fail: bool,
    writes_fail: bool,
    reads: usize,
    writes: usize,
}

fn empty_storage() -> Storage {
    Storage { record: None, reads_fail: false, writes_fail: false, reads: 0, writes: 0 }
}

/// Runs one request the way a host does: performs what the room asks for and
/// reports the outcome back.
fn request(room: &mut Chatroom, storage: &mut Storage, path: &str) -> Result<Response, ActorError> {
    loop {
        match room.fetch(path).expect("the sequence has room") {
            Action::Load => {
                storage.reads += 1;
                let read = if storage.reads_fail {
                    Err(ActorError::StorageUnavailable)
                } else {
                    Ok(storage.record.clone())
                };
                room.hydrate(read);
            }
            Action::Persist { record, reply } => {
                storage.writes += 1;
                let ack = if storage.writes_fail {
                    Err(ActorError::StorageUnavailable)
                } else {
                    storage.record = Some(record);
                    Ok(())
                };
                return Chatroom::acknowledge(ack, reply);
            }
            Action::Upgrade { response } => return Ok(response),
            Action::Reject { error } => return Err(error),
        }
    }
}

fn ok(body: &str) -> Result<Response, ActorError> {
    Ok(Response { status: 200, body: body.to_string() })
}

#[test]
fn new_room_is_cold_and_empty() {
    let room = Chatroom::new();
    assert_eq!(room.phase(), Lifecycle::Cold);
    assert_eq!(room.users(), &Vec::<i32>::new());
    assert!(!room.is_live(0));
    assert!(room.can_append());
}

#[test]
fn record_key_is_users() {
    assert_eq!(Chatroom::record_key(), "users");
}

#[test]
fn classify_knows_the_two_operations() {
    assert_eq!(classify("/add"), Operation::Append);
    assert_eq!(classify("/websocket"), Operation::Connect);
    assert_eq!(classify("/"), Operation::Unknown);
    assert_eq!(classify(""), Operation::Unknown);
    assert_eq!(classify("add"), Operation::Unknown);
    assert_eq!(classify("/add/"), Operation::Unknown);
    assert_eq!(classify("/ADD"), Operation::Unknown);
}

#[test]
fn first_fetch_asks_for_the_record() {
    let mut room = Chatroom::new();
    assert_eq!(room.fetch("/add"), Some(Action::Load));
    assert_eq!(room.phase(), Lifecycle::Hydrating);
    assert_eq!(room.users(), &Vec::<i32>::new());
    // Until the read is reported, the room keeps asking.
    assert_eq!(room.fetch("/websocket"), Some(Action::Load));
    assert_eq!(room.phase(), Lifecycle::Hydrating);
}

#[test]
fn hydrate_takes_the_record_found() {
    let mut room = Chatroom::new();
    room.fetch("/add");
    room.hydrate(Ok(Some(vec![1, 2, 3])));
    assert_eq!(room.phase(), Lifecycle::Ready);
    assert_eq!(room.users(), &vec![1, 2, 3]);
}

#[test]
fn hydrate_starts_empty_without_a_record() {
    let mut room = Chatroom::new();
    room.fetch("/add");
    room.hydrate(Ok(None));
    assert_eq!(room.phase(), Lifecycle::Ready);
    assert_eq!(room.users(), &Vec::<i32>::new());
}

#[test]
fn hydrate_starts_empty_when_the_read_fails() {
    let mut room = Chatroom::new();
    room.fetch("/add");
    room.hydrate(Err(ActorError::StorageUnavailable));
    assert_eq!(room.phase(), Lifecycle::Ready);
    assert_eq!(room.users(), &Vec::<i32>::new());
}

#[test]
fn a_ready_room_passes_over_a_later_read() {
    let mut room = Chatroom::new();
    room.fetch("/add");
    room.hydrate(Ok(Some(vec![4, 5])));
    room.hydrate(Ok(Some(vec![9])));
    assert_eq!(room.users(), &vec![4, 5]);
    room.hydrate(Err(ActorError::StorageUnavailable));
    assert_eq!(room.users(), &vec![4, 5]);
    assert_eq!(room.phase(), Lifecycle::Ready);
}

#[test]
fn append_adds_one_to_the_last_number() {
    let mut room = Chatroom::new();
    room.hydrate(Ok(Some(vec![7, 3, 41])));
    assert_eq!(room.append(), vec![7, 3, 41, 42]);
    assert_eq!(room.users(), &vec![7, 3, 41, 42]);
}

#[test]
fn append_starts_at_one() {
    let mut room = Chatroom::new();
    room.hydrate(Ok(None));
    assert_eq!(room.append(), vec![1]);
    assert_eq!(room.append(), vec![1, 2]);
}

#[test]
fn add_asks_for_the_write_with_the_whole_sequence() {
    let mut room = Chatroom::new();
    room.hydrate(Ok(Some(vec![1, 2])));
    assert_eq!(
        room.fetch("/add"),
        Some(Action::Persist { record: vec![1, 2, 3], reply: "Hello: [1, 2, 3]".to_string() })
    );
    assert_eq!(room.users(), &vec![1, 2, 3]);
}

#[test]
fn reply_lists_negative_numbers_too() {
    let mut room = Chatroom::new();
    room.hydrate(Ok(Some(vec![-5])));
    assert_eq!(
        room.fetch("/add"),
        Some(Action::Persist { record: vec![-5, -4], reply: "Hello: [-5, -4]".to_string() })
    );
}

#[test]
fn websocket_switches_protocols() {
    let mut room = Chatroom::new();
    room.hydrate(Ok(Some(vec![1])));
    assert_eq!(
        room.fetch("/websocket"),
        Some(Action::Upgrade { response: Response { status: 101, body: String::new() } })
    );
    assert_eq!(room.users(), &vec![1]);
    assert_eq!(room.phase(), Lifecycle::Ready);
}

#[test]
fn unknown_path_is_rejected_with_the_path() {
    let mut room = Chatroom::new();
    room.hydrate(Ok(None));
    assert_eq!(
        room.fetch("/remove"),
        Some(Action::Reject { error: ActorError::UnsupportedOperation("/remove".to_string()) })
    );
    assert_eq!(room.fetch("/"), Some(Action::Reject {
        error: ActorError::UnsupportedOperation("/".to_string())
    }));
    assert_eq!(room.users(), &Vec::<i32>::new());
    assert_eq!(room.phase(), Lifecycle::Ready);
}

#[test]
fn a_full_sequence_is_left_alone() {
    let mut room = Chatroom::new();
    room.hydrate(Ok(Some(vec![i32::MAX])));
    assert!(!room.can_append());
    assert_eq!(room.fetch("/add"), None);
    assert_eq!(room.users(), &vec![i32::MAX]);
    // Other operations are still served.
    assert!(matches!(room.fetch("/websocket"), Some(Action::Upgrade { .. })));
    assert!(matches!(room.fetch("/nothing"), Some(Action::Reject { .. })));
}

#[test]
fn the_last_number_that_fits_is_appended() {
    let mut room = Chatroom::new();
    room.hydrate(Ok(Some(vec![i32::MAX - 1])));
    assert!(room.can_append());
    assert_eq!(room.append(), vec![i32::MAX - 1, i32::MAX]);
    assert!(!room.can_append());
}

#[test]
fn acknowledge_answers_with_the_reply() {
    assert_eq!(Chatroom::acknowledge(Ok(()), "Hello: [1]".to_string()), ok("Hello: [1]"));
    assert_eq!(Chatroom::acknowledge(Ok(()), String::new()), ok(""));
}

#[test]
fn acknowledge_reports_a_failed_write() {
    assert_eq!(
        Chatroom::acknowledge(Err(ActorError::StorageUnavailable), "Hello: [1]".to_string()),
        Err(ActorError::StorageUnavailable)
    );
    assert_eq!(
        Chatroom::acknowledge(Err(ActorError::ConnectionLost), "Hello: [1]".to_string()),
        Err(ActorError::StorageUnavailable)
    );
}

#[test]
fn kth_append_reads_k() {
    let mut room = Chatroom::new();
    let mut storage = empty_storage();
    for k in 1..=20 {
        let expected: Vec<i32> = (1..=k).collect();
        assert_eq!(request(&mut room, &mut storage, "/add"), ok(&format!("Hello: {:?}", expected)));
        assert_eq!(room.users().last(), Some(&k));
        assert_eq!(storage.record, Some(expected));
    }
    assert_eq!(storage.reads, 1);
    assert_eq!(storage.writes, 20);
}

#[test]
fn appends_count_on_across_evictions() {
    let mut storage = empty_storage();
    for k in 1..=6 {
        // Every request meets a new instance.
        let mut room = Chatroom::new();
        let expected: Vec<i32> = (1..=k).collect();
        assert_eq!(request(&mut room, &mut storage, "/add"), ok(&format!("Hello: {:?}", expected)));
        assert_eq!(storage.record, Some(expected));
    }
    assert_eq!(storage.reads, 6);
}

#[test]
fn the_record_is_read_once_in_a_lifetime() {
    let mut room = Chatroom::new();
    let mut storage = empty_storage();
    storage.reads_fail = true;
    assert_eq!(request(&mut room, &mut storage, "/add"), ok("Hello: [1]"));
    assert_eq!(storage.reads, 1);
    // Storage is back and holds something else; the instance does not look.
    storage.reads_fail = false;
    storage.record = Some(vec![10, 11]);
    assert_eq!(request(&mut room, &mut storage, "/add"), ok("Hello: [1, 2]"));
    assert_eq!(request(&mut room, &mut storage, "/nothing"), Err(
        ActorError::UnsupportedOperation("/nothing".to_string())
    ));
    assert_eq!(storage.reads, 1);
    assert_eq!(room.phase(), Lifecycle::Ready);
}

#[test]
fn success_is_seen_only_after_the_write() {
    let mut room = Chatroom::new();
    let mut storage = empty_storage();
    storage.writes_fail = true;
    assert_eq!(request(&mut room, &mut storage, "/add"), Err(ActorError::StorageUnavailable));
    assert_eq!(storage.record, None);
    assert_eq!(storage.writes, 1);
    // Memory keeps the number that was appended.
    assert_eq!(room.users(), &vec![1]);
    storage.writes_fail = false;
    assert_eq!(request(&mut room, &mut storage, "/add"), ok("Hello: [1, 2]"));
    assert_eq!(storage.record, Some(vec![1, 2]));
}

#[test]
fn fetch_never_answers_an_append_itself() {
    let mut room = Chatroom::new();
    room.hydrate(Ok(None));
    for _ in 0..5 {
        assert!(matches!(room.fetch("/add"), Some(Action::Persist { .. })));
    }
}

#[test]
fn add_then_add_then_outage() {
    let mut storage = empty_storage();
    let mut room = Chatroom::new();
    assert_eq!(request(&mut room, &mut storage, "/add"), ok("Hello: [1]"));
    assert_eq!(storage.record, Some(vec![1]));
    assert_eq!(request(&mut room, &mut storage, "/add"), ok("Hello: [1, 2]"));
    assert_eq!(storage.record, Some(vec![1, 2]));
    // The instance is evicted, and the read of the next one fails.
    let mut room = Chatroom::new();
    storage.reads_fail = true;
    assert_eq!(request(&mut room, &mut storage, "/add"), ok("Hello: [1]"));
    assert_eq!(room.users(), &vec![1]);
    assert_eq!(storage.record, Some(vec![1]));
}

#[test]
fn connections_do_not_touch_the_sequence() {
    let mut room = Chatroom::new();
    room.hydrate(Ok(Some(vec![1, 2])));
    room.accept(7);
    room.accept(8);
    room.lost(7);
    assert_eq!(room.users(), &vec![1, 2]);
    assert_eq!(room.phase(), Lifecycle::Ready);
    assert!(room.is_live(8));
    assert!(!room.is_live(7));
    assert_eq!(
        room.fetch("/add"),
        Some(Action::Persist { record: vec![1, 2, 3], reply: "Hello: [1, 2, 3]".to_string() })
    );
    assert!(room.is_live(8));
}

#[test]
fn greet_puts_the_greeting_before_the_listing() {
    assert_eq!(greet("[1, 2]"), "Hello: [1, 2]");
    assert_eq!(greet("[]"), "Hello: []");
    assert_eq!(greet(""), "Hello: ");
}
