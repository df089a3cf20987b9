use chatroom::error::ActorError;
use chatroom::gateway::{get_durable, pass_through, ActorIdentity, AppState};
use chatroom::response::{Response, STATUS_OK, STATUS_SWITCHING_PROTOCOLS};

fn identity(namespace: &str, name: &str) -> ActorIdentity {
    ActorIdentity { namespace: namespace.to_string(), name: name.to_string() }
}

#[test]
fn resolve_gives_the_same_identity_for_the_same_name() {
    let state = AppState::new();
    assert_eq!(state.resolve("chat_room_1"), state.resolve("chat_room_1"));
    assert_eq!(state.resolve("chat_room_1"), AppState::new().resolve("chat_room_1"));
    assert_eq!(state.resolve("chat_room_1"), identity("CHATROOM", "chat_room_1"));
}

#[test]
fn resolve_tells_names_apart() {
    let state = AppState::new();
    assert_ne!(state.resolve("chat_room_1"), state.resolve("chat_room_2"));
    assert_ne!(state.resolve(""), state.resolve(" "));
}

#[test]
fn every_path_goes_to_the_one_room() {
    let state = AppState::new();
    for path in ["add", "websocket", "", "a/b", "chat_room_2"] {
        assert_eq!(get_durable(&state, path).identity, identity("CHATROOM", "chat_room_1"));
    }
}

#[test]
fn the_path_is_forwarded_as_it_came() {
    let state = AppState::new();
    assert_eq!(get_durable(&state, "add").url, "http://example.com/add");
    assert_eq!(get_durable(&state, "websocket").url, "http://example.com/websocket");
    assert_eq!(get_durable(&state, "").url, "http://example.com/");
    assert_eq!(get_durable(&state, "a/b?c=d").url, "http://example.com/a/b?c=d");
}

#[test]
fn the_answer_is_passed_through_unchanged() {
    let answer = Response { status: 418, body: "Hello: [1]".to_string() };
    let forwarded: Result<Response, String> = Ok(answer.clone());
    assert_eq!(pass_through(forwarded), Ok(answer));
    let upgrade: Result<(u16, Vec<u8>), ()> = Ok((101, vec![1, 2, 3]));
    assert_eq!(pass_through(upgrade), Ok((101, vec![1, 2, 3])));
}

#[test]
fn a_room_that_cannot_be_reached_fails_the_request() {
    let no_handle: Result<Response, String> = Err("no such binding".to_string());
    assert_eq!(pass_through(no_handle), Err(ActorError::ActorUnreachable));
    let other: Result<Response, ActorError> = Err(ActorError::StorageUnavailable);
    assert_eq!(pass_through(other), Err(ActorError::ActorUnreachable));
}

#[test]
fn ok_has_status_200() {
    assert_eq!(STATUS_OK, 200);
    assert_eq!(
        Response::ok("body".to_string()),
        Response { status: 200, body: "body".to_string() }
    );
}

#[test]
fn switching_protocols_has_status_101_and_no_body() {
    assert_eq!(STATUS_SWITCHING_PROTOCOLS, 101);
    assert_eq!(Response::switching_protocols(), Response { status: 101, body: String::new() });
}
