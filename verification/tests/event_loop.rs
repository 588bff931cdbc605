use futures_from_scratch::event_loop::{
    AsyncClientHandler, AsyncTcpListener, ClientIo, EventLoop, ListenerIo, State,
};

#[test]
fn new_client_waits_for_a_request() {
    let client = AsyncClientHandler::new(7);
    assert_eq!(client.id(), 7);
    assert_eq!(client.state(), State::WaitingRead);
}

#[test]
fn readable_event_schedules_a_waiting_client() {
    let mut client = AsyncClientHandler::new(7);
    let mut tasks = vec![1];
    client.event(true, false, &mut tasks);
    assert_eq!(client.state(), State::Reading);
    assert_eq!(tasks, vec![1, 7]);
}

#[test]
fn writable_event_does_not_schedule_a_client_that_waits_to_read() {
    let mut client = AsyncClientHandler::new(7);
    let mut tasks = Vec::new();
    client.event(false, true, &mut tasks);
    assert_eq!(client.state(), State::WaitingRead);
    assert!(tasks.is_empty());
}

#[test]
fn idle_client_asks_for_nothing() {
    let mut client = AsyncClientHandler::new(7);
    assert_eq!(client.poll(), ClientIo::Idle);
    assert_eq!(client.state(), State::WaitingRead);
}

#[test]
fn client_serves_a_request_and_waits_for_the_next() {
    let mut client = AsyncClientHandler::new(3);
    let mut tasks = Vec::new();
    client.event(true, false, &mut tasks);
    assert_eq!(client.poll(), ClientIo::Read);
    assert_eq!(client.state(), State::Reading);
    assert!(!client.read_done(Some(String::from("ok\n"))));
    assert_eq!(client.state(), State::WaitingWrite);
    assert_eq!(client.poll(), ClientIo::Idle);

    client.event(true, false, &mut tasks);
    assert_eq!(client.state(), State::WaitingWrite);
    assert_eq!(tasks, vec![3]);

    client.event(false, true, &mut tasks);
    assert_eq!(client.state(), State::Writing);
    assert_eq!(tasks, vec![3, 3]);
    assert_eq!(client.poll(), ClientIo::Write(String::from("ok\n")));
    assert_eq!(client.state(), State::WaitingRead);
    assert_eq!(client.poll(), ClientIo::Idle);
}

#[test]
fn client_finishes_when_the_peer_closes() {
    let mut client = AsyncClientHandler::new(3);
    let mut tasks = Vec::new();
    client.event(true, false, &mut tasks);
    assert_eq!(client.poll(), ClientIo::Read);
    assert!(client.read_done(None));
    assert_eq!(client.state(), State::Finished);
    client.event(true, true, &mut tasks);
    assert_eq!(client.state(), State::Finished);
    assert_eq!(tasks, vec![3]);
    assert_eq!(client.poll(), ClientIo::Idle);
}

#[test]
fn new_listener_asks_to_listen_and_then_waits() {
    let mut listener: AsyncTcpListener<&str> = AsyncTcpListener::new(4);
    assert_eq!(listener.id(), 4);
    assert!(!listener.event(true));
    assert_eq!(listener.poll(), ListenerIo::Listen);
    assert_eq!(listener.poll(), ListenerIo::Idle);
    assert!(listener.event(true));
    assert!(!listener.event(false));
}

#[test]
fn listener_hands_on_an_accepted_connection() {
    let mut listener: AsyncTcpListener<&str> = AsyncTcpListener::new(4);
    let mut tasks = Vec::new();
    assert_eq!(listener.poll(), ListenerIo::Listen);
    assert!(listener.event(true));
    listener.accepted("connection", &mut tasks);
    assert_eq!(tasks, vec![4]);
    assert!(!listener.event(true));
    assert_eq!(listener.poll(), ListenerIo::Serve("connection"));
    assert_eq!(listener.poll(), ListenerIo::Idle);
    assert!(listener.event(true));
}

#[test]
fn registered_handler_is_scheduled() {
    let mut event_loop: EventLoop<&str> = EventLoop::new();
    assert_eq!(event_loop.next_task(), None);
    event_loop.register(4, "listener");
    assert_eq!(event_loop.next_task(), Some(4));
    assert_eq!(event_loop.next_task(), None);
    assert_eq!(event_loop.take_handler(4), Some("listener"));
    assert_eq!(event_loop.take_handler(4), None);
}

#[test]
fn task_scheduled_last_runs_first() {
    let mut event_loop: EventLoop<&str> = EventLoop::new();
    event_loop.schedule(&vec![1, 2, 3]);
    assert_eq!(event_loop.next_task(), Some(3));
    assert_eq!(event_loop.next_task(), Some(2));
    assert_eq!(event_loop.next_task(), Some(1));
    assert_eq!(event_loop.next_task(), None);
}

#[test]
fn handler_lent_out_comes_back() {
    let mut event_loop: EventLoop<String> = EventLoop::new();
    event_loop.register(1, String::from("a"));
    let mut handler = event_loop.take_handler(1).unwrap();
    handler.push('b');
    event_loop.put_handler(1, handler);
    assert_eq!(event_loop.take_handler(1), Some(String::from("ab")));
}

#[test]
fn queued_handlers_are_enrolled_without_being_scheduled() {
    let mut event_loop: EventLoop<&str> = EventLoop::new();
    event_loop.enroll(vec![(5, "first"), (6, "six"), (5, "second")]);
    assert_eq!(event_loop.next_task(), None);
    assert_eq!(event_loop.take_handler(5), Some("first"));
    assert_eq!(event_loop.take_handler(6), Some("six"));
}

#[test]
fn retired_handlers_leave_the_loop() {
    let mut event_loop: EventLoop<&str> = EventLoop::new();
    event_loop.register(1, "a");
    event_loop.register(2, "b");
    event_loop.register(3, "c");
    event_loop.retire(&vec![3, 1, 9, 3]);
    assert_eq!(event_loop.take_handler(1), None);
    assert_eq!(event_loop.take_handler(2), Some("b"));
    assert_eq!(event_loop.take_handler(3), None);
    assert_eq!(event_loop.next_task(), Some(3));
}
