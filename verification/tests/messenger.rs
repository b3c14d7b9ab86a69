use syggrel_chat::messenger::{frame_message, MessengerError, YggdrasilMessenger};

#[test]
fn send_on_never_connected_messenger_is_not_connected() {
    // Scenario: `send` without any connection fails immediately.
    let mut messenger = YggdrasilMessenger::new();
    let sent = messenger.send_message("hello".to_string());
    assert_eq!(sent, Err(MessengerError::NotConnected));
}

#[test]
fn queueing_without_a_connection_fails_too() {
    let mut messenger = YggdrasilMessenger::new();
    let sent = messenger.queue_network_message("hello".to_string());
    assert_eq!(sent, Err(MessengerError::NotConnected));
}

#[test]
fn disconnect_when_already_disconnected_succeeds() {
    let mut messenger = YggdrasilMessenger::new();
    assert!(messenger.disconnect().is_ok());
    assert!(messenger.disconnect().is_ok());
}

#[test]
fn connected_messenger_queues_in_order() {
    let mut messenger = YggdrasilMessenger::new();
    messenger.complete_connect();
    assert!(messenger.send_message("first".to_string()).is_ok());
    assert!(messenger.queue_network_message("second".to_string()).is_ok());
    assert_eq!(messenger.next_outbound(), Some("first".to_string()));
    assert_eq!(messenger.next_outbound(), Some("second".to_string()));
    assert_eq!(messenger.next_outbound(), None);
}

#[test]
fn disconnect_discards_the_outbound_queue() {
    let mut messenger = YggdrasilMessenger::new();
    messenger.complete_connect();
    messenger.send_message("never written".to_string()).unwrap();
    assert!(messenger.disconnect().is_ok());
    assert_eq!(messenger.next_outbound(), None);
    let sent = messenger.send_message("after teardown".to_string());
    assert_eq!(sent, Err(MessengerError::NotConnected));
}

#[test]
fn task_death_surfaces_as_not_connected() {
    let mut messenger = YggdrasilMessenger::new();
    messenger.complete_connect();
    messenger.note_task_ended();
    let sent = messenger.send_message("into the void".to_string());
    assert_eq!(sent, Err(MessengerError::NotConnected));
}

#[test]
fn inbound_lines_arrive_with_delimiters_stripped() {
    let mut messenger = YggdrasilMessenger::new();
    messenger.complete_connect();
    messenger.handle_inbound_line("hello\r\n".to_string());
    messenger.handle_inbound_line("world\n".to_string());
    messenger.handle_inbound_line("bare".to_string());
    let received = messenger.receive_messages(2);
    assert_eq!(received, vec!["hello".to_string(), "world".to_string()]);
    let rest = messenger.receive_messages(10);
    assert_eq!(rest, vec!["bare".to_string()]);
}

#[test]
fn receive_on_empty_buffer_is_empty() {
    let mut messenger = YggdrasilMessenger::new();
    assert!(messenger.receive_messages(5).is_empty());
}

#[test]
fn frames_end_with_a_single_newline() {
    assert_eq!(frame_message("hi"), b"hi\n".to_vec());
    assert_eq!(frame_message(""), b"\n".to_vec());
    assert_eq!(frame_message("héllo"), "héllo\n".as_bytes().to_vec());
}
