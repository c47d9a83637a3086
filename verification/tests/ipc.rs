use moonlight_web::ipc::{
    frame_record, IpcReceiver, IpcSender, LineBuffer, LineRead, Parsed, RecvStep,
    IPC_QUEUE_CAPACITY,
};

#[test]
fn queue_holds_ten_messages() {
    assert_eq!(IPC_QUEUE_CAPACITY, 10);
}

#[test]
fn record_ends_with_newline() {
    assert_eq!(frame_record("{\"a\":1}"), b"{\"a\":1}\n".to_vec());
    assert_eq!(frame_record(""), b"\n".to_vec());
}

#[test]
fn sender_writes_until_a_write_fails() {
    let mut sender = IpcSender::new();
    assert!(!sender.is_terminated());
    assert_eq!(sender.send(Some("\"Stop\"")), Some(b"\"Stop\"\n".to_vec()));
    // A message that has no text is dropped, and the sender goes on.
    assert_eq!(sender.send(None), None);
    sender.on_written(true);
    assert!(!sender.is_terminated());
    assert_eq!(sender.send(Some("1")), Some(b"1\n".to_vec()));
    sender.on_written(false);
    assert!(sender.is_terminated());
    assert_eq!(sender.send(Some("2")), None);
    sender.on_written(true);
    assert!(sender.is_terminated());
}

#[test]
fn receiver_ends_for_good_after_a_failure() {
    let mut receiver = IpcReceiver::new();
    assert!(!receiver.is_errored());
    assert_eq!(
        receiver.recv(LineRead::Line("x".to_string())),
        RecvStep::Parse("x".to_string())
    );
    assert_eq!(receiver.recv(LineRead::End), RecvStep::End);
    assert!(!receiver.is_errored());
    assert_eq!(receiver.recv(LineRead::Failed), RecvStep::End);
    assert!(receiver.is_errored());
    assert_eq!(receiver.recv(LineRead::Line("y".to_string())), RecvStep::End);
    assert!(receiver.is_errored());
}

#[test]
fn buffer_hands_out_whole_records_only() {
    let mut buffer = LineBuffer::new();
    assert_eq!(buffer.next_record(), None);
    buffer.push(b"{\"a\"");
    assert_eq!(buffer.next_record(), None);
    buffer.push(b":1}\n\"Stop\"\nrest");
    assert_eq!(buffer.next_record(), Some(b"{\"a\":1}".to_vec()));
    assert_eq!(buffer.next_record(), Some(b"\"Stop\"".to_vec()));
    assert_eq!(buffer.next_record(), None);
    buffer.push(b"\n\n");
    assert_eq!(buffer.next_record(), Some(b"rest".to_vec()));
    assert_eq!(buffer.next_record(), Some(Vec::new()));
    assert_eq!(buffer.next_record(), None);
}

#[test]
fn framed_record_comes_back_out() {
    let mut buffer = LineBuffer::new();
    buffer.push(&frame_record("{\"PeerReady\":{\"peer_id\":3}}"));
    assert_eq!(buffer.next_record(), Some(b"{\"PeerReady\":{\"peer_id\":3}}".to_vec()));
    assert_eq!(buffer.next_record(), None);
}

#[test]
fn line_that_is_no_message_is_skipped() {
    let mut receiver = IpcReceiver::new();
    // The first line is no message: the next line is asked for.
    assert_eq!(
        receiver.recv(LineRead::Line("not json".to_string())),
        RecvStep::Parse("not json".to_string())
    );
    assert_eq!(receiver.on_parsed(None::<u32>), Parsed::ReadNext);
    assert!(!receiver.is_errored());
    // The second line is a message, and the stream stays usable after it.
    assert_eq!(receiver.recv(LineRead::Line("7".to_string())), RecvStep::Parse("7".to_string()));
    assert_eq!(receiver.on_parsed(Some(7u32)), Parsed::Message(7));
    assert!(!receiver.is_errored());
    assert_eq!(receiver.recv(LineRead::End), RecvStep::End);
}
