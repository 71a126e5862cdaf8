use winforge::ipc_message::{MessageReader, ReadEvent, ReadFailure, ReadStep, MAX_MESSAGE_SIZE};
use winforge::ipc_server::{connect_step, start, ConnectStep, IpcServerStart, PipeOpen, PIPE_BUSY_RETRY_MS};

#[test]
fn chunks_are_joined_into_one_command() {
    let mut reader = MessageReader::new();
    assert_eq!(reader.step(ReadEvent::Data(b"{\"cmd_name\":".to_vec())), ReadStep::ReadMore);
    assert_eq!(reader.step(ReadEvent::Data(b"\"pdfToJpg\"}".to_vec())), ReadStep::ReadMore);
    assert_eq!(reader.len(), 23);
    assert_eq!(
        reader.step(ReadEvent::EndOfStream),
        ReadStep::Received("{\"cmd_name\":\"pdfToJpg\"}".to_string())
    );
    assert_eq!(reader.len(), 0);
}

#[test]
fn empty_message_is_ignored() {
    let mut reader = MessageReader::new();
    assert_eq!(reader.step(ReadEvent::EndOfStream), ReadStep::Ignored);
}

#[test]
fn empty_read_keeps_reading() {
    let mut reader = MessageReader::new();
    assert_eq!(reader.step(ReadEvent::Data(Vec::new())), ReadStep::ReadMore);
    assert_eq!(reader.step(ReadEvent::EndOfStream), ReadStep::Ignored);
}

#[test]
fn message_of_exactly_the_limit_is_accepted() {
    let mut reader = MessageReader::new();
    let chunk = vec![b'a'; 4096];
    for _ in 0..(MAX_MESSAGE_SIZE / 4096) {
        assert_eq!(reader.step(ReadEvent::Data(chunk.clone())), ReadStep::ReadMore);
    }
    assert_eq!(reader.len(), MAX_MESSAGE_SIZE);
    match reader.step(ReadEvent::EndOfStream) {
        ReadStep::Received(text) => assert_eq!(text.len(), 1048576),
        other => panic!("unexpected step {:?}", other),
    }
}

#[test]
fn message_over_the_limit_is_rejected() {
    let mut reader = MessageReader::new();
    assert_eq!(reader.step(ReadEvent::Data(vec![b'a'; MAX_MESSAGE_SIZE - 1])), ReadStep::ReadMore);
    assert_eq!(
        reader.step(ReadEvent::Data(vec![b'b'; 2])),
        ReadStep::Rejected(ReadFailure::TooLarge)
    );
    assert_eq!(reader.len(), MAX_MESSAGE_SIZE - 1);
}

#[test]
fn invalid_utf8_is_rejected() {
    let mut reader = MessageReader::new();
    assert_eq!(reader.step(ReadEvent::Data(vec![0x68, 0xff, 0x69])), ReadStep::ReadMore);
    assert_eq!(reader.step(ReadEvent::EndOfStream), ReadStep::Rejected(ReadFailure::InvalidUtf8));
}

#[test]
fn multibyte_text_is_decoded() {
    let mut reader = MessageReader::new();
    let bytes = "é€".as_bytes().to_vec();
    assert_eq!(reader.step(ReadEvent::Data(bytes[..2].to_vec())), ReadStep::ReadMore);
    assert_eq!(reader.step(ReadEvent::Data(bytes[2..].to_vec())), ReadStep::ReadMore);
    assert_eq!(reader.step(ReadEvent::EndOfStream), ReadStep::Received("é€".to_string()));
}

#[test]
fn read_error_and_timeout_are_rejected() {
    let mut reader = MessageReader::new();
    assert_eq!(
        reader.step(ReadEvent::Failed("broken pipe".to_string())),
        ReadStep::Rejected(ReadFailure::Io("broken pipe".to_string()))
    );
    assert_eq!(reader.step(ReadEvent::TimedOut), ReadStep::Rejected(ReadFailure::TimedOut));
}

#[test]
fn server_starts_only_once() {
    let mut state = IpcServerStart::new();
    assert!(start(&mut state));
    assert!(!start(&mut state));
    assert!(!start(&mut state));
}

#[test]
fn many_starts_launch_once() {
    let mut state = IpcServerStart::new();
    let launches: Vec<bool> = (0..50).map(|_| start(&mut state)).collect();
    assert_eq!(launches.iter().filter(|l| **l).count(), 1);
    assert!(launches[0]);
}

#[test]
fn busy_pipes_are_retried() {
    assert_eq!(connect_step(PipeOpen::Opened), ConnectStep::Connected);
    assert_eq!(connect_step(PipeOpen::Busy), ConnectStep::RetryAfterMs(100));
    assert_eq!(PIPE_BUSY_RETRY_MS, 100);
    assert_eq!(connect_step(PipeOpen::Failed), ConnectStep::GiveUp);
}
