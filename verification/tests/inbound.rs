use nvim_event_logger::inbound::{
    log_line, receive_message, FrameBuffer, Message, DEFAULT_LOG_PATH, READ_CHUNK,
};

#[test]
fn read_of_zero_bytes_is_end_of_stream() {
    let buffer = [0u8; 8];
    assert_eq!(receive_message(0, &buffer), None);
}

#[test]
fn failed_read_is_end_of_stream() {
    let buffer = [7u8; 8];
    assert_eq!(receive_message(-1, &buffer), None);
    assert_eq!(receive_message(isize::MIN, &buffer), None);
}

#[test]
fn positive_read_is_never_end_of_stream() {
    let buffer: Vec<u8> = (1u8..=8).collect();
    for count in 1isize..=8 {
        let chunk = receive_message(count, &buffer);
        assert_eq!(chunk, Some(buffer[..count as usize].to_vec()));
    }
}

#[test]
fn receive_message_takes_only_what_was_read() {
    let mut buffer = [0u8; READ_CHUNK];
    buffer[0] = 0x93;
    buffer[1] = 0x01;
    buffer[2] = 0x02;
    assert_eq!(receive_message(2, &buffer), Some(vec![0x93, 0x01]));
    assert_eq!(receive_message(READ_CHUNK as isize, &buffer).unwrap().len(), 1024);
}

#[test]
fn read_chunk_is_1024_bytes() {
    assert_eq!(READ_CHUNK, 1024);
}

#[test]
fn default_log_path() {
    assert_eq!(DEFAULT_LOG_PATH, "events.log");
}

#[test]
fn frame_buffer_starts_empty() {
    let buffer = FrameBuffer::new();
    assert!(buffer.is_empty());
    assert_eq!(buffer.len(), 0);
    assert_eq!(buffer.held(), &[] as &[u8]);
}

#[test]
fn frame_buffer_keeps_arrival_order() {
    let mut buffer = FrameBuffer::new();
    buffer.extend(&[1, 2, 3]);
    buffer.extend(&[]);
    buffer.extend(&[4, 5]);
    assert_eq!(buffer.held(), &[1, 2, 3, 4, 5]);
    assert_eq!(buffer.len(), 5);
    buffer.consume(2);
    assert_eq!(buffer.held(), &[3, 4, 5]);
    buffer.extend(&[6]);
    assert_eq!(buffer.held(), &[3, 4, 5, 6]);
    buffer.consume(0);
    assert_eq!(buffer.held(), &[3, 4, 5, 6]);
    buffer.consume(4);
    assert!(buffer.is_empty());
}

#[test]
fn non_empty_message_gives_one_line() {
    let message = Message { fields: 3, text: "[2, \"bufread\", [\"a.txt\"]]".to_string() };
    assert_eq!(log_line(&message), Some("[2, \"bufread\", [\"a.txt\"]]\n".to_string()));
}

#[test]
fn message_with_one_field_is_logged() {
    let message = Message { fields: 1, text: "[Nil]".to_string() };
    let line = log_line(&message).unwrap();
    assert_eq!(line, "[Nil]\n");
    assert_eq!(line.matches('\n').count(), 1);
    assert!(line.ends_with('\n'));
}

#[test]
fn empty_message_gives_no_line() {
    let message = Message { fields: 0, text: "[]".to_string() };
    assert_eq!(log_line(&message), None);
}

#[test]
fn line_of_an_empty_text_is_a_bare_newline() {
    let message = Message { fields: usize::MAX, text: String::new() };
    assert_eq!(log_line(&message), Some("\n".to_string()));
}

#[test]
fn line_keeps_text_that_is_not_ascii() {
    let message = Message { fields: 2, text: "[\"héllo\", \"日本\"]".to_string() };
    assert_eq!(log_line(&message), Some("[\"héllo\", \"日本\"]\n".to_string()));
}
