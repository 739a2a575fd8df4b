use nvim_event_logger::channel::{
    open_duplex_channel, ChannelError, DuplexChannel, Ends, PipePair,
};

#[test]
fn successful_pipe_call_gives_a_pair() {
    assert_eq!(PipePair::from_syscall(0, 3, 4), Ok(PipePair { read_end: 3, write_end: 4 }));
    assert_eq!(PipePair::from_syscall(0, 0, 1), Ok(PipePair { read_end: 0, write_end: 1 }));
}

#[test]
fn failed_pipe_call_gives_no_pair() {
    assert_eq!(PipePair::from_syscall(-1, 0, 0), Err(ChannelError::CreationFailed));
    assert_eq!(PipePair::from_syscall(-1, 3, 4), Err(ChannelError::CreationFailed));
    assert_eq!(PipePair::from_syscall(1, 3, 4), Err(ChannelError::CreationFailed));
}

#[test]
fn handles_that_are_no_pipe_are_refused() {
    assert_eq!(PipePair::from_syscall(0, 3, 3), Err(ChannelError::BadHandles));
    assert_eq!(PipePair::from_syscall(0, -1, 4), Err(ChannelError::BadHandles));
    assert_eq!(PipePair::from_syscall(0, 3, -1), Err(ChannelError::BadHandles));
    assert_eq!(PipePair::from_syscall(0, i32::MIN, i32::MAX), Err(ChannelError::BadHandles));
}

#[test]
fn pair_validity() {
    assert!(PipePair { read_end: 5, write_end: 6 }.is_valid());
    assert!(PipePair { read_end: 6, write_end: 5 }.is_valid());
    assert!(!PipePair { read_end: 5, write_end: 5 }.is_valid());
    assert!(!PipePair { read_end: -5, write_end: 6 }.is_valid());
}

#[test]
fn two_pipes_make_a_channel() {
    let to_editor = PipePair::from_syscall(0, 3, 4);
    let to_logger = PipePair::from_syscall(0, 5, 6);
    let channel = open_duplex_channel(to_editor, to_logger).unwrap();
    assert_eq!(
        channel,
        DuplexChannel {
            to_editor: PipePair { read_end: 3, write_end: 4 },
            to_logger: PipePair { read_end: 5, write_end: 6 },
        }
    );
    assert!(channel.is_valid());
}

#[test]
fn each_party_gets_the_complementary_ends() {
    let channel = open_duplex_channel(
        PipePair::from_syscall(0, 3, 4),
        PipePair::from_syscall(0, 5, 6),
    )
    .unwrap();
    assert_eq!(channel.logger_ends(), Ends { read_end: 5, write_end: 4 });
    assert_eq!(channel.editor_ends(), Ends { read_end: 3, write_end: 6 });
}

#[test]
fn first_fault_is_handed_on() {
    let good = PipePair::from_syscall(0, 3, 4);
    let failed = PipePair::from_syscall(-1, 0, 0);
    let bad = PipePair::from_syscall(0, 7, 7);
    assert_eq!(open_duplex_channel(failed, good), Err(ChannelError::CreationFailed));
    assert_eq!(open_duplex_channel(good, failed), Err(ChannelError::CreationFailed));
    assert_eq!(open_duplex_channel(failed, bad), Err(ChannelError::CreationFailed));
    assert_eq!(open_duplex_channel(bad, failed), Err(ChannelError::BadHandles));
    assert_eq!(open_duplex_channel(bad, good), Err(ChannelError::BadHandles));
}

#[test]
fn pipes_that_share_a_handle_make_no_channel() {
    let first = PipePair::from_syscall(0, 3, 4);
    for (read_end, write_end) in [(3, 5), (5, 3), (4, 5), (5, 4), (3, 4), (4, 3)] {
        let second = PipePair::from_syscall(0, read_end, write_end);
        assert_eq!(open_duplex_channel(first, second), Err(ChannelError::BadHandles));
    }
    assert!(!DuplexChannel {
        to_editor: PipePair { read_end: 3, write_end: 4 },
        to_logger: PipePair { read_end: 4, write_end: 5 },
    }
    .is_valid());
}
