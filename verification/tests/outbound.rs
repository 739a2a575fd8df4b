use nvim_event_logger::outbound::{Outbound, SendError};

#[test]
fn whole_frame_in_one_write() {
    let mut out = Outbound::new(vec![1, 2, 3, 4]);
    assert_eq!(out.pending(), &[1, 2, 3, 4]);
    assert!(!out.is_complete());
    assert_eq!(out.record(4), Ok(true));
    assert!(out.is_complete());
    assert_eq!(out.pending(), &[] as &[u8]);
}

#[test]
fn partial_writes_offer_the_rest_in_order() {
    let mut out = Outbound::new(vec![10, 20, 30, 40, 50]);
    assert_eq!(out.record(2), Ok(false));
    assert_eq!(out.pending(), &[30, 40, 50]);
    assert_eq!(out.record(1), Ok(false));
    assert_eq!(out.pending(), &[40, 50]);
    assert_eq!(out.record(2), Ok(true));
    assert!(out.is_complete());
}

#[test]
fn bytes_reach_the_transport_in_the_order_of_the_frame() {
    let frame: Vec<u8> = (0u8..200).collect();
    let mut out = Outbound::new(frame.clone());
    let mut accepted: Vec<u8> = Vec::new();
    let mut share: usize = 1;
    while !out.is_complete() {
        let offered: Vec<u8> = out.pending().to_vec();
        let taken: usize = share.min(offered.len());
        accepted.extend_from_slice(&offered[..taken]);
        assert!(out.record(taken as isize).is_ok());
        share += 3;
    }
    assert_eq!(accepted, frame);
}

#[test]
fn failed_write_is_reported_and_changes_nothing() {
    let mut out = Outbound::new(vec![1, 2, 3]);
    assert_eq!(out.record(1), Ok(false));
    assert_eq!(out.record(-1), Err(SendError::WriteFailed));
    assert_eq!(out.pending(), &[2, 3]);
    assert_eq!(out.record(isize::MIN), Err(SendError::WriteFailed));
    assert_eq!(out.pending(), &[2, 3]);
}

#[test]
fn write_of_nothing_is_no_progress() {
    let mut out = Outbound::new(vec![1, 2, 3]);
    assert_eq!(out.record(0), Err(SendError::NoProgress));
    assert_eq!(out.pending(), &[1, 2, 3]);
}

#[test]
fn write_beyond_the_offer_is_an_overrun() {
    let mut out = Outbound::new(vec![1, 2, 3]);
    assert_eq!(out.record(4), Err(SendError::Overrun));
    assert_eq!(out.pending(), &[1, 2, 3]);
    assert_eq!(out.record(isize::MAX), Err(SendError::Overrun));
    assert_eq!(out.record(3), Ok(true));
    assert_eq!(out.record(1), Err(SendError::Overrun));
}

#[test]
fn empty_frame_is_complete_at_once() {
    let mut out = Outbound::new(Vec::new());
    assert!(out.is_complete());
    assert_eq!(out.pending(), &[] as &[u8]);
    assert_eq!(out.record(0), Ok(true));
    assert_eq!(out.record(-1), Err(SendError::WriteFailed));
}
