use simple_stream::error::FrameError;
use simple_stream::frame::encode_frame;
use simple_stream::frame::MAX_PAYLOAD_LEN;
use simple_stream::framer::Framer;

/// Drives a `Framer` the way a blocking transport loop does: each delivery
/// hands over at most `wanted()` bytes of whatever the wire has pending.
/// Returns the first complete frame, with the number of transport reads it
/// took, or the error the read surfaced.
fn blocking_read(framer: &mut Framer, chunks: &[&[u8]]) -> Result<(Vec<u8>, usize), FrameError> {
    let mut pending: Vec<u8> = Vec::new();
    let mut queue: Vec<Vec<u8>> = chunks.iter().map(|c| c.to_vec()).collect();
    queue.reverse();
    let mut reads = 0usize;
    loop {
        let wanted = framer.wanted() as usize;
        while pending.is_empty() {
            match queue.pop() {
                Some(c) => pending = c,
                None => break,
            }
        }
        let take = wanted.min(pending.len());
        let delivered: Vec<u8> = pending.drain(..take).collect();
        reads += 1;
        match framer.read_step(&delivered) {
            Ok(Some(frame)) => return Ok((frame, reads)),
            Ok(None) => continue,
            Err(e) => return Err(e),
        }
    }
}

#[test]
fn hello_wire_bytes() {
    let payload = vec![104u8, 101, 108, 108, 111];
    let wire = encode_frame(&payload).unwrap();
    assert_eq!(wire, vec![0x00u8, 0x05, 104, 101, 108, 108, 111]);
}

#[test]
fn empty_wire_bytes() {
    let wire = encode_frame(&Vec::new()).unwrap();
    assert_eq!(wire, vec![0x00u8, 0x00]);
}

#[test]
fn hello_round_trip() {
    let payload = vec![104u8, 101, 108, 108, 111];
    let wire = encode_frame(&payload).unwrap();
    let mut framer = Framer::new();
    let (frame, _) = blocking_read(&mut framer, &[&wire]).unwrap();
    assert_eq!(frame, payload);
}

#[test]
fn empty_round_trip() {
    let wire = encode_frame(&Vec::new()).unwrap();
    let mut framer = Framer::new();
    let (frame, _) = blocking_read(&mut framer, &[&wire]).unwrap();
    assert_eq!(frame, Vec::<u8>::new());
}

#[test]
fn max_payload_round_trip() {
    let payload: Vec<u8> = (0..MAX_PAYLOAD_LEN).map(|i| (i % 251) as u8).collect();
    let wire = encode_frame(&payload).unwrap();
    assert_eq!(wire.len(), MAX_PAYLOAD_LEN + 2);
    assert_eq!(wire[0], 0xFF);
    assert_eq!(wire[1], 0xFF);
    let mut framer = Framer::new();
    let (frame, _) = blocking_read(&mut framer, &[&wire]).unwrap();
    assert_eq!(frame, payload);
}

#[test]
fn one_past_max_is_rejected() {
    let payload = vec![7u8; MAX_PAYLOAD_LEN + 1];
    assert_eq!(encode_frame(&payload), Err(FrameError::PayloadTooLarge));
}

#[test]
fn oversize_payload_is_rejected_before_any_byte() {
    let payload = vec![42u8; 70000];
    assert_eq!(encode_frame(&payload), Err(FrameError::PayloadTooLarge));
}

#[test]
fn fragmented_delivery_in_chunks_of_1_2_4() {
    let payload = vec![104u8, 101, 108, 108, 111];
    let wire = encode_frame(&payload).unwrap();
    assert_eq!(wire.len(), 7);
    let chunks: [&[u8]; 3] = [&wire[0..1], &wire[1..3], &wire[3..7]];
    let mut framer = Framer::new();
    let (frame, reads) = blocking_read(&mut framer, &chunks).unwrap();
    assert_eq!(frame, payload);
    assert!(reads > 1);
    // Exactly once: the machine is back at a fresh prefix, nothing queued.
    assert_eq!(framer.wanted(), 2);
    assert!(framer.drain_frames().is_empty());
}

#[test]
fn byte_at_a_time_delivery() {
    let payload = vec![9u8, 8, 7];
    let wire = encode_frame(&payload).unwrap();
    let chunks: Vec<&[u8]> = wire.chunks(1).collect();
    let mut framer = Framer::new();
    let (frame, reads) = blocking_read(&mut framer, &chunks).unwrap();
    assert_eq!(frame, payload);
    assert_eq!(reads, wire.len());
}

#[test]
fn close_after_one_prefix_byte_reports_closed() {
    let mut framer = Framer::new();
    assert_eq!(framer.read_step(&vec![0u8]), Ok(None));
    // The transport now reports closure: zero bytes delivered.
    assert_eq!(framer.read_step(&Vec::new()), Err(FrameError::ConnectionClosed));
}

#[test]
fn close_on_fresh_stream_reports_closed() {
    let mut framer = Framer::new();
    assert_eq!(framer.read_step(&Vec::new()), Err(FrameError::ConnectionClosed));
}

#[test]
fn close_mid_payload_reports_closed() {
    let mut framer = Framer::new();
    assert_eq!(framer.read_step(&vec![0u8, 4u8]), Ok(None));
    assert_eq!(framer.read_step(&vec![1u8, 2u8]), Ok(None));
    assert_eq!(framer.read_step(&Vec::new()), Err(FrameError::ConnectionClosed));
}

#[test]
fn several_frames_from_one_delivery() {
    // Non-blocking style: feed whatever arrived, drain all completed frames.
    let mut wire = encode_frame(&vec![7u8]).unwrap();
    wire.extend(encode_frame(&vec![8u8, 9u8]).unwrap());
    wire.extend(encode_frame(&Vec::new()).unwrap());
    let mut framer = Framer::new();
    framer.feed(&wire);
    let frames = framer.drain_frames();
    assert_eq!(frames, vec![vec![7u8], vec![8u8, 9u8], Vec::<u8>::new()]);
    assert!(framer.drain_frames().is_empty());
}

#[test]
fn partial_trailing_frame_stays_buffered() {
    let mut wire = encode_frame(&vec![1u8, 2u8]).unwrap();
    wire.extend_from_slice(&[0u8, 3u8, 10u8]); // prefix + 1 of 3 payload bytes
    let mut framer = Framer::new();
    framer.feed(&wire);
    let frames = framer.drain_frames();
    assert_eq!(frames, vec![vec![1u8, 2u8]]);
    // The machine still needs the 2 missing payload bytes.
    assert_eq!(framer.wanted(), 2);
    framer.feed(&vec![11u8, 12u8]);
    assert_eq!(framer.drain_frames(), vec![vec![10u8, 11u8, 12u8]]);
}

#[test]
fn wanted_tracks_the_current_phase() {
    let mut framer = Framer::new();
    assert_eq!(framer.wanted(), 2);
    framer.feed(&vec![0u8]);
    assert_eq!(framer.wanted(), 1);
    framer.feed(&vec![3u8]);
    assert_eq!(framer.wanted(), 3);
    framer.feed(&vec![5u8, 6u8]);
    assert_eq!(framer.wanted(), 1);
    framer.feed(&vec![7u8]);
    assert_eq!(framer.wanted(), 2);
    assert_eq!(framer.drain_frames(), vec![vec![5u8, 6u8, 7u8]]);
}

#[test]
fn duplicates_have_independent_framing_state() {
    // One connection, two framers: a writer-side and a reader-side machine.
    // Advancing one never moves the other.
    let mut reader = Framer::new();
    let mut writer_side = Framer::new();
    reader.feed(&vec![0u8, 2u8, 1u8]);
    assert_eq!(reader.wanted(), 1);
    assert_eq!(writer_side.wanted(), 2);
    writer_side.feed(&encode_frame(&vec![9u8]).unwrap());
    assert_eq!(writer_side.drain_frames(), vec![vec![9u8]]);
    assert_eq!(reader.wanted(), 1);
    assert!(reader.drain_frames().is_empty());
}
