use simple_stream::buffer::FrameBuffer;

#[test]
fn fresh_buffer_expects_a_length_prefix() {
    let buf = FrameBuffer::new();
    assert_eq!(buf.remaining(), 2);
    assert!(buf.current().is_empty());
}

#[test]
fn push_fills_toward_the_target() {
    let mut buf = FrameBuffer::new();
    buf.push(0x01);
    assert_eq!(buf.remaining(), 1);
    assert_eq!(buf.current(), &vec![0x01u8]);
    buf.push(0x2C);
    assert_eq!(buf.remaining(), 0);
    assert_eq!(buf.current(), &vec![0x01u8, 0x2C]);
}

#[test]
fn decode_len_is_big_endian() {
    let mut buf = FrameBuffer::new();
    buf.push(0x01);
    buf.push(0x2C);
    assert_eq!(buf.decode_len(), 300);
}

#[test]
fn decode_len_extremes() {
    let mut buf = FrameBuffer::new();
    buf.push(0x00);
    buf.push(0x00);
    assert_eq!(buf.decode_len(), 0);
    buf.set_capacity(2);
    buf.push(0xFF);
    buf.push(0xFF);
    assert_eq!(buf.decode_len(), 65535);
}

#[test]
fn set_capacity_clears_the_accumulator() {
    let mut buf = FrameBuffer::new();
    buf.push(0x00);
    buf.push(0x03);
    buf.set_capacity(3);
    assert_eq!(buf.remaining(), 3);
    assert!(buf.current().is_empty());
}

#[test]
fn complete_phase_queues_the_accumulator() {
    let mut buf = FrameBuffer::new();
    buf.set_capacity(3);
    buf.push(10);
    buf.push(11);
    buf.push(12);
    buf.complete_phase();
    assert_eq!(buf.remaining(), 2);
    assert!(buf.current().is_empty());
    assert_eq!(buf.drain_queue(), vec![vec![10u8, 11, 12]]);
}

#[test]
fn drain_queue_returns_frames_in_arrival_order_and_empties() {
    let mut buf = FrameBuffer::new();
    buf.set_capacity(1);
    buf.push(1);
    buf.complete_phase();
    buf.set_capacity(1);
    buf.push(2);
    buf.complete_phase();
    assert_eq!(buf.drain_queue(), vec![vec![1u8], vec![2u8]]);
    assert!(buf.drain_queue().is_empty());
}
