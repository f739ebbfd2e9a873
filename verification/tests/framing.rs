use porkg::decode_header_at;
use porkg::encode_hello;
use porkg::encode_start_message;
use porkg::frame_message;
use porkg::read_message;
use porkg::zygote_dispatch;
use porkg::RecvState;
use porkg::SendState;
use porkg::ZygoteAction;
use porkg::CMD_HELLO;
use porkg::CMD_START;
use porkg::HEADER_SIZE;

#[test]
fn send_recv_message_bytes() {
    // The serialized payload travels framed and comes back byte for byte.
    let msg: i32 = 42;
    let payload = bincode::serialize(&msg).unwrap();

    let wire = frame_message(&payload);
    assert_eq!(wire.len(), payload.len() + HEADER_SIZE);

    let (recovered, next) = read_message(&wire, 0).unwrap();
    assert_eq!(recovered, payload);
    assert_eq!(next, wire.len());

    let back: i32 = bincode::deserialize(&recovered).unwrap();
    assert_eq!(back, msg);
}

#[test]
fn frame_header_is_little_endian_length() {
    let wire = frame_message(&[9, 8, 7]);
    assert_eq!(&wire[..HEADER_SIZE], &[3, 0, 0, 0, 0, 0, 0, 0]);
    assert_eq!(decode_header_at(&wire, 0), 3);
    assert_eq!(&wire[HEADER_SIZE..], &[9, 8, 7]);
}

#[test]
fn read_message_needs_whole_frame() {
    let wire = frame_message(&[1, 2, 3, 4]);
    assert!(read_message(&wire[..wire.len() - 1], 0).is_none());
    assert!(read_message(&wire[..HEADER_SIZE - 1], 0).is_none());
}

#[test]
fn two_messages_in_one_stream() {
    let mut wire = frame_message(&[1, 2]);
    wire.extend_from_slice(&frame_message(&[3]));
    let (first, next) = read_message(&wire, 0).unwrap();
    assert_eq!(first, vec![1, 2]);
    let (second, end) = read_message(&wire, next).unwrap();
    assert_eq!(second, vec![3]);
    assert_eq!(end, wire.len());
}

#[test]
fn start_command_block_shape() {
    let block = encode_start_message(&[5, 6]);
    assert_eq!(block[0], CMD_START);
    assert_eq!(&block[1..9], &[2, 0, 0, 0, 0, 0, 0, 0]);
    assert_eq!(&block[9..], &[5, 6]);
}

#[test]
fn hello_is_one_byte() {
    assert_eq!(encode_hello(), vec![CMD_HELLO]);
}

#[test]
fn dispatch_accepts_only_start() {
    assert_eq!(zygote_dispatch(CMD_START), ZygoteAction::StartWorker);
    assert_eq!(zygote_dispatch(CMD_HELLO), ZygoteAction::ProtocolViolation);
    assert_eq!(zygote_dispatch(0x77), ZygoteAction::ProtocolViolation);
}

#[test]
fn send_state_attaches_fds_once() {
    let mut s = SendState::new(10);
    assert!(s.attach_fds_now());
    assert!(!s.done());
    s.advance(4);
    assert!(!s.attach_fds_now());
    s.advance(6);
    assert!(s.done());
}

#[test]
fn recv_state_requests_remaining() {
    let mut r = RecvState::new(10);
    assert_eq!(r.next_request(8), 8);
    r.advance(8);
    assert_eq!(r.next_request(8), 2);
    r.advance(2);
    assert!(r.done());
    assert_eq!(r.next_request(8), 0);
}
