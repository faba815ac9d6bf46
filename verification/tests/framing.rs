use bytes::{BufMut, BytesMut};
use packet_proxy::packet::game::{Direction, Error, Packet, State};
use packet_proxy::server::{end_of_stream, packet_queue, reader, Buffers, Reading, BUFFER_CAPACITY, QUEUE_DEPTH};

#[test]
fn error_sentences() {
    assert_eq!(Error::Invalid.to_string(), "Invalid packet");
    assert_eq!(Error::Incomplete.to_string(), "There aren't enough bytes yet");
}

#[test]
fn direction_reverse_swaps_the_endpoints() {
    assert_eq!(Direction::Server.reverse(), Direction::Client);
    assert_eq!(Direction::Client.reverse(), Direction::Server);
    assert_eq!(Direction::Client.reverse().reverse(), Direction::Client);
}

#[test]
fn state_default_is_the_empty_record() {
    assert_eq!(State::default(), State {});
}

#[test]
fn parse_on_nothing_is_incomplete_and_does_not_move() {
    for origin in [Direction::Server, Direction::Client] {
        let mut cursor: &[u8] = &[];
        assert!(matches!(Packet::parse(origin, &mut cursor), Err(Error::Incomplete)));
        assert!(cursor.is_empty());
    }
}

#[test]
fn parse_knows_no_identifier() {
    for origin in [Direction::Server, Direction::Client] {
        for id in 0..=u8::MAX {
            let data = [id, 0x10, 0x20];
            let mut cursor = &data[..];
            assert!(matches!(Packet::parse(origin, &mut cursor), Err(Error::Invalid)));
            assert_eq!(cursor, &[0x10_u8, 0x20][..]);
        }
    }
}

#[test]
fn reader_on_an_empty_buffer_asks_for_bytes() {
    let mut recv = BytesMut::with_capacity(16);
    let mut state = State::default();
    let step = reader(Direction::Server, &mut recv, &mut state);
    assert!(matches!(step, Reading::Fill { room: true }));
    assert!(recv.is_empty());
}

#[test]
fn reader_reports_the_fault_and_keeps_the_bytes() {
    let unknown = [0x7e_u8, 0x01, 0x02, 0x03];
    for origin in [Direction::Server, Direction::Client] {
        let mut recv = BytesMut::with_capacity(16);
        recv.put_slice(&unknown);
        let mut state = State::default();
        let step = reader(origin, &mut recv, &mut state);
        match step {
            Reading::Fault(at) => assert_eq!(at, origin),
            other => panic!("no fault: {:?}", other),
        }
        assert_eq!(&recv[..], &unknown[..]);
        assert_eq!(state, State::default());
    }
}

#[test]
fn reader_fed_byte_by_byte_ends_as_fed_at_once() {
    let bytes = [0x42_u8, 0x00, 0x05];

    let mut whole = BytesMut::new();
    whole.put_slice(&bytes);
    let mut state = State::default();
    let at_once = reader(Direction::Client, &mut whole, &mut state);

    let mut trickled = BytesMut::new();
    let mut outcome = reader(Direction::Client, &mut trickled, &mut state);
    let mut fed = 0;
    while matches!(outcome, Reading::Fill { .. }) && fed < bytes.len() {
        assert_eq!(&trickled[..], &bytes[..fed]);
        trickled.put_u8(bytes[fed]);
        fed += 1;
        outcome = reader(Direction::Client, &mut trickled, &mut state);
    }

    assert!(matches!(at_once, Reading::Fault(Direction::Client)));
    assert!(matches!(outcome, Reading::Fault(Direction::Client)));
    assert_eq!(&trickled[..], &bytes[..fed]);
    assert_eq!(&whole[..], &bytes[..]);
    assert_eq!(&whole[..fed], &trickled[..]);
}

#[test]
fn reader_does_not_parse_the_same_bytes_into_something_else() {
    let mut recv = BytesMut::new();
    recv.put_slice(&[0x01, 0x02]);
    let mut state = State::default();
    let first = reader(Direction::Server, &mut recv, &mut state);
    let second = reader(Direction::Server, &mut recv, &mut state);
    assert!(matches!(first, Reading::Fault(Direction::Server)));
    assert!(matches!(second, Reading::Fault(Direction::Server)));
    assert_eq!(&recv[..], &[0x01_u8, 0x02][..]);
}

#[test]
fn end_of_stream_is_an_empty_read_into_room() {
    assert!(end_of_stream(true, 0));
    assert!(!end_of_stream(true, 1));
    assert!(!end_of_stream(true, 2048));
    assert!(!end_of_stream(false, 0));
    assert!(!end_of_stream(false, 7));
}

#[test]
fn buffers_start_empty_with_their_room() {
    let buffers = Buffers::new();
    assert_eq!(BUFFER_CAPACITY, 2048);
    for buffer in [
        &buffers.client_recv,
        &buffers.client_send,
        &buffers.server_recv,
        &buffers.server_send,
    ] {
        assert_eq!(buffer.len(), 0);
        assert!(buffer.capacity() >= 2048);
    }
}

#[test]
fn packet_queue_holds_sixty_four() {
    let (send, recv) = packet_queue();
    assert_eq!(QUEUE_DEPTH, 64);
    assert_eq!(send.max_capacity(), 64);
    assert_eq!(send.capacity(), 64);
    assert_eq!(recv.max_capacity(), 64);
    assert!(recv.is_empty());
    assert!(!send.is_closed());
}

#[test]
fn packet_queue_closes_when_its_senders_are_gone() {
    let (send, mut recv) = packet_queue();
    let second = send.clone();
    drop(send);
    assert!(matches!(
        recv.try_recv(),
        Err(tokio::sync::mpsc::error::TryRecvError::Empty)
    ));
    drop(second);
    assert!(matches!(
        recv.try_recv(),
        Err(tokio::sync::mpsc::error::TryRecvError::Disconnected)
    ));
}
