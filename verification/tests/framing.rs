use shfs::networking::{Connection, Received, BUFFER_SIZE, PACK_SIZE};

fn message(len: usize) -> Vec<u8> {
    (0..len).map(|i| (i % 251) as u8 + 1).collect()
}

fn receive(frames: Vec<Vec<u8>>) -> Received {
    let con = Connection::new();
    let mut frames = frames.into_iter();
    let mut state = con.recv(frames.next().expect("no datagram"));
    for frame in frames {
        state = match state {
            Received::Partial(rest) => con.recv_part(rest, frame),
            other => panic!("datagram after the end: {:?}", other),
        };
    }
    state
}

fn receive_padded(frames: Vec<Vec<u8>>) -> Received {
    let padded = frames
        .into_iter()
        .map(|mut f| {
            f.resize(BUFFER_SIZE, 0);
            f
        })
        .collect();
    receive(padded)
}

#[test]
fn constants_are_those_of_the_protocol() {
    assert_eq!(PACK_SIZE, 8024);
    assert_eq!(BUFFER_SIZE, 524288);
}

#[test]
fn remove_last_zeros_drops_only_the_zeros_at_the_end() {
    assert_eq!(Connection::remove_last_zeros(vec![1, 0, 2, 0, 0]), vec![1, 0, 2]);
    assert_eq!(Connection::remove_last_zeros(vec![0, 0, 7]), vec![0, 0, 7]);
    assert_eq!(Connection::remove_last_zeros(vec![5]), vec![5]);
}

#[test]
fn remove_last_zeros_of_nothing_but_zeros_is_empty() {
    assert_eq!(Connection::remove_last_zeros(vec![0, 0, 0]), Vec::<u8>::new());
    assert_eq!(Connection::remove_last_zeros(vec![]), Vec::<u8>::new());
}

#[test]
fn short_message_is_one_datagram() {
    let m = message(100);
    assert_eq!(Connection::new().send(m.clone()), vec![m]);
}

#[test]
fn empty_message_is_one_empty_datagram() {
    assert_eq!(Connection::new().send(vec![]), vec![Vec::<u8>::new()]);
}

#[test]
fn message_below_twice_the_part_size_is_sent_whole() {
    let m = message(2 * PACK_SIZE - 1);
    assert_eq!(Connection::new().send(m.clone()), vec![m]);
}

#[test]
fn message_of_twice_the_part_size_is_split() {
    let m = message(2 * PACK_SIZE);
    let frames = Connection::new().send(m.clone());
    assert_eq!(frames.len(), 3);
    assert_eq!(frames[0], b"PACK2".to_vec());
    assert_eq!(frames[1], m[..PACK_SIZE].to_vec());
    assert_eq!(frames[2], m[PACK_SIZE..].to_vec());
}

#[test]
fn last_part_reaches_to_the_end() {
    let m = message(3 * PACK_SIZE + 5);
    let frames = Connection::new().send(m.clone());
    assert_eq!(frames.len(), 4);
    assert_eq!(frames[0], b"PACK3".to_vec());
    assert_eq!(frames[1].len(), PACK_SIZE);
    assert_eq!(frames[2].len(), PACK_SIZE);
    assert_eq!(frames[3].len(), PACK_SIZE + 5);
    assert_eq!(frames[3], m[2 * PACK_SIZE..].to_vec());
}

#[test]
fn header_counts_with_several_digits() {
    let m = message(12 * PACK_SIZE + 1);
    let frames = Connection::new().send(m);
    assert_eq!(frames.len(), 13);
    assert_eq!(frames[0], b"PACK12".to_vec());
}

#[test]
fn split_message_is_reassembled() {
    let m = message(2 * PACK_SIZE + 17);
    let frames = Connection::new().send(m.clone());
    assert_eq!(frames.len(), 3);
    assert_eq!(receive(frames), Received::Message(m));
}

#[test]
fn split_message_is_reassembled_from_padded_buffers() {
    let m = message(5 * PACK_SIZE);
    let frames = Connection::new().send(m.clone());
    assert_eq!(frames.len(), 6);
    assert_eq!(receive_padded(frames), Received::Message(m));
}

#[test]
fn whole_message_round_trip() {
    let m = b"{\"kind\":\"ok\"}".to_vec();
    let frames = Connection::new().send(m.clone());
    assert_eq!(receive_padded(frames), Received::Message(m));
}

#[test]
fn receiver_waits_for_the_announced_parts() {
    let con = Connection::new();
    let state = con.recv(b"PACK2".to_vec());
    let state = match state {
        Received::Partial(rest) => con.recv_part(rest, vec![1, 2, 0, 0]),
        other => panic!("{:?}", other),
    };
    let state = match state {
        Received::Partial(rest) => con.recv_part(rest, vec![3, 0]),
        other => panic!("{:?}", other),
    };
    assert_eq!(state, Received::Message(vec![1, 2, 3]));
}

#[test]
fn zeros_at_the_end_of_a_part_are_lost() {
    let mut m = message(2 * PACK_SIZE);
    m[PACK_SIZE - 1] = 0;
    let frames = Connection::new().send(m.clone());
    let mut expected = m.clone();
    expected.remove(PACK_SIZE - 1);
    assert_eq!(receive(frames), Received::Message(expected));
}

#[test]
fn zeros_at_the_end_of_a_message_are_lost() {
    assert_eq!(receive(vec![vec![9, 9, 0, 0]]), Received::Message(vec![9, 9]));
}

#[test]
fn header_of_no_parts_is_the_empty_message() {
    assert_eq!(receive_padded(vec![b"PACK0".to_vec()]), Received::Message(vec![]));
}

#[test]
fn header_without_count_is_malformed() {
    assert_eq!(Connection::new().recv(b"PACK".to_vec()), Received::Malformed);
    assert_eq!(receive_padded(vec![b"PACK".to_vec()]), Received::Malformed);
}

#[test]
fn header_with_other_than_digits_is_malformed() {
    assert_eq!(Connection::new().recv(b"PACK1x".to_vec()), Received::Malformed);
    assert_eq!(Connection::new().recv(b"PACK-1".to_vec()), Received::Malformed);
    assert_eq!(Connection::new().recv(b"PACKAGE".to_vec()), Received::Malformed);
}

#[test]
fn header_with_a_count_beyond_the_machine_is_malformed() {
    let d = b"PACK99999999999999999999999999999999".to_vec();
    assert_eq!(Connection::new().recv(d), Received::Malformed);
}

#[test]
fn datagram_that_only_starts_like_a_header_is_a_message() {
    assert_eq!(Connection::new().recv(b"PAC".to_vec()), Received::Message(b"PAC".to_vec()));
    assert_eq!(Connection::new().recv(b"pack3".to_vec()), Received::Message(b"pack3".to_vec()));
}
