use shfs::compression::{compress, payload, unwrap_response, wrap, Unwrapped, COMPRESSION_LEVEL};
use shfs::responses::Response;

fn repetitive(len: usize) -> Vec<u8> {
    b"{\"kind\":\"read_dir\",\"data\":[\"/a\",\"/a\",\"/a\"]}".iter().cycle().take(len).copied().collect()
}

#[test]
fn level_is_five() {
    assert_eq!(COMPRESSION_LEVEL, 5);
}

#[test]
fn wrap_takes_the_shorter_form() {
    assert_eq!(
        wrap(&vec![1, 2, 3], Some(vec![9, 9])),
        Some(Response::Compressed { data: vec![9, 9] })
    );
    assert_eq!(wrap(&vec![1], Some(vec![])), Some(Response::Compressed { data: vec![] }));
}

#[test]
fn wrap_leaves_a_response_that_does_not_shrink() {
    assert_eq!(wrap(&vec![1, 2, 3], Some(vec![9, 9, 9])), None);
    assert_eq!(wrap(&vec![1, 2, 3], Some(vec![9, 9, 9, 9])), None);
    assert_eq!(wrap(&vec![], Some(vec![])), None);
}

#[test]
fn wrap_leaves_a_response_that_did_not_compress() {
    assert_eq!(wrap(&vec![1, 2, 3], None), None);
}

#[test]
fn compress_wraps_a_long_repetitive_response() {
    let plain = repetitive(4000);
    match compress(&plain) {
        Some(Response::Compressed { data }) => {
            assert!(data.len() < plain.len());
            assert_ne!(data, plain);
        },
        other => panic!("{:?}", other),
    }
}

#[test]
fn compress_leaves_a_short_response() {
    assert_eq!(compress(&b"{\"kind\":\"ok\"}".to_vec()), None);
    assert_eq!(compress(&vec![]), None);
}

#[test]
fn wrapping_is_transparent() {
    let plain = repetitive(4000);
    let wrapped = compress(&plain).expect("not wrapped");
    assert_eq!(unwrap_response(wrapped), Unwrapped::Packed(plain));
}

#[test]
fn wrapped_response_loses_the_zeros_at_its_end() {
    let mut plain = repetitive(4000);
    plain.extend_from_slice(&[0, 0]);
    let wrapped = compress(&plain).expect("not wrapped");
    assert_eq!(unwrap_response(wrapped), Unwrapped::Packed(repetitive(4000)));
}

#[test]
fn other_responses_stand_for_themselves() {
    assert_eq!(unwrap_response(Response::Success {}), Unwrapped::Direct(Response::Success {}));
    assert_eq!(
        unwrap_response(Response::Read { data: vec![1, 0] }),
        Unwrapped::Direct(Response::Read { data: vec![1, 0] })
    );
}

#[test]
fn bytes_that_do_not_decompress_are_corrupt() {
    assert_eq!(unwrap_response(Response::Compressed { data: vec![1, 2, 3] }), Unwrapped::Corrupt);
}

#[test]
fn payload_loses_the_zeros_at_its_end() {
    assert_eq!(payload(Some(vec![1, 2, 0, 0])), Some(vec![1, 2]));
    assert_eq!(payload(Some(vec![])), Some(vec![]));
    assert_eq!(payload(None), None);
}
