use webrtc_tunnel::payload::{payload_of, Sending};

#[test]
fn payload_is_the_front_of_the_buffer() {
    assert_eq!(&payload_of(&[1, 2, 3, 4], 3)[..], &[1, 2, 3]);
    assert_eq!(&payload_of(&[1, 2], 0)[..], &[] as &[u8]);
    assert_eq!(&payload_of(&[1, 2], 2)[..], &[1, 2]);
}

#[test]
fn rests_of_a_payload_make_it_up() {
    let bytes: Vec<u8> = (0..100).collect();
    for step in [1, 7, 33, 100] {
        let mut sending = Sending::new(payload_of(&bytes, 100));
        let mut received = Vec::new();
        while let Some(rest) = sending.rest() {
            let n = step.min(rest.len());
            received.extend_from_slice(&rest[..n]);
            assert!(sending.can_advance(n));
            sending.advance(n);
        }
        assert_eq!(received, bytes);
    }
}

#[test]
fn empty_payload_is_done_at_once() {
    let sending = Sending::new(payload_of(&[], 0));
    assert!(sending.rest().is_none());
    assert!(sending.behind().is_none());
}

#[test]
fn payload_is_done_when_more_is_taken_than_there_is() {
    let mut sending = Sending::new(payload_of(&[1, 2, 3], 3));
    sending.advance(5);
    assert!(sending.rest().is_none());
    assert!(!sending.can_advance(usize::MAX));
    assert!(sending.can_advance(usize::MAX - 5));
}

#[test]
fn nothing_lies_behind_a_payload() {
    let mut sending = Sending::new(payload_of(&[1, 2, 3], 3));
    assert_eq!(sending.behind().unwrap().len(), 0);
    sending.advance(2);
    assert_eq!(sending.behind().unwrap().len(), 0);
    sending.advance(1);
    assert!(sending.behind().is_none());
}
