use rsa_channel::frame::{join_frame, split_frame, FrameError, Session, SessionCipher, FRAME_HEADER_LEN};

fn key(seed: u8) -> Vec<u8> {
    (0u8..32).map(|i| i.wrapping_mul(7).wrapping_add(seed)).collect()
}

fn message(len: usize) -> Vec<u8> {
    (0..len).map(|i| (i % 251) as u8).collect()
}

#[test]
fn frame_round_trip() {
    let mut sender = Session::new(key(1));
    let mut receiver = Session::new(key(1));
    for (more, len) in [(false, 0usize), (true, 16), (false, 32), (true, 4096)] {
        let msg = message(len);
        let frame = sender.encode_frame(more, &msg).unwrap();
        assert_eq!(frame.len(), FRAME_HEADER_LEN + len + 16);
        assert_eq!(frame[0], if more { 1 } else { 0 });
        assert_eq!(receiver.decode_frame(&frame), Ok((more, msg)));
    }
}

#[test]
fn frame_ciphertext_hides_the_plaintext() {
    let mut sender = Session::new(key(2));
    let msg = vec![0u8; 32];
    let frame = sender.encode_frame(false, &msg).unwrap();
    assert_ne!(&frame[FRAME_HEADER_LEN..FRAME_HEADER_LEN + 32], &msg[..]);
}

#[test]
fn nonces_are_never_reused() {
    let mut sender = Session::new(key(3));
    let msg = message(16);
    let mut nonces: Vec<Vec<u8>> = Vec::new();
    for _ in 0..500 {
        let frame = sender.encode_frame(false, &msg).unwrap();
        nonces.push(frame[1..13].to_vec());
    }
    nonces.sort();
    nonces.dedup();
    assert_eq!(nonces.len(), 500);
}

#[test]
fn nonce_used_tracks_history() {
    let mut sender = Session::new(key(4));
    let frame = sender.encode_frame(false, &message(16)).unwrap();
    assert!(sender.nonce_used(&frame[1..13].to_vec()));
    let mut other = frame[1..13].to_vec();
    other[0] ^= 0xff;
    assert!(!sender.nonce_used(&other));
}

#[test]
fn tampering_any_byte_is_detected() {
    let mut sender = Session::new(key(5));
    let frame = sender.encode_frame(true, &message(48)).unwrap();
    for i in 0..frame.len() {
        for bit in [0x01u8, 0x80] {
            let mut receiver = Session::new(key(5));
            let mut bad = frame.clone();
            bad[i] ^= bit;
            assert_eq!(receiver.decode_frame(&bad), Err(FrameError::AuthTagInvalid), "byte {}", i);
        }
    }
}

#[test]
fn wrong_key_fails_authentication() {
    let mut sender = Session::new(key(6));
    let mut receiver = Session::new(key(7));
    let frame = sender.encode_frame(false, &message(16)).unwrap();
    assert_eq!(receiver.decode_frame(&frame), Err(FrameError::AuthTagInvalid));
}

#[test]
fn malformed_lengths_are_format_errors() {
    let mut receiver = Session::new(key(8));
    assert_eq!(receiver.decode_frame(&Vec::new()), Err(FrameError::Format));
    assert_eq!(receiver.decode_frame(&vec![0u8; 13]), Err(FrameError::Format));
    assert_eq!(receiver.decode_frame(&vec![0u8; 13 + 15]), Err(FrameError::Format));
    assert_eq!(receiver.decode_frame(&vec![0u8; 13 + 17]), Err(FrameError::Format));
    assert_eq!(receiver.decode_frame(&vec![0u8; 13 + 16]), Err(FrameError::AuthTagInvalid));
}

#[test]
fn failed_tag_tears_the_session_down() {
    let mut sender = Session::new(key(11));
    let mut receiver = Session::new(key(11));
    let good = sender.encode_frame(false, &message(16)).unwrap();
    let mut bad = good.clone();
    bad[20] ^= 0x10;
    assert_eq!(receiver.decode_frame(&vec![0u8; 5]), Err(FrameError::Format));
    assert_eq!(receiver.decode_frame(&bad), Err(FrameError::AuthTagInvalid));
    assert_eq!(receiver.decode_frame(&good), Err(FrameError::SessionClosed));
    assert_eq!(receiver.encode_frame(false, &message(16)), Err(FrameError::SessionClosed));
    assert_eq!(receiver.encode_message(&message(16), 16), Err(FrameError::SessionClosed));
}

#[test]
fn unaligned_plaintext_is_refused() {
    let mut sender = Session::new(key(9));
    assert_eq!(sender.encode_frame(false, &message(1)), Err(FrameError::Format));
    assert_eq!(sender.encode_frame(true, &message(17)), Err(FrameError::Format));
    assert!(sender.encode_frame(true, &message(16)).is_ok());
}

#[test]
fn split_and_join_frame() {
    let bytes: Vec<u8> = (0u8..29).collect();
    let parts = split_frame(&bytes).unwrap();
    assert_eq!(parts.flag, 0);
    assert_eq!(parts.nonce, (1u8..13).collect::<Vec<u8>>());
    assert_eq!(parts.ciphertext, (13u8..29).collect::<Vec<u8>>());
    assert_eq!(join_frame(parts.flag, &parts.nonce, &parts.ciphertext), bytes);
    assert!(matches!(split_frame(&(0u8..30).collect()), Err(FrameError::Format)));
}

#[test]
fn cipher_seal_and_open() {
    let cipher = SessionCipher::new(key(10));
    let nonce = vec![3u8; 12];
    let aad = vec![0u8];
    let pt = message(20);
    let ct = cipher.seal(&nonce, &aad, &pt).unwrap();
    assert_eq!(ct.len(), 36);
    assert_ne!(&ct[..20], &pt[..]);
    assert_eq!(cipher.open(&nonce, &aad, &ct), Ok(pt.clone()));
    assert_eq!(cipher.open(&nonce, &vec![1u8], &ct), Err(FrameError::AuthTagInvalid));
    assert_eq!(cipher.open(&vec![4u8; 12], &aad, &ct), Err(FrameError::AuthTagInvalid));
    assert_eq!(cipher.seal(&nonce, &aad, &pt), Ok(ct));
}

#[test]
fn frame_with_given_nonce() {
    let mut sender = Session::new(key(12));
    let mut receiver = Session::new(key(12));
    let nonce = vec![0xabu8; 12];
    let msg = message(32);
    let frame = sender.encode_frame_with_nonce(true, &msg, &nonce).unwrap();
    assert_eq!(frame.len(), 13 + 32 + 16);
    assert_eq!(frame[0], 1);
    assert_eq!(&frame[1..13], &nonce[..]);
    assert_ne!(&frame[13..45], &msg[..]);
    assert_eq!(receiver.decode_frame(&frame), Ok((true, msg.clone())));
    assert_eq!(sender.encode_frame_with_nonce(false, &msg, &nonce), Err(FrameError::NonceCollision));
    assert_eq!(sender.encode_frame_with_nonce(false, &message(3), &vec![1u8; 12]), Err(FrameError::Format));
    assert!(sender.encode_frame_with_nonce(false, &msg, &vec![1u8; 12]).is_ok());
}
