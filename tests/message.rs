use rsa_channel::bytes::{append_all, copy_range, ct_eq};
use rsa_channel::frame::Session;
use rsa_channel::message::Reassembler;

#[test]
fn reassembles_continued_frames() {
    let mut r = Reassembler::new();
    assert_eq!(r.push(true, &vec![1u8, 2]), None);
    assert_eq!(r.push(true, &vec![3u8]), None);
    assert_eq!(r.push(false, &vec![4u8, 5]), Some(vec![1u8, 2, 3, 4, 5]));
    assert_eq!(r.push(false, &vec![]), Some(vec![]));
}

#[test]
fn message_over_frames_round_trip() {
    let key: Vec<u8> = vec![42u8; 32];
    let mut sender = Session::new(key.clone());
    let mut receiver = Session::new(key);
    let msg: Vec<u8> = (0..96u32).map(|i| i as u8).collect();
    let mut frames = Vec::new();
    for (i, chunk) in msg.chunks(32).enumerate() {
        frames.push(sender.encode_frame(i < 2, &chunk.to_vec()).unwrap());
    }
    let mut r = Reassembler::new();
    let mut out = None;
    for f in &frames {
        let (more, pt) = receiver.decode_frame(f).unwrap();
        out = r.push(more, &pt);
    }
    assert_eq!(out, Some(msg));
}

#[test]
fn byte_helpers() {
    assert!(ct_eq(&vec![1u8, 2, 3], &vec![1u8, 2, 3]));
    assert!(!ct_eq(&vec![1u8, 2, 3], &vec![1u8, 2, 4]));
    assert!(!ct_eq(&vec![1u8, 2], &vec![1u8, 2, 3]));
    assert!(ct_eq(&vec![], &vec![]));
    assert_eq!(copy_range(&vec![5u8, 6, 7, 8], 1, 3), vec![6u8, 7]);
    let mut v = vec![1u8];
    append_all(&mut v, &vec![2u8, 3]);
    assert_eq!(v, vec![1u8, 2, 3]);
}

#[test]
fn encode_message_splits_into_chunks() {
    let key: Vec<u8> = vec![9u8; 32];
    let mut sender = Session::new(key.clone());
    let mut receiver = Session::new(key);
    let msg: Vec<u8> = (0..80u32).map(|i| (i * 3) as u8).collect();
    let frames = sender.encode_message(&msg, 32).unwrap();
    assert_eq!(frames.len(), 3);
    let decoded: Vec<(bool, Vec<u8>)> = frames.iter().map(|f| receiver.decode_frame(f).unwrap()).collect();
    assert_eq!(decoded[0], (true, msg[0..32].to_vec()));
    assert_eq!(decoded[1], (true, msg[32..64].to_vec()));
    assert_eq!(decoded[2], (false, msg[64..80].to_vec()));
    let mut r = Reassembler::new();
    let mut out = None;
    for (more, pt) in &decoded {
        out = r.push(*more, pt);
    }
    assert_eq!(out, Some(msg));
}

#[test]
fn encode_message_edge_cases() {
    let key: Vec<u8> = vec![1u8; 32];
    let mut sender = Session::new(key.clone());
    let mut receiver = Session::new(key);
    let empty = sender.encode_message(&Vec::new(), 16).unwrap();
    assert_eq!(empty.len(), 1);
    assert_eq!(receiver.decode_frame(&empty[0]), Ok((false, Vec::new())));
    let exact = sender.encode_message(&vec![5u8; 64], 32).unwrap();
    assert_eq!(exact.len(), 2);
    assert_eq!(receiver.decode_frame(&exact[1]), Ok((false, vec![5u8; 32])));
    assert_eq!(sender.encode_message(&vec![5u8; 65], 32), Err(rsa_channel::frame::FrameError::Format));
}
