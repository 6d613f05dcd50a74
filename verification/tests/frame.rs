use netservices::frame::{
    frame_missing, frame_ready, put_frame, take_frame, take_front, HEADER_LEN, MAX_FRAME,
};

#[test]
fn a_frame_is_the_length_and_the_message() {
    let mut out = vec![9u8];
    put_frame(&mut out, &[1, 2, 3]);
    assert_eq!(out, vec![9, 0, 3, 1, 2, 3]);
    put_frame(&mut out, &[]);
    assert_eq!(out, vec![9, 0, 3, 1, 2, 3, 0, 0]);
    let mut long = Vec::new();
    put_frame(&mut long, &[7u8; 258]);
    assert_eq!(&long[..3], &[1, 2, 7]);
    assert_eq!(long.len(), 260);
}

#[test]
fn the_longest_frame_round_trips() {
    assert_eq!(MAX_FRAME, 65535);
    assert_eq!(HEADER_LEN, 2);
    let body: Vec<u8> = (0..MAX_FRAME).map(|i| (i % 256) as u8).collect();
    let mut buf = Vec::new();
    put_frame(&mut buf, &body);
    assert_eq!(&buf[..2], &[255, 255]);
    buf.extend_from_slice(&[0, 1, 42, 0]);
    assert_eq!(take_frame(&mut buf), Some(body));
    assert_eq!(take_frame(&mut buf), Some(vec![42]));
    assert_eq!(buf, vec![0]);
    assert_eq!(take_frame(&mut buf), None);
    assert_eq!(buf, vec![0]);
}

#[test]
fn a_frame_that_is_not_whole_stays() {
    assert!(!frame_ready(&vec![]));
    assert!(!frame_ready(&vec![0]));
    assert!(frame_ready(&vec![0, 0]));
    assert!(!frame_ready(&vec![0, 2, 1]));
    assert!(frame_ready(&vec![0, 2, 1, 1]));
    assert!(frame_ready(&vec![0, 2, 1, 1, 5]));
    assert!(!frame_ready(&vec![1, 0, 1, 1, 5]));
    let mut buf = vec![0, 2, 1];
    assert_eq!(take_frame(&mut buf), None);
    assert_eq!(buf, vec![0, 2, 1]);
    buf.push(8);
    assert_eq!(take_frame(&mut buf), Some(vec![1, 8]));
    assert!(buf.is_empty());
    let mut empty = vec![0, 0, 5];
    assert_eq!(take_frame(&mut empty), Some(vec![]));
    assert_eq!(empty, vec![5]);
}

#[test]
fn the_front_comes_off() {
    let mut buf = vec![1, 2, 3, 4];
    assert_eq!(take_front(&mut buf, 0), Vec::<u8>::new());
    assert_eq!(take_front(&mut buf, 3), vec![1, 2, 3]);
    assert_eq!(buf, vec![4]);
    assert_eq!(take_front(&mut buf, 1), vec![4]);
    assert!(buf.is_empty());
}

#[test]
fn what_a_frame_lacks_is_the_header_and_then_the_message() {
    assert_eq!(frame_missing(&vec![]), 2);
    assert_eq!(frame_missing(&vec![1]), 1);
    assert_eq!(frame_missing(&vec![1, 4]), 260);
    assert_eq!(frame_missing(&vec![0, 0]), 0);
    assert_eq!(frame_missing(&vec![0, 3]), 3);
    assert_eq!(frame_missing(&vec![0, 3, 9]), 2);
    assert_eq!(frame_missing(&vec![0, 3, 9, 9, 9]), 0);
    assert_eq!(frame_missing(&vec![0, 3, 9, 9, 9, 7]), 0);
    assert_eq!(frame_missing(&vec![255, 255]), 65535);
}
