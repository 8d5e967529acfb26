use call_libs::{buf, read_message};

#[test]
fn buf_pads_label_with_zeros() {
    let b = buf("Lucy", 8);
    assert_eq!(b, vec![76, 117, 99, 121, 0, 0, 0, 0]);
    assert_eq!(buf("Jack", 1024).len(), 1024);
}

#[test]
fn buf_cuts_long_label() {
    assert_eq!(buf("Lucy", 2), vec![76, 117]);
    assert_eq!(buf("Lucy", 4), vec![76, 117, 99, 121]);
    assert!(buf("Lucy", 0).is_empty());
}

#[test]
fn buf_of_empty_label_is_zeros() {
    assert_eq!(buf("", 3), vec![0, 0, 0]);
}

#[test]
fn buf_keeps_high_bytes() {
    let b = buf("é", 3);
    assert_eq!(b, vec![0xC3u8 as i8, 0xA9u8 as i8, 0]);
    assert_eq!(read_message(&b), Some(vec![0xC3, 0xA9]));
}

#[test]
fn read_message_needs_terminator() {
    assert_eq!(read_message(&vec![72, 105]), None);
    assert_eq!(read_message(&vec![]), None);
    assert_eq!(read_message(&vec![72, 105, 0, 33]), Some(vec![72, 105]));
    assert_eq!(read_message(&vec![0, 72]), Some(vec![]));
}
