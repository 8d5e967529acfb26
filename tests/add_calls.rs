use call_libs::{buf, cdylib_add, linked_add, read_message, run_variant, staticlib_add, AddError, Linkage};

fn text(b: &Vec<i8>) -> String {
    String::from_utf8(read_message(b).expect("terminated")).expect("utf-8")
}

fn holds(whole: &[u8], piece: &str) -> bool {
    let p = piece.as_bytes();
    whole.windows(p.len()).any(|w| w == p)
}

#[test]
fn scenario_lucy_returns_three() {
    let r = run_variant(Linkage::CSource, 1, 2, "Lucy", 1024).expect("fits");
    assert_eq!(r.sum, 3);
    assert!(holds(&r.message, "Lucy"));
    assert!(holds(&r.message, "3"));
    assert_eq!(String::from_utf8(r.message).unwrap(), "[C] Hello Lucy! The result (1 + 2) is 3!");
}

#[test]
fn scenario_chen_returns_seven() {
    let r = run_variant(Linkage::Staticlib, 3, 4, "Chen", 1024).expect("fits");
    assert_eq!(r.sum, 7);
    assert!(holds(&r.message, "Chen"));
    assert!(holds(&r.message, "7"));
    assert_eq!(
        String::from_utf8(r.message).unwrap(),
        "[Rust staticlib] Hello Chen! The result (3 + 4) is 7!"
    );
}

#[test]
fn cdylib_writes_message_and_terminator() {
    let mut b = buf("Lee", 1024);
    assert_eq!(cdylib_add(1, 2, &mut b), Ok(3));
    let expected = "[Rust cdylib] Hello Lee! The result (1 + 2) is 3!";
    assert_eq!(text(&b), expected);
    assert_eq!(b[expected.len()], 0);
    assert_eq!(b.len(), 1024);
    assert!(b[expected.len()..].iter().all(|&c| c == 0));
}

#[test]
fn staticlib_writes_message() {
    let mut b = buf("Chen", 64);
    assert_eq!(staticlib_add(3, 4, &mut b), Ok(7));
    assert_eq!(text(&b), "[Rust staticlib] Hello Chen! The result (3 + 4) is 7!");
}

#[test]
fn message_keeps_tail_of_buffer() {
    let mut b: Vec<i8> = vec![76, 0, 5, 6, 7, 8, 9, 10, 11, 12];
    b.extend(std::iter::repeat(1i8).take(60));
    let before = b.clone();
    assert_eq!(linked_add(Linkage::CSource, 1, 1, &mut b), Ok(2));
    let m = "[C] Hello L! The result (1 + 1) is 2!";
    assert_eq!(text(&b), m);
    assert_eq!(&b[m.len() + 1..], &before[m.len() + 1..]);
}

#[test]
fn negative_operands_in_decimal() {
    let r = run_variant(Linkage::Cdylib, -5, 12, "Neg", 128).expect("fits");
    assert_eq!(r.sum, 7);
    assert_eq!(String::from_utf8(r.message).unwrap(), "[Rust cdylib] Hello Neg! The result (-5 + 12) is 7!");
    let r = run_variant(Linkage::CSource, i32::MIN, 0, "Ann", 128).expect("fits");
    assert_eq!(r.sum, i32::MIN);
    assert_eq!(
        String::from_utf8(r.message).unwrap(),
        "[C] Hello Ann! The result (-2147483648 + 0) is -2147483648!"
    );
    let r = run_variant(Linkage::CSource, 2147483600, 47, "Max", 128).expect("fits");
    assert_eq!(r.sum, i32::MAX);
    assert!(holds(&r.message, "is 2147483647!"));
    let r = run_variant(Linkage::CSource, 100, -100, "Zero", 128).expect("fits");
    assert_eq!(r.sum, 0);
    assert!(holds(&r.message, "(100 + -100) is 0!"));
}

#[test]
fn overflow_leaves_buffer_unchanged() {
    let mut b = buf("Lucy", 1024);
    let before = b.clone();
    assert_eq!(cdylib_add(i32::MAX, 1, &mut b), Err(AddError::SumOverflow));
    assert_eq!(b, before);
    assert_eq!(staticlib_add(i32::MIN, -1, &mut b), Err(AddError::SumOverflow));
    assert_eq!(b, before);
}

#[test]
fn unterminated_buffer_is_refused() {
    let mut b = buf("Lucy", 4);
    let before = b.clone();
    assert_eq!(cdylib_add(1, 2, &mut b), Err(AddError::Unterminated));
    assert_eq!(b, before);
    let mut empty: Vec<i8> = Vec::new();
    assert_eq!(linked_add(Linkage::CSource, 1, 2, &mut empty), Err(AddError::Unterminated));
    assert!(empty.is_empty());
}

#[test]
fn small_buffer_is_refused() {
    let mut b = buf("Lucy", 10);
    let before = b.clone();
    assert_eq!(cdylib_add(1, 2, &mut b), Err(AddError::BufferTooSmall { message_len: 50 }));
    assert_eq!(b, before);
    // exactly the message plus its zero fits
    let mut b = buf("Lucy", 50);
    assert_eq!(cdylib_add(1, 2, &mut b), Err(AddError::BufferTooSmall { message_len: 50 }));
    let mut b = buf("Lucy", 51);
    assert_eq!(cdylib_add(1, 2, &mut b), Ok(3));
    assert_eq!(text(&b), "[Rust cdylib] Hello Lucy! The result (1 + 2) is 3!");
    assert_eq!(b[50], 0);
}

#[test]
fn empty_label() {
    let r = run_variant(Linkage::Cdylib, 0, 0, "", 64).expect("fits");
    assert_eq!(String::from_utf8(r.message).unwrap(), "[Rust cdylib] Hello ! The result (0 + 0) is 0!");
}

#[test]
fn label_stops_at_first_zero() {
    let mut b: Vec<i8> = vec![65, 66, 0, 67, 0];
    b.extend(std::iter::repeat(0i8).take(60));
    assert_eq!(linked_add(Linkage::CSource, 2, 2, &mut b), Ok(4));
    assert_eq!(text(&b), "[C] Hello AB! The result (2 + 2) is 4!");
}

#[test]
fn variants_return_same_sum_and_body() {
    let headers = [
        (Linkage::CSource, "[C] Hello "),
        (Linkage::Cdylib, "[Rust cdylib] Hello "),
        (Linkage::Staticlib, "[Rust staticlib] Hello "),
    ];
    for (a, b) in [(1, 2), (3, 4), (-7, 3), (i32::MAX, 0)] {
        for (l, h) in headers {
            let r = run_variant(l, a, b, "Kim", 256).expect("fits");
            assert_eq!(r.sum, a + b);
            let m = String::from_utf8(r.message).unwrap();
            assert_eq!(m, format!("{}Kim! The result ({} + {}) is {}!", h, a, b, a + b));
        }
    }
}

#[test]
fn label_held_in_message() {
    for label in ["x", "Lucy", "Jack", "naïve label", "0123456789"] {
        let r = run_variant(Linkage::Staticlib, 5, 6, label, 200).expect("fits");
        assert!(holds(&r.message, label));
        assert!(holds(&r.message, "11"));
    }
}

#[test]
fn run_variant_reports_errors() {
    assert!(matches!(run_variant(Linkage::CSource, i32::MAX, 1, "Lucy", 1024), Err(AddError::SumOverflow)));
    assert!(matches!(run_variant(Linkage::CSource, 1, 2, "Lucy", 4), Err(AddError::Unterminated)));
    assert!(matches!(
        run_variant(Linkage::CSource, 1, 2, "Lucy", 20),
        Err(AddError::BufferTooSmall { message_len: 40 })
    ));
}
