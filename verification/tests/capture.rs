use codex_clean::capture::StderrCapture;

#[test]
fn capture_below_cap_keeps_everything() {
    let mut cap = StderrCapture::new(1024);
    cap.push_chunk(&vec![1u8; 500]);
    cap.push_chunk(&vec![2u8; 500]);
    assert_eq!(cap.bytes().len(), 1000);
    assert!(!cap.truncated());
    assert_eq!(cap.bytes()[0], 1);
    assert_eq!(cap.bytes()[999], 2);
}

#[test]
fn capture_exact_cap_is_not_truncated() {
    let mut cap = StderrCapture::new(8);
    cap.push_chunk(&vec![7u8; 8]);
    assert_eq!(cap.bytes().len(), 8);
    assert!(!cap.truncated());
}

#[test]
fn capture_keeps_prefix_and_flags_truncation() {
    let mut cap = StderrCapture::new(4);
    cap.push_chunk(&vec![1u8, 2, 3]);
    cap.push_chunk(&vec![4u8, 5, 6]);
    assert_eq!(cap.bytes(), &vec![1u8, 2, 3, 4]);
    assert!(cap.truncated());
}

#[test]
fn capture_eleven_mebibytes_against_ten_mebibyte_cap() {
    let cap_bytes = 10 * 1024 * 1024;
    let mut cap = StderrCapture::new(cap_bytes);
    let chunk = vec![0xabu8; 1024 * 1024];
    for _ in 0..11 {
        cap.push_chunk(&chunk);
    }
    let (bytes, truncated) = cap.into_parts();
    assert_eq!(bytes.len(), cap_bytes);
    assert!(truncated);
}

#[test]
fn capture_keeps_draining_after_cap() {
    let mut cap = StderrCapture::new(2);
    cap.push_chunk(&vec![9u8, 8, 7]);
    cap.push_chunk(&vec![6u8]);
    cap.push_chunk(&Vec::new());
    assert_eq!(cap.bytes(), &vec![9u8, 8]);
    assert!(cap.truncated());
    assert_eq!(cap.cap(), 2);
}
