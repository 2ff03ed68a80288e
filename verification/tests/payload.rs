use disk_timer::payload::synthesize_payload;

#[test]
fn length_is_chunk_plus_total_minus_one() {
    assert_eq!(synthesize_payload(1, 8192).len(), 8192);
    assert_eq!(synthesize_payload(2048, 8).len(), 2055);
    assert_eq!(synthesize_payload(3, 1).len(), 3);
    assert_eq!(synthesize_payload(1, 1).len(), 1);
}

#[test]
fn seed_is_zeroed() {
    let p = synthesize_payload(1, 4);
    assert_eq!(p, vec![0u8, 0u8, 0u8, 0u8]);
    let q = synthesize_payload(3, 2);
    assert_eq!(q, vec![0u8, 0u8, b'a', b'a']);
}

#[test]
fn appended_bytes_follow_the_pattern() {
    // 2047 appended bytes after an 8-byte seed: the 1024th appended byte
    // is the single newline, at payload index 8 + 1024 - 1 = 1031.
    let p = synthesize_payload(2048, 8);
    assert_eq!(p.len(), 2055);
    assert_eq!(p.iter().filter(|&&b| b == b'\n').count(), 1);
    assert_eq!(p[1031], b'\n');
    for (j, &b) in p.iter().enumerate() {
        if j < 8 {
            assert_eq!(b, 0u8);
        } else if j == 1031 {
            assert_eq!(b, b'\n');
        } else {
            assert_eq!(b, b'a');
        }
    }
}

#[test]
fn newline_every_1024th_appended_byte() {
    // 2048 appended bytes after a 1-byte seed: newlines at appended
    // positions 1024 and 2048, i.e. payload indices 1024 and 2048.
    let p = synthesize_payload(2049, 1);
    assert_eq!(p.len(), 2049);
    assert_eq!(p.iter().filter(|&&b| b == b'\n').count(), 2);
    assert_eq!(p[1024], b'\n');
    assert_eq!(p[2048], b'\n');
}

#[test]
fn payload_is_valid_text_and_round_trips() {
    let p = synthesize_payload(2048, 8);
    for &b in p.iter() {
        assert!(b == 0u8 || b == b'\n' || b == b'a');
        assert!(b < 128);
    }
    // The payload is ASCII, so decoding it as text and re-encoding it
    // yields the same bytes.
    let text = String::from_utf8(p.clone()).unwrap();
    assert_eq!(text.into_bytes(), p);
}
