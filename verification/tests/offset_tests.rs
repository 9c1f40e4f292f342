use ears::calculate_true_offset;

// The reconciled position subtracts the queued-but-unheard chunks from
// the decode cursor and adds the backend's in-buffer offset.
#[test]
fn true_offset_subtracts_queued_chunks() {
    assert_eq!(calculate_true_offset(100000, 100000, 50000, 2, 0), 0);
    assert_eq!(calculate_true_offset(100000, 100000, 50000, 2, 12345), 12345);
    assert_eq!(calculate_true_offset(100000, 75000, 50000, 1, 0), 25000);
    assert_eq!(calculate_true_offset(100000, 50000, 50000, 2, 123), 50123);
}

// With nothing queued the cursor itself is the position.
#[test]
fn true_offset_nothing_queued() {
    assert_eq!(calculate_true_offset(100000, 31416, 50000, 0, 0), 31416);
}

// A negative intermediate value means the buffering lag wrapped past
// the loop boundary: one file length is added back.
#[test]
fn true_offset_wraps_at_loop_boundary() {
    // cursor 40000 after a wrap, two chunks queued: 40000 - 100000 < 0,
    // so the position is 40000 - 100000 + 100000 = 40000... with the
    // backend already 2000 samples into the sounding buffer:
    assert_eq!(calculate_true_offset(100000, 40000, 50000, 2, 2000), 42000);
    // cursor 10000, one chunk queued on a 60000-frame file:
    // 10000 - 50000 = -40000, corrected to -40000 + 60000 = 20000.
    assert_eq!(calculate_true_offset(60000, 10000, 50000, 1, 0), 20000);
}

// Still negative after the wrap correction, or past the 32-bit result:
// clamped to zero, never an error.
#[test]
fn true_offset_clamps_to_zero() {
    assert_eq!(calculate_true_offset(100, 0, 50000, 2, 0), 0);
    assert_eq!(calculate_true_offset(5_000_000_000, 4_000_000_000, 0, 0, 0), 0);
}

// Round trip: two chunks queued and the backend at the start of the
// sounding buffer pulls the cursor back by exactly two chunks, modulo
// the file length, clamped at zero.
#[test]
fn true_offset_round_trips() {
    let n = 100000i64;
    let c = 50000i64;
    for cursor in [0i64, 25000, 50000, 75000, 100000] {
        let expect = {
            let raw = cursor - 2 * c;
            let raw = if raw < 0 { raw + n } else { raw };
            if raw < 0 { 0 } else { raw }
        };
        assert_eq!(calculate_true_offset(n, cursor, c, 2, 0), expect as i32);
    }
}
