use heat_control::display::{num2char, state_line, temp_to_bytes};

#[test]
fn positive_temperature_renders_sign_and_three_digits() {
    assert_eq!(&temp_to_bytes(Some(25)), b"+025");
    assert_eq!(&temp_to_bytes(Some(550)), b"+550");
    assert_eq!(&temp_to_bytes(Some(0)), b"+000");
    assert_eq!(&temp_to_bytes(Some(999)), b"+999");
}

#[test]
fn absent_temperature_renders_the_literal_none() {
    assert_eq!(&temp_to_bytes(None), b"None");
}

#[test]
fn negative_temperature_renders_sign_and_magnitude_digits() {
    assert_eq!(&temp_to_bytes(Some(-5)), b"-005");
    assert_eq!(&temp_to_bytes(Some(-50)), b"-050");
    assert_eq!(&temp_to_bytes(Some(-123)), b"-123");
    assert_eq!(&temp_to_bytes(Some(-999)), b"-999");
}

#[test]
fn out_of_range_digits_render_blank() {
    // A magnitude of four digits blanks the overflowing leading position.
    assert_eq!(&temp_to_bytes(Some(1000)), b"+ 00");
    assert_eq!(&temp_to_bytes(Some(-1000)), b"- 00");
}

#[test]
fn digit_bytes() {
    for d in 0..=9i16 {
        assert_eq!(num2char(d), b'0' + d as u8);
    }
    assert_eq!(num2char(10), b' ');
    assert_eq!(num2char(-1), b' ');
}

#[test]
fn state_label_fills_a_sixteen_column_row() {
    let line = state_line(b"Init");
    assert_eq!(line.len(), 16);
    assert_eq!(&line[..4], b"Init");
    assert!(line[4..].iter().all(|&b| b == b' '));

    let line = state_line(b"Buffer Disabled");
    assert_eq!(&line[..], b"Buffer Disabled ");

    // A label longer than the row is cut at sixteen columns.
    let line = state_line(b"A label far too long for the row");
    assert_eq!(&line[..], b"A label far too ");

    let line = state_line(b"");
    assert_eq!(&line[..], &[b' '; 16]);
}
