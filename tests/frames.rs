use patchstorage::sysex::sysex_filter;

#[test]
fn empty_buffer_has_no_frame() {
    assert_eq!(sysex_filter(&[]), None);
}

#[test]
fn bare_frame_is_left_unchanged() {
    assert_eq!(sysex_filter(&[0xF0, 0xF7]), None);
}

#[test]
fn no_system_byte_means_no_frame() {
    assert_eq!(sysex_filter(&[0x00, 0x10, 0x7F, 0xEF, 0x80]), None);
}

#[test]
fn other_system_message_first_is_not_cut() {
    assert_eq!(sysex_filter(&[0x01, 0xF8, 0xF0, 0x02, 0xF7]), None);
}

#[test]
fn frame_without_end_is_not_cut() {
    assert_eq!(sysex_filter(&[0x01, 0xF0, 0x02, 0x03]), None);
}

#[test]
fn leading_noise_is_dropped() {
    let buf = [0x11, 0x22, 0xF0, 0x01, 0x02, 0xF7];
    assert_eq!(sysex_filter(&buf), Some(&[0xF0, 0x01, 0x02, 0xF7][..]));
}

#[test]
fn trailing_bytes_are_dropped() {
    let buf = [0xF0, 0x05, 0xF7, 0x33, 0xF0, 0x06, 0xF7];
    assert_eq!(sysex_filter(&buf), Some(&[0xF0, 0x05, 0xF7][..]));
}

#[test]
fn noise_on_both_sides_is_dropped() {
    let buf = [0x01, 0xF0, 0x02, 0xF7, 0x03];
    assert_eq!(sysex_filter(&buf), Some(&[0xF0, 0x02, 0xF7][..]));
}

#[test]
fn frame_ends_at_first_end_byte() {
    let buf = [0x09, 0xF0, 0xF3, 0xF7, 0xF7];
    assert_eq!(sysex_filter(&buf), Some(&[0xF0, 0xF3, 0xF7][..]));
}

#[test]
fn cutting_twice_changes_nothing() {
    let buf = [0x40, 0xF0, 0x12, 0x34, 0xF7, 0x41];
    let once = sysex_filter(&buf).unwrap().to_vec();
    assert_eq!(once, vec![0xF0, 0x12, 0x34, 0xF7]);
    assert_eq!(sysex_filter(&once), None);
}
