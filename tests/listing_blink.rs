use sd_logger::blink::{signal_for, Signal, DASH_MS, DOT_MS, WORD_PAUSE_MS};
use sd_logger::text::write_file_data;

#[test]
fn listed_file_shows_name_and_bytes() {
    let mut out = Vec::new();
    write_file_data("A.TXT", b"hi\n", &mut out);
    assert_eq!(String::from_utf8(out).unwrap(), "* A.TXT\nhi\n\n");
}

#[test]
fn empty_file_lists_name_only() {
    let mut out = b"x".to_vec();
    write_file_data("EMPTY.LOG", b"", &mut out);
    assert_eq!(String::from_utf8(out).unwrap(), "x* EMPTY.LOG\n");
}

#[test]
fn high_bytes_show_as_their_code_points() {
    let mut out = Vec::new();
    write_file_data("B.BIN", &[0x41, 0xE9, 0xFF, 0x80], &mut out);
    assert_eq!(String::from_utf8(out).unwrap(), "* B.BIN\nA\u{e9}\u{ff}\u{80}\n");
}

#[test]
fn morse_characters_map_to_signals() {
    assert_eq!(signal_for(' '), Signal::Pause(WORD_PAUSE_MS));
    assert_eq!(signal_for('.'), Signal::Flash(DOT_MS));
    assert_eq!(signal_for('-'), Signal::Flash(DASH_MS));
    assert_eq!(signal_for('a'), Signal::Skip);
    assert_eq!((WORD_PAUSE_MS, DOT_MS, DASH_MS), (500, 200, 700));
    let signals: Vec<Signal> = ".... .".chars().map(signal_for).collect();
    assert_eq!(signals.len(), 6);
    assert_eq!(signals[4], Signal::Pause(500));
}
