use tpick::terminal::{
    clipboard_query, clipboard_text_of, color_query, palette_query, parse_color_reply,
    parse_window_area, paste_to_clipboard, paste_to_clipboard_checked, query_color,
    read_ansi_color, read_clipboard, read_osc_response, window_area_query, ReplyReader,
};
use tpick::ui::{input_step, selection_menu_step, MenuStep};

#[test]
fn replies_end_with_their_closing_byte() {
    assert_eq!(
        read_osc_response(b"\x1b[8;24;80trest", b't'),
        ("\x1b[8;24;80".to_string(), true, 10)
    );
    assert_eq!(read_osc_response(b"abc\x07def", 7), ("abc".to_string(), true, 4));
    assert_eq!(read_osc_response(b"\x07", 7), ("".to_string(), true, 1));
}

#[test]
fn replies_end_with_escape_and_backslash() {
    assert_eq!(read_osc_response(b"abc\x1b\\def", 7), ("abc".to_string(), true, 5));
    assert_eq!(read_osc_response(b"a\\b\x1b\\", 7), ("a\\b".to_string(), true, 5));
    assert_eq!(read_osc_response(b"\\x\x07", 7), ("\\x".to_string(), true, 3));
}

#[test]
fn replies_may_be_incomplete() {
    assert_eq!(read_osc_response(b"abc", 7), ("abc".to_string(), false, 3));
    assert_eq!(read_osc_response(b"", 7), ("".to_string(), false, 0));
    assert_eq!(read_osc_response(b"ab\x1b", 7), ("ab\x1b".to_string(), false, 3));
}

#[test]
fn replies_byte_by_byte() {
    let mut reader = ReplyReader::new(7);
    assert!(!reader.push(b'a'));
    assert!(!reader.push(0xe9));
    assert!(!reader.push(0x1b));
    assert!(reader.push(b'\\'));
    assert!(reader.push(b'z'));
    assert_eq!(reader.text(), "a\u{e9}");
    assert!(reader.done);
}

#[test]
fn window_area() {
    assert_eq!(window_area_query(), "\x1b[18t");
    assert_eq!(parse_window_area("\x1b[8;24;80"), [24, 80]);
    assert_eq!(parse_window_area("\x1b[8;50;132;7"), [50, 132]);
    assert_eq!(parse_window_area("\x1b[8;+5;-3"), [5, -3]);
    assert_eq!(parse_window_area("\x1b[8;x;80"), [80, 80]);
    assert_eq!(parse_window_area("\x1b[8;24;"), [24, 24]);
    assert_eq!(parse_window_area("\x1b[8;24"), [24, 24]);
    assert_eq!(parse_window_area(""), [80, 24]);
    assert_eq!(parse_window_area("8;99999999999;2147483647"), [80, 2147483647]);
    assert_eq!(parse_window_area("8;-2147483648;2147483648"), [-2147483648, 24]);
}

#[test]
fn palette_colors() {
    assert_eq!(palette_query(4), "\x1b]4;4;?\x07");
    assert_eq!(palette_query(15), "\x1b]4;15;?\x07");
    assert_eq!(read_ansi_color("\x1b]4;4;rgb:1e1e/9090/ffff"), [0x1e, 0x90, 0xff]);
    assert_eq!(read_ansi_color("\x1b]4;4;rgb:1e/90/ff"), [0x1e, 0x90, 0xff]);
    assert_eq!(read_ansi_color("\x1b]4;4;rgb:zz00/9090/f"), [0, 0x90, 0]);
    assert_eq!(read_ansi_color("\x1b]4;4;rgb:1e1e/9090"), [0x1e, 0x90, 0]);
    assert_eq!(read_ansi_color("\x1b]4;4;rgb"), [0, 0, 0]);
    assert_eq!(read_ansi_color("\x1b]4;4"), [0, 0, 0]);
    assert_eq!(read_ansi_color(""), [0, 0, 0]);
}

#[test]
fn foreground_and_background() {
    assert_eq!(color_query(10), "\x1b]10;?\x07");
    assert_eq!(color_query(11), "\x1b]11;?\x07");
    assert_eq!(query_color("\x1b]11;rgb:0000/2b2b/3636"), [0, 0x2b, 0x36]);
    assert_eq!(query_color("\x1b]11"), [0, 0, 0]);
    assert_eq!(parse_color_reply("a;b;c;rgb:AbCd/0102/fFfF", 3), [0xab, 1, 0xff]);
    assert_eq!(parse_color_reply("a;b;c;rgb:AbCd/0102/fFfF", 4), [0, 0, 0]);
}

#[test]
fn clipboard_is_written_in_base64() {
    assert_eq!(paste_to_clipboard("hello"), "\x1b]52;c;aGVsbG8=\x07");
    assert_eq!(paste_to_clipboard(""), "\x1b]52;c;\x07");
    assert_eq!(paste_to_clipboard("rgb(1, 2, 3)"), "\x1b]52;c;cmdiKDEsIDIsIDMp\x07");
    assert_eq!(paste_to_clipboard("\u{e9}"), "\x1b]52;c;w6k=\x07");
    assert_eq!(
        paste_to_clipboard_checked("#ff0000"),
        Some("\x1b]52;c;I2ZmMDAwMA==\x07".to_string())
    );
}

#[test]
fn clipboard_is_read_from_base64() {
    assert_eq!(clipboard_query(), "\x1b]52;c;?\x07\n");
    assert_eq!(read_clipboard("\x1b]52;c;aGVsbG8="), Some("hello".to_string()));
    assert_eq!(read_clipboard("\x1b]52;c;I2ZmMDAwMA=="), Some("#ff0000".to_string()));
    assert_eq!(read_clipboard("\x1b]52;c;"), Some("".to_string()));
    assert_eq!(read_clipboard("\x1b]52;c;w6k=;more"), Some("\u{e9}".to_string()));
    assert_eq!(read_clipboard("\x1b]52;c;aGVsbG8"), None);
    assert_eq!(read_clipboard("\x1b]52;c;hello!"), None);
    assert_eq!(read_clipboard("\x1b]52;c;/w=="), None);
    assert_eq!(read_clipboard("\x1b]52;c"), None);
    assert_eq!(read_clipboard(""), None);
}

#[test]
fn clipboard_text_of_decoded_bytes() {
    assert_eq!(clipboard_text_of(Ok(vec![0x68, 0x69])), Some("hi".to_string()));
    assert_eq!(clipboard_text_of(Ok(vec![0xff])), None);
    assert_eq!(clipboard_text_of(Err(base64::DecodeError::InvalidPadding)), None);
}

#[test]
fn prompt_steps() {
    let mut data: Vec<char> = vec![];
    assert!(!input_step(&mut data, "1"));
    assert!(!input_step(&mut data, "2."));
    assert!(!input_step(&mut data, "\u{7f}"));
    assert!(!input_step(&mut data, "\u{e9}"));
    assert_eq!(data, ['1', '2', '\u{e9}']);
    assert!(input_step(&mut data, "\nrest"));
    assert_eq!(data, ['1', '2', '\u{e9}']);
    let mut empty: Vec<char> = vec![];
    assert!(!input_step(&mut empty, "\u{7f}"));
    assert!(!input_step(&mut empty, ""));
    assert!(empty.is_empty());
}

#[test]
fn menu_steps() {
    assert_eq!(selection_menu_step(1, 4, 10), MenuStep::Chosen(1));
    assert_eq!(selection_menu_step(1, 4, b'0'), MenuStep::Chosen(0));
    assert_eq!(selection_menu_step(1, 4, b'3'), MenuStep::Chosen(3));
    assert_eq!(selection_menu_step(1, 4, b'4'), MenuStep::Moved(1));
    assert_eq!(selection_menu_step(1, 4, b'j'), MenuStep::Moved(2));
    assert_eq!(selection_menu_step(3, 4, b'j'), MenuStep::Moved(0));
    assert_eq!(selection_menu_step(1, 4, b'k'), MenuStep::Moved(0));
    assert_eq!(selection_menu_step(0, 4, b'k'), MenuStep::Moved(3));
    assert_eq!(selection_menu_step(2, 4, b' '), MenuStep::Moved(2));
    assert_eq!(selection_menu_step(0, 60, b'j'), MenuStep::Chosen(58));
}
