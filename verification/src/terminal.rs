//! The questions that the picker puts to the terminal, and how the answers
//! are read: the frame of an answer, the size of the window, the colours of
//! the palette, and the clipboard.
//!
//! Nothing here reads or writes: the caller sends the questions and feeds
//! the bytes of the answers.

use vstd::prelude::*;
use vstd::utf8::{decode_utf8, encode_utf8, valid_utf8};
use vstd::string::StringSliceAdditionalSpecFns;
use vstd::slice::slice_index_get;
use crate::color_conversions::{hex_digit, hex_pair, is_hex_digit};
use crate::text::{
    decimal, parse_i32, parse_i32_spec, push_decimal, push_str, split, split_spec, to_chars,
    views,
};

verus! {

/// The escape character.
pub const ESC: u8 = 0x1b;

/// The bell character, which ends the answers to colour and clipboard
/// questions.
pub const BEL: u8 = 0x07;

/// The rows that are taken where the terminal does not tell its size.
pub const DEFAULT_ROWS: i32 = 80;

/// The columns that are taken where the terminal does not tell its size.
pub const DEFAULT_COLS: i32 = 24;

/// The longest text that `paste_to_clipboard` takes, in bytes.
pub const MAX_CLIPBOARD_BYTES: usize = 0x3000_0000;

/// A byte as the character with the same number.
pub open spec fn char_of_byte(byte: u8) -> char {
    byte as char
}

/// What one more byte makes of an answer that is being read: the answer so
/// far, and whether it is complete.
///
/// The closing byte completes the answer and is not part of it. A
/// backslash right after an escape character completes it too, and takes
/// the escape character away again: some terminals end their answers so.
/// Any other byte is added to the answer.
pub open spec fn reply_step(reply: Seq<char>, end_byte: u8, byte: u8) -> (Seq<char>, bool) {
    if byte == end_byte {
        (reply, true)
    } else if byte == 0x5c && reply.len() > 0 && reply.last() == char_of_byte(ESC) {
        (reply.drop_last(), true)
    } else {
        (reply.push(char_of_byte(byte)), false)
    }
}

/// What the bytes from `from` on make of an answer that is being read: the
/// answer, whether it is complete, and the place after the last byte that
/// was read. Bytes after the end of the answer are not read.
pub open spec fn reply_of(reply: Seq<char>, end_byte: u8, bytes: Seq<u8>, from: int) -> (
    Seq<char>,
    bool,
    int,
)
    decreases bytes.len() - from,
{
    if from < 0 || from >= bytes.len() {
        (reply, false, from)
    } else {
        let (next, done) = reply_step(reply, end_byte, bytes[from]);
        if done {
            (next, true, from + 1)
        } else {
            reply_of(next, end_byte, bytes, from + 1)
        }
    }
}

/// An answer of the terminal that is being read byte by byte.
pub struct ReplyReader {
    /// The byte that ends the answer.
    pub end_byte: u8,
    /// The answer so far.
    pub reply: Vec<char>,
    /// Whether the answer is complete.
    pub done: bool,
}

impl ReplyReader {
    /// A reader at the start of an answer that `end_byte` ends.
    pub fn new(end_byte: u8) -> (reader: ReplyReader)
        ensures
            reader.end_byte == end_byte,
            reader.reply@ == Seq::<char>::empty(),
            !reader.done,
    {
        ReplyReader { end_byte, reply: Vec::new(), done: false }
    }

    /// Takes the next byte of the answer and says whether the answer is
    /// complete. A complete answer takes no more bytes.
    pub fn push(&mut self, byte: u8) -> (done: bool)
        ensures
            final(self).end_byte == old(self).end_byte,
            final(self).done == done,
            old(self).done ==> done && final(self).reply@ == old(self).reply@,
            !old(self).done ==> (final(self).reply@, done) == reply_step(
                old(self).reply@,
                old(self).end_byte,
                byte,
            ),
    {
        if self.done {
            return true;
        }
        let n: usize = self.reply.len();
        if byte == self.end_byte {
            self.done = true;
        } else if byte == 0x5c && n > 0 && self.reply[n - 1] == ESC as char {
            self.reply.pop();
            self.done = true;
        } else {
            self.reply.push(byte as char);
        }
        self.done
    }

    /// The answer as a string.
    pub fn text(&self) -> (text: String)
        ensures
            text@ == self.reply@,
    {
        crate::text::from_chars(&self.reply)
    }
}

/// Reads one answer from the start of `bytes`. The result is the answer,
/// whether it is complete, and the number of bytes that belong to it, the
/// closing bytes counted.
pub fn read_osc_response(bytes: &[u8], end_byte: u8) -> (r: (String, bool, usize))
    ensures
        (r.0@, r.1, r.2 as int) == reply_of(Seq::<char>::empty(), end_byte, bytes@, 0),
        r.2 <= bytes.len(),
{
    let mut reader: ReplyReader = ReplyReader::new(end_byte);
    let mut i: usize = 0;
    while i < bytes.len()
        invariant
            i <= bytes.len(),
            reader.end_byte == end_byte,
            !reader.done,
            reply_of(Seq::<char>::empty(), end_byte, bytes@, 0) == reply_of(
                reader.reply@,
                end_byte,
                bytes@,
                i as int,
            ),
        decreases bytes.len() - i,
    {
        let byte: u8 = *slice_index_get(bytes, i);
        i += 1;
        if reader.push(byte) {
            return (reader.text(), true, i);
        }
    }
    (reader.text(), false, i)
}

/// Field `i` of a list of fields, if the list is that long.
pub open spec fn nth_field(parts: Seq<Seq<char>>, i: int) -> Option<Seq<char>> {
    if 0 <= i < parts.len() {
        Some(parts[i])
    } else {
        None
    }
}

/// Field `i` of a list of fields as a whole number, or `default` where the
/// field is missing or no such number.
pub open spec fn number_or(parts: Seq<Seq<char>>, i: int, default: i32) -> i32 {
    match nth_field(parts, i) {
        Some(field) => match parse_i32_spec(field) {
            Some(v) => v,
            None => default,
        },
        None => default,
    }
}

/// The size of the window that an answer tells: rows in the second field
/// between semicolons and columns in the third, each with its default where
/// the answer does not hold it.
pub open spec fn window_area_spec(reply: Seq<char>) -> (i32, i32) {
    let parts = split_spec(reply, ';');
    (number_or(parts, 1, DEFAULT_ROWS), number_or(parts, 2, DEFAULT_COLS))
}

/// The question for the size of the window. Its answer ends with `t`.
pub fn window_area_query() -> (query: &'static str)
    ensures
        query@ == "\x1b[18t"@,
{
    "\x1b[18t"
}

fn read_number_or(parts: &Vec<Vec<char>>, i: usize, default: i32) -> (v: i32)
    ensures
        v == number_or(views(parts@), i as int, default),
{
    if i >= parts.len() {
        return default;
    }
    match parse_i32(&parts[i]) {
        Some(v) => v,
        None => default,
    }
}

/// Reads the size of the window, rows first, from the answer to
/// `window_area_query`.
pub fn parse_window_area(reply: &str) -> (area: [i32; 2])
    ensures
        (area[0], area[1]) == window_area_spec(reply@),
{
    let chars: Vec<char> = to_chars(reply);
    let parts: Vec<Vec<char>> = split(&chars, ';');
    [read_number_or(&parts, 1, DEFAULT_ROWS), read_number_or(&parts, 2, DEFAULT_COLS)]
}

/// The byte that the first two characters of a text stand for as
/// hexadecimal digits, or 0 where the text is shorter or the two are not
/// both hexadecimal digits.
pub open spec fn channel_of_text(text: Seq<char>) -> u8 {
    if text.len() >= 2 && is_hex_digit(text[0]) && is_hex_digit(text[1]) {
        hex_pair(text, 0)
    } else {
        0
    }
}

/// The channel at place `i` of a list of texts, 0 where the list is
/// shorter.
pub open spec fn channel_at(parts: Seq<Seq<char>>, i: int) -> u8 {
    match nth_field(parts, i) {
        Some(text) => channel_of_text(text),
        None => 0,
    }
}

/// The colour that an answer tells in its field `field` between
/// semicolons: after the colon of the field stand red, green and blue,
/// parted by slashes, of which the first two hexadecimal digits each are
/// read. Whatever is missing or no hexadecimal number counts as 0.
pub open spec fn color_reply_spec(reply: Seq<char>, field: int) -> (u8, u8, u8) {
    match nth_field(split_spec(reply, ';'), field) {
        Some(data) => match nth_field(split_spec(data, ':'), 1) {
            Some(triple) => {
                let parts = split_spec(triple, '/');
                (channel_at(parts, 0), channel_at(parts, 1), channel_at(parts, 2))
            },
            None => (0, 0, 0),
        },
        None => (0, 0, 0),
    }
}

fn read_channel(parts: &Vec<Vec<char>>, i: usize) -> (v: u8)
    ensures
        v == channel_at(views(parts@), i as int),
{
    if i >= parts.len() {
        return 0;
    }
    let text: &Vec<char> = &parts[i];
    if text.len() < 2 {
        return 0;
    }
    match hex_digit(text[0]) {
        Some(high) => match hex_digit(text[1]) {
            Some(low) => high * 16 + low,
            None => 0,
        },
        None => 0,
    }
}

/// Reads the colour in the field `field` of an answer.
pub fn parse_color_reply(reply: &str, field: usize) -> (rgb: [u8; 3])
    ensures
        (rgb[0], rgb[1], rgb[2]) == color_reply_spec(reply@, field as int),
{
    let chars: Vec<char> = to_chars(reply);
    let fields: Vec<Vec<char>> = split(&chars, ';');
    if field >= fields.len() {
        return [0, 0, 0];
    }
    let halves: Vec<Vec<char>> = split(&fields[field], ':');
    if halves.len() < 2 {
        return [0, 0, 0];
    }
    let parts: Vec<Vec<char>> = split(&halves[1], '/');
    [read_channel(&parts, 0), read_channel(&parts, 1), read_channel(&parts, 2)]
}

/// The question for entry `clr_num` of the palette of the terminal. Its
/// answer ends with the bell character.
pub fn palette_query(clr_num: u8) -> (query: String)
    ensures
        query@ == "\x1b]4;"@ + decimal(clr_num as nat) + ";?\x07"@,
{
    let mut query: String = String::new();
    push_str(&mut query, "\x1b]4;");
    push_decimal(&mut query, clr_num as u64);
    push_str(&mut query, ";?\x07");
    proof {
        assert(Seq::<char>::empty() + "\x1b]4;"@ == "\x1b]4;"@);
    }
    query
}

/// Reads the colour of a palette entry from the answer to `palette_query`.
pub fn read_ansi_color(reply: &str) -> (rgb: [u8; 3])
    ensures
        (rgb[0], rgb[1], rgb[2]) == color_reply_spec(reply@, 2),
{
    parse_color_reply(reply, 2)
}

/// The question for the foreground colour (`clr` 10) or the background
/// colour (`clr` 11) of the terminal. Its answer ends with the bell
/// character.
pub fn color_query(clr: u8) -> (query: String)
    ensures
        query@ == "\x1b]"@ + decimal(clr as nat) + ";?\x07"@,
{
    let mut query: String = String::new();
    push_str(&mut query, "\x1b]");
    push_decimal(&mut query, clr as u64);
    push_str(&mut query, ";?\x07");
    proof {
        assert(Seq::<char>::empty() + "\x1b]"@ == "\x1b]"@);
    }
    query
}

/// Reads the foreground or background colour from the answer to
/// `color_query`.
pub fn query_color(reply: &str) -> (rgb: [u8; 3])
    ensures
        (rgb[0], rgb[1], rgb[2]) == color_reply_spec(reply@, 1),
{
    parse_color_reply(reply, 1)
}

/// The text that the standard alphabet of Base64, with padding, makes of
/// bytes.
pub uninterp spec fn base64_text(bytes: Seq<u8>) -> Seq<char>;

/// The bytes that a Base64 text in the standard alphabet, with canonical
/// padding, stands for; `None` for a text that is no such Base64.
pub uninterp spec fn base64_bytes(text: Seq<u8>) -> Option<Seq<u8>>;

/// The error of `base64`'s decoders.
#[verifier::external_type_specification]
#[verifier::external_body]
pub struct ExDecodeError(base64::DecodeError);

/// `Engine::encode` of the `base64` crate, on its engine `STANDARD`: the
/// Base64 text of the bytes, which depends on the bytes alone. The crate
/// panics where the length of the text does not fit `usize`; the bound on
/// the input keeps away from that.
#[verifier::external_body]
fn base64_encode(data: &[u8]) -> (text: String)
    requires
        data.len() <= MAX_CLIPBOARD_BYTES,
    ensures
        text@ == base64_text(data@),
{
    base64::Engine::encode(&base64::engine::general_purpose::STANDARD, data)
}

/// `Engine::decode` of the `base64` crate, on its engine `STANDARD`: the
/// bytes of a Base64 text or the crate's error, which depends on the text
/// alone.
#[verifier::external_body]
fn base64_decode(text: &[u8]) -> (r: Result<Vec<u8>, base64::DecodeError>)
    ensures
        match r {
            Ok(bytes) => base64_bytes(text@) == Some(bytes@),
            Err(_) => base64_bytes(text@) is None,
        },
{
    base64::Engine::decode(&base64::engine::general_purpose::STANDARD, text)
}

/// `String::from_utf8`: the string whose UTF-8 encoding the bytes are, or
/// nothing where the bytes are no UTF-8.
#[verifier::external_body]
fn string_from_utf8(bytes: Vec<u8>) -> (r: Option<String>)
    ensures
        match r {
            Some(text) => valid_utf8(bytes@) && text@ == decode_utf8(bytes@),
            None => !valid_utf8(bytes@),
        },
{
    String::from_utf8(bytes).ok()
}

/// The sequence that writes `data` to the clipboard of the terminal: the
/// Base64 text of the bytes of `data` between the opening of the clipboard
/// command and the bell character.
pub fn paste_to_clipboard(data: &str) -> (sequence: String)
    requires
        data.spec_bytes().len() <= MAX_CLIPBOARD_BYTES,
    ensures
        sequence@ == "\x1b]52;c;"@ + base64_text(data.spec_bytes()) + "\x07"@,
{
    let b64: String = base64_encode(data.as_bytes());
    let mut sequence: String = String::new();
    push_str(&mut sequence, "\x1b]52;c;");
    push_str(&mut sequence, b64.as_str());
    push_str(&mut sequence, "\x07");
    proof {
        assert(Seq::<char>::empty() + "\x1b]52;c;"@ == "\x1b]52;c;"@);
    }
    sequence
}

/// The sequence that writes `data` to the clipboard, or nothing where
/// `data` is longer than `MAX_CLIPBOARD_BYTES`.
pub fn paste_to_clipboard_checked(data: &str) -> (sequence: Option<String>)
    ensures
        match sequence {
            Some(text) => data.spec_bytes().len() <= MAX_CLIPBOARD_BYTES && text@ == "\x1b]52;c;"@
                + base64_text(data.spec_bytes()) + "\x07"@,
            None => data.spec_bytes().len() > MAX_CLIPBOARD_BYTES,
        },
{
    if data.as_bytes().len() <= MAX_CLIPBOARD_BYTES {
        Some(paste_to_clipboard(data))
    } else {
        None
    }
}

/// The question for the content of the clipboard. Its answer ends with the
/// bell character.
pub fn clipboard_query() -> (query: &'static str)
    ensures
        query@ == "\x1b]52;c;?\x07\n"@,
{
    "\x1b]52;c;?\x07\n"
}

/// What the Base64 field of a clipboard answer holds: the text whose UTF-8
/// encoding the Base64 stands for. `None` where the field is no Base64 or
/// its bytes are no UTF-8.
pub open spec fn clipboard_text(decoded: Option<Seq<u8>>) -> Option<Seq<char>> {
    match decoded {
        Some(bytes) => if valid_utf8(bytes) {
            Some(decode_utf8(bytes))
        } else {
            None
        },
        None => None,
    }
}

/// The text that the decoder's verdict on the Base64 field stands for.
pub fn clipboard_text_of(decoded: Result<Vec<u8>, base64::DecodeError>) -> (text: Option<String>)
    ensures
        match text {
            Some(t) => decoded is Ok && clipboard_text(Some(decoded->Ok_0@)) == Some(t@),
            None => decoded is Err || clipboard_text(Some(decoded->Ok_0@)) is None,
        },
{
    match decoded {
        Ok(bytes) => string_from_utf8(bytes),
        Err(_) => None,
    }
}

/// Reads the content of the clipboard from the answer to
/// `clipboard_query`: the third field between semicolons, taken as Base64
/// of UTF-8. `None` where the answer has no such field, or the field is no
/// Base64 of UTF-8.
pub fn read_clipboard(reply: &str) -> (content: Option<String>)
    ensures
        match nth_field(split_spec(reply@, ';'), 2) {
            Some(field) => match content {
                Some(text) => clipboard_text(base64_bytes(encode_utf8(field))) == Some(text@),
                None => clipboard_text(base64_bytes(encode_utf8(field))) is None,
            },
            None => content is None,
        },
{
    let chars: Vec<char> = to_chars(reply);
    let fields: Vec<Vec<char>> = split(&chars, ';');
    if fields.len() < 3 {
        return None;
    }
    let field: String = crate::text::from_chars(&fields[2]);
    clipboard_text_of(base64_decode(field.as_str().as_bytes()))
}

} // verus!
