use pokemon_arena::decoder::events::{
    decode_frame, events_from_parsed, key_shaped, read_resize_report, session_events, InputEvent,
    RawInput, ALT_BIT, CTRL_BIT, SHIFT_BIT,
};
use pokemon_arena::decoder::framing::{scan, Step};
use pokemon_arena::decoder::stream::InputDecoder;
use pokemon_arena::keys::{KeyCode, KeyEvent, KeyModifiers};

fn key(code: KeyCode) -> InputEvent {
    InputEvent::Key(KeyEvent::plain(code))
}

fn with(code: KeyCode, modifiers: KeyModifiers) -> InputEvent {
    InputEvent::Key(KeyEvent::new(code, modifiers))
}

#[test]
fn frames_of_plain_bytes_and_characters() {
    assert_eq!(scan(b""), Step::NeedMore);
    assert_eq!(scan(b"a"), Step::Frame(1));
    assert_eq!(scan(b"ab"), Step::Frame(1));
    assert_eq!(scan("é".as_bytes()), Step::Frame(2));
    assert_eq!(scan("€x".as_bytes()), Step::Frame(3));
    assert_eq!(scan("😀".as_bytes()), Step::Frame(4));
    assert_eq!(scan(&"€".as_bytes()[..2]), Step::NeedMore);
    assert_eq!(scan(&[0xe2, 0x41]), Step::Skip(1));
    assert_eq!(scan(&[0xe2, 0x82, 0x41]), Step::Skip(2));
    assert_eq!(scan(&[0x80]), Step::Skip(1));
    assert_eq!(scan(&[0xff, 0x41]), Step::Skip(1));
    assert_eq!(scan(&[0xc0, 0x80]), Step::Skip(1));
}

#[test]
fn frames_of_escape_sequences() {
    assert_eq!(scan(b"\x1b"), Step::NeedMore);
    assert_eq!(scan(b"\x1b["), Step::NeedMore);
    assert_eq!(scan(b"\x1b[1;5"), Step::NeedMore);
    assert_eq!(scan(b"\x1b[A"), Step::Frame(3));
    assert_eq!(scan(b"\x1b[1;5Axyz"), Step::Frame(6));
    assert_eq!(scan(b"\x1b[8;30;120t"), Step::Frame(11));
    assert_eq!(scan(b"\x1bO"), Step::NeedMore);
    assert_eq!(scan(b"\x1bOP"), Step::Frame(3));
    assert_eq!(scan(b"\x1bO\x01"), Step::Skip(2));
    assert_eq!(scan(b"\x1bO1;5A"), Step::Frame(6));
    assert_eq!(scan(b"\x1bO1;5"), Step::NeedMore);
    assert_eq!(scan(b"\x1ba"), Step::Frame(2));
    assert_eq!(scan(b"\x1b\x1b"), Step::Frame(1));
    assert_eq!(scan(&[0x1b, 0xc3, 0xa9]), Step::Frame(1));
    assert_eq!(scan(b"\x1b[12\x07A"), Step::Skip(4));
    assert_eq!(scan(b"\x1b[\x1b[A"), Step::Skip(2));
}

#[test]
fn a_sequence_that_never_ends_is_dropped_at_the_limit() {
    let mut bytes = b"\x1b[".to_vec();
    bytes.extend(std::iter::repeat(b'1').take(61));
    assert_eq!(bytes.len(), 63);
    assert_eq!(scan(&bytes), Step::NeedMore);
    bytes.push(b'1');
    assert_eq!(scan(&bytes), Step::Skip(64));
    bytes.push(b'A');
    assert_eq!(scan(&bytes), Step::Skip(64));
}

#[test]
fn size_reports_are_read() {
    assert_eq!(read_resize_report(b"\x1b[8;30;120t"), Some((30, 120)));
    assert_eq!(read_resize_report(b"\x1b[8;0;007t"), Some((0, 7)));
    assert_eq!(read_resize_report(b"\x1b[8;4294967295;1t"), Some((4294967295, 1)));
    assert_eq!(read_resize_report(b"\x1b[8;4294967296;1t"), None);
    assert_eq!(read_resize_report(b"\x1b[8;30;t"), None);
    assert_eq!(read_resize_report(b"\x1b[8;;120t"), None);
    assert_eq!(read_resize_report(b"\x1b[8;30t"), None);
    assert_eq!(read_resize_report(b"\x1b[8;30;120"), None);
    assert_eq!(read_resize_report(b"\x1b[8;30;120tt"), None);
    assert_eq!(read_resize_report(b"\x1b[9;30;120t"), None);
    assert_eq!(read_resize_report(b"\x1b[8;30;120;1t"), None);
    assert_eq!(read_resize_report(b"\x1b[A"), None);
    assert_eq!(read_resize_report(b""), None);
}

#[test]
fn modifiers_count_only_alone() {
    let parsed = vec![
        RawInput::Key(KeyCode::Char('a'), 0),
        RawInput::Key(KeyCode::Char('b'), 2),
        RawInput::Other,
        RawInput::Key(KeyCode::Char('c'), 4),
        RawInput::Key(KeyCode::Up, 8),
        RawInput::Key(KeyCode::Char('d'), 12),
        RawInput::Key(KeyCode::Char('e'), 1),
    ];
    assert_eq!(
        session_events(&parsed),
        vec![
            key(KeyCode::Char('a')),
            with(KeyCode::Char('b'), KeyModifiers::shift()),
            with(KeyCode::Char('c'), KeyModifiers::alt()),
            with(KeyCode::Up, KeyModifiers::control()),
            key(KeyCode::Char('d')),
            key(KeyCode::Char('e')),
        ]
    );
}

#[test]
fn an_escape_sequence_counts_only_as_one_event() {
    let one = vec![RawInput::Key(KeyCode::Up, 0)];
    let many = vec![RawInput::Key(KeyCode::Char('['), 4), RawInput::Key(KeyCode::Char('5'), 0)];
    assert_eq!(events_from_parsed(b"\x1b[A", &one), vec![key(KeyCode::Up)]);
    assert_eq!(events_from_parsed(b"\x1b[5n", &many), vec![]);
    assert_eq!(events_from_parsed(b"\x1b[5n", &vec![]), vec![]);
    assert_eq!(events_from_parsed(b"x", &many).len(), 2);
    assert_eq!(events_from_parsed(b"\x1b", &one), vec![key(KeyCode::Up)]);
    assert_eq!(
        events_from_parsed(b"\x1b[8;24;80t", &many),
        vec![InputEvent::Resized { columns: 80, rows: 24 }]
    );
    assert_eq!(
        events_from_parsed(b"\x1b[8;65537;65616t", &one),
        vec![InputEvent::Resized { columns: 80, rows: 1 }]
    );
}

#[test]
fn keys_are_decoded() {
    assert_eq!(decode_frame(b"a"), vec![key(KeyCode::Char('a'))]);
    assert_eq!(decode_frame(b"q"), vec![key(KeyCode::Char('q'))]);
    assert_eq!(decode_frame("é".as_bytes()), vec![key(KeyCode::Char('é'))]);
    assert_eq!(decode_frame(b"\r"), vec![key(KeyCode::Enter)]);
    assert_eq!(decode_frame(b"\t"), vec![key(KeyCode::Tab)]);
    assert_eq!(decode_frame(b"\x7f"), vec![key(KeyCode::Backspace)]);
    assert_eq!(decode_frame(b"\x1b"), vec![key(KeyCode::Esc)]);
    assert_eq!(decode_frame(b"\x1b[A"), vec![key(KeyCode::Up)]);
    assert_eq!(decode_frame(b"\x1b[B"), vec![key(KeyCode::Down)]);
    assert_eq!(decode_frame(b"\x1b[C"), vec![key(KeyCode::Right)]);
    assert_eq!(decode_frame(b"\x1b[D"), vec![key(KeyCode::Left)]);
    assert_eq!(decode_frame(b"\x11"), vec![with(KeyCode::Char('q'), KeyModifiers::control())]);
    assert_eq!(decode_frame(b"\x1b[1;5A"), vec![with(KeyCode::Up, KeyModifiers::control())]);
    assert_eq!(decode_frame(b"\x1b[Z"), vec![with(KeyCode::Tab, KeyModifiers::shift())]);
}

#[test]
fn unknown_sequences_leave_nothing() {
    assert_eq!(decode_frame(b"\x1b[5n"), vec![]);
    assert_eq!(decode_frame(b"\x1b[?1;2c"), vec![]);
}

#[test]
fn a_stream_is_decoded_in_order() {
    let mut decoder = InputDecoder::new();
    let events = decoder.feed(b"ab\x1b[A\r\x1b[8;24;80tq");
    assert_eq!(
        events,
        vec![
            key(KeyCode::Char('a')),
            key(KeyCode::Char('b')),
            key(KeyCode::Up),
            key(KeyCode::Enter),
            InputEvent::Resized { columns: 80, rows: 24 },
            key(KeyCode::Char('q')),
        ]
    );
    assert_eq!(decoder.pending_len(), 0);
}

#[test]
fn what_has_not_ended_is_kept_for_the_next_read() {
    let mut decoder = InputDecoder::new();
    assert_eq!(decoder.feed(b"a\x1b["), vec![key(KeyCode::Char('a'))]);
    assert_eq!(decoder.pending_len(), 2);
    assert_eq!(decoder.feed(b"1;5"), vec![]);
    assert_eq!(decoder.pending_len(), 5);
    assert_eq!(
        decoder.feed(b"Ab"),
        vec![with(KeyCode::Up, KeyModifiers::control()), key(KeyCode::Char('b'))]
    );
    assert_eq!(decoder.pending_len(), 0);
}

#[test]
fn malformed_bytes_are_dropped_and_decoding_goes_on() {
    let mut decoder = InputDecoder::new();
    let events = decoder.feed(b"a\x1b[12\x07\x80\xffb\x1b[A");
    assert_eq!(events.first(), Some(&key(KeyCode::Char('a'))));
    assert_eq!(events[events.len() - 2..], [key(KeyCode::Char('b')), key(KeyCode::Up)]);
    assert_eq!(decoder.pending_len(), 0);
}

fn all_in_one(bytes: &[u8]) -> (Vec<InputEvent>, usize) {
    let mut decoder = InputDecoder::new();
    let events = decoder.feed(bytes);
    (events, decoder.pending_len())
}

#[test]
fn any_split_gives_the_events_of_the_whole() {
    let stream = "hé\x1b[A\x1b[1;5B€\x1bOP\x1b[8;24;80t\r\x1bx\x1b[5n😀z".as_bytes();
    let (whole, left) = all_in_one(stream);
    assert_eq!(left, 0);
    assert_eq!(whole.first(), Some(&key(KeyCode::Char('h'))));
    assert_eq!(whole.last(), Some(&key(KeyCode::Char('z'))));
    for cut in 0..=stream.len() {
        let mut decoder = InputDecoder::new();
        let mut events = decoder.feed(&stream[..cut]);
        events.extend(decoder.feed(&stream[cut..]));
        assert_eq!(events, whole, "cut at {}", cut);
        assert_eq!(decoder.pending_len(), 0);
    }
    let mut decoder = InputDecoder::new();
    let mut events = Vec::new();
    for byte in stream {
        events.extend(decoder.feed(&[*byte]));
    }
    assert_eq!(events, whole);
    let mut decoder = InputDecoder::new();
    let mut events = Vec::new();
    for piece in stream.chunks(3) {
        events.extend(decoder.feed(piece));
    }
    assert_eq!(events, whole);
}

#[test]
fn an_arrow_key_cut_after_the_escape_byte_is_still_an_arrow() {
    let mut decoder = InputDecoder::new();
    assert_eq!(decoder.feed(b"\x1b"), vec![]);
    assert_eq!(decoder.feed(b"[A"), vec![key(KeyCode::Up)]);
}

#[test]
fn a_lone_escape_byte_is_the_escape_key_once_time_has_passed() {
    let mut decoder = InputDecoder::new();
    assert_eq!(decoder.feed(b"\x1b"), vec![]);
    assert_eq!(decoder.pending_len(), 1);
    assert_eq!(decoder.finish(), vec![key(KeyCode::Esc)]);
    assert_eq!(decoder.pending_len(), 0);
    assert_eq!(decoder.finish(), vec![]);
}

#[test]
fn the_beginning_of_anything_else_is_dropped_once_time_has_passed() {
    let mut decoder = InputDecoder::new();
    assert_eq!(decoder.feed(b"\x1b[1;"), vec![]);
    assert_eq!(decoder.finish(), vec![]);
    assert_eq!(decoder.pending_len(), 0);
    assert_eq!(decoder.feed(b"5A"), vec![key(KeyCode::Char('5')), key(KeyCode::Char('A'))]);
    assert_eq!(decoder.feed(&"€".as_bytes()[..1]), vec![]);
    assert_eq!(decoder.finish(), vec![]);
}

#[test]
fn mouse_reports_and_pastes_give_no_keys() {
    assert_eq!(decode_frame(b"\x1b[<0;10;5M"), vec![]);
    assert_eq!(decode_frame(b"\x1b[<0;10;5m"), vec![]);
    assert_eq!(decode_frame(b"\x1b[200~"), vec![]);
    let mut decoder = InputDecoder::new();
    let events = decoder.feed(b"\x1b[200~ab\x1b[201~c");
    assert_eq!(events.first(), Some(&key(KeyCode::Char('a'))));
    assert_eq!(events.last(), Some(&key(KeyCode::Char('c'))));
}

/// A stream of bytes made up by a fixed rule, rich in escape bytes,
/// brackets, digits and bytes of characters of several bytes.
fn made_up_stream(seed: u64, len: usize) -> Vec<u8> {
    let alphabet: &[u8] = b"\x1b\x1b[[O<;;0123456789~tMmABCDZaq\r\t\x7f\x00\x03\x80\xbf\xc3\xa9\xe2\x82\xac\xf0\x9f\xff";
    let mut state = seed;
    let mut bytes = Vec::with_capacity(len);
    for _ in 0..len {
        state = state.wrapping_mul(6364136223846793005).wrapping_add(1442695040888963407);
        let pick = (state >> 33) as usize;
        if pick % 7 == 0 {
            bytes.push((state >> 40) as u8);
        } else {
            bytes.push(alphabet[pick % alphabet.len()]);
        }
    }
    bytes
}

fn decodes_without_failing(seed: u64) {
    let stream = made_up_stream(seed, 1500);
    let mut decoder = InputDecoder::new();
    let _ = decoder.feed(&stream);
    assert!(decoder.pending_len() < 64);
    let _ = decoder.finish();
    assert_eq!(decoder.pending_len(), 0);
}

#[test]
fn any_bytes_are_decoded_without_failing() {
    decodes_without_failing(1);
}

#[test]
fn any_other_bytes_are_decoded_without_failing() {
    decodes_without_failing(2);
}

#[test]
fn yet_other_bytes_are_decoded_without_failing() {
    decodes_without_failing(3);
}

fn splits_agree(seed: u64) {
    let stream = made_up_stream(seed, 48);
    let (whole, left) = all_in_one(&stream);
    for cut in 0..=stream.len() {
        let mut decoder = InputDecoder::new();
        let mut events = decoder.feed(&stream[..cut]);
        events.extend(decoder.feed(&stream[cut..]));
        assert_eq!(events, whole, "seed {} cut {}", seed, cut);
        assert_eq!(decoder.pending_len(), left);
    }
}

#[test]
fn a_made_up_stream_split_anywhere_gives_the_same_events() {
    splits_agree(100);
}

#[test]
fn another_made_up_stream_split_anywhere_gives_the_same_events() {
    splits_agree(101);
}

#[test]
fn a_third_made_up_stream_split_anywhere_gives_the_same_events() {
    splits_agree(102);
}

#[test]
fn a_byte_means_the_same_every_time() {
    let mut decoder = InputDecoder::new();
    let first = decoder.feed(b"a\rq\x11");
    let again = decoder.feed(b"a\rq\x11a");
    let mut one_by_one = Vec::new();
    for frame in [&b"a"[..], b"\r", b"q", b"\x11"] {
        one_by_one.extend(decode_frame(frame));
    }
    assert_eq!(first, one_by_one);
    assert_eq!(again[..4], first[..]);
    assert_eq!(again[4], first[0]);
}

#[test]
fn escape_before_a_key_is_alt_with_that_key() {
    assert_eq!(decode_frame(b"\x1ba"), vec![with(KeyCode::Char('a'), KeyModifiers::alt())]);
    let mut decoder = InputDecoder::new();
    assert_eq!(
        decoder.feed(b"\x1b\x1b[A"),
        vec![key(KeyCode::Esc), key(KeyCode::Up)]
    );
}

#[test]
fn the_modifier_bits_are_those_of_the_parser() {
    assert_eq!(termwiz::input::Modifiers::SHIFT.bits(), SHIFT_BIT);
    assert_eq!(termwiz::input::Modifiers::ALT.bits(), ALT_BIT);
    assert_eq!(termwiz::input::Modifiers::CTRL.bits(), CTRL_BIT);
}

#[test]
fn only_bytes_of_the_shape_of_a_key_are_keys() {
    for frame in [&b"a"[..], b"\x1b", b"\x00", b"\x7f", "é".as_bytes(), "€".as_bytes()] {
        assert!(key_shaped(frame), "{:?}", frame);
    }
    for frame in [&b"\x1ba"[..], b"\x1b[A", b"\x1bOP", b"\x1b[1;5A", b"\x1b[27;16;127~"] {
        assert!(key_shaped(frame), "{:?}", frame);
    }
    for frame in [&b"\x1b[200~"[..], b"\x1b[15;2~", b"\x1b[97;5u", b"\x1b[2^", b"\x1b[c"] {
        assert!(key_shaped(frame), "{:?}", frame);
    }
    for frame in [&b""[..], b"ab", b"\x80", b"\xc3", b"\xc3\x41", b"\xe2\x82", b"\x1b\x1b"] {
        assert!(!key_shaped(frame), "{:?}", frame);
    }
    for frame in [&b"\x1b["[..], b"\x1b[1", b"\x1b[<0;1;1M", b"\x1b[?1c", b"\x1b[5n"] {
        assert!(!key_shaped(frame), "{:?}", frame);
    }
    for frame in [&b"\x1b[8;24;80t"[..], b"\x1b[1m", b"\x1b[AA", b"\x1b[A\x1b[B", b"\x1b[ A"] {
        assert!(!key_shaped(frame), "{:?}", frame);
    }
    assert!(key_shaped(b"\x1b[1234567890123A"));
    assert!(!key_shaped(b"\x1b[12345678901234A"));
}

#[test]
fn a_paste_that_is_no_text_does_no_harm() {
    let bytes = b"\x1b[200~\xff\x1b[201~";
    assert!(!key_shaped(bytes));
    assert_eq!(decode_frame(bytes), vec![]);
    let mut decoder = InputDecoder::new();
    let _ = decoder.feed(bytes);
    assert_eq!(decoder.pending_len(), 0);
    assert_eq!(decoder.feed(b"a"), vec![key(KeyCode::Char('a'))]);
}

#[test]
fn bytes_that_are_no_frame_mean_nothing() {
    assert_eq!(decode_frame(b""), vec![]);
    assert_eq!(decode_frame(b"ab"), vec![]);
    assert_eq!(decode_frame(b"\x1b[A\x1b[B"), vec![]);
    assert_eq!(decode_frame(b"\x1b[12345678901234567890123A"), vec![]);
    assert_eq!(decode_frame(b"\x1b[1;2;3;4;5;6;7;8;9;10;11m"), vec![]);
    assert_eq!(
        decode_frame(b"\x1b[8;24;80t"),
        vec![InputEvent::Resized { columns: 80, rows: 24 }]
    );
}

#[test]
fn keys_with_modifiers_in_application_mode_are_one_frame() {
    let mut decoder = InputDecoder::new();
    let events = decoder.feed(b"\x1bO1;5Ax");
    assert_eq!(events.len(), 2);
    assert_eq!(events[0], with(KeyCode::Null, KeyModifiers::control()));
    assert_eq!(events[1], key(KeyCode::Char('x')));
}

#[test]
fn what_terminals_mean_otherwise_is_read_as_typed() {
    let mut decoder = InputDecoder::new();
    let old_mouse_report = decoder.feed(b"\x1b[M !!");
    assert_eq!(
        old_mouse_report,
        vec![key(KeyCode::Char(' ')), key(KeyCode::Char('!')), key(KeyCode::Char('!'))]
    );
    let pasted = decoder.feed(b"\x1b[200~hi\x1b[201~");
    assert_eq!(pasted[..2], [key(KeyCode::Char('h')), key(KeyCode::Char('i'))]);
    let title = decoder.feed(b"\x1b]0;t\x07");
    assert_eq!(title.first(), Some(&with(KeyCode::Char(']'), KeyModifiers::alt())));
    assert_eq!(title.len(), 5);
}
