use terminal::{Key, Terminal, TerminalError};

fn poll(bytes: &[u8]) -> Option<Result<Key, TerminalError>> {
    Terminal::read_key(&Ok(bytes.to_vec())).0
}

fn used(bytes: &[u8]) -> usize {
    Terminal::read_key(&Ok(bytes.to_vec())).1
}

#[test]
fn failed_read_is_reported() {
    assert_eq!(Terminal::read_key(&Err(())), (Some(Err(TerminalError::ReadFailed)), 0));
}

#[test]
fn no_input_asks_for_another_poll() {
    assert_eq!(Terminal::read_key(&Ok(Vec::new())), (None, 0));
}

#[test]
fn printable_character_is_a_character_key() {
    assert_eq!(poll(b"a"), Some(Ok(Key::Char('a'))));
    assert_eq!(poll(b"Z"), Some(Ok(Key::Char('Z'))));
    assert_eq!(poll(b" "), Some(Ok(Key::Char(' '))));
    assert_eq!(poll(b"~"), Some(Ok(Key::Char('~'))));
}

#[test]
fn first_key_of_several_is_returned() {
    assert_eq!(poll(b"xyz"), Some(Ok(Key::Char('x'))));
}

#[test]
fn line_ends_and_tab_are_characters() {
    assert_eq!(poll(b"\r"), Some(Ok(Key::Char('\n'))));
    assert_eq!(poll(b"\n"), Some(Ok(Key::Char('\n'))));
    assert_eq!(poll(b"\t"), Some(Ok(Key::Char('\t'))));
}

#[test]
fn composed_character_is_one_key() {
    assert_eq!(poll("é".as_bytes()), Some(Ok(Key::Char('é'))));
    assert_eq!(poll("€".as_bytes()), Some(Ok(Key::Char('€'))));
}

#[test]
fn arrows_are_told_apart() {
    let up = poll(b"\x1b[A");
    let down = poll(b"\x1b[B");
    let right = poll(b"\x1b[C");
    let left = poll(b"\x1b[D");
    assert_eq!(up, Some(Ok(Key::Up)));
    assert_eq!(down, Some(Ok(Key::Down)));
    assert_eq!(right, Some(Ok(Key::Right)));
    assert_eq!(left, Some(Ok(Key::Left)));
    assert_ne!(up, down);
    assert_ne!(left, right);
    assert_ne!(up, left);
    assert_ne!(down, right);
}

#[test]
fn bare_escape_is_no_arrow() {
    let escape = poll(b"\x1b");
    assert_eq!(escape, Some(Ok(Key::Esc)));
    assert_ne!(escape, poll(b"\x1b[A"));
    assert_ne!(escape, poll(b"\x1b[B"));
    assert_ne!(escape, poll(b"\x1b[C"));
    assert_ne!(escape, poll(b"\x1b[D"));
}

#[test]
fn navigation_keys() {
    assert_eq!(poll(b"\x1b[H"), Some(Ok(Key::Home)));
    assert_eq!(poll(b"\x1b[F"), Some(Ok(Key::End)));
    assert_eq!(poll(b"\x1b[1~"), Some(Ok(Key::Home)));
    assert_eq!(poll(b"\x1b[7~"), Some(Ok(Key::Home)));
    assert_eq!(poll(b"\x1b[4~"), Some(Ok(Key::End)));
    assert_eq!(poll(b"\x1b[8~"), Some(Ok(Key::End)));
    assert_eq!(poll(b"\x1b[3~"), Some(Ok(Key::Delete)));
    assert_eq!(poll(b"\x1b[5~"), Some(Ok(Key::PageUp)));
    assert_eq!(poll(b"\x1b[6~"), Some(Ok(Key::PageDown)));
    assert_eq!(poll(b"\x7f"), Some(Ok(Key::Backspace)));
}

#[test]
fn function_keys() {
    assert_eq!(poll(b"\x1bOP"), Some(Ok(Key::F(1))));
    assert_eq!(poll(b"\x1bOS"), Some(Ok(Key::F(4))));
    assert_eq!(poll(b"\x1b[[A"), Some(Ok(Key::F(1))));
    assert_eq!(poll(b"\x1b[15~"), Some(Ok(Key::F(5))));
    assert_eq!(poll(b"\x1b[17~"), Some(Ok(Key::F(6))));
    assert_eq!(poll(b"\x1b[24~"), Some(Ok(Key::F(12))));
}

#[test]
fn modified_characters() {
    assert_eq!(poll(b"\x1ba"), Some(Ok(Key::Alt('a'))));
    assert_eq!(poll(b"\x01"), Some(Ok(Key::Ctrl('a'))));
    assert_eq!(poll(b"\x11"), Some(Ok(Key::Ctrl('q'))));
    assert_eq!(poll(b"\x1a"), Some(Ok(Key::Ctrl('z'))));
    assert_eq!(poll(b"\x1c"), Some(Ok(Key::Ctrl('4'))));
}

#[test]
fn null_byte_and_unnamed_keys_are_null() {
    assert_eq!(poll(b"\0"), Some(Ok(Key::Null)));
    assert_eq!(poll(b"\x1b[Z"), Some(Ok(Key::Null)));
    assert_eq!(poll(b"\x1b[2~"), Some(Ok(Key::Null)));
}

#[test]
fn unknown_sequences_hold_no_key() {
    assert_eq!(poll(b"\x1b["), None);
    assert_eq!(poll(b"\x1b[x"), None);
    assert_eq!(poll(b"\x1b[9~"), None);
    assert_eq!(poll(b"\x1b[1A"), None);
    assert_eq!(poll(b"\x1bO"), None);
}

#[test]
fn key_after_an_unknown_sequence_is_found() {
    assert_eq!(poll(b"\x1b[xq"), Some(Ok(Key::Char('q'))));
    assert_eq!(poll(b"\x1b[9~\x1b[A"), Some(Ok(Key::Up)));
}

#[test]
fn mouse_reports_are_not_decoded() {
    assert!(!Key::is_decodable(&b"\x1b[M".to_vec()));
    assert!(!Key::is_decodable(&b"\x1b[M !!".to_vec()));
    assert!(!Key::is_decodable(&b"\x1b[<0;1;1M".to_vec()));
    assert!(!Key::is_decodable(&b"\x1b[32;1;1M".to_vec()));
    assert!(!Key::is_decodable(&b"\x1b[1M".to_vec()));
    assert!(!Key::is_decodable(&b"\x1b[1;2M".to_vec()));
    assert!(!Key::is_decodable(&b"a\x1b[M".to_vec()));
    assert_eq!(Terminal::read_key(&Ok(b"\x1b[M".to_vec())), (None, 3));
    assert_eq!(Terminal::read_key(&Ok(b"\x1b[<0;1;1M".to_vec())), (None, 9));
    assert_eq!(Terminal::read_key(&Ok(b"\x1b[M !!q".to_vec())), (None, 7));
}

#[test]
fn key_before_a_mouse_report_is_found() {
    assert_eq!(Terminal::read_key(&Ok(b"a\x1b[M".to_vec())), (Some(Ok(Key::Char('a'))), 1));
    assert_eq!(
        Terminal::read_key(&Ok(b"\x1b[x\x1b[D\x1b[<0;1;1M".to_vec())),
        (Some(Ok(Key::Left)), 6)
    );
}

#[test]
fn cut_off_and_long_parameters_are_not_decoded() {
    assert!(!Key::is_decodable(&b"\x1b[1".to_vec()));
    assert!(!Key::is_decodable(&b"\x1b[12".to_vec()));
    assert!(!Key::is_decodable(&b"\x1b[999~".to_vec()));
    assert!(!Key::is_decodable(&b"\x1b[1;5".to_vec()));
    assert!(!Key::is_decodable(&b"\x1b[1;~".to_vec()));
    assert!(!Key::is_decodable(&b"\x1b[1;25~".to_vec()));
    assert_eq!(Terminal::read_key(&Ok(b"\x1b[1".to_vec())), (None, 3));
    assert_eq!(Terminal::read_key(&Ok(b"\x1b[999~".to_vec())), (None, 6));
    assert_eq!(Terminal::read_key(&Ok(b"\x1b[1;~".to_vec())), (None, 5));
    assert_eq!(Key::decode(&b"\x1b[12".to_vec()), (None, 4));
    assert_eq!(Key::decode(&b"q\x1b[12".to_vec()), (Some(Key::Char('q')), 1));
}

#[test]
fn modified_arrows_are_passed_over() {
    assert!(Key::is_decodable(&b"\x1b[1;5A".to_vec()));
    assert!(Key::is_decodable(&b"\x1b[3;5~".to_vec()));
    assert_eq!(Terminal::read_key(&Ok(b"\x1b[1;5A".to_vec())), (None, 6));
    assert_eq!(Terminal::read_key(&Ok(b"\x1b[3;5~".to_vec())), (None, 6));
    assert_eq!(Terminal::read_key(&Ok(b"\x1b[1;5Aq".to_vec())), (Some(Ok(Key::Char('q'))), 7));
}

#[test]
fn used_bytes_end_with_the_first_key() {
    assert_eq!(used(b"a"), 1);
    assert_eq!(used(b"xyz"), 1);
    assert_eq!(used(b"\x1b"), 1);
    assert_eq!(used(b"\x1b[A"), 3);
    assert_eq!(used(b"\x1b[A\x1b[B"), 3);
    assert_eq!(used(b"\x1b[3~x"), 4);
    assert_eq!(used(b"\x1b[24~x"), 5);
    assert_eq!(used(b"\x1bOPx"), 3);
    assert_eq!(used("\u{e9}x".as_bytes()), 2);
    assert_eq!(used(b"\x1b[9~\x1b[A"), 7);
    assert_eq!(used(b"\x1b["), 2);
    assert_eq!(used(&[0xff]), 1);
}

#[test]
fn every_key_of_a_chunk_comes_in_turn() {
    let mut pending = b"ab\x1b[C\x1b[6~\x7f\x1b".to_vec();
    let mut keys = Vec::new();
    while !pending.is_empty() {
        let (outcome, count) = Terminal::read_key(&Ok(pending.clone()));
        assert!(count >= 1 && count <= pending.len());
        if let Some(Ok(key)) = outcome {
            keys.push(key);
        }
        pending = pending[count..].to_vec();
    }
    assert_eq!(
        keys,
        vec![Key::Char('a'), Key::Char('b'), Key::Right, Key::PageDown, Key::Backspace, Key::Esc]
    );
}

#[test]
fn ordinary_input_is_decodable() {
    assert!(Key::is_decodable(&b"".to_vec()));
    assert!(Key::is_decodable(&b"hello".to_vec()));
    assert!(Key::is_decodable(&b"\x1b".to_vec()));
    assert!(Key::is_decodable(&b"\x1b[".to_vec()));
    assert!(Key::is_decodable(&b"\x1b[A".to_vec()));
    assert!(Key::is_decodable(&b"\x1b[3~".to_vec()));
    assert!(Key::is_decodable(&b"\x1b[24~".to_vec()));
    assert!(Key::is_decodable(&b"\x1b[1A".to_vec()));
    assert!(Key::is_decodable(&b"\x1b[1;5A".to_vec()));
    assert!(Key::is_decodable(&b"M<1".to_vec()));
    assert!(Key::is_decodable(&b"\x1bM".to_vec()));
    assert!(Key::is_decodable(&vec![0xff, 0xfe, 0x1b, 0x80]));
}

#[test]
fn invalid_text_holds_no_key() {
    assert_eq!(poll(&[0xff]), None);
    assert_eq!(poll(&[0xc3]), None);
}

#[test]
fn decode_agrees_with_read_key() {
    assert_eq!(Key::decode(&b"\x1b[B".to_vec()), (Some(Key::Down), 3));
    assert_eq!(Key::decode(&b"".to_vec()), (None, 0));
    assert_eq!(Terminal::key_outcome(Some(Key::Down)), Some(Ok(Key::Down)));
    assert_eq!(Terminal::key_outcome(None), None);
}

#[test]
fn every_ascii_byte_is_its_key() {
    for byte in 0u8..=0x7f {
        let expected = match byte {
            0x1b => Key::Esc,
            0x0a | 0x0d => Key::Char('\n'),
            0x09 => Key::Char('\t'),
            0x7f => Key::Backspace,
            0x01..=0x1a => Key::Ctrl((byte + 0x60) as char),
            0x1c..=0x1f => Key::Ctrl((byte + 0x18) as char),
            0x00 => Key::Null,
            _ => Key::Char(byte as char),
        };
        assert_eq!(Terminal::read_key(&Ok(vec![byte])), (Some(Ok(expected)), 1));
        assert_eq!(Key::decode(&vec![byte]), (Some(expected), 1));
    }
}

#[test]
fn bytes_above_ascii_are_no_key_alone() {
    for byte in 0x80u8..=0xff {
        assert_eq!(Terminal::read_key(&Ok(vec![byte])), (None, 1));
    }
}
