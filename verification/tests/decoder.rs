use vim_fmi::keycodes::ExtendedCodeTable;
use vim_fmi::keycodes::SingleByteTable;
use vim_fmi::keylog::Keylog;

fn decode(bytes: &[u8]) -> Vec<String> {
    Keylog::new(bytes).into_iter()
}

#[test]
fn printable_characters_decode_to_themselves() {
    assert_eq!(decode(b"hello"), vec!["h", "e", "l", "l", "o"]);
}

#[test]
fn control_byte_decodes_to_control_token() {
    assert_eq!(decode(&[0x03]), vec!["<C-C>"]);
}

#[test]
fn named_control_characters_win_over_control_tokens() {
    assert_eq!(decode(&[0x1b, 0x0d, 0x0a, 0x09]), vec!["<Esc>", "<CR>", "<NL>", "<Tab>"]);
}

#[test]
fn escaped_pair_decodes_through_extended_table() {
    assert_eq!(decode(&[0x80, 0x6b, 0x31]), vec!["<F1>"]);
}

#[test]
fn truncated_escape_yields_nothing() {
    assert_eq!(decode(&[0x80]), Vec::<String>::new());
    assert_eq!(decode(&[0x80, 0x6b]), Vec::<String>::new());
}

#[test]
fn unmapped_extended_code_yields_one_empty_token() {
    assert_eq!(decode(&[0x80, 0xff, 0xff]), vec![""]);
}

#[test]
fn two_passes_over_the_same_bytes_agree() {
    let bytes: Vec<u8> = vec![0x68, 0x80, 0x6b, 0x75, 0x03, 0x1b, 0x80, 0xfd, 0x2c, 0xff];
    let log = Keylog::new(&bytes);
    let first = log.into_iter();
    let second = log.into_iter();
    assert_eq!(first, second);
}

#[test]
fn high_bytes_fall_back_to_hex_tokens() {
    assert_eq!(decode(&[0xff, 0x81, 0x00]), vec!["<0xff>", "<0x81>", "<0x00>"]);
}

#[test]
fn delete_byte_decodes_as_control_token() {
    assert_eq!(decode(&[0x7f]), vec!["<C-?>"]);
}

#[test]
fn escape_byte_in_midstream_consumes_two_more_bytes() {
    assert_eq!(decode(&[0x61, 0x80, 0x6b, 0x75, 0x62]), vec!["a", "<Up>", "b"]);
}

#[test]
fn trailing_escape_after_tokens_is_dropped() {
    assert_eq!(decode(&[0x61, 0x80]), vec!["a"]);
}

#[test]
fn focus_events_decode_to_suppressed_tokens() {
    assert_eq!(decode(&[0x80, 0xfd, 0x60]), vec![""]);
    assert_eq!(decode(&[0x80, 0xfd, 0x61]), vec![""]);
    assert_eq!(decode(&[0x80, 0xfd, 0x62]), vec![""]);
    assert_eq!(decode(&[0x80, 0xfd, 0x63]), vec![""]);
}

#[test]
fn mouse_and_scroll_events_decode_to_named_tokens() {
    assert_eq!(decode(&[0x80, 0xfd, 0x2c]), vec!["<LeftMouse>"]);
    assert_eq!(decode(&[0x80, 0xfd, 0x34]), vec!["<RightRelease>"]);
    assert_eq!(decode(&[0x80, 0xfd, 0x4b]), vec!["<ScrollWheelUp>"]);
    assert_eq!(decode(&[0x80, 0xfd, 0x4e]), vec!["<ScrollWheelLeft>"]);
}

#[test]
fn function_keys_decode_across_the_historical_aliases() {
    assert_eq!(decode(&[0x80, 0x6b, 0x3b]), vec!["<F10>"]);
    assert_eq!(decode(&[0x80, 0x46, 0x39]), vec!["<F19>"]);
    assert_eq!(decode(&[0x80, 0xfd, 0x0e]), vec!["<S-F10>"]);
    assert_eq!(decode(&[0x80, 0xfd, 0x0f]), vec!["<S-F10>"]);
    assert_eq!(decode(&[0x80, 0xfd, 0x0d]), vec!["<S-F9>"]);
}

#[test]
fn escaped_literal_bytes_decode_to_their_names() {
    assert_eq!(decode(&[0x80, 0xfe, 0x58]), vec!["<0x80>"]);
    assert_eq!(decode(&[0x80, 0xff, 0x58]), vec!["<C-@>"]);
    assert_eq!(decode(&[0x80, 0xfd, 0x51]), vec!["<0x9b>"]);
}

#[test]
fn modifier_prefix_stays_a_separate_token() {
    assert_eq!(decode(&[0x80, 0xfc, 0x02, 0x61]), vec!["<S->", "a"]);
    assert_eq!(decode(&[0x80, 0xfc, 0x1e]), vec!["<M-C-A-S->"]);
}

#[test]
fn legacy_control_navigation_codes_decode_to_recent_names() {
    assert_eq!(decode(&[0x80, 0xfd, 0x53]), vec!["<C-Left>"]);
    assert_eq!(decode(&[0x80, 0xfd, 0x55]), vec!["<C-Left>"]);
    assert_eq!(decode(&[0x80, 0xfd, 0x57]), vec!["<C-Home>"]);
    assert_eq!(decode(&[0x80, 0xfd, 0x58]), vec!["<C-End>"]);
}

#[test]
fn keypad_keys_decode_to_keypad_names() {
    assert_eq!(decode(&[0x80, 0x4b, 0x41]), vec!["<kEnter>"]);
    assert_eq!(decode(&[0x80, 0x4b, 0x43]), vec!["<k0>"]);
    assert_eq!(decode(&[0x80, 0x4b, 0x4c]), vec!["<k9>"]);
}

#[test]
fn prebuilt_tables_decode_like_the_convenience_pass() {
    let singles = SingleByteTable::new();
    let extended = ExtendedCodeTable::new();
    let bytes: Vec<u8> = vec![0x69, 0x80, 0x6b, 0x64, 0x0d, 0x80, 0xfd];
    let log = Keylog::new(&bytes);
    assert_eq!(log.decode_with(&singles, &extended), log.into_iter());
    assert_eq!(log.decode_with(&singles, &extended), vec!["i", "<Down>", "<CR>"]);
}

#[test]
fn transcript_concatenates_tokens_in_order() {
    let tokens = decode(&[0x69, 0x68, 0x69, 0x1b, 0x80, 0xfd, 0x61, 0x3a, 0x77, 0x0d]);
    let script: String = tokens.concat();
    assert_eq!(script, "ihi<Esc>:w<CR>");
}

#[test]
fn empty_log_decodes_to_no_tokens() {
    assert_eq!(decode(&[]), Vec::<String>::new());
}

#[test]
fn every_single_byte_decodes_to_one_token() {
    let singles = SingleByteTable::new();
    let extended = ExtendedCodeTable::new();
    for b in 0u16..=255 {
        let b = b as u8;
        if b == 0x80 {
            continue;
        }
        let log = Keylog::new(&[b]);
        let tokens = log.decode_with(&singles, &extended);
        assert_eq!(tokens.len(), 1);
        assert_eq!(tokens[0], *singles.token(b));
    }
}
