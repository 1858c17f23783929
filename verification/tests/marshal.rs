use indy::marshal::{c_str, find_nul, marshal, MarshalError, NulError};
use indy::set_runtime_config;

#[test]
fn a_clean_text_gets_its_bytes_and_a_terminator() {
    assert_eq!(c_str("abc"), Ok(vec![97, 98, 99, 0]));
}

#[test]
fn the_empty_text_is_a_lone_terminator() {
    assert_eq!(c_str(""), Ok(vec![0]));
}

#[test]
fn a_text_beyond_ascii_keeps_its_utf8_bytes() {
    assert_eq!(c_str("h\u{e9}"), Ok(vec![0x68, 0xc3, 0xa9, 0]));
    assert_eq!(c_str("\u{20ac}"), Ok(vec![0xe2, 0x82, 0xac, 0]));
}

#[test]
fn a_text_with_a_terminator_inside_is_refused() {
    assert_eq!(c_str("ab\0cd"), Err(NulError { position: 2 }));
}

#[test]
fn the_first_terminator_is_reported() {
    assert_eq!(c_str("\0a\0"), Err(NulError { position: 0 }));
    assert_eq!(c_str("abc\0"), Err(NulError { position: 3 }));
}

#[test]
fn the_position_counts_bytes_not_characters() {
    assert_eq!(c_str("\u{e9}\0"), Err(NulError { position: 2 }));
}

#[test]
fn find_nul_finds_the_first_zero_byte() {
    assert_eq!(find_nul(&[1, 2, 3]), None);
    assert_eq!(find_nul(&[]), None);
    assert_eq!(find_nul(&[1, 0, 3, 0]), Some(1));
    assert_eq!(find_nul(&[0]), Some(0));
}

#[test]
fn clean_texts_are_marshaled_in_their_order() {
    let texts = vec!["type", "{}", ""];
    assert_eq!(
        marshal(&texts),
        Ok(vec![vec![116, 121, 112, 101, 0], vec![123, 125, 0], vec![0]])
    );
}

#[test]
fn no_texts_marshal_to_nothing() {
    let texts: Vec<&str> = Vec::new();
    assert_eq!(marshal(&texts), Ok(Vec::new()));
}

#[test]
fn the_first_text_at_fault_is_reported() {
    let texts = vec!["ok", "b\0d", "\0"];
    assert_eq!(marshal(&texts), Err(MarshalError { argument: 1, position: 1 }));
}

#[test]
fn the_runtime_config_is_forwarded_byte_for_byte() {
    let config = "{\"crypto_thread_pool_size\": 8}";
    let mut expected = config.as_bytes().to_vec();
    expected.push(0);
    assert_eq!(set_runtime_config(config), Ok(expected));
}

#[test]
fn a_runtime_config_with_a_terminator_inside_is_refused() {
    assert_eq!(set_runtime_config("{\0}"), Err(NulError { position: 1 }));
}
