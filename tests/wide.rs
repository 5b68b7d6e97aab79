use winasync::wide::{is_utf8, NarrowToWide, OptionNarrowToWide, VecNarrowToWide};

#[test]
fn ascii_narrows_to_same_units() {
    assert_eq!(NarrowToWide(b"GET".to_vec()), vec![71u16, 69, 84]);
    assert_eq!(NarrowToWide(Vec::new()), Vec::<u16>::new());
}

#[test]
fn multibyte_characters_widen() {
    assert_eq!(NarrowToWide(vec![0xC3, 0xA9]), vec![0xE9u16]);
    assert_eq!(NarrowToWide(vec![0xF0, 0x9F, 0x98, 0x80]), vec![0xD83Du16, 0xDE00]);
}

#[test]
fn widened_string_decodes_back() {
    let s = "caf\u{e9} \u{1F600} ok";
    let w = NarrowToWide(s.as_bytes().to_vec());
    assert_eq!(String::from_utf16(&w).unwrap(), s);
}

#[test]
fn utf8_test() {
    assert!(is_utf8(b"GET"));
    assert!(is_utf8(&[]));
    assert!(is_utf8(&[0xF0, 0x9F, 0x98, 0x80]));
    assert!(!is_utf8(&[0xFF]));
    // an encoded surrogate and an overlong form are not UTF-8
    assert!(!is_utf8(&[0xED, 0xA0, 0x80]));
    assert!(!is_utf8(&[0xC0, 0x80]));
}

#[test]
fn optional_and_list_forms() {
    assert_eq!(OptionNarrowToWide(None), None);
    assert_eq!(OptionNarrowToWide(Some(b"a".to_vec())), Some(vec![97u16]));
    assert_eq!(
        VecNarrowToWide(vec![b"text/plain".to_vec(), b"x".to_vec()]),
        vec!["text/plain".encode_utf16().collect::<Vec<u16>>(), vec![120u16]]
    );
    assert_eq!(VecNarrowToWide(Vec::new()), Vec::<Vec<u16>>::new());
}
