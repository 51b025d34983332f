use librime_api::util::{native_bool, property_value, safe_text, stored_text, NativeText};

#[test]
fn native_bool_reads_every_value_but_zero_as_yes() {
    assert!(native_bool(1));
    assert!(native_bool(-1));
    assert!(native_bool(i32::MAX));
    assert!(native_bool(i32::MIN));
    assert!(!native_bool(0));
}

#[test]
fn null_text_is_the_empty_string() {
    assert_eq!(safe_text(None), "");
    assert_eq!(stored_text(&None), "");
}

#[test]
fn valid_text_is_kept() {
    assert_eq!(safe_text(Some(b"nihao")), "nihao");
    assert_eq!(safe_text(Some("你好".as_bytes())), "你好");
    assert_eq!(safe_text(Some(b"")), "");
    assert_eq!(stored_text(&Some(b"abc".to_vec())), "abc");
}

#[test]
fn invalid_text_is_read_lossily() {
    assert_eq!(safe_text(Some(b"a\xffb")), "a\u{fffd}b");
    assert_eq!(stored_text(&Some(vec![0xc3])), "\u{fffd}");
}

#[test]
fn native_text_holds_the_bytes_of_the_string() {
    let text = NativeText::new("rime-ice").expect("no NUL in it");
    assert_eq!(text.as_bytes(), b"rime-ice");
    let wide = NativeText::new("朙月").expect("no NUL in it");
    assert_eq!(wide.as_bytes(), "朙月".as_bytes());
    assert_eq!(NativeText::new("").expect("empty").as_bytes(), b"");
    assert_eq!(NativeText::empty().as_bytes(), b"");
}

#[test]
fn native_text_refuses_a_nul() {
    assert_eq!(NativeText::new("a\0b"), None);
    assert_eq!(NativeText::new("\0"), None);
    assert_eq!(NativeText::new("ab\0"), None);
}

#[test]
fn native_text_clone_is_equal() {
    let text = NativeText::new("luna_pinyin").expect("no NUL in it");
    let copy = text.clone();
    assert_eq!(copy, text);
    assert_eq!(copy.as_bytes(), b"luna_pinyin");
}

#[test]
fn property_comes_back_when_the_buffer_has_room() {
    assert_eq!(property_value(1, b"value\0"), Some(String::from("value")));
    assert_eq!(property_value(1, b"value\0\0\0\0\0"), Some(String::from("value")));
    assert_eq!(property_value(7, b"v\0lue\0"), Some(String::from("v")));
    assert_eq!(property_value(1, b"\0"), Some(String::new()));
}

#[test]
fn property_is_absent_when_the_buffer_is_too_small() {
    assert_eq!(property_value(1, b"value"), None);
    assert_eq!(property_value(1, b"val"), None);
    assert_eq!(property_value(1, b""), None);
}

#[test]
fn property_is_absent_when_the_engine_found_none() {
    assert_eq!(property_value(0, b"value\0"), None);
    assert_eq!(property_value(0, b"\0\0\0\0"), None);
    assert_eq!(property_value(0, b""), None);
}

#[test]
fn property_that_is_no_utf8_is_read_lossily() {
    assert_eq!(property_value(1, b"\xff\0"), Some(String::from("\u{fffd}")));
}
