use awatcher::x11::{parse_wm_class, WmClassError};

#[test]
fn wm_class_two_names() {
    let (instance, class) = parse_wm_class(8, b"navigator\0firefox\0").unwrap();
    assert_eq!(instance, "navigator");
    assert_eq!(class, "firefox");
}

#[test]
fn wm_class_without_final_null() {
    let (instance, class) = parse_wm_class(8, b"code\0Code").unwrap();
    assert_eq!(instance, "code");
    assert_eq!(class, "Code");
}

#[test]
fn wm_class_empty_class() {
    let (instance, class) = parse_wm_class(8, b"term\0").unwrap();
    assert_eq!(instance, "term");
    assert_eq!(class, "");
}

#[test]
fn wm_class_errors() {
    assert_eq!(parse_wm_class(16, b"a\0b\0"), Err(WmClassError::WrongFormat));
    assert_eq!(parse_wm_class(8, b"abc"), Err(WmClassError::MissingNull));
    assert_eq!(parse_wm_class(8, b"a\xff\0b"), Err(WmClassError::InvalidUtf8));
}
