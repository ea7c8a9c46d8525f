use pascal_marshal::MarshalError;
use pascal_marshal::PascalAnsiString;

#[test]
fn test_pascal_ansistring() {
    let ansistring = PascalAnsiString::from_text("Hello, world!").unwrap();
    assert_eq!(ansistring.codepage(), 65001);
    assert_eq!(ansistring.char_size(), 1);
    assert_eq!(ansistring.reference_count(), -1);
    assert_eq!(ansistring.actual_string_size(), 14);
    assert_eq!(ansistring.into_bytes(), "Hello, world!\0".as_bytes().to_vec());
}

#[test]
fn test_pascal_ansistring_try_into() {
    let ansistring = PascalAnsiString::from_text("Hello, world!").unwrap();
    let string: String = ansistring.into_text().unwrap();
    assert_eq!(string.trim_end_matches('\0'), "Hello, world!");
}

#[test]
fn test_pascal_ansistring_try_from() {
    let string = "Hello, world!";
    let ansistring: PascalAnsiString = PascalAnsiString::from_text(string).unwrap();
    assert_eq!(ansistring.codepage(), 65001);
    assert_eq!(ansistring.char_size(), 1);
    assert_eq!(ansistring.reference_count(), -1);
    assert_eq!(ansistring.actual_string_size(), 14);
    assert_eq!(ansistring.into_bytes(), "Hello, world!\0".as_bytes().to_vec());
}

#[test]
fn test_pascal_ansistring_round_trip() {
    let string = "Hello, world!";
    let ansistring = PascalAnsiString::from_text(string).unwrap();
    let string2: String = ansistring.into_text().unwrap();
    assert_eq!(string, string2.trim_end_matches('\0'));
}

#[test]
fn test_empty_text_round_trip() {
    let ansistring = PascalAnsiString::from_text("").unwrap();
    assert_eq!(ansistring.actual_string_size(), 1);
    let string = ansistring.into_text().unwrap();
    assert_eq!(string.trim_end_matches('\0'), "");
}

#[test]
fn test_non_ascii_text_round_trip() {
    let ansistring = PascalAnsiString::from_text("héllo €").unwrap();
    let string = ansistring.into_text().unwrap();
    assert_eq!(string.trim_end_matches('\0'), "héllo €");
}

#[test]
fn test_bytes_round_trip() {
    let bytes: Vec<u8> = vec![0x01, 0x02, 0x03];
    let ansistring = PascalAnsiString::from_bytes(bytes.clone()).unwrap();
    assert_eq!(ansistring.actual_string_size(), 4);
    let mut back = ansistring.into_bytes();
    assert_eq!(back.pop(), Some(0u8));
    assert_eq!(back, bytes);
}

#[test]
fn test_empty_bytes_round_trip() {
    let ansistring = PascalAnsiString::from_bytes(Vec::new()).unwrap();
    assert_eq!(ansistring.actual_string_size(), 1);
    assert_eq!(ansistring.into_bytes(), vec![0u8]);
}

#[test]
fn test_from_text_header() {
    let ansistring = PascalAnsiString::from_text("abc").unwrap();
    assert_eq!(ansistring.char_size(), 1);
    assert_eq!(ansistring.reference_count(), -1);
    assert_eq!(ansistring.actual_string_size(), 4);
}

#[test]
fn test_new_keeps_raw_parts() {
    let ansistring = PascalAnsiString::new(65001, 1, -1, 3, vec![0x41, 0x42, 0x00]);
    assert_eq!(ansistring.codepage(), 65001);
    assert_eq!(ansistring.actual_string_size(), 3);
    assert_eq!(ansistring.into_bytes(), vec![0x41, 0x42, 0x00]);
}

#[test]
fn test_into_text_decodes_stored_codepage() {
    // 0x80 is the euro sign in the windows-1252 code page: the decoder
    // must actually consult the stored tag, not hand the bytes back.
    let ansistring = PascalAnsiString::new(1252, 1, -1, 2, vec![0x80, 0x00]);
    let string = ansistring.into_text().unwrap();
    assert_eq!(string.trim_end_matches('\0'), "\u{20ac}");
}

#[test]
fn test_into_text_unknown_codepage() {
    let ansistring = PascalAnsiString::new(3, 1, -1, 1, vec![0x00]);
    assert_eq!(ansistring.into_text(), Err(MarshalError::UnknownCodepage));
}

#[test]
fn test_describe_names_the_contract() {
    assert_eq!(
        MarshalError::UnknownCodepage.describe(),
        "no decoder is registered for the stored code page"
    );
    assert_eq!(
        MarshalError::MissingTerminator.describe(),
        "slot run carries no null terminator"
    );
}
