use daowiz::net::error::Error;
use daowiz::net::hexcode::creation_code;
use daowiz::net::hexcode::expected_code;

#[test]
fn creation_code_strips_the_marker() {
    assert_eq!(creation_code("0xAABB"), Ok("AABB".to_string()));
    assert_eq!(creation_code("0x"), Ok(String::new()));
}

#[test]
fn creation_code_without_marker_is_invalid_input() {
    assert_eq!(creation_code("AABB"), Err(Error::InvalidInput));
    assert_eq!(creation_code(""), Err(Error::InvalidInput));
    assert_eq!(creation_code("0"), Err(Error::InvalidInput));
    assert_eq!(creation_code("0XAABB"), Err(Error::InvalidInput));
}

#[test]
fn expected_code_decodes_the_digits() {
    assert_eq!(expected_code("0xAABB"), Ok(vec![0xaa, 0xbb]));
    assert_eq!(expected_code("0xaAbB01"), Ok(vec![0xaa, 0xbb, 0x01]));
    assert_eq!(expected_code("0x"), Ok(vec![]));
}

#[test]
fn expected_code_refuses_what_is_not_hexadecimal() {
    assert_eq!(
        expected_code("0xABC"),
        Err(Error::Serialization("Odd number of digits".to_string()))
    );
    assert!(matches!(expected_code("0xzz"), Err(Error::Serialization(_))));
    assert!(matches!(expected_code("0x\u{e9}\u{e9}"), Err(Error::Serialization(_))));
    assert_eq!(expected_code("AABB"), Err(Error::InvalidInput));
}
