use daowiz::net::chain::address_lines;
use daowiz::net::chain::Address;

fn counting() -> Address {
    let mut bytes = [0u8; 20];
    for (i, byte) in bytes.iter_mut().enumerate() {
        *byte = (i as u8) * 13 + 1;
    }
    Address { bytes }
}

#[test]
fn address_text_is_the_full_form() {
    assert_eq!(counting().text(), "0x010e1b2835424f5c697683909daab7c4d1deebf8");
    assert_eq!(Address::zero().text(), format!("0x{}", "00".repeat(20)));
    assert_eq!(Address { bytes: [0xab; 20] }.text(), format!("0x{}", "ab".repeat(20)));
    assert_eq!(Address { bytes: [0x0f; 20] }.text(), format!("0x{}", "0f".repeat(20)));
}

#[test]
fn address_text_tells_addresses_apart() {
    // the two differ in a byte of the middle only
    let mut other = counting();
    other.bytes[9] ^= 0x10;
    assert_ne!(counting().text(), other.text());
    let lines = address_lines(&vec![counting(), other]);
    assert_ne!(lines[0], lines[1]);
    assert_eq!(hex::decode(&lines[1][2..]).unwrap(), other.bytes.to_vec());
}

#[test]
fn address_lines_keep_the_order() {
    let lines = address_lines(&vec![Address { bytes: [0x11; 20] }, counting(), Address::zero()]);
    assert_eq!(
        lines,
        vec![
            format!("0x{}", "11".repeat(20)),
            "0x010e1b2835424f5c697683909daab7c4d1deebf8".to_string(),
            format!("0x{}", "00".repeat(20)),
        ]
    );
    assert!(address_lines(&Vec::new()).is_empty());
}

#[test]
fn addresses_compare_byte_by_byte() {
    let mut other = counting();
    assert!(counting() == other);
    other.bytes[19] ^= 1;
    assert!(counting() != other);
    other.bytes[19] ^= 1;
    other.bytes[0] ^= 0x80;
    assert!(counting() != other);
    assert!(Address::zero() == Address { bytes: [0; 20] });
}
