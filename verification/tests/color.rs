use firmium::color::{parse_hex, Rgba8};

#[test]
fn six_digit_codes() {
    assert_eq!(parse_hex("e8c97e"), Some(Rgba8 { r: 0xe8, g: 0xc9, b: 0x7e, a: 255 }));
    assert_eq!(parse_hex("  0F0F0F "), Some(Rgba8 { r: 15, g: 15, b: 15, a: 255 }));
    assert_eq!(parse_hex("+f+f+f"), Some(Rgba8 { r: 15, g: 15, b: 15, a: 255 }));
    assert_eq!(parse_hex("zzzzzz"), None);
}

#[test]
fn eight_and_three_digit_codes() {
    assert_eq!(parse_hex("ffffff14"), Some(Rgba8 { r: 255, g: 255, b: 255, a: 0x14 }));
    assert_eq!(parse_hex("fa0"), Some(Rgba8 { r: 0xff, g: 0xaa, b: 0x00, a: 255 }));
    assert_eq!(parse_hex("+a0"), None);
}

#[test]
fn other_lengths_and_non_ascii() {
    assert_eq!(parse_hex(""), None);
    assert_eq!(parse_hex("ffff"), None);
    assert_eq!(parse_hex("ffé"), None);
}
