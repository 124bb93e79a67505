use lastfm_scrobbler::text::{decimal_string, hex_string};

#[test]
fn hex_string_renders_two_lowercase_digits_per_byte() {
    assert_eq!(hex_string(&[]), "");
    assert_eq!(hex_string(&[0x00]), "00");
    assert_eq!(hex_string(&[0x0f, 0xf0]), "0ff0");
    assert_eq!(hex_string(&[1, 2, 3, 15, 16]), "0102030f10");
    assert_eq!(hex_string(&[0xde, 0xad, 0xbe, 0xef, 0x9a]), "deadbeef9a");
    assert_eq!(hex_string(&[0xff]), "ff");
}

#[test]
fn hex_string_covers_every_byte() {
    let bytes: Vec<u8> = (0..=255).collect();
    let text = hex_string(&bytes);
    assert_eq!(text.len(), 512);
    let digits: Vec<char> = "0123456789abcdef".chars().collect();
    let rendered: Vec<char> = text.chars().collect();
    for (index, byte) in bytes.iter().enumerate() {
        assert_eq!(rendered[2 * index], digits[(byte / 16) as usize]);
        assert_eq!(rendered[2 * index + 1], digits[(byte % 16) as usize]);
    }
}

#[test]
fn decimal_string_of_small_numbers() {
    assert_eq!(decimal_string(0), "0");
    assert_eq!(decimal_string(7), "7");
    assert_eq!(decimal_string(9), "9");
    assert_eq!(decimal_string(10), "10");
    assert_eq!(decimal_string(1000), "1000");
    assert_eq!(decimal_string(1234567890), "1234567890");
}

#[test]
fn decimal_string_of_the_largest_number() {
    assert_eq!(decimal_string(u64::MAX), "18446744073709551615");
}

#[test]
fn decimal_string_agrees_with_the_standard_rendering() {
    let mut n: u64 = 1;
    while n < u64::MAX / 7 {
        assert_eq!(decimal_string(n), n.to_string());
        assert_eq!(decimal_string(n - 1), (n - 1).to_string());
        n = n * 7 + 3;
    }
}
