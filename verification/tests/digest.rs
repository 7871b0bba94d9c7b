use oak_utils::digest::{flag_digest_string, to_hex_lower, FLAG_LEN};

#[test]
fn digest_of_zero_flag() {
    let flag = [0u8; FLAG_LEN];
    assert_eq!(
        flag_digest_string(&flag),
        "f5a5fd42d16a20302798ef6ed309979b43003d2320d9f0e8ea9831a92759fb4b"
    );
}

#[test]
fn digest_of_abc() {
    assert_eq!(
        flag_digest_string(b"abc"),
        "ba7816bf8f01cfea414140de5dae2223b00361a396177a9cb410ff61f20015ad"
    );
}

#[test]
fn digest_string_has_sixty_four_digits() {
    let flag: Vec<u8> = (0..64u8).collect();
    let s = flag_digest_string(&flag);
    assert_eq!(s.len(), 64);
    assert!(s.chars().all(|c| c.is_ascii_hexdigit() && !c.is_ascii_uppercase()));
}

#[test]
fn hex_lower_examples() {
    assert_eq!(to_hex_lower(&[]), "");
    assert_eq!(to_hex_lower(&[0xbe, 0xef]), "beef");
    assert_eq!(to_hex_lower(&[0x00, 0x0f, 0xf0, 0xff]), "000ff0ff");
}
