use tmtc_linux_ground::crc_ccitt;

#[test]
fn crc_of_empty_input_is_seed() {
    assert_eq!(crc_ccitt(&[]), 0xFFFF);
}

#[test]
fn crc_known_vector_single_zero_byte() {
    assert_eq!(crc_ccitt(&[0x00]), 0xE1F0);
}

#[test]
fn crc_known_vector_ascii_digits() {
    assert_eq!(crc_ccitt(b"123456789"), 0x29B1);
}

#[test]
fn crc_is_deterministic_across_calls() {
    let bytes = [0x01, 0x02, 0x03, 0xFF, 0x7E, 0x00, 0x10];
    let first = crc_ccitt(&bytes);
    let second = crc_ccitt(&bytes);
    assert_eq!(first, second);
    let third = crc_ccitt(&bytes);
    assert_eq!(second, third);
}

#[test]
fn crc_differs_on_corrupted_input() {
    let bytes = [0x10, 0x20, 0x30];
    let corrupted = [0x10, 0x20, 0x31];
    assert_ne!(crc_ccitt(&bytes), crc_ccitt(&corrupted));
}
