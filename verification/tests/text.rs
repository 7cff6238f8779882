use ixy_ci::text::{to_decimal, to_hex_list};

#[test]
fn numbers_are_written_in_decimal() {
    assert_eq!(to_decimal(0), "0");
    assert_eq!(to_decimal(7), "7");
    assert_eq!(to_decimal(10), "10");
    assert_eq!(to_decimal(1000), "1000");
    assert_eq!(to_decimal(1234567890), "1234567890");
    assert_eq!(to_decimal(u64::MAX), "18446744073709551615");
}

#[test]
fn bytes_are_written_as_a_hexadecimal_list() {
    assert_eq!(to_hex_list(&vec![]), "[]");
    assert_eq!(to_hex_list(&vec![0]), "[0]");
    assert_eq!(to_hex_list(&vec![1, 2, 255]), "[1, 2, ff]");
    assert_eq!(to_hex_list(&vec![15, 16, 0xab, 0x9c]), "[f, 10, ab, 9c]");
}

#[test]
fn hexadecimal_list_is_the_lower_case_debug_form() {
    let bytes: Vec<u8> = (0..=255).collect();
    assert_eq!(to_hex_list(&bytes), format!("{:x?}", bytes));
}
