use uvc_gadget::text::add_unix_line_ending;
use uvc_gadget::text::u32_to_dec;

#[test]
fn renders_zero() {
    assert_eq!(u32_to_dec(0), "0");
}

#[test]
fn renders_small_and_large_values() {
    assert_eq!(u32_to_dec(1), "1");
    assert_eq!(u32_to_dec(10), "10");
    assert_eq!(u32_to_dec(3072), "3072");
    assert_eq!(u32_to_dec(4147200), "4147200");
    assert_eq!(u32_to_dec(u32::MAX), "4294967295");
}

#[test]
fn line_ending_appends_one_newline() {
    assert_eq!(add_unix_line_ending(&"1920".to_string()), "1920\n");
    assert_eq!(add_unix_line_ending(&"".to_string()), "\n");
}
