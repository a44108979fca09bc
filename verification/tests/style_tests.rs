use fmt::num::u64_to_bin;
use fmt::num::u64_to_dec;
use fmt::num::u64_to_exp;
use fmt::num::u64_to_hex;
use fmt::num::u64_to_oct;
use fmt::render::Renderable;
use fmt::style::Style;

#[test]
fn style_display_is_decimal() {
    assert_eq!(Style::new_display(4183263).to_string(), "4183263");
    assert_eq!(Style::new_display(0).to_string(), "0");
}

#[test]
fn style_debug_is_decimal() {
    assert_eq!(Style::new_debug(4183263).to_string(), "4183263");
}

#[test]
fn style_binary() {
    assert_eq!(Style::new_binary(6).to_string(), "110");
    assert_eq!(Style::new_binary(0).to_string(), "0");
}

#[test]
fn style_octal() {
    assert_eq!(Style::new_octal(8).to_string(), "10");
    assert_eq!(Style::new_octal(511).to_string(), "777");
}

#[test]
fn style_lower_hex() {
    assert_eq!(Style::new_lower_hex(255).to_string(), "ff");
    assert_eq!(Style::new_lower_hex(0xdeadbeef).to_string(), "deadbeef");
}

#[test]
fn style_upper_hex() {
    assert_eq!(Style::new_upper_hex(255).to_string(), "FF");
    assert_eq!(Style::new_upper_hex(0xdeadbeef).to_string(), "DEADBEEF");
}

#[test]
fn style_lower_exp() {
    assert_eq!(Style::new_lower_exp(4183263).to_string(), "4.183263e6");
    assert_eq!(Style::new_lower_exp(0).to_string(), "0e0");
    assert_eq!(Style::new_lower_exp(1000).to_string(), "1e3");
    assert_eq!(Style::new_lower_exp(120).to_string(), "1.2e2");
}

#[test]
fn style_upper_exp() {
    assert_eq!(Style::new_upper_exp(4183263).to_string(), "4.183263E6");
    assert_eq!(Style::new_upper_exp(0).to_string(), "0E0");
}

#[test]
fn style_pointer() {
    assert_eq!(Style::new_pointer(255).to_string(), "0xff");
}

#[test]
fn conversions_match_std_formatting() {
    for n in [0u64, 1, 9, 10, 42, 255, 1000, 4183263, u64::MAX] {
        assert_eq!(u64_to_dec(n), format!("{}", n));
        assert_eq!(u64_to_hex(n, false), format!("{:x}", n));
        assert_eq!(u64_to_hex(n, true), format!("{:X}", n));
        assert_eq!(u64_to_oct(n), format!("{:o}", n));
        assert_eq!(u64_to_bin(n), format!("{:b}", n));
        assert_eq!(u64_to_exp(n, false), format!("{:e}", n));
        assert_eq!(u64_to_exp(n, true), format!("{:E}", n));
    }
}
