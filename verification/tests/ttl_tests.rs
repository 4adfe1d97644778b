use ping_fox::ttl::Ttl;

#[test]
fn ttl_fmt() {
    assert_eq!("8", Ttl(8).display_string());
}

#[test]
fn ttl_display_covers_all_digit_widths() {
    assert_eq!("0", Ttl(0).display_string());
    assert_eq!("9", Ttl(9).display_string());
    assert_eq!("10", Ttl(10).display_string());
    assert_eq!("64", Ttl(64).display_string());
    assert_eq!("99", Ttl(99).display_string());
    assert_eq!("100", Ttl(100).display_string());
    assert_eq!("128", Ttl(128).display_string());
    assert_eq!("255", Ttl(255).display_string());
}

#[test]
fn ttl_from_conversions() {
    assert_eq!(Ttl(42), Ttl::from(42u8));
    assert_eq!(42u8, u8::from(Ttl(42)));
}
