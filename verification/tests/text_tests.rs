use p2p_screenshare::text::push_decimal;

#[test]
fn push_decimal_appends_digits() {
    for n in [0u32, 7, 9, 10, 99, 100, 1234567, u32::MAX] {
        let mut s = String::from("x=");
        push_decimal(&mut s, n);
        assert_eq!(s, format!("x={n}"));
    }
}
