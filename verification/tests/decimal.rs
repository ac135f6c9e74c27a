use determinism::decimal::{push_int, push_nat};

#[test]
fn naturals_are_written_in_decimal() {
    for n in [0u64, 1, 9, 10, 11, 99, 100, 101, 1_000_000, 18_446_744_073_709_551_615] {
        let mut out = String::new();
        push_nat(&mut out, n);
        assert_eq!(out, format!("{}", n));
    }
    let mut out = String::new();
    push_nat(&mut out, 1_048_576);
    assert_eq!(out, "1048576");
}

#[test]
fn integers_are_written_in_decimal() {
    for n in [0i32, 1, -1, 9, -9, 10, -10, 2_147_483_647, -2_147_483_648, 305, -4020] {
        let mut out = String::new();
        push_int(&mut out, n);
        assert_eq!(out, format!("{}", n));
        assert_eq!(out, format!("{:?}", n));
    }
    let mut out = String::new();
    push_int(&mut out, -2_147_483_648);
    assert_eq!(out, "-2147483648");
}

#[test]
fn numbers_are_appended_to_what_is_there() {
    let mut out = String::from("clock ");
    push_int(&mut out, -7);
    push_nat(&mut out, 42);
    assert_eq!(out, "clock -742");
}
