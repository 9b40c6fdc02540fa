use rros_net::text::{digit, push_decimal, push_hexadecimal};

#[test]
fn digits() {
    assert_eq!(digit(0), '0');
    assert_eq!(digit(9), '9');
    assert_eq!(digit(10), 'a');
    assert_eq!(digit(15), 'f');
}

#[test]
fn decimal_numbers() {
    for n in [0u32, 7, 10, 99, 100, 65535, 4294967295] {
        let mut s = String::from("x=");
        push_decimal(&mut s, n);
        assert_eq!(s, format!("x={}", n));
    }
}

#[test]
fn hexadecimal_numbers() {
    for n in [0u32, 9, 10, 15, 16, 255, 0xdb8, 0xffff, 0xdeadbeef] {
        let mut s = String::new();
        push_hexadecimal(&mut s, n);
        assert_eq!(s, format!("{:x}", n));
    }
}
