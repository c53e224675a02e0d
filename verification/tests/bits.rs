#![allow(non_snake_case)]
use cerboy::bits::bit_test;
use cerboy::types::Byte;

#[test]
fn test_bit_test() {
    let x: Byte = 0b00000101;
    assert_eq!(bit_test(7, x), false);
    assert_eq!(bit_test(6, x), false);
    assert_eq!(bit_test(5, x), false);
    assert_eq!(bit_test(4, x), false);
    assert_eq!(bit_test(3, x), false);
    assert_eq!(bit_test(2, x), true);
    assert_eq!(bit_test(1, x), false);
    assert_eq!(bit_test(0, x), true);
}
