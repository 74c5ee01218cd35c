use tx_simulator::errors::SimulationError;
use tx_simulator::numeric::{PermissiveUint, Uint};

fn parsed(text: &str) -> [u64; 4] {
    PermissiveUint::parse(text).unwrap().0 .0
}

#[test]
fn hexadecimal_and_decimal_write_the_same_number() {
    assert_eq!(PermissiveUint::parse("0x10"), PermissiveUint::parse("16"));
    assert_eq!(parsed("0x10"), [16, 0, 0, 0]);
    assert_eq!(parsed("16"), [16, 0, 0, 0]);
}

#[test]
fn decimal_numbers_are_read() {
    assert_eq!(parsed("0"), [0, 0, 0, 0]);
    assert_eq!(parsed("007"), [7, 0, 0, 0]);
    assert_eq!(parsed("18446744073709551615"), [u64::MAX, 0, 0, 0]);
    assert_eq!(parsed("18446744073709551616"), [0, 1, 0, 0]);
    assert_eq!(parsed("340282366920938463463374607431768211456"), [0, 0, 1, 0]);
}

#[test]
fn hexadecimal_numbers_are_read_in_either_case() {
    assert_eq!(parsed("0xff"), [255, 0, 0, 0]);
    assert_eq!(parsed("0xFF"), [255, 0, 0, 0]);
    assert_eq!(parsed("0xaBc"), [0xabc, 0, 0, 0]);
    assert_eq!(parsed("0x10000000000000000"), [0, 1, 0, 0]);
    assert_eq!(
        parsed("0x0000000000000004000000000000000300000000000000020000000000000001"),
        [1, 2, 3, 4]
    );
}

#[test]
fn empty_runs_of_digits_write_zero() {
    assert_eq!(parsed(""), [0, 0, 0, 0]);
    assert_eq!(parsed("0x"), [0, 0, 0, 0]);
}

#[test]
fn largest_number_is_read_and_the_next_is_refused() {
    let max = "115792089237316195423570985008687907853269984665640564039457584007913129639935";
    assert_eq!(parsed(max), [u64::MAX; 4]);
    let next = "115792089237316195423570985008687907853269984665640564039457584007913129639936";
    assert_eq!(PermissiveUint::parse(next), Err(SimulationError::FromDecStrError));
    let hex_max = "0xffffffffffffffffffffffffffffffffffffffffffffffffffffffffffffffff";
    assert_eq!(parsed(hex_max), [u64::MAX; 4]);
    let too_long = "0x00000000000000000000000000000000000000000000000000000000000000001";
    assert_eq!(PermissiveUint::parse(too_long), Err(SimulationError::FromHexError));
}

#[test]
fn other_forms_are_refused() {
    for text in ["0xg", "0x 1", "0x0x1", "0x-1", "0x1.0"] {
        assert_eq!(PermissiveUint::parse(text), Err(SimulationError::FromHexError), "{:?}", text);
    }
    for text in ["abc", "1a", "-1", "+1", " 1", "1 ", "1.0", "0X10", "1e3", "x", "٣"] {
        assert_eq!(PermissiveUint::parse(text), Err(SimulationError::FromDecStrError), "{:?}", text);
    }
}

#[test]
fn plain_value_of_a_permissive_one() {
    let value = PermissiveUint::parse("0x2a").unwrap();
    assert_eq!(Uint::from(value), Uint([42, 0, 0, 0]));
}

#[test]
fn small_numbers_are_recognised() {
    assert_eq!(Uint::from_u64(5), Uint([5, 0, 0, 0]));
    assert!(Uint::from_u64(5).is_u64(5));
    assert!(!Uint::from_u64(5).is_u64(6));
    assert!(!Uint([5, 1, 0, 0]).is_u64(5));
    assert!(!Uint([5, 0, 0, 1]).is_u64(5));
    assert!(Uint([u64::MAX, 0, 0, 0]).is_u64(u64::MAX));
}
