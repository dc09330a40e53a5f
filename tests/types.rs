use ewasm_api::types::{Bytes20, Bytes32, Uint128, Uint256};
use ewasm_api::utils::unsafe_alloc_buffer;

#[test]
fn smoke() {
    let ret = unsafe_alloc_buffer(42);
    assert_eq!(ret.len(), 42);
}

#[test]
fn alloc_buffer_is_zeroed() {
    let ret = unsafe_alloc_buffer(5);
    assert_eq!(ret, vec![0u8; 5]);
    assert!(unsafe_alloc_buffer(0).is_empty());
}

#[test]
fn test_uint128() {
    let raw = [1u8; 16];
    let uint = Uint128::from(raw);
    assert_eq!(uint.bytes[15], 1);
    let uint = Uint128::from(&raw);
    assert_eq!(uint.bytes[15], 1);
    let uint: Uint128 = raw.into();
    assert_eq!(uint.bytes[15], 1);
    let uint: Uint128 = (&raw).into();
    assert_eq!(uint.bytes[15], 1);
    let r: [u8; 16] = uint.into();
    assert_eq!(r[15], 1);
}

#[test]
fn test_uint256() {
    let raw = [1u8; 32];
    let uint = Uint256::from(raw);
    assert_eq!(uint.bytes[31], 1);
    let uint = Uint256::from(&raw);
    assert_eq!(uint.bytes[31], 1);
    let uint: Uint256 = raw.into();
    assert_eq!(uint.bytes[31], 1);
    let uint: Uint256 = (&raw).into();
    assert_eq!(uint.bytes[31], 1);
    let r: [u8; 32] = uint.into();
    assert_eq!(r[31], 1);
}

#[test]
fn test_bytes20() {
    let raw = [1u8; 20];
    let uint = Bytes20::from(raw);
    assert_eq!(uint.bytes[19], 1);
    let uint = Bytes20::from(&raw);
    assert_eq!(uint.bytes[19], 1);
    let uint: Bytes20 = raw.into();
    assert_eq!(uint.bytes[19], 1);
    let uint: Bytes20 = (&raw).into();
    assert_eq!(uint.bytes[19], 1);
    let r: [u8; 20] = uint.into();
    assert_eq!(r[19], 1);
}

#[test]
fn test_bytes32() {
    let raw = [1u8; 32];
    let uint = Bytes32::from(raw);
    assert_eq!(uint.bytes[31], 1);
    let uint = Bytes32::from(&raw);
    assert_eq!(uint.bytes[31], 1);
    let uint: Bytes32 = raw.into();
    assert_eq!(uint.bytes[31], 1);
    let uint: Bytes32 = (&raw).into();
    assert_eq!(uint.bytes[31], 1);
    let r: [u8; 32] = uint.into();
    assert_eq!(r[31], 1);
}

fn counting<const N: usize>() -> [u8; N] {
    let mut a = [0u8; N];
    for (i, b) in a.iter_mut().enumerate() {
        *b = (i as u8).wrapping_mul(7).wrapping_add(3);
    }
    a
}

#[test]
fn round_trip_every_width() {
    let b16: [u8; 16] = counting();
    assert_eq!(<[u8; 16]>::from(Uint128::from(b16)), b16);
    let v = Uint128::from(b16);
    assert_eq!(Uint128::from(<[u8; 16]>::from(v)), v);

    let b32: [u8; 32] = counting();
    assert_eq!(<[u8; 32]>::from(Uint256::from(b32)), b32);
    let v = Uint256::from(b32);
    assert_eq!(Uint256::from(<[u8; 32]>::from(v)), v);

    let b20: [u8; 20] = counting();
    assert_eq!(<[u8; 20]>::from(Bytes20::from(b20)), b20);
    let v = Bytes20::from(b20);
    assert_eq!(Bytes20::from(<[u8; 20]>::from(v)), v);

    assert_eq!(<[u8; 32]>::from(Bytes32::from(b32)), b32);
    let v = Bytes32::from(b32);
    assert_eq!(Bytes32::from(<[u8; 32]>::from(v)), v);
}

#[test]
fn default_is_all_zero() {
    assert_eq!(Uint128::default().bytes, [0u8; 16]);
    assert_eq!(Uint256::default().bytes, [0u8; 32]);
    assert_eq!(Bytes20::default().bytes, [0u8; 20]);
    assert_eq!(Bytes32::default().bytes, [0u8; 32]);
}

#[test]
fn equality_compares_every_byte() {
    let a = Bytes20::from([5u8; 20]);
    let mut raw = [5u8; 20];
    assert!(a == Bytes20::from(raw));
    raw[19] = 6;
    assert!(a != Bytes20::from(raw));
    raw[19] = 5;
    raw[0] = 0;
    assert!(a != Bytes20::from(raw));
    assert!(Uint128::default() == Uint128::from([0u8; 16]));
    assert!(Bytes32::from([1u8; 32]) != Bytes32::default());
}
