use ewasm_api::eth2::{acquire_block_data, block_data_copy};
use ewasm_api::types::Address;
use ewasm_api::{
    calldata_acquire, calldata_copy, check_copy, code_acquire, code_copy, external_code_acquire,
    external_code_copy, returndata_acquire, returndata_copy, Error, MemoryHost,
};

fn ten_bytes() -> Vec<u8> {
    (1u8..=10).collect()
}

#[test]
fn check_copy_boundaries() {
    assert_eq!(check_copy(10, 4, 6, 6), Ok(()));
    assert_eq!(check_copy(10, 4, 7, 7), Err(Error::OutOfBoundsCopy));
    assert_eq!(check_copy(10, 10, 0, 0), Ok(()));
    assert_eq!(check_copy(10, 11, 0, 0), Err(Error::OutOfBoundsCopy));
    assert_eq!(check_copy(0, 0, 0, 0), Ok(()));
    assert_eq!(check_copy(0, 1, 0, 0), Err(Error::OutOfBoundsCopy));
    assert_eq!(check_copy(10, 0, 10, 9), Err(Error::OutOfBoundsCopy));
}

#[test]
fn offset_past_end_never_wraps() {
    assert_eq!(check_copy(usize::MAX - 1, usize::MAX, 0, 0), Err(Error::OutOfBoundsCopy));
    assert_eq!(check_copy(5, usize::MAX, 0, 0), Err(Error::OutOfBoundsCopy));
    assert_eq!(check_copy(5, 6, usize::MAX, usize::MAX), Err(Error::OutOfBoundsCopy));
    assert_eq!(check_copy(5, 2, usize::MAX, usize::MAX), Err(Error::OutOfBoundsCopy));
}

#[test]
fn calldata_scenario() {
    let mut host = MemoryHost::new();
    host.calldata = ten_bytes();

    let mut buf = vec![0u8; 6];
    assert_eq!(calldata_copy(&host, 4, 6, &mut buf), Ok(()));
    assert_eq!(buf.len(), 6);
    assert_eq!(buf, vec![5, 6, 7, 8, 9, 10]);

    let mut buf = vec![0u8; 7];
    assert_eq!(calldata_copy(&host, 4, 7, &mut buf), Err(Error::OutOfBoundsCopy));
    assert_eq!(buf, vec![0u8; 7]);

    let mut buf: Vec<u8> = Vec::new();
    assert_eq!(calldata_copy(&host, 11, 0, &mut buf), Err(Error::OutOfBoundsCopy));

    let mut buf = vec![0u8; 10];
    assert_eq!(calldata_copy(&host, 0, 10, &mut buf), Ok(()));
    assert_eq!(buf, ten_bytes());
}

#[test]
fn empty_copy_at_end_succeeds() {
    let mut host = MemoryHost::new();
    host.calldata = ten_bytes();
    let mut buf: Vec<u8> = Vec::new();
    assert_eq!(calldata_copy(&host, 10, 0, &mut buf), Ok(()));
    assert!(buf.is_empty());
}

#[test]
fn copy_into_short_buffer_is_refused() {
    let mut host = MemoryHost::new();
    host.calldata = ten_bytes();
    let mut buf = vec![9u8; 3];
    assert_eq!(calldata_copy(&host, 0, 4, &mut buf), Err(Error::OutOfBoundsCopy));
    assert_eq!(buf, vec![9u8; 3]);
}

#[test]
fn copy_fills_only_the_requested_prefix() {
    let mut host = MemoryHost::new();
    host.calldata = ten_bytes();
    let mut buf = vec![0xffu8; 5];
    assert_eq!(calldata_copy(&host, 2, 3, &mut buf), Ok(()));
    assert_eq!(buf, vec![3, 4, 5, 0xff, 0xff]);
}

#[test]
fn calldata_acquire_returns_everything() {
    let mut host = MemoryHost::new();
    assert!(calldata_acquire(&host).is_empty());
    host.calldata = ten_bytes();
    assert_eq!(calldata_acquire(&host), ten_bytes());
}

#[test]
fn code_resource() {
    let mut host = MemoryHost::new();
    host.code = vec![0x60, 0x00, 0x56];
    assert_eq!(code_acquire(&host), vec![0x60, 0x00, 0x56]);
    let mut buf = vec![0u8; 2];
    assert_eq!(code_copy(&host, 1, 2, &mut buf), Ok(()));
    assert_eq!(buf, vec![0x00, 0x56]);
    assert_eq!(code_copy(&host, 2, 2, &mut buf), Err(Error::OutOfBoundsCopy));
}

#[test]
fn external_code_resource() {
    let mut host = MemoryHost::new();
    let a = Address::from([1u8; 20]);
    let b = Address::from([2u8; 20]);
    let c = Address::from([3u8; 20]);
    host.accounts = vec![(a, vec![10, 11, 12]), (b, vec![20, 21]), (a, vec![99])];
    assert_eq!(external_code_acquire(&host, &a), vec![10, 11, 12]);
    assert_eq!(external_code_acquire(&host, &b), vec![20, 21]);
    assert!(external_code_acquire(&host, &c).is_empty());

    let mut buf = vec![0u8; 1];
    assert_eq!(external_code_copy(&host, &b, 1, 1, &mut buf), Ok(()));
    assert_eq!(buf, vec![21]);
    assert_eq!(external_code_copy(&host, &b, 2, 1, &mut buf), Err(Error::OutOfBoundsCopy));
    assert_eq!(external_code_copy(&host, &c, 0, 0, &mut buf), Ok(()));
    assert_eq!(external_code_copy(&host, &c, 0, 1, &mut buf), Err(Error::OutOfBoundsCopy));
    assert_eq!(buf, vec![21]);
}

#[test]
fn returndata_resource() {
    let mut host = MemoryHost::new();
    host.returndata = vec![7, 8, 9];
    assert_eq!(returndata_acquire(&host), vec![7, 8, 9]);
    let mut buf = vec![0u8; 3];
    assert_eq!(returndata_copy(&host, 0, 3, &mut buf), Ok(()));
    assert_eq!(buf, vec![7, 8, 9]);
    assert_eq!(returndata_copy(&host, 4, 0, &mut buf), Err(Error::OutOfBoundsCopy));
}

#[test]
fn block_data_resource() {
    let mut host = MemoryHost::new();
    host.block_data = ten_bytes();
    assert_eq!(acquire_block_data(&host), ten_bytes());
    let mut buf = vec![0u8; 4];
    assert_eq!(block_data_copy(&host, 6, 4, &mut buf), Ok(()));
    assert_eq!(buf, vec![7, 8, 9, 10]);
    assert_eq!(block_data_copy(&host, 7, 4, &mut buf), Err(Error::OutOfBoundsCopy));
}
