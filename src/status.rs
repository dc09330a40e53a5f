//! Decoding of the status codes that the host returns for calls and contract
//! creation.
//!
//! Status `0` is success, `1` failure and `2` revert. Any other code is
//! reported as `Unknown` rather than aborting the guest, since hosts may add
//! codes over time.
use crate::host::Host;
use crate::types::{Address, EtherValue};
use vstd::prelude::*;

verus! {

/// The outcome of a call.
#[derive(Copy, Clone, Debug, PartialEq, Eq, Structural)]
pub enum CallResult {
    Successful,
    Failure,
    Revert,
    Unknown,
}

/// The outcome of contract creation; on success, the address of the new
/// contract.
#[derive(Copy, Clone, Debug, PartialEq, Eq)]
pub enum CreateResult {
    Successful(Address),
    Failure,
    Revert,
    Unknown,
}

/// The call outcome that a status code stands for.
pub open spec fn call_result_of(status: u32) -> CallResult {
    if status == 0 {
        CallResult::Successful
    } else if status == 1 {
        CallResult::Failure
    } else if status == 2 {
        CallResult::Revert
    } else {
        CallResult::Unknown
    }
}

/// The creation outcome that a status code stands for, given the address that
/// the host wrote.
pub open spec fn create_result_of(status: u32, address: Address) -> CreateResult {
    if status == 0 {
        CreateResult::Successful(address)
    } else if status == 1 {
        CreateResult::Failure
    } else if status == 2 {
        CreateResult::Revert
    } else {
        CreateResult::Unknown
    }
}

/// Decodes the status code of a call.
pub fn decode_call_status(status: u32) -> (r: CallResult)
    ensures
        r == call_result_of(status),
{
    match status {
        0 => CallResult::Successful,
        1 => CallResult::Failure,
        2 => CallResult::Revert,
        _ => CallResult::Unknown,
    }
}

/// Decodes the status code of contract creation; `address` is what the host
/// wrote as the new contract's address.
pub fn decode_create_status(status: u32, address: Address) -> (r: CreateResult)
    ensures
        r == create_result_of(status, address),
{
    match status {
        0 => CreateResult::Successful(address),
        1 => CreateResult::Failure,
        2 => CreateResult::Revert,
        _ => CreateResult::Unknown,
    }
}

/// Executes a standard call to `address` with the given gas limit, value and
/// data.
pub fn call_mutable<H: Host>(
    host: &mut H,
    gas_limit: u64,
    address: &Address,
    value: &EtherValue,
    data: &[u8],
) -> (r: CallResult)
    ensures
        r == call_result_of(final(host).last_status()),
{
    let status = host.call(gas_limit, address, value, data);
    decode_call_status(status)
}

/// Executes another account's code in the context of the caller.
pub fn call_code<H: Host>(
    host: &mut H,
    gas_limit: u64,
    address: &Address,
    value: &EtherValue,
    data: &[u8],
) -> (r: CallResult)
    ensures
        r == call_result_of(final(host).last_status()),
{
    let status = host.call_code(gas_limit, address, value, data);
    decode_call_status(status)
}

/// Executes a call like `call_code`, keeping the current call's sender and
/// value.
pub fn call_delegate<H: Host>(host: &mut H, gas_limit: u64, address: &Address, data: &[u8]) -> (r:
    CallResult)
    ensures
        r == call_result_of(final(host).last_status()),
{
    let status = host.call_delegate(gas_limit, address, data);
    decode_call_status(status)
}

/// Executes a call that cannot change the state.
pub fn call_static<H: Host>(host: &mut H, gas_limit: u64, address: &Address, data: &[u8]) -> (r:
    CallResult)
    ensures
        r == call_result_of(final(host).last_status()),
{
    let status = host.call_static(gas_limit, address, data);
    decode_call_status(status)
}

/// Creates a contract with the given code, sending it `value`.
pub fn create<H: Host>(host: &mut H, value: &EtherValue, data: &[u8]) -> (r: CreateResult)
    ensures
        r == create_result_of(final(host).last_status(), final(host).last_created()),
{
    let mut address = Address::default();
    let status = host.create(value, data, &mut address);
    decode_create_status(status, address)
}

} // verus!
