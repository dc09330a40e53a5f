//! Guest-side bindings to an Ethereum execution host: fixed-width values,
//! bounds-checked copies of host resources, call and create status decoding,
//! and log emission.
//!
//! The host is reached through the [`host::Host`] trait. Every copy out of a
//! host resource is checked against the resource's size and the destination's
//! length before the host's unchecked copy is issued.

pub mod copy;
pub mod eth2;
pub mod host;
pub mod log;
pub mod memory;
pub mod status;
pub mod types;
pub mod utils;

pub use copy::{
    calldata_acquire, calldata_copy, check_copy, code_acquire, code_copy, external_code_acquire,
    external_code_copy, returndata_acquire, returndata_copy, Error,
};
pub use host::{Host, Resource};
pub use log::{log0, log1, log2, log3, log4, log_topics};
pub use memory::MemoryHost;
pub use status::{
    call_code, call_delegate, call_mutable, call_static, create, decode_call_status,
    decode_create_status, CallResult, CreateResult,
};
