//! The capabilities that an execution host offers to the guest.
//!
//! The host owns all state: the input of the current call, the running code,
//! the code of other accounts, the buffer of the last call's return data, the
//! block data of a shard block, and the log output. The guest sees that state
//! only through the operations of [`Host`]. Each variable-length resource is
//! exposed as a size query and an unchecked raw copy; the checked copy built on
//! top of them lives in the `copy` module.
use crate::types::{Address, EtherValue, LogTopic};
use vstd::prelude::*;

verus! {

/// A variable-length resource held by the host.
#[derive(Copy, Clone, Debug)]
pub enum Resource {
    /// The input data of the currently executing call.
    CallData,
    /// The currently executing code.
    Code,
    /// The code deployed at an address.
    ExternalCode(Address),
    /// The data returned by the most recent call.
    ReturnData,
    /// The data of the shard block being processed.
    BlockData,
}

/// `dst` after its first `src.len()` bytes are replaced by `src`.
pub open spec fn overwrite_prefix(dst: Seq<u8>, src: Seq<u8>) -> Seq<u8>
    recommends
        src.len() <= dst.len(),
{
    src + dst.subrange(src.len() as int, dst.len() as int)
}

/// The topics held by the first `count` of the four topic slots.
pub open spec fn slot_topics(count: usize, slots: Seq<Option<&LogTopic>>) -> Seq<LogTopic> {
    Seq::new(count as nat, |i: int| *(slots[i]->0))
}

/// The first `count` slots hold a topic and the others are empty.
pub open spec fn slots_well_formed(count: usize, slots: Seq<Option<&LogTopic>>) -> bool {
    &&& slots.len() == 4
    &&& count <= 4
    &&& forall|i: int| 0 <= i < 4 ==> (slots[i] is Some <==> i < count)
}

/// The operations that an execution host provides.
///
/// A host is modelled by the contents of each resource and by the sequence of
/// log records emitted so far. Calls and contract creation are decided by the
/// host alone: their status codes are arbitrary, and they may change any
/// resource. The model keeps the latest status code and created address.
pub trait Host {
    /// The current contents of a resource.
    spec fn contents(&self, r: Resource) -> Seq<u8>;

    /// The log records emitted so far, each a payload and its topics.
    spec fn log_records(&self) -> Seq<(Seq<u8>, Seq<LogTopic>)>;

    /// The status code that the most recent call or creation returned.
    spec fn last_status(&self) -> u32;

    /// The address that the most recent creation wrote.
    spec fn last_created(&self) -> Address;

    /// The total size of a resource.
    fn size(&self, r: &Resource) -> (n: usize)
        ensures
            n == self.contents(*r).len(),
    ;

    /// Copies `length` bytes of a resource, starting at `from`, into the first
    /// `length` bytes of `ret`. The host does no bounds checking of its own:
    /// the range must lie within both the resource and `ret`.
    fn unsafe_copy(&self, r: &Resource, from: usize, length: usize, ret: &mut [u8])
        requires
            from + length <= self.contents(*r).len(),
            length <= old(ret)@.len(),
        ensures
            final(ret)@ == overwrite_prefix(
                old(ret)@,
                self.contents(*r).subrange(from as int, from + length),
            ),
    ;

    /// Appends a log record with `data` and the topics of the first
    /// `topic_count` slots; the other slots are empty.
    fn log(
        &mut self,
        data: &[u8],
        topic_count: usize,
        topic1: Option<&LogTopic>,
        topic2: Option<&LogTopic>,
        topic3: Option<&LogTopic>,
        topic4: Option<&LogTopic>,
    )
        requires
            slots_well_formed(topic_count, seq![topic1, topic2, topic3, topic4]),
        ensures
            final(self).log_records() == old(self).log_records().push(
                (data@, slot_topics(topic_count, seq![topic1, topic2, topic3, topic4])),
            ),
            forall|r: Resource| #[trigger] final(self).contents(r) == old(self).contents(r),
    ;

    /// Calls `address` with `gas_limit`, `value` and `data`; returns the
    /// host's status code.
    fn call(
        &mut self,
        gas_limit: u64,
        address: &Address,
        value: &EtherValue,
        data: &[u8],
    ) -> (status: u32)
        ensures
            final(self).last_status() == status,
    ;

    /// Runs the code of `address` in the caller's context; returns the host's
    /// status code.
    fn call_code(
        &mut self,
        gas_limit: u64,
        address: &Address,
        value: &EtherValue,
        data: &[u8],
    ) -> (status: u32)
        ensures
            final(self).last_status() == status,
    ;

    /// Runs the code of `address` keeping the current sender and value;
    /// returns the host's status code.
    fn call_delegate(&mut self, gas_limit: u64, address: &Address, data: &[u8]) -> (status: u32)
        ensures
            final(self).last_status() == status,
    ;

    /// Calls `address` without allowing state changes; returns the host's
    /// status code.
    fn call_static(&mut self, gas_limit: u64, address: &Address, data: &[u8]) -> (status: u32)
        ensures
            final(self).last_status() == status,
    ;

    /// Creates a contract from `data`, sending it `value`; returns the host's
    /// status code and writes the new contract's address to `result`.
    fn create(&mut self, value: &EtherValue, data: &[u8], result: &mut Address) -> (status: u32)
        ensures
            final(self).last_status() == status,
            final(self).last_created() == *final(result),
    ;
}

} // verus!
