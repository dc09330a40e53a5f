//! A host whose state is held in guest memory.
//!
//! It serves every resource from its own buffers, records the logs it is
//! given, and answers every call and creation with a fixed status code. It
//! runs guest logic without an execution engine, for instance in tests.
use crate::host::{overwrite_prefix, slot_topics, slots_well_formed, Host, Resource};
use crate::types::{Address, EtherValue, LogTopic};
use vstd::prelude::*;

verus! {

/// The code deployed at `address` among `accounts`: that of the first entry
/// with this address, or empty if there is none.
pub open spec fn code_at(accounts: Seq<(Address, Vec<u8>)>, address: Address) -> Seq<u8>
    decreases accounts.len(),
{
    if accounts.len() == 0 {
        Seq::empty()
    } else if accounts[0].0@ == address@ {
        accounts[0].1@
    } else {
        code_at(accounts.drop_first(), address)
    }
}

/// A host whose resources are buffers in memory.
pub struct MemoryHost {
    /// The input data of the current call.
    pub calldata: Vec<u8>,
    /// The running code.
    pub code: Vec<u8>,
    /// The return buffer.
    pub returndata: Vec<u8>,
    /// The block data of the current shard block.
    pub block_data: Vec<u8>,
    /// Other accounts, each with its address and code.
    pub accounts: Vec<(Address, Vec<u8>)>,
    /// The log records emitted so far, each a payload and its topics.
    pub logs: Vec<(Vec<u8>, Vec<LogTopic>)>,
    /// The status code with which every call and creation is answered.
    pub status: u32,
    /// The address reported for every created contract.
    pub created: Address,
}

/// Copies `length` bytes of `src`, from offset `from`, into the start of `ret`.
fn copy_into(src: &[u8], from: usize, length: usize, ret: &mut [u8])
    requires
        from + length <= src@.len(),
        length <= old(ret)@.len(),
    ensures
        final(ret)@ == overwrite_prefix(old(ret)@, src@.subrange(from as int, from + length)),
{
    let n = src.len();
    let mut j: usize = 0;
    while j < length
        invariant
            n == src@.len(),
            from + length <= src@.len(),
            length <= old(ret)@.len(),
            0 <= j <= length,
            ret@.len() == old(ret)@.len(),
            forall|k: int| 0 <= k < j ==> ret@[k] == src@[from + k],
            forall|k: int| j <= k < ret@.len() ==> ret@[k] == old(ret)@[k],
        decreases length - j,
    {
        ret[j] = src[from + j];
        j += 1;
    }
    assert(ret@ =~= overwrite_prefix(old(ret)@, src@.subrange(from as int, from + length)));
}

impl MemoryHost {
    /// A host with empty resources, no logs, status `0` and a zero address.
    pub fn new() -> (r: Self)
        ensures
            forall|res: Resource| #[trigger] r.contents(res) == Seq::<u8>::empty(),
            r.log_records() == Seq::<(Seq<u8>, Seq<LogTopic>)>::empty(),
            r.last_status() == 0,
            r.last_created()@ == Seq::new(20, |i: int| 0u8),
    {
        let r = MemoryHost {
            calldata: Vec::new(),
            code: Vec::new(),
            returndata: Vec::new(),
            block_data: Vec::new(),
            accounts: Vec::new(),
            logs: Vec::new(),
            status: 0,
            created: Address::default(),
        };
        assert(r.log_records() =~= Seq::<(Seq<u8>, Seq<LogTopic>)>::empty());
        r
    }

    /// The index of the first account with `address`, if any.
    fn find_account(&self, address: &Address) -> (r: Option<usize>)
        ensures
            r matches Some(i) ==> i < self.accounts@.len() && code_at(self.accounts@, *address)
                == self.accounts@[i as int].1@,
            r is None ==> code_at(self.accounts@, *address) == Seq::<u8>::empty(),
    {
        let mut i: usize = 0;
        assert(self.accounts@.subrange(0, self.accounts@.len() as int) =~= self.accounts@);
        while i < self.accounts.len()
            invariant
                0 <= i <= self.accounts@.len(),
                code_at(self.accounts@, *address) == code_at(
                    self.accounts@.subrange(i as int, self.accounts@.len() as int),
                    *address,
                ),
            decreases self.accounts@.len() - i,
        {
            let rest = Ghost(self.accounts@.subrange(i as int, self.accounts@.len() as int));
            assert(rest@[0] == self.accounts@[i as int]);
            if self.accounts[i].0 == *address {
                return Some(i);
            }
            assert(rest@.drop_first() =~= self.accounts@.subrange(
                i + 1,
                self.accounts@.len() as int,
            ));
            i += 1;
        }
        None
    }
}

impl Host for MemoryHost {
    open spec fn contents(&self, r: Resource) -> Seq<u8> {
        match r {
            Resource::CallData => self.calldata@,
            Resource::Code => self.code@,
            Resource::ExternalCode(address) => code_at(self.accounts@, address),
            Resource::ReturnData => self.returndata@,
            Resource::BlockData => self.block_data@,
        }
    }

    open spec fn log_records(&self) -> Seq<(Seq<u8>, Seq<LogTopic>)> {
        self.logs@.map_values(|e: (Vec<u8>, Vec<LogTopic>)| (e.0@, e.1@))
    }

    open spec fn last_status(&self) -> u32 {
        self.status
    }

    open spec fn last_created(&self) -> Address {
        self.created
    }

    fn size(&self, r: &Resource) -> (n: usize) {
        match r {
            Resource::CallData => self.calldata.len(),
            Resource::Code => self.code.len(),
            Resource::ExternalCode(address) => match self.find_account(address) {
                Some(i) => self.accounts[i].1.len(),
                None => 0,
            },
            Resource::ReturnData => self.returndata.len(),
            Resource::BlockData => self.block_data.len(),
        }
    }

    fn unsafe_copy(&self, r: &Resource, from: usize, length: usize, ret: &mut [u8]) {
        match r {
            Resource::CallData => copy_into(self.calldata.as_slice(), from, length, ret),
            Resource::Code => copy_into(self.code.as_slice(), from, length, ret),
            Resource::ExternalCode(address) => match self.find_account(address) {
                Some(i) => copy_into(self.accounts[i].1.as_slice(), from, length, ret),
                None => {
                    assert(old(ret)@ =~= overwrite_prefix(old(ret)@, Seq::<u8>::empty()));
                },
            },
            Resource::ReturnData => copy_into(self.returndata.as_slice(), from, length, ret),
            Resource::BlockData => copy_into(self.block_data.as_slice(), from, length, ret),
        }
    }

    fn log(
        &mut self,
        data: &[u8],
        topic_count: usize,
        topic1: Option<&LogTopic>,
        topic2: Option<&LogTopic>,
        topic3: Option<&LogTopic>,
        topic4: Option<&LogTopic>,
    ) {
        let ghost slots = seq![topic1, topic2, topic3, topic4];
        let mut topics: Vec<LogTopic> = Vec::new();
        if let Some(t) = topic1 {
            topics.push(*t);
        }
        if let Some(t) = topic2 {
            topics.push(*t);
        }
        if let Some(t) = topic3 {
            topics.push(*t);
        }
        if let Some(t) = topic4 {
            topics.push(*t);
        }
        assert(topics@ =~= slot_topics(topic_count, slots));
        let ghost before = self.logs@;
        self.logs.push((vstd::slice::slice_to_vec(data), topics));
        assert(self.log_records() =~= before.map_values(
            |e: (Vec<u8>, Vec<LogTopic>)| (e.0@, e.1@),
        ).push((data@, slot_topics(topic_count, slots))));
    }

    fn call(
        &mut self,
        _gas_limit: u64,
        _address: &Address,
        _value: &EtherValue,
        _data: &[u8],
    ) -> (status: u32) {
        self.status
    }

    fn call_code(
        &mut self,
        _gas_limit: u64,
        _address: &Address,
        _value: &EtherValue,
        _data: &[u8],
    ) -> (status: u32) {
        self.status
    }

    fn call_delegate(
        &mut self,
        _gas_limit: u64,
        _address: &Address,
        _data: &[u8],
    ) -> (status: u32) {
        self.status
    }

    fn call_static(&mut self, _gas_limit: u64, _address: &Address, _data: &[u8]) -> (status: u32) {
        self.status
    }

    fn create(&mut self, _value: &EtherValue, _data: &[u8], result: &mut Address) -> (status: u32) {
        *result = self.created;
        self.status
    }
}

} // verus!
