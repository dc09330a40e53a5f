//! Fixed-width byte values exchanged with the host.
//!
//! Each type wraps a byte array of exactly its size. Conversions to and from
//! the raw array are lossless in both directions.
use vstd::prelude::*;
use vstd::std_specs::convert::FromSpec;

verus! {

/// Compares two byte slices element by element.
fn bytes_equal(a: &[u8], b: &[u8]) -> (r: bool)
    ensures
        r == (a@ == b@),
{
    if a.len() != b.len() {
        return false;
    }
    let mut i: usize = 0;
    while i < a.len()
        invariant
            a@.len() == b@.len(),
            0 <= i <= a@.len(),
            a@.subrange(0, i as int) == b@.subrange(0, i as int),
        decreases a@.len() - i,
    {
        if a[i] != b[i] {
            return false;
        }
        assert(a@.subrange(0, i + 1) =~= a@.subrange(0, i as int).push(a@[i as int]));
        assert(b@.subrange(0, i + 1) =~= b@.subrange(0, i as int).push(b@[i as int]));
        i += 1;
    }
    assert(a@ =~= a@.subrange(0, a@.len() as int));
    assert(b@ =~= b@.subrange(0, b@.len() as int));
    true
}

/// A little-endian unsigned 128-bit integer.
#[derive(Copy, Clone, Debug, Eq)]
pub struct Uint128 {
    pub bytes: [u8; 16],
}

impl View for Uint128 {
    type V = Seq<u8>;

    open spec fn view(&self) -> Seq<u8> {
        self.bytes@
    }
}

impl PartialEq for Uint128 {
    fn eq(&self, o: &Self) -> (r: bool) {
        bytes_equal(&self.bytes, &o.bytes)
    }
}

impl vstd::std_specs::cmp::PartialEqSpecImpl for Uint128 {
    open spec fn obeys_eq_spec() -> bool {
        true
    }

    open spec fn eq_spec(&self, o: &Self) -> bool {
        self@ == o@
    }
}

impl Default for Uint128 {
    /// All bytes zero.
    fn default() -> (r: Self)
        ensures
            r@ == Seq::new(16, |i: int| 0u8),
    {
        let r = Uint128 { bytes: [0u8; 16] };
        assert(r@ =~= Seq::new(16, |i: int| 0u8));
        r
    }
}

impl From<[u8; 16]> for Uint128 {
    fn from(a: [u8; 16]) -> (r: Self) {
        Uint128 { bytes: a }
    }
}

impl vstd::std_specs::convert::FromSpecImpl<[u8; 16]> for Uint128 {
    open spec fn obeys_from_spec() -> bool {
        true
    }

    open spec fn from_spec(a: [u8; 16]) -> Self {
        Uint128 { bytes: a }
    }
}

impl From<&[u8; 16]> for Uint128 {
    fn from(a: &[u8; 16]) -> (r: Self) {
        Uint128 { bytes: *a }
    }
}

impl vstd::std_specs::convert::FromSpecImpl<&[u8; 16]> for Uint128 {
    open spec fn obeys_from_spec() -> bool {
        true
    }

    open spec fn from_spec(a: &[u8; 16]) -> Self {
        Uint128 { bytes: *a }
    }
}

impl From<Uint128> for [u8; 16] {
    fn from(a: Uint128) -> (r: Self) {
        a.bytes
    }
}

impl vstd::std_specs::convert::FromSpecImpl<Uint128> for [u8; 16] {
    open spec fn obeys_from_spec() -> bool {
        true
    }

    open spec fn from_spec(a: Uint128) -> Self {
        a.bytes
    }
}

/// Converting a `Uint128` to its bytes and back gives the same value, and
/// converting 16 bytes to a `Uint128` and back gives the same bytes.
pub proof fn lemma_uint128_round_trip(v: Uint128, b: [u8; 16])
    ensures
        <Uint128 as FromSpec<[u8; 16]>>::from_spec(<[u8; 16] as FromSpec<Uint128>>::from_spec(v))
            == v,
        <[u8; 16] as FromSpec<Uint128>>::from_spec(<Uint128 as FromSpec<[u8; 16]>>::from_spec(b))
            == b,
{
}

/// A little-endian unsigned 256-bit integer.
#[derive(Copy, Clone, Debug, Eq)]
pub struct Uint256 {
    pub bytes: [u8; 32],
}

impl View for Uint256 {
    type V = Seq<u8>;

    open spec fn view(&self) -> Seq<u8> {
        self.bytes@
    }
}

impl PartialEq for Uint256 {
    fn eq(&self, o: &Self) -> (r: bool) {
        bytes_equal(&self.bytes, &o.bytes)
    }
}

impl vstd::std_specs::cmp::PartialEqSpecImpl for Uint256 {
    open spec fn obeys_eq_spec() -> bool {
        true
    }

    open spec fn eq_spec(&self, o: &Self) -> bool {
        self@ == o@
    }
}

impl Default for Uint256 {
    /// All bytes zero.
    fn default() -> (r: Self)
        ensures
            r@ == Seq::new(32, |i: int| 0u8),
    {
        let r = Uint256 { bytes: [0u8; 32] };
        assert(r@ =~= Seq::new(32, |i: int| 0u8));
        r
    }
}

impl From<[u8; 32]> for Uint256 {
    fn from(a: [u8; 32]) -> (r: Self) {
        Uint256 { bytes: a }
    }
}

impl vstd::std_specs::convert::FromSpecImpl<[u8; 32]> for Uint256 {
    open spec fn obeys_from_spec() -> bool {
        true
    }

    open spec fn from_spec(a: [u8; 32]) -> Self {
        Uint256 { bytes: a }
    }
}

impl From<&[u8; 32]> for Uint256 {
    fn from(a: &[u8; 32]) -> (r: Self) {
        Uint256 { bytes: *a }
    }
}

impl vstd::std_specs::convert::FromSpecImpl<&[u8; 32]> for Uint256 {
    open spec fn obeys_from_spec() -> bool {
        true
    }

    open spec fn from_spec(a: &[u8; 32]) -> Self {
        Uint256 { bytes: *a }
    }
}

impl From<Uint256> for [u8; 32] {
    fn from(a: Uint256) -> (r: Self) {
        a.bytes
    }
}

impl vstd::std_specs::convert::FromSpecImpl<Uint256> for [u8; 32] {
    open spec fn obeys_from_spec() -> bool {
        true
    }

    open spec fn from_spec(a: Uint256) -> Self {
        a.bytes
    }
}

/// Converting a `Uint256` to its bytes and back gives the same value, and
/// converting 32 bytes to a `Uint256` and back gives the same bytes.
pub proof fn lemma_uint256_round_trip(v: Uint256, b: [u8; 32])
    ensures
        <Uint256 as FromSpec<[u8; 32]>>::from_spec(<[u8; 32] as FromSpec<Uint256>>::from_spec(v))
            == v,
        <[u8; 32] as FromSpec<Uint256>>::from_spec(<Uint256 as FromSpec<[u8; 32]>>::from_spec(b))
            == b,
{
}

/// An array of 160 bits.
#[derive(Copy, Clone, Debug, Eq)]
pub struct Bytes20 {
    pub bytes: [u8; 20],
}

impl View for Bytes20 {
    type V = Seq<u8>;

    open spec fn view(&self) -> Seq<u8> {
        self.bytes@
    }
}

impl PartialEq for Bytes20 {
    fn eq(&self, o: &Self) -> (r: bool) {
        bytes_equal(&self.bytes, &o.bytes)
    }
}

impl vstd::std_specs::cmp::PartialEqSpecImpl for Bytes20 {
    open spec fn obeys_eq_spec() -> bool {
        true
    }

    open spec fn eq_spec(&self, o: &Self) -> bool {
        self@ == o@
    }
}

impl Default for Bytes20 {
    /// All bytes zero.
    fn default() -> (r: Self)
        ensures
            r@ == Seq::new(20, |i: int| 0u8),
    {
        let r = Bytes20 { bytes: [0u8; 20] };
        assert(r@ =~= Seq::new(20, |i: int| 0u8));
        r
    }
}

impl From<[u8; 20]> for Bytes20 {
    fn from(a: [u8; 20]) -> (r: Self) {
        Bytes20 { bytes: a }
    }
}

impl vstd::std_specs::convert::FromSpecImpl<[u8; 20]> for Bytes20 {
    open spec fn obeys_from_spec() -> bool {
        true
    }

    open spec fn from_spec(a: [u8; 20]) -> Self {
        Bytes20 { bytes: a }
    }
}

impl From<&[u8; 20]> for Bytes20 {
    fn from(a: &[u8; 20]) -> (r: Self) {
        Bytes20 { bytes: *a }
    }
}

impl vstd::std_specs::convert::FromSpecImpl<&[u8; 20]> for Bytes20 {
    open spec fn obeys_from_spec() -> bool {
        true
    }

    open spec fn from_spec(a: &[u8; 20]) -> Self {
        Bytes20 { bytes: *a }
    }
}

impl From<Bytes20> for [u8; 20] {
    fn from(a: Bytes20) -> (r: Self) {
        a.bytes
    }
}

impl vstd::std_specs::convert::FromSpecImpl<Bytes20> for [u8; 20] {
    open spec fn obeys_from_spec() -> bool {
        true
    }

    open spec fn from_spec(a: Bytes20) -> Self {
        a.bytes
    }
}

/// Converting a `Bytes20` to its bytes and back gives the same value, and
/// converting 20 bytes to a `Bytes20` and back gives the same bytes.
pub proof fn lemma_bytes20_round_trip(v: Bytes20, b: [u8; 20])
    ensures
        <Bytes20 as FromSpec<[u8; 20]>>::from_spec(<[u8; 20] as FromSpec<Bytes20>>::from_spec(v))
            == v,
        <[u8; 20] as FromSpec<Bytes20>>::from_spec(<Bytes20 as FromSpec<[u8; 20]>>::from_spec(b))
            == b,
{
}

/// An array of 256 bits.
#[derive(Copy, Clone, Debug, Eq)]
pub struct Bytes32 {
    pub bytes: [u8; 32],
}

impl View for Bytes32 {
    type V = Seq<u8>;

    open spec fn view(&self) -> Seq<u8> {
        self.bytes@
    }
}

impl PartialEq for Bytes32 {
    fn eq(&self, o: &Self) -> (r: bool) {
        bytes_equal(&self.bytes, &o.bytes)
    }
}

impl vstd::std_specs::cmp::PartialEqSpecImpl for Bytes32 {
    open spec fn obeys_eq_spec() -> bool {
        true
    }

    open spec fn eq_spec(&self, o: &Self) -> bool {
        self@ == o@
    }
}

impl Default for Bytes32 {
    /// All bytes zero.
    fn default() -> (r: Self)
        ensures
            r@ == Seq::new(32, |i: int| 0u8),
    {
        let r = Bytes32 { bytes: [0u8; 32] };
        assert(r@ =~= Seq::new(32, |i: int| 0u8));
        r
    }
}

impl From<[u8; 32]> for Bytes32 {
    fn from(a: [u8; 32]) -> (r: Self) {
        Bytes32 { bytes: a }
    }
}

impl vstd::std_specs::convert::FromSpecImpl<[u8; 32]> for Bytes32 {
    open spec fn obeys_from_spec() -> bool {
        true
    }

    open spec fn from_spec(a: [u8; 32]) -> Self {
        Bytes32 { bytes: a }
    }
}

impl From<&[u8; 32]> for Bytes32 {
    fn from(a: &[u8; 32]) -> (r: Self) {
        Bytes32 { bytes: *a }
    }
}

impl vstd::std_specs::convert::FromSpecImpl<&[u8; 32]> for Bytes32 {
    open spec fn obeys_from_spec() -> bool {
        true
    }

    open spec fn from_spec(a: &[u8; 32]) -> Self {
        Bytes32 { bytes: *a }
    }
}

impl From<Bytes32> for [u8; 32] {
    fn from(a: Bytes32) -> (r: Self) {
        a.bytes
    }
}

impl vstd::std_specs::convert::FromSpecImpl<Bytes32> for [u8; 32] {
    open spec fn obeys_from_spec() -> bool {
        true
    }

    open spec fn from_spec(a: Bytes32) -> Self {
        a.bytes
    }
}

/// Converting a `Bytes32` to its bytes and back gives the same value, and
/// converting 32 bytes to a `Bytes32` and back gives the same bytes.
pub proof fn lemma_bytes32_round_trip(v: Bytes32, b: [u8; 32])
    ensures
        <Bytes32 as FromSpec<[u8; 32]>>::from_spec(<[u8; 32] as FromSpec<Bytes32>>::from_spec(v))
            == v,
        <[u8; 32] as FromSpec<Bytes32>>::from_spec(<Bytes32 as FromSpec<[u8; 32]>>::from_spec(b))
            == b,
{
}

/// A value in wei.
pub type EtherValue = Uint128;

/// An account address.
pub type Address = Bytes20;

/// A storage key.
pub type StorageKey = Bytes32;

/// A storage value.
pub type StorageValue = Bytes32;

/// A log topic.
pub type LogTopic = Bytes32;

/// A Keccak-256 or SHA-256 hash.
pub type Hash = Bytes32;

/// A block's difficulty.
pub type Difficulty = Uint256;

} // verus!
