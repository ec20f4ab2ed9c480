//! The values that a transaction brings with it.

use vstd::prelude::*;
use move_core_types::identifier::Identifier;
use move_core_types::language_storage::StructTag;

verus! {

/// The address of an account: sixteen bytes.
#[derive(Clone, Copy, Debug, PartialEq, Eq, Hash)]
pub struct AccountAddress {
    pub bytes: [u8; 16],
}

impl View for AccountAddress {
    type V = Seq<u8>;

    open spec fn view(&self) -> Seq<u8> {
        self.bytes@
    }
}

/// The bytes of the address under which the standard library is published.
pub open spec fn spec_core_code_bytes() -> Seq<u8> {
    seq![0u8, 0u8, 0u8, 0u8, 0u8, 0u8, 0u8, 0u8, 0u8, 0u8, 0u8, 0u8, 0u8, 0u8, 0u8, 1u8]
}

impl AccountAddress {
    pub fn new(bytes: [u8; 16]) -> (a: AccountAddress)
        ensures
            a.bytes == bytes,
    {
        AccountAddress { bytes }
    }

    /// The privileged address that holds the standard library.
    pub fn core_code_address() -> (a: AccountAddress)
        ensures
            a@ == spec_core_code_bytes(),
    {
        let a = AccountAddress { bytes: [0, 0, 0, 0, 0, 0, 0, 0, 0, 0, 0, 0, 0, 0, 0, 1] };
        assert(a@ =~= spec_core_code_bytes());
        a
    }

    /// Whether two addresses hold the same bytes.
    pub fn same_as(&self, other: &AccountAddress) -> (b: bool)
        ensures
            b == (self@ == other@),
    {
        let mut i: usize = 0;
        while i < 16
            invariant
                i <= 16,
                forall|j: int| 0 <= j < i ==> self.bytes@[j] == other.bytes@[j],
            decreases 16 - i,
        {
            if self.bytes[i] != other.bytes[i] {
                return false;
            }
            i = i + 1;
        }
        assert(self@ =~= other@);
        true
    }

    /// The sixteen bytes, in order.
    pub fn to_vec(&self) -> (v: Vec<u8>)
        ensures
            v@ == self@,
    {
        let mut v: Vec<u8> = Vec::new();
        let mut i: usize = 0;
        while i < 16
            invariant
                i <= 16,
                v@ == self@.take(i as int),
            decreases 16 - i,
        {
            v.push(self.bytes[i]);
            assert(self@.take(i + 1) =~= self@.take(i as int).push(self@[i as int]));
            i = i + 1;
        }
        assert(self@.take(16) =~= self@);
        v
    }
}

/// The identifier of the chain that a transaction is meant for.
#[derive(Clone, Copy, Debug, PartialEq, Eq, Structural)]
pub struct ChainId {
    pub id: u8,
}

impl ChainId {
    pub fn new(id: u8) -> (c: ChainId)
        ensures
            c.id == id,
    {
        ChainId { id }
    }

    pub fn id(&self) -> (id: u8)
        ensures
            id == self.id,
    {
        self.id
    }
}

/// What the adapter reads of one transaction: taken once from the raw
/// transaction and not changed afterwards.
#[derive(Clone, Debug)]
pub struct TransactionMetadata {
    pub sender: AccountAddress,
    pub authentication_key_preimage: Vec<u8>,
    pub secondary_signers: Vec<AccountAddress>,
    pub secondary_authentication_key_preimages: Vec<Vec<u8>>,
    pub sequence_number: u64,
    /// In gas units.
    pub max_gas_amount: u64,
    /// The price offered for one gas unit.
    pub gas_unit_price: u64,
    /// The size of the serialized transaction, in bytes.
    pub transaction_size: u64,
    pub expiration_timestamp_secs: u64,
    pub chain_id: ChainId,
    pub script_hash: Vec<u8>,
}

/// A transaction is multi-agent when it names secondary signers.
pub open spec fn spec_is_multi_agent(txn: TransactionMetadata) -> bool {
    txn.secondary_signers@.len() > 0
}

impl TransactionMetadata {
    pub fn sender(&self) -> (a: AccountAddress)
        ensures
            a == self.sender,
    {
        self.sender
    }

    pub fn sequence_number(&self) -> (n: u64)
        ensures
            n == self.sequence_number,
    {
        self.sequence_number
    }

    pub fn max_gas_amount(&self) -> (n: u64)
        ensures
            n == self.max_gas_amount,
    {
        self.max_gas_amount
    }

    pub fn gas_unit_price(&self) -> (n: u64)
        ensures
            n == self.gas_unit_price,
    {
        self.gas_unit_price
    }

    pub fn transaction_size(&self) -> (n: u64)
        ensures
            n == self.transaction_size,
    {
        self.transaction_size
    }

    pub fn expiration_timestamp_secs(&self) -> (n: u64)
        ensures
            n == self.expiration_timestamp_secs,
    {
        self.expiration_timestamp_secs
    }

    pub fn chain_id(&self) -> (c: ChainId)
        ensures
            c == self.chain_id,
    {
        self.chain_id
    }

    pub fn is_multi_agent(&self) -> (b: bool)
        ensures
            b == spec_is_multi_agent(*self),
    {
        self.secondary_signers.len() > 0
    }
}

/// The key of an event stream: 24 bytes.
#[derive(Clone, Copy, Debug, PartialEq, Eq, Hash)]
pub struct EventKey {
    pub bytes: [u8; 24],
}

impl View for EventKey {
    type V = Seq<u8>;

    open spec fn view(&self) -> Seq<u8> {
        self.bytes@
    }
}

/// A value of the contract language, as the adapter hands it to a system
/// function.
#[derive(Clone, Debug, PartialEq, Eq)]
pub enum MoveValue {
    U8(u8),
    U64(u64),
    Bool(bool),
    Signer(AccountAddress),
    VectorU8(Vec<u8>),
    VectorAddress(Vec<AccountAddress>),
    VectorVectorU8(Vec<Vec<u8>>),
}

/// What a `MoveValue` holds.
pub enum MoveValueView {
    U8(u8),
    U64(u64),
    Bool(bool),
    Signer(Seq<u8>),
    VectorU8(Seq<u8>),
    VectorAddress(Seq<Seq<u8>>),
    VectorVectorU8(Seq<Seq<u8>>),
}

/// What a list of byte strings holds.
pub open spec fn spec_bytes_list(l: Seq<Vec<u8>>) -> Seq<Seq<u8>> {
    l.map_values(|b: Vec<u8>| b@)
}

/// What a list of addresses holds.
pub open spec fn spec_address_list(l: Seq<AccountAddress>) -> Seq<Seq<u8>> {
    l.map_values(|a: AccountAddress| a@)
}

impl View for MoveValue {
    type V = MoveValueView;

    open spec fn view(&self) -> MoveValueView {
        match *self {
            MoveValue::U8(x) => MoveValueView::U8(x),
            MoveValue::U64(x) => MoveValueView::U64(x),
            MoveValue::Bool(x) => MoveValueView::Bool(x),
            MoveValue::Signer(a) => MoveValueView::Signer(a@),
            MoveValue::VectorU8(b) => MoveValueView::VectorU8(b@),
            MoveValue::VectorAddress(l) => MoveValueView::VectorAddress(spec_address_list(l@)),
            MoveValue::VectorVectorU8(l) => MoveValueView::VectorVectorU8(spec_bytes_list(l@)),
        }
    }
}

/// What names a stored item below its account's address: a module by the
/// address it is published under and its name, a resource by its type.
#[derive(Clone, Debug)]
pub enum StoragePath {
    Code { address: AccountAddress, name: Identifier },
    Resource(StructTag),
}

/// Whether two byte strings hold the same bytes.
pub fn same_bytes(a: &Vec<u8>, b: &Vec<u8>) -> (r: bool)
    ensures
        r == (a@ == b@),
{
    if a.len() != b.len() {
        return false;
    }
    let mut i: usize = 0;
    while i < a.len()
        invariant
            i <= a.len(),
            a.len() == b.len(),
            forall|j: int| 0 <= j < i ==> a@[j] == b@[j],
        decreases a.len() - i,
    {
        if a[i] != b[i] {
            return false;
        }
        i = i + 1;
    }
    assert(a@ =~= b@);
    true
}

/// A copy of a byte string.
pub fn copy_bytes(b: &Vec<u8>) -> (r: Vec<u8>)
    ensures
        r@ == b@,
{
    let r = b.clone();
    assert(r@ =~= b@);
    r
}

} // verus!
