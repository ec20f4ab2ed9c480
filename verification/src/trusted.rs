//! What the adapter takes from other crates without proof: the types that it
//! carries through, and the calls whose contracts are believed.

use vstd::prelude::*;
use rand::seq::SliceRandom;
use move_core_types::account_address::AccountAddress as CoreAddress;
use move_core_types::identifier::Identifier;
use move_core_types::language_storage::{StructTag, TypeTag};
use move_core_types::value::MoveValue as CoreValue;
use move_core_types::vm_status::KeptVMStatus;
use crate::types::{AccountAddress, EventKey, MoveValue, MoveValueView, StoragePath};

verus! {

/// The name of a module, a struct or a function of the contract language.
#[verifier::external_type_specification]
#[verifier::external_body]
pub struct ExIdentifier(Identifier);

/// The tag of a type of the contract language.
#[verifier::external_type_specification]
#[verifier::external_body]
pub struct ExTypeTag(TypeTag);

/// The tag of a struct type of the contract language.
#[verifier::external_type_specification]
#[verifier::external_body]
pub struct ExStructTag(StructTag);

/// The status of a transaction that is kept in the ledger.
#[verifier::external_type_specification]
#[verifier::external_body]
pub struct ExKeptVMStatus(KeptVMStatus);

/// The SHA3-256 digest of a sequence of bytes.
pub uninterp spec fn spec_sha3_256(data: Seq<u8>) -> Seq<u8>;

/// The canonical serialization of a value that is handed to the engine.
pub uninterp spec fn spec_move_value_bytes(v: MoveValueView) -> Seq<u8>;

/// The type tag of the currency with a given code.
pub uninterp spec fn spec_currency_type_tag(currency_code: Identifier) -> TypeTag;

/// The greatest number of items that the canonical serialization accepts in
/// one sequence.
pub const MAX_SEQUENCE_LENGTH: usize = 0x7fff_ffff;

/// A value has a canonical serialization when none of its sequences is
/// longer than the format allows.
pub open spec fn spec_value_within_limits(v: MoveValueView) -> bool {
    match v {
        MoveValueView::VectorU8(b) => b.len() <= MAX_SEQUENCE_LENGTH,
        MoveValueView::VectorAddress(l) => l.len() <= MAX_SEQUENCE_LENGTH,
        MoveValueView::VectorVectorU8(l) => l.len() <= MAX_SEQUENCE_LENGTH && forall|i: int|
            0 <= i < l.len() ==> (#[trigger] l[i]).len() <= MAX_SEQUENCE_LENGTH,
        _ => true,
    }
}

/// Calls `diem_crypto::HashValue::sha3_256_of` and takes the digest's bytes.
/// Believed: the result is the SHA3-256 digest of `data`, a function of the
/// bytes alone, and it is 32 bytes long.
#[verifier::external_body]
pub(crate) fn sha3_256(data: &Vec<u8>) -> (digest: Vec<u8>)
    ensures
        digest@ == spec_sha3_256(data@),
        digest@.len() == 32,
{
    diem_crypto::HashValue::sha3_256_of(data.as_slice()).to_vec()
}

/// Calls `move_core_types::value::MoveValue::simple_serialize` on the value
/// of the contract language that `v` stands for. Believed: the result is the
/// canonical serialization of that value, a function of the value alone. The
/// serializer fails only on a sequence longer than `MAX_SEQUENCE_LENGTH`,
/// which `requires` leaves out.
#[verifier::external_body]
pub(crate) fn serialize_value(v: &MoveValue) -> (bytes: Vec<u8>)
    requires
        spec_value_within_limits(v@),
    ensures
        bytes@ == spec_move_value_bytes(v@),
{
    let value = match v {
        MoveValue::U8(x) => CoreValue::U8(*x),
        MoveValue::U64(x) => CoreValue::U64(*x),
        MoveValue::Bool(x) => CoreValue::Bool(*x),
        MoveValue::Signer(a) => CoreValue::Signer(CoreAddress::new(a.bytes)),
        MoveValue::VectorU8(b) => CoreValue::vector_u8(b.clone()),
        MoveValue::VectorAddress(l) => CoreValue::vector_address(
            l.iter().map(|a| CoreAddress::new(a.bytes)).collect(),
        ),
        MoveValue::VectorVectorU8(l) => CoreValue::Vector(
            l.iter().map(|b| CoreValue::vector_u8(b.clone())).collect(),
        ),
    };
    value.simple_serialize().unwrap_or_default()
}

/// `diem_types::account_config::type_tag_for_currency_code` builds the tag
/// of the struct that stands for a currency. Believed: the tag is a function
/// of the currency code alone.
pub assume_specification[ diem_types::account_config::type_tag_for_currency_code ](
    currency_code: Identifier,
) -> (tag: TypeTag)
    ensures
        tag == spec_currency_type_tag(currency_code),
;

/// Calls `diem_types::event::EventKey::try_from` on a slice. Believed: a key
/// comes out if and only if the slice is 24 bytes long, and the key then
/// holds those bytes.
#[verifier::external_body]
pub(crate) fn parse_event_key(guid: &Vec<u8>) -> (r: Option<EventKey>)
    ensures
        r is Some <==> guid@.len() == 24,
        r matches Some(k) ==> k@ == guid@,
{
    match diem_types::event::EventKey::try_from(guid.as_slice()) {
        Ok(k) => Some(EventKey { bytes: k.into() }),
        Err(_) => None,
    }
}

/// What a canonical serialization of one byte string decodes to: the byte
/// string, or nothing where the bytes are no such serialization.
pub uninterp spec fn spec_bcs_bytes_decoding(blob: Seq<u8>) -> Option<Seq<u8>>;

/// Calls `bcs::from_bytes` for a byte vector. Believed: the result is a
/// function of the bytes alone; the decoder's error is dropped.
#[verifier::external_body]
pub(crate) fn decode_bcs_bytes(blob: &Vec<u8>) -> (r: Option<Vec<u8>>)
    ensures
        match r {
            Some(p) => spec_bcs_bytes_decoding(blob@) == Some(p@),
            None => spec_bcs_bytes_decoding(blob@) is None,
        },
{
    match bcs::from_bytes::<Vec<u8>>(blob.as_slice()) {
        Ok(p) => Some(p),
        Err(_) => None,
    }
}

/// `Clone::clone` of `move_core_types::identifier::Identifier`, which the
/// type derives. Believed: the copy equals the value that it was made from.
pub assume_specification[ <Identifier as Clone>::clone ](name: &Identifier) -> (r: Identifier)
    ensures
        r == *name,
;

/// `Clone::clone` of `move_core_types::language_storage::TypeTag`, which the
/// type derives. Believed: the copy equals the value that it was made from.
pub assume_specification[ <TypeTag as Clone>::clone ](tag: &TypeTag) -> (r: TypeTag)
    ensures
        r == *tag,
;

/// `Clone::clone` of `move_core_types::language_storage::StructTag`, which
/// the type derives. Believed: the copy equals the value that it was made from.
pub assume_specification[ <StructTag as Clone>::clone ](tag: &StructTag) -> (r: StructTag)
    ensures
        r == *tag,
;

/// The path under which an item is stored below its account's address: the
/// canonical serialization of what names the item, or nothing where that has
/// no serialization.
pub uninterp spec fn spec_access_vector(item: StoragePath) -> Option<Seq<u8>>;

/// Calls `bcs::to_bytes` on the `diem_types::access_path::Path` that `item`
/// stands for. Believed: the result is a function of the item alone; the
/// serializer's error is dropped.
#[verifier::external_body]
pub(crate) fn access_vector(item: &StoragePath) -> (r: Option<Vec<u8>>)
    ensures
        match r {
            Some(v) => spec_access_vector(*item) == Some(v@),
            None => spec_access_vector(*item) is None,
        },
{
    let path = match item {
        StoragePath::Code { address, name } => diem_types::access_path::Path::Code(
            move_core_types::language_storage::ModuleId::new(
                CoreAddress::new(address.bytes),
                name.clone(),
            ),
        ),
        StoragePath::Resource(tag) => diem_types::access_path::Path::Resource(tag.clone()),
    };
    match bcs::to_bytes(&path) {
        Ok(v) => Some(v),
        Err(_) => None,
    }
}

/// Calls `rand::seq::SliceRandom::choose_multiple` for as many items as the
/// list holds, with the thread's generator. Believed, of every outcome: the
/// result holds each item of the list as often as the list does. In which
/// order is left to chance.
#[verifier::external_body]
pub(crate) fn choose_all(items: &Vec<usize>) -> (r: Vec<usize>)
    ensures
        r@.to_multiset() == items@.to_multiset(),
{
    items.choose_multiple(&mut rand::thread_rng(), items.len()).cloned().collect()
}

} // verus!
