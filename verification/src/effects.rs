//! The conversion of what the engine hands out at the end of a session, its
//! change-set and its events, into the chain's write-set and events.

use vstd::prelude::*;
use move_core_types::identifier::Identifier;
use move_core_types::language_storage::{StructTag, TypeTag};
use move_core_types::vm_status::KeptVMStatus;
use crate::status::{StatusCode, VMStatus};
use crate::trusted::{access_vector, parse_event_key, spec_access_vector};
use crate::types::{AccountAddress, EventKey, StoragePath, TransactionMetadata, copy_bytes};
use crate::write_set::{AccessPath, AccessPathView, WriteOp, WriteOpView, WriteSet, WriteSetMut, spec_unique_paths, spec_writes};

verus! {

/// The name of a module: the address it is published under, and its name
/// there.
#[derive(Clone, Debug)]
pub struct ModuleId {
    pub address: AccountAddress,
    pub name: Identifier,
}

/// The changes to one account, in the order in which the engine hands them
/// out: each module and each resource with its new bytes, or with nothing
/// where it is deleted.
#[derive(Clone, Debug)]
pub struct AccountChangeSet {
    pub modules: Vec<(Identifier, Option<Vec<u8>>)>,
    pub resources: Vec<(StructTag, Option<Vec<u8>>)>,
}

/// The changes of one session, account by account, in the order in which the
/// engine hands them out.
#[derive(Clone, Debug)]
pub struct ChangeSet {
    pub accounts: Vec<(AccountAddress, AccountChangeSet)>,
}

/// An event as the engine emits it.
#[derive(Clone, Debug)]
pub struct MoveEvent {
    /// The bytes that should be an event key.
    pub guid: Vec<u8>,
    pub sequence_number: u64,
    pub type_tag: TypeTag,
    pub event_data: Vec<u8>,
}

/// An event as the chain records it.
#[derive(Clone, Debug)]
pub struct ContractEvent {
    pub key: EventKey,
    pub sequence_number: u64,
    pub type_tag: TypeTag,
    pub event_data: Vec<u8>,
}

/// What a `ContractEvent` holds.
pub struct ContractEventView {
    pub key: Seq<u8>,
    pub sequence_number: u64,
    pub type_tag: TypeTag,
    pub event_data: Seq<u8>,
}

impl View for ContractEvent {
    type V = ContractEventView;

    open spec fn view(&self) -> ContractEventView {
        ContractEventView {
            key: self.key@,
            sequence_number: self.sequence_number,
            type_tag: self.type_tag,
            event_data: self.event_data@,
        }
    }
}

impl ContractEvent {
    pub fn new(key: EventKey, sequence_number: u64, type_tag: TypeTag, event_data: Vec<u8>) -> (e:
        ContractEvent)
        ensures
            e.key == key,
            e.sequence_number == sequence_number,
            e.type_tag == type_tag,
            e.event_data == event_data,
    {
        ContractEvent { key, sequence_number, type_tag, event_data }
    }
}

/// Whether a transaction's effects are recorded.
#[derive(Debug)]
pub enum TransactionStatus {
    Discard(VMStatus),
    Keep(KeptVMStatus),
    Retry,
}

/// What executing one transaction leaves.
#[derive(Debug)]
pub struct TransactionOutput {
    pub write_set: WriteSet,
    pub events: Vec<ContractEvent>,
    /// In declared gas units.
    pub gas_used: u64,
    pub status: TransactionStatus,
}

/// One change of a change-set: the account, the item, and the item's new
/// bytes, or nothing where it is deleted.
pub struct ChangeEntry {
    pub address: AccountAddress,
    pub item: StoragePath,
    pub blob: Option<Seq<u8>>,
}

pub open spec fn spec_blob(b: Option<Vec<u8>>) -> Option<Seq<u8>> {
    match b {
        Some(v) => Some(v@),
        None => None,
    }
}

/// A change without new bytes deletes; one with new bytes writes them.
pub open spec fn spec_write_op(blob: Option<Seq<u8>>) -> WriteOpView {
    match blob {
        Some(v) => WriteOpView::Value(v),
        None => WriteOpView::Deletion,
    }
}

pub open spec fn spec_resource_entries(
    address: AccountAddress,
    resources: Seq<(StructTag, Option<Vec<u8>>)>,
) -> Seq<ChangeEntry> {
    resources.map_values(
        |e: (StructTag, Option<Vec<u8>>)|
            ChangeEntry { address, item: StoragePath::Resource(e.0), blob: spec_blob(e.1) },
    )
}

pub open spec fn spec_module_entries(
    address: AccountAddress,
    modules: Seq<(Identifier, Option<Vec<u8>>)>,
) -> Seq<ChangeEntry> {
    modules.map_values(
        |e: (Identifier, Option<Vec<u8>>)|
            ChangeEntry {
                address,
                item: StoragePath::Code { address, name: e.0 },
                blob: spec_blob(e.1),
            },
    )
}

/// The changes to one account: its resources first, then its modules.
pub open spec fn spec_account_entries(account: (AccountAddress, AccountChangeSet)) -> Seq<
    ChangeEntry,
> {
    spec_resource_entries(account.0, account.1.resources@) + spec_module_entries(
        account.0,
        account.1.modules@,
    )
}

/// All changes of a change-set in their order: account after account.
pub open spec fn spec_entries(accounts: Seq<(AccountAddress, AccountChangeSet)>) -> Seq<
    ChangeEntry,
>
    decreases accounts.len(),
{
    if accounts.len() == 0 {
        Seq::empty()
    } else {
        spec_entries(accounts.drop_last()) + spec_account_entries(accounts.last())
    }
}

/// The item of a change has a path.
pub open spec fn spec_encodable_entry(e: ChangeEntry) -> bool {
    spec_access_vector(e.item) is Some
}

pub open spec fn spec_all_encodable(entries: Seq<ChangeEntry>) -> bool {
    forall|i: int| 0 <= i < entries.len() ==> spec_encodable_entry(#[trigger] entries[i])
}

/// The access path of an item under an account.
pub open spec fn spec_access_path(address: AccountAddress, item: StoragePath) -> AccessPathView {
    AccessPathView { address: address@, path: spec_access_vector(item).unwrap() }
}

/// The write that a change becomes.
pub open spec fn spec_entry_write(e: ChangeEntry) -> (AccessPathView, WriteOpView) {
    (spec_access_path(e.address, e.item), spec_write_op(e.blob))
}

/// The writes that a list of changes becomes: one for each, in their order.
pub open spec fn spec_entry_writes(entries: Seq<ChangeEntry>) -> Seq<(AccessPathView, WriteOpView)> {
    entries.map_values(|e: ChangeEntry| spec_entry_write(e))
}

/// What a source of access paths has to answer for an item: the item's path
/// under the account, or nothing where the item has no path.
pub open spec fn spec_path_answer(
    r: Option<AccessPath>,
    address: AccountAddress,
    item: StoragePath,
) -> bool {
    match spec_access_vector(item) {
        Some(_) => r matches Some(p) && p@ == spec_access_path(address, item),
        None => r is None,
    }
}

/// A source of access paths. One that remembers what it computed may answer
/// faster, and has to answer the same.
pub trait AccessPathCache {
    fn get_module_path(&mut self, module_id: ModuleId) -> (r: Option<AccessPath>)
        ensures
            spec_path_answer(
                r,
                module_id.address,
                StoragePath::Code { address: module_id.address, name: module_id.name },
            ),
    ;

    fn get_resource_path(&mut self, address: AccountAddress, struct_tag: StructTag) -> (r: Option<
        AccessPath,
    >)
        ensures
            spec_path_answer(r, address, StoragePath::Resource(struct_tag)),
    ;
}

/// The source that remembers nothing.
impl AccessPathCache for () {
    fn get_module_path(&mut self, module_id: ModuleId) -> (r: Option<AccessPath>) {
        let address = module_id.address;
        let item = StoragePath::Code { address, name: module_id.name };
        match access_vector(&item) {
            Some(path) => Some(AccessPath::new(address, path)),
            None => None,
        }
    }

    fn get_resource_path(&mut self, address: AccountAddress, struct_tag: StructTag) -> (r: Option<
        AccessPath,
    >) {
        let item = StoragePath::Resource(struct_tag);
        match access_vector(&item) {
            Some(path) => Some(AccessPath::new(address, path)),
            None => None,
        }
    }
}

fn write_op_of(blob: &Option<Vec<u8>>) -> (op: WriteOp)
    ensures
        op@ == spec_write_op(spec_blob(*blob)),
{
    match blob {
        None => WriteOp::Deletion,
        Some(b) => WriteOp::Value(copy_bytes(b)),
    }
}

/// Appends the writes for an account's resources. Stops at the first
/// resource without a path and says so.
fn push_resource_writes<C: AccessPathCache>(
    ap_cache: &mut C,
    address: AccountAddress,
    resources: &Vec<(StructTag, Option<Vec<u8>>)>,
    ops: &mut Vec<(AccessPath, WriteOp)>,
) -> (ok: bool)
    ensures
        ok == spec_all_encodable(spec_resource_entries(address, resources@)),
        ok ==> spec_writes(final(ops)@) == spec_writes(old(ops)@) + spec_entry_writes(
            spec_resource_entries(address, resources@),
        ),
{
    let ghost before = spec_writes(ops@);
    let ghost entries = spec_resource_entries(address, resources@);
    let mut i: usize = 0;
    while i < resources.len()
        invariant
            i <= resources.len(),
            entries == spec_resource_entries(address, resources@),
            spec_all_encodable(entries.take(i as int)),
            spec_writes(ops@) == before + spec_entry_writes(entries.take(i as int)),
        decreases resources.len() - i,
    {
        let tag = resources[i].0.clone();
        let ghost pushed = spec_writes(ops@);
        match ap_cache.get_resource_path(address, tag) {
            None => {
                assert(!spec_encodable_entry(entries[i as int]));
                return false;
            },
            Some(path) => {
                let op = write_op_of(&resources[i].1);
                ops.push((path, op));
                assert(spec_encodable_entry(entries[i as int]));
                assert(entries.take(i + 1) =~= entries.take(i as int).push(entries[i as int]));
                assert(spec_writes(ops@) =~= pushed.push(spec_entry_write(entries[i as int])));
                assert(spec_entry_writes(entries.take(i + 1)) =~= spec_entry_writes(
                    entries.take(i as int),
                ).push(spec_entry_write(entries[i as int])));
                assert(spec_writes(ops@) =~= before + spec_entry_writes(entries.take(i + 1)));
            },
        }
        i = i + 1;
    }
    assert(entries.take(i as int) =~= entries);
    true
}

/// Appends the writes for an account's modules. Stops at the first module
/// without a path and says so.
fn push_module_writes<C: AccessPathCache>(
    ap_cache: &mut C,
    address: AccountAddress,
    modules: &Vec<(Identifier, Option<Vec<u8>>)>,
    ops: &mut Vec<(AccessPath, WriteOp)>,
) -> (ok: bool)
    ensures
        ok == spec_all_encodable(spec_module_entries(address, modules@)),
        ok ==> spec_writes(final(ops)@) == spec_writes(old(ops)@) + spec_entry_writes(
            spec_module_entries(address, modules@),
        ),
{
    let ghost before = spec_writes(ops@);
    let ghost entries = spec_module_entries(address, modules@);
    let mut i: usize = 0;
    while i < modules.len()
        invariant
            i <= modules.len(),
            entries == spec_module_entries(address, modules@),
            spec_all_encodable(entries.take(i as int)),
            spec_writes(ops@) == before + spec_entry_writes(entries.take(i as int)),
        decreases modules.len() - i,
    {
        let name = modules[i].0.clone();
        let ghost pushed = spec_writes(ops@);
        match ap_cache.get_module_path(ModuleId { address, name }) {
            None => {
                assert(!spec_encodable_entry(entries[i as int]));
                return false;
            },
            Some(path) => {
                let op = write_op_of(&modules[i].1);
                ops.push((path, op));
                assert(spec_encodable_entry(entries[i as int]));
                assert(entries.take(i + 1) =~= entries.take(i as int).push(entries[i as int]));
                assert(spec_writes(ops@) =~= pushed.push(spec_entry_write(entries[i as int])));
                assert(spec_entry_writes(entries.take(i + 1)) =~= spec_entry_writes(
                    entries.take(i as int),
                ).push(spec_entry_write(entries[i as int])));
                assert(spec_writes(ops@) =~= before + spec_entry_writes(entries.take(i + 1)));
            },
        }
        i = i + 1;
    }
    assert(entries.take(i as int) =~= entries);
    true
}

proof fn lemma_entries_of_one_more(accounts: Seq<(AccountAddress, AccountChangeSet)>, k: int)
    requires
        0 <= k < accounts.len(),
    ensures
        spec_entries(accounts.take(k + 1)) == spec_entries(accounts.take(k)) + spec_account_entries(
            accounts[k],
        ),
{
    let s = accounts.take(k + 1);
    assert(s.drop_last() =~= accounts.take(k));
    assert(s.last() == accounts[k]);
}

proof fn lemma_entries_prefix(accounts: Seq<(AccountAddress, AccountChangeSet)>, k: int)
    requires
        0 <= k <= accounts.len(),
    ensures
        spec_entries(accounts.take(k)).len() <= spec_entries(accounts).len(),
        forall|i: int|
            0 <= i < spec_entries(accounts.take(k)).len() ==> spec_entries(accounts)[i]
                == #[trigger] spec_entries(accounts.take(k))[i],
    decreases accounts.len(),
{
    if k == accounts.len() {
        assert(accounts.take(k) =~= accounts);
    } else {
        lemma_entries_prefix(accounts.drop_last(), k);
        assert(accounts.drop_last().take(k) =~= accounts.take(k));
    }
}

/// The changes of a change-set as writes, in the order of the change-set:
/// for each account its resources, then its modules. A change without new
/// bytes becomes a deletion, one with new bytes becomes a write of them.
/// Fails with a data-format error if and only if an item has no path.
pub fn changeset_writes<C: AccessPathCache>(ap_cache: &mut C, changeset: &ChangeSet) -> (r: Result<
    WriteSetMut,
    VMStatus,
>)
    ensures
        match r {
            Ok(ws) => spec_all_encodable(spec_entries(changeset.accounts@)) && ws@
                == spec_entry_writes(spec_entries(changeset.accounts@)),
            Err(e) => !spec_all_encodable(spec_entries(changeset.accounts@)) && e
                == VMStatus::Error(StatusCode::DataFormatError),
        },
{
    let accounts = &changeset.accounts;
    let mut ops: Vec<(AccessPath, WriteOp)> = Vec::new();
    let mut a: usize = 0;
    assert(spec_writes(ops@) =~= spec_entry_writes(spec_entries(accounts@.take(0))));
    while a < accounts.len()
        invariant
            a <= accounts.len(),
            *accounts == changeset.accounts,
            spec_all_encodable(spec_entries(accounts@.take(a as int))),
            spec_writes(ops@) == spec_entry_writes(spec_entries(accounts@.take(a as int))),
        decreases accounts.len() - a,
    {
        let address = accounts[a].0;
        let ghost done = spec_entries(accounts@.take(a as int));
        let ghost resources = spec_resource_entries(address, accounts@[a as int].1.resources@);
        let ghost modules = spec_module_entries(address, accounts@[a as int].1.modules@);
        proof {
            lemma_entries_of_one_more(accounts@, a as int);
            lemma_entries_prefix(accounts@, a + 1);
        }
        let ghost next = spec_entries(accounts@.take(a + 1));
        assert(next == done + (resources + modules));
        if !push_resource_writes(ap_cache, address, &accounts[a].1.resources, &mut ops) {
            proof {
                let i = choose|i: int|
                    0 <= i < resources.len() && !spec_encodable_entry(#[trigger] resources[i]);
                let all = spec_entries(accounts@);
                let at = done.len() + i;
                assert(next.len() == done.len() + resources.len() + modules.len());
                assert(next[at] == resources[i]);
                assert(0 <= at < all.len());
                assert(all[at] == next[at]);
                assert(!spec_encodable_entry(all[at]));
            }
            return Err(VMStatus::Error(StatusCode::DataFormatError));
        }
        if !push_module_writes(ap_cache, address, &accounts[a].1.modules, &mut ops) {
            proof {
                let i = choose|i: int|
                    0 <= i < modules.len() && !spec_encodable_entry(#[trigger] modules[i]);
                let all = spec_entries(accounts@);
                let at = done.len() + resources.len() + i;
                assert(next.len() == done.len() + resources.len() + modules.len());
                assert(next[at] == modules[i]);
                assert(0 <= at < all.len());
                assert(all[at] == next[at]);
                assert(!spec_encodable_entry(all[at]));
            }
            return Err(VMStatus::Error(StatusCode::DataFormatError));
        }
        assert(spec_all_encodable(next)) by {
            assert forall|i: int| 0 <= i < next.len() implies spec_encodable_entry(
                #[trigger] next[i],
            ) by {
                if i < done.len() {
                    assert(next[i] == done[i]);
                } else if i < done.len() + resources.len() {
                    assert(next[i] == resources[i - done.len()]);
                } else {
                    assert(next[i] == modules[i - done.len() - resources.len()]);
                }
            }
        }
        assert(spec_writes(ops@) =~= spec_entry_writes(next));
        a = a + 1;
    }
    assert(accounts@.take(a as int) =~= accounts@);
    Ok(WriteSetMut::new(ops))
}

/// Every event's identifier has the length of an event key.
pub open spec fn spec_all_keys_valid(events: Seq<MoveEvent>) -> bool {
    forall|i: int| 0 <= i < events.len() ==> (#[trigger] events[i]).guid@.len() == 24
}

/// The event of the chain that an event of the engine becomes.
pub open spec fn spec_contract_event(e: MoveEvent) -> ContractEventView {
    ContractEventView {
        key: e.guid@,
        sequence_number: e.sequence_number,
        type_tag: e.type_tag,
        event_data: e.event_data@,
    }
}

pub open spec fn spec_contract_events(events: Seq<MoveEvent>) -> Seq<ContractEventView> {
    events.map_values(|e: MoveEvent| spec_contract_event(e))
}

/// What a list of events holds.
pub open spec fn spec_events(events: Seq<ContractEvent>) -> Seq<ContractEventView> {
    events.map_values(|e: ContractEvent| e@)
}

/// The engine's events as events of the chain, one for one and in their
/// order. Fails with an event-key mismatch if and only if the identifier of
/// one of them is no event key: one bad event fails them all.
pub fn convert_events(events: &Vec<MoveEvent>) -> (r: Result<Vec<ContractEvent>, VMStatus>)
    ensures
        match r {
            Ok(l) => spec_all_keys_valid(events@) && spec_events(l@) == spec_contract_events(events@),
            Err(e) => !spec_all_keys_valid(events@) && e == VMStatus::Error(
                StatusCode::EventKeyMismatch,
            ),
        },
{
    let mut out: Vec<ContractEvent> = Vec::new();
    let mut i: usize = 0;
    while i < events.len()
        invariant
            i <= events.len(),
            out@.len() == i,
            forall|j: int| 0 <= j < i ==> (#[trigger] events@[j]).guid@.len() == 24,
            forall|j: int| 0 <= j < i ==> (#[trigger] out@[j])@ == spec_contract_event(events@[j]),
        decreases events.len() - i,
    {
        let event = &events[i];
        match parse_event_key(&event.guid) {
            None => {
                return Err(VMStatus::Error(StatusCode::EventKeyMismatch));
            },
            Some(key) => {
                out.push(
                    ContractEvent::new(
                        key,
                        event.sequence_number,
                        event.type_tag.clone(),
                        copy_bytes(&event.event_data),
                    ),
                );
            },
        }
        i = i + 1;
    }
    assert(spec_events(out@) =~= spec_contract_events(events@));
    Ok(out)
}

/// The status that a conversion fails with, if it fails: a change without a
/// path or two writes to one path are a data-format error, and with the
/// writes in order, an event without a key is an event-key mismatch.
pub open spec fn spec_conversion_failure(changeset: ChangeSet, events: Seq<MoveEvent>) -> Option<
    VMStatus,
> {
    if !spec_all_encodable(spec_entries(changeset.accounts@)) || !spec_unique_paths(
        spec_entry_writes(spec_entries(changeset.accounts@)),
    ) {
        Some(VMStatus::Error(StatusCode::DataFormatError))
    } else if !spec_all_keys_valid(events) {
        Some(VMStatus::Error(StatusCode::EventKeyMismatch))
    } else {
        None
    }
}

/// Turns a session's change-set and events into the write-set and the
/// events of the chain, taking access paths from `ap_cache`. The write-set
/// holds one write for each change, in the order of the change-set; the
/// events come out one for one. Where the conversion fails nothing comes
/// out: a part of a write-set means nothing.
pub fn convert_changeset_and_events_cached<C: AccessPathCache>(
    ap_cache: &mut C,
    changeset: ChangeSet,
    events: Vec<MoveEvent>,
) -> (r: Result<(WriteSet, Vec<ContractEvent>), VMStatus>)
    ensures
        match r {
            Ok((ws, l)) => spec_conversion_failure(changeset, events@) is None && ws@
                == spec_entry_writes(spec_entries(changeset.accounts@)) && spec_events(l@)
                == spec_contract_events(events@),
            Err(e) => spec_conversion_failure(changeset, events@) == Some(e),
        },
{
    let ops = match changeset_writes(ap_cache, &changeset) {
        Ok(ops) => ops,
        Err(e) => {
            return Err(e);
        },
    };
    let ws = match ops.freeze() {
        Ok(ws) => ws,
        Err(e) => {
            return Err(e);
        },
    };
    match convert_events(&events) {
        Ok(l) => Ok((ws, l)),
        Err(e) => Err(e),
    }
}

/// Turns a session's change-set and events into the write-set and the
/// events of the chain.
pub fn convert_changeset_and_events(changeset: ChangeSet, events: Vec<MoveEvent>) -> (r: Result<
    (WriteSet, Vec<ContractEvent>),
    VMStatus,
>)
    ensures
        match r {
            Ok((ws, l)) => spec_conversion_failure(changeset, events@) is None && ws@
                == spec_entry_writes(spec_entries(changeset.accounts@)) && spec_events(l@)
                == spec_contract_events(events@),
            Err(e) => spec_conversion_failure(changeset, events@) == Some(e),
        },
{
    let mut uncached = ();
    convert_changeset_and_events_cached(&mut uncached, changeset, events)
}

/// The output of a transaction that is kept: the effects of its session,
/// the gas that it used, which is what it was allowed less what is left,
/// and its status.
pub fn get_transaction_output<A: AccessPathCache>(
    ap_cache: &mut A,
    changeset: ChangeSet,
    events: Vec<MoveEvent>,
    gas_left: u64,
    txn_data: &TransactionMetadata,
    status: KeptVMStatus,
) -> (r: Result<TransactionOutput, VMStatus>)
    requires
        gas_left <= txn_data.max_gas_amount,
    ensures
        match r {
            Ok(out) => spec_conversion_failure(changeset, events@) is None && out.write_set@
                == spec_entry_writes(spec_entries(changeset.accounts@)) && spec_events(
                out.events@,
            ) == spec_contract_events(events@) && out.gas_used == txn_data.max_gas_amount
                - gas_left && out.status == TransactionStatus::Keep(status),
            Err(e) => spec_conversion_failure(changeset, events@) == Some(e),
        },
{
    let gas_used: u64 = txn_data.max_gas_amount() - gas_left;
    match convert_changeset_and_events_cached(ap_cache, changeset, events) {
        Ok((write_set, events)) => Ok(
            TransactionOutput {
                write_set,
                events,
                gas_used,
                status: TransactionStatus::Keep(status),
            },
        ),
        Err(e) => Err(e),
    }
}

/// The number of changes in a change-set: upserts and deletions together.
pub open spec fn spec_change_count(accounts: Seq<(AccountAddress, AccountChangeSet)>) -> nat
    decreases accounts.len(),
{
    if accounts.len() == 0 {
        0
    } else {
        spec_change_count(accounts.drop_last()) + accounts.last().1.resources@.len()
            + accounts.last().1.modules@.len()
    }
}

proof fn lemma_entries_count(accounts: Seq<(AccountAddress, AccountChangeSet)>)
    ensures
        spec_entries(accounts).len() == spec_change_count(accounts),
    decreases accounts.len(),
{
    if accounts.len() > 0 {
        lemma_entries_count(accounts.drop_last());
    }
}

/// A conversion that does not fail keeps every change: the write-set holds
/// as many writes as the change-set holds upserts and deletions together,
/// no two of them to the same path, and the write at each place is the one
/// for the change at that place: a deletion for a change without new bytes,
/// a write of the new bytes for one with them, to the path of the changed
/// item under its account.
pub proof fn lemma_conversion_keeps_every_change(changeset: ChangeSet, events: Seq<MoveEvent>)
    requires
        spec_conversion_failure(changeset, events) is None,
    ensures
        spec_entry_writes(spec_entries(changeset.accounts@)).len() == spec_change_count(
            changeset.accounts@,
        ),
        spec_unique_paths(spec_entry_writes(spec_entries(changeset.accounts@))),
        forall|i: int|
            0 <= i < spec_entries(changeset.accounts@).len() ==> {
                let change = spec_entries(changeset.accounts@)[i];
                let write = #[trigger] spec_entry_writes(spec_entries(changeset.accounts@))[i];
                &&& write.0 == spec_access_path(change.address, change.item)
                &&& change.blob is None <==> write.1 is Deletion
                &&& change.blob matches Some(v) ==> write.1 == WriteOpView::Value(v)
            },
        spec_contract_events(events).len() == events.len(),
{
    lemma_entries_count(changeset.accounts@);
}

} // verus!
