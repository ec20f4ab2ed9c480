//! The upgrade of the standard library inside the block-metadata transaction
//! of an agreed round.
//!
//! The coordinator keeps no record of its own between blocks: where it stands
//! follows from the block's round and from what the payload resource holds.
//! Within one block it is a state machine. Whoever holds the session performs
//! the action that a step asks for and hands the step's answer back as the
//! next event.

use vstd::prelude::*;
use move_core_types::language_storage::TypeTag;
use crate::config::DiemVMImpl;
use crate::hooks::{ErrorPolicy, HookCall, HookCallView, make_call, spec_hook_call, spec_values};
use crate::names::SystemFunction;
use crate::status::{EngineError, StatusCode, VMStatus};
use crate::trusted::{decode_bcs_bytes, spec_bcs_bytes_decoding};
use crate::types::{AccountAddress, MoveValue, MoveValueView, TransactionMetadata, spec_bytes_list, spec_core_code_bytes};

verus! {

/// The round in whose block a pending upgrade is applied.
pub const UPGRADE_ROUND: u64 = 2;

/// What the adapter reads of a block's metadata.
#[derive(Clone, Debug)]
pub struct BlockMetadata {
    pub round: u64,
    pub timestamp_usecs: u64,
    pub previous_block_votes: Vec<AccountAddress>,
    pub proposer: AccountAddress,
}

impl BlockMetadata {
    pub fn new(
        round: u64,
        timestamp_usecs: u64,
        previous_block_votes: Vec<AccountAddress>,
        proposer: AccountAddress,
    ) -> (b: BlockMetadata)
        ensures
            b.round == round,
            b.timestamp_usecs == timestamp_usecs,
            b.previous_block_votes == previous_block_votes,
            b.proposer == proposer,
    {
        BlockMetadata { round, timestamp_usecs, previous_block_votes, proposer }
    }

    pub fn round(&self) -> (r: u64)
        ensures
            r == self.round,
    {
        self.round
    }

    /// The round, the timestamp, the votes of the round before, and the
    /// proposer.
    pub fn into_inner(self) -> (r: (u64, u64, Vec<AccountAddress>, AccountAddress))
        ensures
            r.0 == self.round,
            r.1 == self.timestamp_usecs,
            r.2 == self.previous_block_votes,
            r.3 == self.proposer,
    {
        (self.round, self.timestamp_usecs, self.previous_block_votes, self.proposer)
    }
}

/// The on-chain resource that holds a pending standard library, serialized.
/// Governance writes it; the coordinator reads it and has it reset.
#[derive(Clone, Debug)]
pub struct UpgradePayloadResource {
    pub payload: Vec<u8>,
}

/// Where an upgrade stands when a block is executed.
#[derive(Clone, Copy, Debug, PartialEq, Eq, Structural)]
pub enum UpgradePhase {
    /// The block is not the one in which upgrades are applied.
    Idle,
    /// The block is the one, and a payload is pending.
    ConsensusRecorded,
    /// The block is the one, and nothing is pending.
    Applied,
}

pub open spec fn spec_upgrade_phase(round: u64, payload: Seq<u8>) -> UpgradePhase {
    if round != UPGRADE_ROUND {
        UpgradePhase::Idle
    } else if payload.len() > 0 {
        UpgradePhase::ConsensusRecorded
    } else {
        UpgradePhase::Applied
    }
}

/// Where an upgrade stands, from the round of the block and from what the
/// payload resource holds.
pub fn upgrade_phase(round: u64, payload: &Vec<u8>) -> (phase: UpgradePhase)
    ensures
        phase == spec_upgrade_phase(round, payload@),
{
    if round != UPGRADE_ROUND {
        UpgradePhase::Idle
    } else if payload.len() > 0 {
        UpgradePhase::ConsensusRecorded
    } else {
        UpgradePhase::Applied
    }
}

/// The payload that a decoded resource holds, or the failure to decode it.
pub open spec fn spec_payload_from_decoding(decoded: Option<Seq<u8>>) -> Result<Seq<u8>, VMStatus> {
    match decoded {
        Some(p) => Ok(p),
        None => Err(VMStatus::Error(StatusCode::ResourceDoesNotExist)),
    }
}

/// The payload that is pending, from what a lookup of the payload resource
/// under the root account gave: nothing, or the resource's bytes. Where the
/// lookup gave nothing, and where the bytes do not decode, the resource does
/// not exist: no empty resource is made up in its place.
pub open spec fn spec_get_upgrade_payload(blob: Option<Seq<u8>>) -> Result<Seq<u8>, VMStatus> {
    match blob {
        Some(b) => spec_payload_from_decoding(spec_bcs_bytes_decoding(b)),
        None => Err(VMStatus::Error(StatusCode::ResourceDoesNotExist)),
    }
}

/// The resource that a decoding gave: where the bytes did not decode, the
/// resource does not exist.
pub fn payload_from_decoding(decoded: Option<Vec<u8>>) -> (r: Result<
    UpgradePayloadResource,
    VMStatus,
>)
    ensures
        match spec_payload_from_decoding(
            match decoded {
                Some(p) => Some(p@),
                None => None,
            },
        ) {
            Ok(p) => r is Ok && r.unwrap().payload@ == p,
            Err(e) => r is Err && r.unwrap_err() == e,
        },
{
    match decoded {
        Some(payload) => Ok(UpgradePayloadResource { payload }),
        None => Err(VMStatus::Error(StatusCode::ResourceDoesNotExist)),
    }
}

/// The payload resource, from what a lookup under the root account gave. A
/// lookup that found nothing and bytes that do not decode are both answered
/// with resource-not-found.
pub fn get_upgrade_payload(blob: Option<Vec<u8>>) -> (r: Result<UpgradePayloadResource, VMStatus>)
    ensures
        match spec_get_upgrade_payload(
            match blob {
                Some(b) => Some(b@),
                None => None,
            },
        ) {
            Ok(p) => r is Ok && r.unwrap().payload@ == p,
            Err(e) => r is Err && r.unwrap_err() == e,
        },
{
    match blob {
        Some(b) => payload_from_decoding(decode_bcs_bytes(&b)),
        None => Err(VMStatus::Error(StatusCode::ResourceDoesNotExist)),
    }
}

/// Where the coordinator stands within one block.
#[derive(Debug)]
pub enum UpgradeState {
    Start,
    /// The governance module was asked to check and record consensus.
    Ticking,
    /// The payload resource is being looked up.
    ReadingPayload,
    /// The payload is being turned into modules.
    Decoding,
    /// The module at `next` is being published; those before it are.
    Publishing { modules: Vec<Vec<u8>>, next: usize },
    /// The payload resource is being reset.
    Resetting { published: usize },
    /// The reconfiguration is being signalled.
    Reconfiguring { published: usize },
    Finished,
}

/// What the coordinator asks for next.
#[derive(Debug)]
pub enum UpgradeAction {
    /// Call a system function in the block's session.
    Call(HookCall),
    /// Look up the payload resource under the root account.
    ReadPayload,
    /// Turn the payload into its modules, each serialized.
    DecodeModules(Vec<u8>),
    /// Publish a module under an address, replacing what is there.
    PublishModule { bytes: Vec<u8>, address: AccountAddress },
    /// Nothing more: the coordinator is done, with the number of modules it
    /// published or with the status that it failed with.
    Finish(Result<usize, VMStatus>),
}

/// What came of the action that the coordinator asked for.
#[derive(Debug)]
pub enum UpgradeEvent {
    Begin,
    CallReturned(Result<(), EngineError>),
    /// The resource's bytes, or nothing where the lookup found none.
    PayloadRead(Option<Vec<u8>>),
    /// The payload's modules, or nothing where it holds no valid modules.
    ModulesDecoded(Option<Vec<Vec<u8>>>),
    ModulePublished(Result<(), EngineError>),
}

pub enum UpgradeStateView {
    Start,
    Ticking,
    ReadingPayload,
    Decoding,
    Publishing { modules: Seq<Seq<u8>>, next: nat },
    Resetting { published: nat },
    Reconfiguring { published: nat },
    Finished,
}

pub enum UpgradeActionView {
    Call(HookCallView),
    ReadPayload,
    DecodeModules(Seq<u8>),
    PublishModule { bytes: Seq<u8>, address: Seq<u8> },
    Finish(Result<nat, VMStatus>),
}

pub enum UpgradeEventView {
    Begin,
    CallReturned(Result<(), EngineError>),
    PayloadRead(Option<Seq<u8>>),
    ModulesDecoded(Option<Seq<Seq<u8>>>),
    ModulePublished(Result<(), EngineError>),
}

impl View for UpgradeState {
    type V = UpgradeStateView;

    open spec fn view(&self) -> UpgradeStateView {
        match *self {
            UpgradeState::Start => UpgradeStateView::Start,
            UpgradeState::Ticking => UpgradeStateView::Ticking,
            UpgradeState::ReadingPayload => UpgradeStateView::ReadingPayload,
            UpgradeState::Decoding => UpgradeStateView::Decoding,
            UpgradeState::Publishing { modules, next } => UpgradeStateView::Publishing {
                modules: spec_bytes_list(modules@),
                next: next as nat,
            },
            UpgradeState::Resetting { published } => UpgradeStateView::Resetting {
                published: published as nat,
            },
            UpgradeState::Reconfiguring { published } => UpgradeStateView::Reconfiguring {
                published: published as nat,
            },
            UpgradeState::Finished => UpgradeStateView::Finished,
        }
    }
}

impl View for UpgradeAction {
    type V = UpgradeActionView;

    open spec fn view(&self) -> UpgradeActionView {
        match *self {
            UpgradeAction::Call(call) => UpgradeActionView::Call(call@),
            UpgradeAction::ReadPayload => UpgradeActionView::ReadPayload,
            UpgradeAction::DecodeModules(payload) => UpgradeActionView::DecodeModules(payload@),
            UpgradeAction::PublishModule { bytes, address } => UpgradeActionView::PublishModule {
                bytes: bytes@,
                address: address@,
            },
            UpgradeAction::Finish(r) => UpgradeActionView::Finish(
                match r {
                    Ok(n) => Ok(n as nat),
                    Err(e) => Err(e),
                },
            ),
        }
    }
}

impl View for UpgradeEvent {
    type V = UpgradeEventView;

    open spec fn view(&self) -> UpgradeEventView {
        match *self {
            UpgradeEvent::Begin => UpgradeEventView::Begin,
            UpgradeEvent::CallReturned(r) => UpgradeEventView::CallReturned(r),
            UpgradeEvent::PayloadRead(blob) => UpgradeEventView::PayloadRead(
                match blob {
                    Some(b) => Some(b@),
                    None => None,
                },
            ),
            UpgradeEvent::ModulesDecoded(modules) => UpgradeEventView::ModulesDecoded(
                match modules {
                    Some(m) => Some(spec_bytes_list(m@)),
                    None => None,
                },
            ),
            UpgradeEvent::ModulePublished(r) => UpgradeEventView::ModulePublished(r),
        }
    }
}

/// The call that has the governance module check and record consensus. Its
/// failure comes back as a failure: whether to go on is the caller's to say.
pub open spec fn spec_tick_call(sender: Seq<u8>) -> HookCallView {
    spec_hook_call(
        SystemFunction::CheckUpgrade,
        Seq::<TypeTag>::empty(),
        seq![MoveValueView::Signer(sender)],
        true,
        ErrorPolicy::Prologue,
    )
}

/// The call that resets the payload resource.
pub open spec fn spec_reset_call(sender: Seq<u8>) -> HookCallView {
    spec_hook_call(
        SystemFunction::ResetPayload,
        Seq::<TypeTag>::empty(),
        seq![MoveValueView::Signer(sender)],
        true,
        ErrorPolicy::MustSucceed,
    )
}

/// The call that signals the reconfiguration.
pub open spec fn spec_reconfig_call() -> HookCallView {
    spec_hook_call(
        SystemFunction::UpgradeReconfig,
        Seq::<TypeTag>::empty(),
        Seq::<MoveValueView>::empty(),
        true,
        ErrorPolicy::MustSucceed,
    )
}

/// The end of a run that must not go on.
pub open spec fn spec_halt() -> (UpgradeStateView, UpgradeActionView) {
    (
        UpgradeStateView::Finished,
        UpgradeActionView::Finish(Err(VMStatus::Error(StatusCode::UnknownInvariantViolationError))),
    )
}

/// The publishing of the module at `next`, or the reset once all are
/// published.
pub open spec fn spec_publish_from(modules: Seq<Seq<u8>>, next: nat, sender: Seq<u8>) -> (
    UpgradeStateView,
    UpgradeActionView,
) {
    if next < modules.len() {
        (
            UpgradeStateView::Publishing { modules, next },
            UpgradeActionView::PublishModule {
                bytes: modules[next as int],
                address: spec_core_code_bytes(),
            },
        )
    } else {
        (
            UpgradeStateView::Resetting { published: modules.len() },
            UpgradeActionView::Call(spec_reset_call(sender)),
        )
    }
}

/// One step of the coordinator: from where it stands and what came of its
/// last action, to where it stands next and what it asks for.
///
/// The tick comes first, in every block, and the coordinator goes on
/// whatever came of it.
/// Only in the block of the upgrade round is the payload read. An empty
/// payload ends the run with nothing done. A payload that holds modules has
/// each of them published in order, then the resource reset, then the
/// reconfiguration signalled. A failure on that way is fatal, and what was
/// published before it stays published. An event that does not answer the
/// last action is fatal too.
pub open spec fn spec_upgrade_step(
    state: UpgradeStateView,
    event: UpgradeEventView,
    round: u64,
    sender: Seq<u8>,
) -> (UpgradeStateView, UpgradeActionView) {
    match (state, event) {
        (UpgradeStateView::Start, UpgradeEventView::Begin) => (
            UpgradeStateView::Ticking,
            UpgradeActionView::Call(spec_tick_call(sender)),
        ),
        (UpgradeStateView::Ticking, UpgradeEventView::CallReturned(_)) => if round
            == UPGRADE_ROUND {
            (UpgradeStateView::ReadingPayload, UpgradeActionView::ReadPayload)
        } else {
            (UpgradeStateView::Finished, UpgradeActionView::Finish(Ok(0)))
        },
        (
            UpgradeStateView::ReadingPayload,
            UpgradeEventView::PayloadRead(blob),
        ) => match spec_get_upgrade_payload(blob) {
            Ok(payload) => if payload.len() > 0 {
                (UpgradeStateView::Decoding, UpgradeActionView::DecodeModules(payload))
            } else {
                (UpgradeStateView::Finished, UpgradeActionView::Finish(Ok(0)))
            },
            Err(e) => (UpgradeStateView::Finished, UpgradeActionView::Finish(Err(e))),
        },
        (
            UpgradeStateView::Decoding,
            UpgradeEventView::ModulesDecoded(Some(modules)),
        ) => spec_publish_from(modules, 0, sender),
        (
            UpgradeStateView::Publishing { modules, next },
            UpgradeEventView::ModulePublished(Ok(_)),
        ) => spec_publish_from(modules, next + 1, sender),
        (
            UpgradeStateView::Resetting { published },
            UpgradeEventView::CallReturned(Ok(_)),
        ) => (
            UpgradeStateView::Reconfiguring { published },
            UpgradeActionView::Call(spec_reconfig_call()),
        ),
        (
            UpgradeStateView::Reconfiguring { published },
            UpgradeEventView::CallReturned(Ok(_)),
        ) => (UpgradeStateView::Finished, UpgradeActionView::Finish(Ok(published))),
        _ => spec_halt(),
    }
}

fn halt() -> (r: (UpgradeState, UpgradeAction))
    ensures
        (r.0@, r.1@) == spec_halt(),
{
    (
        UpgradeState::Finished,
        UpgradeAction::Finish(Err(VMStatus::Error(StatusCode::UnknownInvariantViolationError))),
    )
}

fn signer_call(function: SystemFunction, sender: AccountAddress, policy: ErrorPolicy) -> (call:
    HookCall)
    ensures
        call@ == spec_hook_call(
            function,
            Seq::<TypeTag>::empty(),
            seq![MoveValueView::Signer(sender@)],
            true,
            policy,
        ),
{
    let mut values: Vec<MoveValue> = Vec::new();
    values.push(MoveValue::Signer(sender));
    assert(spec_values(values@) =~= seq![MoveValueView::Signer(sender@)]);
    make_call(function, Vec::new(), &values, true, policy)
}

fn reconfig_call() -> (call: HookCall)
    ensures
        call@ == spec_reconfig_call(),
{
    let values: Vec<MoveValue> = Vec::new();
    assert(spec_values(values@) =~= Seq::<MoveValueView>::empty());
    make_call(SystemFunction::UpgradeReconfig, Vec::new(), &values, true, ErrorPolicy::MustSucceed)
}

fn publish_from(modules: Vec<Vec<u8>>, next: usize, sender: AccountAddress) -> (r: (
    UpgradeState,
    UpgradeAction,
))
    ensures
        (r.0@, r.1@) == spec_publish_from(spec_bytes_list(modules@), next as nat, sender@),
{
    if next < modules.len() {
        let bytes = modules[next].clone();
        assert(bytes@ =~= modules@[next as int]@);
        (
            UpgradeState::Publishing { modules, next },
            UpgradeAction::PublishModule { bytes, address: AccountAddress::core_code_address() },
        )
    } else {
        let published: usize = modules.len();
        (
            UpgradeState::Resetting { published },
            UpgradeAction::Call(signer_call(SystemFunction::ResetPayload, sender, ErrorPolicy::MustSucceed)),
        )
    }
}

impl DiemVMImpl {
    /// Prepares the call that has the governance module check and record
    /// consensus on an upgrade. A failure of the call is handed back as a
    /// failure. It does not stop the block: the coordinator goes on whatever
    /// came of the tick.
    pub fn tick_oracle_consensus(&self, txn_data: &TransactionMetadata) -> (call: HookCall)
        ensures
            call@ == spec_tick_call(txn_data.sender@),
    {
        signer_call(SystemFunction::CheckUpgrade, txn_data.sender(), ErrorPolicy::Prologue)
    }

    /// Takes one step of the upgrade inside a block-metadata transaction:
    /// `event` is what came of the action that the step before asked for, and
    /// the first step is taken from `Start` with `Begin`.
    pub fn apply_stdlib_upgrade(
        &self,
        state: UpgradeState,
        event: UpgradeEvent,
        block_metadata: &BlockMetadata,
        txn_data: &TransactionMetadata,
    ) -> (r: (UpgradeState, UpgradeAction))
        ensures
            (r.0@, r.1@) == spec_upgrade_step(
                state@,
                event@,
                block_metadata.round,
                txn_data.sender@,
            ),
    {
        let sender = txn_data.sender();
        match (state, event) {
            (UpgradeState::Start, UpgradeEvent::Begin) => (
                UpgradeState::Ticking,
                UpgradeAction::Call(self.tick_oracle_consensus(txn_data)),
            ),
            (UpgradeState::Ticking, UpgradeEvent::CallReturned(_)) => {
                if block_metadata.round() == UPGRADE_ROUND {
                    (UpgradeState::ReadingPayload, UpgradeAction::ReadPayload)
                } else {
                    (UpgradeState::Finished, UpgradeAction::Finish(Ok(0)))
                }
            },
            (UpgradeState::ReadingPayload, UpgradeEvent::PayloadRead(blob)) => {
                match get_upgrade_payload(blob) {
                    Ok(resource) => {
                        if resource.payload.len() > 0 {
                            (UpgradeState::Decoding, UpgradeAction::DecodeModules(resource.payload))
                        } else {
                            (UpgradeState::Finished, UpgradeAction::Finish(Ok(0)))
                        }
                    },
                    Err(e) => (UpgradeState::Finished, UpgradeAction::Finish(Err(e))),
                }
            },
            (UpgradeState::Decoding, UpgradeEvent::ModulesDecoded(Some(modules))) => publish_from(
                modules,
                0,
                sender,
            ),
            (
                UpgradeState::Publishing { modules, next },
                UpgradeEvent::ModulePublished(Ok(_)),
            ) => {
                if next < modules.len() {
                    publish_from(modules, next + 1, sender)
                } else {
                    let n: usize = modules.len();
                    publish_from(modules, n, sender)
                }
            },
            (UpgradeState::Resetting { published }, UpgradeEvent::CallReturned(Ok(_))) => (
                UpgradeState::Reconfiguring { published },
                UpgradeAction::Call(reconfig_call()),
            ),
            (UpgradeState::Reconfiguring { published }, UpgradeEvent::CallReturned(Ok(_))) => (
                UpgradeState::Finished,
                UpgradeAction::Finish(Ok(published)),
            ),
            _ => halt(),
        }
    }
}

/// A whole run of the coordinator: the steps that a sequence of events
/// drives, from a state on. Gives the state that the run ends in and the
/// actions that it asked for, in their order.
pub open spec fn spec_upgrade_run(
    state: UpgradeStateView,
    events: Seq<UpgradeEventView>,
    round: u64,
    sender: Seq<u8>,
) -> (UpgradeStateView, Seq<UpgradeActionView>)
    decreases events.len(),
{
    if events.len() == 0 {
        (state, Seq::empty())
    } else {
        let first = spec_upgrade_step(state, events[0], round, sender);
        let rest = spec_upgrade_run(first.0, events.skip(1), round, sender);
        (rest.0, seq![first.1] + rest.1)
    }
}

/// The events of `count` modules published without failure.
pub open spec fn spec_published_events(count: nat) -> Seq<UpgradeEventView> {
    Seq::new(count, |i: int| UpgradeEventView::ModulePublished(Ok(())))
}

/// The actions that publish the modules from `from` on, each under the
/// privileged address, in their order.
pub open spec fn spec_publish_actions(modules: Seq<Seq<u8>>, from: nat) -> Seq<UpgradeActionView> {
    Seq::new(
        (modules.len() - from) as nat,
        |i: int|
            UpgradeActionView::PublishModule {
                bytes: modules[from + i],
                address: spec_core_code_bytes(),
            },
    )
}

/// The events of a reset and a reconfiguration that succeeded.
pub open spec fn spec_closing_events() -> Seq<UpgradeEventView> {
    seq![UpgradeEventView::CallReturned(Ok(())), UpgradeEventView::CallReturned(Ok(()))]
}

/// The actions that close an upgrade of `published` modules: the reset of the
/// payload resource, the signal of the reconfiguration, and the end.
pub open spec fn spec_closing_actions(sender: Seq<u8>, published: nat) -> Seq<UpgradeActionView> {
    seq![
        UpgradeActionView::Call(spec_reset_call(sender)),
        UpgradeActionView::Call(spec_reconfig_call()),
        UpgradeActionView::Finish(Ok(published)),
    ]
}

proof fn lemma_run_first(
    state: UpgradeStateView,
    event: UpgradeEventView,
    rest: Seq<UpgradeEventView>,
    round: u64,
    sender: Seq<u8>,
)
    ensures
        spec_upgrade_run(state, seq![event] + rest, round, sender) == ({
            let first = spec_upgrade_step(state, event, round, sender);
            let after = spec_upgrade_run(first.0, rest, round, sender);
            (after.0, seq![first.1] + after.1)
        }),
{
    let events = seq![event] + rest;
    assert(events[0] == event);
    assert(events.skip(1) =~= rest);
}

proof fn lemma_run_closing(published: nat, round: u64, sender: Seq<u8>)
    ensures
        spec_upgrade_run(
            UpgradeStateView::Resetting { published },
            spec_closing_events(),
            round,
            sender,
        ) == (
            UpgradeStateView::Finished,
            seq![
                UpgradeActionView::Call(spec_reconfig_call()),
                UpgradeActionView::Finish(Ok(published)),
            ],
        ),
{
    let ok = UpgradeEventView::CallReturned(Ok(()));
    let none = Seq::<UpgradeEventView>::empty();
    assert(spec_closing_events() =~= seq![ok] + (seq![ok] + none));
    lemma_run_first(UpgradeStateView::Resetting { published }, ok, seq![ok] + none, round, sender);
    lemma_run_first(UpgradeStateView::Reconfiguring { published }, ok, none, round, sender);
    let last = spec_upgrade_run(UpgradeStateView::Finished, none, round, sender);
    assert(last.1 =~= Seq::<UpgradeActionView>::empty());
    assert(seq![UpgradeActionView::Call(spec_reconfig_call())] + (seq![
        UpgradeActionView::Finish(Ok(published)),
    ] + last.1) =~= seq![
        UpgradeActionView::Call(spec_reconfig_call()),
        UpgradeActionView::Finish(Ok(published)),
    ]);
}

/// From the publishing of the module at `next` on: where every module is
/// published without failure and the reset and the reconfiguration succeed,
/// the run publishes each later module once, in order, then resets the
/// payload, signals the reconfiguration and ends.
proof fn lemma_run_publishing(modules: Seq<Seq<u8>>, next: nat, round: u64, sender: Seq<u8>)
    requires
        next < modules.len(),
    ensures
        spec_upgrade_run(
            UpgradeStateView::Publishing { modules, next },
            spec_published_events((modules.len() - next) as nat) + spec_closing_events(),
            round,
            sender,
        ) == (
            UpgradeStateView::Finished,
            spec_publish_actions(modules, next + 1) + spec_closing_actions(sender, modules.len()),
        ),
    decreases modules.len() - next,
{
    let n = modules.len();
    let ok = UpgradeEventView::ModulePublished(Ok(()));
    let state = UpgradeStateView::Publishing { modules, next };
    let events = spec_published_events((n - next) as nat) + spec_closing_events();
    let rest = spec_published_events((n - next - 1) as nat) + spec_closing_events();
    assert(events =~= seq![ok] + rest);
    lemma_run_first(state, ok, rest, round, sender);
    let first = spec_upgrade_step(state, ok, round, sender);
    let after = spec_upgrade_run(first.0, rest, round, sender);
    let expected = spec_publish_actions(modules, next + 1) + spec_closing_actions(sender, n);
    if next + 1 < n {
        lemma_run_publishing(modules, next + 1, round, sender);
        assert(seq![first.1] + after.1 =~= expected);
    } else {
        assert(rest =~= spec_closing_events());
        lemma_run_closing(n, round, sender);
        assert(seq![first.1] + after.1 =~= expected);
    }
}

/// Outside the upgrade round the coordinator ticks and does nothing more,
/// whatever came of the tick.
pub proof fn lemma_upgrade_idle_round(tick: Result<(), EngineError>, round: u64, sender: Seq<u8>)
    requires
        round != UPGRADE_ROUND,
    ensures
        spec_upgrade_run(
            UpgradeStateView::Start,
            seq![UpgradeEventView::Begin, UpgradeEventView::CallReturned(tick)],
            round,
            sender,
        ) == (
            UpgradeStateView::Finished,
            seq![
                UpgradeActionView::Call(spec_tick_call(sender)),
                UpgradeActionView::Finish(Ok(0nat)),
            ],
        ),
{
    let none = Seq::<UpgradeEventView>::empty();
    let e1 = UpgradeEventView::CallReturned(tick);
    assert(seq![UpgradeEventView::Begin, e1] =~= seq![UpgradeEventView::Begin] + (seq![e1] + none));
    lemma_run_first(UpgradeStateView::Start, UpgradeEventView::Begin, seq![e1] + none, round, sender);
    lemma_run_first(UpgradeStateView::Ticking, e1, none, round, sender);
    let last = spec_upgrade_run(UpgradeStateView::Finished, none, round, sender);
    assert(last.1 =~= Seq::<UpgradeActionView>::empty());
    assert(seq![UpgradeActionView::Call(spec_tick_call(sender))] + (seq![
        UpgradeActionView::Finish(Ok(0nat)),
    ] + last.1) =~= seq![
        UpgradeActionView::Call(spec_tick_call(sender)),
        UpgradeActionView::Finish(Ok(0nat)),
    ]);
}

/// In the upgrade round, with a payload resource that holds an empty
/// payload, the coordinator ticks, reads the resource and ends: it publishes
/// no module and does not have the resource reset. A second run over the
/// same resource, whatever came of either tick, asks for the same and ends
/// the same.
pub proof fn lemma_upgrade_empty_payload_is_noop(
    first_tick: Result<(), EngineError>,
    second_tick: Result<(), EngineError>,
    blob: Seq<u8>,
    sender: Seq<u8>,
)
    requires
        spec_bcs_bytes_decoding(blob) == Some(Seq::<u8>::empty()),
    ensures
        spec_upgrade_run(
            UpgradeStateView::Start,
            seq![
                UpgradeEventView::Begin,
                UpgradeEventView::CallReturned(first_tick),
                UpgradeEventView::PayloadRead(Some(blob)),
            ],
            UPGRADE_ROUND,
            sender,
        ) == (
            UpgradeStateView::Finished,
            seq![
                UpgradeActionView::Call(spec_tick_call(sender)),
                UpgradeActionView::ReadPayload,
                UpgradeActionView::Finish(Ok(0nat)),
            ],
        ),
        spec_upgrade_run(
            UpgradeStateView::Start,
            seq![
                UpgradeEventView::Begin,
                UpgradeEventView::CallReturned(second_tick),
                UpgradeEventView::PayloadRead(Some(blob)),
            ],
            UPGRADE_ROUND,
            sender,
        ) == spec_upgrade_run(
            UpgradeStateView::Start,
            seq![
                UpgradeEventView::Begin,
                UpgradeEventView::CallReturned(first_tick),
                UpgradeEventView::PayloadRead(Some(blob)),
            ],
            UPGRADE_ROUND,
            sender,
        ),
{
    lemma_empty_payload_run(first_tick, blob, sender);
    lemma_empty_payload_run(second_tick, blob, sender);
}

proof fn lemma_empty_payload_run(tick: Result<(), EngineError>, blob: Seq<u8>, sender: Seq<u8>)
    requires
        spec_bcs_bytes_decoding(blob) == Some(Seq::<u8>::empty()),
    ensures
        spec_upgrade_run(
            UpgradeStateView::Start,
            seq![
                UpgradeEventView::Begin,
                UpgradeEventView::CallReturned(tick),
                UpgradeEventView::PayloadRead(Some(blob)),
            ],
            UPGRADE_ROUND,
            sender,
        ) == (
            UpgradeStateView::Finished,
            seq![
                UpgradeActionView::Call(spec_tick_call(sender)),
                UpgradeActionView::ReadPayload,
                UpgradeActionView::Finish(Ok(0nat)),
            ],
        ),
{
    let round = UPGRADE_ROUND;
    let none = Seq::<UpgradeEventView>::empty();
    let e0 = UpgradeEventView::Begin;
    let e1 = UpgradeEventView::CallReturned(tick);
    let e2 = UpgradeEventView::PayloadRead(Some(blob));
    assert(seq![e0, e1, e2] =~= seq![e0] + (seq![e1] + (seq![e2] + none)));
    lemma_run_first(UpgradeStateView::Start, e0, seq![e1] + (seq![e2] + none), round, sender);
    lemma_run_first(UpgradeStateView::Ticking, e1, seq![e2] + none, round, sender);
    lemma_run_first(UpgradeStateView::ReadingPayload, e2, none, round, sender);
    let last = spec_upgrade_run(UpgradeStateView::Finished, none, round, sender);
    assert(last.1 =~= Seq::<UpgradeActionView>::empty());
    assert(seq![UpgradeActionView::Call(spec_tick_call(sender))] + (seq![
        UpgradeActionView::ReadPayload,
    ] + (seq![UpgradeActionView::Finish(Ok(0nat))] + last.1)) =~= seq![
        UpgradeActionView::Call(spec_tick_call(sender)),
        UpgradeActionView::ReadPayload,
        UpgradeActionView::Finish(Ok(0nat)),
    ]);
}

/// In the upgrade round, with a payload that is not empty, and where nothing
/// fails: the coordinator ticks, reads the payload, has it turned into
/// modules, publishes each module once under the privileged address, in the
/// order in which they came, then has the payload resource reset, then
/// signals the reconfiguration, and ends with the number of modules.
pub proof fn lemma_upgrade_applies_payload(
    tick: Result<(), EngineError>,
    blob: Seq<u8>,
    payload: Seq<u8>,
    modules: Seq<Seq<u8>>,
    sender: Seq<u8>,
)
    requires
        spec_bcs_bytes_decoding(blob) == Some(payload),
        payload.len() > 0,
    ensures
        spec_upgrade_run(
            UpgradeStateView::Start,
            seq![
                UpgradeEventView::Begin,
                UpgradeEventView::CallReturned(tick),
                UpgradeEventView::PayloadRead(Some(blob)),
                UpgradeEventView::ModulesDecoded(Some(modules)),
            ] + spec_published_events(modules.len()) + spec_closing_events(),
            UPGRADE_ROUND,
            sender,
        ) == (
            UpgradeStateView::Finished,
            seq![
                UpgradeActionView::Call(spec_tick_call(sender)),
                UpgradeActionView::ReadPayload,
                UpgradeActionView::DecodeModules(payload),
            ] + spec_publish_actions(modules, 0) + spec_closing_actions(sender, modules.len()),
        ),
{
    let round = UPGRADE_ROUND;
    let n = modules.len();
    let e0 = UpgradeEventView::Begin;
    let e1 = UpgradeEventView::CallReturned(tick);
    let e2 = UpgradeEventView::PayloadRead(Some(blob));
    let e3 = UpgradeEventView::ModulesDecoded(Some(modules));
    let tail = spec_published_events(n) + spec_closing_events();
    let events = seq![e0, e1, e2, e3] + spec_published_events(n) + spec_closing_events();
    assert(events =~= seq![e0] + (seq![e1] + (seq![e2] + (seq![e3] + tail))));
    lemma_run_first(UpgradeStateView::Start, e0, seq![e1] + (seq![e2] + (seq![e3] + tail)), round, sender);
    lemma_run_first(UpgradeStateView::Ticking, e1, seq![e2] + (seq![e3] + tail), round, sender);
    lemma_run_first(UpgradeStateView::ReadingPayload, e2, seq![e3] + tail, round, sender);
    lemma_run_first(UpgradeStateView::Decoding, e3, tail, round, sender);
    let head = seq![
        UpgradeActionView::Call(spec_tick_call(sender)),
        UpgradeActionView::ReadPayload,
        UpgradeActionView::DecodeModules(payload),
    ];
    let expected = head + spec_publish_actions(modules, 0) + spec_closing_actions(sender, n);
    let fourth = spec_upgrade_step(UpgradeStateView::Decoding, e3, round, sender);
    let after = spec_upgrade_run(fourth.0, tail, round, sender);
    if n > 0 {
        lemma_run_publishing(modules, 0, round, sender);
        assert(seq![UpgradeActionView::Call(spec_tick_call(sender))] + (seq![
            UpgradeActionView::ReadPayload,
        ] + (seq![UpgradeActionView::DecodeModules(payload)] + (seq![fourth.1] + after.1)))
            =~= expected);
    } else {
        assert(tail =~= spec_closing_events());
        lemma_run_closing(0, round, sender);
        assert(seq![UpgradeActionView::Call(spec_tick_call(sender))] + (seq![
            UpgradeActionView::ReadPayload,
        ] + (seq![UpgradeActionView::DecodeModules(payload)] + (seq![fourth.1] + after.1)))
            =~= expected);
    }
}

/// A failure to publish a module, to reset the payload or to signal the
/// reconfiguration ends the run at once with an invariant violation: the
/// coordinator asks for nothing more, and what it published stays published.
pub proof fn lemma_upgrade_failure_is_fatal(
    modules: Seq<Seq<u8>>,
    next: nat,
    published: nat,
    e: EngineError,
    round: u64,
    sender: Seq<u8>,
)
    ensures
        spec_upgrade_step(
            UpgradeStateView::Publishing { modules, next },
            UpgradeEventView::ModulePublished(Err(e)),
            round,
            sender,
        ) == spec_halt(),
        spec_upgrade_step(
            UpgradeStateView::Resetting { published },
            UpgradeEventView::CallReturned(Err(e)),
            round,
            sender,
        ) == spec_halt(),
        spec_upgrade_step(
            UpgradeStateView::Reconfiguring { published },
            UpgradeEventView::CallReturned(Err(e)),
            round,
            sender,
        ) == spec_halt(),
        spec_upgrade_step(
            UpgradeStateView::Decoding,
            UpgradeEventView::ModulesDecoded(None),
            round,
            sender,
        ) == spec_halt(),
        crate::status::spec_class(VMStatus::Error(StatusCode::UnknownInvariantViolationError))
            == crate::status::ErrorClass::Fatal,
{
}

/// The coordinator's steps follow the phase that the block's round and the
/// pending payload put the upgrade in. In a block that is idle the tick is
/// followed by the end, and the payload is not read. In the block of the
/// upgrade round the tick is followed by the reading of the payload, and
/// what was read decides: the coordinator asks for the payload's modules
/// exactly where consensus is recorded, and ends with nothing published
/// where the upgrade is applied.
pub proof fn lemma_upgrade_step_follows_phase(
    tick: Result<(), EngineError>,
    blob: Seq<u8>,
    payload: Seq<u8>,
    round: u64,
    sender: Seq<u8>,
)
    requires
        spec_bcs_bytes_decoding(blob) == Some(payload),
    ensures
        spec_upgrade_phase(round, payload) is Idle ==> spec_upgrade_step(
            UpgradeStateView::Ticking,
            UpgradeEventView::CallReturned(tick),
            round,
            sender,
        ) == (UpgradeStateView::Finished, UpgradeActionView::Finish(Ok(0nat))),
        !(spec_upgrade_phase(round, payload) is Idle) ==> spec_upgrade_step(
            UpgradeStateView::Ticking,
            UpgradeEventView::CallReturned(tick),
            round,
            sender,
        ) == (UpgradeStateView::ReadingPayload, UpgradeActionView::ReadPayload),
        spec_upgrade_phase(round, payload) is ConsensusRecorded ==> spec_upgrade_step(
            UpgradeStateView::ReadingPayload,
            UpgradeEventView::PayloadRead(Some(blob)),
            round,
            sender,
        ) == (UpgradeStateView::Decoding, UpgradeActionView::DecodeModules(payload)),
        spec_upgrade_phase(round, payload) is Applied ==> spec_upgrade_step(
            UpgradeStateView::ReadingPayload,
            UpgradeEventView::PayloadRead(Some(blob)),
            round,
            sender,
        ) == (UpgradeStateView::Finished, UpgradeActionView::Finish(Ok(0nat))),
        round == UPGRADE_ROUND ==> (spec_upgrade_step(
            UpgradeStateView::ReadingPayload,
            UpgradeEventView::PayloadRead(Some(blob)),
            round,
            sender,
        ).1 is DecodeModules <==> spec_upgrade_phase(round, payload) is ConsensusRecorded),
{
}

} // verus!
