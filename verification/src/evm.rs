//! What passes between the orchestration and the execution engine.
//!
//! The engine runs the calls and keeps the forked state. This module holds the values that
//! are handed to it and taken from it, and says what an override of an account's storage
//! means for that storage.

use crate::numeric::Uint;
use ethers::types::transaction::eip2930::AccessList;
use ethers::types::{Address, Bytes, Log, H160, H256};
use vstd::prelude::*;

verus! {

/// `ethers::types::H160` (`Address`): the 20 bytes of an account's address. The value is
/// carried through unread.
#[verifier::external_type_specification]
#[verifier::external_body]
pub struct ExH160(H160);

/// `ethers::types::H256`: the 32 bytes of a storage slot's key. The value is carried through
/// unread.
#[verifier::external_type_specification]
#[verifier::external_body]
pub struct ExH256(H256);

/// `ethers::types::Bytes`: call data, code or return data. The value is carried through
/// unread.
#[verifier::external_type_specification]
#[verifier::external_body]
pub struct ExBytes(Bytes);

/// `ethers::types::Log`: one log entry of an execution. The value is carried through unread.
#[verifier::external_type_specification]
#[verifier::external_body]
pub struct ExLog(Log);

/// `ethers::types::transaction::eip2930::AccessList`: the access list of a call. The value is
/// carried through unread.
#[verifier::external_type_specification]
#[verifier::external_body]
pub struct ExAccessList(AccessList);

/// How a call frame was entered.
#[derive(Debug, Clone, Copy, PartialEq, Eq)]
pub enum CallKind {
    Call,
    StaticCall,
    CallCode,
    DelegateCall,
    Create,
    Create2,
}

/// Why the interpreter stopped.
#[derive(Debug, Clone, Copy, PartialEq, Eq)]
pub enum InstructionResult {
    Continue,
    Stop,
    Return,
    SelfDestruct,
    Revert,
    CallTooDeep,
    OutOfFund,
    OutOfGas,
    MemoryOOG,
    MemoryLimitOOG,
    PrecompileOOG,
    InvalidOperandOOG,
    OpcodeNotFound,
    CallNotAllowedInsideStatic,
    StateChangeDuringStaticCall,
    InvalidFEOpcode,
    InvalidJump,
    NotActivated,
    StackUnderflow,
    StackOverflow,
    OutOfOffset,
    CreateCollision,
    OverflowPayment,
    PrecompileError,
    NonceOverflow,
    CreateContractSizeLimit,
    CreateContractStartingWithEF,
    CreateInitcodeSizeLimit,
    FatalExternalError,
}

/// What a fork is made from.
#[derive(Debug, Clone, PartialEq)]
pub struct ForkParameters {
    /// Endpoint the state is fetched from.
    pub fork_url: String,
    /// Block the fork starts at; the latest one where none is given.
    pub block_number: Option<u64>,
    /// Gas limit of the simulated chain.
    pub gas_limit: u64,
    /// Whether call frames are recorded.
    pub tracing: bool,
    /// Key for contract look-ups while tracing.
    pub etherscan_key: Option<String>,
}

/// What a simulated chain reports about itself.
#[derive(Debug, Clone, Copy, PartialEq)]
pub struct InstanceStatus {
    pub chain_id: Uint,
    pub block_number: u64,
    pub block_timestamp: u64,
}

/// The storage part of an override: the slots to write, and whether the slots that are not
/// listed stay (`diff`) or go.
#[derive(Debug, PartialEq)]
pub struct StorageOverride {
    pub slots: Vec<(H256, Uint)>,
    pub diff: bool,
}

/// One account's override as the engine takes it.
#[derive(Debug, PartialEq)]
pub struct AccountOverride {
    pub address: Address,
    pub balance: Option<Uint>,
    pub nonce: Option<u64>,
    pub code: Option<Bytes>,
    pub storage: Option<StorageOverride>,
}

/// One call as the engine takes it.
#[derive(Debug)]
pub struct CallRawRequest {
    pub from: Address,
    pub to: Address,
    pub value: Option<Uint>,
    pub data: Option<Bytes>,
    pub access_list: Option<AccessList>,
    pub format_trace: bool,
}

/// One call frame as the engine recorded it.
#[derive(Debug, PartialEq)]
pub struct CallTraceNode {
    pub kind: CallKind,
    pub caller: Address,
    pub address: Address,
    pub value: Uint,
}

/// What the engine reports of one executed call.
#[derive(Debug, PartialEq)]
pub struct CallRawResult {
    pub gas_used: u64,
    pub block_number: u64,
    pub success: bool,
    /// The recorded call frames in the engine's order; `None` where nothing was recorded.
    pub trace: Option<Vec<CallTraceNode>>,
    pub logs: Vec<Log>,
    pub exit_reason: InstructionResult,
    pub return_data: Bytes,
    pub formatted_trace: Option<String>,
}

/// The slots that a list of writes leaves behind: of two writes to one slot the later stays.
pub open spec fn written_slots(slots: Seq<(H256, Uint)>) -> Map<H256, Uint>
    decreases slots.len(),
{
    if slots.len() == 0 {
        Map::empty()
    } else {
        written_slots(slots.drop_last()).insert(slots.last().0, slots.last().1)
    }
}

impl StorageOverride {
    /// The storage of an account after this override, given the storage before it.
    ///
    /// Without `diff` the account holds the listed slots and no others; with `diff` the
    /// listed slots are laid over the storage that was there.
    pub open spec fn storage_after(self, before: Map<H256, Uint>) -> Map<H256, Uint> {
        if self.diff {
            before.union_prefer_right(written_slots(self.slots@))
        } else {
            written_slots(self.slots@)
        }
    }

    /// Whether a slot is among those this override lists.
    pub open spec fn lists(self, slot: H256) -> bool {
        exists|i: int| 0 <= i < self.slots@.len() && (#[trigger] self.slots@[i]).0 == slot
    }
}

/// A slot is left behind by a list of writes exactly if the list names it.
pub proof fn lemma_written_slots_domain(slots: Seq<(H256, Uint)>, slot: H256)
    ensures
        written_slots(slots).contains_key(slot) <==> exists|i: int|
            0 <= i < slots.len() && (#[trigger] slots[i]).0 == slot,
    decreases slots.len(),
{
    if slots.len() > 0 {
        let front = slots.drop_last();
        lemma_written_slots_domain(front, slot);
        if written_slots(slots).contains_key(slot) {
            if slots.last().0 == slot {
                assert(slots[slots.len() - 1].0 == slot);
            } else {
                let i = choose|i: int| 0 <= i < front.len() && (#[trigger] front[i]).0 == slot;
                assert(slots[i].0 == slot);
            }
        }
        if exists|i: int| 0 <= i < slots.len() && (#[trigger] slots[i]).0 == slot {
            let i = choose|i: int| 0 <= i < slots.len() && (#[trigger] slots[i]).0 == slot;
            if i < slots.len() - 1 {
                assert(front[i].0 == slot);
            }
        }
    }
}

/// An override without `diff` replaces the storage: a slot that it does not list is unset
/// afterwards, whatever was there before.
pub proof fn full_override_unsets_unlisted_slots(
    storage: StorageOverride,
    before: Map<H256, Uint>,
    slot: H256,
)
    requires
        !storage.diff,
        !storage.lists(slot),
    ensures
        !storage.storage_after(before).contains_key(slot),
{
    lemma_written_slots_domain(storage.slots@, slot);
}

/// An override with `diff` keeps what it does not list: such a slot is set afterwards exactly
/// if it was set before, and to the same value.
pub proof fn diff_override_keeps_unlisted_slots(
    storage: StorageOverride,
    before: Map<H256, Uint>,
    slot: H256,
)
    requires
        storage.diff,
        !storage.lists(slot),
    ensures
        storage.storage_after(before).contains_key(slot) == before.contains_key(slot),
        before.contains_key(slot) ==> storage.storage_after(before)[slot] == before[slot],
{
    lemma_written_slots_domain(storage.slots@, slot);
}

/// Either kind of override sets a slot that it lists, to the value of the last write to it.
pub proof fn override_sets_listed_slots(
    storage: StorageOverride,
    before: Map<H256, Uint>,
    index: int,
)
    requires
        0 <= index < storage.slots@.len(),
        forall|later: int|
            index < later < storage.slots@.len() ==> (#[trigger] storage.slots@[later]).0
                != storage.slots@[index].0,
    ensures
        storage.storage_after(before).contains_key(storage.slots@[index].0),
        storage.storage_after(before)[storage.slots@[index].0] == storage.slots@[index].1,
{
    lemma_written_slots_last(storage.slots@, index);
}

/// The value that a list of writes leaves in a slot is that of the last write to it.
proof fn lemma_written_slots_last(slots: Seq<(H256, Uint)>, index: int)
    requires
        0 <= index < slots.len(),
        forall|later: int| index < later < slots.len() ==> (#[trigger] slots[later]).0 != slots[index].0,
    ensures
        written_slots(slots).contains_key(slots[index].0),
        written_slots(slots)[slots[index].0] == slots[index].1,
    decreases slots.len(),
{
    if index < slots.len() - 1 {
        let front = slots.drop_last();
        assert(forall|later: int| index < later < front.len() ==> (#[trigger] front[later]).0 == slots[later].0);
        lemma_written_slots_last(front, index);
        assert(slots[slots.len() - 1].0 != slots[index].0);
    }
}

} // verus!
