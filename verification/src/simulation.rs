//! Requests, responses and the rules that connect them.

use crate::config::Config;
use crate::errors::SimulationError;
use crate::evm::{
    diff_override_keeps_unlisted_slots, full_override_unsets_unlisted_slots,
    override_sets_listed_slots, AccountOverride,
    CallKind, CallRawRequest, CallRawResult, CallTraceNode, ForkParameters, InstructionResult,
    StorageOverride,
};
use crate::numeric::{PermissiveUint, Uint};
use ethers::types::transaction::eip2930::AccessList;
use ethers::types::{Address, Bytes, Log, H256};
use vstd::prelude::*;

verus! {

/// One requested call.
#[derive(Debug)]
pub struct SimulationRequest {
    pub chain_id: u64,
    pub from: Address,
    pub to: Address,
    pub data: Option<Bytes>,
    pub gas_limit: u64,
    pub value: Option<PermissiveUint>,
    pub access_list: Option<AccessList>,
    pub block_number: Option<u64>,
    pub block_timestamp: Option<u64>,
    /// Overrides to apply just before this call runs, by account, in the order given.
    pub state_overrides: Option<Vec<(Address, StateOverride)>>,
    pub format_trace: Option<bool>,
}

/// The outcome of one call.
#[derive(Debug, PartialEq)]
pub struct SimulationResponse {
    pub simulation_id: u64,
    pub gas_used: u64,
    pub block_number: u64,
    pub success: bool,
    pub trace: Vec<CallTrace>,
    pub formatted_trace: Option<String>,
    pub logs: Vec<Log>,
    pub exit_reason: InstructionResult,
    pub return_data: Bytes,
}

/// The answer to a request that opens a session: the new session's identifier.
#[derive(Debug, Clone, PartialEq)]
pub struct StatefulSimulationResponse {
    pub stateful_simulation_id: u128,
}

/// What a caller may override of one account before a call.
#[derive(Debug, PartialEq)]
pub struct StateOverride {
    pub balance: Option<PermissiveUint>,
    pub nonce: Option<u64>,
    pub code: Option<Bytes>,
    pub state: Option<State>,
}

/// An override of an account's storage: either the whole storage or some of its slots.
#[derive(Debug, PartialEq)]
pub enum State {
    /// The account's storage becomes exactly these slots.
    Full { state: Vec<(H256, PermissiveUint)> },
    /// These slots are written; the others stay as they are.
    Diff { state_diff: Vec<(H256, PermissiveUint)> },
}

/// One call frame of an execution.
#[derive(Debug, PartialEq)]
pub struct CallTrace {
    pub call_type: CallKind,
    pub from: Address,
    pub to: Address,
    pub value: Uint,
}

/// What a caller sends to open a session.
#[derive(Debug, Clone)]
pub struct StatefulSimulationRequest {
    pub chain_id: u64,
    pub gas_limit: u64,
    pub block_number: Option<u64>,
    pub block_timestamp: Option<u64>,
}

/// The answer to a request that ends a session.
#[derive(Debug, Clone, PartialEq)]
pub struct StatefulSimulationEndResponse {
    pub success: bool,
}

/// The public endpoint that is built in for a chain, if there is one.
pub open spec fn builtin_fork_url(chain_id: u64) -> Option<Seq<char>> {
    match builtin_endpoint(chain_id) {
        Some(url) => Some(url@),
        None => None,
    }
}

/// The endpoint a chain identifier resolves to under the operator's table `rpc_urls`:
/// the operator's entry where there is one, else the built-in one.
pub open spec fn resolved_fork_url(chain_id: u64, rpc_urls: Map<u64, String>) -> Option<Seq<char>> {
    if rpc_urls.contains_key(chain_id) {
        Some(rpc_urls[chain_id]@)
    } else {
        builtin_fork_url(chain_id)
    }
}

/// The table of built-in public endpoints.
#[verifier::when_used_as_spec(builtin_endpoint_spec)]
pub fn builtin_endpoint(chain_id: u64) -> (url: Option<&'static str>)
    ensures
        url == builtin_endpoint_spec(chain_id),
{
    match chain_id {
        // ethereum
        1 => Some("https://eth.drpc.org"),
        5 => Some("https://eth-goerli.g.alchemy.com/v2/demo"),
        17000 => Some("https://holesky.drpc.org"),
        11155111 => Some("https://sepolia.drpc.org"),
        // polygon
        137 => Some("https://polygon.drpc.org"),
        80001 => Some("https://polygon-mumbai.g.alchemy.com/v2/demo"),
        80002 => Some("https://polygon-amoy.drpc.org"),
        // avalanche
        43114 => Some("https://avalanche.drpc.org"),
        43113 => Some("https://avalanche-fuji.drpc.org"),
        // fantom
        250 => Some("https://fantom.drpc.org"),
        4002 => Some("https://fantom-testnet.drpc.org"),
        // xdai
        100 => Some("https://gnosis.drpc.org"),
        10200 => Some("https://gnosis-chiado.drpc.org"),
        // bsc
        56 => Some("https://bsc.drpc.org"),
        97 => Some("https://bsc-testnet.drpc.org"),
        // arbitrum
        42161 => Some("https://arbitrum.drpc.org"),
        421613 => Some("https://goerli-rollup.arbitrum.io/rpc"),
        421614 => Some("https://arbitrum-sepolia.drpc.org"),
        // optimism
        10 => Some("https://optimism.drpc.org"),
        420 => Some("https://goerli.optimism.io/"),
        11155420 => Some("https://optimism-sepolia.drpc.org"),
        // base
        8453 => Some("https://base.drpc.org"),
        84532 => Some("https://base-sepolia.drpc.org"),
        // zksync
        324 => Some("https://zksync.drpc.org"),
        300 => Some("https://zksync-sepolia.drpc.org"),
        _ => None,
    }
}

/// The built-in table as a mathematical function.
pub open spec fn builtin_endpoint_spec(chain_id: u64) -> Option<&'static str> {
    match chain_id {
        1 => Some("https://eth.drpc.org"),
        5 => Some("https://eth-goerli.g.alchemy.com/v2/demo"),
        17000 => Some("https://holesky.drpc.org"),
        11155111 => Some("https://sepolia.drpc.org"),
        137 => Some("https://polygon.drpc.org"),
        80001 => Some("https://polygon-mumbai.g.alchemy.com/v2/demo"),
        80002 => Some("https://polygon-amoy.drpc.org"),
        43114 => Some("https://avalanche.drpc.org"),
        43113 => Some("https://avalanche-fuji.drpc.org"),
        250 => Some("https://fantom.drpc.org"),
        4002 => Some("https://fantom-testnet.drpc.org"),
        100 => Some("https://gnosis.drpc.org"),
        10200 => Some("https://gnosis-chiado.drpc.org"),
        56 => Some("https://bsc.drpc.org"),
        97 => Some("https://bsc-testnet.drpc.org"),
        42161 => Some("https://arbitrum.drpc.org"),
        421613 => Some("https://goerli-rollup.arbitrum.io/rpc"),
        421614 => Some("https://arbitrum-sepolia.drpc.org"),
        10 => Some("https://optimism.drpc.org"),
        420 => Some("https://goerli.optimism.io/"),
        11155420 => Some("https://optimism-sepolia.drpc.org"),
        8453 => Some("https://base.drpc.org"),
        84532 => Some("https://base-sepolia.drpc.org"),
        324 => Some("https://zksync.drpc.org"),
        300 => Some("https://zksync-sepolia.drpc.org"),
        _ => None,
    }
}

/// Resolves a chain identifier to the endpoint a fork is made from.
///
/// An entry of the operator's table always wins; without one the built-in table decides, and a
/// chain that neither table knows is refused: no other network is ever put in its place.
pub fn chain_id_to_fork_url(chain_id: u64, config: &Config) -> (result: Result<String, SimulationError>)
    ensures
        match resolved_fork_url(chain_id, config.rpc_urls@) {
            Some(url) => result matches Ok(found) && found@ == url,
            None => result == Err::<String, SimulationError>(SimulationError::NoURLForChainId),
        },
        config.rpc_urls@.contains_key(chain_id) ==> (result matches Ok(found) && found@
            == config.rpc_urls@[chain_id]@),
        !config.rpc_urls@.contains_key(chain_id) && builtin_fork_url(chain_id) is None ==> result
            == Err::<String, SimulationError>(SimulationError::NoURLForChainId),
{
    if let Some(custom_url) = config.rpc_urls.get(&chain_id) {
        return Ok(custom_url.clone());
    }
    match builtin_endpoint(chain_id) {
        Some(url) => Ok(url.to_string()),
        None => Err(SimulationError::NoURLForChainId),
    }
}

/// The endpoint a fork is made from: the configured fork endpoint where one is set, which
/// leaves the chain identifier unresolved, else what the chain identifier resolves to.
pub open spec fn chosen_fork_url(chain_id: u64, config: Config) -> Option<Seq<char>> {
    match config.fork_url {
        Some(url) => Some(url@),
        None => resolved_fork_url(chain_id, config.rpc_urls@),
    }
}

/// What the fork for a request is made from.
pub fn fork_parameters(
    chain_id: u64,
    block_number: Option<u64>,
    gas_limit: u64,
    config: &Config,
) -> (result: Result<ForkParameters, SimulationError>)
    ensures
        match chosen_fork_url(chain_id, *config) {
            Some(url) => result matches Ok(parameters) && parameters.fork_url@ == url
                && parameters.block_number == block_number && parameters.gas_limit == gas_limit
                && parameters.tracing && parameters.etherscan_key == config.etherscan_key,
            None => result == Err::<ForkParameters, SimulationError>(
                SimulationError::NoURLForChainId,
            ),
        },
{
    let fork_url = match &config.fork_url {
        Some(url) => url.clone(),
        None => match chain_id_to_fork_url(chain_id, config) {
            Ok(url) => url,
            Err(error) => {
                return Err(error);
            },
        },
    };
    let etherscan_key = match &config.etherscan_key {
        Some(key) => Some(key.clone()),
        None => None,
    };
    Ok(ForkParameters { fork_url, block_number, gas_limit, tracing: true, etherscan_key })
}

impl State {
    /// The slots that the override lists, in the order given.
    pub open spec fn slots(self) -> Seq<(H256, PermissiveUint)> {
        match self {
            State::Full { state } => state@,
            State::Diff { state_diff } => state_diff@,
        }
    }
}

/// The listed slots with their values as plain numbers.
pub open spec fn plain_slots(slots: Seq<(H256, PermissiveUint)>) -> Seq<(H256, Uint)> {
    slots.map_values(|slot: (H256, PermissiveUint)| (slot.0, (slot.1).0))
}

impl StorageOverride {
    /// Whether this is the engine's form of a caller's storage override: the same slots with
    /// the same values in the same order, laid over the storage for `Diff` and replacing it
    /// for `Full`.
    pub open spec fn translates(self, state: State) -> bool {
        &&& self.diff == (state is Diff)
        &&& self.slots@ == plain_slots(state.slots())
    }

    /// Turns a caller's storage override into the engine's form.
    pub fn from(value: State) -> (result: StorageOverride)
        ensures
            result.translates(value),
    {
        let (slots, diff) = match value {
            State::Full { state } => (state, false),
            State::Diff { state_diff } => (state_diff, true),
        };
        let mut plain: Vec<(H256, Uint)> = Vec::new();
        let mut i: usize = 0;
        while i < slots.len()
            invariant
                i <= slots.len(),
                plain@ == plain_slots(slots@.take(i as int)),
            decreases slots.len() - i,
        {
            plain.push((slots[i].0, Uint::from(slots[i].1)));
            assert(slots@.take(i + 1).drop_last() == slots@.take(i as int));
            i += 1;
        }
        assert(slots@.take(i as int) == slots@);
        StorageOverride { slots: plain, diff }
    }
}

impl State {
    /// Whether a slot is among those the override lists.
    pub open spec fn lists(self, slot: H256) -> bool {
        exists|i: int| 0 <= i < self.slots().len() && (#[trigger] self.slots()[i]).0 == slot
    }

    /// Whether the override lists no slot twice, as one that was read from a map of slots
    /// does. Nothing here asks for it: where a slot is listed twice the later value counts.
    pub open spec fn well_formed(self) -> bool {
        forall|i: int, j: int|
            0 <= i < j < self.slots().len() ==> (#[trigger] self.slots()[i]).0 != (
            #[trigger] self.slots()[j]).0
    }
}

impl SimulationRequest {
    /// Whether the request overrides no account twice and no slot of an account twice, as
    /// one that was read from maps by account and by slot does. Nothing here asks for it:
    /// the overrides go to the engine one by one in the order given.
    pub open spec fn well_formed(self) -> bool {
        &&& forall|i: int, j: int|
            0 <= i < j < self.overrides().len() ==> (#[trigger] self.overrides()[i]).0 != (
            #[trigger] self.overrides()[j]).0
        &&& forall|i: int|
            0 <= i < self.overrides().len() ==> ((#[trigger] self.overrides()[i]).1.state
                matches Some(state) ==> state.well_formed())
    }
}

/// Either kind of override sets the slots it lists: in the storage that the engine form of
/// a well-formed override leaves, each listed slot has the value listed for it.
pub proof fn listed_slots_take_their_values(
    state: State,
    storage: StorageOverride,
    before: Map<H256, Uint>,
    index: int,
)
    requires
        state.well_formed(),
        storage.translates(state),
        0 <= index < state.slots().len(),
    ensures
        storage.storage_after(before).contains_key(state.slots()[index].0),
        storage.storage_after(before)[state.slots()[index].0] == (state.slots()[index].1).0,
{
    assert forall|later: int| index < later < storage.slots@.len() implies (
    #[trigger] storage.slots@[later]).0 != storage.slots@[index].0 by {
        assert(state.slots()[later].0 != state.slots()[index].0);
    }
    override_sets_listed_slots(storage, before, index);
}

/// A `Full` override replaces the account's storage: in the storage that its engine form
/// leaves, a slot that the override does not list is unset, whatever was there before.
pub proof fn full_state_replaces_the_storage(
    state: State,
    storage: StorageOverride,
    before: Map<H256, Uint>,
    slot: H256,
)
    requires
        state is Full,
        storage.translates(state),
        !state.lists(slot),
    ensures
        !storage.storage_after(before).contains_key(slot),
{
    assert(!storage.lists(slot)) by {
        if storage.lists(slot) {
            let i = choose|i: int|
                0 <= i < storage.slots@.len() && (#[trigger] storage.slots@[i]).0 == slot;
            assert(state.slots()[i].0 == slot);
        }
    }
    full_override_unsets_unlisted_slots(storage, before, slot);
}

/// A `Diff` override keeps what it does not list: in the storage that its engine form
/// leaves, such a slot is set exactly if it was set before, and to the same value.
pub proof fn diff_state_keeps_the_other_slots(
    state: State,
    storage: StorageOverride,
    before: Map<H256, Uint>,
    slot: H256,
)
    requires
        state is Diff,
        storage.translates(state),
        !state.lists(slot),
    ensures
        storage.storage_after(before).contains_key(slot) == before.contains_key(slot),
        before.contains_key(slot) ==> storage.storage_after(before)[slot] == before[slot],
{
    assert(!storage.lists(slot)) by {
        if storage.lists(slot) {
            let i = choose|i: int|
                0 <= i < storage.slots@.len() && (#[trigger] storage.slots@[i]).0 == slot;
            assert(state.slots()[i].0 == slot);
        }
    }
    diff_override_keeps_unlisted_slots(storage, before, slot);
}

impl AccountOverride {
    /// Whether this is the engine's form of a caller's override of the account at `address`:
    /// balance, nonce and code as given, the storage translated.
    pub open spec fn translates(self, address: Address, state_override: StateOverride) -> bool {
        &&& self.address == address
        &&& self.balance == match state_override.balance {
            Some(balance) => Some(balance.0),
            None => None,
        }
        &&& self.nonce == state_override.nonce
        &&& self.code == state_override.code
        &&& match state_override.state {
            Some(state) => self.storage matches Some(storage) && storage.translates(state),
            None => self.storage is None,
        }
    }
}

/// Turns a caller's override of one account into what the engine takes.
pub fn account_override(address: Address, state_override: StateOverride) -> (result:
    AccountOverride)
    ensures
        result.translates(address, state_override),
{
    let StateOverride { balance, nonce, code, state } = state_override;
    let balance = match balance {
        Some(balance) => Some(Uint::from(balance)),
        None => None,
    };
    let storage = match state {
        Some(state) => Some(StorageOverride::from(state)),
        None => None,
    };
    AccountOverride { address, balance, nonce, code, storage }
}

impl SimulationRequest {
    /// The call that the engine is asked to run for this request. A trace is formatted only
    /// where the caller asks for it.
    pub open spec fn call(self) -> CallRawRequest {
        CallRawRequest {
            from: self.from,
            to: self.to,
            value: match self.value {
                Some(value) => Some(value.0),
                None => None,
            },
            data: self.data,
            access_list: self.access_list,
            format_trace: match self.format_trace {
                Some(wanted) => wanted,
                None => false,
            },
        }
    }

    /// The overrides that the request declares, in the order given.
    pub open spec fn overrides(self) -> Seq<(Address, StateOverride)> {
        match self.state_overrides {
            Some(overrides) => overrides@,
            None => Seq::empty(),
        }
    }
}

impl CallTrace {
    /// The caller-facing form of a recorded call frame.
    pub open spec fn of(node: CallTraceNode) -> CallTrace {
        CallTrace { call_type: node.kind, from: node.caller, to: node.address, value: node.value }
    }

    /// Turns a recorded call frame into its caller-facing form.
    pub fn from(node: &CallTraceNode) -> (result: CallTrace)
        ensures
            result == CallTrace::of(*node),
    {
        CallTrace { call_type: node.kind, from: node.caller, to: node.address, value: node.value }
    }
}

impl CallRawResult {
    /// The recorded call frames, none where nothing was recorded.
    pub open spec fn nodes(self) -> Seq<CallTraceNode> {
        match self.trace {
            Some(nodes) => nodes@,
            None => Seq::empty(),
        }
    }
}

impl SimulationResponse {
    /// Whether this is the response for an engine result: gas, block, success, logs, exit
    /// reason and return data as the engine gave them, one trace entry per recorded frame
    /// in the engine's order, and the formatted trace only if the caller asked for it.
    pub open spec fn assembles(self, result: CallRawResult, format_trace: bool) -> bool {
        &&& self.simulation_id == 1
        &&& self.gas_used == result.gas_used
        &&& self.block_number == result.block_number
        &&& self.success == result.success
        &&& self.trace@ == result.nodes().map_values(|node: CallTraceNode| CallTrace::of(node))
        &&& self.formatted_trace == if format_trace {
            result.formatted_trace
        } else {
            None
        }
        &&& self.logs == result.logs
        &&& self.exit_reason == result.exit_reason
        &&& self.return_data == result.return_data
    }
}

/// Shapes what the engine reports of one call into the response for the caller.
pub fn assemble(result: CallRawResult, format_trace: bool) -> (response: SimulationResponse)
    ensures
        response.assembles(result, format_trace),
{
    let ghost given = result;
    let CallRawResult {
        gas_used,
        block_number,
        success,
        trace,
        logs,
        exit_reason,
        return_data,
        formatted_trace,
    } = result;
    let mut entries: Vec<CallTrace> = Vec::new();
    match trace {
        Some(nodes) => {
            let mut i: usize = 0;
            while i < nodes.len()
                invariant
                    i <= nodes.len(),
                    entries@ == nodes@.take(i as int).map_values(
                        |node: CallTraceNode| CallTrace::of(node),
                    ),
                decreases nodes.len() - i,
            {
                entries.push(CallTrace::from(&nodes[i]));
                assert(nodes@.take(i + 1).drop_last() == nodes@.take(i as int));
                i += 1;
            }
            assert(nodes@.take(i as int) == nodes@);
        },
        None => {},
    }
    assert(entries@ =~= given.nodes().map_values(|node: CallTraceNode| CallTrace::of(node)));
    let formatted_trace = if format_trace {
        formatted_trace
    } else {
        None
    };
    SimulationResponse {
        simulation_id: 1,
        gas_used,
        block_number,
        success,
        trace: entries,
        formatted_trace,
        logs,
        exit_reason,
        return_data,
    }
}

} // verus!
