//! Driving the execution engine through one request.
//!
//! The engine works outside of this crate and may wait on the network, so a request is run
//! as a dialogue: the run names the next thing the engine has to do, the caller has the
//! engine do it and reports what came of it, and the run answers with the next thing, until
//! it finishes with the responses or with the failure that ended it.

use crate::config::Config;
use crate::errors::SimulationError;
use crate::evm::{
    AccountOverride, CallRawRequest, CallRawResult, ForkParameters, InstanceStatus,
};
use crate::numeric::Uint;
use crate::sessions::{acquire_outcome, SessionRegistry};
use crate::simulation::{
    account_override, assemble, chosen_fork_url, fork_parameters, SimulationRequest,
    SimulationResponse, StateOverride, StatefulSimulationRequest,
};
use ethers::types::Address;
use vstd::pervasive::unreached;
use vstd::prelude::*;

verus! {

/// Seconds by which the clock of a simulated chain moves when its block is advanced.
pub const BLOCK_INTERVAL_SECONDS: u64 = 12;

/// What kind of request a run serves.
#[derive(Debug, Clone, Copy, PartialEq, Eq)]
pub enum SimulationKind {
    /// One call on a fresh fork; what it changes is dropped.
    Call,
    /// A bundle on a fresh fork; each call builds on the ones before it.
    Bundle,
    /// A bundle on the chain of a live session.
    Session,
    /// The making of the chain for a new session; nothing is called.
    Opening,
}

/// What has to happen to the chain's block before a transaction runs.
#[derive(Debug, Clone, Copy, PartialEq, Eq)]
pub enum BlockPlan {
    /// The chain is where the transaction wants it.
    Stay,
    /// The chain has to move forward to this block.
    Advance(u64),
    /// The transaction cannot run at the block it asks for.
    Reject,
}

/// One thing the engine is asked to do.
#[derive(Debug)]
pub enum EngineRequest {
    /// Make the fork. Answered with the new chain's status.
    Create(ForkParameters),
    /// Report the chain's status.
    Inspect,
    /// Move the chain to a block. Answered with the chain's status after the move.
    SetBlock(u64),
    /// Set the chain's clock.
    SetBlockTimestamp(u64),
    /// Override an account.
    OverrideAccount(AccountOverride),
    /// Run a call; `committing` says whether what it changes stays on the chain.
    Call { request: CallRawRequest, gas_limit: u64, committing: bool },
}

/// What came of one thing the engine was asked to do.
#[derive(Debug)]
pub enum EngineReply {
    /// The chain's status, in answer to `Create`, `Inspect` and `SetBlock`.
    Status(InstanceStatus),
    /// The clock was set or the account overridden.
    Done,
    /// The call ran.
    Executed(CallRawResult),
    /// The engine failed at what it was asked to do.
    Failed(String),
}

/// What a run wants next.
#[derive(Debug)]
pub enum Step {
    /// The engine has to do this, and its reply is awaited.
    Perform(EngineRequest),
    /// The run is over: the responses in the order of the transactions, or the failure. A
    /// failed run hands out none of the responses it had gathered.
    Finish(Result<Vec<SimulationResponse>, SimulationError>),
}

/// The parts of the transaction in work that are still to be used.
#[derive(Debug)]
pub struct InWork {
    pub block_number: Option<u64>,
    /// The overrides that have not been handed to the engine yet.
    pub overrides: Vec<(Address, StateOverride)>,
    pub call: CallRawRequest,
    pub gas_limit: u64,
}

/// Where a run stands: which reply it awaits.
#[derive(Debug)]
pub enum Phase {
    /// The fork is being made.
    Creating,
    /// The clock of the fresh fork is being set to the first transaction's timestamp.
    InitialTimestamp,
    /// The chain's status is being read to validate the transaction in work.
    Validating(InWork),
    /// The chain is being moved to the block of the transaction in work.
    SettingBlock(InWork),
    /// The clock is being moved on after the block.
    SettingTimestamp(InWork),
    /// An override of the transaction in work is being applied.
    Overriding(InWork),
    /// The call of the transaction in work is running.
    Executing { format_trace: bool },
    /// The run is over.
    Finished,
}

/// One request in the running.
#[derive(Debug)]
pub struct BundleRun {
    pub kind: SimulationKind,
    /// The chain every transaction has to name: that of the first.
    pub first_chain_id: u64,
    /// The block the first transaction names.
    pub first_block_number: Option<u64>,
    /// The clock a fresh fork is set to before anything runs.
    pub first_block_timestamp: Option<u64>,
    pub phase: Phase,
    /// The transactions that have not been begun, in order.
    pub pending: Vec<SimulationRequest>,
    /// The responses of the transactions that have run, in order.
    pub responses: Vec<SimulationResponse>,
}

/// What has to happen to the chain's block before a transaction runs that names the block
/// `wanted`, in a bundle whose first transaction names `first`, on a chain that stands at
/// `current`.
///
/// A transaction that names the block of the first one, and with it the block the chain
/// stands at, runs where the chain is; so does one that names no block in a bundle whose
/// first names none. Any other has to name a block, and one that lies neither behind the
/// first transaction's nor behind the chain: the chain then moves there.
pub open spec fn block_plan(first: Option<u64>, wanted: Option<u64>, current: u64) -> BlockPlan {
    match wanted {
        None => if first is None {
            BlockPlan::Stay
        } else {
            BlockPlan::Reject
        },
        Some(block) => if first == Some(block) && block == current {
            BlockPlan::Stay
        } else if block < current || (first matches Some(first_block) && block < first_block) {
            BlockPlan::Reject
        } else {
            BlockPlan::Advance(block)
        },
    }
}

/// Decides what has to happen to the chain's block before a transaction runs.
pub fn plan_block(first: Option<u64>, wanted: Option<u64>, current: u64) -> (plan: BlockPlan)
    ensures
        plan == block_plan(first, wanted, current),
{
    match wanted {
        None => match first {
            None => BlockPlan::Stay,
            Some(_) => BlockPlan::Reject,
        },
        Some(block) => {
            let (is_first, behind_first) = match first {
                Some(first_block) => (block == first_block, block < first_block),
                None => (false, false),
            };
            if is_first && block == current {
                BlockPlan::Stay
            } else if block < current || behind_first {
                BlockPlan::Reject
            } else {
                BlockPlan::Advance(block)
            }
        },
    }
}

impl InWork {
    /// Whether these are the parts of `transaction`, none of them used yet.
    pub open spec fn holds(self, transaction: SimulationRequest) -> bool {
        &&& self.block_number == transaction.block_number
        &&& self.overrides@ == transaction.overrides()
        &&& self.call == transaction.call()
        &&& self.gas_limit == transaction.gas_limit
    }

    /// Whether these are the parts that are left of `before` once its first override has
    /// been handed out.
    pub open spec fn follows(self, before: InWork) -> bool {
        &&& self.block_number == before.block_number
        &&& self.overrides@ == before.overrides@.skip(1)
        &&& self.call == before.call
        &&& self.gas_limit == before.gas_limit
    }
}

impl Step {
    /// Whether the run ends with this failure.
    pub open spec fn fails_with(self, error: SimulationError) -> bool {
        self == Step::Finish(Err(error))
    }

    /// Whether the run ends well with these responses.
    pub open spec fn succeeds_with(self, responses: Seq<SimulationResponse>) -> bool {
        self matches Step::Finish(Ok(given)) && given@ == responses
    }
}

impl BundleRun {
    /// Whether `reply` can answer what the run asked for last. A run that is over awaits
    /// nothing, and the clock of a chain that has just moved must leave room for one more
    /// block interval.
    pub open spec fn expects(self, reply: EngineReply) -> bool {
        match reply {
            EngineReply::Failed(_) => !(self.phase is Finished),
            EngineReply::Status(status) => match self.phase {
                Phase::Creating => true,
                Phase::Validating(_) => true,
                Phase::SettingBlock(_) => status.block_timestamp + BLOCK_INTERVAL_SECONDS
                    <= u64::MAX,
                _ => false,
            },
            EngineReply::Done => self.phase is InitialTimestamp || self.phase is SettingTimestamp
                || self.phase is Overriding,
            EngineReply::Executed(_) => self.phase is Executing,
        }
    }

    /// Whether the run is of the same request as `before`: same kind, same first
    /// transaction.
    pub open spec fn continues(self, before: BundleRun) -> bool {
        &&& self.kind == before.kind
        &&& self.first_chain_id == before.first_chain_id
        &&& self.first_block_number == before.first_block_number
        &&& self.first_block_timestamp == before.first_block_timestamp
    }

    /// Whether the run has the same transactions ahead and the same responses behind it
    /// as `before`.
    pub open spec fn keeps(self, before: BundleRun) -> bool {
        &&& self.pending@ == before.pending@
        &&& self.responses@ == before.responses@
    }

    /// Whether `self` and `step` are what comes of taking the work on a transaction
    /// further, once the chain stands at its block: the next override that is left goes to
    /// the engine, and after the last one the call, which commits in every kind of run but
    /// a single call.
    pub open spec fn proceeds(self, work: InWork, step: Step) -> bool {
        if work.overrides@.len() > 0 {
            &&& step matches Step::Perform(EngineRequest::OverrideAccount(account))
            &&& account.translates(work.overrides@[0].0, work.overrides@[0].1)
            &&& self.phase matches Phase::Overriding(rest)
            &&& rest.follows(work)
        } else {
            &&& step == Step::Perform(
                EngineRequest::Call {
                    request: work.call,
                    gas_limit: work.gas_limit,
                    committing: !(self.kind is Call),
                },
            )
            &&& self.phase == (Phase::Executing { format_trace: work.call.format_trace })
        }
    }

    /// Whether `self` and `step` are what comes of beginning the next transaction of
    /// `pending`, with `responses` gathered so far.
    ///
    /// With none left the run ends well with the responses. A transaction of another chain
    /// than the first ends the run. Otherwise the transaction is taken into work: a single
    /// call goes on at once, a bundle first has the chain's status read.
    pub open spec fn begins(
        self,
        pending: Seq<SimulationRequest>,
        responses: Seq<SimulationResponse>,
        step: Step,
    ) -> bool {
        if pending.len() == 0 {
            self.phase is Finished && step.succeeds_with(responses)
        } else if pending[0].chain_id != self.first_chain_id {
            self.phase is Finished && step.fails_with(SimulationError::MultipleChainIds)
        } else {
            &&& self.pending@ == pending.skip(1)
            &&& self.responses@ == responses
            &&& if self.kind is Call {
                exists|work: InWork| #[trigger] work.holds(pending[0]) && self.proceeds(work, step)
            } else {
                &&& step == Step::Perform(EngineRequest::Inspect)
                &&& self.phase matches Phase::Validating(work)
                &&& work.holds(pending[0])
            }
        }
    }

    /// Whether `self` and `step` are what comes of `before` on the reply `reply`.
    pub open spec fn answers(self, before: BundleRun, reply: EngineReply, step: Step) -> bool {
        match reply {
            EngineReply::Failed(message) => self.phase is Finished && step.fails_with(
                SimulationError::EvmError(message),
            ),
            EngineReply::Status(status) => match before.phase {
                Phase::Creating => if !(before.kind is Opening) && status.chain_id.value()
                    != before.first_chain_id {
                    self.phase is Finished && step.fails_with(SimulationError::IncorrectChainId)
                } else {
                    match before.first_block_timestamp {
                        Some(timestamp) => {
                            &&& step == Step::Perform(EngineRequest::SetBlockTimestamp(timestamp))
                            &&& self.phase is InitialTimestamp
                            &&& self.keeps(before)
                        },
                        None => self.begins(before.pending@, before.responses@, step),
                    }
                },
                Phase::Validating(work) => if before.kind is Session && before.responses@.len()
                    == 0 && status.chain_id.value() != before.first_chain_id {
                    self.phase is Finished && step.fails_with(SimulationError::IncorrectChainId)
                } else {
                    match block_plan(
                        before.first_block_number,
                        work.block_number,
                        status.block_number,
                    ) {
                        BlockPlan::Stay => self.proceeds(work, step) && self.keeps(before),
                        BlockPlan::Advance(block) => {
                            &&& step == Step::Perform(EngineRequest::SetBlock(block))
                            &&& self.phase == Phase::SettingBlock(work)
                            &&& self.keeps(before)
                        },
                        BlockPlan::Reject => self.phase is Finished && step.fails_with(
                            SimulationError::InvalidBlockNumbers,
                        ),
                    }
                },
                Phase::SettingBlock(work) => {
                    &&& step == Step::Perform(
                        EngineRequest::SetBlockTimestamp(
                            (status.block_timestamp + BLOCK_INTERVAL_SECONDS) as u64,
                        ),
                    )
                    &&& self.phase == Phase::SettingTimestamp(work)
                    &&& self.keeps(before)
                },
                _ => true,
            },
            EngineReply::Done => match before.phase {
                Phase::InitialTimestamp => self.begins(before.pending@, before.responses@, step),
                Phase::SettingTimestamp(work) => self.proceeds(work, step) && self.keeps(before),
                Phase::Overriding(work) => self.proceeds(work, step) && self.keeps(before),
                _ => true,
            },
            EngineReply::Executed(result) => match before.phase {
                Phase::Executing { format_trace } => exists|response: SimulationResponse| #[trigger]
                    response.assembles(result, format_trace) && self.begins(
                        before.pending@,
                        before.responses@.push(response),
                        step,
                    ),
                _ => true,
            },
        }
    }

    /// Ends the run.
    fn finish(self, outcome: Result<Vec<SimulationResponse>, SimulationError>) -> (result: (
        BundleRun,
        Step,
    ))
        ensures
            result.0.continues(self),
            result.0.phase is Finished,
            result.1 == Step::Finish(outcome),
    {
        (BundleRun { phase: Phase::Finished, ..self }, Step::Finish(outcome))
    }

    /// Takes the work on a transaction further: the next override, or the call.
    fn proceed(self, work: InWork) -> (result: (BundleRun, Step))
        ensures
            result.0.continues(self),
            result.0.keeps(self),
            result.0.proceeds(work, result.1),
    {
        let InWork { block_number, overrides, call, gas_limit } = work;
        let mut overrides = overrides;
        if overrides.len() > 0 {
            let (address, state_override) = overrides.remove(0);
            let account = account_override(address, state_override);
            let rest = InWork { block_number, overrides, call, gas_limit };
            self.ask(Phase::Overriding(rest), EngineRequest::OverrideAccount(account))
        } else {
            let committing = !matches!(self.kind, SimulationKind::Call);
            self.ask(
                Phase::Executing { format_trace: call.format_trace },
                EngineRequest::Call { request: call, gas_limit, committing },
            )
        }
    }

    /// Begins the next transaction, or ends the run if none is left.
    fn begin(self) -> (result: (BundleRun, Step))
        ensures
            result.0.continues(self),
            result.0.begins(self.pending@, self.responses@, result.1),
    {
        let mut run = self;
        if run.pending.len() == 0 {
            let mut responses: Vec<SimulationResponse> = Vec::new();
            std::mem::swap(&mut run.responses, &mut responses);
            return run.finish(Ok(responses));
        }
        let transaction = run.pending.remove(0);
        if transaction.chain_id != run.first_chain_id {
            return run.finish(Err(SimulationError::MultipleChainIds));
        }
        let work = take_into_work(transaction);
        match run.kind {
            SimulationKind::Call => run.proceed(work),
            _ => run.ask(Phase::Validating(work), EngineRequest::Inspect),
        }
    }

    /// Tells whether `reply` can answer what the run asked for last.
    pub fn accepts(&self, reply: &EngineReply) -> (accepted: bool)
        ensures
            accepted == self.expects(*reply),
    {
        match reply {
            EngineReply::Failed(_) => !matches!(self.phase, Phase::Finished),
            EngineReply::Status(status) => match &self.phase {
                Phase::Creating => true,
                Phase::Validating(_) => true,
                Phase::SettingBlock(_) => status.block_timestamp <= u64::MAX
                    - BLOCK_INTERVAL_SECONDS,
                _ => false,
            },
            EngineReply::Done => matches!(
                self.phase,
                Phase::InitialTimestamp | Phase::SettingTimestamp(_) | Phase::Overriding(_)
            ),
            EngineReply::Executed(_) => matches!(self.phase, Phase::Executing { .. }),
        }
    }

    /// Takes the engine's reply to what the run asked for last and says what the run wants
    /// next.
    ///
    /// A failure of the engine ends the run with that failure. A fresh fork has to be of the
    /// chain the request names, and so has the chain of a session before its first
    /// transaction; the fork's clock is set where the first transaction gives a timestamp.
    /// Then each transaction in turn is validated against the first one and the chain,
    /// the chain is moved forward where it has to, with its clock one block interval on, the
    /// transaction's overrides are applied and its call is run.
    pub fn step(self, reply: EngineReply) -> (result: (BundleRun, Step))
        requires
            self.expects(reply),
        ensures
            result.0.continues(self),
            result.0.answers(self, reply, result.1),
    {
        let mut run = self;
        let mut phase = Phase::Finished;
        std::mem::swap(&mut run.phase, &mut phase);
        match reply {
            EngineReply::Failed(message) => run.finish(Err(SimulationError::EvmError(message))),
            EngineReply::Status(status) => match phase {
                Phase::Creating => {
                    if !matches!(run.kind, SimulationKind::Opening) && !status.chain_id.is_u64(
                        run.first_chain_id,
                    ) {
                        return run.finish(Err(SimulationError::IncorrectChainId));
                    }
                    match run.first_block_timestamp {
                        Some(timestamp) => run.ask(
                            Phase::InitialTimestamp,
                            EngineRequest::SetBlockTimestamp(timestamp),
                        ),
                        None => run.begin(),
                    }
                },
                Phase::Validating(work) => {
                    if matches!(run.kind, SimulationKind::Session) && run.responses.len() == 0
                        && !status.chain_id.is_u64(run.first_chain_id) {
                        return run.finish(Err(SimulationError::IncorrectChainId));
                    }
                    match plan_block(
                        run.first_block_number,
                        work.block_number,
                        status.block_number,
                    ) {
                        BlockPlan::Stay => run.proceed(work),
                        BlockPlan::Advance(block) => run.ask(
                            Phase::SettingBlock(work),
                            EngineRequest::SetBlock(block),
                        ),
                        BlockPlan::Reject => run.finish(
                            Err(SimulationError::InvalidBlockNumbers),
                        ),
                    }
                },
                Phase::SettingBlock(work) => run.ask(
                    Phase::SettingTimestamp(work),
                    EngineRequest::SetBlockTimestamp(
                        status.block_timestamp + BLOCK_INTERVAL_SECONDS,
                    ),
                ),
                _ => unreached(),
            },
            EngineReply::Done => match phase {
                Phase::InitialTimestamp => run.begin(),
                Phase::SettingTimestamp(work) => run.proceed(work),
                Phase::Overriding(work) => run.proceed(work),
                _ => unreached(),
            },
            EngineReply::Executed(result) => match phase {
                Phase::Executing { format_trace } => {
                    let response = assemble(result, format_trace);
                    run.responses.push(response);
                    run.begin()
                },
                _ => unreached(),
            },
        }
    }

    /// Asks the engine for one thing and awaits the reply in `phase`.
    fn ask(self, phase: Phase, request: EngineRequest) -> (result: (BundleRun, Step))
        ensures
            result.0.continues(self),
            result.0.keeps(self),
            result.0.phase == phase,
            result.1 == Step::Perform(request),
    {
        (BundleRun { phase, ..self }, Step::Perform(request))
    }
}

/// Takes a transaction apart into what the work on it uses.
fn take_into_work(transaction: SimulationRequest) -> (work: InWork)
    ensures
        work.holds(transaction),
{
    let SimulationRequest {
        chain_id: _,
        from,
        to,
        data,
        gas_limit,
        value,
        access_list,
        block_number,
        block_timestamp: _,
        state_overrides,
        format_trace,
    } = transaction;
    let overrides = match state_overrides {
        Some(overrides) => overrides,
        None => Vec::new(),
    };
    let value = match value {
        Some(value) => Some(Uint::from(value)),
        None => None,
    };
    let format_trace = match format_trace {
        Some(wanted) => wanted,
        None => false,
    };
    InWork {
        block_number,
        overrides,
        call: CallRawRequest { from, to, value, data, access_list, format_trace },
        gas_limit,
    }
}

impl BundleRun {
    /// Whether the run is at its start on a fork that is yet to be made: nothing has run,
    /// and `pending` is all that is to run.
    pub open spec fn opens(
        self,
        kind: SimulationKind,
        chain_id: u64,
        block_number: Option<u64>,
        block_timestamp: Option<u64>,
        pending: Seq<SimulationRequest>,
    ) -> bool {
        &&& self.kind == kind
        &&& self.first_chain_id == chain_id
        &&& self.first_block_number == block_number
        &&& self.first_block_timestamp == block_timestamp
        &&& self.phase is Creating
        &&& self.pending@ == pending
        &&& self.responses@.len() == 0
    }
}

impl ForkParameters {
    /// Whether these are the parameters of the fork for a request: the chosen endpoint,
    /// the request's block and gas limit, call frames recorded, the configured key.
    pub open spec fn serves(
        self,
        fork_url: Seq<char>,
        block_number: Option<u64>,
        gas_limit: u64,
        config: Config,
    ) -> bool {
        &&& self.fork_url@ == fork_url
        &&& self.block_number == block_number
        &&& self.gas_limit == gas_limit
        &&& self.tracing
        &&& self.etherscan_key == config.etherscan_key
    }
}

/// Starts a single call on a fresh fork: the fork is made at the call's block from the
/// endpoint of the call's chain, and the run stands at its start.
pub fn simulate(transaction: SimulationRequest, config: &Config) -> (result: Result<
    (BundleRun, EngineRequest),
    SimulationError,
>)
    ensures
        match chosen_fork_url(transaction.chain_id, *config) {
            Some(url) => {
                &&& result matches Ok((run, EngineRequest::Create(parameters)))
                &&& parameters.serves(url, transaction.block_number, transaction.gas_limit, *config)
                &&& run.opens(
                    SimulationKind::Call,
                    transaction.chain_id,
                    transaction.block_number,
                    transaction.block_timestamp,
                    seq![transaction],
                )
            },
            None => result matches Err(SimulationError::NoURLForChainId),
        },
{
    let parameters = match fork_parameters(
        transaction.chain_id,
        transaction.block_number,
        transaction.gas_limit,
        config,
    ) {
        Ok(parameters) => parameters,
        Err(error) => {
            return Err(error);
        },
    };
    let mut pending: Vec<SimulationRequest> = Vec::new();
    let run = BundleRun {
        kind: SimulationKind::Call,
        first_chain_id: transaction.chain_id,
        first_block_number: transaction.block_number,
        first_block_timestamp: transaction.block_timestamp,
        phase: Phase::Creating,
        pending: Vec::new(),
        responses: Vec::new(),
    };
    pending.push(transaction);
    assert(pending@ == seq![transaction]);
    Ok((BundleRun { pending, ..run }, EngineRequest::Create(parameters)))
}

/// Starts a bundle on a fresh fork: the fork is made at the first transaction's block, with
/// its gas limit, from the endpoint of its chain, and the run stands at its start.
pub fn simulate_bundle(transactions: Vec<SimulationRequest>, config: &Config) -> (result: Result<
    (BundleRun, EngineRequest),
    SimulationError,
>)
    requires
        transactions@.len() > 0,
    ensures
        match chosen_fork_url(transactions@[0].chain_id, *config) {
            Some(url) => {
                &&& result matches Ok((run, EngineRequest::Create(parameters)))
                &&& parameters.serves(
                    url,
                    transactions@[0].block_number,
                    transactions@[0].gas_limit,
                    *config,
                )
                &&& run.opens(
                    SimulationKind::Bundle,
                    transactions@[0].chain_id,
                    transactions@[0].block_number,
                    transactions@[0].block_timestamp,
                    transactions@,
                )
            },
            None => result matches Err(SimulationError::NoURLForChainId),
        },
{
    let first_chain_id = transactions[0].chain_id;
    let first_block_number = transactions[0].block_number;
    let first_block_timestamp = transactions[0].block_timestamp;
    let parameters = match fork_parameters(
        first_chain_id,
        first_block_number,
        transactions[0].gas_limit,
        config,
    ) {
        Ok(parameters) => parameters,
        Err(error) => {
            return Err(error);
        },
    };
    Ok(
        (
            BundleRun {
                kind: SimulationKind::Bundle,
                first_chain_id,
                first_block_number,
                first_block_timestamp,
                phase: Phase::Creating,
                pending: transactions,
                responses: Vec::new(),
            },
            EngineRequest::Create(parameters),
        ),
    )
}

/// Starts the making of the chain for a new session: the fork is made at the request's
/// block from the endpoint of its chain. The run has nothing to call; when it has ended
/// well the chain is ready to be registered.
pub fn simulate_stateful_new(
    stateful_simulation_request: StatefulSimulationRequest,
    config: &Config,
) -> (result: Result<(BundleRun, EngineRequest), SimulationError>)
    ensures
        match chosen_fork_url(stateful_simulation_request.chain_id, *config) {
            Some(url) => {
                &&& result matches Ok((run, EngineRequest::Create(parameters)))
                &&& parameters.serves(
                    url,
                    stateful_simulation_request.block_number,
                    stateful_simulation_request.gas_limit,
                    *config,
                )
                &&& run.opens(
                    SimulationKind::Opening,
                    stateful_simulation_request.chain_id,
                    stateful_simulation_request.block_number,
                    stateful_simulation_request.block_timestamp,
                    Seq::empty(),
                )
            },
            None => result matches Err(SimulationError::NoURLForChainId),
        },
{
    let parameters = match fork_parameters(
        stateful_simulation_request.chain_id,
        stateful_simulation_request.block_number,
        stateful_simulation_request.gas_limit,
        config,
    ) {
        Ok(parameters) => parameters,
        Err(error) => {
            return Err(error);
        },
    };
    Ok(
        (
            BundleRun {
                kind: SimulationKind::Opening,
                first_chain_id: stateful_simulation_request.chain_id,
                first_block_number: stateful_simulation_request.block_number,
                first_block_timestamp: stateful_simulation_request.block_timestamp,
                phase: Phase::Creating,
                pending: Vec::new(),
                responses: Vec::new(),
            },
            EngineRequest::Create(parameters),
        ),
    )
}

/// Starts a bundle on the chain of the live session `param`: the chain's handle is looked
/// up, the first transaction is taken into work and the chain's status is asked for. An
/// identifier without a live session is refused.
pub fn simulate_stateful(
    param: u128,
    transactions: Vec<SimulationRequest>,
    state: &SessionRegistry,
) -> (result: Result<(u64, BundleRun, EngineRequest), SimulationError>)
    requires
        transactions@.len() > 0,
    ensures
        match acquire_outcome(state@, param) {
            Ok(handle) => {
                &&& result matches Ok((found, run, EngineRequest::Inspect))
                &&& found == handle
                &&& run.kind is Session
                &&& run.first_chain_id == transactions@[0].chain_id
                &&& run.first_block_number == transactions@[0].block_number
                &&& run.phase matches Phase::Validating(work)
                &&& work.holds(transactions@[0])
                &&& run.pending@ == transactions@.skip(1)
                &&& run.responses@.len() == 0
            },
            Err(error) => result matches Err(refusal) && refusal == error,
        },
{
    let handle = match state.acquire(param) {
        Ok(handle) => handle,
        Err(error) => {
            return Err(error);
        },
    };
    let first_chain_id = transactions[0].chain_id;
    let first_block_number = transactions[0].block_number;
    let mut pending = transactions;
    let work = take_into_work(pending.remove(0));
    Ok(
        (
            handle,
            BundleRun {
                kind: SimulationKind::Session,
                first_chain_id,
                first_block_number,
                first_block_timestamp: None,
                phase: Phase::Validating(work),
                pending,
                responses: Vec::new(),
            },
            EngineRequest::Inspect,
        ),
    )
}

/// A transaction that names a block behind the one the chain stands at is never run: no
/// bundle lets the chain stay for it or move back to it.
pub proof fn block_behind_the_chain_is_rejected(first: Option<u64>, wanted: u64, current: u64)
    requires
        wanted < current,
    ensures
        block_plan(first, Some(wanted), current) == BlockPlan::Reject,
{
}

/// A chain only ever moves forward, and never behind the first transaction's block; and
/// where it stays, the transaction names no block or the one the chain stands at.
pub proof fn block_plan_is_monotonic(first: Option<u64>, wanted: Option<u64>, current: u64)
    ensures
        block_plan(first, wanted, current) matches BlockPlan::Advance(block) ==> {
            &&& wanted == Some(block)
            &&& block >= current
            &&& first matches Some(first_block) ==> block >= first_block
        },
        block_plan(first, wanted, current) == BlockPlan::Stay ==> wanted == first && (wanted
            is None || wanted == Some(current)),
{
}

/// When the status of the chain is read to validate a transaction that names a block
/// behind the one the chain stands at, the run ends there with the failure for invalid
/// block numbers: the transaction's overrides and its call never reach the engine. (The
/// chain of a session is first held against the request's chain, before the session's first
/// transaction; that comparison is assumed to have passed.)
pub proof fn transaction_behind_the_chain_ends_the_run(
    before: BundleRun,
    status: InstanceStatus,
    after: BundleRun,
    step: Step,
)
    requires
        before.phase matches Phase::Validating(work) && work.block_number matches Some(block)
            && block < status.block_number,
        !(before.kind is Session && before.responses@.len() == 0 && status.chain_id.value()
            != before.first_chain_id),
        after.answers(before, EngineReply::Status(status), step),
    ensures
        step.fails_with(SimulationError::InvalidBlockNumbers),
        after.phase is Finished,
{
}

/// When the chain has been moved to a transaction's block, its clock is set to exactly one
/// block interval, twelve seconds, over what the chain reports after the move; each move
/// of a bundle adds to the clock that the move before it left.
pub proof fn advance_moves_the_clock_by_one_interval(
    before: BundleRun,
    status: InstanceStatus,
    after: BundleRun,
    step: Step,
)
    requires
        before.phase is SettingBlock,
        before.expects(EngineReply::Status(status)),
        after.answers(before, EngineReply::Status(status), step),
    ensures
        step matches Step::Perform(EngineRequest::SetBlockTimestamp(timestamp)) && timestamp
            == status.block_timestamp + 12,
        after.phase is SettingTimestamp,
{
}

/// A transaction of another chain than the first one's ends the run at the moment it is
/// begun, with the failure for mixed chains, and a run that fails hands out no response.
pub proof fn transaction_of_another_chain_ends_the_run(
    after: BundleRun,
    pending: Seq<SimulationRequest>,
    responses: Seq<SimulationResponse>,
    step: Step,
)
    requires
        pending.len() > 0,
        pending[0].chain_id != after.first_chain_id,
        after.begins(pending, responses, step),
    ensures
        step.fails_with(SimulationError::MultipleChainIds),
        after.phase is Finished,
{
}

impl Phase {
    /// Whether a transaction is in work in this phase.
    pub open spec fn works(self) -> bool {
        self is Validating || self is SettingBlock || self is SettingTimestamp || self
            is Overriding || self is Executing
    }
}

impl BundleRun {
    /// Whether the run stands at the start of the work on `transactions`: on a fork that is
    /// yet to be made, or on a session's chain with the first transaction in work.
    pub open spec fn starts(self, transactions: Seq<SimulationRequest>) -> bool {
        &&& self.responses@.len() == 0
        &&& transactions.len() > 0 ==> self.first_chain_id == transactions[0].chain_id
        &&& if self.kind is Session {
            &&& transactions.len() > 0
            &&& self.phase matches Phase::Validating(work)
            &&& work.holds(transactions[0])
            &&& self.pending@ == transactions.skip(1)
        } else {
            &&& self.phase is Creating
            &&& self.pending@ == transactions
        }
    }

    /// Whether the run stands somewhere in the work on `transactions`: those still pending
    /// are the last of them, those begun are all of the first one's chain, and each of
    /// them but the one in work has its response.
    pub open spec fn covers(self, transactions: Seq<SimulationRequest>) -> bool {
        let begun = transactions.len() - self.pending@.len();
        &&& begun >= 0
        &&& self.pending@ == transactions.skip(begun)
        &&& forall|j: int| 0 <= j < begun ==> (#[trigger] transactions[j]).chain_id
            == self.first_chain_id
        &&& self.responses@.len() + (if self.phase.works() {
            1int
        } else {
            0int
        }) == begun
    }
}

/// Whether `runs`, `replies` and `steps` tell of one run: each reply answers what the run
/// had asked for, `steps[i]` is what the run wants on `replies[i]`, and `runs[i + 1]` is the
/// run after it.
pub open spec fn is_dialogue(runs: Seq<BundleRun>, replies: Seq<EngineReply>, steps: Seq<Step>) -> bool {
    &&& runs.len() == replies.len() + 1
    &&& steps.len() == replies.len()
    &&& forall|i: int|
        0 <= i < replies.len() ==> {
            &&& runs[i].expects(#[trigger] replies[i])
            &&& runs[i + 1].continues(runs[i])
            &&& runs[i + 1].answers(runs[i], replies[i], steps[i])
        }
}

/// One reply takes a run that stands in the work on `transactions` to another that does,
/// or to its end; and it ends well only with all of them answered and all of one chain.
proof fn lemma_step_covers(
    before: BundleRun,
    reply: EngineReply,
    after: BundleRun,
    step: Step,
    transactions: Seq<SimulationRequest>,
)
    requires
        before.covers(transactions),
        before.expects(reply),
        after.continues(before),
        after.answers(before, reply, step),
    ensures
        after.phase is Finished || after.covers(transactions),
        step matches Step::Finish(Ok(responses)) ==> {
            &&& responses@.len() == transactions.len()
            &&& forall|j: int|
                0 <= j < transactions.len() ==> (#[trigger] transactions[j]).chain_id
                    == before.first_chain_id
        },
{
    let begun = transactions.len() - before.pending@.len();
    if before.pending@.len() > 0 {
        assert(before.pending@[0] == transactions[begun]);
        assert(before.pending@.skip(1) == transactions.skip(begun + 1));
    }
}

/// A run that ends well has answered every transaction, and all of them are of the first
/// one's chain. So a bundle in which any transaction is of another chain than the first
/// never ends well, whatever the engine replies: it hands out no response at all.
pub proof fn run_that_ends_well_is_of_one_chain(
    runs: Seq<BundleRun>,
    replies: Seq<EngineReply>,
    steps: Seq<Step>,
    transactions: Seq<SimulationRequest>,
)
    requires
        is_dialogue(runs, replies, steps),
        runs[0].starts(transactions),
        replies.len() > 0,
        steps.last() matches Step::Finish(Ok(_)),
    ensures
        steps.last() matches Step::Finish(Ok(responses)) && responses@.len()
            == transactions.len(),
        forall|j: int|
            0 <= j < transactions.len() ==> (#[trigger] transactions[j]).chain_id
                == transactions[0].chain_id,
{
    assert(runs[0].covers(transactions)) by {
        if runs[0].kind is Session {
            assert(transactions.skip(1).len() == transactions.len() - 1);
        } else {
            assert(transactions.skip(0) == transactions);
        }
    }
    lemma_dialogue_covers(runs, replies, steps, transactions, replies.len() - 1);
    let last = replies.len() - 1;
    assert(runs[last].expects(replies[last]));
    lemma_step_covers(runs[last], replies[last], runs[last + 1], steps[last], transactions);
}

/// Every run of a dialogue that has not ended stands in the work on the transactions the
/// dialogue started with, and is of the same request as the first.
proof fn lemma_dialogue_covers(
    runs: Seq<BundleRun>,
    replies: Seq<EngineReply>,
    steps: Seq<Step>,
    transactions: Seq<SimulationRequest>,
    at: int,
)
    requires
        is_dialogue(runs, replies, steps),
        runs[0].covers(transactions),
        0 <= at < replies.len(),
    ensures
        runs[at].covers(transactions),
        runs[at].continues(runs[0]),
    decreases at,
{
    if at > 0 {
        lemma_dialogue_covers(runs, replies, steps, transactions, at - 1);
        assert(runs[at - 1].expects(replies[at - 1]));
        assert(runs[at].expects(replies[at]));
        lemma_step_covers(runs[at - 1], replies[at - 1], runs[at], steps[at - 1], transactions);
    }
}

} // verus!
