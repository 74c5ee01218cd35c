use ethers::types::{Address, Bytes, Log, H256};
use std::collections::HashMap;
use tx_simulator::config::Config;
use tx_simulator::errors::SimulationError;
use tx_simulator::evm::{
    AccountOverride, CallKind, CallRawResult, CallTraceNode, ForkParameters, InstructionResult,
    StorageOverride,
};
use tx_simulator::numeric::{PermissiveUint, Uint};
use tx_simulator::simulation::{
    account_override, assemble, fork_parameters, CallTrace, SimulationResponse, State,
    StateOverride,
};

fn word(number: u64) -> PermissiveUint {
    PermissiveUint(Uint::from_u64(number))
}

fn slot(number: u64) -> H256 {
    H256::from_low_u64_be(number)
}

fn config(fork_url: Option<&str>, key: Option<&str>) -> Config {
    let mut rpc_urls = HashMap::new();
    rpc_urls.insert(1, "http://operator".to_string());
    Config {
        port: 8080,
        fork_url: fork_url.map(str::to_string),
        etherscan_key: key.map(str::to_string),
        api_key: None,
        max_request_size: 16384,
        rpc_urls,
    }
}

#[test]
fn full_override_is_translated_without_diff() {
    let state = State::Full { state: vec![(slot(1), word(10)), (slot(2), word(20))] };
    assert_eq!(
        StorageOverride::from(state),
        StorageOverride {
            slots: vec![(slot(1), Uint::from_u64(10)), (slot(2), Uint::from_u64(20))],
            diff: false,
        }
    );
}

#[test]
fn diff_override_is_translated_with_diff() {
    let state = State::Diff { state_diff: vec![(slot(3), PermissiveUint::parse("0x10").unwrap())] };
    assert_eq!(
        StorageOverride::from(state),
        StorageOverride { slots: vec![(slot(3), Uint::from_u64(16))], diff: true }
    );
}

#[test]
fn override_without_slots_keeps_its_kind() {
    assert_eq!(
        StorageOverride::from(State::Full { state: vec![] }),
        StorageOverride { slots: vec![], diff: false }
    );
    assert_eq!(
        StorageOverride::from(State::Diff { state_diff: vec![] }),
        StorageOverride { slots: vec![], diff: true }
    );
}

#[test]
fn repeated_slots_stay_in_the_order_given() {
    let state = State::Diff { state_diff: vec![(slot(1), word(1)), (slot(1), word(2))] };
    assert_eq!(
        StorageOverride::from(state).slots,
        vec![(slot(1), Uint::from_u64(1)), (slot(1), Uint::from_u64(2))]
    );
}

#[test]
fn account_override_passes_balance_nonce_and_code() {
    let address = Address::from_low_u64_be(0xabc);
    let code = Bytes::from(vec![0x60, 0x00]);
    let state_override = StateOverride {
        balance: Some(PermissiveUint::parse("1000").unwrap()),
        nonce: Some(7),
        code: Some(code.clone()),
        state: Some(State::Full { state: vec![(slot(1), word(5))] }),
    };
    assert_eq!(
        account_override(address, state_override),
        AccountOverride {
            address,
            balance: Some(Uint::from_u64(1000)),
            nonce: Some(7),
            code: Some(code),
            storage: Some(StorageOverride { slots: vec![(slot(1), Uint::from_u64(5))], diff: false }),
        }
    );
}

#[test]
fn empty_account_override_stays_empty() {
    let address = Address::from_low_u64_be(1);
    let state_override = StateOverride { balance: None, nonce: None, code: None, state: None };
    assert_eq!(
        account_override(address, state_override),
        AccountOverride { address, balance: None, nonce: None, code: None, storage: None }
    );
}

fn node(kind: CallKind, caller: u64, address: u64, value: u64) -> CallTraceNode {
    CallTraceNode {
        kind,
        caller: Address::from_low_u64_be(caller),
        address: Address::from_low_u64_be(address),
        value: Uint::from_u64(value),
    }
}

fn result(trace: Option<Vec<CallTraceNode>>, formatted_trace: Option<&str>) -> CallRawResult {
    CallRawResult {
        gas_used: 21000,
        block_number: 100,
        success: true,
        trace,
        logs: vec![Log { address: Address::from_low_u64_be(9), ..Log::default() }],
        exit_reason: InstructionResult::Return,
        return_data: Bytes::from(vec![1, 2, 3]),
        formatted_trace: formatted_trace.map(str::to_string),
    }
}

#[test]
fn response_copies_the_result_and_keeps_the_order_of_the_trace() {
    let trace = vec![
        node(CallKind::Call, 1, 2, 5),
        node(CallKind::DelegateCall, 2, 3, 0),
        node(CallKind::StaticCall, 3, 4, 0),
    ];
    assert_eq!(
        assemble(result(Some(trace), Some("trace")), true),
        SimulationResponse {
            simulation_id: 1,
            gas_used: 21000,
            block_number: 100,
            success: true,
            trace: vec![
                CallTrace {
                    call_type: CallKind::Call,
                    from: Address::from_low_u64_be(1),
                    to: Address::from_low_u64_be(2),
                    value: Uint::from_u64(5),
                },
                CallTrace {
                    call_type: CallKind::DelegateCall,
                    from: Address::from_low_u64_be(2),
                    to: Address::from_low_u64_be(3),
                    value: Uint::from_u64(0),
                },
                CallTrace {
                    call_type: CallKind::StaticCall,
                    from: Address::from_low_u64_be(3),
                    to: Address::from_low_u64_be(4),
                    value: Uint::from_u64(0),
                },
            ],
            formatted_trace: Some("trace".to_string()),
            logs: vec![Log { address: Address::from_low_u64_be(9), ..Log::default() }],
            exit_reason: InstructionResult::Return,
            return_data: Bytes::from(vec![1, 2, 3]),
        }
    );
}

#[test]
fn response_without_a_recorded_trace_has_no_entries() {
    let response = assemble(result(None, None), false);
    assert!(response.trace.is_empty());
    assert_eq!(response.formatted_trace, None);
    assert_eq!(response.simulation_id, 1);
}

#[test]
fn formatted_trace_is_handed_on_only_on_request() {
    assert_eq!(assemble(result(None, Some("text")), false).formatted_trace, None);
    assert_eq!(assemble(result(None, Some("text")), true).formatted_trace, Some("text".to_string()));
    assert_eq!(assemble(result(None, None), true).formatted_trace, None);
}

#[test]
fn call_trace_of_a_recorded_frame() {
    assert_eq!(
        CallTrace::from(&node(CallKind::Create2, 7, 8, 9)),
        CallTrace {
            call_type: CallKind::Create2,
            from: Address::from_low_u64_be(7),
            to: Address::from_low_u64_be(8),
            value: Uint::from_u64(9),
        }
    );
}

#[test]
fn fork_is_made_from_the_resolved_endpoint() {
    assert_eq!(
        fork_parameters(1, Some(100), 30_000_000, &config(None, Some("key"))),
        Ok(ForkParameters {
            fork_url: "http://operator".to_string(),
            block_number: Some(100),
            gas_limit: 30_000_000,
            tracing: true,
            etherscan_key: Some("key".to_string()),
        })
    );
    assert_eq!(
        fork_parameters(10, None, 5, &config(None, None)),
        Ok(ForkParameters {
            fork_url: "https://optimism.drpc.org".to_string(),
            block_number: None,
            gas_limit: 5,
            tracing: true,
            etherscan_key: None,
        })
    );
}

#[test]
fn configured_fork_endpoint_leaves_the_chain_unresolved() {
    let config = config(Some("http://fork"), None);
    assert_eq!(fork_parameters(1, None, 1, &config).unwrap().fork_url, "http://fork");
    assert_eq!(fork_parameters(999_999, None, 1, &config).unwrap().fork_url, "http://fork");
}

#[test]
fn fork_for_an_unknown_chain_is_refused() {
    assert_eq!(
        fork_parameters(999_999, None, 1, &config(None, None)),
        Err(SimulationError::NoURLForChainId)
    );
}
