use swiftsc_runtime::error::ExecError;
use swiftsc_runtime::host::hash_i64;
use swiftsc_runtime::simulator::{first_result, ContractSimulator};
use swiftsc_runtime::state::{ContractState, SolanaAccount, SolanaContext};
use swiftsc_runtime::vm::Word;

const CONTRACT: &str = r#"
(module
  (import "env" "get_caller" (func $get_caller (result i64)))
  (import "env" "get_value" (func $get_value (result i64)))
  (import "env" "get_data" (func $get_data (result i64)))
  (import "env" "storage_read" (func $storage_read (param i64) (result i64)))
  (import "env" "storage_write" (func $storage_write (param i64 i64)))
  (import "env" "emit_event" (func $emit_event (param i64 i64)))
  (import "env" "hash_i64" (func $hash_i64 (param i64 i64) (result i64)))
  (func (export "add") (param i64 i64) (result i64)
    local.get 0
    local.get 1
    i64.add)
  (func (export "caller") (result i64) call $get_caller)
  (func (export "value") (result i64) call $get_value)
  (func (export "data") (result i64) call $get_data)
  (func (export "store") (param i64 i64)
    local.get 0
    local.get 1
    call $storage_write)
  (func (export "load") (param i64) (result i64)
    local.get 0
    call $storage_read)
  (func (export "bump") (param i64) (result i64)
    local.get 0
    local.get 0
    call $storage_read
    i64.const 1
    i64.add
    call $storage_write
    local.get 0
    local.get 0
    call $storage_read
    call $emit_event
    local.get 0
    call $storage_read)
  (func (export "announce") (param i64 i64 i64 i64)
    local.get 0
    local.get 1
    call $emit_event
    local.get 2
    local.get 3
    call $emit_event)
  (func (export "mix") (param i64 i64) (result i64)
    local.get 0
    local.get 1
    call $hash_i64)
  (func (export "write_then_trap") (param i64 i64) (result i64)
    local.get 0
    local.get 1
    call $storage_write
    unreachable)
  (func (export "nothing"))
  (func (export "narrow") (result i32) i32.const 7)
  (func (export "takes_i32") (param i32) (result i64) i64.const 1)
  (func (export "boom") (result i64) unreachable)
  (global (export "not_a_function") i64 (i64.const 1))
)
"#;

fn contract() -> Vec<u8> {
    wat::parse_str(CONTRACT).unwrap()
}

fn run_on_empty(name: &str, args: &[i64]) -> Result<(i64, ContractState), ExecError> {
    ContractSimulator::new().run(&contract(), name, args, ContractState::default())
}

#[test]
fn first_result_reads_a_leading_integer() {
    assert_eq!(first_result(&[Word::I64(5)]), 5);
    assert_eq!(first_result(&[Word::I64(-9), Word::Other, Word::I64(3)]), -9);
}

#[test]
fn first_result_defaults_to_zero() {
    assert_eq!(first_result(&[]), 0);
    assert_eq!(first_result(&[Word::Other]), 0);
    assert_eq!(first_result(&[Word::Other, Word::I64(3)]), 0);
}

#[test]
fn runs_a_pure_function() {
    let (result, state) = run_on_empty("add", &[40, 2]).unwrap();
    assert_eq!(result, 42);
    assert!(state.storage.is_empty());
    assert!(state.events.is_empty());
    let (wrapped, _) = run_on_empty("add", &[i64::MAX, 1]).unwrap();
    assert_eq!(wrapped, i64::MIN);
}

#[test]
fn bytecode_reads_the_call_context() {
    let simulator = ContractSimulator::new();
    let state = ContractState { caller: 77, value: 1000, data: -3, ..ContractState::default() };
    let (caller, state) = simulator.run(&contract(), "caller", &[], state).unwrap();
    assert_eq!(caller, 77);
    let (value, state) = simulator.run(&contract(), "value", &[], state).unwrap();
    assert_eq!(value, 1000);
    let (data, state) = simulator.run(&contract(), "data", &[], state).unwrap();
    assert_eq!(data, -3);
    assert_eq!(state.caller, 77);
    assert_eq!(state.value, 1000);
    assert_eq!(state.data, -3);
}

#[test]
fn bytecode_writes_and_reads_storage() {
    let simulator = ContractSimulator::new();
    let (result, state) =
        simulator.run(&contract(), "store", &[7, 42], ContractState::default()).unwrap();
    assert_eq!(result, 0);
    assert_eq!(state.storage.get(&7), Some(&42));
    assert_eq!(state.storage.len(), 1);
    let (seven, state) = simulator.run(&contract(), "load", &[7], state).unwrap();
    assert_eq!(seven, 42);
    let (eight, state) = simulator.run(&contract(), "load", &[8], state).unwrap();
    assert_eq!(eight, 0);
    assert_eq!(state.storage.len(), 1);
}

#[test]
fn state_is_carried_only_by_the_caller() {
    let simulator = ContractSimulator::new();
    let (first, state) = simulator.run(&contract(), "bump", &[5], ContractState::default()).unwrap();
    assert_eq!(first, 1);
    let (second, state) = simulator.run(&contract(), "bump", &[5], state).unwrap();
    assert_eq!(second, 2);
    assert_eq!(state.events, vec![(5, 1), (5, 2)]);
    // A fresh state shows nothing of the earlier runs.
    let (fresh, fresh_state) =
        simulator.run(&contract(), "bump", &[5], ContractState::default()).unwrap();
    assert_eq!(fresh, 1);
    assert_eq!(fresh_state.events, vec![(5, 1)]);
    assert_eq!(state.storage.get(&5), Some(&2));
}

#[test]
fn bytecode_emits_events_in_call_order() {
    let start = ContractState { events: vec![(0, 0)], ..ContractState::default() };
    let (result, state) =
        ContractSimulator::new().run(&contract(), "announce", &[9, 90, 1, 10], start).unwrap();
    assert_eq!(result, 0);
    assert_eq!(state.events, vec![(0, 0), (9, 90), (1, 10)]);
}

#[test]
fn bytecode_hash_is_the_host_hash() {
    let (result, _) = run_on_empty("mix", &[3, 4]).unwrap();
    assert_eq!(result, 7191089600892374487);
    assert_eq!(result, hash_i64(3, 4));
    let (again, _) = run_on_empty("mix", &[3, 4]).unwrap();
    assert_eq!(again, result);
    let (negative, _) = run_on_empty("mix", &[-1, -1]).unwrap();
    assert_eq!(negative, -927672734069774303);
}

#[test]
fn a_function_without_result_gives_zero() {
    let (result, state) = run_on_empty("nothing", &[]).unwrap();
    assert_eq!(result, 0);
    assert!(state.storage.is_empty());
}

#[test]
fn a_result_of_another_type_gives_zero() {
    let (result, _) = run_on_empty("narrow", &[]).unwrap();
    assert_eq!(result, 0);
}

#[test]
fn the_chain_context_passes_through() {
    let account = SolanaAccount {
        address: 5,
        owner: 2,
        data: vec![1, 2, 3],
        lamports: 10,
        is_signer: true,
        is_writable: true,
    };
    let start = ContractState {
        solana: Some(SolanaContext { accounts: vec![account], program_id: 1 }),
        ..ContractState::default()
    };
    let (_, state) = ContractSimulator::new().run(&contract(), "store", &[1, 2], start).unwrap();
    let context = state.solana.unwrap();
    assert_eq!(context.program_id, 1);
    assert_eq!(context.accounts.len(), 1);
    assert_eq!(context.accounts[0].address, 5);
    assert_eq!(context.accounts[0].owner, 2);
    assert_eq!(context.accounts[0].data, vec![1, 2, 3]);
    assert_eq!(context.accounts[0].lamports, 10);
    assert!(context.accounts[0].is_signer);
    assert!(context.accounts[0].is_writable);
}

#[test]
fn malformed_bytecode_fails_to_load_with_a_dump() {
    let bytes = [0xde, 0xad, 0xbe, 0xef];
    match ContractSimulator::new().run(&bytes, "add", &[1, 2], ContractState::default()) {
        Err(ExecError::Load { detail, dump }) => {
            assert!(!detail.is_empty());
            assert_eq!(dump, "deadbeef");
        }
        other => panic!("not a load failure: {:?}", other),
    }
}

#[test]
fn empty_bytecode_fails_to_load() {
    match ContractSimulator::new().run(&[], "add", &[], ContractState::default()) {
        Err(ExecError::Load { dump, .. }) => assert_eq!(dump, ""),
        other => panic!("not a load failure: {:?}", other),
    }
}

#[test]
fn invalid_bytecode_fails_to_load() {
    // Well-formed, but the function leaves an i32 where an i64 is declared.
    let text = "(module (func (export \"f\") (result i64) i32.const 1))";
    let bytes = wat::parse_str(text).unwrap();
    match ContractSimulator::new().run(&bytes, "f", &[], ContractState::default()) {
        Err(ExecError::Load { dump, .. }) => {
            assert_eq!(dump.len(), 2 * bytes.len());
            assert!(dump.starts_with("0061736d01000000"));
        }
        other => panic!("not a load failure: {:?}", other),
    }
}

#[test]
fn an_unknown_import_fails_instantiation() {
    let text = "(module (import \"env\" \"no_such_function\" (func)) (func (export \"f\")))";
    let bytes = wat::parse_str(text).unwrap();
    match ContractSimulator::new().run(&bytes, "f", &[], ContractState::default()) {
        Err(ExecError::Instantiate { detail }) => assert!(detail.contains("no_such_function")),
        other => panic!("not an instantiation failure: {:?}", other),
    }
}

#[test]
fn an_import_from_another_module_fails_instantiation() {
    let text = "(module (import \"host\" \"get_caller\" (func (result i64))) (func (export \"f\")))";
    let bytes = wat::parse_str(text).unwrap();
    let outcome = ContractSimulator::new().run(&bytes, "f", &[], ContractState::default());
    assert!(matches!(outcome, Err(ExecError::Instantiate { .. })));
}

#[test]
fn an_import_with_another_signature_fails_instantiation() {
    for import in [
        "(import \"env\" \"get_caller\" (func (param i64) (result i64)))",
        "(import \"env\" \"get_value\" (func (result i32)))",
        "(import \"env\" \"get_data\" (func))",
        "(import \"env\" \"storage_read\" (func (param i64 i64) (result i64)))",
        "(import \"env\" \"storage_write\" (func (param i64 i64) (result i64)))",
        "(import \"env\" \"emit_event\" (func (param i64)))",
        "(import \"env\" \"hash_i64\" (func (param i64 i64)))",
    ] {
        let text = format!("(module {} (func (export \"f\")))", import);
        let bytes = wat::parse_str(&text).unwrap();
        let outcome = ContractSimulator::new().run(&bytes, "f", &[], ContractState::default());
        assert!(matches!(outcome, Err(ExecError::Instantiate { .. })), "{}", import);
    }
}

#[test]
fn a_trapping_start_function_fails_the_start() {
    let text = "(module (func $init unreachable) (start $init) (func (export \"f\") (result i64) i64.const 1))";
    let bytes = wat::parse_str(text).unwrap();
    match ContractSimulator::new().run(&bytes, "f", &[], ContractState::default()) {
        Err(ExecError::Start { detail }) => assert!(!detail.is_empty()),
        other => panic!("not a start failure: {:?}", other),
    }
}

#[test]
fn the_start_function_runs_before_the_call() {
    let text = r#"
    (module
      (import "env" "storage_write" (func $storage_write (param i64 i64)))
      (import "env" "storage_read" (func $storage_read (param i64) (result i64)))
      (func $init
        i64.const 1
        i64.const 99
        call $storage_write)
      (start $init)
      (func (export "get") (result i64)
        i64.const 1
        call $storage_read))
    "#;
    let bytes = wat::parse_str(text).unwrap();
    let (result, state) =
        ContractSimulator::new().run(&bytes, "get", &[], ContractState::default()).unwrap();
    assert_eq!(result, 99);
    assert_eq!(state.storage.get(&1), Some(&99));
}

#[test]
fn a_missing_function_is_not_found() {
    match run_on_empty("no_such_export", &[]) {
        Err(ExecError::NotFound { name }) => assert_eq!(name, "no_such_export"),
        other => panic!("not a missing function: {:?}", other),
    }
}

#[test]
fn an_export_that_is_no_function_is_not_found() {
    match run_on_empty("not_a_function", &[]) {
        Err(ExecError::NotFound { name }) => assert_eq!(name, "not_a_function"),
        other => panic!("not a missing function: {:?}", other),
    }
}

#[test]
fn a_trap_fails_the_call() {
    match run_on_empty("boom", &[]) {
        Err(ExecError::Call { detail }) => assert!(!detail.is_empty()),
        other => panic!("not a call failure: {:?}", other),
    }
}

#[test]
fn a_trap_after_a_write_returns_no_state() {
    let outcome = run_on_empty("write_then_trap", &[1, 2]);
    assert!(matches!(outcome, Err(ExecError::Call { .. })));
}

#[test]
fn wrong_arguments_fail_the_call() {
    assert!(matches!(run_on_empty("add", &[1]), Err(ExecError::Call { .. })));
    assert!(matches!(run_on_empty("add", &[1, 2, 3]), Err(ExecError::Call { .. })));
    assert!(matches!(run_on_empty("takes_i32", &[1]), Err(ExecError::Call { .. })));
    assert!(matches!(run_on_empty("nothing", &[1]), Err(ExecError::Call { .. })));
}

#[test]
fn one_simulator_serves_many_calls() {
    let simulator = ContractSimulator::default();
    let bytes = contract();
    for n in 0..20i64 {
        let (result, _) = simulator.run(&bytes, "add", &[n, n], ContractState::default()).unwrap();
        assert_eq!(result, 2 * n);
    }
    assert!(simulator.run(&[1], "add", &[], ContractState::default()).is_err());
    let (result, _) = simulator.run(&bytes, "add", &[1, 1], ContractState::default()).unwrap();
    assert_eq!(result, 2);
}

fn shareable<T: Send + Sync>(_value: &T) -> bool {
    true
}

#[test]
fn one_simulator_can_be_shared_between_threads() {
    let simulator = ContractSimulator::new();
    assert!(shareable(&simulator));
}

#[test]
fn runs_do_not_see_each_other() {
    let simulator = ContractSimulator::new();
    let bytes = contract();
    let left = ContractState { caller: 1, ..ContractState::default() };
    let right = ContractState { caller: 2, ..ContractState::default() };
    let (_, left) = simulator.run(&bytes, "store", &[1, 100], left).unwrap();
    let (_, right) = simulator.run(&bytes, "store", &[1, 200], right).unwrap();
    let (seen_left, left) = simulator.run(&bytes, "load", &[1], left).unwrap();
    let (seen_right, right) = simulator.run(&bytes, "load", &[1], right).unwrap();
    assert_eq!(seen_left, 100);
    assert_eq!(seen_right, 200);
    assert_eq!(left.caller, 1);
    assert_eq!(right.caller, 2);
}

#[test]
fn a_host_function_can_be_exported_again() {
    let text = r#"
    (module
      (import "env" "get_caller" (func $get_caller (result i64)))
      (import "env" "hash_i64" (func $hash_i64 (param i64 i64) (result i64)))
      (export "who" (func $get_caller))
      (export "mix" (func $hash_i64)))
    "#;
    let bytes = wat::parse_str(text).unwrap();
    let simulator = ContractSimulator::new();
    let state = ContractState { caller: 9, ..ContractState::default() };
    let (who, state) = simulator.run(&bytes, "who", &[], state).unwrap();
    assert_eq!(who, 9);
    let (mixed, _) = simulator.run(&bytes, "mix", &[3, 4], state).unwrap();
    assert_eq!(mixed, hash_i64(3, 4));
}
