use swiftsc_runtime::host::{
    emit_event, get_caller, get_data, get_value, hash_i64, storage_read, storage_write,
};
use swiftsc_runtime::state::{ContractState, SolanaAccount, SolanaContext};

#[test]
fn default_state_is_empty() {
    let state = ContractState::default();
    assert!(state.storage.is_empty());
    assert_eq!(state.caller, 0);
    assert_eq!(state.value, 0);
    assert_eq!(state.data, 0);
    assert!(state.events.is_empty());
    assert!(state.solana.is_none());
}

#[test]
fn default_chain_context_is_empty() {
    let context = SolanaContext::default();
    assert!(context.accounts.is_empty());
    assert_eq!(context.program_id, 0);
    let account = SolanaAccount::default();
    assert_eq!(account.address, 0);
    assert_eq!(account.owner, 0);
    assert!(account.data.is_empty());
    assert_eq!(account.lamports, 0);
    assert!(!account.is_signer);
    assert!(!account.is_writable);
}

#[test]
fn context_getters_return_the_fields() {
    let state = ContractState { caller: 11, value: -22, data: i64::MIN, ..ContractState::default() };
    assert_eq!(get_caller(&state), 11);
    assert_eq!(get_value(&state), -22);
    assert_eq!(get_data(&state), i64::MIN);
}

#[test]
fn unwritten_keys_read_zero() {
    let mut state = ContractState::default();
    for key in [0i64, 1, -1, 7, 8, i64::MAX, i64::MIN] {
        assert_eq!(storage_read(&state, key), 0);
    }
    storage_write(&mut state, 7, 42);
    emit_event(&mut state, 1, 2);
    for key in [0i64, 1, -1, 8, i64::MAX, i64::MIN] {
        assert_eq!(storage_read(&state, key), 0);
    }
}

#[test]
fn write_then_read() {
    let mut state = ContractState::default();
    storage_write(&mut state, 7, 42);
    assert_eq!(storage_read(&state, 7), 42);
    assert_eq!(storage_read(&state, 8), 0);
}

#[test]
fn write_then_read_for_many_keys_and_values() {
    let mut state = ContractState::default();
    let keys = [0i64, 1, -1, 7, i64::MAX, i64::MIN];
    let values = [0i64, 5, -5, i64::MAX, i64::MIN];
    for key in keys {
        for value in values {
            storage_write(&mut state, key, value);
            assert_eq!(storage_read(&state, key), value);
        }
    }
    assert_eq!(state.storage.len(), keys.len());
}

#[test]
fn a_write_replaces_and_leaves_other_keys() {
    let mut state = ContractState::default();
    storage_write(&mut state, 1, 10);
    storage_write(&mut state, 2, 20);
    storage_write(&mut state, 1, 11);
    assert_eq!(storage_read(&state, 1), 11);
    assert_eq!(storage_read(&state, 2), 20);
    assert_eq!(state.storage.len(), 2);
}

#[test]
fn a_written_zero_is_stored() {
    let mut state = ContractState::default();
    storage_write(&mut state, 3, 0);
    assert_eq!(storage_read(&state, 3), 0);
    assert!(state.storage.contains_key(&3));
}

#[test]
fn writes_touch_nothing_but_storage() {
    let mut state = ContractState { caller: 1, value: 2, data: 3, ..ContractState::default() };
    emit_event(&mut state, 9, 9);
    storage_write(&mut state, 5, 6);
    assert_eq!(state.caller, 1);
    assert_eq!(state.value, 2);
    assert_eq!(state.data, 3);
    assert_eq!(state.events, vec![(9, 9)]);
    assert!(state.solana.is_none());
}

#[test]
fn events_keep_call_order() {
    let mut state = ContractState::default();
    let calls = [(3i64, 30i64), (1, 10), (2, 20), (1, 10), (i64::MIN, i64::MAX)];
    for (id, payload) in calls {
        emit_event(&mut state, id, payload);
    }
    assert_eq!(state.events, calls.to_vec());
}

#[test]
fn events_are_appended_to_an_earlier_log() {
    let mut state = ContractState { events: vec![(1, 1), (2, 2)], ..ContractState::default() };
    emit_event(&mut state, 3, 3);
    storage_write(&mut state, 0, 0);
    emit_event(&mut state, 4, 4);
    assert_eq!(state.events, vec![(1, 1), (2, 2), (3, 3), (4, 4)]);
    assert!(state.storage.len() == 1);
}

#[test]
fn hash_known_values() {
    assert_eq!(hash_i64(3, 4), 7191089600892374487);
    assert_eq!(hash_i64(4, 3), 7191089600892374487);
    assert_eq!(hash_i64(0, 0), -2152535657050944081);
    assert_eq!(hash_i64(0, 1), -7995527694508729151);
    assert_eq!(hash_i64(1, 2), 2092789425003139053);
    assert_eq!(hash_i64(7, 42), 2038608524547893592);
    assert_eq!(hash_i64(-1, -1), -927672734069774303);
}

#[test]
fn hash_wraps_around() {
    // -1 + 1 wraps to 0, and twice the smallest integer does too.
    assert_eq!(hash_i64(-1, 1), hash_i64(0, 0));
    assert_eq!(hash_i64(i64::MIN, i64::MIN), -2152535657050944081);
    assert_eq!(hash_i64(i64::MAX, i64::MAX), -927672734069774303);
}

#[test]
fn hash_is_repeatable() {
    assert_eq!(hash_i64(3, 4), hash_i64(3, 4));
    for a in [-5i64, 0, 1, 1 << 40, i64::MAX] {
        for b in [-7i64, 0, 3, i64::MIN] {
            assert_eq!(hash_i64(a, b), hash_i64(a, b));
        }
    }
}
