//! The host functions: everything bytecode can ask of the state it runs on.
//!
//! Each function takes the state of the running invocation and integers, and
//! returns an integer or nothing. The spec functions on [`StateView`] say what
//! each does; the laws at the end say what follows for whole runs of calls.

use crate::state::{ContractState, StateView};
use vstd::prelude::*;

verus! {

broadcast use vstd::std_specs::hash::group_hash_axioms;

/// First constant of the mixer: added to the sum of the two inputs.
pub const MIX_INCREMENT: u64 = 0x9E3779B97F4A7C15;

/// Multiplier of the first scrambling round.
pub const MIX_FACTOR_ONE: u64 = 0xBF58476D1CE4E5B9;

/// Multiplier of the second scrambling round.
pub const MIX_FACTOR_TWO: u64 = 0x94D049BB133111EB;

/// The 64-bit word that an integer wraps to.
pub open spec fn wrap64(n: int) -> u64 {
    (n % 0x1_0000_0000_0000_0000) as u64
}

/// One scrambling round: fold the high bits down, then multiply with
/// wraparound.
pub open spec fn scramble(x: u64, shift: u64, factor: u64) -> u64 {
    wrap64((x ^ (x >> shift)) * factor)
}

/// The signed integer with the same 64 bits as `x`.
pub open spec fn signed64(x: u64) -> i64 {
    if x >= 0x8000_0000_0000_0000 {
        (x - 0x1_0000_0000_0000_0000) as i64
    } else {
        x as i64
    }
}

/// The mix of two integers: their sum plus the increment, wrapped to 64
/// bits; two scrambling rounds; a last fold; read as a signed integer.
pub open spec fn mix(a: i64, b: i64) -> i64 {
    let x0 = wrap64(a + b + MIX_INCREMENT);
    let x1 = scramble(x0, 30, MIX_FACTOR_ONE);
    let x2 = scramble(x1, 27, MIX_FACTOR_TWO);
    signed64(x2 ^ (x2 >> 31))
}

impl StateView {
    /// The value stored under `key`, zero where nothing is stored.
    pub open spec fn read(self, key: i64) -> i64 {
        if self.storage.contains_key(key) {
            self.storage[key]
        } else {
            0
        }
    }

    /// The state after `value` is stored under `key`.
    pub open spec fn write(self, key: i64, value: i64) -> StateView {
        StateView { storage: self.storage.insert(key, value), ..self }
    }

    /// The state after the event `(id, payload)` is emitted.
    pub open spec fn emit(self, id: i64, payload: i64) -> StateView {
        StateView { events: self.events.push((id, payload)), ..self }
    }
}

/// The identifier of the invoking principal.
pub fn get_caller(state: &ContractState) -> (caller: i64)
    ensures
        caller == state@.caller,
{
    state.caller
}

/// The amount that comes with the call.
pub fn get_value(state: &ContractState) -> (value: i64)
    ensures
        value == state@.value,
{
    state.value
}

/// The opaque data handle of the call.
pub fn get_data(state: &ContractState) -> (data: i64)
    ensures
        data == state@.data,
{
    state.data
}

/// The value stored under `key`, or zero if none is.
pub fn storage_read(state: &ContractState, key: i64) -> (value: i64)
    ensures
        value == state@.read(key),
{
    match state.storage.get(&key) {
        Some(value) => *value,
        None => 0,
    }
}

/// Stores `value` under `key`, in place of what was stored there.
pub fn storage_write(state: &mut ContractState, key: i64, value: i64)
    ensures
        final(state)@ == old(state)@.write(key, value),
{
    state.storage.insert(key, value);
}

/// Appends the event `(id, payload)` to the log.
pub fn emit_event(state: &mut ContractState, id: i64, payload: i64)
    ensures
        final(state)@ == old(state)@.emit(id, payload),
{
    state.events.push((id, payload));
}

/// A 64-bit word that differs from `n` by a multiple of two to the 64th is
/// the word that `n` wraps to.
proof fn lemma_wrap64_of_shifted(n: int, word: u64, turns: int)
    requires
        word == n + turns * 0x1_0000_0000_0000_0000,
    ensures
        wrap64(n) == word,
{
    vstd::arithmetic::div_mod::lemma_fundamental_div_mod_converse(
        n,
        0x1_0000_0000_0000_0000,
        -turns,
        word as int,
    );
}

/// Mixes two integers into one, the same on every host and in every run.
pub fn hash_i64(a: i64, b: i64) -> (hash: i64)
    ensures
        hash == mix(a, b),
{
    let ua = a as u64;
    let ub = b as u64;
    let sum = ua.wrapping_add(ub);
    let x0 = sum.wrapping_add(MIX_INCREMENT);
    proof {
        let ta: int = if a < 0 { 1 } else { 0 };
        let tb: int = if b < 0 { 1 } else { 0 };
        assert(ua == (if a < 0 { a + 0x1_0000_0000_0000_0000 } else { a as int })) by (bit_vector)
            requires
                ua == a as u64,
        ;
        assert(ub == (if b < 0 { b + 0x1_0000_0000_0000_0000 } else { b as int })) by (bit_vector)
            requires
                ub == b as u64,
        ;
        let ts: int = if ua + ub > u64::MAX { -1 } else { 0 };
        let tx: int = if sum + MIX_INCREMENT > u64::MAX { -1 } else { 0 };
        lemma_wrap64_of_shifted(a + b + MIX_INCREMENT, x0, ta + tb + ts + tx);
    }
    let y0 = x0 ^ (x0 >> 30);
    let x1 = y0.wrapping_mul(MIX_FACTOR_ONE);
    let y1 = x1 ^ (x1 >> 27);
    let x2 = y1.wrapping_mul(MIX_FACTOR_TWO);
    let x3 = x2 ^ (x2 >> 31);
    let hash = x3 as i64;
    assert(hash == signed64(x3)) by (bit_vector)
        requires
            hash == x3 as i64,
    ;
    hash
}

/// The mix is a function of its two inputs: two calls on the same inputs
/// return the same value, whenever and wherever they are made.
pub proof fn lemma_hash_repeats(a: i64, b: i64, first: i64, second: i64)
    requires
        call_ensures(hash_i64, (a, b), first),
        call_ensures(hash_i64, (a, b), second),
    ensures
        first == second,
        first == mix(a, b),
{
}

/// One call of a host function, with its arguments.
pub enum HostCall {
    GetCaller,
    GetValue,
    GetData,
    StorageRead { key: i64 },
    StorageWrite { key: i64, value: i64 },
    EmitEvent { id: i64, payload: i64 },
    HashI64 { a: i64, b: i64 },
}

impl StateView {
    /// What `call` returns on this state; `None` for a call that returns
    /// nothing.
    pub open spec fn answer(self, call: HostCall) -> Option<i64> {
        match call {
            HostCall::GetCaller => Some(self.caller),
            HostCall::GetValue => Some(self.value),
            HostCall::GetData => Some(self.data),
            HostCall::StorageRead { key } => Some(self.read(key)),
            HostCall::StorageWrite { .. } => None,
            HostCall::EmitEvent { .. } => None,
            HostCall::HashI64 { a, b } => Some(mix(a, b)),
        }
    }

    /// The state after `call`.
    pub open spec fn after(self, call: HostCall) -> StateView {
        match call {
            HostCall::StorageWrite { key, value } => self.write(key, value),
            HostCall::EmitEvent { id, payload } => self.emit(id, payload),
            _ => self,
        }
    }

    /// The state after `calls`, made one after the other.
    pub open spec fn after_all(self, calls: Seq<HostCall>) -> StateView
        decreases calls.len(),
    {
        if calls.len() == 0 {
            self
        } else {
            self.after_all(calls.drop_last()).after(calls.last())
        }
    }
}

/// The events that `calls` emit, in the order of the calls.
pub open spec fn emitted(calls: Seq<HostCall>) -> Seq<(i64, i64)>
    decreases calls.len(),
{
    if calls.len() == 0 {
        Seq::empty()
    } else {
        match calls.last() {
            HostCall::EmitEvent { id, payload } => emitted(calls.drop_last()).push((id, payload)),
            _ => emitted(calls.drop_last()),
        }
    }
}

/// No call in `calls` writes under `key`.
pub open spec fn leaves_key(calls: Seq<HostCall>, key: i64) -> bool {
    forall|i: int|
        0 <= i < calls.len() ==> !(#[trigger] calls[i] matches HostCall::StorageWrite { key: k, .. }
            && k == key)
}

/// A key under which nothing was ever written reads as zero: on the empty
/// state, and on every state reached from one without the key by calls that
/// do not write under it.
pub proof fn lemma_unwritten_key_reads_zero(start: StateView, calls: Seq<HostCall>, key: i64)
    requires
        !start.storage.contains_key(key),
        leaves_key(calls, key),
    ensures
        StateView::empty().read(key) == 0,
        start.after_all(calls).read(key) == 0,
        !start.after_all(calls).storage.contains_key(key),
    decreases calls.len(),
{
    if calls.len() > 0 {
        let earlier = calls.drop_last();
        assert(leaves_key(earlier, key));
        lemma_unwritten_key_reads_zero(start, earlier, key);
    }
}

/// A read that follows a write under the same key returns the value written,
/// and a read under any other key returns what it returned before.
pub proof fn lemma_read_after_write(state: StateView, key: i64, value: i64, other: i64)
    ensures
        state.write(key, value).read(key) == value,
        other != key ==> state.write(key, value).read(other) == state.read(other),
{
}

/// Calls that do not write under a key leave what is read under it as the
/// last write made it.
pub proof fn lemma_write_lasts(state: StateView, key: i64, value: i64, calls: Seq<HostCall>)
    requires
        leaves_key(calls, key),
    ensures
        state.write(key, value).after_all(calls).read(key) == value,
    decreases calls.len(),
{
    if calls.len() > 0 {
        let earlier = calls.drop_last();
        assert(leaves_key(earlier, key));
        lemma_write_lasts(state, key, value, earlier);
    }
}

/// The event log after a run of calls is the log before it followed by the
/// events that the calls emitted, in call order: nothing is reordered and
/// nothing is lost.
pub proof fn lemma_events_in_call_order(start: StateView, calls: Seq<HostCall>)
    ensures
        start.after_all(calls).events == start.events + emitted(calls),
    decreases calls.len(),
{
    if calls.len() > 0 {
        lemma_events_in_call_order(start, calls.drop_last());
    }
}

/// Emitting the events of `events` one after the other appends exactly
/// `events` to the log.
pub proof fn lemma_emit_appends_in_order(start: StateView, events: Seq<(i64, i64)>)
    ensures
        emitted(events.map_values(|e: (i64, i64)| HostCall::EmitEvent { id: e.0, payload: e.1 }))
            == events,
        start.after_all(
            events.map_values(|e: (i64, i64)| HostCall::EmitEvent { id: e.0, payload: e.1 }),
        ).events == start.events + events,
    decreases events.len(),
{
    let calls = events.map_values(|e: (i64, i64)| HostCall::EmitEvent { id: e.0, payload: e.1 });
    if events.len() > 0 {
        let earlier = events.drop_last();
        lemma_emit_appends_in_order(start, earlier);
        assert(calls.drop_last() =~= earlier.map_values(
            |e: (i64, i64)| HostCall::EmitEvent { id: e.0, payload: e.1 },
        ));
    }
    lemma_events_in_call_order(start, calls);
}

/// No run of calls touches the caller, the value, the data handle or the
/// chain context, and none removes a key from storage.
pub proof fn lemma_calls_keep_context(start: StateView, calls: Seq<HostCall>)
    ensures
        start.after_all(calls).caller == start.caller,
        start.after_all(calls).value == start.value,
        start.after_all(calls).data == start.data,
        start.after_all(calls).solana == start.solana,
        start.storage.dom().subset_of(start.after_all(calls).storage.dom()),
    decreases calls.len(),
{
    if calls.len() > 0 {
        lemma_calls_keep_context(start, calls.drop_last());
    }
}

} // verus!
