//! The boundary to the interpreter.
//!
//! Everything here is believed, not proved: the interpreter's types, a few
//! names for what its values hold, and one thin function around each of its
//! functions that the harness calls. The contracts say only what keeps those
//! calls from panicking (values made for one engine and one store stay
//! together) and what the linker has bound.

use crate::host;
use crate::state::ContractState;
use vstd::prelude::*;
use wasmi::errors::LinkerError;
use wasmi::{Caller, Engine, Func, Instance, InstancePre, Linker, Module, Store, Value};

verus! {

/// `wasmi::Engine`: the interpreter, a handle that is cheap to copy. Opaque.
#[verifier::external_type_specification]
#[verifier::external_body]
pub struct ExEngine(wasmi::Engine);

/// `wasmi::Linker`: the definitions that imports are resolved against.
/// Opaque but for [`linker_names`] and [`linker_engine`].
#[verifier::external_type_specification]
#[verifier::external_body]
#[verifier::reject_recursive_types(T)]
pub struct ExLinker<T>(wasmi::Linker<T>);

/// `wasmi::Store`: everything one instantiation owns, the host state
/// included. Opaque but for [`store_index`] and [`store_engine`].
#[verifier::external_type_specification]
#[verifier::external_body]
#[verifier::reject_recursive_types(T)]
pub struct ExStore<T>(wasmi::Store<T>);

/// `wasmi::Module`: bytecode that has been decoded and validated. Opaque
/// but for [`module_engine`].
#[verifier::external_type_specification]
#[verifier::external_body]
pub struct ExModule(wasmi::Module);

/// `wasmi::InstancePre`: an instance whose start function has not run yet.
/// Opaque but for [`pending_owner`].
#[verifier::external_type_specification]
#[verifier::external_body]
pub struct ExInstancePre(wasmi::InstancePre);

/// `wasmi::Instance`: a handle to an instance in a store. Opaque but for
/// [`instance_owner`].
#[verifier::external_type_specification]
#[verifier::external_body]
pub struct ExInstance(wasmi::Instance);

/// `wasmi::Func`: a handle to a function in a store. Opaque but for
/// [`func_owner`].
#[verifier::external_type_specification]
#[verifier::external_body]
pub struct ExFunc(wasmi::Func);

/// `wasmi::Error`: any failure of the interpreter. Opaque; [`error_text`]
/// gives its words.
#[verifier::external_type_specification]
#[verifier::external_body]
pub struct ExError(wasmi::Error);

/// `wasmi::errors::LinkerError`: a failure to define or resolve a name.
/// Opaque.
#[verifier::external_type_specification]
#[verifier::external_body]
pub struct ExLinkerError(wasmi::errors::LinkerError);

/// The module and item names under which a linker holds a definition.
pub uninterp spec fn linker_names(linker: Linker<ContractState>) -> Set<(Seq<char>, Seq<char>)>;

/// The engine that a linker was made for: what `Linker::engine` returns.
pub uninterp spec fn linker_engine(linker: Linker<ContractState>) -> Engine;

/// The engine that a module was compiled for: what `Module::engine` returns.
pub uninterp spec fn module_engine(module: Module) -> Engine;

/// The engine that a store was made for: what `Store::engine` returns.
pub uninterp spec fn store_engine(store: Store<ContractState>) -> Engine;

/// The index that sets a store apart from every other store. Each handle
/// into a store carries the index of the store that owns it.
pub uninterp spec fn store_index(store: Store<ContractState>) -> nat;

/// The index of the store that owns an instance still to be started.
pub uninterp spec fn pending_owner(pending: InstancePre) -> nat;

/// The index of the store that owns an instance.
pub uninterp spec fn instance_owner(instance: Instance) -> nat;

/// The index of the store that owns a function.
pub uninterp spec fn func_owner(func: Func) -> nat;

/// A store is still the same store, for the same engine.
pub open spec fn same_store(before: Store<ContractState>, after: Store<ContractState>) -> bool {
    store_index(after) == store_index(before) && store_engine(after) == store_engine(before)
}

/// What binding a host function under `module` and `name` does to a linker:
/// it succeeds exactly when the linker holds nothing under that name yet,
/// and then holds that name too; a failure leaves the names as they were.
pub open spec fn binds(
    before: Linker<ContractState>,
    after: Linker<ContractState>,
    outcome: Result<(), LinkerError>,
    module: Seq<char>,
    name: Seq<char>,
) -> bool {
    &&& linker_engine(after) == linker_engine(before)
    &&& outcome is Ok <==> !linker_names(before).contains((module, name))
    &&& linker_names(after) == if outcome is Ok {
        linker_names(before).insert((module, name))
    } else {
        linker_names(before)
    }
}

/// One word that a function returns, as far as the harness reads it: a
/// 64-bit integer, or a value of another type.
#[derive(Debug, Clone, Copy)]
pub enum Word {
    I64(i64),
    Other,
}

/// `Engine::default`: a new engine with the default configuration.
#[verifier::external_body]
pub(crate) fn new_engine() -> (engine: Engine) {
    Engine::default()
}

/// `Linker::new`: a linker for `engine` that holds no definition.
#[verifier::external_body]
pub(crate) fn new_linker(engine: &Engine) -> (linker: Linker<ContractState>)
    ensures
        linker_names(linker) == Set::<(Seq<char>, Seq<char>)>::empty(),
        linker_engine(linker) == *engine,
{
    Linker::new(engine)
}

/// `Linker::func_wrap` with a function of no argument that returns
/// [`host::get_caller`] of the running state. It fails only on a name that
/// is already defined.
#[verifier::external_body]
pub(crate) fn bind_get_caller(linker: &mut Linker<ContractState>, module: &str, name: &str) -> (outcome:
    Result<(), LinkerError>)
    ensures
        binds(*old(linker), *final(linker), outcome, module@, name@),
{
    linker.func_wrap(
        module,
        name,
        |caller: Caller<'_, ContractState>| -> i64 { host::get_caller(caller.data()) },
    ).map(|_| ())
}

/// `Linker::func_wrap` with a function of no argument that returns
/// [`host::get_value`] of the running state. It fails only on a name that
/// is already defined.
#[verifier::external_body]
pub(crate) fn bind_get_value(linker: &mut Linker<ContractState>, module: &str, name: &str) -> (outcome:
    Result<(), LinkerError>)
    ensures
        binds(*old(linker), *final(linker), outcome, module@, name@),
{
    linker.func_wrap(
        module,
        name,
        |caller: Caller<'_, ContractState>| -> i64 { host::get_value(caller.data()) },
    ).map(|_| ())
}

/// `Linker::func_wrap` with a function of no argument that returns
/// [`host::get_data`] of the running state. It fails only on a name that is
/// already defined.
#[verifier::external_body]
pub(crate) fn bind_get_data(linker: &mut Linker<ContractState>, module: &str, name: &str) -> (outcome:
    Result<(), LinkerError>)
    ensures
        binds(*old(linker), *final(linker), outcome, module@, name@),
{
    linker.func_wrap(
        module,
        name,
        |caller: Caller<'_, ContractState>| -> i64 { host::get_data(caller.data()) },
    ).map(|_| ())
}

/// `Linker::func_wrap` with a function of one integer that returns
/// [`host::storage_read`] on the running state. It fails only on a name that
/// is already defined.
#[verifier::external_body]
pub(crate) fn bind_storage_read(linker: &mut Linker<ContractState>, module: &str, name: &str) -> (outcome:
    Result<(), LinkerError>)
    ensures
        binds(*old(linker), *final(linker), outcome, module@, name@),
{
    linker.func_wrap(
        module,
        name,
        |caller: Caller<'_, ContractState>, key: i64| -> i64 {
            host::storage_read(caller.data(), key)
        },
    ).map(|_| ())
}

/// `Linker::func_wrap` with a function of two integers that calls
/// [`host::storage_write`] on the running state. It fails only on a name
/// that is already defined.
#[verifier::external_body]
pub(crate) fn bind_storage_write(linker: &mut Linker<ContractState>, module: &str, name: &str) -> (outcome:
    Result<(), LinkerError>)
    ensures
        binds(*old(linker), *final(linker), outcome, module@, name@),
{
    linker.func_wrap(
        module,
        name,
        |mut caller: Caller<'_, ContractState>, key: i64, value: i64| {
            host::storage_write(caller.data_mut(), key, value)
        },
    ).map(|_| ())
}

/// `Linker::func_wrap` with a function of two integers that calls
/// [`host::emit_event`] on the running state. It fails only on a name that
/// is already defined.
#[verifier::external_body]
pub(crate) fn bind_emit_event(linker: &mut Linker<ContractState>, module: &str, name: &str) -> (outcome:
    Result<(), LinkerError>)
    ensures
        binds(*old(linker), *final(linker), outcome, module@, name@),
{
    linker.func_wrap(
        module,
        name,
        |mut caller: Caller<'_, ContractState>, id: i64, payload: i64| {
            host::emit_event(caller.data_mut(), id, payload)
        },
    ).map(|_| ())
}

/// `Linker::func_wrap` with a function of two integers that returns their
/// [`host::hash_i64`]. It fails only on a name that is already defined.
#[verifier::external_body]
pub(crate) fn bind_hash_i64(linker: &mut Linker<ContractState>, module: &str, name: &str) -> (outcome:
    Result<(), LinkerError>)
    ensures
        binds(*old(linker), *final(linker), outcome, module@, name@),
{
    linker.func_wrap(
        module,
        name,
        |_caller: Caller<'_, ContractState>, a: i64, b: i64| -> i64 { host::hash_i64(a, b) },
    ).map(|_| ())
}

/// `Module::new`: decodes and validates bytecode for `engine`. Nothing is
/// claimed of which bytecode loads.
#[verifier::external_body]
pub(crate) fn load_module(engine: &Engine, bytes: &[u8]) -> (loaded: Result<Module, wasmi::Error>)
    ensures
        loaded matches Ok(module) ==> module_engine(module) == *engine,
{
    Module::new(engine, bytes)
}

/// `Store::new`: a store for `engine` that owns `state`.
#[verifier::external_body]
pub(crate) fn new_store(engine: &Engine, state: ContractState) -> (store: Store<ContractState>)
    ensures
        store_engine(store) == *engine,
{
    Store::new(engine, state)
}

/// `Linker::instantiate`: resolves the module's imports against the linker
/// and allocates the instance in the store, which is handed back. It panics
/// unless linker and store are for one engine; the module has to be for
/// that engine too.
#[verifier::external_body]
pub(crate) fn instantiate(
    linker: &Linker<ContractState>,
    store: Store<ContractState>,
    module: &Module,
) -> (made: (Store<ContractState>, Result<InstancePre, wasmi::Error>))
    requires
        linker_engine(*linker) == store_engine(store),
        module_engine(*module) == store_engine(store),
    ensures
        same_store(store, made.0),
        made.1 matches Ok(pending) ==> pending_owner(pending) == store_index(made.0),
{
    let mut store = store;
    let made = linker.instantiate(&mut store, module);
    (store, made)
}

/// `InstancePre::start`: runs the module's start function, if it has one,
/// in the store that owns the instance, and hands the store back. It
/// returns when that function does.
#[verifier::external_body]
pub(crate) fn start(pending: InstancePre, store: Store<ContractState>) -> (started: (
    Store<ContractState>,
    Result<Instance, wasmi::Error>,
))
    requires
        pending_owner(pending) == store_index(store),
    ensures
        same_store(store, started.0),
        started.1 matches Ok(instance) ==> instance_owner(instance) == store_index(started.0),
{
    let mut store = store;
    let started = pending.start(&mut store);
    (store, started)
}

/// `Instance::get_export`, then `Extern::into_func`: the function that the
/// instance exports under `name`, if it exports one. It panics unless the
/// store owns the instance.
#[verifier::external_body]
pub(crate) fn find_func(instance: &Instance, store: &Store<ContractState>, name: &str) -> (found:
    Option<Func>)
    requires
        instance_owner(*instance) == store_index(*store),
    ensures
        found matches Some(func) ==> func_owner(func) == store_index(*store),
{
    instance.get_export(store, name).and_then(|item| item.into_func())
}

/// `Func::ty`, then the length of `FuncType::results`: how many values the
/// function returns. It panics unless the store owns the function.
#[verifier::external_body]
pub(crate) fn result_count(func: &Func, store: &Store<ContractState>) -> (count: usize)
    requires
        func_owner(*func) == store_index(*store),
{
    func.ty(store).results().len()
}

/// `Func::call` with 64-bit integer arguments and room for `result_count`
/// results, each handed back as a [`Word`], with the store. It panics
/// unless the store owns the function, and returns when the function does.
/// On success as many words come back as there was room.
#[verifier::external_body]
pub(crate) fn call(
    func: &Func,
    store: Store<ContractState>,
    args: &[i64],
    result_count: usize,
) -> (returned: (Store<ContractState>, Result<Vec<Word>, wasmi::Error>))
    requires
        func_owner(*func) == store_index(store),
    ensures
        same_store(store, returned.0),
        returned.1 matches Ok(words) ==> words@.len() == result_count,
{
    let mut store = store;
    let inputs: Vec<Value> = args.iter().map(|arg| Value::I64(*arg)).collect();
    let mut outputs = vec![Value::I64(0); result_count];
    let called = func.call(&mut store, &inputs, &mut outputs);
    let words = outputs.iter().map(|value| match value {
        Value::I64(word) => Word::I64(*word),
        Value::I32(_) => Word::Other,
        Value::F32(_) => Word::Other,
        Value::F64(_) => Word::Other,
        Value::FuncRef(_) => Word::Other,
        Value::ExternRef(_) => Word::Other,
    });
    (store, called.map(|_| words.collect()))
}

/// `Store::into_data`: the state that the store owns.
#[verifier::external_body]
pub(crate) fn into_state(store: Store<ContractState>) -> (state: ContractState) {
    store.into_data()
}

/// The interpreter's own words for an error: its `Display`.
#[verifier::external_body]
pub(crate) fn error_text(error: &wasmi::Error) -> (text: String) {
    format!("{}", error)
}

} // verus!
