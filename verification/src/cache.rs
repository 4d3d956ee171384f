//! The four operations on a cache: create, store a module, retrieve a module,
//! destroy.
//!
//! Each operation checks what the host passed, asks the engine at most once,
//! and answers with a value and the state of the error record. The host sees
//! either a usable value and an empty record, or the null handle or an empty
//! buffer and a record that holds the message of the failure.

use vstd::prelude::*;
use vstd::utf8::*;

use crate::args::{CACHE_ARG, DATA_DIR_ARG, FEATURES_ARG, WASM_ARG};
use crate::checksum::{Checksum, CHECKSUM_LEN};
use crate::engine::{
    features_of, fits_in_mebi, mebi, settle, settled, CacheConfig, ConfigView, EngineOutcome,
};
use crate::error::{clear_error, handle_c_error, result_view, set_error, Error, ErrorView};
use crate::handle::{
    cache_t, engine_of, is_live, next_handle, registered, released, Registry,
};
use crate::memory::{Buffer, BufferView};
use crate::text::decode;

verus! {

/// The engine behind `ptr`, if `ptr` is a live handle of `registry`. The null
/// handle, a handle never issued and a released handle give `None`.
pub fn to_cache<T>(registry: &Registry<T>, ptr: cache_t) -> (cache: Option<&T>)
    ensures
        cache is Some <==> is_live(registry@, ptr),
        cache matches Some(engine) ==> *engine == engine_of(registry@, ptr),
{
    registry.lookup(ptr)
}

/// Whether a creation request is accepted: the directory and the feature
/// list are both present and both valid UTF-8, and both limits, given in
/// mebibytes, fit the machine's size type when counted in bytes.
pub open spec fn config_accepted(
    data_dir: BufferView,
    supported_features: BufferView,
    cache_size: u32,
    instance_memory_limit: u32,
) -> bool {
    &&& !data_dir.is_vacant()
    &&& valid_utf8(data_dir.bytes())
    &&& !supported_features.is_vacant()
    &&& valid_utf8(supported_features.bytes())
    &&& mebi(cache_size as nat) <= usize::MAX
    &&& mebi(instance_memory_limit as nat) <= usize::MAX
}

/// Whether `error` is the failure with which a creation request is refused.
/// The directory is checked before the feature list, presence before
/// encoding, and the limits last; the first check that fails decides. A
/// limit that the machine cannot hold is reported as a fault.
pub open spec fn config_refusal(
    data_dir: BufferView,
    supported_features: BufferView,
    cache_size: u32,
    instance_memory_limit: u32,
    error: ErrorView,
) -> bool {
    if data_dir.is_vacant() {
        error == (ErrorView::EmptyArg { name: DATA_DIR_ARG@ })
    } else if !valid_utf8(data_dir.bytes()) {
        error is InvalidUtf8
    } else if supported_features.is_vacant() {
        error == (ErrorView::EmptyArg { name: FEATURES_ARG@ })
    } else if !valid_utf8(supported_features.bytes()) {
        error is InvalidUtf8
    } else {
        !config_accepted(data_dir, supported_features, cache_size, instance_memory_limit)
            && error == ErrorView::Panic
    }
}

/// The options that an accepted creation request asks for: the directory and
/// the feature list read as text, and both limits converted from mebibytes to
/// bytes.
pub open spec fn config_of(
    data_dir: BufferView,
    supported_features: BufferView,
    cache_size: u32,
    instance_memory_limit: u32,
) -> ConfigView {
    ConfigView {
        base_dir: decode_utf8(data_dir.bytes()),
        supported_features: features_of(decode_utf8(supported_features.bytes())),
        memory_cache_size: mebi(cache_size as nat),
        instance_memory_limit: mebi(instance_memory_limit as nat),
    }
}

/// Checks the arguments of a creation request and prepares the options for
/// the engine.
pub fn cache_config(
    data_dir: &Buffer,
    supported_features: &Buffer,
    cache_size: u32,
    instance_memory_limit: u32,
) -> (config: Result<CacheConfig, Error>)
    ensures
        config is Ok <==> config_accepted(
            data_dir@,
            supported_features@,
            cache_size,
            instance_memory_limit,
        ),
        config matches Ok(options) ==> options@ == config_of(
            data_dir@,
            supported_features@,
            cache_size,
            instance_memory_limit,
        ),
        config matches Err(error) ==> config_refusal(
            data_dir@,
            supported_features@,
            cache_size,
            instance_memory_limit,
            error@,
        ),
{
    let dir = match data_dir.read() {
        Some(dir) => dir,
        None => {
            return Err(Error::empty_arg(DATA_DIR_ARG));
        },
    };
    let dir_str = match decode(dir) {
        Ok(dir_str) => dir_str,
        Err(error) => {
            return Err(error);
        },
    };
    let features_bin = match supported_features.read() {
        Some(features_bin) => features_bin,
        None => {
            return Err(Error::empty_arg(FEATURES_ARG));
        },
    };
    let features_str = match decode(features_bin) {
        Ok(features_str) => features_str,
        Err(error) => {
            return Err(error);
        },
    };
    if !fits_in_mebi(cache_size) || !fits_in_mebi(instance_memory_limit) {
        return Err(Error::panic());
    }
    Ok(CacheConfig::new(dir_str, features_str, cache_size, instance_memory_limit))
}

/// Creates the engine of a new cache: checks the arguments, and if they are
/// accepted asks `open` once for an engine with the options they describe.
/// Refused arguments never reach `open`.
pub fn do_init_cache<T, F>(
    data_dir: Buffer,
    supported_features: Buffer,
    cache_size: u32,
    instance_memory_limit: u32,
    open: F,
) -> (result: Result<T, Error>) where F: FnOnce(CacheConfig) -> EngineOutcome<T>
    requires
        forall|config: CacheConfig| call_requires(open, (config,)),
    ensures
        !config_accepted(data_dir@, supported_features@, cache_size, instance_memory_limit) ==> (
        result matches Err(error) && config_refusal(
            data_dir@,
            supported_features@,
            cache_size,
            instance_memory_limit,
            error@,
        )),
        config_accepted(data_dir@, supported_features@, cache_size, instance_memory_limit)
            ==> exists|config: CacheConfig, outcome: EngineOutcome<T>|
            config@ == config_of(data_dir@, supported_features@, cache_size, instance_memory_limit)
                && call_ensures(open, (config,), outcome) && result_view(result) == settled(
                outcome,
            ),
{
    match cache_config(&data_dir, &supported_features, cache_size, instance_memory_limit) {
        Ok(config) => settle(open(config)),
        Err(error) => Err(error),
    }
}

/// What a creation attempt that ended in `result` leaves behind: the slots of
/// the registry, the handle for the host and the content of the error record.
/// Success registers the engine under a fresh handle and clears the record;
/// failure changes no slot, gives the null handle and reports the failure.
pub open spec fn opened<T>(slots: Seq<Option<T>>, result: Result<T, ErrorView>) -> (
    Seq<Option<T>>,
    cache_t,
    BufferView,
) {
    match result {
        Ok(engine) => (registered(slots, engine), next_handle(slots), BufferView::Absent),
        Err(error) => (slots, cache_t { id: 0 }, error.record()),
    }
}

/// Completes a creation attempt: registers the engine it produced, or reports
/// why there is none.
pub fn finish_init<T>(
    registry: &mut Registry<T>,
    result: Result<T, Error>,
    err: Option<&mut Buffer>,
) -> (handle: cache_t)
    ensures
        final(registry)@ == opened(old(registry)@, result_view(result)).0,
        handle == opened(old(registry)@, result_view(result)).1,
        err matches Some(record) ==> final(record)@ == opened(
            old(registry)@,
            result_view(result),
        ).2,
{
    match result {
        Ok(engine) => {
            clear_error(err);
            registry.register(engine)
        },
        Err(error) => {
            set_error(error, err);
            cache_t::null()
        },
    }
}

/// Creates a cache in `registry` and returns its handle.
///
/// A request that [`config_accepted`] refuses never reaches the engine. For
/// one that it accepts, `open` is asked once for an engine; if it delivers
/// one, the engine is registered, the error record is cleared and the new
/// handle is returned. In every other case the registry stays as it was, the
/// null handle is returned and the error record holds the message of the
/// failure.
pub fn init_cache<T, F>(
    registry: &mut Registry<T>,
    data_dir: Buffer,
    supported_features: Buffer,
    cache_size: u32,
    instance_memory_limit: u32,
    err: Option<&mut Buffer>,
    open: F,
) -> (handle: cache_t) where F: FnOnce(CacheConfig) -> EngineOutcome<T>
    requires
        forall|config: CacheConfig| call_requires(open, (config,)),
    ensures
        !config_accepted(data_dir@, supported_features@, cache_size, instance_memory_limit) ==> {
            &&& handle.id == 0
            &&& final(registry)@ == old(registry)@
            &&& err matches Some(record) ==> exists|error: ErrorView|
                config_refusal(
                    data_dir@,
                    supported_features@,
                    cache_size,
                    instance_memory_limit,
                    error,
                ) && final(record)@ == #[trigger] error.record()
        },
        config_accepted(data_dir@, supported_features@, cache_size, instance_memory_limit)
            ==> exists|config: CacheConfig, outcome: EngineOutcome<T>|
            {
                &&& config@ == config_of(
                    data_dir@,
                    supported_features@,
                    cache_size,
                    instance_memory_limit,
                )
                &&& call_ensures(open, (config,), outcome)
                &&& final(registry)@ == opened(old(registry)@, settled(outcome)).0
                &&& handle == opened(old(registry)@, settled(outcome)).1
                &&& err matches Some(record) ==> final(record)@ == opened(
                    old(registry)@,
                    settled(outcome),
                ).2
            },
{
    let result = do_init_cache(
        data_dir,
        supported_features,
        cache_size,
        instance_memory_limit,
        open,
    );
    finish_init(registry, result, err)
}

/// The result of a load as the host sees it: the bytes of the module.
pub open spec fn module_bytes(result: Result<Vec<u8>, ErrorView>) -> Result<Seq<u8>, ErrorView> {
    match result {
        Ok(bytes) => Ok(bytes@),
        Err(error) => Err(error),
    }
}

/// The result of a store as the host sees it: the bytes of the checksum.
pub open spec fn checksum_bytes(result: Result<Checksum, ErrorView>) -> Result<
    Seq<u8>,
    ErrorView,
> {
    match result {
        Ok(checksum) => Ok(checksum@),
        Err(error) => Err(error),
    }
}

/// What the host receives for a store or load that ended in `result`: the
/// returned buffer and the content of the error record. Success gives the
/// bytes as an owned buffer and a cleared record; failure gives an owned
/// buffer without content and the reported failure.
pub open spec fn answer(result: Result<Seq<u8>, ErrorView>) -> (BufferView, BufferView) {
    match result {
        Ok(bytes) => (BufferView::Owned(bytes), BufferView::Absent),
        Err(error) => (BufferView::Owned(Seq::empty()), error.record()),
    }
}

/// Completes a store or load: hands the bytes or the failure to the host.
pub fn finish<'a>(result: Result<Vec<u8>, Error>, err: Option<&mut Buffer>) -> (data: Buffer<'a>)
    ensures
        data@ == answer(module_bytes(result_view(result))).0,
        err matches Some(record) ==> final(record)@ == answer(
            module_bytes(result_view(result)),
        ).1,
{
    let data = handle_c_error(result, err);
    Buffer::from_vec(data)
}

/// What a store request asks of the engine, or the failure that refuses it.
/// The handle is checked before the module: a handle that is not live is
/// reported as the missing cache argument whatever the module is, and a live
/// handle with an absent or empty module as the missing module.
pub open spec fn save_request<T>(slots: Seq<Option<T>>, cache: cache_t, wasm: BufferView) -> Result<
    (T, Seq<u8>),
    ErrorView,
> {
    if !is_live(slots, cache) {
        Err(ErrorView::EmptyArg { name: CACHE_ARG@ })
    } else if wasm.is_vacant() {
        Err(ErrorView::EmptyArg { name: WASM_ARG@ })
    } else {
        Ok((engine_of(slots, cache), wasm.bytes()))
    }
}

/// Stores the module `wasm` through `cache`: asks `store` once, with exactly
/// the bytes of the module, for the checksum under which the engine keeps it.
/// An absent or empty module never reaches `store`.
pub fn do_save_wasm<T, F>(cache: &T, wasm: Buffer, store: F) -> (result: Result<
    Checksum,
    Error,
>) where F: FnOnce(&T, &[u8]) -> EngineOutcome<Checksum>
    requires
        forall|module: &[u8]| module@.len() > 0 ==> call_requires(store, (cache, module)),
    ensures
        wasm@.is_vacant() ==> result_view(result) == Err::<Checksum, ErrorView>(
            ErrorView::EmptyArg { name: WASM_ARG@ },
        ),
        !wasm@.is_vacant() ==> exists|module: &[u8], outcome: EngineOutcome<Checksum>|
            module@ == wasm@.bytes() && call_ensures(store, (cache, module), outcome)
                && result_view(result) == settled(outcome),
{
    match wasm.read() {
        Some(module) => settle(store(cache, module)),
        None => Err(Error::empty_arg(WASM_ARG)),
    }
}

/// Stores a module in the cache that `cache` names and returns its checksum.
///
/// A request that [`save_request`] refuses never reaches the engine. One that
/// it accepts is passed to `store` once. If the engine returns a checksum,
/// the host receives its bytes as an owned buffer and the error record is
/// cleared. In every other case the host receives an owned buffer without
/// content and the error record holds the message of the failure.
pub fn save_wasm<'a, T, F>(
    registry: &Registry<T>,
    cache: cache_t,
    wasm: Buffer,
    err: Option<&mut Buffer>,
    store: F,
) -> (checksum: Buffer<'a>) where F: FnOnce(&T, &[u8]) -> EngineOutcome<Checksum>
    requires
        forall|engine: &T, module: &[u8]|
            module@.len() > 0 ==> call_requires(store, (engine, module)),
    ensures
        match save_request(registry@, cache, wasm@) {
            Err(error) => {
                &&& checksum@ == answer(Err(error)).0
                &&& err matches Some(record) ==> final(record)@ == answer(Err(error)).1
            },
            Ok((engine, bytes)) => exists|module: &[u8], outcome: EngineOutcome<Checksum>|
                {
                    &&& module@ == bytes
                    &&& call_ensures(store, (&engine, module), outcome)
                    &&& checksum@ == answer(checksum_bytes(settled(outcome))).0
                    &&& err matches Some(record) ==> final(record)@ == answer(
                        checksum_bytes(settled(outcome)),
                    ).1
                },
        },
{
    let r = match to_cache(registry, cache) {
        Some(c) => do_save_wasm(c, wasm, store),
        None => Err(Error::empty_arg(CACHE_ARG)),
    };
    proof {
        match save_request(registry@, cache, wasm@) {
            Err(error) => {
                assert(result_view(r) == Err::<Checksum, ErrorView>(error));
            },
            Ok((engine, bytes)) => {
                let (module, outcome) = choose|module: &[u8], outcome: EngineOutcome<Checksum>|
                    module@ == wasm@.bytes() && call_ensures(store, (&engine, module), outcome)
                        && result_view(r) == settled(outcome);
                assert(call_ensures(store, (&engine, module), outcome));
            },
        }
    }
    let data = match r {
        Ok(checksum) => Ok(checksum.to_vec()),
        Err(error) => Err(error),
    };
    finish(data, err)
}

/// What a load request asks of the engine, or the failure that refuses it.
/// The handle is checked first, then the presence of the checksum, then its
/// length. A missing checksum is reported under the name of the cache
/// argument; a checksum of the wrong length is a failure of its own kind.
pub open spec fn load_request<T>(
    slots: Seq<Option<T>>,
    cache: cache_t,
    contract_checksum: BufferView,
) -> Result<(T, Seq<u8>), ErrorView> {
    if !is_live(slots, cache) {
        Err(ErrorView::EmptyArg { name: CACHE_ARG@ })
    } else if contract_checksum.is_vacant() {
        Err(ErrorView::EmptyArg { name: CACHE_ARG@ })
    } else if contract_checksum.bytes().len() != CHECKSUM_LEN {
        Err(ErrorView::ChecksumFormat)
    } else {
        Ok((engine_of(slots, cache), contract_checksum.bytes()))
    }
}

/// Retrieves through `cache` the module stored under `contract_checksum`:
/// asks `load` once, with exactly the checksum that the host gave. A
/// checksum that is missing or not of the length of a digest never reaches
/// `load`.
pub fn do_load_wasm<T, F>(cache: &T, contract_checksum: Buffer, load: F) -> (result: Result<
    Vec<u8>,
    Error,
>) where F: FnOnce(&T, &Checksum) -> EngineOutcome<Vec<u8>>
    requires
        forall|checksum: &Checksum| call_requires(load, (cache, checksum)),
    ensures
        contract_checksum@.is_vacant() ==> result_view(result) == Err::<Vec<u8>, ErrorView>(
            ErrorView::EmptyArg { name: CACHE_ARG@ },
        ),
        !contract_checksum@.is_vacant() && contract_checksum@.bytes().len() != CHECKSUM_LEN
            ==> result_view(result) == Err::<Vec<u8>, ErrorView>(ErrorView::ChecksumFormat),
        contract_checksum@.bytes().len() == CHECKSUM_LEN ==> exists|
            checksum: Checksum,
            outcome: EngineOutcome<Vec<u8>>,
        |
            checksum@ == contract_checksum@.bytes() && call_ensures(
                load,
                (cache, &checksum),
                outcome,
            ) && result_view(result) == settled(outcome),
{
    let bytes = match contract_checksum.read() {
        Some(bytes) => bytes,
        None => {
            return Err(Error::empty_arg(CACHE_ARG));
        },
    };
    let checksum = match Checksum::from_slice(bytes) {
        Ok(checksum) => checksum,
        Err(error) => {
            return Err(error);
        },
    };
    settle(load(cache, &checksum))
}

/// Retrieves a module from the cache that `cache` names.
///
/// A request that [`load_request`] refuses never reaches the engine. One that
/// it accepts is passed to `load` once. If the engine returns the module, the
/// host receives its bytes as an owned buffer and the error record is
/// cleared. In every other case the host receives an owned buffer without
/// content and the error record holds the message of the failure.
pub fn load_wasm<'a, T, F>(
    registry: &Registry<T>,
    cache: cache_t,
    contract_checksum: Buffer,
    err: Option<&mut Buffer>,
    load: F,
) -> (wasm: Buffer<'a>) where F: FnOnce(&T, &Checksum) -> EngineOutcome<Vec<u8>>
    requires
        forall|engine: &T, checksum: &Checksum| call_requires(load, (engine, checksum)),
    ensures
        match load_request(registry@, cache, contract_checksum@) {
            Err(error) => {
                &&& wasm@ == answer(Err(error)).0
                &&& err matches Some(record) ==> final(record)@ == answer(Err(error)).1
            },
            Ok((engine, bytes)) => exists|checksum: Checksum, outcome: EngineOutcome<Vec<u8>>|
                {
                    &&& checksum@ == bytes
                    &&& call_ensures(load, (&engine, &checksum), outcome)
                    &&& wasm@ == answer(module_bytes(settled(outcome))).0
                    &&& err matches Some(record) ==> final(record)@ == answer(
                        module_bytes(settled(outcome)),
                    ).1
                },
        },
{
    let r = match to_cache(registry, cache) {
        Some(c) => do_load_wasm(c, contract_checksum, load),
        None => Err(Error::empty_arg(CACHE_ARG)),
    };
    proof {
        match load_request(registry@, cache, contract_checksum@) {
            Err(error) => {
                assert(result_view(r) == Err::<Vec<u8>, ErrorView>(error));
            },
            Ok((engine, bytes)) => {
                let (checksum, outcome) = choose|
                    checksum: Checksum,
                    outcome: EngineOutcome<Vec<u8>>,
                |
                    checksum@ == contract_checksum@.bytes() && call_ensures(
                        load,
                        (&engine, &checksum),
                        outcome,
                    ) && result_view(r) == settled(outcome);
                assert(call_ensures(load, (&engine, &checksum), outcome));
            },
        }
    }
    finish(r, err)
}

/// Destroys the cache that `cache` names: the engine behind a live handle is
/// dropped and the handle is released for good. The null handle changes
/// nothing, and neither does a handle that was released before or never
/// issued.
pub fn release_cache<T>(registry: &mut Registry<T>, cache: cache_t)
    ensures
        final(registry)@ == released(old(registry)@, cache),
{
    registry.retire(cache);
}

/// A cache that is created and released at once: the creation clears the
/// error record and issues a live handle, and after the release the registry
/// holds the engines it held before and no other. Every handle that was live
/// is still live, and the new handle is released.
pub proof fn lemma_create_then_release<T>(slots: Seq<Option<T>>, engine: T, other: cache_t)
    requires
        slots.len() < usize::MAX,
    ensures
        opened(slots, Ok(engine)).1.id != 0,
        is_live(opened(slots, Ok(engine)).0, opened(slots, Ok(engine)).1),
        opened(slots, Ok(engine)).2.is_vacant(),
        released(opened(slots, Ok(engine)).0, opened(slots, Ok(engine)).1) == slots.push(None),
        is_live(released(opened(slots, Ok(engine)).0, opened(slots, Ok(engine)).1), other)
            == is_live(slots, other),
{
    crate::handle::lemma_register_then_release(slots, engine, other);
}

/// A creation that fails, for whatever reason, leaves the registry as it was,
/// gives the null handle and an error record that is not vacant.
pub proof fn lemma_failed_creation_changes_nothing<T>(slots: Seq<Option<T>>, error: ErrorView)
    ensures
        opened(slots, Err::<T, ErrorView>(error)).0 == slots,
        opened(slots, Err::<T, ErrorView>(error)).1.id == 0,
        !opened(slots, Err::<T, ErrorView>(error)).2.is_vacant(),
{
    crate::error::lemma_record_of_failure_is_not_vacant(error);
}

/// The host sees either bytes and an empty error record, or no bytes and an
/// error record that is not vacant; the returned buffer is owned in both
/// cases.
pub proof fn lemma_answer_is_value_or_failure(result: Result<Seq<u8>, ErrorView>)
    ensures
        answer(result).0 is Owned,
        result is Ok ==> answer(result).0.bytes() == result->Ok_0 && answer(result).1.is_vacant(),
        result is Err ==> answer(result).0.is_vacant() && !answer(result).1.is_vacant(),
{
    if let Err(error) = result {
        crate::error::lemma_record_of_failure_is_not_vacant(error);
    }
}

/// A module without content is refused as a missing argument, and a handle
/// that is not live as a missing cache, whatever the module is.
pub proof fn lemma_save_refuses_empty_module_and_dead_handle<T>(
    slots: Seq<Option<T>>,
    cache: cache_t,
    wasm: BufferView,
)
    ensures
        !is_live(slots, cache) ==> save_request(slots, cache, wasm) == Err::<
            (T, Seq<u8>),
            ErrorView,
        >(ErrorView::EmptyArg { name: CACHE_ARG@ }),
        cache.id == 0 ==> !is_live(slots, cache),
        is_live(slots, cache) && wasm.is_vacant() ==> save_request(slots, cache, wasm) == Err::<
            (T, Seq<u8>),
            ErrorView,
        >(ErrorView::EmptyArg { name: WASM_ARG@ }),
        save_request(slots, cache, wasm) is Ok <==> is_live(slots, cache) && !wasm.is_vacant(),
{
}

/// The round trip through the boundary. A module that has content reaches
/// the engine as it is. Whatever checksum the engine returns for it is handed
/// to the host as it is, is accepted when the host presents it to load, and
/// reaches the engine as it is. The module that the engine then returns is
/// handed to the host as it is. So what the engine keeps under a checksum,
/// the host gets back under the same checksum, byte for byte; and for the
/// same module and the same answer of the engine the host gets the same
/// checksum.
pub proof fn lemma_round_trip<T>(
    slots: Seq<Option<T>>,
    cache: cache_t,
    module: Seq<u8>,
    checksum: Checksum,
)
    requires
        is_live(slots, cache),
        module.len() > 0,
    ensures
        save_request(slots, cache, BufferView::Borrowed(module)) == Ok::<
            (T, Seq<u8>),
            ErrorView,
        >((engine_of(slots, cache), module)),
        answer(checksum_bytes(Ok(checksum))).0 == BufferView::Owned(checksum@),
        answer(checksum_bytes(Ok(checksum))).0.bytes().len() == CHECKSUM_LEN,
        answer(checksum_bytes(Ok(checksum))).1.is_vacant(),
        load_request(slots, cache, answer(checksum_bytes(Ok(checksum))).0) == Ok::<
            (T, Seq<u8>),
            ErrorView,
        >((engine_of(slots, cache), checksum@)),
        answer(Ok(module)).0 == BufferView::Owned(module),
        answer(Ok(module)).1.is_vacant(),
{
}

/// A checksum of the wrong length is refused before the engine is asked, and
/// the failure it is refused with differs, in kind and in the message the
/// host reads, from every failure that the engine can report, such as a
/// module that it does not find.
pub proof fn lemma_malformed_checksum_is_told_apart<T>(
    slots: Seq<Option<T>>,
    cache: cache_t,
    contract_checksum: BufferView,
    engine_message: Seq<char>,
)
    requires
        is_live(slots, cache),
        !contract_checksum.is_vacant(),
    ensures
        contract_checksum.bytes().len() != CHECKSUM_LEN ==> load_request(
            slots,
            cache,
            contract_checksum,
        ) == Err::<(T, Seq<u8>), ErrorView>(ErrorView::ChecksumFormat),
        contract_checksum.bytes().len() == CHECKSUM_LEN ==> load_request(
            slots,
            cache,
            contract_checksum,
        ) is Ok,
        ErrorView::ChecksumFormat.message() != (ErrorView::VmErr {
            msg: engine_message,
        }).message(),
        ErrorView::ChecksumFormat.record() != (ErrorView::VmErr { msg: engine_message }).record(),
{
    let malformed = ErrorView::ChecksumFormat;
    let reported = ErrorView::VmErr { msg: engine_message };
    reveal_strlit("Checksum not of length 32");
    reveal_strlit("Error calling the VM: ");
    assert(malformed.message()[0] == 'C');
    assert(reported.message()[0] == 'E');
    encode_utf8_decode_utf8(malformed.message());
    encode_utf8_decode_utf8(reported.message());
}

/// A fault inside the engine is contained: the operation ends with the
/// failure that names no cause, and a creation that met a fault leaves the
/// registry as it was.
pub proof fn lemma_fault_is_contained<T>(slots: Seq<Option<T>>)
    ensures
        settled(EngineOutcome::<T>::Fault) == Err::<T, ErrorView>(ErrorView::Panic),
        opened(slots, settled(EngineOutcome::<T>::Fault)).0 == slots,
        opened(slots, settled(EngineOutcome::<T>::Fault)).1.id == 0,
        opened(slots, settled(EngineOutcome::<T>::Fault)).2 == ErrorView::Panic.record(),
{
}

} // verus!
