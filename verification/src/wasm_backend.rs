//! Trusted boundary to the WebAssembly machinery: `wasmtime` engines and
//! modules, and the waPC host stack built from `wasmtime_provider` and
//! `wapc`.
//!
//! Everything here is an `external_body` wrapper around exactly one call
//! into an outside crate, or a declaration of one of its types. The rest of
//! the crate reasons only about the contracts written here.

use vstd::prelude::*;

use wasmtime_provider::wasmtime::Cache;
use wasmtime_provider::wasmtime::Config;
use wasmtime_provider::wasmtime::Engine;
use wasmtime_provider::wasmtime::Module;
use wasmtime_provider::WasmtimeEngineProvider;
use wasmtime_provider::WasmtimeEngineProviderBuilder;

verus! {

#[verifier::external_type_specification]
#[verifier::external_body]
pub struct ExConfig(Config);

#[verifier::external_type_specification]
#[verifier::external_body]
pub struct ExCache(Cache);

#[verifier::external_type_specification]
#[verifier::external_body]
pub struct ExEngine(Engine);

#[verifier::external_type_specification]
#[verifier::external_body]
pub struct ExModule(Module);

#[verifier::external_type_specification]
#[verifier::external_body]
pub struct ExWasmtimeEngineProviderBuilder<'a>(WasmtimeEngineProviderBuilder<'a>);

#[verifier::external_type_specification]
#[verifier::external_body]
pub struct ExWasmtimeEngineProvider(WasmtimeEngineProvider);

#[verifier::external_type_specification]
#[verifier::external_body]
pub struct ExWapcHost(wapc::WapcHost);

/// Relies on wasmtime's `Config::new`: a default engine configuration.
#[verifier::external_body]
pub(crate) fn config_new() -> Config {
    Config::new()
}

/// Relies on wasmtime's `Cache::from_file` with no path: loads the default
/// cache configuration for this system. The outcome depends on the host
/// environment, so nothing is promised beyond the shape of the result.
#[verifier::external_body]
pub(crate) fn cache_load_default() -> (r: Result<Cache, String>)
{
    Cache::from_file(None).map_err(|e| format!("{e:?}"))
}

/// Relies on wasmtime's `Config::cache`: installs a compilation cache on the
/// configuration.
#[verifier::external_body]
pub(crate) fn config_enable_cache(config: &mut Config, cache: Cache) {
    config.cache(Some(cache));
}

/// Relies on wasmtime's `Config::epoch_interruption`: turns on epoch-based
/// interruption of guest execution.
#[verifier::external_body]
pub(crate) fn config_enable_epoch_interruption(config: &mut Config) {
    config.epoch_interruption(true);
}

/// Relies on wasmtime's `Engine::new`: builds an engine from a
/// configuration; fails if the configuration is unsupported on this host.
#[verifier::external_body]
pub(crate) fn engine_new(config: &Config) -> (r: Result<Engine, String>)
{
    Engine::new(config).map_err(|e| format!("{e:?}"))
}

/// Relies on wasmtime's `Engine::clone`: an engine is an atomically
/// reference-counted handle, so the clone is another handle to the same
/// engine — the same value.
#[verifier::external_body]
pub(crate) fn engine_clone(engine: &Engine) -> (r: Engine)
    ensures
        r == *engine,
{
    engine.clone()
}

/// Relies on wasmtime's `Module::clone`: a module is a reference-counted
/// handle, so the clone is another handle to the same compiled module — the
/// same value.
#[verifier::external_body]
pub(crate) fn module_clone(module: &Module) -> (r: Module)
    ensures
        r == *module,
{
    module.clone()
}

/// Relies on wasmtime's `Module::new`: compiles a module from bytes (binary
/// WebAssembly or textual WAT); fails when the bytes are not a valid module
/// for this engine.
#[verifier::external_body]
pub(crate) fn module_new(engine: &Engine, bytes: &[u8]) -> (r: Result<Module, String>)
{
    Module::new(engine, bytes).map_err(|e| format!("{e:?}"))
}

/// Relies on wasmtime's `Module::from_file`: reads a file and compiles it as
/// a module. The outcome depends on what is on disk, so nothing is promised
/// beyond the shape of the result.
#[verifier::external_body]
pub(crate) fn module_from_file(engine: &Engine, path: &String) -> (r: Result<Module, String>)
{
    Module::from_file(engine, path).map_err(|e| format!("{e:?}"))
}

/// Relies on `WasmtimeEngineProviderBuilder::new`: an empty provider
/// configuration.
#[verifier::external_body]
pub(crate) fn provider_builder_new() -> WasmtimeEngineProviderBuilder<'static> {
    WasmtimeEngineProviderBuilder::new()
}

/// Relies on `WasmtimeEngineProviderBuilder::engine`: records the engine the
/// provider must instantiate with.
#[verifier::external_body]
pub(crate) fn provider_builder_engine(
    builder: WasmtimeEngineProviderBuilder<'static>,
    engine: Engine,
) -> WasmtimeEngineProviderBuilder<'static> {
    builder.engine(engine)
}

/// Relies on `WasmtimeEngineProviderBuilder::module`: records the
/// pre-compiled module the provider must instantiate.
#[verifier::external_body]
pub(crate) fn provider_builder_module(
    builder: WasmtimeEngineProviderBuilder<'static>,
    module: Module,
) -> WasmtimeEngineProviderBuilder<'static> {
    builder.module(module)
}

/// Relies on `WasmtimeEngineProviderBuilder::enable_epoch_interruptions`:
/// records the tick budgets for guest initialization and per-call guest
/// execution.
#[verifier::external_body]
pub(crate) fn provider_builder_epoch_deadlines(
    builder: WasmtimeEngineProviderBuilder<'static>,
    init_ticks: u64,
    func_ticks: u64,
) -> WasmtimeEngineProviderBuilder<'static> {
    builder.enable_epoch_interruptions(wasmtime_provider::EpochDeadlines {
        wapc_init: init_ticks,
        wapc_func: func_ticks,
    })
}

/// Relies on `WasmtimeEngineProviderBuilder::build`: constructs the engine
/// provider; fails when the recorded configuration is inconsistent.
#[verifier::external_body]
pub(crate) fn provider_build(
    builder: &WasmtimeEngineProviderBuilder<'static>,
) -> (r: Result<WasmtimeEngineProvider, String>)
{
    builder.build().map_err(|e| format!("{e:?}"))
}

/// The embedder's host-callback dispatcher, opaque to verification: the
/// function the waPC host invokes for every guest host-call. The handle is
/// shared, so one dispatcher can serve any number of evaluators built from
/// the same configuration.
#[verifier::external_body]
pub struct HostCallbackHandle {
    pub callback: std::sync::Arc<wapc::HostCallback>,
}

/// Relies on `std::sync::Arc::clone`: the clone is another handle to the
/// same dispatcher.
#[verifier::external_body]
pub(crate) fn clone_host_callback(handle: &HostCallbackHandle) -> HostCallbackHandle {
    HostCallbackHandle { callback: handle.callback.clone() }
}

/// Relies on `wapc::WapcHost::new`: instantiates the guest module and runs
/// its initialization entry points, with the embedder's dispatcher (if one
/// was supplied) installed as the host callback the guest's host-calls
/// reach. Fails when instantiation or guest initialization fails (including
/// a guest interrupted by an exhausted initialization tick budget).
#[verifier::external_body]
pub(crate) fn wapc_host_new(
    provider: WasmtimeEngineProvider,
    host_callback: Option<HostCallbackHandle>,
) -> (r: Result<wapc::WapcHost, String>)
{
    let callback: Option<Box<wapc::HostCallback>> = host_callback.map(|handle| {
        let f = handle.callback;
        Box::new(move |id: u64, bd: &str, ns: &str, op: &str, payload: &[u8]| {
            f(id, bd, ns, op, payload)
        }) as Box<wapc::HostCallback>
    });
    wapc::WapcHost::new(Box::new(provider), callback).map_err(|e| format!("{e:?}"))
}

/// Relies on `wapc::WapcHost::id`: the identifier assigned to this host
/// instance; assigned from a process-wide counter, so distinct live
/// instances have distinct identifiers.
#[verifier::external_body]
pub(crate) fn wapc_host_id(host: &wapc::WapcHost) -> u64 {
    host.id()
}

} // verus!
