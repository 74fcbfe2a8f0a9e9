use policy_evaluator::errors::BuildError;
use policy_evaluator::evaluation_context_registry::EvaluationContextRegistry;
use policy_evaluator::policy_evaluator::PolicyExecutionMode;
use policy_evaluator::policy_evaluator_builder::create_wapc_runtime;
use policy_evaluator::policy_evaluator_builder::PolicyEvaluatorBuilder;
use policy_evaluator::policy_metadata::ContextAwareResourceSet;
use policy_evaluator::runtimes::Runtime;
use policy_evaluator::wasm_backend::HostCallbackHandle;
use std::sync::Arc;
use std::sync::Mutex;

use wasmtime_provider::wasmtime;

/// An engine whose linear-memory reservations stay small enough for a
/// constrained address space.
fn small_memory_engine() -> wasmtime::Engine {
    let mut config = wasmtime::Config::new();
    config.memory_reservation(1 << 24);
    config.memory_guard_size(1 << 16);
    config.memory_reservation_for_growth(1 << 20);
    wasmtime::Engine::new(&config).expect("cannot create engine")
}

/// A guest whose exported call handler loops forever; its initialization is
/// trivial, so instantiation succeeds.
const WAPC_ENDLESS_LOOP_WAT: &str = r#"
(module
  (memory (export "memory") 1)
  (func (export "__guest_call") (param i32 i32) (result i32)
    (loop $spin (br $spin))
    (i32.const 1)))
"#;

/// A guest whose initialization entry point loops forever.
const WAPC_ENDLESS_INIT_WAT: &str = r#"
(module
  (memory (export "memory") 1)
  (func (export "wapc_init")
    (loop $spin (br $spin)))
  (func (export "__guest_call") (param i32 i32) (result i32)
    (i32.const 1)))
"#;

#[test]
fn wapc_policy_is_registered() {
    let policy_id = "a-policy";
    let worker_id = 0;

    // we need a real waPC policy, we don't care about the contents yet
    let engine = small_memory_engine();
    let module =
        wasmtime::Module::new(&engine, WAPC_ENDLESS_LOOP_WAT).expect("cannot compile WAT to wasm");

    let epoch_deadlines = None;
    let callback_channel = None;
    let ctx_aware_resources_allow_list = ContextAwareResourceSet::new();

    let mut registry = EvaluationContextRegistry::new();
    let runtime = create_wapc_runtime(
        policy_id,
        worker_id,
        engine,
        module,
        epoch_deadlines,
        &callback_channel,
        None,
        &ctx_aware_resources_allow_list,
        &mut registry,
    )
    .expect("cannot create wapc runtime");
    let wapc_stack = match runtime {
        Runtime::Wapc(stack) => stack,
        _ => panic!("not the runtime I was expecting"),
    };

    assert_eq!(
        worker_id,
        registry
            .lookup_worker(wapc_stack.wapc_host_id())
            .expect("didn't find policy")
    );

    let eval_ctx = registry
        .lookup_context(wapc_stack.wapc_host_id())
        .expect("didn't find policy");
    assert_eq!(eval_ctx.policy_id, policy_id);
}

#[test]
fn wapc_policy_is_removed_from_registry_when_the_evaluator_is_dropped() {
    // we need a real waPC policy, we don't care about the contents yet

    let worker_id = 0;
    let engine = small_memory_engine();
    let module =
        wasmtime::Module::new(&engine, WAPC_ENDLESS_LOOP_WAT).expect("cannot compile WAT to wasm");

    let builder = PolicyEvaluatorBuilder::new("test".to_string(), worker_id)
        .execution_mode(PolicyExecutionMode::KubewardenWapc)
        .engine(engine)
        .policy_module(module);

    let mut registry = EvaluationContextRegistry::new();
    let evaluator = builder.build(&mut registry).expect("cannot create evaluator");
    let wapc_id = match evaluator.runtime() {
        Runtime::Wapc(ref stack) => stack.wapc_host_id(),
        _ => panic!("not the runtime I was expecting"),
    };
    assert!(registry.contains_handle(wapc_id));

    evaluator.teardown(&mut registry);
    assert!(!registry.contains_handle(wapc_id));
    assert!(registry.lookup_worker(wapc_id).is_err());
    assert!(registry.lookup_context(wapc_id).is_err());
}

#[test]
fn wapc_build_registers_worker_and_policy() {
    let engine = small_memory_engine();
    let module =
        wasmtime::Module::new(&engine, WAPC_ENDLESS_LOOP_WAT).expect("cannot compile WAT to wasm");

    let mut registry = EvaluationContextRegistry::new();
    let builder = PolicyEvaluatorBuilder::new("looping-policy".to_string(), 42)
        .engine(engine)
        .policy_module(module)
        .execution_mode(PolicyExecutionMode::KubewardenWapc);
    let evaluator = builder.build(&mut registry).expect("cannot create evaluator");

    let handle = evaluator
        .instance_handle()
        .expect("a wapc evaluator must expose its instance handle");
    assert_eq!(registry.lookup_worker(handle), Ok(42));
    let ctx = registry.lookup_context(handle).expect("didn't find policy");
    assert_eq!(ctx.policy_id, "looping-policy");
    assert!(ctx.callback_channel.is_none());
}

#[test]
fn wapc_init_deadline_interrupts_endless_init() {
    // The guest's initialization loops forever. With a one-tick budget and
    // an embedder advancing the epoch, the build must fail with the
    // interrupted initialization instead of hanging.
    let mut config = wasmtime::Config::new();
    config.epoch_interruption(true);
    config.memory_reservation(1 << 24);
    config.memory_guard_size(1 << 16);
    config.memory_reservation_for_growth(1 << 20);
    let engine = wasmtime::Engine::new(&config).expect("cannot create engine");
    let module =
        wasmtime::Module::new(&engine, WAPC_ENDLESS_INIT_WAT).expect("cannot compile WAT to wasm");

    let ticker_engine = engine.clone();
    let rt = tokio::runtime::Builder::new_multi_thread()
        .worker_threads(1)
        .enable_time()
        .build()
        .expect("cannot build runtime");
    rt.spawn(async move {
        loop {
            ticker_engine.increment_epoch();
            tokio::time::sleep(std::time::Duration::from_millis(2)).await;
        }
    });

    let mut registry = EvaluationContextRegistry::new();
    let builder = PolicyEvaluatorBuilder::new("endless-init".to_string(), 1)
        .engine(engine)
        .policy_module(module)
        .execution_mode(PolicyExecutionMode::KubewardenWapc)
        .enable_epoch_interruptions(1, 1);
    let outcome = builder.build(&mut registry);
    assert!(matches!(outcome, Err(BuildError::RuntimeCreation(_))));
}

#[test]
fn guest_without_call_export_is_a_runtime_creation_error() {
    let engine = small_memory_engine();
    let module = wasmtime::Module::new(&engine, "(module)").expect("cannot compile WAT to wasm");

    let mut registry = EvaluationContextRegistry::new();
    let builder = PolicyEvaluatorBuilder::new("no-guest-call".to_string(), 3)
        .engine(engine)
        .policy_module(module)
        .execution_mode(PolicyExecutionMode::KubewardenWapc);
    let outcome = builder.build(&mut registry);
    assert!(matches!(outcome, Err(BuildError::RuntimeCreation(_))));
}

/// A guest that performs one host call with empty binding, namespace,
/// operation and payload, and returns its status code.
const WAPC_HOST_CALL_WAT: &str = r#"
(module
  (import "wapc" "__host_call"
    (func $host_call (param i32 i32 i32 i32 i32 i32 i32 i32) (result i32)))
  (memory (export "memory") 1)
  (func (export "__guest_call") (param i32 i32) (result i32)
    (call $host_call
      (i32.const 0) (i32.const 0) (i32.const 0) (i32.const 0)
      (i32.const 0) (i32.const 0) (i32.const 0) (i32.const 0))))
"#;

#[test]
fn guest_host_call_reaches_dispatcher_and_gets_capability_unavailable() {
    let engine = small_memory_engine();
    let module =
        wasmtime::Module::new(&engine, WAPC_HOST_CALL_WAT).expect("cannot compile WAT to wasm");

    let registry = Arc::new(Mutex::new(EvaluationContextRegistry::new()));
    let seen = Arc::new(Mutex::new(Vec::<String>::new()));
    let dispatcher_registry = registry.clone();
    let dispatcher_seen = seen.clone();
    let handle = HostCallbackHandle {
        callback: Arc::new(move |id, _bd, _ns, _op, payload: &[u8]| {
            let reg = dispatcher_registry.lock().expect("registry lock");
            let context = match reg.lookup_context(id) {
                Ok(ctx) => ctx,
                Err(e) => {
                    let msg = format!("{e:?}");
                    dispatcher_seen.lock().expect("log lock").push(msg.clone());
                    return Err(msg.into());
                }
            };
            match context.send_request(payload.to_vec()) {
                Ok(Ok(response)) => Ok(response.payload),
                Ok(Err(msg)) => {
                    dispatcher_seen.lock().expect("log lock").push(msg.clone());
                    Err(msg.into())
                }
                Err(e) => {
                    let msg = format!("{e:?}");
                    dispatcher_seen.lock().expect("log lock").push(msg.clone());
                    Err(msg.into())
                }
            }
        }),
    };

    // No callback channel is configured: a guest host-call must surface the
    // distinct capability-unavailable error, and the host must not crash.
    let builder = PolicyEvaluatorBuilder::new("dispatching".to_string(), 8)
        .engine(engine)
        .policy_module(module)
        .execution_mode(PolicyExecutionMode::KubewardenWapc)
        .host_callback(handle);
    let evaluator = {
        let mut reg = registry.lock().expect("registry lock");
        builder.build(&mut reg).expect("cannot create evaluator")
    };
    let stack = match evaluator.runtime() {
        Runtime::Wapc(stack) => stack,
        _ => panic!("not the runtime I was expecting"),
    };

    let call = stack.wapc_host.call("anything", b"");
    assert!(call.is_err());
    let seen = seen.lock().expect("log lock");
    assert!(seen.iter().any(|m| m.contains("CapabilityUnavailable")));
}
