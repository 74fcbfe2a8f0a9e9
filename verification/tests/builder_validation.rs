use policy_evaluator::errors::BuildError;
use policy_evaluator::errors::ConfigurationError;
use policy_evaluator::evaluation_context_registry::EvaluationContextRegistry;
use policy_evaluator::policy_evaluator::PolicyExecutionMode;
use policy_evaluator::policy_evaluator_builder::PolicyEvaluatorBuilder;

fn base_builder() -> PolicyEvaluatorBuilder {
    PolicyEvaluatorBuilder::new("a-policy".to_string(), 7)
}

#[test]
fn file_and_contents_is_a_configuration_error() {
    let mut registry = EvaluationContextRegistry::new();
    let builder = base_builder()
        .policy_file("some/policy.wasm")
        .unwrap()
        .policy_contents(b"whatever")
        .execution_mode(PolicyExecutionMode::Wasi);
    let outcome = builder.build(&mut registry);
    assert!(matches!(
        outcome,
        Err(BuildError::Configuration(ConfigurationError::FileAndContents))
    ));
}

#[test]
fn file_and_contents_error_does_not_require_execution_mode() {
    // The conflict between the two module sources is reported before the
    // missing execution mode, and before any file is touched: the path
    // points nowhere.
    let mut registry = EvaluationContextRegistry::new();
    let builder = base_builder()
        .policy_file("no/such/file.wasm")
        .unwrap()
        .policy_contents(b"whatever");
    let outcome = builder.build(&mut registry);
    assert!(matches!(
        outcome,
        Err(BuildError::Configuration(ConfigurationError::FileAndContents))
    ));
}

#[test]
fn contents_and_module_is_a_configuration_error() {
    let engine = wasmtime_provider::wasmtime::Engine::default();
    let module =
        wasmtime_provider::wasmtime::Module::new(&engine, "(module)").expect("cannot compile");
    let mut registry = EvaluationContextRegistry::new();
    let builder = base_builder()
        .policy_contents(b"whatever")
        .policy_module(module)
        .engine(engine)
        .execution_mode(PolicyExecutionMode::Wasi);
    let outcome = builder.build(&mut registry);
    assert!(matches!(
        outcome,
        Err(BuildError::Configuration(ConfigurationError::ContentsAndModule))
    ));
}

#[test]
fn file_and_module_is_a_configuration_error() {
    let engine = wasmtime_provider::wasmtime::Engine::default();
    let module =
        wasmtime_provider::wasmtime::Module::new(&engine, "(module)").expect("cannot compile");
    let mut registry = EvaluationContextRegistry::new();
    let builder = base_builder()
        .policy_file("some/policy.wasm")
        .unwrap()
        .policy_module(module)
        .engine(engine)
        .execution_mode(PolicyExecutionMode::Wasi);
    let outcome = builder.build(&mut registry);
    assert!(matches!(
        outcome,
        Err(BuildError::Configuration(ConfigurationError::FileAndModule))
    ));
}

#[test]
fn no_policy_source_is_a_configuration_error() {
    let mut registry = EvaluationContextRegistry::new();
    let builder = base_builder().execution_mode(PolicyExecutionMode::Wasi);
    let outcome = builder.build(&mut registry);
    assert!(matches!(
        outcome,
        Err(BuildError::Configuration(ConfigurationError::NoPolicySource))
    ));
}

#[test]
fn missing_execution_mode_is_a_configuration_error() {
    let mut registry = EvaluationContextRegistry::new();
    let builder = base_builder().policy_contents(b"(module)");
    let outcome = builder.build(&mut registry);
    assert!(matches!(
        outcome,
        Err(BuildError::Configuration(ConfigurationError::NoExecutionMode))
    ));
}

#[test]
fn module_without_engine_is_a_configuration_error() {
    let engine = wasmtime_provider::wasmtime::Engine::default();
    let module =
        wasmtime_provider::wasmtime::Module::new(&engine, "(module)").expect("cannot compile");
    let mut registry = EvaluationContextRegistry::new();
    // The engine that compiled the module is deliberately not supplied.
    let builder = base_builder()
        .policy_module(module)
        .execution_mode(PolicyExecutionMode::KubewardenWapc);
    let outcome = builder.build(&mut registry);
    assert!(matches!(
        outcome,
        Err(BuildError::Configuration(ConfigurationError::ModuleWithoutEngine))
    ));
}

#[test]
fn invalid_module_bytes_are_a_compilation_error() {
    let mut registry = EvaluationContextRegistry::new();
    let builder = base_builder()
        .policy_contents(b"this is not wasm")
        .execution_mode(PolicyExecutionMode::Wasi);
    let outcome = builder.build(&mut registry);
    assert!(matches!(outcome, Err(BuildError::ModuleCompilation(_))));
}

#[test]
fn missing_file_is_a_compilation_error() {
    let mut registry = EvaluationContextRegistry::new();
    let builder = base_builder()
        .policy_file("no/such/file.wasm")
        .unwrap()
        .execution_mode(PolicyExecutionMode::Wasi);
    let outcome = builder.build(&mut registry);
    assert!(matches!(outcome, Err(BuildError::ModuleCompilation(_))));
}

#[test]
fn rego_mode_translation() {
    assert!(matches!(
        PolicyExecutionMode::Opa.rego_mode(),
        Ok(policy_evaluator::runtimes::RegoPolicyExecutionMode::Opa)
    ));
    assert!(matches!(
        PolicyExecutionMode::OpaGatekeeper.rego_mode(),
        Ok(policy_evaluator::runtimes::RegoPolicyExecutionMode::Gatekeeper)
    ));
    assert!(matches!(
        PolicyExecutionMode::Wasi.rego_mode(),
        Err(ConfigurationError::NotARuleEngineMode)
    ));
    assert!(matches!(
        PolicyExecutionMode::KubewardenWapc.rego_mode(),
        Err(ConfigurationError::NotARuleEngineMode)
    ));
}
