use policy_evaluator::evaluation_context_registry::EvaluationContextRegistry;
use policy_evaluator::policy_evaluator::PolicyExecutionMode;
use policy_evaluator::policy_evaluator_builder::PolicyEvaluatorBuilder;
use policy_evaluator::runtimes::RegoPolicyExecutionMode;
use policy_evaluator::runtimes::Runtime;

const TRIVIAL_WAT: &str = "(module)";

#[test]
fn wasi_mode_builds_a_cli_runtime_without_registry_entry() {
    let mut registry = EvaluationContextRegistry::new();
    let builder = PolicyEvaluatorBuilder::new("cli-policy".to_string(), 2)
        .policy_contents(TRIVIAL_WAT.as_bytes())
        .execution_mode(PolicyExecutionMode::Wasi);
    let evaluator = builder.build(&mut registry).expect("cannot create evaluator");
    assert_eq!(evaluator.policy_id, "cli-policy");
    assert_eq!(evaluator.worker_id, 2);
    assert!(evaluator.instance_handle().is_none());
    let stack = match evaluator.runtime() {
        Runtime::Cli(stack) => stack,
        _ => panic!("not the runtime I was expecting"),
    };
    assert!(stack.epoch_deadlines.is_none());
    evaluator.teardown(&mut registry);
}

#[test]
fn opa_mode_builds_a_rule_engine_runtime() {
    let mut registry = EvaluationContextRegistry::new();
    let builder = PolicyEvaluatorBuilder::new("rego-policy".to_string(), 3)
        .policy_contents(TRIVIAL_WAT.as_bytes())
        .execution_mode(PolicyExecutionMode::Opa)
        .enable_epoch_interruptions(11, 13);
    let evaluator = builder.build(&mut registry).expect("cannot create evaluator");
    let stack = match evaluator.runtime() {
        Runtime::Burrego(stack) => stack,
        _ => panic!("not the runtime I was expecting"),
    };
    assert_eq!(stack.entrypoint_id, 0);
    assert_eq!(stack.policy_execution_mode, RegoPolicyExecutionMode::Opa);
    // Only the per-call budget reaches the rule engine.
    assert_eq!(stack.epoch_deadline, Some(13));
}

#[test]
fn gatekeeper_mode_selects_the_gatekeeper_sub_mode() {
    let mut registry = EvaluationContextRegistry::new();
    let builder = PolicyEvaluatorBuilder::new("gk-policy".to_string(), 4)
        .policy_contents(TRIVIAL_WAT.as_bytes())
        .execution_mode(PolicyExecutionMode::OpaGatekeeper);
    let evaluator = builder.build(&mut registry).expect("cannot create evaluator");
    let stack = match evaluator.runtime() {
        Runtime::Burrego(stack) => stack,
        _ => panic!("not the runtime I was expecting"),
    };
    assert_eq!(stack.policy_execution_mode, RegoPolicyExecutionMode::Gatekeeper);
    assert_eq!(stack.epoch_deadline, None);
}

#[test]
fn builder_is_reusable_for_fresh_evaluators() {
    let mut registry = EvaluationContextRegistry::new();
    let builder = PolicyEvaluatorBuilder::new("again".to_string(), 5)
        .policy_contents(TRIVIAL_WAT.as_bytes())
        .execution_mode(PolicyExecutionMode::Wasi);
    let first = builder.build(&mut registry).expect("cannot create evaluator");
    let second = builder.build(&mut registry).expect("cannot create evaluator");
    assert_eq!(first.policy_id, second.policy_id);
    assert_eq!(first.worker_id, second.worker_id);
}
