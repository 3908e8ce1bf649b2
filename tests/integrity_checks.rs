use protected_load::integrity::{
    abort_action, check_integrity, electron_run_as_node_vaild, has_debug_flag, run_mode,
    AbortAction, Context, EnvValue, IntegrityFailure, IdentitySnapshot, RunMode,
};
use protected_load::graph::{get_module_object, ModuleGraph, ModuleRecord, ParentRef};

fn record(exports: u64, parent: ParentRef, children: Vec<usize>) -> ModuleRecord {
    ModuleRecord { exports, parent, children }
}

/// Root 0 with exports 10 and children 1 and 2; record 2 has child 3.
fn sample_graph(root_parent: ParentRef) -> ModuleGraph {
    ModuleGraph {
        records: vec![
            record(10, root_parent, vec![1, 2]),
            record(11, ParentRef::Node(0), vec![]),
            record(12, ParentRef::Node(0), vec![3]),
            record(13, ParentRef::Node(2), vec![]),
        ],
    }
}

fn snapshot(context: Context, args: &[&str], env: EnvValue, graph: ModuleGraph, exports: u64) -> IdentitySnapshot {
    IdentitySnapshot {
        context,
        args: args.iter().map(|a| a.to_string()).collect(),
        run_as_node: env,
        graph,
        root: 0,
        exports,
    }
}

#[test]
fn debug_flag_fails_the_checks() {
    let s = snapshot(Context::Main, &["electron", "--inspect=9229", "."], EnvValue::Absent, sample_graph(ParentRef::Absent), 10);
    assert_eq!(check_integrity(&s), Err(IntegrityFailure::DebuggerRequested));
    let s = snapshot(Context::Main, &["electron", "--remote-debugging-port=9222"], EnvValue::Absent, sample_graph(ParentRef::Absent), 10);
    assert_eq!(check_integrity(&s), Err(IntegrityFailure::DebuggerRequested));
}

#[test]
fn no_debug_flag_passes_the_checks() {
    let s = snapshot(Context::Main, &["electron", "."], EnvValue::Absent, sample_graph(ParentRef::Absent), 10);
    assert_eq!(check_integrity(&s), Ok(()));
    assert!(!has_debug_flag(&vec!["app".to_string(), "--insp".to_string()]));
    assert!(has_debug_flag(&vec!["--inspect-brk".to_string()]));
}

#[test]
fn run_mode_values() {
    assert_eq!(run_mode(&EnvValue::Absent), RunMode::Unset);
    assert_eq!(run_mode(&EnvValue::Number(0)), RunMode::FalsyValue);
    assert_eq!(run_mode(&EnvValue::Text(String::new())), RunMode::FalsyValue);
    assert_eq!(run_mode(&EnvValue::Text("1".to_string())), RunMode::OtherValue);
    assert_eq!(run_mode(&EnvValue::Number(1)), RunMode::OtherValue);
    assert_eq!(run_mode(&EnvValue::Other), RunMode::OtherValue);
    assert_eq!(electron_run_as_node_vaild(&EnvValue::Absent), (true, false, false));
    assert_eq!(electron_run_as_node_vaild(&EnvValue::Number(0)), (false, true, false));
    assert_eq!(electron_run_as_node_vaild(&EnvValue::Text(String::new())), (false, false, true));
    assert_eq!(electron_run_as_node_vaild(&EnvValue::Text("1".to_string())), (false, false, false));
}

#[test]
fn run_mode_override_fails_the_checks() {
    for (env, ok) in [
        (EnvValue::Absent, true),
        (EnvValue::Number(0), true),
        (EnvValue::Text(String::new()), true),
        (EnvValue::Text("1".to_string()), false),
    ] {
        let s = snapshot(Context::Main, &["app"], env, sample_graph(ParentRef::Absent), 10);
        let expected = if ok { Ok(()) } else { Err(IntegrityFailure::ExecutionModeOverridden) };
        assert_eq!(check_integrity(&s), expected);
    }
}

#[test]
fn entry_not_root_is_unexpected_position() {
    let s = snapshot(Context::Main, &["app"], EnvValue::Absent, sample_graph(ParentRef::Absent), 13);
    assert_eq!(check_integrity(&s), Err(IntegrityFailure::UnexpectedLoadPosition));
    let s = snapshot(Context::Main, &["app"], EnvValue::Absent, sample_graph(ParentRef::Absent), 99);
    assert_eq!(check_integrity(&s), Err(IntegrityFailure::UnexpectedLoadPosition));
}

#[test]
fn root_entry_with_allowed_parent_passes() {
    for parent in [ParentRef::Absent, ParentRef::ModuleWrapper] {
        let s = snapshot(Context::Main, &["app"], EnvValue::Absent, sample_graph(parent), 10);
        assert_eq!(check_integrity(&s), Ok(()));
    }
    for parent in [ParentRef::Foreign, ParentRef::Node(2)] {
        let s = snapshot(Context::Main, &["app"], EnvValue::Absent, sample_graph(parent), 10);
        assert_eq!(check_integrity(&s), Err(IntegrityFailure::UnexpectedLoadPosition));
    }
}

#[test]
fn renderer_parent_check() {
    let s = snapshot(Context::Renderer, &[], EnvValue::Absent, sample_graph(ParentRef::Absent), 11);
    assert_eq!(check_integrity(&s), Ok(()));
    let s = snapshot(Context::Renderer, &[], EnvValue::Absent, sample_graph(ParentRef::Absent), 13);
    assert_eq!(check_integrity(&s), Err(IntegrityFailure::ForeignParentContext));
    let s = snapshot(Context::Renderer, &[], EnvValue::Absent, sample_graph(ParentRef::Absent), 77);
    assert_eq!(check_integrity(&s), Err(IntegrityFailure::ForeignParentContext));
}

#[test]
fn module_resolution_walks_depth_first() {
    let g = sample_graph(ParentRef::Absent);
    assert_eq!(get_module_object(&g, 0, 10), Some(0));
    assert_eq!(get_module_object(&g, 0, 12), Some(2));
    assert_eq!(get_module_object(&g, 0, 13), Some(3));
    assert_eq!(get_module_object(&g, 0, 42), None);
    assert_eq!(get_module_object(&g, 9, 10), None);
    let cyclic = ModuleGraph {
        records: vec![record(1, ParentRef::Absent, vec![1]), record(2, ParentRef::Node(0), vec![0, 5])],
    };
    assert_eq!(get_module_object(&cyclic, 0, 3), None);
    assert_eq!(get_module_object(&cyclic, 0, 2), Some(1));
}

#[test]
fn abort_routing() {
    assert_eq!(abort_action(Context::Renderer, &EnvValue::Absent), AbortAction::SignalController);
    assert_eq!(abort_action(Context::Main, &EnvValue::Absent), AbortAction::DialogAndQuit);
    assert_eq!(abort_action(Context::Main, &EnvValue::Text("1".to_string())), AbortAction::PrintAndExit);
}

#[test]
fn failure_reasons() {
    assert_eq!(IntegrityFailure::DebuggerRequested.reason(), "debugger requested");
    assert_eq!(IntegrityFailure::ExecutionModeOverridden.reason(), "execution mode overridden");
    assert_eq!(IntegrityFailure::UnexpectedLoadPosition.reason(), "unexpected load position");
    assert_eq!(IntegrityFailure::ForeignParentContext.reason(), "foreign parent context");
}
