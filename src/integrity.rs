//! The integrity checks that must all pass, once at startup, before any
//! protected unit is decrypted, and the channel through which a failure is reported.
use vstd::prelude::*;
use crate::graph::{get_module_object, resolve_spec, ModuleGraph, ParentRef};
use crate::text::{contains, str_contains};

verus! {

/// The argument that asks for an attached inspector.
pub const INSPECT_FLAG: &'static str = "--inspect";

/// The argument that opens a remote-debugging endpoint.
pub const REMOTE_DEBUG_FLAG: &'static str = "--remote-debugging-port";

/// The run-as-plain-interpreter variable as the host hands it over.
pub enum EnvValue {
    Absent,
    Number(u32),
    Text(String),
    /// A value of any other type.
    Other,
}

/// The run-as-plain-interpreter variable, normalised once.
#[derive(Debug, Clone, Copy, PartialEq, Eq, Structural)]
pub enum RunMode {
    Unset,
    FalsyValue,
    OtherValue,
}

/// Where the component was loaded.
#[derive(Debug, Clone, Copy, PartialEq, Eq, Structural)]
pub enum Context {
    /// The controlling (main) process.
    Main,
    /// An embedded rendering surface.
    Renderer,
}

/// Why the integrity checks refused the process.
#[derive(Debug, Clone, Copy, PartialEq, Eq, Structural)]
pub enum IntegrityFailure {
    DebuggerRequested,
    ExecutionModeOverridden,
    UnexpectedLoadPosition,
    ForeignParentContext,
}

/// How a failure is reported.
#[derive(Debug, Clone, Copy, PartialEq, Eq, Structural)]
pub enum AbortAction {
    /// No GUI shell: print the message and exit with a non-zero status.
    PrintAndExit,
    /// Show the message in an error dialog, then ask the application to quit.
    DialogAndQuit,
    /// Send a synchronous signal to the controlling process, which aborts.
    SignalController,
}

/// The facts gathered once at startup.
pub struct IdentitySnapshot {
    pub context: Context,
    pub args: Vec<String>,
    pub run_as_node: EnvValue,
    pub graph: ModuleGraph,
    /// The designated root: the application's true entry record.
    pub root: usize,
    /// The handle of this component's own exports object.
    pub exports: u64,
}

pub open spec fn run_mode_spec(v: EnvValue) -> RunMode {
    match v {
        EnvValue::Absent => RunMode::Unset,
        EnvValue::Number(n) => if n == 0 { RunMode::FalsyValue } else { RunMode::OtherValue },
        EnvValue::Text(s) => if s@.len() == 0 { RunMode::FalsyValue } else { RunMode::OtherValue },
        EnvValue::Other => RunMode::OtherValue,
    }
}

/// The variable holds a value that forces plain-interpreter mode.
pub open spec fn overridden(v: EnvValue) -> bool {
    run_mode_spec(v) == RunMode::OtherValue
}

pub open spec fn is_debug_arg(a: Seq<char>) -> bool {
    contains(a, INSPECT_FLAG@) || contains(a, REMOTE_DEBUG_FLAG@)
}

pub open spec fn has_debug_flag_spec(args: Seq<String>) -> bool {
    exists|i: int| 0 <= i < args.len() && is_debug_arg(args[i]@)
}

/// The entry-identity check of the controlling process: the record resolved
/// as this component's is the root, and the root's parent is absent or the
/// host's module wrapper.
pub open spec fn main_entry_ok(s: IdentitySnapshot) -> bool {
    resolve_spec(s.graph.records@, s.root, s.exports) == Some(s.root)
        && (s.graph.records@[s.root as int].parent == ParentRef::Absent
        || s.graph.records@[s.root as int].parent == ParentRef::ModuleWrapper)
}

/// The entry-identity check of a rendering surface: the resolved record's
/// parent is the root.
pub open spec fn renderer_entry_ok(s: IdentitySnapshot) -> bool {
    match resolve_spec(s.graph.records@, s.root, s.exports) {
        Some(i) => s.graph.records@[i as int].parent == ParentRef::Node(s.root),
        None => false,
    }
}

/// The checks that follow the debug-flag check.
pub open spec fn identity_spec(s: IdentitySnapshot) -> Result<(), IntegrityFailure> {
    if overridden(s.run_as_node) {
        Err(IntegrityFailure::ExecutionModeOverridden)
    } else {
        match s.context {
            Context::Main => if main_entry_ok(s) {
                Ok(())
            } else {
                Err(IntegrityFailure::UnexpectedLoadPosition)
            },
            Context::Renderer => if renderer_entry_ok(s) {
                Ok(())
            } else {
                Err(IntegrityFailure::ForeignParentContext)
            },
        }
    }
}

/// The verdict of the integrity checks.
pub open spec fn verdict_spec(s: IdentitySnapshot) -> Result<(), IntegrityFailure> {
    if has_debug_flag_spec(s.args@) {
        Err(IntegrityFailure::DebuggerRequested)
    } else {
        identity_spec(s)
    }
}

/// Where a failure in a context is reported.
pub open spec fn abort_action_spec(context: Context, v: EnvValue) -> AbortAction {
    match context {
        Context::Renderer => AbortAction::SignalController,
        Context::Main => if overridden(v) {
            AbortAction::PrintAndExit
        } else {
            AbortAction::DialogAndQuit
        },
    }
}

pub open spec fn reason_spec(f: IntegrityFailure) -> Seq<char> {
    match f {
        IntegrityFailure::DebuggerRequested => "debugger requested"@,
        IntegrityFailure::ExecutionModeOverridden => "execution mode overridden"@,
        IntegrityFailure::UnexpectedLoadPosition => "unexpected load position"@,
        IntegrityFailure::ForeignParentContext => "foreign parent context"@,
    }
}

/// The three ways the variable counts as not overriding: absent, the
/// number zero, the empty string.
pub fn electron_run_as_node_vaild(v: &EnvValue) -> (r: (bool, bool, bool))
    ensures
        r.0 == (*v is Absent),
        r.1 == (*v matches EnvValue::Number(n) && n == 0),
        r.2 == (*v matches EnvValue::Text(t) && t@.len() == 0),
{
    match v {
        EnvValue::Absent => (true, false, false),
        EnvValue::Number(n) => (false, *n == 0, false),
        EnvValue::Text(s) => (false, false, s.as_str().is_empty()),
        EnvValue::Other => (false, false, false),
    }
}

/// Normalises the variable.
pub fn run_mode(v: &EnvValue) -> (r: RunMode)
    ensures
        r == run_mode_spec(*v),
{
    let (unset, zero, empty) = electron_run_as_node_vaild(v);
    if unset {
        RunMode::Unset
    } else if zero || empty {
        RunMode::FalsyValue
    } else {
        RunMode::OtherValue
    }
}

/// Whether any argument asks for a debugger.
pub fn has_debug_flag(args: &Vec<String>) -> (r: bool)
    ensures
        r == has_debug_flag_spec(args@),
{
    let mut i: usize = 0;
    while i < args.len()
        invariant
            i <= args@.len(),
            forall|k: int| 0 <= k < i ==> !is_debug_arg(#[trigger] args@[k]@),
        decreases args@.len() - i,
    {
        let a = args[i].as_str();
        if str_contains(a, INSPECT_FLAG) || str_contains(a, REMOTE_DEBUG_FLAG) {
            assert(is_debug_arg(args@[i as int]@));
            return true;
        }
        i = i + 1;
    }
    false
}

fn root_parent_ok(s: &IdentitySnapshot) -> (r: bool)
    requires
        s.root < s.graph.records@.len(),
    ensures
        r == (s.graph.records@[s.root as int].parent == ParentRef::Absent
            || s.graph.records@[s.root as int].parent == ParentRef::ModuleWrapper),
{
    match s.graph.records[s.root].parent {
        ParentRef::Absent => true,
        ParentRef::ModuleWrapper => true,
        _ => false,
    }
}

/// Runs every integrity check: the debug flag first, then the run mode,
/// then the entry identity of the current context.
pub fn check_integrity(s: &IdentitySnapshot) -> (r: Result<(), IntegrityFailure>)
    ensures
        r == verdict_spec(*s),
{
    if has_debug_flag(&s.args) {
        return Err(IntegrityFailure::DebuggerRequested);
    }
    if run_mode(&s.run_as_node) == RunMode::OtherValue {
        return Err(IntegrityFailure::ExecutionModeOverridden);
    }
    let resolved = get_module_object(&s.graph, s.root, s.exports);
    match s.context {
        Context::Main => {
            if resolved == Some(s.root) && root_parent_ok(s) {
                Ok(())
            } else {
                Err(IntegrityFailure::UnexpectedLoadPosition)
            }
        },
        Context::Renderer => {
            match resolved {
                Some(i) => {
                    if s.graph.records[i].parent == ParentRef::Node(s.root) {
                        Ok(())
                    } else {
                        Err(IntegrityFailure::ForeignParentContext)
                    }
                },
                None => Err(IntegrityFailure::ForeignParentContext),
            }
        },
    }
}

/// Picks the channel through which a failure is reported.
pub fn abort_action(context: Context, v: &EnvValue) -> (r: AbortAction)
    ensures
        r == abort_action_spec(context, *v),
{
    match context {
        Context::Renderer => AbortAction::SignalController,
        Context::Main => {
            if run_mode(v) == RunMode::OtherValue {
                AbortAction::PrintAndExit
            } else {
                AbortAction::DialogAndQuit
            }
        },
    }
}

impl IntegrityFailure {
    /// The diagnostic reason of a failure.
    pub fn reason(&self) -> (r: String)
        ensures
            r@ == reason_spec(*self),
    {
        match self {
            IntegrityFailure::DebuggerRequested => "debugger requested".to_owned(),
            IntegrityFailure::ExecutionModeOverridden => "execution mode overridden".to_owned(),
            IntegrityFailure::UnexpectedLoadPosition => "unexpected load position".to_owned(),
            IntegrityFailure::ForeignParentContext => "foreign parent context".to_owned(),
        }
    }
}

/// A debugger flag fails the integrity checks whatever else holds; without one, the
/// verdict is that of the other checks alone.
pub proof fn lemma_debug_flag(s: IdentitySnapshot)
    ensures
        has_debug_flag_spec(s.args@) ==> verdict_spec(s) == Err::<(), IntegrityFailure>(IntegrityFailure::DebuggerRequested),
        !has_debug_flag_spec(s.args@) ==> verdict_spec(s) == identity_spec(s),
{
}

/// In the controlling process, with no debugger flag and no run-mode
/// override: a resolved record other than the root fails with an unexpected
/// load position; the root resolved, with an absent parent or the module
/// wrapper as parent, passes.
pub proof fn lemma_main_entry(s: IdentitySnapshot)
    requires
        s.context == Context::Main,
        !has_debug_flag_spec(s.args@),
        !overridden(s.run_as_node),
    ensures
        resolve_spec(s.graph.records@, s.root, s.exports) != Some(s.root)
            ==> verdict_spec(s) == Err::<(), IntegrityFailure>(IntegrityFailure::UnexpectedLoadPosition),
        resolve_spec(s.graph.records@, s.root, s.exports) == Some(s.root)
            && (s.graph.records@[s.root as int].parent == ParentRef::Absent
            || s.graph.records@[s.root as int].parent == ParentRef::ModuleWrapper)
            ==> verdict_spec(s) == Ok::<(), IntegrityFailure>(()),
{
}

/// The variable overrides exactly when it is present and neither the number
/// zero nor the empty string.
pub proof fn lemma_run_mode(v: EnvValue)
    ensures
        overridden(v) <==> !(v is Absent || (v matches EnvValue::Number(n) && n == 0)
            || (v matches EnvValue::Text(t) && t@.len() == 0)),
{
}

} // verus!
