//! Configuration objects for the test command family, the target selector,
//! and the environment guard that gates execution in production.

use vstd::prelude::*;

verus! {

/// Which grouping of packages a command operates on.  `AllPackages` is a
/// meta-selector: it is never resolved to a member list itself but expands
/// to `Crates` and `Examples`, never to `Workspace`.
#[derive(Clone, Copy, Debug, PartialEq, Eq, Structural)]
pub enum Target {
    Workspace,
    Crates,
    Examples,
    AllPackages,
}

/// The kind of a workspace member.
#[derive(Clone, Copy, Debug, PartialEq, Eq, Structural)]
pub enum WorkspaceMemberType {
    Crate,
    Example,
}

/// One package of the workspace, as the discovery collaborator reports it.
pub struct WorkspaceMember {
    pub name: String,
    pub kind: WorkspaceMemberType,
}

/// The environment an invocation runs in; only `Production` is gated.
#[derive(Clone, Copy, Debug, PartialEq, Eq, Structural)]
pub enum Environment {
    Development,
    Staging,
    Production,
}

/// Sub-commands of the test family.  `All` is composite: it expands to
/// `Unit` then `Integration` and never to itself.
#[derive(Clone, Copy, Debug, PartialEq, Eq, Structural)]
pub enum TestSubCommand {
    All,
    Unit,
    Integration,
}

/// Configuration of one test invocation, as the outer command-line layer
/// hands it over.
pub struct TestCmdArgs {
    pub command: Option<TestSubCommand>,
    pub target: Target,
    pub exclude: Vec<String>,
    pub only: Vec<String>,
    pub threads: Option<u32>,
    pub test: Option<String>,
    pub jobs: Option<u32>,
    pub force: bool,
    pub features: Option<Vec<String>>,
    pub no_default_features: bool,
    pub no_capture: bool,
}

impl TestCmdArgs {
    /// The requested sub-command; the composite one when none was named.
    pub fn get_command(&self) -> (r: TestSubCommand)
        ensures
            r == self.command.unwrap_or(TestSubCommand::All),
    {
        match self.command {
            Some(c) => c,
            None => TestSubCommand::All,
        }
    }
}

/// Execution is allowed unless the environment is production and the
/// override flag is unset.
pub open spec fn spec_allowed(env: Environment, force: bool) -> bool {
    env != Environment::Production || force
}

/// Returns true if the environment is OK: testing in production is blocked
/// unless the `force` flag is set.  The caller reports the blocked or
/// forced outcome; this predicate only decides it.
pub fn check_environment(args: &TestCmdArgs, env: &Environment) -> (r: bool)
    ensures
        r == spec_allowed(*env, args.force),
{
    if *env == Environment::Production {
        if args.force {
            return true;
        }
        return false;
    }
    true
}

/// The guard blocks exactly one case: production without the override.
/// Forcing unblocks production, and every other environment is free.
pub proof fn lemma_environment_guard()
    ensures
        !spec_allowed(Environment::Production, false),
        spec_allowed(Environment::Production, true),
        forall|e: Environment| e != Environment::Production ==> spec_allowed(e, false),
{
}

} // verus!
