//! Execution plans: the ordered steps a command resolves to, before any
//! process is spawned.  A plan is a pure function of the configuration and
//! the discovered member lists; the runner outside the library walks it in
//! order and stops at the first failure.

use vstd::prelude::*;
use crate::compose::{push_optional_args, spec_optional_args};
use crate::config::{Target, TestCmdArgs, WorkspaceMember};
use crate::strings::views;
use vstd::string::StringExecFns;

verus! {

broadcast use vstd::string::group_string_axioms;

/// How loud a diagnostic step is reported.
#[derive(Clone, Copy, Debug, PartialEq, Eq, Structural)]
pub enum DiagnosticLevel {
    Info,
    Error,
}

/// Whether a process run covers the whole workspace or one member.
pub enum Scope {
    Workspace,
    Member { name: String },
}

#[verifier::ext_equal]
pub enum ScopeView {
    Workspace,
    Member { name: Seq<char> },
}

impl View for Scope {
    type V = ScopeView;

    open spec fn view(&self) -> ScopeView {
        match self {
            Scope::Workspace => ScopeView::Workspace,
            Scope::Member { name } => ScopeView::Member { name: name@ },
        }
    }
}

/// One environment variable handed to a process run.
pub struct EnvVar {
    pub name: String,
    pub value: String,
}

#[verifier::ext_equal]
pub struct EnvVarView {
    pub name: Seq<char>,
    pub value: Seq<char>,
}

impl View for EnvVar {
    type V = EnvVarView;

    open spec fn view(&self) -> EnvVarView {
        EnvVarView { name: self.name@, value: self.value@ }
    }
}

/// The view of an optional string.
pub open spec fn opt_view(o: Option<String>) -> Option<Seq<char>> {
    match o {
        Some(s) => Some(s@),
        None => None,
    }
}

/// One planned process run: the program, its arguments and environment,
/// its scope, and the messages and patterns the runner reports with.  The
/// not-found pair classifies a missing test target as a soft skip.
pub struct Invocation {
    pub program: String,
    pub args: Vec<String>,
    pub envs: Vec<EnvVar>,
    pub scope: Scope,
    pub label: String,
    pub failure_message: String,
    pub output_pattern: Option<String>,
    pub not_found_pattern: Option<String>,
    pub not_found_message: Option<String>,
}

#[verifier::ext_equal]
pub struct InvocationView {
    pub program: Seq<char>,
    pub args: Seq<Seq<char>>,
    pub envs: Seq<EnvVarView>,
    pub scope: ScopeView,
    pub label: Seq<char>,
    pub failure_message: Seq<char>,
    pub output_pattern: Option<Seq<char>>,
    pub not_found_pattern: Option<Seq<char>>,
    pub not_found_message: Option<Seq<char>>,
}

impl View for Invocation {
    type V = InvocationView;

    open spec fn view(&self) -> InvocationView {
        InvocationView {
            program: self.program@,
            args: views(self.args@),
            envs: self.envs@.map_values(|e: EnvVar| e@),
            scope: self.scope@,
            label: self.label@,
            failure_message: self.failure_message@,
            output_pattern: opt_view(self.output_pattern),
            not_found_pattern: opt_view(self.not_found_pattern),
            not_found_message: opt_view(self.not_found_message),
        }
    }
}

/// One step of a plan.  Only a `Run` can fail; the other steps prepare
/// tooling or report a decision.
pub enum Step {
    EnsureCrateInstalled { name: String },
    AddComponent { name: String },
    Run(Invocation),
    Diagnostic { level: DiagnosticLevel, message: String },
}

#[verifier::ext_equal]
pub enum StepView {
    EnsureCrateInstalled { name: Seq<char> },
    AddComponent { name: Seq<char> },
    Run(InvocationView),
    Diagnostic { level: DiagnosticLevel, message: Seq<char> },
}

impl View for Step {
    type V = StepView;

    open spec fn view(&self) -> StepView {
        match self {
            Step::EnsureCrateInstalled { name } => StepView::EnsureCrateInstalled { name: name@ },
            Step::AddComponent { name } => StepView::AddComponent { name: name@ },
            Step::Run(inv) => StepView::Run(inv@),
            Step::Diagnostic { level, message } => StepView::Diagnostic {
                level: *level,
                message: message@,
            },
        }
    }
}

/// The views of a plan's steps.
pub open spec fn plan_view(p: Seq<Step>) -> Seq<StepView> {
    p.map_values(|s: Step| s@)
}

/// The test-name pattern handed to the harness; `default` when none is
/// configured.
pub open spec fn spec_test_pattern(args: TestCmdArgs, default: Seq<char>) -> Seq<char> {
    match args.test {
        Some(t) => t@,
        None => default,
    }
}

/// The one run a whole-workspace unit-test command resolves to.
pub open spec fn spec_unit_workspace_invocation(args: TestCmdArgs) -> InvocationView {
    InvocationView {
        program: "cargo"@,
        args: seq![
            "test"@,
            "--workspace"@,
            "--lib"@,
            "--bins"@,
            "--examples"@,
            spec_test_pattern(args, ""@),
            "--color"@,
            "always"@,
        ] + spec_optional_args(args),
        envs: Seq::empty(),
        scope: ScopeView::Workspace,
        label: "Unit Tests"@,
        failure_message: "Workspace Unit Tests failed"@,
        output_pattern: Some(".*target/[^/]+/deps/([^-\\s]+)"@),
        not_found_pattern: Some("no library targets found"@),
        not_found_message: Some("No library found to test for in workspace."@),
    }
}

/// The one run the unit tests of a single member resolve to.
pub open spec fn spec_unit_member_invocation(m: WorkspaceMember, args: TestCmdArgs) -> InvocationView {
    InvocationView {
        program: "cargo"@,
        args: seq![
            "test"@,
            spec_test_pattern(args, ""@),
            "--lib"@,
            "--bins"@,
            "--examples"@,
            "-p"@,
            m.name@,
            "--color=always"@,
        ] + spec_optional_args(args),
        envs: Seq::empty(),
        scope: ScopeView::Member { name: m.name@ },
        label: "Unit Tests: "@ + m.name@,
        failure_message: "Failed to execute unit test for '"@ + m.name@ + "'"@,
        output_pattern: None,
        not_found_pattern: Some("no library targets found"@),
        not_found_message: Some("No library found to test for in the crate '"@ + m.name@ + "'."@),
    }
}

/// The one run a whole-workspace integration-test command resolves to.
pub open spec fn spec_integration_workspace_invocation(args: TestCmdArgs) -> InvocationView {
    InvocationView {
        program: "cargo"@,
        args: seq![
            "test"@,
            "--workspace"@,
            "--test"@,
            spec_test_pattern(args, "*"@),
            "--color"@,
            "always"@,
        ] + spec_optional_args(args),
        envs: Seq::empty(),
        scope: ScopeView::Workspace,
        label: "Integration Tests"@,
        failure_message: "Workspace Integration Tests failed"@,
        output_pattern: Some(".*target/[^/]+/deps/([^-\\s]+)"@),
        not_found_pattern: Some("no test target matches pattern"@),
        not_found_message: Some("No tests found matching the pattern `test_*` in workspace."@),
    }
}

/// The one run the integration tests of a single member resolve to.
pub open spec fn spec_integration_member_invocation(
    m: WorkspaceMember,
    args: TestCmdArgs,
) -> InvocationView {
    InvocationView {
        program: "cargo"@,
        args: seq!["test"@, "--test"@, "*"@, "-p"@, m.name@, "--color"@, "always"@]
            + spec_optional_args(args),
        envs: Seq::empty(),
        scope: ScopeView::Member { name: m.name@ },
        label: "Integration Tests: "@ + m.name@,
        failure_message: "Failed to execute integration test for '"@ + m.name@ + "'"@,
        output_pattern: None,
        not_found_pattern: Some("no test target matches pattern"@),
        not_found_message: Some("No tests found matching the pattern `test_*` for '"@ + m.name@
            + "'."@),
    }
}

fn unit_workspace_invocation(args: &TestCmdArgs) -> (r: Invocation)
    ensures
        r@ == spec_unit_workspace_invocation(*args),
{
    let mut cmd_args: Vec<String> = Vec::new();
    cmd_args.push("test".to_owned());
    cmd_args.push("--workspace".to_owned());
    cmd_args.push("--lib".to_owned());
    cmd_args.push("--bins".to_owned());
    cmd_args.push("--examples".to_owned());
    match &args.test {
        Some(t) => cmd_args.push(t.clone()),
        None => cmd_args.push("".to_owned()),
    }
    cmd_args.push("--color".to_owned());
    cmd_args.push("always".to_owned());
    push_optional_args(&mut cmd_args, args);
    let r = Invocation {
        program: "cargo".to_owned(),
        args: cmd_args,
        envs: Vec::new(),
        scope: Scope::Workspace,
        label: "Unit Tests".to_owned(),
        failure_message: "Workspace Unit Tests failed".to_owned(),
        output_pattern: Some(".*target/[^/]+/deps/([^-\\s]+)".to_owned()),
        not_found_pattern: Some("no library targets found".to_owned()),
        not_found_message: Some("No library found to test for in workspace.".to_owned()),
    };
    proof {
        assert(r@.args =~= spec_unit_workspace_invocation(*args).args);
        assert(r@.envs =~= spec_unit_workspace_invocation(*args).envs);
        assert(r@ =~= spec_unit_workspace_invocation(*args));
    }
    r
}

fn unit_member_invocation(member: &WorkspaceMember, args: &TestCmdArgs) -> (r: Invocation)
    ensures
        r@ == spec_unit_member_invocation(*member, *args),
{
    let mut cmd_args: Vec<String> = Vec::new();
    cmd_args.push("test".to_owned());
    match &args.test {
        Some(t) => cmd_args.push(t.clone()),
        None => cmd_args.push("".to_owned()),
    }
    cmd_args.push("--lib".to_owned());
    cmd_args.push("--bins".to_owned());
    cmd_args.push("--examples".to_owned());
    cmd_args.push("-p".to_owned());
    cmd_args.push(member.name.clone());
    cmd_args.push("--color=always".to_owned());
    push_optional_args(&mut cmd_args, args);
    let mut label = "Unit Tests: ".to_owned();
    label.append(member.name.as_str());
    let mut failure_message = "Failed to execute unit test for '".to_owned();
    failure_message.append(member.name.as_str());
    failure_message.append("'");
    let mut not_found = "No library found to test for in the crate '".to_owned();
    not_found.append(member.name.as_str());
    not_found.append("'.");
    let r = Invocation {
        program: "cargo".to_owned(),
        args: cmd_args,
        envs: Vec::new(),
        scope: Scope::Member { name: member.name.clone() },
        label,
        failure_message,
        output_pattern: None,
        not_found_pattern: Some("no library targets found".to_owned()),
        not_found_message: Some(not_found),
    };
    proof {
        assert(r@.args =~= spec_unit_member_invocation(*member, *args).args);
        assert(r@.envs =~= spec_unit_member_invocation(*member, *args).envs);
        assert(r@ =~= spec_unit_member_invocation(*member, *args));
    }
    r
}

fn integration_workspace_invocation(args: &TestCmdArgs) -> (r: Invocation)
    ensures
        r@ == spec_integration_workspace_invocation(*args),
{
    let mut cmd_args: Vec<String> = Vec::new();
    cmd_args.push("test".to_owned());
    cmd_args.push("--workspace".to_owned());
    cmd_args.push("--test".to_owned());
    match &args.test {
        Some(t) => cmd_args.push(t.clone()),
        None => cmd_args.push("*".to_owned()),
    }
    cmd_args.push("--color".to_owned());
    cmd_args.push("always".to_owned());
    push_optional_args(&mut cmd_args, args);
    let r = Invocation {
        program: "cargo".to_owned(),
        args: cmd_args,
        envs: Vec::new(),
        scope: Scope::Workspace,
        label: "Integration Tests".to_owned(),
        failure_message: "Workspace Integration Tests failed".to_owned(),
        output_pattern: Some(".*target/[^/]+/deps/([^-\\s]+)".to_owned()),
        not_found_pattern: Some("no test target matches pattern".to_owned()),
        not_found_message: Some(
            "No tests found matching the pattern `test_*` in workspace.".to_owned(),
        ),
    };
    proof {
        assert(r@.args =~= spec_integration_workspace_invocation(*args).args);
        assert(r@.envs =~= spec_integration_workspace_invocation(*args).envs);
        assert(r@ =~= spec_integration_workspace_invocation(*args));
    }
    r
}

fn integration_member_invocation(member: &WorkspaceMember, args: &TestCmdArgs) -> (r: Invocation)
    ensures
        r@ == spec_integration_member_invocation(*member, *args),
{
    let mut cmd_args: Vec<String> = Vec::new();
    cmd_args.push("test".to_owned());
    cmd_args.push("--test".to_owned());
    cmd_args.push("*".to_owned());
    cmd_args.push("-p".to_owned());
    cmd_args.push(member.name.clone());
    cmd_args.push("--color".to_owned());
    cmd_args.push("always".to_owned());
    push_optional_args(&mut cmd_args, args);
    let mut label = "Integration Tests: ".to_owned();
    label.append(member.name.as_str());
    let mut failure_message = "Failed to execute integration test for '".to_owned();
    failure_message.append(member.name.as_str());
    failure_message.append("'");
    let mut not_found = "No tests found matching the pattern `test_*` for '".to_owned();
    not_found.append(member.name.as_str());
    not_found.append("'.");
    let r = Invocation {
        program: "cargo".to_owned(),
        args: cmd_args,
        envs: Vec::new(),
        scope: Scope::Member { name: member.name.clone() },
        label,
        failure_message,
        output_pattern: None,
        not_found_pattern: Some("no test target matches pattern".to_owned()),
        not_found_message: Some(not_found),
    };
    proof {
        assert(r@.args =~= spec_integration_member_invocation(*member, *args).args);
        assert(r@.envs =~= spec_integration_member_invocation(*member, *args).envs);
        assert(r@ =~= spec_integration_member_invocation(*member, *args));
    }
    r
}

/// A measure that strictly falls when the meta-selector expands.
pub open spec fn target_rank(t: Target) -> nat {
    if t == Target::AllPackages {
        1
    } else {
        0
    }
}

/// The plan of a unit-test command: one workspace run, one run per member
/// of the selected kind, or — for the meta-selector — the crate runs
/// followed by the example runs.  Resolution keeps the full member lists;
/// the exclude and only filters act later, at the per-member boundary.
pub open spec fn spec_run_unit(
    target: Target,
    args: TestCmdArgs,
    crates: Seq<WorkspaceMember>,
    examples: Seq<WorkspaceMember>,
) -> Seq<StepView> {
    match target {
        Target::Workspace => seq![StepView::Run(spec_unit_workspace_invocation(args))],
        Target::Crates => crates.map_values(
            |m: WorkspaceMember| StepView::Run(spec_unit_member_invocation(m, args)),
        ),
        Target::Examples => examples.map_values(
            |m: WorkspaceMember| StepView::Run(spec_unit_member_invocation(m, args)),
        ),
        Target::AllPackages => crates.map_values(
            |m: WorkspaceMember| StepView::Run(spec_unit_member_invocation(m, args)),
        ) + examples.map_values(
            |m: WorkspaceMember| StepView::Run(spec_unit_member_invocation(m, args)),
        ),
    }
}

/// The plan of an integration-test command, shaped as `spec_run_unit`.
pub open spec fn spec_run_integration(
    target: Target,
    args: TestCmdArgs,
    crates: Seq<WorkspaceMember>,
    examples: Seq<WorkspaceMember>,
) -> Seq<StepView> {
    match target {
        Target::Workspace => seq![StepView::Run(spec_integration_workspace_invocation(args))],
        Target::Crates => crates.map_values(
            |m: WorkspaceMember| StepView::Run(spec_integration_member_invocation(m, args)),
        ),
        Target::Examples => examples.map_values(
            |m: WorkspaceMember| StepView::Run(spec_integration_member_invocation(m, args)),
        ),
        Target::AllPackages => crates.map_values(
            |m: WorkspaceMember| StepView::Run(spec_integration_member_invocation(m, args)),
        ) + examples.map_values(
            |m: WorkspaceMember| StepView::Run(spec_integration_member_invocation(m, args)),
        ),
    }
}

/// Builds the unit-test plan for the selected target.
pub fn run_unit(
    target: &Target,
    args: &TestCmdArgs,
    crates: &Vec<WorkspaceMember>,
    examples: &Vec<WorkspaceMember>,
) -> (r: Vec<Step>)
    ensures
        plan_view(r@) == spec_run_unit(*target, *args, crates@, examples@),
    decreases target_rank(*target),
{
    match target {
        Target::Workspace => {
            let mut plan: Vec<Step> = Vec::new();
            plan.push(Step::Run(unit_workspace_invocation(args)));
            proof {
                assert(plan_view(plan@) =~= spec_run_unit(*target, *args, crates@, examples@));
            }
            plan
        },
        Target::Crates => {
            let mut plan: Vec<Step> = Vec::new();
            let mut i: usize = 0;
            while i < crates.len()
                invariant
                    i <= crates@.len(),
                    plan@.len() == i,
                    plan_view(plan@) =~= crates@.take(i as int).map_values(
                        |m: WorkspaceMember| StepView::Run(spec_unit_member_invocation(m, *args)),
                    ),
                decreases crates@.len() - i,
            {
                let ghost prev = plan@;
                plan.push(Step::Run(unit_member_invocation(&crates[i], args)));
                proof {
                    assert(plan_view(plan@) =~= plan_view(prev).push(
                        StepView::Run(spec_unit_member_invocation(crates@[i as int], *args)),
                    ));
                    assert(crates@.take(i + 1).map_values(
                        |m: WorkspaceMember| StepView::Run(spec_unit_member_invocation(m, *args)),
                    ) =~= crates@.take(i as int).map_values(
                        |m: WorkspaceMember| StepView::Run(spec_unit_member_invocation(m, *args)),
                    ).push(StepView::Run(spec_unit_member_invocation(crates@[i as int], *args))));
                }
                i += 1;
            }
            proof {
                assert(crates@.take(crates@.len() as int) =~= crates@);
                assert(plan_view(plan@) =~= spec_run_unit(*target, *args, crates@, examples@));
            }
            plan
        },
        Target::Examples => {
            let mut plan: Vec<Step> = Vec::new();
            let mut i: usize = 0;
            while i < examples.len()
                invariant
                    i <= examples@.len(),
                    plan@.len() == i,
                    plan_view(plan@) =~= examples@.take(i as int).map_values(
                        |m: WorkspaceMember| StepView::Run(spec_unit_member_invocation(m, *args)),
                    ),
                decreases examples@.len() - i,
            {
                let ghost prev = plan@;
                plan.push(Step::Run(unit_member_invocation(&examples[i], args)));
                proof {
                    assert(plan_view(plan@) =~= plan_view(prev).push(
                        StepView::Run(spec_unit_member_invocation(examples@[i as int], *args)),
                    ));
                    assert(examples@.take(i + 1).map_values(
                        |m: WorkspaceMember| StepView::Run(spec_unit_member_invocation(m, *args)),
                    ) =~= examples@.take(i as int).map_values(
                        |m: WorkspaceMember| StepView::Run(spec_unit_member_invocation(m, *args)),
                    ).push(StepView::Run(spec_unit_member_invocation(examples@[i as int], *args))));
                }
                i += 1;
            }
            proof {
                assert(examples@.take(examples@.len() as int) =~= examples@);
                assert(plan_view(plan@) =~= spec_run_unit(*target, *args, crates@, examples@));
            }
            plan
        },
        Target::AllPackages => {
            let mut plan = run_unit(&Target::Crates, args, crates, examples);
            let mut rest = run_unit(&Target::Examples, args, crates, examples);
            let ghost p1 = plan@;
            let ghost p2 = rest@;
            plan.append(&mut rest);
            proof {
                assert(plan_view(p1 + p2) =~= plan_view(p1) + plan_view(p2));
                assert(plan_view(plan@) =~= spec_run_unit(*target, *args, crates@, examples@));
            }
            plan
        },
    }
}

/// Builds the integration-test plan for the selected target.
pub fn run_integration(
    target: &Target,
    args: &TestCmdArgs,
    crates: &Vec<WorkspaceMember>,
    examples: &Vec<WorkspaceMember>,
) -> (r: Vec<Step>)
    ensures
        plan_view(r@) == spec_run_integration(*target, *args, crates@, examples@),
    decreases target_rank(*target),
{
    match target {
        Target::Workspace => {
            let mut plan: Vec<Step> = Vec::new();
            plan.push(Step::Run(integration_workspace_invocation(args)));
            proof {
                assert(plan_view(plan@) =~= spec_run_integration(
                    *target,
                    *args,
                    crates@,
                    examples@,
                ));
            }
            plan
        },
        Target::Crates => {
            let mut plan: Vec<Step> = Vec::new();
            let mut i: usize = 0;
            while i < crates.len()
                invariant
                    i <= crates@.len(),
                    plan@.len() == i,
                    plan_view(plan@) =~= crates@.take(i as int).map_values(
                        |m: WorkspaceMember|
                            StepView::Run(spec_integration_member_invocation(m, *args)),
                    ),
                decreases crates@.len() - i,
            {
                let ghost prev = plan@;
                plan.push(Step::Run(integration_member_invocation(&crates[i], args)));
                proof {
                    assert(plan_view(plan@) =~= plan_view(prev).push(
                        StepView::Run(spec_integration_member_invocation(crates@[i as int], *args)),
                    ));
                    assert(crates@.take(i + 1).map_values(
                        |m: WorkspaceMember|
                            StepView::Run(spec_integration_member_invocation(m, *args)),
                    ) =~= crates@.take(i as int).map_values(
                        |m: WorkspaceMember|
                            StepView::Run(spec_integration_member_invocation(m, *args)),
                    ).push(
                        StepView::Run(spec_integration_member_invocation(crates@[i as int], *args)),
                    ));
                }
                i += 1;
            }
            proof {
                assert(crates@.take(crates@.len() as int) =~= crates@);
                assert(plan_view(plan@) =~= spec_run_integration(
                    *target,
                    *args,
                    crates@,
                    examples@,
                ));
            }
            plan
        },
        Target::Examples => {
            let mut plan: Vec<Step> = Vec::new();
            let mut i: usize = 0;
            while i < examples.len()
                invariant
                    i <= examples@.len(),
                    plan@.len() == i,
                    plan_view(plan@) =~= examples@.take(i as int).map_values(
                        |m: WorkspaceMember|
                            StepView::Run(spec_integration_member_invocation(m, *args)),
                    ),
                decreases examples@.len() - i,
            {
                let ghost prev = plan@;
                plan.push(Step::Run(integration_member_invocation(&examples[i], args)));
                proof {
                    assert(plan_view(plan@) =~= plan_view(prev).push(
                        StepView::Run(
                            spec_integration_member_invocation(examples@[i as int], *args),
                        ),
                    ));
                    assert(examples@.take(i + 1).map_values(
                        |m: WorkspaceMember|
                            StepView::Run(spec_integration_member_invocation(m, *args)),
                    ) =~= examples@.take(i as int).map_values(
                        |m: WorkspaceMember|
                            StepView::Run(spec_integration_member_invocation(m, *args)),
                    ).push(
                        StepView::Run(
                            spec_integration_member_invocation(examples@[i as int], *args),
                        ),
                    ));
                }
                i += 1;
            }
            proof {
                assert(examples@.take(examples@.len() as int) =~= examples@);
                assert(plan_view(plan@) =~= spec_run_integration(
                    *target,
                    *args,
                    crates@,
                    examples@,
                ));
            }
            plan
        },
        Target::AllPackages => {
            let mut plan = run_integration(&Target::Crates, args, crates, examples);
            let mut rest = run_integration(&Target::Examples, args, crates, examples);
            let ghost p1 = plan@;
            let ghost p2 = rest@;
            plan.append(&mut rest);
            proof {
                assert(plan_view(p1 + p2) =~= plan_view(p1) + plan_view(p2));
                assert(plan_view(plan@) =~= spec_run_integration(
                    *target,
                    *args,
                    crates@,
                    examples@,
                ));
            }
            plan
        },
    }
}

/// The full plan of one test command: the composite sub-command expands to
/// the unit plan followed by the integration plan, never to itself.
pub open spec fn spec_test_plan(
    args: TestCmdArgs,
    crates: Seq<WorkspaceMember>,
    examples: Seq<WorkspaceMember>,
) -> Seq<StepView> {
    let c = args.command.unwrap_or(crate::config::TestSubCommand::All);
    if c == crate::config::TestSubCommand::Unit {
        spec_run_unit(args.target, args, crates, examples)
    } else if c == crate::config::TestSubCommand::Integration {
        spec_run_integration(args.target, args, crates, examples)
    } else {
        spec_run_unit(args.target, args, crates, examples) + spec_run_integration(
            args.target,
            args,
            crates,
            examples,
        )
    }
}

/// Builds the plan of one test command.
pub fn test_plan(
    args: &TestCmdArgs,
    crates: &Vec<WorkspaceMember>,
    examples: &Vec<WorkspaceMember>,
) -> (r: Vec<Step>)
    ensures
        plan_view(r@) == spec_test_plan(*args, crates@, examples@),
{
    match args.get_command() {
        crate::config::TestSubCommand::Unit => run_unit(&args.target, args, crates, examples),
        crate::config::TestSubCommand::Integration => run_integration(
            &args.target,
            args,
            crates,
            examples,
        ),
        crate::config::TestSubCommand::All => {
            let mut plan = run_unit(&args.target, args, crates, examples);
            let mut rest = run_integration(&args.target, args, crates, examples);
            let ghost p1 = plan@;
            let ghost p2 = rest@;
            plan.append(&mut rest);
            proof {
                assert(plan_view(p1 + p2) =~= plan_view(p1) + plan_view(p2));
                assert(plan_view(plan@) =~= spec_test_plan(*args, crates@, examples@));
            }
            plan
        },
    }
}

/// The composite sub-command expands to the ordered sequence of the
/// non-composite ones — the unit plan followed by the integration plan —
/// and never to itself.
pub proof fn lemma_composite_subcommand_expansion(
    args: TestCmdArgs,
    crates: Seq<WorkspaceMember>,
    examples: Seq<WorkspaceMember>,
)
    requires
        args.command.unwrap_or(crate::config::TestSubCommand::All)
            == crate::config::TestSubCommand::All,
    ensures
        spec_test_plan(args, crates, examples) == spec_run_unit(args.target, args, crates, examples)
            + spec_run_integration(args.target, args, crates, examples),
{
}

/// A step that runs a process scoped to a single member.
pub open spec fn is_member_run(s: StepView) -> bool {
    match s {
        StepView::Run(inv) => match inv.scope {
            ScopeView::Member { .. } => true,
            _ => false,
        },
        _ => false,
    }
}

/// Resolving the meta-selector expands exactly once: its plan is the crate
/// plan followed by the example plan, and every step of it runs a single
/// member — never the whole-workspace sentinel and never the meta-selector
/// again.
pub proof fn lemma_all_packages_expansion(
    args: TestCmdArgs,
    crates: Seq<WorkspaceMember>,
    examples: Seq<WorkspaceMember>,
)
    ensures
        spec_run_unit(Target::AllPackages, args, crates, examples) == spec_run_unit(
            Target::Crates,
            args,
            crates,
            examples,
        ) + spec_run_unit(Target::Examples, args, crates, examples),
        spec_run_integration(Target::AllPackages, args, crates, examples) == spec_run_integration(
            Target::Crates,
            args,
            crates,
            examples,
        ) + spec_run_integration(Target::Examples, args, crates, examples),
        forall|i: int|
            0 <= i < spec_run_unit(Target::AllPackages, args, crates, examples).len()
                ==> is_member_run(#[trigger] spec_run_unit(
                Target::AllPackages,
                args,
                crates,
                examples,
            )[i]),
        forall|i: int|
            0 <= i < spec_run_integration(Target::AllPackages, args, crates, examples).len()
                ==> is_member_run(#[trigger] spec_run_integration(
                Target::AllPackages,
                args,
                crates,
                examples,
            )[i]),
{
}

} // verus!
