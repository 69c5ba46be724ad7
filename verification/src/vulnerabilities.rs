//! The vulnerabilities command family: nightly-only static checks and the
//! sanitizer runs, each resolved to a plan.  Whether the toolchain is the
//! nightly channel and which platform targets are installed are facts the
//! caller reads from the toolchain and hands in; the decisions here are
//! pure functions of them.

use vstd::prelude::*;
use crate::plan::{
    DiagnosticLevel,
    EnvVar,
    EnvVarView,
    Invocation,
    InvocationView,
    Scope,
    ScopeView,
    Step,
    StepView,
    plan_view,
};
use crate::sanitizer::{
    Sanitizer,
    spec_is_supported,
    spec_sanitizer_cargo_features,
    spec_sanitizer_flags,
    spec_sanitizer_name,
};
use crate::strings::views;
use vstd::string::StringExecFns;

verus! {

broadcast use vstd::string::group_string_axioms;

/// Sub-commands of the vulnerabilities family.  `All` is composite: it
/// expands to the nightly checks and the sanitizers supported on the
/// default host platform, never to itself.
#[derive(Clone, Copy, Debug, PartialEq, Eq, Structural)]
pub enum VulnerabilitiesSubCommand {
    All,
    NightlyChecks,
    AddressSanitizer,
    ControlFlowIntegrity,
    HWAddressSanitizer,
    KernelControlFlowIntegrity,
    LeakSanitizer,
    MemorySanitizer,
    MemTagSanitizer,
    SafeStack,
    ShadowCallStack,
    ThreadSanitizer,
}

/// Configuration of one vulnerabilities invocation.
pub struct VulnerabilitiesCmdArgs {
    pub command: Option<VulnerabilitiesSubCommand>,
}

impl VulnerabilitiesCmdArgs {
    /// The requested sub-command; the composite one when none was named.
    pub fn get_command(&self) -> (r: VulnerabilitiesSubCommand)
        ensures
            r == self.command.unwrap_or(VulnerabilitiesSubCommand::All),
    {
        match self.command {
            Some(c) => c,
            None => VulnerabilitiesSubCommand::All,
        }
    }
}

/// The diagnostic reported when a vulnerabilities command runs outside the
/// nightly channel: the command is a no-op then, not a failure.
pub open spec fn spec_nightly_msg() -> Seq<char> {
    "This command requires the nightly toolchain. Install it and run again with 'cargo +nightly'."@
}

/// The diagnostic reported when no installed platform target supports the
/// requested sanitizer.
pub open spec fn spec_no_target_msg() -> Seq<char> {
    "No supported target found for this sanitizer."@
}

/// The instrumented test run of one sanitizer: the sanitizer's flags in
/// both flag variables — the instrumentation one with the fixed
/// optimization level appended — plus its extra command-line tokens.
pub open spec fn spec_sanitizer_invocation(s: Sanitizer) -> InvocationView {
    InvocationView {
        program: "cargo"@,
        args: seq!["test"@, "--"@, "--color=always"@, "--no-capture"@]
            + spec_sanitizer_cargo_features(s),
        envs: seq![
            EnvVarView {
                name: "RUSTFLAGS"@,
                value: spec_sanitizer_flags(s) + " "@ + "-Copt-level=3"@,
            },
            EnvVarView { name: "RUSTDOCFLAGS"@, value: spec_sanitizer_flags(s) },
        ],
        scope: ScopeView::Workspace,
        label: "Sanitizer: "@ + spec_sanitizer_name(s),
        failure_message: "Sanitizer found issues!"@,
        output_pattern: None,
        not_found_pattern: None,
        not_found_message: None,
    }
}

/// The plan of one sanitizer run: a diagnostic no-op outside nightly, the
/// instrumented run where a supported target is installed, an
/// informational no-op otherwise.
pub open spec fn spec_run_tests(s: Sanitizer, nightly: bool, installed: Seq<Seq<char>>) -> Seq<
    StepView,
> {
    if !nightly {
        seq![
            StepView::Diagnostic { level: DiagnosticLevel::Error, message: spec_nightly_msg() },
        ]
    } else if spec_is_supported(s, installed) {
        seq![StepView::Run(spec_sanitizer_invocation(s))]
    } else {
        seq![
            StepView::Diagnostic { level: DiagnosticLevel::Info, message: spec_no_target_msg() },
        ]
    }
}

/// The plan of the nightly-only static checks: install the checker, add
/// the source component, prepare its sysroot, run it.
pub open spec fn spec_run_cargo_careful(nightly: bool) -> Seq<StepView> {
    if nightly {
        seq![
            StepView::EnsureCrateInstalled { name: "cargo-careful"@ },
            StepView::AddComponent { name: "rust-src"@ },
            StepView::Run(spec_careful_setup_invocation()),
            StepView::Run(spec_careful_test_invocation()),
        ]
    } else {
        seq![
            StepView::Diagnostic { level: DiagnosticLevel::Error, message: spec_nightly_msg() },
        ]
    }
}

/// The sysroot preparation run of the static checker.
pub open spec fn spec_careful_setup_invocation() -> InvocationView {
    InvocationView {
        program: "cargo"@,
        args: seq!["careful"@, "setup"@],
        envs: Seq::empty(),
        scope: ScopeView::Workspace,
        label: "Cargo: careful setup"@,
        failure_message: "Error preparing cargo sysroot."@,
        output_pattern: None,
        not_found_pattern: None,
        not_found_message: None,
    }
}

/// The checking run of the static checker.
pub open spec fn spec_careful_test_invocation() -> InvocationView {
    InvocationView {
        program: "cargo"@,
        args: seq!["careful"@, "test"@],
        envs: Seq::empty(),
        scope: ScopeView::Workspace,
        label: "Cargo: run careful checks"@,
        failure_message: "Cargo careful test has errors."@,
        output_pattern: None,
        not_found_pattern: None,
        not_found_message: None,
    }
}

/// The plan of one vulnerabilities sub-command.  The composite one expands
/// to the static checks and then the sanitizers the default host platform
/// supports, in a fixed order, never to itself.
pub open spec fn spec_vulnerabilities_plan(
    c: VulnerabilitiesSubCommand,
    nightly: bool,
    installed: Seq<Seq<char>>,
) -> Seq<StepView> {
    match c {
        VulnerabilitiesSubCommand::NightlyChecks => spec_run_cargo_careful(nightly),
        VulnerabilitiesSubCommand::AddressSanitizer => spec_run_tests(
            Sanitizer::Address,
            nightly,
            installed,
        ),
        VulnerabilitiesSubCommand::ControlFlowIntegrity => spec_run_tests(
            Sanitizer::CFI,
            nightly,
            installed,
        ),
        VulnerabilitiesSubCommand::HWAddressSanitizer => spec_run_tests(
            Sanitizer::HWAddress,
            nightly,
            installed,
        ),
        VulnerabilitiesSubCommand::KernelControlFlowIntegrity => spec_run_tests(
            Sanitizer::KCFI,
            nightly,
            installed,
        ),
        VulnerabilitiesSubCommand::LeakSanitizer => spec_run_tests(
            Sanitizer::Leak,
            nightly,
            installed,
        ),
        VulnerabilitiesSubCommand::MemorySanitizer => spec_run_tests(
            Sanitizer::Memory,
            nightly,
            installed,
        ),
        VulnerabilitiesSubCommand::MemTagSanitizer => spec_run_tests(
            Sanitizer::MemTag,
            nightly,
            installed,
        ),
        VulnerabilitiesSubCommand::SafeStack => spec_run_tests(
            Sanitizer::SafeStack,
            nightly,
            installed,
        ),
        VulnerabilitiesSubCommand::ShadowCallStack => spec_run_tests(
            Sanitizer::ShadowCallStack,
            nightly,
            installed,
        ),
        VulnerabilitiesSubCommand::ThreadSanitizer => spec_run_tests(
            Sanitizer::Thread,
            nightly,
            installed,
        ),
        VulnerabilitiesSubCommand::All => spec_run_cargo_careful(nightly) + spec_run_tests(
            Sanitizer::Address,
            nightly,
            installed,
        ) + spec_run_tests(Sanitizer::Leak, nightly, installed) + spec_run_tests(
            Sanitizer::Memory,
            nightly,
            installed,
        ) + spec_run_tests(Sanitizer::SafeStack, nightly, installed) + spec_run_tests(
            Sanitizer::Thread,
            nightly,
            installed,
        ),
    }
}

fn nightly_diagnostic() -> (r: Step)
    ensures
        r@ == (StepView::Diagnostic { level: DiagnosticLevel::Error, message: spec_nightly_msg() }),
{
    Step::Diagnostic {
        level: DiagnosticLevel::Error,
        message:
            "This command requires the nightly toolchain. Install it and run again with 'cargo +nightly'.".to_owned(),
    }
}

/// Builds the plan of the nightly-only static checks.
pub fn run_cargo_careful(nightly: bool) -> (r: Vec<Step>)
    ensures
        plan_view(r@) == spec_run_cargo_careful(nightly),
{
    let mut plan: Vec<Step> = Vec::new();
    if nightly {
        plan.push(Step::EnsureCrateInstalled { name: "cargo-careful".to_owned() });
        plan.push(Step::AddComponent { name: "rust-src".to_owned() });
        let mut setup_args: Vec<String> = Vec::new();
        setup_args.push("careful".to_owned());
        setup_args.push("setup".to_owned());
        let setup = Invocation {
            program: "cargo".to_owned(),
            args: setup_args,
            envs: Vec::new(),
            scope: Scope::Workspace,
            label: "Cargo: careful setup".to_owned(),
            failure_message: "Error preparing cargo sysroot.".to_owned(),
            output_pattern: None,
            not_found_pattern: None,
            not_found_message: None,
        };
        proof {
            assert(setup@.args =~= spec_careful_setup_invocation().args);
            assert(setup@.envs =~= spec_careful_setup_invocation().envs);
            assert(setup@ =~= spec_careful_setup_invocation());
        }
        plan.push(Step::Run(setup));
        let mut test_args: Vec<String> = Vec::new();
        test_args.push("careful".to_owned());
        test_args.push("test".to_owned());
        let check = Invocation {
            program: "cargo".to_owned(),
            args: test_args,
            envs: Vec::new(),
            scope: Scope::Workspace,
            label: "Cargo: run careful checks".to_owned(),
            failure_message: "Cargo careful test has errors.".to_owned(),
            output_pattern: None,
            not_found_pattern: None,
            not_found_message: None,
        };
        proof {
            assert(check@.args =~= spec_careful_test_invocation().args);
            assert(check@.envs =~= spec_careful_test_invocation().envs);
            assert(check@ =~= spec_careful_test_invocation());
        }
        plan.push(Step::Run(check));
    } else {
        plan.push(nightly_diagnostic());
    }
    proof {
        assert(plan_view(plan@) =~= spec_run_cargo_careful(nightly));
    }
    plan
}

impl Sanitizer {
    /// Builds the plan of this sanitizer's instrumented test run, from the
    /// channel and the installed platform targets.
    pub fn run_tests(&self, nightly: bool, installed_targets: &Vec<String>) -> (r: Vec<Step>)
        ensures
            plan_view(r@) == spec_run_tests(*self, nightly, views(installed_targets@)),
    {
        let mut plan: Vec<Step> = Vec::new();
        if !nightly {
            plan.push(nightly_diagnostic());
        } else if self.is_target_supported(installed_targets) {
            let mut args: Vec<String> = Vec::new();
            args.push("test".to_owned());
            args.push("--".to_owned());
            args.push("--color=always".to_owned());
            args.push("--no-capture".to_owned());
            let features = self.cargo_features();
            let mut j: usize = 0;
            while j < features.len()
                invariant
                    j <= features@.len(),
                    features@.map_values(|t: &'static str| t@) == spec_sanitizer_cargo_features(
                        *self,
                    ),
                    views(args@) =~= seq!["test"@, "--"@, "--color=always"@, "--no-capture"@]
                        + spec_sanitizer_cargo_features(*self).take(j as int),
                decreases features@.len() - j,
            {
                let ghost prev = args@;
                args.push(features[j].to_owned());
                proof {
                    assert(views(args@) =~= views(prev).push(features@[j as int]@));
                    assert(spec_sanitizer_cargo_features(*self).take(j + 1)
                        =~= spec_sanitizer_cargo_features(*self).take(j as int).push(
                        spec_sanitizer_cargo_features(*self)[j as int],
                    ));
                }
                j += 1;
            }
            let mut instrumentation = self.flags().to_owned();
            instrumentation.append(" ");
            instrumentation.append("-Copt-level=3");
            let mut envs: Vec<EnvVar> = Vec::new();
            envs.push(EnvVar { name: "RUSTFLAGS".to_owned(), value: instrumentation });
            envs.push(EnvVar { name: "RUSTDOCFLAGS".to_owned(), value: self.flags().to_owned() });
            let mut label = "Sanitizer: ".to_owned();
            label.append(self.name());
            let inv = Invocation {
                program: "cargo".to_owned(),
                args,
                envs,
                scope: Scope::Workspace,
                label,
                failure_message: "Sanitizer found issues!".to_owned(),
                output_pattern: None,
                not_found_pattern: None,
                not_found_message: None,
            };
            proof {
                let s = spec_sanitizer_invocation(*self);
                assert(spec_sanitizer_cargo_features(*self).take(
                    spec_sanitizer_cargo_features(*self).len() as int,
                ) =~= spec_sanitizer_cargo_features(*self));
                assert(inv@.args =~= s.args);
                assert(inv@.envs =~= s.envs);
                assert(inv@ =~= s);
            }
            plan.push(Step::Run(inv));
        } else {
            plan.push(
                Step::Diagnostic {
                    level: DiagnosticLevel::Info,
                    message: "No supported target found for this sanitizer.".to_owned(),
                },
            );
        }
        proof {
            assert(plan_view(plan@) =~= spec_run_tests(*self, nightly, views(installed_targets@)));
        }
        plan
    }
}

impl VulnerabilitiesSubCommand {
    /// Builds the plan of this sub-command.  The composite plan stops being
    /// built here; stopping at the first failing step is the runner's part,
    /// decided by the dispatcher.
    pub fn run(&self, nightly: bool, installed_targets: &Vec<String>) -> (r: Vec<Step>)
        ensures
            plan_view(r@) == spec_vulnerabilities_plan(*self, nightly, views(installed_targets@)),
    {
        match self {
            VulnerabilitiesSubCommand::NightlyChecks => run_cargo_careful(nightly),
            VulnerabilitiesSubCommand::AddressSanitizer => Sanitizer::Address.run_tests(
                nightly,
                installed_targets,
            ),
            VulnerabilitiesSubCommand::ControlFlowIntegrity => Sanitizer::CFI.run_tests(
                nightly,
                installed_targets,
            ),
            VulnerabilitiesSubCommand::HWAddressSanitizer => Sanitizer::HWAddress.run_tests(
                nightly,
                installed_targets,
            ),
            VulnerabilitiesSubCommand::KernelControlFlowIntegrity => Sanitizer::KCFI.run_tests(
                nightly,
                installed_targets,
            ),
            VulnerabilitiesSubCommand::LeakSanitizer => Sanitizer::Leak.run_tests(
                nightly,
                installed_targets,
            ),
            VulnerabilitiesSubCommand::MemorySanitizer => Sanitizer::Memory.run_tests(
                nightly,
                installed_targets,
            ),
            VulnerabilitiesSubCommand::MemTagSanitizer => Sanitizer::MemTag.run_tests(
                nightly,
                installed_targets,
            ),
            VulnerabilitiesSubCommand::SafeStack => Sanitizer::SafeStack.run_tests(
                nightly,
                installed_targets,
            ),
            VulnerabilitiesSubCommand::ShadowCallStack => Sanitizer::ShadowCallStack.run_tests(
                nightly,
                installed_targets,
            ),
            VulnerabilitiesSubCommand::ThreadSanitizer => Sanitizer::Thread.run_tests(
                nightly,
                installed_targets,
            ),
            VulnerabilitiesSubCommand::All => {
                let mut plan = run_cargo_careful(nightly);
                let mut part = Sanitizer::Address.run_tests(nightly, installed_targets);
                let ghost p1 = plan@;
                let ghost p2 = part@;
                plan.append(&mut part);
                proof {
                    assert(plan_view(p1 + p2) =~= plan_view(p1) + plan_view(p2));
                }
                let mut part = Sanitizer::Leak.run_tests(nightly, installed_targets);
                let ghost p3 = plan@;
                let ghost p4 = part@;
                plan.append(&mut part);
                proof {
                    assert(plan_view(p3 + p4) =~= plan_view(p3) + plan_view(p4));
                }
                let mut part = Sanitizer::Memory.run_tests(nightly, installed_targets);
                let ghost p5 = plan@;
                let ghost p6 = part@;
                plan.append(&mut part);
                proof {
                    assert(plan_view(p5 + p6) =~= plan_view(p5) + plan_view(p6));
                }
                let mut part = Sanitizer::SafeStack.run_tests(nightly, installed_targets);
                let ghost p7 = plan@;
                let ghost p8 = part@;
                plan.append(&mut part);
                proof {
                    assert(plan_view(p7 + p8) =~= plan_view(p7) + plan_view(p8));
                }
                let mut part = Sanitizer::Thread.run_tests(nightly, installed_targets);
                let ghost p9 = plan@;
                let ghost p10 = part@;
                plan.append(&mut part);
                proof {
                    assert(plan_view(p9 + p10) =~= plan_view(p9) + plan_view(p10));
                    assert(plan_view(plan@) =~= spec_vulnerabilities_plan(
                        *self,
                        nightly,
                        views(installed_targets@),
                    ));
                }
                plan
            },
        }
    }
}

/// Builds the plan of one vulnerabilities command.
pub fn handle_command(
    args: &VulnerabilitiesCmdArgs,
    nightly: bool,
    installed_targets: &Vec<String>,
) -> (r: Vec<Step>)
    ensures
        plan_view(r@) == spec_vulnerabilities_plan(
            args.command.unwrap_or(VulnerabilitiesSubCommand::All),
            nightly,
            views(installed_targets@),
        ),
{
    args.get_command().run(nightly, installed_targets)
}

} // verus!
