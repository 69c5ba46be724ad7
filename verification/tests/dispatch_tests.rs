use xtask_core::config::{Target, TestCmdArgs, TestSubCommand, WorkspaceMember, WorkspaceMemberType};
use xtask_core::dispatch::{member_selected, Dispatcher};
use xtask_core::plan::{run_integration, run_unit, test_plan, Scope, Step};
use xtask_core::sanitizer::Sanitizer;
use xtask_core::vulnerabilities::{
    handle_command, run_cargo_careful, VulnerabilitiesCmdArgs, VulnerabilitiesSubCommand,
};
use xtask_core::plan::DiagnosticLevel;

fn make_args(target: Target, command: TestSubCommand) -> TestCmdArgs {
    TestCmdArgs {
        command: Some(command),
        target,
        exclude: Vec::new(),
        only: Vec::new(),
        threads: None,
        test: None,
        jobs: None,
        force: false,
        features: None,
        no_default_features: false,
        no_capture: false,
    }
}

fn member(name: &str) -> WorkspaceMember {
    WorkspaceMember {
        name: name.to_string(),
        kind: WorkspaceMemberType::Crate,
    }
}

fn run_scope_name(step: &Step) -> Option<String> {
    match step {
        Step::Run(inv) => match &inv.scope {
            Scope::Member { name } => Some(name.clone()),
            Scope::Workspace => None,
        },
        _ => panic!("expected a run step"),
    }
}

#[test]
fn test_all_subcommand_fails_fast_before_integration() {
    // A composite test command over the whole workspace plans the unit
    // phase first; once that phase is reported failed, the dispatcher
    // never issues the integration phase.
    let args = make_args(Target::Workspace, TestSubCommand::All);
    let plan = test_plan(&args, &Vec::new(), &Vec::new());
    assert_eq!(plan.len(), 2);
    let mut dispatcher = Dispatcher::new(plan, Vec::new(), Vec::new());
    let mut executed: usize = 0;
    while let Some(i) = dispatcher.next_step() {
        executed += 1;
        assert_eq!(i, 0, "only the unit phase may run");
        dispatcher.report(false);
    }
    assert_eq!(executed, 1);
}

#[test]
fn test_all_subcommand_runs_both_phases_on_success() {
    let args = make_args(Target::Workspace, TestSubCommand::All);
    let plan = test_plan(&args, &Vec::new(), &Vec::new());
    let mut dispatcher = Dispatcher::new(plan, Vec::new(), Vec::new());
    let mut executed: Vec<usize> = Vec::new();
    while let Some(i) = dispatcher.next_step() {
        executed.push(i);
        dispatcher.report(true);
    }
    assert_eq!(executed, vec![0, 1]);
}

#[test]
fn test_all_packages_never_yields_workspace_runs() {
    let args = make_args(Target::AllPackages, TestSubCommand::Unit);
    let crates = vec![member("alpha"), member("beta")];
    let examples = vec![WorkspaceMember {
        name: "demo".to_string(),
        kind: WorkspaceMemberType::Example,
    }];
    let plan = run_unit(&Target::AllPackages, &args, &crates, &examples);
    assert_eq!(plan.len(), 3);
    let names: Vec<String> = plan.iter().map(|s| run_scope_name(s).unwrap()).collect();
    assert_eq!(names, vec!["alpha", "beta", "demo"]);
}

#[test]
fn test_all_packages_expands_to_crates_then_examples() {
    let args = make_args(Target::AllPackages, TestSubCommand::Integration);
    let crates = vec![member("alpha")];
    let examples = vec![WorkspaceMember {
        name: "demo".to_string(),
        kind: WorkspaceMemberType::Example,
    }];
    let whole = run_integration(&Target::AllPackages, &args, &crates, &examples);
    let names: Vec<String> = whole.iter().map(|s| run_scope_name(s).unwrap()).collect();
    assert_eq!(names, vec!["alpha", "demo"]);
}

#[test]
fn test_exclude_filters_at_member_boundary_not_resolution() {
    // Resolution returns both members; the dispatcher skips the excluded
    // one at the per-member boundary, so exactly one run is issued.
    let mut args = make_args(Target::Crates, TestSubCommand::Unit);
    args.exclude = vec!["io".to_string()];
    let crates = vec![member("core"), member("io")];
    let plan = test_plan(&args, &crates, &Vec::new());
    assert_eq!(plan.len(), 2, "resolution keeps the full member list");
    let mut dispatcher = Dispatcher::new(plan, args.exclude.clone(), args.only.clone());
    let mut issued: Vec<String> = Vec::new();
    while let Some(i) = dispatcher.next_step() {
        issued.push(run_scope_name(dispatcher.step_at(i)).unwrap());
        dispatcher.report(true);
    }
    assert_eq!(issued, vec!["core"]);
}

#[test]
fn test_only_filter_restricts_members() {
    let mut args = make_args(Target::Crates, TestSubCommand::Unit);
    args.only = vec!["io".to_string()];
    let crates = vec![member("core"), member("io")];
    let plan = test_plan(&args, &crates, &Vec::new());
    let mut dispatcher = Dispatcher::new(plan, args.exclude.clone(), args.only.clone());
    let mut issued: Vec<String> = Vec::new();
    while let Some(i) = dispatcher.next_step() {
        issued.push(run_scope_name(dispatcher.step_at(i)).unwrap());
        dispatcher.report(true);
    }
    assert_eq!(issued, vec!["io"]);
}

#[test]
fn test_member_failure_aborts_remaining_members() {
    let args = make_args(Target::Crates, TestSubCommand::Unit);
    let crates = vec![member("one"), member("two"), member("three")];
    let plan = test_plan(&args, &crates, &Vec::new());
    let mut dispatcher = Dispatcher::new(plan, Vec::new(), Vec::new());
    let mut issued: usize = 0;
    while let Some(_i) = dispatcher.next_step() {
        issued += 1;
        dispatcher.report(false);
    }
    assert_eq!(issued, 1);
}

#[test]
fn test_member_selected_rules() {
    let exclude = vec!["io".to_string()];
    let only: Vec<String> = Vec::new();
    assert!(member_selected(&"core".to_string(), &exclude, &only));
    assert!(!member_selected(&"io".to_string(), &exclude, &only));
    let only = vec!["core".to_string()];
    assert!(member_selected(&"core".to_string(), &exclude, &only));
    assert!(!member_selected(&"net".to_string(), &exclude, &only));
    // An excluded name loses even when the only list names it.
    let both = vec!["io".to_string()];
    assert!(!member_selected(&"io".to_string(), &both, &both));
}

#[test]
fn test_empty_member_list_is_a_valid_no_op() {
    let args = make_args(Target::Crates, TestSubCommand::Unit);
    let plan = test_plan(&args, &Vec::new(), &Vec::new());
    assert_eq!(plan.len(), 0);
    let mut dispatcher = Dispatcher::new(plan, Vec::new(), Vec::new());
    assert_eq!(dispatcher.next_step(), None);
}

#[test]
fn test_workspace_unit_invocation_tokens() {
    let args = make_args(Target::Workspace, TestSubCommand::Unit);
    let plan = run_unit(&Target::Workspace, &args, &Vec::new(), &Vec::new());
    assert_eq!(plan.len(), 1);
    match &plan[0] {
        Step::Run(inv) => {
            assert_eq!(inv.program, "cargo");
            let expected: Vec<String> = vec![
                "test",
                "--workspace",
                "--lib",
                "--bins",
                "--examples",
                "",
                "--color",
                "always",
                "--",
                "--color=always",
            ]
            .into_iter()
            .map(|s| s.to_string())
            .collect();
            assert_eq!(inv.args, expected);
            assert_eq!(inv.label, "Unit Tests");
            assert_eq!(inv.failure_message, "Workspace Unit Tests failed");
            assert_eq!(
                inv.not_found_pattern.as_deref(),
                Some("no library targets found")
            );
        }
        _ => panic!("expected a run step"),
    }
}

#[test]
fn test_member_integration_invocation_tokens() {
    let args = make_args(Target::Crates, TestSubCommand::Integration);
    let crates = vec![member("core")];
    let plan = run_integration(&Target::Crates, &args, &crates, &Vec::new());
    assert_eq!(plan.len(), 1);
    match &plan[0] {
        Step::Run(inv) => {
            let expected: Vec<String> = vec![
                "test",
                "--test",
                "*",
                "-p",
                "core",
                "--color",
                "always",
                "--",
                "--color=always",
            ]
            .into_iter()
            .map(|s| s.to_string())
            .collect();
            assert_eq!(inv.args, expected);
            assert_eq!(inv.label, "Integration Tests: core");
            assert_eq!(
                inv.failure_message,
                "Failed to execute integration test for 'core'"
            );
            assert_eq!(
                inv.not_found_message.as_deref(),
                Some("No tests found matching the pattern `test_*` for 'core'.")
            );
        }
        _ => panic!("expected a run step"),
    }
}

#[test]
fn test_vulnerabilities_outside_nightly_is_diagnostic_no_op() {
    let args = VulnerabilitiesCmdArgs {
        command: Some(VulnerabilitiesSubCommand::AddressSanitizer),
    };
    let plan = handle_command(&args, false, &vec!["x86_64-unknown-linux-gnu".to_string()]);
    assert_eq!(plan.len(), 1);
    match &plan[0] {
        Step::Diagnostic { level, message } => {
            assert_eq!(*level, DiagnosticLevel::Error);
            assert!(message.contains("nightly"));
        }
        _ => panic!("expected a diagnostic step"),
    }
}

#[test]
fn test_sanitizer_run_without_supported_target_is_info_no_op() {
    let plan = Sanitizer::ShadowCallStack.run_tests(true, &vec![
        "x86_64-unknown-linux-gnu".to_string(),
    ]);
    assert_eq!(plan.len(), 1);
    match &plan[0] {
        Step::Diagnostic { level, message } => {
            assert_eq!(*level, DiagnosticLevel::Info);
            assert_eq!(message.as_str(), "No supported target found for this sanitizer.");
        }
        _ => panic!("expected a diagnostic step"),
    }
}

#[test]
fn test_sanitizer_run_environment_variables() {
    let plan = Sanitizer::Address.run_tests(true, &vec!["x86_64-unknown-linux-gnu".to_string()]);
    assert_eq!(plan.len(), 1);
    match &plan[0] {
        Step::Run(inv) => {
            assert_eq!(inv.program, "cargo");
            let expected: Vec<String> = vec!["test", "--", "--color=always", "--no-capture"]
                .into_iter()
                .map(|s| s.to_string())
                .collect();
            assert_eq!(inv.args, expected);
            assert_eq!(inv.envs.len(), 2);
            assert_eq!(inv.envs[0].name, "RUSTFLAGS");
            assert_eq!(inv.envs[0].value, "-Zsanitizer=address -Copt-level=3");
            assert_eq!(inv.envs[1].name, "RUSTDOCFLAGS");
            assert_eq!(inv.envs[1].value, "-Zsanitizer=address");
            assert_eq!(inv.label, "Sanitizer: AddressSanitizer");
            assert_eq!(inv.failure_message, "Sanitizer found issues!");
        }
        _ => panic!("expected a run step"),
    }
}

#[test]
fn test_cfi_run_appends_build_std_tokens() {
    let plan = Sanitizer::CFI.run_tests(true, &vec!["x86_64-unknown-linux-gnu".to_string()]);
    match &plan[0] {
        Step::Run(inv) => {
            let expected: Vec<String> = vec![
                "test",
                "--",
                "--color=always",
                "--no-capture",
                "-Zbuild-std",
                "--target x86_64-unknown-linux-gnu",
            ]
            .into_iter()
            .map(|s| s.to_string())
            .collect();
            assert_eq!(inv.args, expected);
        }
        _ => panic!("expected a run step"),
    }
}

#[test]
fn test_cargo_careful_plan_on_nightly() {
    let plan = run_cargo_careful(true);
    assert_eq!(plan.len(), 4);
    match &plan[0] {
        Step::EnsureCrateInstalled { name } => assert_eq!(name.as_str(), "cargo-careful"),
        _ => panic!("expected the install step first"),
    }
    match &plan[1] {
        Step::AddComponent { name } => assert_eq!(name.as_str(), "rust-src"),
        _ => panic!("expected the component step second"),
    }
    match &plan[2] {
        Step::Run(inv) => {
            assert_eq!(inv.args, vec!["careful".to_string(), "setup".to_string()]);
            assert_eq!(inv.failure_message, "Error preparing cargo sysroot.");
        }
        _ => panic!("expected the setup run third"),
    }
    match &plan[3] {
        Step::Run(inv) => {
            assert_eq!(inv.args, vec!["careful".to_string(), "test".to_string()]);
            assert_eq!(inv.failure_message, "Cargo careful test has errors.");
        }
        _ => panic!("expected the check run fourth"),
    }
}

#[test]
fn test_vulnerabilities_all_expands_in_fixed_order() {
    let args = VulnerabilitiesCmdArgs {
        command: Some(VulnerabilitiesSubCommand::All),
    };
    let installed = vec!["x86_64-unknown-linux-gnu".to_string()];
    let plan = handle_command(&args, true, &installed);
    // Nightly checks (4 steps) then Address, Leak, Memory, SafeStack and
    // Thread, each one run on this installed target.
    assert_eq!(plan.len(), 9);
    let labels: Vec<String> = plan
        .iter()
        .skip(4)
        .map(|s| match s {
            Step::Run(inv) => inv.label.clone(),
            _ => panic!("expected sanitizer runs after the nightly checks"),
        })
        .collect();
    assert_eq!(
        labels,
        vec![
            "Sanitizer: AddressSanitizer",
            "Sanitizer: LeakSanitizer",
            "Sanitizer: MemorySanitizer",
            "Sanitizer: SafeStack",
            "Sanitizer: ThreadSanitizer",
        ]
    );
}

#[test]
fn test_vulnerabilities_all_fails_fast_across_parts() {
    let args = VulnerabilitiesCmdArgs { command: None };
    let installed = vec!["x86_64-unknown-linux-gnu".to_string()];
    let plan = handle_command(&args, true, &installed);
    let mut dispatcher = Dispatcher::new(plan, Vec::new(), Vec::new());
    let mut issued: usize = 0;
    while let Some(i) = dispatcher.next_step() {
        issued += 1;
        // The third step, the careful sysroot preparation, fails.
        dispatcher.report(i != 2);
    }
    assert_eq!(issued, 3);
}

#[test]
fn test_get_command_defaults_to_composite() {
    let args = make_args(Target::Workspace, TestSubCommand::Unit);
    let mut no_command = args;
    no_command.command = None;
    assert_eq!(no_command.get_command(), TestSubCommand::All);
    let vuln = VulnerabilitiesCmdArgs { command: None };
    assert_eq!(vuln.get_command(), VulnerabilitiesSubCommand::All);
}

#[test]
fn test_configured_test_pattern_is_used() {
    let mut args = make_args(Target::Workspace, TestSubCommand::Unit);
    args.test = Some("my_case".to_string());
    let plan = run_unit(&Target::Workspace, &args, &Vec::new(), &Vec::new());
    match &plan[0] {
        Step::Run(inv) => assert_eq!(inv.args[5], "my_case"),
        _ => panic!("expected a run step"),
    }
}
