//! Whole command constructions against a scripted host.

use zed_cucumber::command::{Command, CommandPhase, CommandStep};
use zed_cucumber::error::ServerError;
use zed_cucumber::host::{Answer, HostCall, InstallationStatus, PACKAGE_NAME, SERVER_BINARY, SERVER_PATH};
use zed_cucumber::resolver::CucumberExtension;

/// A worktree with its search path, disk, registry and Node.js.
struct ScriptedWorktree {
    on_search_path: Option<String>,
    script_on_disk: bool,
    latest: Result<String, String>,
    installed: Result<Option<String>, String>,
    install: Result<(), String>,
    script_on_disk_after_install: bool,
    working_directory: String,
    node: Result<String, String>,
    calls: Vec<HostCall>,
}

impl ScriptedWorktree {
    fn new() -> ScriptedWorktree {
        ScriptedWorktree {
            on_search_path: None,
            script_on_disk: false,
            latest: Ok("1.2.0".to_string()),
            installed: Ok(None),
            install: Ok(()),
            script_on_disk_after_install: true,
            working_directory: "/home/dev/work".to_string(),
            node: Ok("/opt/zed/node/bin/node".to_string()),
            calls: Vec::new(),
        }
    }

    fn perform(&mut self, call: HostCall) -> Answer {
        let answer = match &call {
            HostCall::Which { .. } => Answer::Which(self.on_search_path.clone()),
            HostCall::ScriptExists { .. } => Answer::ScriptExists(self.script_on_disk),
            HostCall::ReportStatus { .. } => Answer::StatusReported,
            HostCall::LatestVersion { .. } => Answer::LatestVersion(self.latest.clone()),
            HostCall::InstalledVersion { .. } => Answer::InstalledVersion(self.installed.clone()),
            HostCall::Install { version, .. } => {
                self.script_on_disk = self.script_on_disk_after_install;
                if self.install.is_ok() {
                    self.installed = Ok(Some(version.clone()));
                }
                Answer::Installed(self.install.clone())
            }
            HostCall::AbsolutePath { relative } => {
                Answer::AbsolutePath(format!("{}/{}", self.working_directory, relative))
            }
            HostCall::NodeBinary => Answer::NodeBinary(self.node.clone()),
        };
        self.calls.push(call);
        answer
    }

    fn resolver_calls(&self) -> usize {
        self.calls
            .iter()
            .filter(|call| {
                matches!(
                    call,
                    HostCall::ScriptExists { .. }
                        | HostCall::ReportStatus { .. }
                        | HostCall::LatestVersion { .. }
                        | HostCall::InstalledVersion { .. }
                        | HostCall::Install { .. }
                )
            })
            .count()
    }

    fn registry_calls(&self) -> usize {
        self.calls
            .iter()
            .filter(|call| {
                matches!(
                    call,
                    HostCall::LatestVersion { .. }
                        | HostCall::InstalledVersion { .. }
                        | HostCall::Install { .. }
                )
            })
            .count()
    }
}

fn build(
    extension: &mut CucumberExtension,
    worktree: &mut ScriptedWorktree,
) -> Result<Command, ServerError> {
    let mut phase = CommandPhase::start();
    loop {
        let answer = worktree.perform(phase.call());
        match extension.language_server_command(phase, answer) {
            CommandStep::Continue(next) => phase = next,
            CommandStep::Done(outcome) => return outcome,
        }
    }
}

#[test]
fn binary_on_the_search_path_is_run_directly() {
    let mut extension = CucumberExtension::new();
    let mut worktree = ScriptedWorktree::new();
    worktree.on_search_path = Some("/usr/local/bin/cucumber-language-server".to_string());

    let command = build(&mut extension, &mut worktree).unwrap();

    assert_eq!(
        command,
        Command {
            command: "/usr/local/bin/cucumber-language-server".to_string(),
            args: vec!["--stdio".to_string()],
            env: vec![],
        }
    );
    assert_eq!(worktree.calls, vec![HostCall::Which { binary: SERVER_BINARY }]);
}

#[test]
fn search_path_hit_never_reaches_the_resolver() {
    for script_on_disk in [false, true] {
        for registry_up in [false, true] {
            let mut extension = CucumberExtension::new();
            let mut worktree = ScriptedWorktree::new();
            worktree.on_search_path = Some("/bin/cucumber-language-server".to_string());
            worktree.script_on_disk = script_on_disk;
            if !registry_up {
                worktree.latest = Err("offline".to_string());
                worktree.install = Err("offline".to_string());
                worktree.node = Err("offline".to_string());
            }

            let outcome = build(&mut extension, &mut worktree);

            assert!(outcome.is_ok());
            assert_eq!(worktree.resolver_calls(), 0);
            assert_eq!(worktree.calls.len(), 1);
            assert!(!extension.did_find_server());
        }
    }
}

#[test]
fn managed_script_is_installed_and_run_under_node() {
    let mut extension = CucumberExtension::new();
    let mut worktree = ScriptedWorktree::new();

    let first = build(&mut extension, &mut worktree).unwrap();

    assert_eq!(
        first,
        Command {
            command: "/opt/zed/node/bin/node".to_string(),
            args: vec![
                "/home/dev/work/node_modules/@cucumber/language-server/bin/cucumber-language-server.cjs"
                    .to_string(),
                "--stdio".to_string(),
            ],
            env: vec![],
        }
    );
    assert_eq!(
        worktree.calls,
        vec![
            HostCall::Which { binary: SERVER_BINARY },
            HostCall::ScriptExists { path: SERVER_PATH },
            HostCall::ReportStatus { status: InstallationStatus::CheckingForUpdate },
            HostCall::LatestVersion { package: PACKAGE_NAME },
            HostCall::ReportStatus { status: InstallationStatus::Downloading },
            HostCall::Install { package: PACKAGE_NAME, version: "1.2.0".to_string() },
            HostCall::ScriptExists { path: SERVER_PATH },
            HostCall::AbsolutePath { relative: SERVER_PATH.to_string() },
            HostCall::NodeBinary,
        ]
    );
    assert!(extension.did_find_server());

    worktree.calls.clear();
    let second = build(&mut extension, &mut worktree).unwrap();

    assert_eq!(second, first);
    assert_eq!(worktree.registry_calls(), 0);
    assert_eq!(
        worktree.calls,
        vec![
            HostCall::Which { binary: SERVER_BINARY },
            HostCall::ScriptExists { path: SERVER_PATH },
            HostCall::AbsolutePath { relative: SERVER_PATH.to_string() },
            HostCall::NodeBinary,
        ]
    );
}

#[test]
fn resolver_failure_is_passed_on_unchanged() {
    let mut extension = CucumberExtension::new();
    let mut worktree = ScriptedWorktree::new();
    worktree.latest = Err("getaddrinfo ENOTFOUND registry.npmjs.org".to_string());

    let outcome = build(&mut extension, &mut worktree);

    assert_eq!(
        outcome,
        Err(ServerError::Registry("getaddrinfo ENOTFOUND registry.npmjs.org".to_string()))
    );
    assert_eq!(outcome.unwrap_err().message(), "getaddrinfo ENOTFOUND registry.npmjs.org");
    assert!(!worktree.calls.contains(&HostCall::NodeBinary));
}

#[test]
fn layout_fault_is_passed_on_unchanged() {
    let mut extension = CucumberExtension::new();
    let mut worktree = ScriptedWorktree::new();
    worktree.script_on_disk_after_install = false;

    assert_eq!(build(&mut extension, &mut worktree), Err(ServerError::MissingEntryPoint));
}

#[test]
fn missing_node_fails_after_the_script_is_resolved() {
    let mut extension = CucumberExtension::new();
    let mut worktree = ScriptedWorktree::new();
    worktree.node = Err("failed to download node".to_string());

    let outcome = build(&mut extension, &mut worktree);

    assert_eq!(outcome, Err(ServerError::Interpreter("failed to download node".to_string())));
    assert_eq!(worktree.calls.last(), Some(&HostCall::NodeBinary));
    assert!(extension.did_find_server());
}

#[test]
fn no_construction_makes_more_than_ten_calls() {
    for script_on_disk in [false, true] {
        for latest_ok in [false, true] {
            for install_ok in [false, true] {
                for after in [false, true] {
                    let mut extension = CucumberExtension::new();
                    let mut worktree = ScriptedWorktree::new();
                    worktree.script_on_disk = script_on_disk;
                    if !latest_ok {
                        worktree.latest = Err("offline".to_string());
                    }
                    if !install_ok {
                        worktree.install = Err("failed".to_string());
                    }
                    worktree.script_on_disk_after_install = after;
                    let _ = build(&mut extension, &mut worktree);
                    assert!(worktree.calls.len() <= 10);
                }
            }
        }
    }
}
