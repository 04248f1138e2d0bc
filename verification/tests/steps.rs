//! Single steps of the two state machines.

use zed_cucumber::command::{Command, CommandPhase, CommandStep};
use zed_cucumber::error::ServerError;
use zed_cucumber::host::{
    Answer, HostCall, InstallationStatus, PACKAGE_NAME, SERVER_BINARY, SERVER_PATH,
    SETTINGS_NAMESPACE, STDIO_FLAG,
};
use zed_cucumber::resolver::{CucumberExtension, ResolvePhase, ResolveStep};

#[test]
fn constants_name_the_cucumber_language_server() {
    assert_eq!(SERVER_BINARY, "cucumber-language-server");
    assert_eq!(
        SERVER_PATH,
        "node_modules/@cucumber/language-server/bin/cucumber-language-server.cjs"
    );
    assert_eq!(PACKAGE_NAME, "@cucumber/language-server");
    assert_eq!(SETTINGS_NAMESPACE, "cucumber");
    assert_eq!(STDIO_FLAG, "--stdio");
}

#[test]
fn every_resolve_phase_names_its_call() {
    assert_eq!(ResolvePhase::start(), ResolvePhase::ScriptCheck);
    assert_eq!(ResolvePhase::ScriptCheck.call(), HostCall::ScriptExists { path: SERVER_PATH });
    assert_eq!(
        ResolvePhase::AnnounceCheck { exists: true }.call(),
        HostCall::ReportStatus { status: InstallationStatus::CheckingForUpdate }
    );
    assert_eq!(
        ResolvePhase::LatestVersion { exists: false }.call(),
        HostCall::LatestVersion { package: PACKAGE_NAME }
    );
    assert_eq!(
        ResolvePhase::InstalledVersion { latest: "1.0.0".to_string() }.call(),
        HostCall::InstalledVersion { package: PACKAGE_NAME }
    );
    assert_eq!(
        ResolvePhase::AnnounceDownload { latest: "1.0.0".to_string() }.call(),
        HostCall::ReportStatus { status: InstallationStatus::Downloading }
    );
    assert_eq!(
        ResolvePhase::Install { latest: "1.0.0".to_string() }.call(),
        HostCall::Install { package: PACKAGE_NAME, version: "1.0.0".to_string() }
    );
    assert_eq!(
        ResolvePhase::ScriptRecheck { failure: None }.call(),
        HostCall::ScriptExists { path: SERVER_PATH }
    );
}

#[test]
fn every_command_phase_names_its_call() {
    assert_eq!(CommandPhase::start(), CommandPhase::Which);
    assert_eq!(CommandPhase::Which.call(), HostCall::Which { binary: SERVER_BINARY });
    assert_eq!(
        CommandPhase::Resolve(ResolvePhase::LatestVersion { exists: true }).call(),
        HostCall::LatestVersion { package: PACKAGE_NAME }
    );
    assert_eq!(
        CommandPhase::AbsolutePath { script: "a/b.cjs".to_string() }.call(),
        HostCall::AbsolutePath { relative: "a/b.cjs".to_string() }
    );
    assert_eq!(CommandPhase::NodeBinary { script: "/w/a/b.cjs".to_string() }.call(), HostCall::NodeBinary);
}

#[test]
fn first_look_without_the_flag_goes_to_the_registry() {
    let mut extension = CucumberExtension::new();
    let step = extension.server_script_path(ResolvePhase::ScriptCheck, Answer::ScriptExists(true));
    assert_eq!(step, ResolveStep::Continue(ResolvePhase::AnnounceCheck { exists: true }));
    let step = extension.server_script_path(ResolvePhase::ScriptCheck, Answer::ScriptExists(false));
    assert_eq!(step, ResolveStep::Continue(ResolvePhase::AnnounceCheck { exists: false }));
    assert!(!extension.did_find_server());
}

#[test]
fn announcements_lead_to_the_announced_call() {
    let mut extension = CucumberExtension::new();
    assert_eq!(
        extension
            .server_script_path(ResolvePhase::AnnounceCheck { exists: true }, Answer::StatusReported),
        ResolveStep::Continue(ResolvePhase::LatestVersion { exists: true })
    );
    assert_eq!(
        extension.server_script_path(
            ResolvePhase::AnnounceDownload { latest: "7.0.1".to_string() },
            Answer::StatusReported
        ),
        ResolveStep::Continue(ResolvePhase::Install { latest: "7.0.1".to_string() })
    );
}

#[test]
fn latest_version_decides_between_query_and_install() {
    let mut extension = CucumberExtension::new();
    assert_eq!(
        extension.server_script_path(
            ResolvePhase::LatestVersion { exists: true },
            Answer::LatestVersion(Ok("7.0.1".to_string()))
        ),
        ResolveStep::Continue(ResolvePhase::InstalledVersion { latest: "7.0.1".to_string() })
    );
    assert_eq!(
        extension.server_script_path(
            ResolvePhase::LatestVersion { exists: false },
            Answer::LatestVersion(Ok("7.0.1".to_string()))
        ),
        ResolveStep::Continue(ResolvePhase::AnnounceDownload { latest: "7.0.1".to_string() })
    );
    assert!(!extension.did_find_server());
}

#[test]
fn installed_version_is_compared_for_equality_only() {
    let mut extension = CucumberExtension::new();
    assert_eq!(
        extension.server_script_path(
            ResolvePhase::InstalledVersion { latest: "1.10.0".to_string() },
            Answer::InstalledVersion(Ok(Some("1.9.0".to_string())))
        ),
        ResolveStep::Continue(ResolvePhase::AnnounceDownload { latest: "1.10.0".to_string() })
    );
    assert_eq!(
        extension.server_script_path(
            ResolvePhase::InstalledVersion { latest: "1.9.0".to_string() },
            Answer::InstalledVersion(Ok(Some("1.10.0".to_string())))
        ),
        ResolveStep::Continue(ResolvePhase::AnnounceDownload { latest: "1.9.0".to_string() })
    );
    assert!(!extension.did_find_server());
    assert_eq!(
        extension.server_script_path(
            ResolvePhase::InstalledVersion { latest: "1.9.0".to_string() },
            Answer::InstalledVersion(Ok(Some("1.9.0".to_string())))
        ),
        ResolveStep::Done(Ok(SERVER_PATH.to_string()))
    );
    assert!(extension.did_find_server());
}

#[test]
fn installation_outcome_is_kept_for_the_second_look() {
    let mut extension = CucumberExtension::new();
    assert_eq!(
        extension.server_script_path(
            ResolvePhase::Install { latest: "1.0.0".to_string() },
            Answer::Installed(Ok(()))
        ),
        ResolveStep::Continue(ResolvePhase::ScriptRecheck { failure: None })
    );
    assert_eq!(
        extension.server_script_path(
            ResolvePhase::Install { latest: "1.0.0".to_string() },
            Answer::Installed(Err("EACCES".to_string()))
        ),
        ResolveStep::Continue(ResolvePhase::ScriptRecheck { failure: Some("EACCES".to_string()) })
    );
}

#[test]
fn second_look_settles_the_resolution() {
    let mut extension = CucumberExtension::new();
    assert_eq!(
        extension.server_script_path(
            ResolvePhase::ScriptRecheck { failure: None },
            Answer::ScriptExists(false)
        ),
        ResolveStep::Done(Err(ServerError::MissingEntryPoint))
    );
    assert_eq!(
        extension.server_script_path(
            ResolvePhase::ScriptRecheck { failure: Some("EACCES".to_string()) },
            Answer::ScriptExists(false)
        ),
        ResolveStep::Done(Err(ServerError::Registry("EACCES".to_string())))
    );
    assert!(!extension.did_find_server());
    assert_eq!(
        extension.server_script_path(
            ResolvePhase::ScriptRecheck { failure: Some("EACCES".to_string()) },
            Answer::ScriptExists(true)
        ),
        ResolveStep::Done(Ok(SERVER_PATH.to_string()))
    );
    assert!(extension.did_find_server());
}

#[test]
fn unsolicited_answers_leave_the_phase_pending() {
    let mut extension = CucumberExtension::new();
    assert_eq!(
        extension.server_script_path(ResolvePhase::ScriptCheck, Answer::StatusReported),
        ResolveStep::Continue(ResolvePhase::ScriptCheck)
    );
    assert_eq!(
        extension.server_script_path(
            ResolvePhase::Install { latest: "1.0.0".to_string() },
            Answer::ScriptExists(true)
        ),
        ResolveStep::Continue(ResolvePhase::Install { latest: "1.0.0".to_string() })
    );
    assert_eq!(
        extension.language_server_command(CommandPhase::Which, Answer::ScriptExists(true)),
        CommandStep::Continue(CommandPhase::Which)
    );
    assert_eq!(
        extension.language_server_command(
            CommandPhase::NodeBinary { script: "/w/s.cjs".to_string() },
            Answer::AbsolutePath("/w/s.cjs".to_string())
        ),
        CommandStep::Continue(CommandPhase::NodeBinary { script: "/w/s.cjs".to_string() })
    );
    assert_eq!(
        extension.language_server_command(
            CommandPhase::Resolve(ResolvePhase::ScriptRecheck { failure: None }),
            Answer::Which(None)
        ),
        CommandStep::Continue(CommandPhase::Resolve(ResolvePhase::ScriptRecheck { failure: None }))
    );
    assert!(!extension.did_find_server());
}

#[test]
fn direct_command_has_the_stdio_flag_only() {
    let command = Command::direct("/usr/bin/cucumber-language-server".to_string());
    assert_eq!(command.command, "/usr/bin/cucumber-language-server");
    assert_eq!(command.args, vec!["--stdio".to_string()]);
    assert!(command.env.is_empty());
}

#[test]
fn node_command_puts_the_script_before_the_flag() {
    let command = Command::with_node("/opt/node".to_string(), "/w/script.cjs".to_string());
    assert_eq!(command.command, "/opt/node");
    assert_eq!(command.args, vec!["/w/script.cjs".to_string(), "--stdio".to_string()]);
    assert!(command.env.is_empty());
}

#[test]
fn error_messages_are_the_hosts_own() {
    assert_eq!(ServerError::Registry("E404".to_string()).message(), "E404");
    assert_eq!(ServerError::Interpreter("no node".to_string()).message(), "no node");
    assert_eq!(
        ServerError::MissingEntryPoint.message(),
        format!(
            "installed package '{}' did not contain expected path '{}'",
            PACKAGE_NAME, SERVER_PATH
        )
    );
}
