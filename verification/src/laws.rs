//! What holds of every run, proved from the step functions alone.

use vstd::prelude::*;
use crate::command::{
    direct_command, node_command, CommandPhaseView, CommandStepView, CommandView,
};
use crate::config::settings_or_empty;
use crate::error::ServerErrorView;
use crate::host::{
    AnswerView, HostCallView, InstallationStatus, PACKAGE_NAME, SERVER_BINARY, SERVER_PATH,
};
use crate::resolver::{is_current, ResolvePhaseView, ResolveStepView};
use crate::run::{build, build_from, resolve, resolve_from, Construction, Host, Resolution};

verus! {

/// The first look at the disk.
pub open spec fn script_check() -> HostCallView {
    HostCallView::ScriptExists { path: SERVER_PATH@ }
}

/// The calls by which the registry is consulted for the newest version.
pub open spec fn version_lookup() -> Seq<HostCallView> {
    seq![
        HostCallView::ReportStatus { status: InstallationStatus::CheckingForUpdate },
        HostCallView::LatestVersion { package: PACKAGE_NAME@ },
    ]
}

/// The query for the version of the copy on disk.
pub open spec fn installed_query() -> HostCallView {
    HostCallView::InstalledVersion { package: PACKAGE_NAME@ }
}

/// The calls by which `version` is installed and the disk looked at again.
pub open spec fn installation(version: Seq<char>) -> Seq<HostCallView> {
    seq![
        HostCallView::ReportStatus { status: InstallationStatus::Downloading },
        HostCallView::Install { package: PACKAGE_NAME@, version },
        HostCallView::ScriptExists { path: SERVER_PATH@ },
    ]
}

/// Whether the copy on disk is used without an installation: it is there,
/// and it is vouched for by the flag, known to be the newest version, or
/// the only choice because the registry does not answer.
pub open spec fn keeps_copy(host: Host, found: bool) -> bool {
    host.script_exists && (found || match host.latest {
        Ok(latest) => is_current(host.installed, latest),
        Err(_) => true,
    })
}

/// Whether a resolution attempts an installation: the registry names a
/// newest version, and the copy on disk is missing or not used as it is.
pub open spec fn installs(host: Host, found: bool) -> bool {
    host.latest is Ok && !keeps_copy(host, found)
}

/// The outcome that the provisioning policy asks for.
pub open spec fn expected_outcome(host: Host, found: bool) -> Result<Seq<char>, ServerErrorView> {
    if keeps_copy(host, found) {
        Ok(SERVER_PATH@)
    } else {
        match host.latest {
            Err(text) => Err(ServerErrorView::Registry(text)),
            Ok(_) => {
                if host.script_exists_after_install {
                    Ok(SERVER_PATH@)
                } else {
                    match host.install {
                        Ok(()) => Err(ServerErrorView::MissingEntryPoint),
                        Err(text) => Err(ServerErrorView::Registry(text)),
                    }
                }
            },
        }
    }
}

/// The calls that the provisioning policy asks for, in order.
pub open spec fn expected_calls(host: Host, found: bool) -> Seq<HostCallView> {
    if found && host.script_exists {
        seq![script_check()]
    } else {
        match host.latest {
            Err(_) => seq![script_check()] + version_lookup(),
            Ok(latest) => {
                if !host.script_exists {
                    seq![script_check()] + version_lookup() + installation(latest)
                } else if keeps_copy(host, found) {
                    seq![script_check()] + version_lookup() + seq![installed_query()]
                } else {
                    seq![script_check()] + version_lookup() + seq![installed_query()]
                        + installation(latest)
                }
            },
        }
    }
}

/// Every resolution follows the provisioning policy: it makes the calls the
/// policy asks for and no others, ends as the policy says, and raises the
/// flag exactly when it ends in a path.
pub proof fn resolution_follows_policy(host: Host, found: bool)
    ensures
        resolve(host, found).calls == expected_calls(host, found),
        resolve(host, found).outcome == expected_outcome(host, found),
        resolve(host, found).found == (found || expected_outcome(host, found) is Ok),
{
    reveal_with_fuel(resolve_from, 8);
    assert(resolve(host, found).calls =~= expected_calls(host, found));
}

/// The flag is never lowered, and only a resolution that ends in a path
/// raises it.
pub proof fn flag_is_raised_by_success_only(host: Host, found: bool)
    ensures
        found ==> resolve(host, found).found,
        resolve(host, found).outcome is Ok ==> resolve(host, found).found,
        resolve(host, found).outcome is Err ==> resolve(host, found).found == found,
{
    resolution_follows_policy(host, found);
}

/// A raised flag means that the script has been seen on disk: a resolution
/// raises it only after a look at the disk that found the script there.
pub proof fn flag_is_raised_after_script_was_seen(host: Host, found: bool)
    requires
        !found,
        resolve(host, found).found,
    ensures
        host.script_exists || (installs(host, found) && host.script_exists_after_install),
{
    resolution_follows_policy(host, found);
}

/// The only path a resolution ever ends in is the managed script's.
pub proof fn success_is_the_managed_script(host: Host, found: bool)
    ensures
        resolve(host, found).outcome matches Ok(path) ==> path == SERVER_PATH@,
{
    resolution_follows_policy(host, found);
}

/// A failed version lookup is forgiven like a failed installation: as long
/// as a copy is on disk, an unreachable registry fails no resolution.
pub proof fn unreachable_registry_is_forgiven_with_a_copy(host: Host, found: bool)
    requires
        host.script_exists,
        host.script_exists_after_install,
    ensures
        resolve(host, found).outcome == Ok::<Seq<char>, ServerErrorView>(SERVER_PATH@),
        resolve(host, found).found,
{
    resolution_follows_policy(host, found);
}

/// An installation is attempted at most once in a resolution, for the
/// newest version that the registry named, and exactly when the policy
/// asks for one.
pub proof fn installs_latest_at_most_once(host: Host, found: bool)
    ensures
        ({
            let calls = resolve(host, found).calls;
            &&& forall|i: int, j: int|
                0 <= i < calls.len() && 0 <= j < calls.len() && calls[i] is Install
                    && calls[j] is Install ==> i == j
            &&& forall|i: int|
                0 <= i < calls.len() && calls[i] is Install ==> host.latest is Ok && calls[i]
                    == (HostCallView::Install {
                    package: PACKAGE_NAME@,
                    version: host.latest->Ok_0,
                })
            &&& installs(host, found) <==> exists|i: int|
                0 <= i < calls.len() && calls[i] is Install
        }),
{
    resolution_follows_policy(host, found);
    let calls = resolve(host, found).calls;
    if installs(host, found) {
        if host.script_exists {
            assert(calls[5] is Install);
        } else {
            assert(calls[4] is Install);
        }
    }
}

/// Once a resolution has ended in a path, the next one asks nothing of the
/// registry as long as the script is still on disk: it looks at the disk
/// once and returns the same path.
pub proof fn fast_path_is_idempotent(first: Host, found: bool, second: Host)
    requires
        resolve(first, found).outcome is Ok,
        second.script_exists,
    ensures
        resolve(second, resolve(first, found).found) == (Resolution {
            calls: seq![script_check()],
            outcome: resolve(first, found).outcome,
            found: true,
        }),
{
    resolution_follows_policy(first, found);
    resolution_follows_policy(second, resolve(first, found).found);
}

/// With no copy on disk and a registry that answers, the newest version is
/// installed, once, and the resolution ends in the script's path with the
/// flag raised.
pub proof fn cold_start_installs_latest_once(host: Host, found: bool, latest: Seq<char>)
    requires
        !host.script_exists,
        host.latest == Ok::<Seq<char>, Seq<char>>(latest),
        host.install is Ok,
        host.script_exists_after_install,
    ensures
        resolve(host, found) == (Resolution {
            calls: seq![script_check()] + version_lookup() + installation(latest),
            outcome: Ok(SERVER_PATH@),
            found: true,
        }),
{
    resolution_follows_policy(host, found);
}

/// A copy on disk that is the newest version is used as it is: no
/// installation is attempted.
pub proof fn current_copy_is_not_reinstalled(host: Host, found: bool, version: Seq<char>)
    requires
        host.script_exists,
        host.latest == Ok::<Seq<char>, Seq<char>>(version),
        is_current(host.installed, version),
    ensures
        forall|i: int|
            0 <= i < resolve(host, found).calls.len() ==> !(resolve(host, found).calls[i]
                is Install),
        resolve(host, found).outcome == Ok::<Seq<char>, ServerErrorView>(SERVER_PATH@),
        resolve(host, found).found,
{
    resolution_follows_policy(host, found);
}

/// An update that fails is no failure while the old copy is on disk: the
/// installation's error is dropped, the path is returned and the flag raised.
pub proof fn failed_update_falls_back(host: Host, found: bool, latest: Seq<char>)
    requires
        host.script_exists,
        host.latest == Ok::<Seq<char>, Seq<char>>(latest),
        !is_current(host.installed, latest),
        host.install is Err,
        host.script_exists_after_install,
    ensures
        resolve(host, found).outcome == Ok::<Seq<char>, ServerErrorView>(SERVER_PATH@),
        resolve(host, found).found,
        !found ==> resolve(host, found).calls == seq![script_check()] + version_lookup()
            + seq![installed_query()] + installation(latest),
{
    resolution_follows_policy(host, found);
}

/// An installation that fails with no copy on disk, before or after, fails
/// the resolution with the installation's own error, and the flag stays as
/// it was.
pub proof fn failed_install_without_copy_is_fatal(
    host: Host,
    found: bool,
    latest: Seq<char>,
    text: Seq<char>,
)
    requires
        !host.script_exists,
        host.latest == Ok::<Seq<char>, Seq<char>>(latest),
        host.install == Err::<(), Seq<char>>(text),
        !host.script_exists_after_install,
    ensures
        resolve(host, found) == (Resolution {
            calls: seq![script_check()] + version_lookup() + installation(latest),
            outcome: Err(ServerErrorView::Registry(text)),
            found,
        }),
{
    resolution_follows_policy(host, found);
}

/// An installation that reports success and leaves no script behind fails
/// the resolution with the error kept for that case, never with a registry
/// error, and the flag stays as it was.
pub proof fn missing_script_after_install_is_a_layout_fault(host: Host, found: bool)
    requires
        installs(host, found),
        host.install is Ok,
        !host.script_exists_after_install,
    ensures
        resolve(host, found).outcome == Err::<Seq<char>, ServerErrorView>(
            ServerErrorView::MissingEntryPoint,
        ),
        !(resolve(host, found).outcome matches Err(ServerErrorView::Registry(_))),
        resolve(host, found).found == found,
{
    resolution_follows_policy(host, found);
}

/// The call that looks the server binary up on the search path.
pub open spec fn which_call() -> HostCallView {
    HostCallView::Which { binary: SERVER_BINARY@ }
}

/// The calls that follow a resolution which ended in `script`.
pub open spec fn launch_calls(script: Seq<char>) -> Seq<HostCallView> {
    seq![HostCallView::AbsolutePath { relative: script }, HostCallView::NodeBinary]
}

/// The construction that the launch policy asks for: a binary on the search
/// path is run directly; otherwise the managed script is resolved, made
/// absolute and run under the host's Node.js, and a failure on the way is
/// passed on unchanged.
pub open spec fn expected_construction(host: Host, found: bool) -> Construction {
    match host.which {
        Some(binary) => Construction {
            calls: seq![which_call()],
            outcome: Ok(direct_command(binary)),
            found,
        },
        None => {
            let resolution = resolve(host, found);
            match resolution.outcome {
                Err(error) => Construction {
                    calls: seq![which_call()] + resolution.calls,
                    outcome: Err(error),
                    found: resolution.found,
                },
                Ok(script) => Construction {
                    calls: seq![which_call()] + resolution.calls + launch_calls(script),
                    outcome: match host.node {
                        Ok(node) => Ok(node_command(node, host.absolute)),
                        Err(text) => Err(ServerErrorView::Interpreter(text)),
                    },
                    found: resolution.found,
                },
            }
        },
    }
}

/// A construction that has reached the resolution goes on as the resolution
/// does, and launches what it ends in.
proof fn construction_embeds_resolution(host: Host, found: bool, phase: ResolvePhaseView)
    ensures
        ({
            let resolution = resolve_from(host, found, phase);
            let construction = build_from(host, found, CommandPhaseView::Resolve(phase));
            match resolution.outcome {
                Err(error) => construction == (Construction {
                    calls: resolution.calls,
                    outcome: Err(error),
                    found: resolution.found,
                }),
                Ok(script) => construction == (Construction {
                    calls: resolution.calls + launch_calls(script),
                    outcome: match host.node {
                        Ok(node) => Ok(node_command(node, host.absolute)),
                        Err(text) => Err(ServerErrorView::Interpreter(text)),
                    },
                    found: resolution.found,
                }),
            }
        }),
    decreases phase.calls_left(),
{
    reveal_with_fuel(build_from, 3);
    let resolution = resolve_from(host, found, phase);
    let construction = build_from(host, found, CommandPhaseView::Resolve(phase));
    let (found_after, step) = phase.step(found, host.answer_resolve(phase));
    match step {
        ResolveStepView::Continue(next) => {
            construction_embeds_resolution(host, found_after, next);
            let rest = resolve_from(host, found_after, next);
            if let Ok(script) = rest.outcome {
                assert(construction.calls =~= resolution.calls + launch_calls(script));
            }
        },
        ResolveStepView::Done(Ok(script)) => {
            assert(construction.calls =~= resolution.calls + launch_calls(script));
        },
        ResolveStepView::Done(Err(_)) => {},
    }
}

/// Every construction follows the launch policy.
pub proof fn construction_follows_policy(host: Host, found: bool)
    ensures
        build(host, found) == expected_construction(host, found),
{
    if host.which is None {
        construction_embeds_resolution(host, found, ResolvePhaseView::ScriptCheck);
        let resolution = resolve(host, found);
        if let Ok(script) = resolution.outcome {
            assert(build(host, found).calls =~= seq![which_call()] + resolution.calls
                + launch_calls(script));
        }
    }
}

/// A server binary on the search path is run as it is. The managed package
/// is never looked at, whatever state it is in, and the flag stays.
pub proof fn search_path_takes_precedence(host: Host, found: bool, binary: Seq<char>)
    requires
        host.which == Some(binary),
    ensures
        build(host, found) == (Construction {
            calls: seq![which_call()],
            outcome: Ok(direct_command(binary)),
            found,
        }),
{
    construction_follows_policy(host, found);
}

/// Without a binary on the search path, a failure to resolve the managed
/// script is the construction's failure, unchanged.
pub proof fn resolver_failure_passes_through(host: Host, found: bool)
    requires
        host.which is None,
        resolve(host, found).outcome is Err,
    ensures
        build(host, found).outcome is Err,
        build(host, found).outcome->Err_0 == resolve(host, found).outcome->Err_0,
        build(host, found).found == found,
{
    construction_follows_policy(host, found);
    resolution_follows_policy(host, found);
}

/// Without a binary on the search path, a resolved script is run by its
/// absolute path under the host's Node.js, with the one flag after it.
pub proof fn managed_script_runs_under_node(host: Host, found: bool, node: Seq<char>)
    requires
        host.which is None,
        resolve(host, found).outcome is Ok,
        host.node == Ok::<Seq<char>, Seq<char>>(node),
    ensures
        build(host, found).outcome == Ok::<CommandView, ServerErrorView>(
            node_command(node, host.absolute),
        ),
        build(host, found).calls == seq![which_call()] + resolve(host, found).calls
            + launch_calls(SERVER_PATH@),
        build(host, found).found,
{
    construction_follows_policy(host, found);
    resolution_follows_policy(host, found);
}

/// Without a binary on the search path, a Node.js that cannot be located
/// fails the construction with the host's message. The script was resolved
/// all the same, so the flag is raised.
pub proof fn missing_interpreter_is_fatal(host: Host, found: bool, text: Seq<char>)
    requires
        host.which is None,
        resolve(host, found).outcome is Ok,
        host.node == Err::<Seq<char>, Seq<char>>(text),
    ensures
        build(host, found).outcome == Err::<CommandView, ServerErrorView>(
            ServerErrorView::Interpreter(text),
        ),
        build(host, found).found,
{
    construction_follows_policy(host, found);
    resolution_follows_policy(host, found);
}

/// Once a construction has gone through the managed package and ended in a
/// command, the next one asks nothing of the registry as long as the script
/// is still on disk and the search path still empty: it makes the four calls
/// that are left and, where the host names the same Node.js and the same
/// absolute path, ends in the same command.
pub proof fn repeated_construction_skips_the_registry(first: Host, found: bool, second: Host)
    requires
        first.which is None,
        build(first, found).outcome is Ok,
        second.which is None,
        second.script_exists,
    ensures
        build(second, build(first, found).found).calls == seq![which_call(), script_check()]
            + launch_calls(SERVER_PATH@),
        build(second, build(first, found).found).found,
        second.node == first.node && second.absolute == first.absolute ==> build(
            second,
            build(first, found).found,
        ).outcome == build(first, found).outcome,
{
    construction_follows_policy(first, found);
    resolution_follows_policy(first, found);
    let found_between = build(first, found).found;
    construction_follows_policy(second, found_between);
    resolution_follows_policy(second, found_between);
}

/// An answer of another kind than the pending call brings back changes
/// neither the flag nor the phase.
pub proof fn unsolicited_answer_changes_nothing(
    phase: ResolvePhaseView,
    found: bool,
    answer: AnswerView,
)
    requires
        !phase.accepts(answer),
    ensures
        phase.step(found, answer) == (found, ResolveStepView::Continue(phase)),
        CommandPhaseView::Resolve(phase).step(found, answer) == (
            found,
            CommandStepView::Continue(CommandPhaseView::Resolve(phase)),
        ),
{
}

/// Where the host has no settings for the language, or cannot read them, the
/// configuration holds the empty default.
pub proof fn absent_settings_yield_the_empty_default<V>(lookup: Result<Option<V>, String>)
    requires
        !(lookup matches Ok(Some(_))),
    ensures
        settings_or_empty(lookup) is None,
{
}

} // verus!
