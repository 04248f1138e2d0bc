//! Where the server's entry-point script comes from: the managed package,
//! installed or updated only when that is needed, and kept when the registry
//! cannot be reached but a copy is already on disk.
//!
//! A resolution walks through [`ResolvePhase`]s. Each phase stands for one
//! pending call on the host; [`CucumberExtension::server_script_path`] takes
//! the answer and yields the next phase or the outcome.

use vstd::prelude::*;
use crate::error::{ServerError, ServerErrorView};
use crate::host::{
    Answer, AnswerView, HostCall, HostCallView, InstallationStatus, PACKAGE_NAME, SERVER_PATH,
};

verus! {

/// The extension's lasting state: whether a resolution in this process has
/// already produced a usable script path.
///
/// The flag starts out false, is raised by every resolution that ends in a
/// path, and is never lowered.
#[derive(Debug)]
pub struct CucumberExtension {
    did_find_server: bool,
}

/// The call a resolution is waiting on, with what it has learnt so far.
#[derive(Debug, PartialEq, Eq)]
pub enum ResolvePhase {
    /// First look at the disk: is the script there?
    ScriptCheck,
    /// About to consult the registry; the editor is told first.
    AnnounceCheck { exists: bool },
    /// Waiting for the newest version on offer.
    LatestVersion { exists: bool },
    /// A copy is on disk; waiting to learn which version it is.
    InstalledVersion { latest: String },
    /// An installation is due; the editor is told first.
    AnnounceDownload { latest: String },
    /// Waiting for the installation of `latest` to end.
    Install { latest: String },
    /// The installation has ended, with `failure` if it went wrong; waiting
    /// for a second look at the disk.
    ScriptRecheck { failure: Option<String> },
}

/// Mathematical form of a [`ResolvePhase`].
pub enum ResolvePhaseView {
    ScriptCheck,
    AnnounceCheck { exists: bool },
    LatestVersion { exists: bool },
    InstalledVersion { latest: Seq<char> },
    AnnounceDownload { latest: Seq<char> },
    Install { latest: Seq<char> },
    ScriptRecheck { failure: Option<Seq<char>> },
}

impl View for ResolvePhase {
    type V = ResolvePhaseView;

    open spec fn view(&self) -> ResolvePhaseView {
        match *self {
            ResolvePhase::ScriptCheck => ResolvePhaseView::ScriptCheck,
            ResolvePhase::AnnounceCheck { exists } => ResolvePhaseView::AnnounceCheck { exists },
            ResolvePhase::LatestVersion { exists } => ResolvePhaseView::LatestVersion { exists },
            ResolvePhase::InstalledVersion { latest } => ResolvePhaseView::InstalledVersion {
                latest: latest@,
            },
            ResolvePhase::AnnounceDownload { latest } => ResolvePhaseView::AnnounceDownload {
                latest: latest@,
            },
            ResolvePhase::Install { latest } => ResolvePhaseView::Install { latest: latest@ },
            ResolvePhase::ScriptRecheck { failure: Some(text) } => ResolvePhaseView::ScriptRecheck {
                failure: Some(text@),
            },
            ResolvePhase::ScriptRecheck { failure: None } => ResolvePhaseView::ScriptRecheck {
                failure: None,
            },
        }
    }
}

/// What one answer led to: another pending call, or the end of the resolution.
#[derive(Debug, PartialEq, Eq)]
pub enum ResolveStep {
    Continue(ResolvePhase),
    Done(Result<String, ServerError>),
}

/// Mathematical form of a [`ResolveStep`].
pub enum ResolveStepView {
    Continue(ResolvePhaseView),
    Done(Result<Seq<char>, ServerErrorView>),
}

impl View for ResolveStep {
    type V = ResolveStepView;

    open spec fn view(&self) -> ResolveStepView {
        match *self {
            ResolveStep::Continue(phase) => ResolveStepView::Continue(phase@),
            ResolveStep::Done(Ok(path)) => ResolveStepView::Done(Ok(path@)),
            ResolveStep::Done(Err(error)) => ResolveStepView::Done(Err(error@)),
        }
    }
}

/// Whether the copy on disk is known to be version `latest`. It is not where
/// the query failed or the registry's bookkeeping knows of no copy.
pub open spec fn is_current(installed: Result<Option<Seq<char>>, Seq<char>>, latest: Seq<char>)
    -> bool {
    installed matches Ok(Some(version)) && version == latest
}

impl ResolvePhaseView {
    /// The call that is pending in this phase.
    pub open spec fn call(self) -> HostCallView {
        match self {
            ResolvePhaseView::ScriptCheck => HostCallView::ScriptExists { path: SERVER_PATH@ },
            ResolvePhaseView::AnnounceCheck { .. } => HostCallView::ReportStatus {
                status: InstallationStatus::CheckingForUpdate,
            },
            ResolvePhaseView::LatestVersion { .. } => HostCallView::LatestVersion {
                package: PACKAGE_NAME@,
            },
            ResolvePhaseView::InstalledVersion { .. } => HostCallView::InstalledVersion {
                package: PACKAGE_NAME@,
            },
            ResolvePhaseView::AnnounceDownload { .. } => HostCallView::ReportStatus {
                status: InstallationStatus::Downloading,
            },
            ResolvePhaseView::Install { latest } => HostCallView::Install {
                package: PACKAGE_NAME@,
                version: latest,
            },
            ResolvePhaseView::ScriptRecheck { .. } => HostCallView::ScriptExists {
                path: SERVER_PATH@,
            },
        }
    }

    /// Whether `answer` is of the kind that the pending call brings back.
    pub open spec fn accepts(self, answer: AnswerView) -> bool {
        match self {
            ResolvePhaseView::ScriptCheck | ResolvePhaseView::ScriptRecheck { .. } => {
                answer is ScriptExists
            },
            ResolvePhaseView::AnnounceCheck { .. } | ResolvePhaseView::AnnounceDownload { .. } => {
                answer is StatusReported
            },
            ResolvePhaseView::LatestVersion { .. } => answer is LatestVersion,
            ResolvePhaseView::InstalledVersion { .. } => answer is InstalledVersion,
            ResolvePhaseView::Install { .. } => answer is Installed,
        }
    }

    /// The flag after `answer` has been taken in this phase, and what follows.
    ///
    /// - With the flag raised and the script on disk, the first look settles
    ///   it: nothing else is asked.
    /// - A version lookup that fails ends the resolution: with the path if a
    ///   copy is on disk, with the registry's failure if none is.
    /// - A copy on disk is kept as it is only when it is known to be the
    ///   newest version; an unknown or failed version query leads to an
    ///   installation, as a missing copy does.
    /// - After the installation only the second look at the disk counts: a
    ///   script that is there is used, whatever the installation reported. A
    ///   script that is missing is a packaging fault after a successful
    ///   installation and the installation's own failure otherwise.
    /// - An answer of another kind than the pending call brings back changes
    ///   nothing: the same call stays pending.
    pub open spec fn step(self, found: bool, answer: AnswerView) -> (bool, ResolveStepView) {
        match (self, answer) {
            (ResolvePhaseView::ScriptCheck, AnswerView::ScriptExists(exists)) => {
                if found && exists {
                    (found, ResolveStepView::Done(Ok(SERVER_PATH@)))
                } else {
                    (found, ResolveStepView::Continue(ResolvePhaseView::AnnounceCheck { exists }))
                }
            },
            (ResolvePhaseView::AnnounceCheck { exists }, AnswerView::StatusReported) => {
                (found, ResolveStepView::Continue(ResolvePhaseView::LatestVersion { exists }))
            },
            (ResolvePhaseView::LatestVersion { exists }, AnswerView::LatestVersion(Ok(latest))) => {
                if exists {
                    (
                        found,
                        ResolveStepView::Continue(ResolvePhaseView::InstalledVersion { latest }),
                    )
                } else {
                    (
                        found,
                        ResolveStepView::Continue(ResolvePhaseView::AnnounceDownload { latest }),
                    )
                }
            },
            (ResolvePhaseView::LatestVersion { exists }, AnswerView::LatestVersion(Err(text))) => {
                if exists {
                    (true, ResolveStepView::Done(Ok(SERVER_PATH@)))
                } else {
                    (found, ResolveStepView::Done(Err(ServerErrorView::Registry(text))))
                }
            },
            (
                ResolvePhaseView::InstalledVersion { latest },
                AnswerView::InstalledVersion(installed),
            ) => {
                if is_current(installed, latest) {
                    (true, ResolveStepView::Done(Ok(SERVER_PATH@)))
                } else {
                    (
                        found,
                        ResolveStepView::Continue(ResolvePhaseView::AnnounceDownload { latest }),
                    )
                }
            },
            (ResolvePhaseView::AnnounceDownload { latest }, AnswerView::StatusReported) => {
                (found, ResolveStepView::Continue(ResolvePhaseView::Install { latest }))
            },
            (ResolvePhaseView::Install { .. }, AnswerView::Installed(outcome)) => {
                let failure = match outcome {
                    Ok(()) => None,
                    Err(text) => Some(text),
                };
                (found, ResolveStepView::Continue(ResolvePhaseView::ScriptRecheck { failure }))
            },
            (ResolvePhaseView::ScriptRecheck { failure }, AnswerView::ScriptExists(exists)) => {
                if exists {
                    (true, ResolveStepView::Done(Ok(SERVER_PATH@)))
                } else {
                    match failure {
                        None => (
                            found,
                            ResolveStepView::Done(Err(ServerErrorView::MissingEntryPoint)),
                        ),
                        Some(text) => (
                            found,
                            ResolveStepView::Done(Err(ServerErrorView::Registry(text))),
                        ),
                    }
                }
            },
            _ => (found, ResolveStepView::Continue(self)),
        }
    }
}

impl ResolvePhase {
    /// The phase in which every resolution begins.
    pub fn start() -> (phase: ResolvePhase)
        ensures
            phase@ == ResolvePhaseView::ScriptCheck,
    {
        ResolvePhase::ScriptCheck
    }

    /// The call the host is to make now.
    pub fn call(&self) -> (call: HostCall)
        ensures
            call@ == self@.call(),
    {
        match self {
            ResolvePhase::ScriptCheck => HostCall::ScriptExists { path: SERVER_PATH },
            ResolvePhase::AnnounceCheck { .. } => HostCall::ReportStatus {
                status: InstallationStatus::CheckingForUpdate,
            },
            ResolvePhase::LatestVersion { .. } => HostCall::LatestVersion { package: PACKAGE_NAME },
            ResolvePhase::InstalledVersion { .. } => HostCall::InstalledVersion {
                package: PACKAGE_NAME,
            },
            ResolvePhase::AnnounceDownload { .. } => HostCall::ReportStatus {
                status: InstallationStatus::Downloading,
            },
            ResolvePhase::Install { latest } => HostCall::Install {
                package: PACKAGE_NAME,
                version: latest.clone(),
            },
            ResolvePhase::ScriptRecheck { .. } => HostCall::ScriptExists { path: SERVER_PATH },
        }
    }
}

impl CucumberExtension {
    /// Whether a resolution has already ended in a path.
    pub closed spec fn found(&self) -> bool {
        self.did_find_server
    }

    /// A fresh extension: nothing has been resolved yet.
    pub fn new() -> (extension: Self)
        ensures
            !extension.found(),
    {
        CucumberExtension { did_find_server: false }
    }

    /// Whether a resolution has already ended in a path.
    pub fn did_find_server(&self) -> (found: bool)
        ensures
            found == self.found(),
    {
        self.did_find_server
    }

    /// Takes the host's `answer` to the call pending in `phase` and decides
    /// how the resolution goes on, as [`ResolvePhaseView::step`] lays down.
    pub fn server_script_path(&mut self, phase: ResolvePhase, answer: Answer) -> (step: ResolveStep)
        ensures
            final(self).found() == phase@.step(old(self).found(), answer@).0,
            step@ == phase@.step(old(self).found(), answer@).1,
    {
        match (phase, answer) {
            (ResolvePhase::ScriptCheck, Answer::ScriptExists(exists)) => {
                if self.did_find_server && exists {
                    ResolveStep::Done(Ok(SERVER_PATH.to_string()))
                } else {
                    ResolveStep::Continue(ResolvePhase::AnnounceCheck { exists })
                }
            },
            (ResolvePhase::AnnounceCheck { exists }, Answer::StatusReported) => {
                ResolveStep::Continue(ResolvePhase::LatestVersion { exists })
            },
            (ResolvePhase::LatestVersion { exists }, Answer::LatestVersion(Ok(latest))) => {
                if exists {
                    ResolveStep::Continue(ResolvePhase::InstalledVersion { latest })
                } else {
                    ResolveStep::Continue(ResolvePhase::AnnounceDownload { latest })
                }
            },
            (ResolvePhase::LatestVersion { exists }, Answer::LatestVersion(Err(text))) => {
                if exists {
                    self.did_find_server = true;
                    ResolveStep::Done(Ok(SERVER_PATH.to_string()))
                } else {
                    ResolveStep::Done(Err(ServerError::Registry(text)))
                }
            },
            (ResolvePhase::InstalledVersion { latest }, Answer::InstalledVersion(installed)) => {
                let current = match installed {
                    Ok(Some(version)) => version == latest,
                    _ => false,
                };
                if current {
                    self.did_find_server = true;
                    ResolveStep::Done(Ok(SERVER_PATH.to_string()))
                } else {
                    ResolveStep::Continue(ResolvePhase::AnnounceDownload { latest })
                }
            },
            (ResolvePhase::AnnounceDownload { latest }, Answer::StatusReported) => {
                ResolveStep::Continue(ResolvePhase::Install { latest })
            },
            (ResolvePhase::Install { .. }, Answer::Installed(outcome)) => {
                let failure = match outcome {
                    Ok(()) => None,
                    Err(text) => Some(text),
                };
                ResolveStep::Continue(ResolvePhase::ScriptRecheck { failure })
            },
            (ResolvePhase::ScriptRecheck { failure }, Answer::ScriptExists(exists)) => {
                if exists {
                    self.did_find_server = true;
                    ResolveStep::Done(Ok(SERVER_PATH.to_string()))
                } else {
                    match failure {
                        None => ResolveStep::Done(Err(ServerError::MissingEntryPoint)),
                        Some(text) => ResolveStep::Done(Err(ServerError::Registry(text))),
                    }
                }
            },
            (phase, _) => ResolveStep::Continue(phase),
        }
    }
}

} // verus!
