//! Whole runs: what happens when a host keeps answering the pending call
//! until the state machine finishes.
//!
//! A [`Host`] fixes what each collaborator would answer if it were asked.
//! [`resolve`] and [`build`] then give the calls made, in order, and the
//! outcome. Both are defined by nothing but repeated
//! [`ResolvePhaseView::step`] and [`CommandPhaseView::step`], so they describe
//! every driver that hands each call to the host and each answer back.

use vstd::prelude::*;
use crate::command::{CommandPhaseView, CommandStepView, CommandView};
use crate::error::ServerErrorView;
use crate::host::{AnswerView, HostCallView};
use crate::resolver::{ResolvePhaseView, ResolveStepView};

verus! {

/// What the host's collaborators answer during one run.
pub struct Host {
    /// Search-path lookup of the server binary.
    pub which: Option<Seq<char>>,
    /// Whether the script is on disk when the run begins.
    pub script_exists: bool,
    /// Newest version in the registry.
    pub latest: Result<Seq<char>, Seq<char>>,
    /// Version installed locally.
    pub installed: Result<Option<Seq<char>>, Seq<char>>,
    /// Outcome of an installation.
    pub install: Result<(), Seq<char>>,
    /// Whether the script is on disk once an installation has ended.
    pub script_exists_after_install: bool,
    /// The script's path joined against the working directory.
    pub absolute: Seq<char>,
    /// The host's Node.js binary.
    pub node: Result<Seq<char>, Seq<char>>,
}

impl Host {
    /// The host's answer to the call pending in a phase of resolution.
    pub open spec fn answer_resolve(self, phase: ResolvePhaseView) -> AnswerView {
        match phase {
            ResolvePhaseView::ScriptCheck => AnswerView::ScriptExists(self.script_exists),
            ResolvePhaseView::AnnounceCheck { .. } => AnswerView::StatusReported,
            ResolvePhaseView::LatestVersion { .. } => AnswerView::LatestVersion(self.latest),
            ResolvePhaseView::InstalledVersion { .. } => AnswerView::InstalledVersion(
                self.installed,
            ),
            ResolvePhaseView::AnnounceDownload { .. } => AnswerView::StatusReported,
            ResolvePhaseView::Install { .. } => AnswerView::Installed(self.install),
            ResolvePhaseView::ScriptRecheck { .. } => AnswerView::ScriptExists(
                self.script_exists_after_install,
            ),
        }
    }

    /// The host's answer to the call pending in a phase of command building.
    pub open spec fn answer(self, phase: CommandPhaseView) -> AnswerView {
        match phase {
            CommandPhaseView::Which => AnswerView::Which(self.which),
            CommandPhaseView::Resolve(phase) => self.answer_resolve(phase),
            CommandPhaseView::AbsolutePath { .. } => AnswerView::AbsolutePath(self.absolute),
            CommandPhaseView::NodeBinary { .. } => AnswerView::NodeBinary(self.node),
        }
    }
}

impl ResolvePhaseView {
    /// An upper bound on the calls still to come, the pending one included.
    pub open spec fn calls_left(self) -> nat {
        match self {
            ResolvePhaseView::ScriptCheck => 7,
            ResolvePhaseView::AnnounceCheck { .. } => 6,
            ResolvePhaseView::LatestVersion { .. } => 5,
            ResolvePhaseView::InstalledVersion { .. } => 4,
            ResolvePhaseView::AnnounceDownload { .. } => 3,
            ResolvePhaseView::Install { .. } => 2,
            ResolvePhaseView::ScriptRecheck { .. } => 1,
        }
    }
}

impl CommandPhaseView {
    /// An upper bound on the calls still to come, the pending one included.
    pub open spec fn calls_left(self) -> nat {
        match self {
            CommandPhaseView::Which => 10,
            CommandPhaseView::Resolve(phase) => phase.calls_left() + 2,
            CommandPhaseView::AbsolutePath { .. } => 2,
            CommandPhaseView::NodeBinary { .. } => 1,
        }
    }
}

/// A finished resolution.
pub struct Resolution {
    /// The calls made on the host, in order.
    pub calls: Seq<HostCallView>,
    /// The script's path, or why there is none.
    pub outcome: Result<Seq<char>, ServerErrorView>,
    /// The flag afterwards.
    pub found: bool,
}

/// A finished command construction.
pub struct Construction {
    /// The calls made on the host, in order.
    pub calls: Seq<HostCallView>,
    /// The command, or why there is none.
    pub outcome: Result<CommandView, ServerErrorView>,
    /// The flag afterwards.
    pub found: bool,
}

/// The rest of a resolution that stands in `phase` with the flag at `found`.
pub open spec fn resolve_from(host: Host, found: bool, phase: ResolvePhaseView) -> Resolution
    decreases phase.calls_left(),
{
    let (found_after, step) = phase.step(found, host.answer_resolve(phase));
    match step {
        ResolveStepView::Done(outcome) => Resolution {
            calls: seq![phase.call()],
            outcome,
            found: found_after,
        },
        ResolveStepView::Continue(next) => {
            let rest = resolve_from(host, found_after, next);
            Resolution { calls: seq![phase.call()] + rest.calls, ..rest }
        },
    }
}

/// A whole resolution against `host`, begun with the flag at `found`.
pub open spec fn resolve(host: Host, found: bool) -> Resolution {
    resolve_from(host, found, ResolvePhaseView::ScriptCheck)
}

/// The rest of a construction that stands in `phase` with the flag at `found`.
pub open spec fn build_from(host: Host, found: bool, phase: CommandPhaseView) -> Construction
    decreases phase.calls_left(),
{
    let (found_after, step) = phase.step(found, host.answer(phase));
    match step {
        CommandStepView::Done(outcome) => Construction {
            calls: seq![phase.call()],
            outcome,
            found: found_after,
        },
        CommandStepView::Continue(next) => {
            let rest = build_from(host, found_after, next);
            Construction { calls: seq![phase.call()] + rest.calls, ..rest }
        },
    }
}

/// A whole command construction against `host`, begun with the flag at `found`.
pub open spec fn build(host: Host, found: bool) -> Construction {
    build_from(host, found, CommandPhaseView::Which)
}

/// The host answers every pending call of a resolution in kind, and each
/// answer brings the resolution strictly closer to its end.
pub proof fn resolution_advances(host: Host, found: bool, phase: ResolvePhaseView)
    ensures
        phase.accepts(host.answer_resolve(phase)),
        phase.step(found, host.answer_resolve(phase)).1 matches ResolveStepView::Continue(next)
            ==> next.calls_left() < phase.calls_left(),
{
}

/// Each answer of the host brings a construction strictly closer to its end.
pub proof fn construction_advances(host: Host, found: bool, phase: CommandPhaseView)
    ensures
        phase.step(found, host.answer(phase)).1 matches CommandStepView::Continue(next)
            ==> next.calls_left() < phase.calls_left(),
{
    if let CommandPhaseView::Resolve(inner) = phase {
        resolution_advances(host, found, inner);
    }
}

/// A run is never longer than the bound its first phase gives: seven calls
/// for a resolution.
pub proof fn resolution_is_bounded(host: Host, found: bool, phase: ResolvePhaseView)
    ensures
        1 <= resolve_from(host, found, phase).calls.len() <= phase.calls_left(),
    decreases phase.calls_left(),
{
    let (found_after, step) = phase.step(found, host.answer_resolve(phase));
    if let ResolveStepView::Continue(next) = step {
        resolution_is_bounded(host, found_after, next);
    }
}

/// A run is never longer than the bound its first phase gives: ten calls for
/// a construction.
pub proof fn construction_is_bounded(host: Host, found: bool, phase: CommandPhaseView)
    ensures
        1 <= build_from(host, found, phase).calls.len() <= phase.calls_left(),
    decreases phase.calls_left(),
{
    let (found_after, step) = phase.step(found, host.answer(phase));
    if let CommandStepView::Continue(next) = step {
        construction_is_bounded(host, found_after, next);
    }
}

} // verus!
