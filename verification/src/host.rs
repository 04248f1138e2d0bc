//! The narrow interface to the host: the calls the library may ask for and
//! the answers it accepts.

use vstd::prelude::*;

verus! {

/// Name under which a system-wide server binary is looked up on the search path.
pub const SERVER_BINARY: &'static str = "cucumber-language-server";

/// Entry-point script of the managed package, relative to the working directory.
pub const SERVER_PATH: &'static str =
    "node_modules/@cucumber/language-server/bin/cucumber-language-server.cjs";

/// Name of the managed package in the registry.
pub const PACKAGE_NAME: &'static str = "@cucumber/language-server";

/// Key under which editor settings for this language are kept.
pub const SETTINGS_NAMESPACE: &'static str = "cucumber";

/// Sole argument understood by the server: talk over standard input and output.
pub const STDIO_FLAG: &'static str = "--stdio";

/// The script lies where npm puts the package: under `node_modules`, in the
/// package's `bin` directory, named after the server binary.
pub proof fn script_lies_inside_the_package()
    ensures
        SERVER_PATH@ == "node_modules/"@ + PACKAGE_NAME@ + "/bin/"@ + SERVER_BINARY@ + ".cjs"@,
{
    reveal_strlit("node_modules/");
    reveal_strlit("/bin/");
    reveal_strlit(".cjs");
    reveal_strlit("cucumber-language-server");
    reveal_strlit("@cucumber/language-server");
    reveal_strlit("node_modules/@cucumber/language-server/bin/cucumber-language-server.cjs");
    assert(SERVER_PATH@ =~= "node_modules/"@ + PACKAGE_NAME@ + "/bin/"@ + SERVER_BINARY@
        + ".cjs"@);
}

/// Progress shown by the editor while the server is being provisioned.
#[derive(Clone, Copy, Debug, PartialEq, Eq, Structural)]
pub enum InstallationStatus {
    CheckingForUpdate,
    Downloading,
}

/// One call on a collaborator of the host.
#[derive(Debug, PartialEq, Eq)]
pub enum HostCall {
    /// Look `binary` up on the search path scoped to the worktree.
    Which { binary: &'static str },
    /// Is `path` a regular file?
    ScriptExists { path: &'static str },
    /// Show `status` for the language server. The host only acknowledges.
    ReportStatus { status: InstallationStatus },
    /// Ask the registry for the newest version of `package`.
    LatestVersion { package: &'static str },
    /// Ask which version of `package` is installed, if any.
    InstalledVersion { package: &'static str },
    /// Install `version` of `package`.
    Install { package: &'static str, version: String },
    /// Join `relative` against the current working directory.
    AbsolutePath { relative: String },
    /// Locate the Node.js binary that the host manages.
    NodeBinary,
}

/// Mathematical form of a [`HostCall`].
pub enum HostCallView {
    Which { binary: Seq<char> },
    ScriptExists { path: Seq<char> },
    ReportStatus { status: InstallationStatus },
    LatestVersion { package: Seq<char> },
    InstalledVersion { package: Seq<char> },
    Install { package: Seq<char>, version: Seq<char> },
    AbsolutePath { relative: Seq<char> },
    NodeBinary,
}

impl View for HostCall {
    type V = HostCallView;

    open spec fn view(&self) -> HostCallView {
        match *self {
            HostCall::Which { binary } => HostCallView::Which { binary: binary@ },
            HostCall::ScriptExists { path } => HostCallView::ScriptExists { path: path@ },
            HostCall::ReportStatus { status } => HostCallView::ReportStatus { status },
            HostCall::LatestVersion { package } => HostCallView::LatestVersion { package: package@ },
            HostCall::InstalledVersion { package } => HostCallView::InstalledVersion {
                package: package@,
            },
            HostCall::Install { package, version } => HostCallView::Install {
                package: package@,
                version: version@,
            },
            HostCall::AbsolutePath { relative } => HostCallView::AbsolutePath {
                relative: relative@,
            },
            HostCall::NodeBinary => HostCallView::NodeBinary,
        }
    }
}

/// What the host reports back after performing a [`HostCall`].
///
/// Failures of the host's collaborators arrive as the host's own message.
#[derive(Debug, PartialEq, Eq)]
pub enum Answer {
    /// Path of the binary found on the search path, if there is one.
    Which(Option<String>),
    /// Whether the script is a regular file right now.
    ScriptExists(bool),
    /// The status was handed to the editor.
    StatusReported,
    /// Newest version the registry offers.
    LatestVersion(Result<String, String>),
    /// Version installed locally, if any.
    InstalledVersion(Result<Option<String>, String>),
    /// Outcome of the installation.
    Installed(Result<(), String>),
    /// The path joined against the working directory.
    AbsolutePath(String),
    /// Path of the Node.js binary.
    NodeBinary(Result<String, String>),
}

/// Mathematical form of an [`Answer`].
pub enum AnswerView {
    Which(Option<Seq<char>>),
    ScriptExists(bool),
    StatusReported,
    LatestVersion(Result<Seq<char>, Seq<char>>),
    InstalledVersion(Result<Option<Seq<char>>, Seq<char>>),
    Installed(Result<(), Seq<char>>),
    AbsolutePath(Seq<char>),
    NodeBinary(Result<Seq<char>, Seq<char>>),
}

/// View of an optional string.
pub open spec fn option_view(o: Option<String>) -> Option<Seq<char>> {
    match o {
        Some(s) => Some(s@),
        None => None,
    }
}

/// View of a string or the host's failure message.
pub open spec fn result_view(r: Result<String, String>) -> Result<Seq<char>, Seq<char>> {
    match r {
        Ok(s) => Ok(s@),
        Err(e) => Err(e@),
    }
}

impl View for Answer {
    type V = AnswerView;

    open spec fn view(&self) -> AnswerView {
        match *self {
            Answer::Which(found) => AnswerView::Which(option_view(found)),
            Answer::ScriptExists(exists) => AnswerView::ScriptExists(exists),
            Answer::StatusReported => AnswerView::StatusReported,
            Answer::LatestVersion(latest) => AnswerView::LatestVersion(result_view(latest)),
            Answer::InstalledVersion(Ok(installed)) => AnswerView::InstalledVersion(
                Ok(option_view(installed)),
            ),
            Answer::InstalledVersion(Err(e)) => AnswerView::InstalledVersion(Err(e@)),
            Answer::Installed(Ok(())) => AnswerView::Installed(Ok(())),
            Answer::Installed(Err(e)) => AnswerView::Installed(Err(e@)),
            Answer::AbsolutePath(path) => AnswerView::AbsolutePath(path@),
            Answer::NodeBinary(node) => AnswerView::NodeBinary(result_view(node)),
        }
    }
}

} // verus!
