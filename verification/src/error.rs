//! Failures that reach the host.

use vstd::prelude::*;
use crate::host::{PACKAGE_NAME, SERVER_PATH};

verus! {

/// Text reported when an installation succeeds without producing the script.
pub const MISSING_ENTRY_POINT: &'static str =
    "installed package '@cucumber/language-server' did not contain expected path 'node_modules/@cucumber/language-server/bin/cucumber-language-server.cjs'";

/// Why no command could be produced.
#[derive(Debug, PartialEq, Eq)]
pub enum ServerError {
    /// The registry could not be reached or refused, and no installed copy
    /// can stand in. Carries the host's message unchanged.
    Registry(String),
    /// The installation reported success, yet the entry-point script is not
    /// where the package is expected to put it.
    MissingEntryPoint,
    /// The host could not locate its Node.js binary. Carries the host's
    /// message unchanged.
    Interpreter(String),
}

/// Mathematical form of a [`ServerError`].
pub enum ServerErrorView {
    Registry(Seq<char>),
    MissingEntryPoint,
    Interpreter(Seq<char>),
}

impl ServerErrorView {
    /// The text handed to the host for this failure.
    pub open spec fn message(self) -> Seq<char> {
        match self {
            ServerErrorView::Registry(text) => text,
            ServerErrorView::MissingEntryPoint => MISSING_ENTRY_POINT@,
            ServerErrorView::Interpreter(text) => text,
        }
    }
}

impl View for ServerError {
    type V = ServerErrorView;

    open spec fn view(&self) -> ServerErrorView {
        match *self {
            ServerError::Registry(text) => ServerErrorView::Registry(text@),
            ServerError::MissingEntryPoint => ServerErrorView::MissingEntryPoint,
            ServerError::Interpreter(text) => ServerErrorView::Interpreter(text@),
        }
    }
}

impl ServerError {
    /// The text handed to the host: the host's own message where the failure
    /// came from one of its collaborators, a fixed sentence for a package
    /// without its script.
    pub fn message(&self) -> (text: String)
        ensures
            text@ == self@.message(),
    {
        match self {
            ServerError::Registry(text) => text.clone(),
            ServerError::MissingEntryPoint => MISSING_ENTRY_POINT.to_string(),
            ServerError::Interpreter(text) => text.clone(),
        }
    }
}

/// The fixed sentence names the managed package and the path that was expected.
pub proof fn missing_entry_point_names_package_and_path()
    ensures
        MISSING_ENTRY_POINT@ == "installed package '"@ + PACKAGE_NAME@
            + "' did not contain expected path '"@ + SERVER_PATH@ + "'"@,
{
    reveal_strlit("installed package '");
    reveal_strlit("' did not contain expected path '");
    reveal_strlit("'");
    reveal_strlit("@cucumber/language-server");
    reveal_strlit("node_modules/@cucumber/language-server/bin/cucumber-language-server.cjs");
    reveal_strlit(
        "installed package '@cucumber/language-server' did not contain expected path 'node_modules/@cucumber/language-server/bin/cucumber-language-server.cjs'",
    );
    assert(MISSING_ENTRY_POINT@ =~= "installed package '"@ + PACKAGE_NAME@
        + "' did not contain expected path '"@ + SERVER_PATH@ + "'"@);
}

} // verus!
