//! The settings handed to the server when it starts.

use vstd::prelude::*;
use crate::host::SETTINGS_NAMESPACE;
use crate::resolver::CucumberExtension;

verus! {

/// Settings for the server, filed under the language's key.
///
/// `V` is whatever the host uses for a settings value; the library only
/// carries it. `settings` is `None` where the host has nothing to offer: the
/// empty default.
#[derive(Debug, PartialEq, Eq)]
pub struct WorkspaceConfiguration<V> {
    /// The key the settings are filed under.
    pub namespace: String,
    /// The settings themselves, or `None` for the empty default.
    pub settings: Option<V>,
}

/// The settings that a lookup amounts to: what was found, and the empty
/// default where nothing was found or the lookup failed.
pub open spec fn settings_or_empty<V>(lookup: Result<Option<V>, String>) -> Option<V> {
    match lookup {
        Ok(Some(settings)) => Some(settings),
        _ => None,
    }
}

impl CucumberExtension {
    /// Files what the host's settings reader returned for
    /// [`SETTINGS_NAMESPACE`] under that key.
    ///
    /// A configuration always comes back. A lookup that failed or found
    /// nothing is no failure: the configuration then holds the empty default.
    /// The extension is left as it was.
    pub fn language_server_workspace_configuration<V>(
        &mut self,
        lookup: Result<Option<V>, String>,
    ) -> (configuration: Result<Option<WorkspaceConfiguration<V>>, String>)
        ensures
            *final(self) == *old(self),
            configuration matches Ok(Some(filed)) && filed.namespace@ == SETTINGS_NAMESPACE@
                && filed.settings == settings_or_empty(lookup),
    {
        let settings = match lookup {
            Ok(Some(settings)) => Some(settings),
            _ => None,
        };
        Ok(Some(WorkspaceConfiguration { namespace: SETTINGS_NAMESPACE.to_string(), settings }))
    }
}

} // verus!
