//! The errors that end a resolution attempt. Each is terminal: nothing is
//! retried, and no partial configuration is ever handed back.

use vstd::prelude::*;
use vstd::string::StringExecFns;

verus! {

/// Why resolution of the language-server configuration failed.
#[derive(Debug, PartialEq, Eq)]
pub enum PluginError {
    /// A tool of the bootstrap table failed to install; carries its name.
    InstallFailed(String),
    /// No consulted environment variable yields an installation directory.
    NoInstallationPathFound,
    /// A consulted environment variable is set but its value is no valid
    /// text; carries the variable's name and a display-safe rendering of the
    /// value.
    EnvironmentValueNotText(String, String),
    /// The resolved location does not form a well-formed URI; carries the
    /// cause.
    MalformedUri(String),
}

/// The message under which each error is surfaced to the user.
pub open spec fn spec_message(e: PluginError) -> Seq<char> {
    match e {
        PluginError::InstallFailed(name) => ("Failed to install tool: ")@ + name@,
        PluginError::NoInstallationPathFound => ("No path found")@,
        PluginError::EnvironmentValueNotText(var, val) => var@ + (" is not in unicode format: '")@
            + val@ + ("'")@,
        PluginError::MalformedUri(cause) => cause@,
    }
}

impl PluginError {
    /// A human-readable rendering of the error.
    pub fn to_message(&self) -> (r: String)
        ensures
            r@ == spec_message(*self),
    {
        match self {
            PluginError::InstallFailed(name) => {
                let mut s = String::from_str("Failed to install tool: ");
                s.append(name.as_str());
                s
            },
            PluginError::NoInstallationPathFound => String::from_str("No path found"),
            PluginError::EnvironmentValueNotText(var, val) => {
                let mut s = var.clone();
                s.append(" is not in unicode format: '");
                s.append(val.as_str());
                s.append("'");
                s
            },
            PluginError::MalformedUri(cause) => cause.clone(),
        }
    }
}

} // verus!
