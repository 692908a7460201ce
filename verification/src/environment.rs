//! The read-only environment lookup that locates a Go installation directory
//! when no explicit server path is configured: `GOBIN`, else `GOPATH/bin`,
//! else `HOME/go/bin`.

use vstd::prelude::*;
use vstd::string::StringExecFns;

use crate::error::PluginError;

verus! {

/// One environment variable, as the host reports it.
pub enum EnvValue {
    /// The variable is not set.
    Unset,
    /// The variable is set to this text.
    Text(String),
    /// The variable is set but its value is no valid text; carries a
    /// display-safe rendering of the value.
    NotText(String),
}

/// The three variables consulted to locate the installation directory.
pub struct EnvLookup {
    pub gobin: EnvValue,
    pub gopath: EnvValue,
    pub home: EnvValue,
}

/// Where the fallback chain of environment variables leads.
pub enum DirOutcome {
    /// This directory holds the installed binaries.
    Found(Seq<char>),
    /// The named variable is set but not text; carries the rendering of the
    /// bad value.
    BadVariable(Seq<char>, Seq<char>),
    /// No variable yields a directory.
    Missing,
}

/// The third step of the chain: `HOME`, extended by `/go/bin`.
pub open spec fn spec_dir_from_home(env: EnvLookup) -> DirOutcome {
    match env.home {
        EnvValue::NotText(v) => DirOutcome::BadVariable(("HOME")@, v@),
        EnvValue::Text(s) => DirOutcome::Found(s@ + ("/go/bin")@),
        EnvValue::Unset => DirOutcome::Missing,
    }
}

/// The second step of the chain: `GOPATH`, extended by `/bin`.
pub open spec fn spec_dir_from_gopath(env: EnvLookup) -> DirOutcome {
    match env.gopath {
        EnvValue::NotText(v) => DirOutcome::BadVariable(("GOPATH")@, v@),
        EnvValue::Text(s) => DirOutcome::Found(s@ + ("/bin")@),
        EnvValue::Unset => spec_dir_from_home(env),
    }
}

/// The whole chain: `GOBIN` decides alone when it is set, text and
/// non-empty; a set but unreadable variable stops the chain at once rather
/// than falling through.
pub open spec fn spec_install_dir(env: EnvLookup) -> DirOutcome {
    match env.gobin {
        EnvValue::NotText(v) => DirOutcome::BadVariable(("GOBIN")@, v@),
        EnvValue::Text(s) => if s@.len() > 0 {
            DirOutcome::Found(s@)
        } else {
            spec_dir_from_gopath(env)
        },
        EnvValue::Unset => spec_dir_from_gopath(env),
    }
}

/// How an exec result must reflect a chain outcome.
pub open spec fn dir_result_matches(o: DirOutcome, r: Result<String, PluginError>) -> bool {
    match o {
        DirOutcome::Found(d) => r matches Ok(dir) && dir@ == d,
        DirOutcome::BadVariable(n, v) => r matches Err(PluginError::EnvironmentValueNotText(
            var,
            val,
        )) && var@ == n && val@ == v,
        DirOutcome::Missing => r == Err::<String, PluginError>(
            PluginError::NoInstallationPathFound,
        ),
    }
}

/// The third step of the chain, executed.
fn resolve_from_home(env: &EnvLookup) -> (r: Result<String, PluginError>)
    ensures
        dir_result_matches(spec_dir_from_home(*env), r),
{
    match &env.home {
        EnvValue::NotText(v) => Err(
            PluginError::EnvironmentValueNotText(String::from_str("HOME"), v.clone()),
        ),
        EnvValue::Text(s) => {
            let mut dir = s.clone();
            dir.append("/go/bin");
            Ok(dir)
        },
        EnvValue::Unset => Err(PluginError::NoInstallationPathFound),
    }
}

/// The second step of the chain, executed.
fn resolve_from_gopath(env: &EnvLookup) -> (r: Result<String, PluginError>)
    ensures
        dir_result_matches(spec_dir_from_gopath(*env), r),
{
    match &env.gopath {
        EnvValue::NotText(v) => Err(
            PluginError::EnvironmentValueNotText(String::from_str("GOPATH"), v.clone()),
        ),
        EnvValue::Text(s) => {
            let mut dir = s.clone();
            dir.append("/bin");
            Ok(dir)
        },
        EnvValue::Unset => resolve_from_home(env),
    }
}

/// Resolves the installation directory from the environment, following the
/// `GOBIN`, `GOPATH`, `HOME` chain.
pub fn resolve_install_dir(env: &EnvLookup) -> (r: Result<String, PluginError>)
    ensures
        dir_result_matches(spec_install_dir(*env), r),
{
    match &env.gobin {
        EnvValue::NotText(v) => Err(
            PluginError::EnvironmentValueNotText(String::from_str("GOBIN"), v.clone()),
        ),
        EnvValue::Text(s) => {
            if s.as_str().is_empty() {
                resolve_from_gopath(env)
            } else {
                Ok(s.clone())
            }
        },
        EnvValue::Unset => resolve_from_gopath(env),
    }
}

/// `GOBIN`, set to non-empty text, decides the directory alone: the chain
/// yields it whatever `GOPATH` and `HOME` hold.
pub proof fn lemma_gobin_decides(env: EnvLookup, s: String)
    requires
        env.gobin == EnvValue::Text(s),
        s@.len() > 0,
    ensures
        spec_install_dir(env) == DirOutcome::Found(s@),
{
}

/// With `GOBIN` unset and `GOPATH` set to text, the chain yields
/// `GOPATH/bin` whatever `HOME` holds.
pub proof fn lemma_gopath_fallback(env: EnvLookup, s: String)
    requires
        env.gobin == EnvValue::Unset,
        env.gopath == EnvValue::Text(s),
    ensures
        spec_install_dir(env) == DirOutcome::Found(s@ + ("/bin")@),
{
}

/// With `GOBIN` and `GOPATH` unset and `HOME` set to text, the chain yields
/// `HOME/go/bin`.
pub proof fn lemma_home_fallback(env: EnvLookup, s: String)
    requires
        env.gobin == EnvValue::Unset,
        env.gopath == EnvValue::Unset,
        env.home == EnvValue::Text(s),
    ensures
        spec_install_dir(env) == DirOutcome::Found(s@ + ("/go/bin")@),
{
}

/// With all three variables unset, the chain finds no installation path.
pub proof fn lemma_nothing_set_fails(env: EnvLookup)
    requires
        env.gobin == EnvValue::Unset,
        env.gopath == EnvValue::Unset,
        env.home == EnvValue::Unset,
    ensures
        spec_install_dir(env) == DirOutcome::Missing,
{
}

} // verus!
