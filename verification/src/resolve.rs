//! The server locator. One initialization payload goes in; what the host
//! needs to start the language server comes out, in two stages: the payload
//! alone decides whether an override path names the server, and otherwise
//! the tool bootstrap and the environment finish the job.

use vstd::prelude::*;
use vstd::string::StringExecFns;

use crate::environment::DirOutcome;
use crate::environment::EnvLookup;
use crate::environment::resolve_install_dir;
use crate::environment::spec_install_dir;
use crate::error::PluginError;
use crate::json::JsonValue;
use crate::json::extract_string_entries;
use crate::json::spec_get;
use crate::json::string_entries;
use crate::json::take_two_fields;
use crate::tools::all_tools_information;
use crate::tools::spec_tool_count;
use crate::tools::spec_tool_name;
use crate::uri::build_uri_text;
use crate::uri::exe_name;
use crate::uri::join_path_segment;
use crate::uri::parse_url;
use crate::uri::spec_exe_name;
use crate::uri::spec_joined;
use crate::uri::uri_parses;

verus! {

/// One rule of a file selector: which files, by language and glob pattern,
/// the server attaches to.
#[derive(Debug, PartialEq, Eq)]
pub struct DocumentFilter {
    pub language: Option<String>,
    pub pattern: Option<String>,
    pub scheme: Option<String>,
}

/// Whether a selector holds exactly the one Go rule: language `go`, pattern
/// `**.go`, no scheme restriction.
pub open spec fn spec_is_go_selector(ds: Seq<DocumentFilter>) -> bool {
    &&& ds.len() == 1
    &&& ds[0].language matches Some(l) && l@ == ("go")@
    &&& ds[0].pattern matches Some(p) && p@ == ("**.go")@
    &&& ds[0].scheme is None
}

/// The selector with the one Go rule.
fn go_document_selector() -> (r: Vec<DocumentFilter>)
    ensures
        spec_is_go_selector(r@),
{
    let f = DocumentFilter {
        language: Some(String::from_str("go")),
        pattern: Some(String::from_str("**.go")),
        scheme: None,
    };
    let mut r: Vec<DocumentFilter> = Vec::new();
    r.push(f);
    r
}

/// What the host needs to start the language server.
pub struct LspParams {
    /// The parsed server location, as the host consumes it.
    pub server_uri: url::Url,
    /// The text the location was parsed from.
    pub uri_text: String,
    /// The server's command-line arguments.
    pub server_args: Vec<String>,
    /// The files the server attaches to.
    pub document_selector: Vec<DocumentFilter>,
    /// The server-specific options of the payload, if any.
    pub options: Option<JsonValue>,
}

/// The payload's override section, under the plugin's own key.
pub open spec fn spec_override_section(payload: Option<JsonValue>) -> Option<JsonValue> {
    match payload {
        Some(p) => spec_get(p, ("volt")@),
        None => None,
    }
}

/// The server-specific options of the payload: the sibling key named after
/// the language server. Absent is valid.
pub open spec fn spec_options(payload: Option<JsonValue>) -> Option<JsonValue> {
    match payload {
        Some(p) => spec_get(p, ("gopls")@),
        None => None,
    }
}

/// The override server path, if the override section holds one as a
/// non-empty string. An empty string is no override.
pub open spec fn spec_server_path(payload: Option<JsonValue>) -> Option<Seq<char>> {
    match spec_override_section(payload) {
        Some(sec) => match spec_get(sec, ("serverPath")@) {
            Some(v) => match v {
                JsonValue::Text(s) => if s@.len() > 0 {
                    Some(s@)
                } else {
                    None
                },
                _ => None,
            },
            None => None,
        },
        None => None,
    }
}

/// The override server arguments: the string entries of the override
/// section's argument array, in order; entries of any other shape are
/// dropped, and a missing or malformed array means no arguments.
pub open spec fn spec_server_args(payload: Option<JsonValue>) -> Seq<String> {
    match spec_override_section(payload) {
        Some(sec) => match spec_get(sec, ("serverArgs")@) {
            Some(v) => match v {
                JsonValue::Array(items) => string_entries(items@),
                _ => Seq::empty(),
            },
            None => Seq::empty(),
        },
        None => Seq::empty(),
    }
}

/// What survives of the payload when no override path names the server:
/// the second stage carries these into the resolved configuration.
pub struct PendingResolution {
    pub server_args: Vec<String>,
    pub options: Option<JsonValue>,
}

/// What the payload alone decides.
pub enum Resolution {
    /// The override names the server; the environment is never consulted
    /// and no tool is installed.
    Ready(LspParams),
    /// No override: tools must be bootstrapped and the environment
    /// consulted.
    NeedsTools(PendingResolution),
}

/// The first stage of resolution, from the payload alone. A non-empty
/// override `serverPath` yields the full configuration at once: its literal
/// text as a `urn` URI, the override's string-typed arguments in order, the
/// Go file selector, and the server-specific options. Without one, the
/// arguments and options survive into the second stage.
pub fn calculate_lsp_params(payload: Option<JsonValue>) -> (r: Result<Resolution, PluginError>)
    ensures
        match spec_server_path(payload) {
            Some(path) => if uri_parses(("urn:")@ + path) {
                &&& r matches Ok(Resolution::Ready(lp))
                &&& lp.uri_text@ == ("urn:")@ + path
                &&& lp.server_args@ == spec_server_args(payload)
                &&& spec_is_go_selector(lp.document_selector@)
                &&& lp.options == spec_options(payload)
            } else {
                r matches Err(PluginError::MalformedUri(_))
            },
            None => {
                &&& r matches Ok(Resolution::NeedsTools(p))
                &&& p.server_args@ == spec_server_args(payload)
                &&& p.options == spec_options(payload)
            },
        },
{
    let document_selector = go_document_selector();
    match payload {
        None => Ok(
            Resolution::NeedsTools(PendingResolution { server_args: Vec::new(), options: None }),
        ),
        Some(p) => {
            let options_key = String::from_str("gopls");
            let override_key = String::from_str("volt");
            proof {
                reveal_strlit("gopls");
                reveal_strlit("volt");
                assert(("gopls")@.len() == 5);
                assert(("volt")@.len() == 4);
                assert(("gopls")@ != ("volt")@);
            }
            let (options, override_section) = take_two_fields(p, &options_key, &override_key);
            let (server_args, override_path) = match override_section {
                Some(sec) => {
                    let args_key = String::from_str("serverArgs");
                    let path_key = String::from_str("serverPath");
                    proof {
                        reveal_strlit("serverArgs");
                        reveal_strlit("serverPath");
                        assert(("serverArgs")@[6] == 'A');
                        assert(("serverPath")@[6] == 'P');
                        assert(("serverArgs")@ != ("serverPath")@);
                    }
                    let (args_value, path_value) = take_two_fields(sec, &args_key, &path_key);
                    let args = match args_value {
                        Some(v) => match v {
                            JsonValue::Array(items) => extract_string_entries(items),
                            _ => Vec::new(),
                        },
                        None => Vec::new(),
                    };
                    let path: Option<String> = match path_value {
                        Some(v) => match v {
                            JsonValue::Text(s) => if s.as_str().is_empty() {
                                None
                            } else {
                                Some(s)
                            },
                            _ => None,
                        },
                        None => None,
                    };
                    (args, path)
                },
                None => (Vec::new(), None),
            };
            match override_path {
                Some(path) => {
                    let uri_text = build_uri_text(&path);
                    match parse_url(&uri_text) {
                        Ok(u) => Ok(
                            Resolution::Ready(
                                LspParams {
                                    server_uri: u,
                                    uri_text,
                                    server_args,
                                    document_selector,
                                    options,
                                },
                            ),
                        ),
                        Err(cause) => Err(PluginError::MalformedUri(cause)),
                    }
                },
                None => Ok(
                    Resolution::NeedsTools(PendingResolution { server_args, options }),
                ),
            }
        },
    }
}

/// The position of the first failed install, if any.
pub open spec fn spec_first_failure(results: Seq<bool>) -> Option<int>
    decreases results.len(),
{
    if results.len() == 0 {
        None
    } else if !results[0] {
        Some(0)
    } else {
        match spec_first_failure(results.drop_first()) {
            Some(i) => Some(i + 1),
            None => None,
        }
    }
}

/// A failed entry behind an all-successful prefix is the first failure.
proof fn lemma_first_failure_at(results: Seq<bool>, i: int)
    requires
        0 <= i < results.len(),
        !results[i],
        forall|j: int| 0 <= j < i ==> results[j],
    ensures
        spec_first_failure(results) == Some(i),
    decreases i,
{
    if i == 0 {
    } else {
        assert(results[0]);
        assert(results.drop_first()[i - 1] == results[i]);
        assert(forall|j: int| 0 <= j < i - 1 ==> results.drop_first()[j] == results[j + 1]);
        lemma_first_failure_at(results.drop_first(), i - 1);
    }
}

/// All-successful results hold no first failure.
proof fn lemma_no_failure(results: Seq<bool>)
    requires
        forall|j: int| 0 <= j < results.len() ==> results[j],
    ensures
        spec_first_failure(results) is None,
    decreases results.len(),
{
    if results.len() == 0 {
    } else {
        assert(results[0]);
        assert(forall|j: int|
            0 <= j < results.drop_first().len() ==> results.drop_first()[j] == results[j + 1]);
        lemma_no_failure(results.drop_first());
    }
}

/// The second stage of resolution, after the tool bootstrap. The results
/// come in table order, one per attempted install, stopping at the first
/// failure; a failure fails resolution naming that tool, and no location is
/// returned. Otherwise the environment chain yields the directory, the
/// platform the executable name, and the location is the `urn` URI over the
/// joined path.
pub fn resolve_with_environment(
    pending: PendingResolution,
    install_results: &Vec<bool>,
    env: &EnvLookup,
    os: &Option<String>,
) -> (r: Result<LspParams, PluginError>)
    requires
        install_results@.len() <= spec_tool_count(),
        spec_first_failure(install_results@) is None ==> install_results@.len()
            == spec_tool_count(),
    ensures
        match spec_first_failure(install_results@) {
            Some(i) => r matches Err(PluginError::InstallFailed(name)) && name@
                == spec_tool_name(i),
            None => match spec_install_dir(*env) {
                DirOutcome::BadVariable(n, v) => r matches Err(
                    PluginError::EnvironmentValueNotText(var, val),
                ) && var@ == n && val@ == v,
                DirOutcome::Missing => r matches Err(PluginError::NoInstallationPathFound),
                DirOutcome::Found(d) => {
                    let text = ("urn:")@ + spec_joined(d, spec_exe_name(spec_is_windows(*os)));
                    if uri_parses(text) {
                        &&& r matches Ok(lp)
                        &&& lp.uri_text@ == text
                        &&& lp.server_args@ == pending.server_args@
                        &&& spec_is_go_selector(lp.document_selector@)
                        &&& lp.options == pending.options
                    } else {
                        r matches Err(PluginError::MalformedUri(_))
                    }
                },
            },
        },
{
    let tools = all_tools_information();
    let mut i: usize = 0;
    while i < install_results.len()
        invariant
            i <= install_results@.len(),
            install_results@.len() <= spec_tool_count(),
            tools@.len() == spec_tool_count(),
            forall|j: int| 0 <= j < i ==> install_results@[j],
            forall|j: int|
                0 <= j < tools@.len() ==> (#[trigger] tools@[j]).name@ == spec_tool_name(j),
        decreases install_results@.len() - i,
    {
        if !install_results[i] {
            proof {
                lemma_first_failure_at(install_results@, i as int);
            }
            return Err(PluginError::InstallFailed(tools[i].name.to_owned()));
        }
        i = i + 1;
    }
    proof {
        lemma_no_failure(install_results@);
    }
    let dir = match resolve_install_dir(env) {
        Ok(d) => d,
        Err(e) => {
            return Err(e);
        },
    };
    let windows = is_windows(os);
    let exe = exe_name(windows);
    let path = join_path_segment(&dir, exe);
    let uri_text = build_uri_text(&path);
    match parse_url(&uri_text) {
        Ok(u) => Ok(
            LspParams {
                server_uri: u,
                uri_text,
                server_args: pending.server_args,
                document_selector: go_document_selector(),
                options: pending.options,
            },
        ),
        Err(cause) => Err(PluginError::MalformedUri(cause)),
    }
}

/// Whether the host-reported operating system is Windows.
pub open spec fn spec_is_windows(os: Option<String>) -> bool {
    match os {
        Some(s) => s@ == ("windows")@,
        None => false,
    }
}

/// Reads the host-reported operating system; anything but `windows`,
/// including no report at all, counts as not Windows.
pub fn is_windows(os: &Option<String>) -> (r: bool)
    ensures
        r == spec_is_windows(*os),
{
    match os {
        Some(s) => {
            let w = String::from_str("windows");
            *s == w
        },
        None => false,
    }
}

/// An override `serverPath` that is present but empty is no override: the
/// resolver falls through to environment-based resolution.
pub proof fn lemma_empty_override_ignored(payload: Option<JsonValue>, s: String)
    requires
        spec_override_section(payload) matches Some(sec) && spec_get(sec, ("serverPath")@)
            == Some(JsonValue::Text(s)),
        s@.len() == 0,
    ensures
        spec_server_path(payload) is None,
{
}

} // verus!
