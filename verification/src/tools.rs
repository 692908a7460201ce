//! The fixed table of Go developer tools that are bootstrapped before the
//! language server is located through the environment.

use vstd::prelude::*;
use vstd::string::StringExecFns;

verus! {

/// Declares `semver::Version` so that a tool's minimum Go version can be
/// carried in its descriptor. The value is opaque: no contract reads it.
#[verifier::external_type_specification]
#[verifier::external_body]
pub struct ExVersion(semver::Version);

/// Declares `std::time::SystemTime` so that a tool's release timestamp can be
/// carried in its descriptor. The value is opaque: no contract reads it.
#[verifier::external_type_specification]
#[verifier::external_body]
pub struct ExSystemTime(std::time::SystemTime);

/// Relies on `semver::Version::new`, which builds the version triple with no
/// pre-release and no build metadata. Nothing here reads the result, so
/// nothing is stated of it.
pub assume_specification[ semver::Version::new ](
    major: u64,
    minor: u64,
    patch: u64,
) -> semver::Version;

/// A Go developer tool that can be installed through the Go toolchain.
#[non_exhaustive]
#[derive(Debug, Default)]
pub struct GoTool<'a> {
    pub name: &'a str,
    pub import_path: &'a str,
    pub module_root: &'a str,
    pub important: bool,
    pub replaced_by_gopls: bool,
    pub description: &'a str,
    pub default_version: Option<&'a str>,
    pub latest_version: Option<&'a str>,
    pub latest_version_timestamp: Option<std::time::SystemTime>,
    pub minimum_go_version: Option<semver::Version>,
}

/// The version that an install spec pins: the latest known version, else the
/// default version, else the moving target `latest`.
pub open spec fn spec_version_choice(t: GoTool<'_>) -> Seq<char> {
    match t.latest_version {
        Some(v) => v@,
        None => match t.default_version {
            Some(v) => v@,
            None => ("latest")@,
        },
    }
}

/// The full install spec of a tool: `importPath@version`.
pub open spec fn spec_install_spec_of(t: GoTool<'_>) -> Seq<char> {
    t.import_path@ + ("@")@ + spec_version_choice(t)
}

impl<'a> GoTool<'a> {
    /// The argument handed to `go install` for this tool.
    pub fn install_path(&self) -> (r: String)
        ensures
            r@ == spec_install_spec_of(*self),
    {
        let mut s = String::new();
        s.append(self.import_path);
        s.append("@");
        match self.latest_version {
            Some(v) => s.append(v),
            None => match self.default_version {
                Some(v) => s.append(v),
                None => s.append("latest"),
            },
        }
        s
    }
}

/// How many tools the table holds.
pub open spec fn spec_tool_count() -> int {
    5
}

/// The name of the tool at each position of the table.
pub open spec fn spec_tool_name(i: int) -> Seq<char> {
    if i == 0 {
        ("staticcheck")@
    } else if i == 1 {
        ("golangci-lint")@
    } else if i == 2 {
        ("revive")@
    } else if i == 3 {
        ("gopls")@
    } else {
        ("dlv")@
    }
}

/// The import path of the tool at each position of the table.
pub open spec fn spec_tool_import_path(i: int) -> Seq<char> {
    if i == 0 {
        ("honnef.co/go/tools/cmd/staticcheck")@
    } else if i == 1 {
        ("github.com/golangci/golangci-lint/cmd/golangci-lint")@
    } else if i == 2 {
        ("github.com/mgechev/revive")@
    } else if i == 3 {
        ("golang.org/x/tools/gopls")@
    } else {
        ("github.com/go-delve/delve/cmd/dlv")@
    }
}

/// The version that the install spec of the tool at each position pins.
pub open spec fn spec_tool_version(i: int) -> Seq<char> {
    if i == 0 {
        ("latest")@
    } else if i == 1 {
        ("v1.50.1")@
    } else if i == 2 {
        ("v1.2.3")@
    } else if i == 3 {
        ("v0.10.1")@
    } else {
        ("v1.6.1")@
    }
}

/// The install spec of the tool at each position of the table.
pub open spec fn spec_tool_install_spec(i: int) -> Seq<char> {
    spec_tool_import_path(i) + ("@")@ + spec_tool_version(i)
}

/// The table of tools that are bootstrapped when no explicit server path is
/// configured.
pub fn all_tools_information() -> (r: Vec<GoTool<'static>>)
    ensures
        r@.len() == spec_tool_count(),
        forall|i: int|
            0 <= i < r@.len() ==> {
                &&& (#[trigger] r@[i]).name@ == spec_tool_name(i)
                &&& r@[i].import_path@ == spec_tool_import_path(i)
                &&& spec_version_choice(r@[i]) == spec_tool_version(i)
            },
{
    let staticcheck = GoTool {
        name: "staticcheck",
        import_path: "honnef.co/go/tools/cmd/staticcheck",
        module_root: "honnef.co/go/tools",
        important: true,
        replaced_by_gopls: false,
        description: "Linter",
        default_version: None,
        latest_version: None,
        latest_version_timestamp: None,
        minimum_go_version: None,
    };
    let golangci_lint = GoTool {
        name: "golangci-lint",
        import_path: "github.com/golangci/golangci-lint/cmd/golangci-lint",
        module_root: "github.com/golangci/golangci-lint",
        important: true,
        replaced_by_gopls: false,
        description: "Linter",
        default_version: Some("v1.50.1"),
        latest_version: None,
        latest_version_timestamp: None,
        minimum_go_version: None,
    };
    let revive = GoTool {
        name: "revive",
        import_path: "github.com/mgechev/revive",
        module_root: "github.com/mgechev/revive",
        important: true,
        replaced_by_gopls: false,
        description: "Linter",
        default_version: Some("v1.2.3"),
        latest_version: None,
        latest_version_timestamp: None,
        minimum_go_version: None,
    };
    let gopls = GoTool {
        name: "gopls",
        import_path: "golang.org/x/tools/gopls",
        module_root: "golang.org/x/tools/gopls",
        important: true,
        replaced_by_gopls: false,
        description: "Language Server from Google",
        default_version: None,
        latest_version: Some("v0.10.1"),
        latest_version_timestamp: None,
        minimum_go_version: Some(semver::Version::new(1, 13, 0)),
    };
    let dlv = GoTool {
        name: "dlv",
        import_path: "github.com/go-delve/delve/cmd/dlv",
        module_root: "github.com/go-delve/delve",
        important: true,
        replaced_by_gopls: false,
        description: "Go debugger (Delve)",
        default_version: None,
        latest_version: Some("v1.6.1"),
        latest_version_timestamp: None,
        minimum_go_version: Some(semver::Version::new(1, 12, 0)),
    };
    let mut r: Vec<GoTool<'static>> = Vec::new();
    r.push(staticcheck);
    r.push(golangci_lint);
    r.push(revive);
    r.push(gopls);
    r.push(dlv);
    r
}

/// The install spec of every tool of the table, in table order.
pub fn install_commands() -> (r: Vec<String>)
    ensures
        r@.len() == spec_tool_count(),
        forall|i: int| 0 <= i < r@.len() ==> (#[trigger] r@[i])@ == spec_tool_install_spec(i),
{
    let tools = all_tools_information();
    let mut r: Vec<String> = Vec::new();
    let mut i: usize = 0;
    while i < tools.len()
        invariant
            tools@.len() == spec_tool_count(),
            forall|j: int|
                0 <= j < tools@.len() ==> {
                    &&& (#[trigger] tools@[j]).name@ == spec_tool_name(j)
                    &&& tools@[j].import_path@ == spec_tool_import_path(j)
                    &&& spec_version_choice(tools@[j]) == spec_tool_version(j)
                },
            i <= tools@.len(),
            r@.len() == i,
            forall|j: int| 0 <= j < i ==> (#[trigger] r@[j])@ == spec_tool_install_spec(j),
        decreases tools@.len() - i,
    {
        r.push(tools[i].install_path());
        i = i + 1;
    }
    r
}

} // verus!
