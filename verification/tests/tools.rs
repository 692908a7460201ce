use gopls_locator::error::PluginError;
use gopls_locator::tools::all_tools_information;
use gopls_locator::tools::install_commands;

#[test]
fn install_specs_pin_versions() {
    let cmds = install_commands();
    assert_eq!(
        cmds,
        vec![
            "honnef.co/go/tools/cmd/staticcheck@latest".to_string(),
            "github.com/golangci/golangci-lint/cmd/golangci-lint@v1.50.1".to_string(),
            "github.com/mgechev/revive@v1.2.3".to_string(),
            "golang.org/x/tools/gopls@v0.10.1".to_string(),
            "github.com/go-delve/delve/cmd/dlv@v1.6.1".to_string(),
        ]
    );
}

#[test]
fn install_path_without_any_version_pins_latest() {
    let tools = all_tools_information();
    assert!(tools[0].latest_version.is_none() && tools[0].default_version.is_none());
    assert_eq!(
        tools[0].install_path(),
        "honnef.co/go/tools/cmd/staticcheck@latest"
    );
}

#[test]
fn install_path_uses_default_version_when_no_latest() {
    let tools = all_tools_information();
    assert!(tools[1].latest_version.is_none() && tools[1].default_version.is_some());
    assert_eq!(
        tools[1].install_path(),
        "github.com/golangci/golangci-lint/cmd/golangci-lint@v1.50.1"
    );
}

#[test]
fn install_path_prefers_latest_version() {
    let tools = all_tools_information();
    assert!(tools[3].latest_version.is_some());
    assert_eq!(tools[3].install_path(), "golang.org/x/tools/gopls@v0.10.1");
}

#[test]
fn table_holds_the_five_tools_in_order() {
    let tools = all_tools_information();
    let names: Vec<&str> = tools.iter().map(|t| t.name).collect();
    assert_eq!(
        names,
        vec!["staticcheck", "golangci-lint", "revive", "gopls", "dlv"]
    );
    assert!(tools.iter().all(|t| t.important));
    assert!(tools.iter().all(|t| !t.replaced_by_gopls));
}

#[test]
fn error_messages_render_as_surfaced() {
    assert_eq!(
        PluginError::InstallFailed("gopls".to_string()).to_message(),
        "Failed to install tool: gopls"
    );
    assert_eq!(
        PluginError::NoInstallationPathFound.to_message(),
        "No path found"
    );
    assert_eq!(
        PluginError::EnvironmentValueNotText("GOBIN".to_string(), "xx".to_string()).to_message(),
        "GOBIN is not in unicode format: 'xx'"
    );
    assert_eq!(PluginError::MalformedUri("bad".to_string()).to_message(), "bad");
}
