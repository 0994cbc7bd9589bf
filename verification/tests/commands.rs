use nixmcp::expressions::{OPTION_SEARCH_EXPRESSION, PACKAGE_EXPRESSION};
use nixmcp::{NixClient, NixCommand};

fn args(command: &NixCommand) -> Vec<&str> {
    command.args.iter().map(|a| a.as_str()).collect()
}

fn env(command: &NixCommand) -> Vec<(&str, &str)> {
    command.env.iter().map(|(k, v)| (k.as_str(), v.as_str())).collect()
}

#[test]
fn search_command_passes_query_as_one_argument() {
    let command = NixClient::new().search_packages_command("rip grep; rm -rf /");
    assert_eq!(command.program, "nix");
    assert_eq!(args(&command), vec!["search", "nixpkgs", "rip grep; rm -rf /", "--json"]);
    assert!(command.env.is_empty());
}

#[test]
fn package_command_passes_attribute_through_environment() {
    let command = NixClient::new().get_package_command("python3Packages.requests");
    assert_eq!(command.program, "nix");
    assert_eq!(args(&command), vec!["eval", "--json", "--impure", "--expr", PACKAGE_EXPRESSION]);
    assert_eq!(env(&command), vec![("NIXMCP_ATTRIBUTE", "python3Packages.requests")]);
    assert!(PACKAGE_EXPRESSION.contains("builtins.getEnv \"NIXMCP_ATTRIBUTE\""));
    assert!(PACKAGE_EXPRESSION.contains("description = package.meta.description or null;"));
}

#[test]
fn option_search_command_passes_query_through_environment() {
    let command = NixClient::new().search_options_command("openssh");
    assert_eq!(args(&command), vec!["eval", "--json", "--impure", "--expr", OPTION_SEARCH_EXPRESSION]);
    assert_eq!(env(&command), vec![("NIXMCP_QUERY", "openssh")]);
    assert!(OPTION_SEARCH_EXPRESSION.contains("nixpkgs.lib.take 20 matches"));
}

#[test]
fn option_command_writes_path_into_expression() {
    let path = "services.postgresql.enable";
    let command = NixClient::new().get_option_command(path);
    let expected = format!(
        r#"
        let
          nixpkgs = builtins.getFlake "nixpkgs";
          system = nixpkgs.lib.nixosSystem {{
            system = "x86_64-linux";
            modules = [];
          }};
          option = system.options.{path};
        in
          {{
            path = "{path}";
            description = if option ? description then option.description else null;
            option_type = if option ? type && option.type ? name then option.type.name else null;
            default = if option ? default then option.default else null;
          }}
        "#
    );
    assert_eq!(args(&command), vec!["eval", "--json", "--impure", "--expr", expected.as_str()]);
    assert!(command.env.is_empty());
}

#[test]
fn flake_command_passes_reference_as_one_argument() {
    let command = NixClient::new().inspect_flake_command("github:owner/repo");
    assert_eq!(command.program, "nix");
    assert_eq!(args(&command), vec!["flake", "show", "github:owner/repo", "--json"]);
    assert!(command.env.is_empty());
}
