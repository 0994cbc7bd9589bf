use vstd::prelude::*;

verus! {

/// The Nix expression that evaluates the package named by the environment
/// variable `NIXMCP_ATTRIBUTE` (a dot-separated attribute path) and yields its
/// `pname`, `version` and `description`.
pub const PACKAGE_EXPRESSION: &'static str = "\nlet\n  nixpkgs = builtins.getFlake \"nixpkgs\";\n  attribute = builtins.getEnv \"NIXMCP_ATTRIBUTE\";\n  parts = nixpkgs.lib.splitString \".\" attribute;\n\n  package = builtins.foldl'\n    (value: part: builtins.getAttr part value)\n    nixpkgs.legacyPackages.x86_64-linux\n    parts;\n\nin\n{\n  pname = package.pname;\n  version = package.version;\n  description = package.meta.description or null;\n}\n";

/// The Nix expression that lists the first 20 NixOS options whose name
/// contains the text of the environment variable `NIXMCP_QUERY`.
pub const OPTION_SEARCH_EXPRESSION: &'static str = "\nlet\n  nixpkgs = builtins.getFlake \"nixpkgs\";\n  query = builtins.getEnv \"NIXMCP_QUERY\";\n\n  system = nixpkgs.lib.nixosSystem {\n    system = \"x86_64-linux\";\n    modules = [];\n  };\n\n  options = nixpkgs.lib.optionAttrSetToDocList system.options;\n\n  matches = builtins.filter\n    (option:\n      nixpkgs.lib.hasInfix query option.name\n    )\n    options;\n\nin\n  nixpkgs.lib.take 20 matches\n";

/// The text of the option expression before the first copy of the option path.
pub const OPTION_EXPRESSION_HEAD: &'static str = "\n        let\n          nixpkgs = builtins.getFlake \"nixpkgs\";\n          system = nixpkgs.lib.nixosSystem {\n            system = \"x86_64-linux\";\n            modules = [];\n          };\n          option = system.options.";

/// The text of the option expression between the two copies of the option path.
pub const OPTION_EXPRESSION_MIDDLE: &'static str = ";\n        in\n          {\n            path = \"";

/// The text of the option expression after the second copy of the option path.
pub const OPTION_EXPRESSION_TAIL: &'static str = "\";\n            description = if option ? description then option.description else null;\n            option_type = if option ? type && option.type ? name then option.type.name else null;\n            default = if option ? default then option.default else null;\n          }\n        ";

/// The Nix expression that evaluates the NixOS option at `path` and yields its
/// path, description, type name and default.
pub open spec fn option_expression(path: Seq<char>) -> Seq<char> {
    OPTION_EXPRESSION_HEAD@ + path + OPTION_EXPRESSION_MIDDLE@ + path + OPTION_EXPRESSION_TAIL@
}

} // verus!
