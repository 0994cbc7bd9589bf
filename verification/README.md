# nixmcp

An MCP server that answers questions about the local Nix installation
(package search, package metadata, NixOS options, flake outputs) by running
`nix` and reporting what it prints.

- `src/` is the verified library. For each tool it states which `nix`
  process to run (`NixClient::*_command`) and what the tool answers for
  whatever that process reported (`NixClient::search_packages`, `get_package`,
  `search_options`, `get_option`, `inspect_flake`). JSON values that the
  library only carries (an option's default, a flake's outputs) are held as
  compact JSON text. `src/laws.rs` and
  `text::trimmed_is_inner_part` hold the properties proved across them.
- `app/` is the server itself: it runs the processes with tokio, decodes JSON
  into the records that carry serde's derives, and serves the tools with rmcp.
- `tests/` exercises the library on concrete outputs.
