use std::collections::BTreeMap;

use nixmcp::command::{CommandOutput, Finished};
use nixmcp::client::parse_search_results;
use nixmcp::{NixClient, PackageMetadata};

fn meta(pname: &str, version: &str, description: Option<&str>) -> PackageMetadata {
    PackageMetadata {
        pname: pname.to_string(),
        version: version.to_string(),
        description: description.map(String::from),
    }
}

fn succeeded(stdout: &[u8]) -> CommandOutput {
    CommandOutput {
        success: true,
        status: "exit status: 0".to_string(),
        stdout: stdout.to_vec(),
        stderr: Vec::new(),
    }
}

#[test]
fn parses_nix_search_results() {
    let decoded = Ok(vec![(
        "legacyPackages.x86_64-linux.ripgrep".to_string(),
        meta("ripgrep", "15.2.0", Some("A fast search tool")),
    )]);

    let packages = parse_search_results(decoded).expect("expected valid search results");

    assert_eq!(packages.len(), 1);
    assert_eq!(packages[0].attribute, "legacyPackages.x86_64-linux.ripgrep");
    assert_eq!(packages[0].pname, "ripgrep");
    assert_eq!(packages[0].version, "15.2.0");
    assert_eq!(
        packages[0].description.as_deref(),
        Some("A fast search tool")
    );
}

#[test]
fn parses_missing_description() {
    let decoded = Ok(vec![(
        "legacyPackages.x86_64-linux.example".to_string(),
        meta("example", "1.0.0", None),
    )]);

    let packages = parse_search_results(decoded).expect("expected valid search results");

    assert_eq!(packages.len(), 1);
    assert_eq!(packages[0].pname, "example");
    assert_eq!(packages[0].description, None);
}

#[test]
fn rejects_invalid_json() {
    let error = serde_json::from_str::<BTreeMap<String, serde_json::Value>>("not valid json")
        .unwrap_err()
        .to_string();
    let result = parse_search_results(Err(error.clone()));

    assert!(result.is_err());
    assert!(
        result
            .unwrap_err()
            .contains("Failed to parse nix search output")
    );
}

#[test]
fn parse_error_is_prefixed_decoder_message() {
    let result = parse_search_results(Err("expected ident at line 1 column 2".to_string()));
    assert_eq!(
        result.unwrap_err(),
        "Failed to parse nix search output: expected ident at line 1 column 2"
    );
}

#[test]
fn search_keeps_every_entry_in_order() {
    let client = NixClient::new();
    let entries = vec![
        ("a.one".to_string(), meta("one", "1", None)),
        ("a.two".to_string(), meta("two", "2", Some("second"))),
        ("a.three".to_string(), meta("three", "3", None)),
    ];
    let launch = Ok(Finished { output: succeeded(b"{}"), json: Ok(entries) });
    let packages = client.search_packages(launch).unwrap();
    let attributes: Vec<&str> = packages.iter().map(|p| p.attribute.as_str()).collect();
    assert_eq!(attributes, vec!["a.one", "a.two", "a.three"]);
    assert_eq!(packages[1].description.as_deref(), Some("second"));
    assert_eq!(packages[2].version, "3");
}

#[test]
fn empty_search_is_success() {
    let client = NixClient::new();
    let launch = Ok(Finished { output: succeeded(b"{}"), json: Ok(Vec::new()) });
    let packages = client.search_packages(launch).unwrap();
    assert!(packages.is_empty());
}

#[test]
fn search_reports_process_that_did_not_start() {
    let client = NixClient::new();
    let launch: Result<Finished<Vec<(String, PackageMetadata)>>, String> =
        Err("No such file or directory (os error 2)".to_string());
    assert_eq!(
        client.search_packages(launch).unwrap_err(),
        "Failed to execute nix: No such file or directory (os error 2)"
    );
}

#[test]
fn search_reports_failed_status_with_trimmed_stderr() {
    let client = NixClient::new();
    let output = CommandOutput {
        success: false,
        status: "exit status: 1".to_string(),
        stdout: Vec::new(),
        stderr: b"  \n error: flake 'nixpkgs' does not exist\n\t ".to_vec(),
    };
    let launch = Ok(Finished { output, json: Ok(vec![("x".to_string(), meta("x", "1", None))]) });
    assert_eq!(
        client.search_packages(launch).unwrap_err(),
        "nix search failed with status exit status: 1: error: flake 'nixpkgs' does not exist"
    );
}

#[test]
fn search_reports_output_that_is_not_utf8() {
    let client = NixClient::new();
    let launch = Ok(Finished { output: succeeded(&[0x7b, 0xff, 0x7d]), json: Ok(Vec::new()) });
    assert_eq!(
        client.search_packages(launch).unwrap_err(),
        "Nix returned invalid UTF-8: invalid utf-8 sequence of 1 bytes from index 1"
    );
}
