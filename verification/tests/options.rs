use nixmcp::command::{CommandOutput, Finished};
use nixmcp::{NixClient, NixosOption};

fn finished(success: bool, stdout: &[u8], stderr: &[u8]) -> CommandOutput {
    CommandOutput {
        success,
        status: if success { "exit status: 0" } else { "exit status: 1" }.to_string(),
        stdout: stdout.to_vec(),
        stderr: stderr.to_vec(),
    }
}

#[test]
fn option_search_reads_each_listed_option() {
    let stdout = br#"[
        {"name": "services.openssh.enable", "type": "boolean", "description": "Whether to enable the OpenSSH secure shell daemon.", "default": false, "readOnly": false},
        {"name": "services.openssh.ports", "type": "list of 16 bit unsigned integer; between 0 and 65535 (both inclusive)", "default": [22]},
        {"name": "services.openssh.banner", "description": {"_type": "mdDoc"}, "default": null}
    ]"#;
    let options = NixClient::new().search_options(Ok(finished(true, stdout, b""))).unwrap();
    assert_eq!(options.len(), 3);

    assert_eq!(options[0].path, "services.openssh.enable");
    assert_eq!(options[0].option_type.as_deref(), Some("boolean"));
    assert_eq!(
        options[0].description.as_deref(),
        Some("Whether to enable the OpenSSH secure shell daemon.")
    );
    assert_eq!(options[0].default.as_deref(), Some("false"));

    assert_eq!(options[1].path, "services.openssh.ports");
    assert_eq!(options[1].description, None);
    assert_eq!(options[1].default.as_deref(), Some("[22]"));

    assert_eq!(options[2].path, "services.openssh.banner");
    assert_eq!(options[2].option_type, None);
    assert_eq!(options[2].description, None);
    assert_eq!(options[2].default.as_deref(), Some("null"));
}

#[test]
fn option_search_rejects_element_without_name() {
    let stdout = br#"[{"name": "a.b"}, {"type": "boolean"}]"#;
    let result = NixClient::new().search_options(Ok(finished(true, stdout, b"")));
    assert_eq!(
        result.unwrap_err(),
        "failed to parse nix output: element 1 of the option list is not an object with a string name"
    );
}

#[test]
fn option_search_rejects_element_with_non_string_name() {
    let stdout = br#"[{"name": 7}]"#;
    let result = NixClient::new().search_options(Ok(finished(true, stdout, b"")));
    assert_eq!(
        result.unwrap_err(),
        "failed to parse nix output: element 0 of the option list is not an object with a string name"
    );
}

#[test]
fn option_search_rejects_element_that_is_not_an_object() {
    let mut stdout = String::from("[");
    for i in 0..12 {
        stdout.push_str(&format!("{{\"name\": \"o{i}\"}},"));
    }
    stdout.push_str("\"not an object\"]");
    let result = NixClient::new().search_options(Ok(finished(true, stdout.as_bytes(), b"")));
    assert_eq!(
        result.unwrap_err(),
        "failed to parse nix output: element 12 of the option list is not an object with a string name"
    );
}

#[test]
fn empty_option_search_is_success() {
    let options = NixClient::new().search_options(Ok(finished(true, b" [ ] ", b""))).unwrap();
    assert!(options.is_empty());
}

#[test]
fn option_search_reports_whole_stderr_on_failure() {
    let result = NixClient::new().search_options(Ok(finished(false, b"", b"error: bad\xff\n")));
    assert_eq!(result.unwrap_err(), "error: bad\u{FFFD}\n");
}

#[test]
fn option_search_reports_process_that_did_not_start() {
    let result = NixClient::new().search_options(Err("permission denied".to_string()));
    assert_eq!(result.unwrap_err(), "failed to execute nix: permission denied");
}

#[test]
fn option_search_reports_output_that_is_not_a_list() {
    let result = NixClient::new().search_options(Ok(finished(true, b"{\"a\": 1}", b"")));
    let error = result.unwrap_err();
    assert!(error.starts_with("failed to parse nix output: "), "{error}");
    assert!(error.contains("invalid type: map, expected a sequence"), "{error}");
}

#[test]
fn option_evaluation_answers_decoded_option() {
    let option = NixosOption {
        path: "services.postgresql.enable".to_string(),
        option_type: Some("bool".to_string()),
        description: Some("Whether to enable PostgreSQL Server.".to_string()),
        default: Some("false".to_string()),
    };
    let launch = Ok(Finished { output: finished(true, b"{}", b""), json: Ok(option) });
    let answered = NixClient::new().get_option(launch).unwrap();
    assert_eq!(answered.path, "services.postgresql.enable");
    assert_eq!(answered.option_type.as_deref(), Some("bool"));
    assert_eq!(answered.description.as_deref(), Some("Whether to enable PostgreSQL Server."));
    assert_eq!(answered.default.as_deref(), Some("false"));
}

#[test]
fn option_evaluation_reports_failed_status() {
    let launch: Result<Finished<NixosOption>, String> = Ok(Finished {
        output: finished(false, b"", b"error: attribute 'this' missing\n"),
        json: Err("EOF while parsing a value at line 1 column 0".to_string()),
    });
    assert_eq!(
        NixClient::new().get_option(launch).unwrap_err(),
        "nix option evaluation failed with status exit status: 1: error: attribute 'this' missing"
    );
}

#[test]
fn option_evaluation_reports_undecodable_output() {
    let launch: Result<Finished<NixosOption>, String> = Ok(Finished {
        output: finished(true, b"[]", b""),
        json: Err("invalid type: sequence, expected struct NixosOption".to_string()),
    });
    assert_eq!(
        NixClient::new().get_option(launch).unwrap_err(),
        "Failed to parse NixOS option output: invalid type: sequence, expected struct NixosOption"
    );
}
