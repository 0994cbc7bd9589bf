use nixmcp::client::{failure_report, options_from_list};
use nixmcp::json::JsonMember;

fn member(key: &str, json: &str, text: Option<&str>) -> JsonMember {
    JsonMember {
        key: key.to_string(),
        json: json.to_string(),
        text: text.map(String::from),
    }
}

#[test]
fn failure_report_trims_unicode_white_space() {
    let report = failure_report("nix search", "exit status: 1", "\u{3000}\t error: boom \u{a0}\n");
    assert_eq!(report, "nix search failed with status exit status: 1: error: boom");
}

#[test]
fn failure_report_of_blank_stderr_ends_after_status() {
    let report = failure_report("nix flake show", "signal: 9 (SIGKILL)", " \n\t ");
    assert_eq!(report, "nix flake show failed with status signal: 9 (SIGKILL): ");
}

#[test]
fn failure_report_keeps_inner_white_space() {
    let report = failure_report("nix option evaluation", "exit status: 1", "a \n b");
    assert_eq!(report, "nix option evaluation failed with status exit status: 1: a \n b");
}

#[test]
fn option_list_reads_named_members() {
    let entries = vec![
        Some(vec![
            member("declarations", "[]", None),
            member("default", "{\"port\":5432}", None),
            member("description", "\"Port.\"", Some("Port.")),
            member("name", "\"services.postgresql.settings\"", Some("services.postgresql.settings")),
            member("type", "\"submodule\"", Some("submodule")),
        ]),
        Some(vec![member("name", "\"services.postgresql.enable\"", Some("services.postgresql.enable"))]),
    ];
    let options = options_from_list(Ok(entries)).unwrap();
    assert_eq!(options.len(), 2);
    assert_eq!(options[0].path, "services.postgresql.settings");
    assert_eq!(options[0].option_type.as_deref(), Some("submodule"));
    assert_eq!(options[0].description.as_deref(), Some("Port."));
    assert_eq!(options[0].default.as_deref(), Some("{\"port\":5432}"));
    assert_eq!(options[1].path, "services.postgresql.enable");
    assert_eq!(options[1].default, None);
    assert_eq!(options[1].option_type, None);
}

#[test]
fn option_list_reports_first_unnamed_element() {
    let entries = vec![
        Some(vec![member("name", "\"a\"", Some("a"))]),
        Some(vec![member("name", "null", None)]),
        None,
    ];
    assert_eq!(
        options_from_list(Ok(entries)).unwrap_err(),
        "failed to parse nix output: element 1 of the option list is not an object with a string name"
    );
}

#[test]
fn option_list_reports_element_that_is_not_an_object() {
    let entries = vec![None];
    assert_eq!(
        options_from_list(Ok(entries)).unwrap_err(),
        "failed to parse nix output: element 0 of the option list is not an object with a string name"
    );
}

#[test]
fn option_list_reports_decoding_error() {
    let result = options_from_list(Err("EOF while parsing a list at line 1 column 1".to_string()));
    assert_eq!(
        result.unwrap_err(),
        "failed to parse nix output: EOF while parsing a list at line 1 column 1"
    );
}
