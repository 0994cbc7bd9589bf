use vstd::prelude::*;
use vstd::string::StringExecFns;
use vstd::utf8::{decode_utf8, valid_utf8};

use crate::command::{result_view, CommandOutput, Finished, NixCommand, NixProcess};
use crate::expressions::{
    option_expression, OPTION_EXPRESSION_HEAD, OPTION_EXPRESSION_MIDDLE, OPTION_EXPRESSION_TAIL,
    OPTION_SEARCH_EXPRESSION, PACKAGE_EXPRESSION,
};
use crate::json::{
    compact_json, json_compact, json_object_list, parse_object_list, JsonMember, JsonMemberView,
};
use crate::models::{
    package_of, NixosOption, NixosOptionView, Package, PackageMetadata, PackageMetadataView,
    PackageView,
};
use crate::text::{
    decimal, decimal_text, from_utf8_lossy, string_from_utf8, trim, trimmed, utf8_error_text,
    utf8_lossy,
};

verus! {

/// `nix` run with `args` and with `env` added to its environment.
pub open spec fn nix_process(args: Seq<Seq<char>>, env: Seq<(Seq<char>, Seq<char>)>) -> NixProcess {
    NixProcess { program: "nix"@, args, env }
}

/// The package search for `query`: `nix search nixpkgs <query> --json`.
pub open spec fn package_search(query: Seq<char>) -> NixProcess {
    nix_process(seq!["search"@, "nixpkgs"@, query, "--json"@], Seq::empty())
}

/// The evaluation of the package at `attribute`: `nix eval --json --impure
/// --expr` of [`PACKAGE_EXPRESSION`], with the attribute path in the
/// environment variable `NIXMCP_ATTRIBUTE`.
pub open spec fn package_evaluation(attribute: Seq<char>) -> NixProcess {
    nix_process(
        seq!["eval"@, "--json"@, "--impure"@, "--expr"@, PACKAGE_EXPRESSION@],
        seq![("NIXMCP_ATTRIBUTE"@, attribute)],
    )
}

/// The search of the NixOS options for `query`: `nix eval --json --impure
/// --expr` of [`OPTION_SEARCH_EXPRESSION`], with the query in the environment
/// variable `NIXMCP_QUERY`.
pub open spec fn option_search(query: Seq<char>) -> NixProcess {
    nix_process(
        seq!["eval"@, "--json"@, "--impure"@, "--expr"@, OPTION_SEARCH_EXPRESSION@],
        seq![("NIXMCP_QUERY"@, query)],
    )
}

/// The evaluation of the NixOS option at `path`: `nix eval --json --impure
/// --expr` of the option expression, into which `path` is written.
pub open spec fn option_evaluation(path: Seq<char>) -> NixProcess {
    nix_process(
        seq!["eval"@, "--json"@, "--impure"@, "--expr"@, option_expression(path)],
        Seq::empty(),
    )
}

/// The listing of the outputs of the flake `reference`:
/// `nix flake show <reference> --json`.
pub open spec fn flake_listing(reference: Seq<char>) -> NixProcess {
    nix_process(seq!["flake"@, "show"@, reference, "--json"@], Seq::empty())
}

/// The error for a `nix` process that could not be started.
pub open spec fn launch_failure(error: Seq<char>) -> Seq<char> {
    "Failed to execute nix: "@ + error
}

/// The report of a process, described as `command`, that exited with
/// `status` and wrote `stderr`: the status and the trimmed standard error.
pub open spec fn failure_text(command: Seq<char>, status: Seq<char>, stderr: Seq<char>) -> Seq<
    char,
> {
    command + " failed with status "@ + status + ": "@ + trimmed(stderr)
}

/// The error for a `nix` process, described as `command`, that exited without
/// success: its exit status and its trimmed standard error.
pub open spec fn status_failure(command: Seq<char>, output: CommandOutput) -> Seq<char> {
    failure_text(command, output.status@, utf8_lossy(output.stderr@))
}

/// The error for standard output that is not UTF-8.
pub open spec fn invalid_utf8_failure(stdout: Seq<u8>) -> Seq<char> {
    "Nix returned invalid UTF-8: "@ + utf8_error_text(stdout)
}

/// The packages listed by the decoded `nix search --json` output, one per
/// entry, in the order of the entries.
pub open spec fn search_results(
    decoded: Result<Seq<(Seq<char>, PackageMetadataView)>, Seq<char>>,
) -> Result<Seq<PackageView>, Seq<char>> {
    match decoded {
        Ok(entries) => Ok(
            entries.map_values(|entry: (Seq<char>, PackageMetadataView)| package_of(entry.0, entry.1)),
        ),
        Err(error) => Err("Failed to parse nix search output: "@ + error),
    }
}

/// What the `search_packages` tool answers when the search ran as `launch`.
pub open spec fn search_packages_outcome(
    launch: Result<Finished<Vec<(String, PackageMetadata)>>, String>,
) -> Result<Seq<PackageView>, Seq<char>> {
    match launch {
        Err(error) => Err(launch_failure(error@)),
        Ok(finished) => if !finished.output.success {
            Err(status_failure("nix search"@, finished.output))
        } else if !valid_utf8(finished.output.stdout@) {
            Err(invalid_utf8_failure(finished.output.stdout@))
        } else {
            search_results(result_view(finished.json))
        },
    }
}

/// What the `get_package` tool answers for `attribute` when the evaluation
/// ran as `launch`.
pub open spec fn get_package_outcome(
    attribute: Seq<char>,
    launch: Result<Finished<PackageMetadata>, String>,
) -> Result<PackageView, Seq<char>> {
    match launch {
        Err(error) => Err(launch_failure(error@)),
        Ok(finished) => if !finished.output.success {
            Err(status_failure("nix package evaluation"@, finished.output))
        } else {
            match finished.json {
                Ok(meta) => Ok(package_of(attribute, meta@)),
                Err(error) => Err("Failed to parse Nix package output: "@ + error@),
            }
        },
    }
}

/// The first member of `members` with key `key`.
pub open spec fn find_member(members: Seq<JsonMemberView>, key: Seq<char>) -> Option<
    JsonMemberView,
>
    decreases members.len(),
{
    if members.len() == 0 {
        None
    } else if members[0].key == key {
        Some(members[0])
    } else {
        find_member(members.drop_first(), key)
    }
}

/// The string held by the member `key` of `members`, if that member is a string.
pub open spec fn string_member(members: Seq<JsonMemberView>, key: Seq<char>) -> Option<Seq<char>> {
    match find_member(members, key) {
        Some(member) => member.text,
        None => None,
    }
}

/// Whether an element of the option list describes an option: it is an
/// object whose `name` is a string.
pub open spec fn is_named_option(entry: Option<Seq<JsonMemberView>>) -> bool {
    entry matches Some(members) && string_member(members, "name"@) is Some
}

/// The option described by the members of a named element of the option
/// list: its `name` as path, its `type` and `description` when they are
/// strings, and its `default` when present.
pub open spec fn option_of_members(members: Seq<JsonMemberView>) -> NixosOptionView {
    NixosOptionView {
        path: string_member(members, "name"@).unwrap(),
        option_type: string_member(members, "type"@),
        description: string_member(members, "description"@),
        default: match find_member(members, "default"@) {
            Some(member) => Some(member.json),
            None => None,
        },
    }
}

/// The position of the first element of `entries` that does not describe an
/// option.
pub open spec fn first_unnamed(entries: Seq<Option<Seq<JsonMemberView>>>) -> int {
    choose|k: int|
        0 <= k < entries.len() && !is_named_option(#[trigger] entries[k]) && forall|j: int|
            0 <= j < k ==> is_named_option(entries[j])
}

/// The error for the element at `index` of the option list, which is not an
/// object whose `name` is a string.
pub open spec fn unnamed_option_failure(index: nat) -> Seq<char> {
    "failed to parse nix output: element "@ + decimal(index)
        + " of the option list is not an object with a string name"@
}

/// The options described by the decoded option list, one per element and in
/// order; the error for the first element that does not describe an option;
/// or the decoding error.
pub open spec fn option_list_outcome(
    parsed: Result<Seq<Option<Seq<JsonMemberView>>>, Seq<char>>,
) -> Result<Seq<NixosOptionView>, Seq<char>> {
    match parsed {
        Ok(entries) => if forall|i: int|
            0 <= i < entries.len() ==> is_named_option(#[trigger] entries[i]) {
            Ok(
                entries.map_values(
                    |entry: Option<Seq<JsonMemberView>>| option_of_members(entry.unwrap()),
                ),
            )
        } else {
            Err(unnamed_option_failure(first_unnamed(entries) as nat))
        },
        Err(error) => Err("failed to parse nix output: "@ + error),
    }
}

/// What the `search_options` tool answers when the search ran as `launch`.
pub open spec fn search_options_outcome(launch: Result<CommandOutput, String>) -> Result<
    Seq<NixosOptionView>,
    Seq<char>,
> {
    match launch {
        Err(error) => Err("failed to execute nix: "@ + error@),
        Ok(output) => if !output.success {
            Err(utf8_lossy(output.stderr@))
        } else {
            option_list_outcome(json_object_list(output.stdout@))
        },
    }
}

/// What the `get_option` tool answers when the evaluation ran as `launch`.
pub open spec fn get_option_outcome(launch: Result<Finished<NixosOption>, String>) -> Result<
    NixosOptionView,
    Seq<char>,
> {
    match launch {
        Err(error) => Err(launch_failure(error@)),
        Ok(finished) => if !finished.output.success {
            Err(status_failure("nix option evaluation"@, finished.output))
        } else {
            match finished.json {
                Ok(option) => Ok(option@),
                Err(error) => Err("Failed to parse NixOS option output: "@ + error@),
            }
        },
    }
}

/// What the `inspect_flake` tool answers when `nix flake show` ran as
/// `launch`: the printed JSON value as compact JSON text, or the error.
pub open spec fn inspect_flake_outcome(launch: Result<CommandOutput, String>) -> Result<
    Seq<char>,
    Seq<char>,
> {
    match launch {
        Err(error) => Err(launch_failure(error@)),
        Ok(output) => if !output.success {
            Err(status_failure("nix flake show"@, output))
        } else if !valid_utf8(output.stdout@) {
            Err(invalid_utf8_failure(output.stdout@))
        } else {
            match json_compact(decode_utf8(output.stdout@)) {
                Ok(flake) => Ok(flake),
                Err(error) => Err("Failed to parse nix flake output: "@ + error),
            }
        },
    }
}

/// `prefix` followed by `rest`.
fn prefixed(prefix: &str, rest: &str) -> (r: String)
    ensures
        r@ == prefix@ + rest@,
{
    let mut r = String::from_str(prefix);
    r.append(rest);
    r
}

/// The report of a process, described as `command`, that exited with
/// `status` and wrote `stderr`.
pub fn failure_report(command: &str, status: &str, stderr: &str) -> (r: String)
    ensures
        r@ == failure_text(command@, status@, stderr@),
{
    let mut r = String::from_str(command);
    r.append(" failed with status ");
    r.append(status);
    r.append(": ");
    r.append(trim(stderr));
    r
}

/// The error for a process, described as `command`, that exited without success.
fn status_failure_message(command: &str, output: &CommandOutput) -> (r: String)
    ensures
        r@ == status_failure(command@, *output),
{
    let stderr = from_utf8_lossy(output.stderr.as_slice());
    failure_report(command, output.status.as_str(), stderr.as_str())
}

/// A copy of an optional text.
fn copy_text(text: &Option<String>) -> (r: Option<String>)
    ensures
        r.deep_view() == text.deep_view(),
{
    match text {
        Some(s) => Some(s.clone()),
        None => None,
    }
}

/// A `nix` command with the given arguments and environment.
fn nix_command(args: Vec<String>, env: Vec<(String, String)>) -> (r: NixCommand)
    ensures
        r@.program == "nix"@,
        r.args == args,
        r.env == env,
{
    NixCommand { program: String::from_str("nix"), args, env }
}

/// Turns the decoded output of `nix search --json` into packages: one per
/// entry, named by the entry's attribute path, in the order of the entries.
pub fn parse_search_results(decoded: Result<Vec<(String, PackageMetadata)>, String>) -> (r: Result<
    Vec<Package>,
    String,
>)
    ensures
        result_view(r) == search_results(result_view(decoded)),
{
    match decoded {
        Err(error) => Err(prefixed("Failed to parse nix search output: ", error.as_str())),
        Ok(entries) => {
            let mut packages: Vec<Package> = Vec::new();
            let mut i: usize = 0;
            while i < entries.len()
                invariant
                    i <= entries.len(),
                    packages.len() == i,
                    forall|j: int|
                        0 <= j < i ==> #[trigger] packages@[j]@ == package_of(
                            entries@[j].0@,
                            entries@[j].1@,
                        ),
                decreases entries.len() - i,
            {
                let entry = &entries[i];
                packages.push(
                    Package {
                        attribute: entry.0.clone(),
                        pname: entry.1.pname.clone(),
                        version: entry.1.version.clone(),
                        description: copy_text(&entry.1.description),
                    },
                );
                i = i + 1;
            }
            assert(packages.deep_view() =~= entries.deep_view().map_values(
                |entry: (Seq<char>, PackageMetadataView)| package_of(entry.0, entry.1),
            ));
            Ok(packages)
        },
    }
}

/// Client for the local Nix installation.
///
/// Each tool comes in two steps: a `..._command` method says which process
/// to run, and the method named after the tool turns what that process
/// reported into the tool's answer.
#[derive(Debug, Clone, Copy, Default)]
pub struct NixClient;

impl NixClient {
    /// Creates a client.
    pub fn new() -> (client: Self)
        ensures
            client == NixClient,
    {
        NixClient
    }

    /// The search of the package collection for `query`:
    /// `nix search nixpkgs <query> --json`.
    pub fn search_packages_command(&self, query: &str) -> (command: NixCommand)
        ensures
            command@ == package_search(query@),
    {
        let mut args: Vec<String> = Vec::new();
        args.push(String::from_str("search"));
        args.push(String::from_str("nixpkgs"));
        args.push(String::from_str(query));
        args.push(String::from_str("--json"));
        let env: Vec<(String, String)> = Vec::new();
        let command = nix_command(args, env);
        assert(command@.args =~= seq!["search"@, "nixpkgs"@, query@, "--json"@]);
        assert(command@.env =~= Seq::<(Seq<char>, Seq<char>)>::empty());
        command
    }

    /// The answer of the package search: the packages that the decoded output
    /// lists, or the error for a process that did not start, did not succeed,
    /// printed text that is not UTF-8, or printed what does not decode.
    pub fn search_packages(
        &self,
        launch: Result<Finished<Vec<(String, PackageMetadata)>>, String>,
    ) -> (r: Result<Vec<Package>, String>)
        ensures
            result_view(r) == search_packages_outcome(launch),
    {
        match launch {
            Err(error) => Err(prefixed("Failed to execute nix: ", error.as_str())),
            Ok(finished) => {
                if !finished.output.success {
                    return Err(status_failure_message("nix search", &finished.output));
                }
                let Finished { output, json } = finished;
                match string_from_utf8(output.stdout) {
                    Err(error) => Err(prefixed("Nix returned invalid UTF-8: ", error.as_str())),
                    Ok(_) => parse_search_results(json),
                }
            },
        }
    }

    /// The evaluation of the package at `attribute`: `nix eval --json --impure
    /// --expr` of [`PACKAGE_EXPRESSION`], which reads the attribute path from
    /// the environment variable `NIXMCP_ATTRIBUTE`.
    pub fn get_package_command(&self, attribute: &str) -> (command: NixCommand)
        ensures
            command@ == package_evaluation(attribute@),
    {
        let mut args: Vec<String> = Vec::new();
        args.push(String::from_str("eval"));
        args.push(String::from_str("--json"));
        args.push(String::from_str("--impure"));
        args.push(String::from_str("--expr"));
        args.push(String::from_str(PACKAGE_EXPRESSION));
        let mut env: Vec<(String, String)> = Vec::new();
        env.push((String::from_str("NIXMCP_ATTRIBUTE"), String::from_str(attribute)));
        let command = nix_command(args, env);
        assert(command@.args =~= seq![
            "eval"@,
            "--json"@,
            "--impure"@,
            "--expr"@,
            PACKAGE_EXPRESSION@,
        ]);
        assert(command@.env =~= seq![("NIXMCP_ATTRIBUTE"@, attribute@)]);
        command
    }

    /// The answer of the package evaluation for `attribute`: the package named
    /// `attribute` with the metadata that the output decodes to, or the error
    /// for a process that did not start, did not succeed, or printed what does
    /// not decode.
    pub fn get_package(&self, attribute: &str, launch: Result<Finished<PackageMetadata>, String>) -> (r:
        Result<Package, String>)
        ensures
            result_view(r) == get_package_outcome(attribute@, launch),
    {
        match launch {
            Err(error) => Err(prefixed("Failed to execute nix: ", error.as_str())),
            Ok(finished) => {
                if !finished.output.success {
                    return Err(status_failure_message("nix package evaluation", &finished.output));
                }
                match finished.json {
                    Err(error) => Err(prefixed("Failed to parse Nix package output: ", error.as_str())),
                    Ok(meta) => Ok(
                        Package {
                            attribute: String::from_str(attribute),
                            pname: meta.pname,
                            version: meta.version,
                            description: meta.description,
                        },
                    ),
                }
            },
        }
    }

    /// The search of the NixOS options for `query`: `nix eval --json --impure
    /// --expr` of [`OPTION_SEARCH_EXPRESSION`], which reads the query from the
    /// environment variable `NIXMCP_QUERY`.
    pub fn search_options_command(&self, query: &str) -> (command: NixCommand)
        ensures
            command@ == option_search(query@),
    {
        let mut args: Vec<String> = Vec::new();
        args.push(String::from_str("eval"));
        args.push(String::from_str("--json"));
        args.push(String::from_str("--impure"));
        args.push(String::from_str("--expr"));
        args.push(String::from_str(OPTION_SEARCH_EXPRESSION));
        let mut env: Vec<(String, String)> = Vec::new();
        env.push((String::from_str("NIXMCP_QUERY"), String::from_str(query)));
        let command = nix_command(args, env);
        assert(command@.args =~= seq![
            "eval"@,
            "--json"@,
            "--impure"@,
            "--expr"@,
            OPTION_SEARCH_EXPRESSION@,
        ]);
        assert(command@.env =~= seq![("NIXMCP_QUERY"@, query@)]);
        command
    }

    /// The answer of the option search: one option per element of the JSON
    /// array printed, or the error for a process that did not start, did not
    /// succeed (its whole standard error), or printed what does not decode.
    pub fn search_options(&self, launch: Result<CommandOutput, String>) -> (r: Result<
        Vec<NixosOption>,
        String,
    >)
        ensures
            result_view(r) == search_options_outcome(launch),
    {
        match launch {
            Err(error) => Err(prefixed("failed to execute nix: ", error.as_str())),
            Ok(output) => {
                if !output.success {
                    return Err(from_utf8_lossy(output.stderr.as_slice()));
                }
                options_from_list(parse_object_list(output.stdout.as_slice()))
            },
        }
    }

    /// The evaluation of the NixOS option at `path`: `nix eval --json --impure
    /// --expr` of the option expression, into which `path` is written twice.
    pub fn get_option_command(&self, path: &str) -> (command: NixCommand)
        ensures
            command@ == option_evaluation(path@),
    {
        let mut expression = String::from_str(OPTION_EXPRESSION_HEAD);
        expression.append(path);
        expression.append(OPTION_EXPRESSION_MIDDLE);
        expression.append(path);
        expression.append(OPTION_EXPRESSION_TAIL);
        let mut args: Vec<String> = Vec::new();
        args.push(String::from_str("eval"));
        args.push(String::from_str("--json"));
        args.push(String::from_str("--impure"));
        args.push(String::from_str("--expr"));
        args.push(expression);
        let env: Vec<(String, String)> = Vec::new();
        let command = nix_command(args, env);
        assert(command@.args =~= seq![
            "eval"@,
            "--json"@,
            "--impure"@,
            "--expr"@,
            option_expression(path@),
        ]);
        assert(command@.env =~= Seq::<(Seq<char>, Seq<char>)>::empty());
        command
    }

    /// The answer of the option evaluation: the option that the output decodes
    /// to, or the error for a process that did not start, did not succeed, or
    /// printed what does not decode.
    pub fn get_option(&self, launch: Result<Finished<NixosOption>, String>) -> (r: Result<
        NixosOption,
        String,
    >)
        ensures
            result_view(r) == get_option_outcome(launch),
    {
        match launch {
            Err(error) => Err(prefixed("Failed to execute nix: ", error.as_str())),
            Ok(finished) => {
                if !finished.output.success {
                    return Err(status_failure_message("nix option evaluation", &finished.output));
                }
                match finished.json {
                    Err(error) => Err(prefixed("Failed to parse NixOS option output: ", error.as_str())),
                    Ok(option) => Ok(option),
                }
            },
        }
    }

    /// The listing of the outputs of the flake `reference`:
    /// `nix flake show <reference> --json`.
    pub fn inspect_flake_command(&self, reference: &str) -> (command: NixCommand)
        ensures
            command@ == flake_listing(reference@),
    {
        let mut args: Vec<String> = Vec::new();
        args.push(String::from_str("flake"));
        args.push(String::from_str("show"));
        args.push(String::from_str(reference));
        args.push(String::from_str("--json"));
        let env: Vec<(String, String)> = Vec::new();
        let command = nix_command(args, env);
        assert(command@.args =~= seq!["flake"@, "show"@, reference@, "--json"@]);
        assert(command@.env =~= Seq::<(Seq<char>, Seq<char>)>::empty());
        command
    }

    /// The answer of the flake listing: the JSON value printed, as compact JSON
    /// text, or the error for a process that did not start, did not succeed,
    /// printed text that is not UTF-8, or printed what is not JSON.
    pub fn inspect_flake(&self, launch: Result<CommandOutput, String>) -> (r: Result<
        String,
        String,
    >)
        ensures
            result_view(r) == inspect_flake_outcome(launch),
    {
        match launch {
            Err(error) => Err(prefixed("Failed to execute nix: ", error.as_str())),
            Ok(output) => {
                if !output.success {
                    return Err(status_failure_message("nix flake show", &output));
                }
                match string_from_utf8(output.stdout) {
                    Err(error) => Err(prefixed("Nix returned invalid UTF-8: ", error.as_str())),
                    Ok(stdout) => match compact_json(stdout.as_str()) {
                        Err(error) => Err(prefixed("Failed to parse nix flake output: ", error.as_str())),
                        Ok(flake) => Ok(flake),
                    },
                }
            },
        }
    }
}

/// Turns the decoded option list into options: one per element, in order;
/// an element that is not an object with a string `name` is reported as an
/// error, by its position.
pub fn options_from_list(parsed: Result<Vec<Option<Vec<JsonMember>>>, String>) -> (r: Result<
    Vec<NixosOption>,
    String,
>)
    ensures
        result_view(r) == option_list_outcome(result_view(parsed)),
{
    match parsed {
        Err(error) => Err(prefixed("failed to parse nix output: ", error.as_str())),
        Ok(entries) => {
            let ghost view = entries.deep_view();
            let mut options: Vec<NixosOption> = Vec::new();
            let mut i: usize = 0;
            while i < entries.len()
                invariant
                    i <= entries.len(),
                    view == entries.deep_view(),
                    result_view(parsed) == Ok::<_, Seq<char>>(view),
                    options.len() == i,
                    forall|j: int| 0 <= j < i ==> is_named_option(#[trigger] view[j]),
                    forall|j: int|
                        0 <= j < i ==> #[trigger] options@[j]@ == option_of_members(
                            view[j].unwrap(),
                        ),
                decreases entries.len() - i,
            {
                let named = match &entries[i] {
                    Some(members) => named_option(members),
                    None => None,
                };
                match named {
                    Some(option) => {
                        options.push(option);
                    },
                    None => {
                        proof {
                            assert(!is_named_option(view[i as int]));
                            let k = first_unnamed(view);
                            assert(0 <= k < view.len() && !is_named_option(view[k]) && forall|
                                j: int,
                            | 0 <= j < k ==> is_named_option(view[j]));
                            if k < i {
                                assert(is_named_option(view[k]));
                            }
                            if k > i {
                                assert(is_named_option(view[i as int]));
                            }
                            assert(first_unnamed(view) == i);
                        }
                        return Err(unnamed_option_error(i));
                    },
                }
                i = i + 1;
            }
            assert(options.deep_view() =~= view.map_values(
                |entry: Option<Seq<JsonMemberView>>| option_of_members(entry.unwrap()),
            ));
            Ok(options)
        },
    }
}

/// The error for the element at `index` of the option list.
fn unnamed_option_error(index: usize) -> (r: String)
    ensures
        r@ == unnamed_option_failure(index as nat),
{
    let mut r = String::from_str("failed to parse nix output: element ");
    let position = decimal_text(index);
    r.append(position.as_str());
    r.append(" of the option list is not an object with a string name");
    r
}

/// The option described by `members`, if their `name` is a string.
fn named_option(members: &Vec<JsonMember>) -> (r: Option<NixosOption>)
    ensures
        match r {
            Some(option) => string_member(members.deep_view(), "name"@) is Some && option@
                == option_of_members(members.deep_view()),
            None => string_member(members.deep_view(), "name"@) is None,
        },
{
    let path = match string_member_of(members, "name") {
        Some(name) => name,
        None => {
            return None;
        },
    };
    let default = match member_of(members, "default") {
        Some(member) => Some(member.json.clone()),
        None => None,
    };
    Some(
        NixosOption {
            path,
            option_type: string_member_of(members, "type"),
            description: string_member_of(members, "description"),
            default,
        },
    )
}

/// The first member of `members` with key `key`.
fn member_of<'a>(members: &'a Vec<JsonMember>, key: &str) -> (r: Option<&'a JsonMember>)
    ensures
        match r {
            Some(member) => find_member(members.deep_view(), key@) == Some(member@),
            None => find_member(members.deep_view(), key@) is None,
        },
{
    let wanted = String::from_str(key);
    let mut i: usize = 0;
    assert(members.deep_view().skip(0) =~= members.deep_view());
    while i < members.len()
        invariant
            i <= members.len(),
            wanted@ == key@,
            find_member(members.deep_view(), key@) == find_member(
                members.deep_view().skip(i as int),
                key@,
            ),
        decreases members.len() - i,
    {
        assert(members.deep_view().skip(i as int).drop_first() =~= members.deep_view().skip(
            i + 1,
        ));
        if members[i].key == wanted {
            assert(members.deep_view().skip(i as int)[0] == members@[i as int]@);
            return Some(&members[i]);
        }
        i = i + 1;
    }
    None
}

/// The string held by the member `key` of `members`, if that member is a string.
fn string_member_of(members: &Vec<JsonMember>, key: &str) -> (r: Option<String>)
    ensures
        r.deep_view() == string_member(members.deep_view(), key@),
{
    match member_of(members, key) {
        Some(member) => copy_text(&member.text),
        None => None,
    }
}

} // verus!
