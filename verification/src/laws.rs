use vstd::prelude::*;
use vstd::utf8::valid_utf8;

use crate::client::{
    flake_listing, get_option_outcome, get_package_outcome, inspect_flake_outcome,
    find_member, is_named_option, option_evaluation, option_of_members, option_search, package_evaluation, package_search,
    search_options_outcome, search_packages_outcome, string_member,
};
use crate::expressions::{OPTION_SEARCH_EXPRESSION, PACKAGE_EXPRESSION};
use crate::command::{result_view, CommandOutput, Finished};
use crate::json::{json_compact, json_object_list, JsonMemberView};
use vstd::utf8::decode_utf8;
use crate::text::{decimal, trimmed, utf8_lossy};
use crate::expressions::{OPTION_EXPRESSION_HEAD, OPTION_EXPRESSION_MIDDLE, OPTION_EXPRESSION_TAIL};
use crate::models::{package_of, NixosOption, NixosOptionView, PackageMetadata, PackageView};

verus! {

/// A package search that ran, succeeded and found nothing is answered with an
/// empty list, not with an error.
pub proof fn empty_package_search_is_empty_success(
    output: CommandOutput,
    entries: Vec<(String, PackageMetadata)>,
)
    requires
        output.success,
        valid_utf8(output.stdout@),
        entries@.len() == 0,
    ensures
        search_packages_outcome(Ok((Finished { output, json: Ok(entries) })))
            == Ok::<_, Seq<char>>(Seq::<PackageView>::empty()),
{
    assert(entries.deep_view().map_values(
        |entry: (Seq<char>, crate::models::PackageMetadataView)| package_of(entry.0, entry.1),
    ) =~= Seq::<PackageView>::empty());
}

/// An option search that ran, succeeded and printed an empty list is answered
/// with an empty list, not with an error.
pub proof fn empty_option_search_is_empty_success(output: CommandOutput)
    requires
        output.success,
        json_object_list(output.stdout@) == Ok::<_, Seq<char>>(
            Seq::<Option<Seq<crate::json::JsonMemberView>>>::empty(),
        ),
    ensures
        search_options_outcome(Ok(output)) == Ok::<_, Seq<char>>(Seq::<NixosOptionView>::empty()),
{
    let entries = Seq::<Option<Seq<JsonMemberView>>>::empty();
    assert(entries.map_values(
        |entry: Option<Seq<JsonMemberView>>| option_of_members(entry.unwrap()),
    ) =~= Seq::<NixosOptionView>::empty());
}

/// Whenever the `nix` process could not be started or exited without success,
/// every tool answers an error: no package, option or flake is made up.
pub proof fn failed_process_is_answered_with_error(
    search: Result<Finished<Vec<(String, PackageMetadata)>>, String>,
    attribute: Seq<char>,
    package: Result<Finished<PackageMetadata>, String>,
    options: Result<CommandOutput, String>,
    option: Result<Finished<NixosOption>, String>,
    flake: Result<CommandOutput, String>,
)
    ensures
        search is Err || !search->Ok_0.output.success ==> search_packages_outcome(search) is Err,
        package is Err || !package->Ok_0.output.success ==> get_package_outcome(
            attribute,
            package,
        ) is Err,
        options is Err || !options->Ok_0.success ==> search_options_outcome(options) is Err,
        option is Err || !option->Ok_0.output.success ==> get_option_outcome(option) is Err,
        flake is Err || !flake->Ok_0.success ==> inspect_flake_outcome(flake) is Err,
{
}

/// The packages a search answers are exactly the entries Nix reported, one
/// for one and in their order: each under its entry's attribute path, with
/// the pname, version and description Nix reported for it, unchanged.
pub proof fn searched_packages_are_the_reported_entries(
    output: CommandOutput,
    entries: Vec<(String, PackageMetadata)>,
)
    requires
        output.success,
        valid_utf8(output.stdout@),
    ensures
        search_packages_outcome(Ok((Finished { output, json: Ok(entries) }))) is Ok,
        ({
            let packages = search_packages_outcome(Ok((Finished { output, json: Ok(entries) })))->Ok_0;
            &&& packages.len() == entries@.len()
            &&& forall|i: int|
                0 <= i < packages.len() ==> {
                    &&& (#[trigger] packages[i]).attribute == entries@[i].0@
                    &&& packages[i].pname == entries@[i].1.pname@
                    &&& packages[i].version == entries@[i].1.version@
                    &&& packages[i].description == entries@[i].1.description.deep_view()
                }
        }),
{
}

/// A package evaluation that succeeded answers the package under the very
/// attribute path that was asked for, with the pname, version and
/// description Nix reported, unchanged.
pub proof fn evaluated_package_has_requested_attribute(
    attribute: Seq<char>,
    output: CommandOutput,
    meta: PackageMetadata,
)
    requires
        output.success,
    ensures
        get_package_outcome(attribute, Ok((Finished { output, json: Ok(meta) }))) is Ok,
        ({
            let package = get_package_outcome(attribute, Ok((Finished { output, json: Ok(meta) })))->Ok_0;
            &&& package.attribute == attribute
            &&& package.pname == meta.pname@
            &&& package.version == meta.version@
            &&& package.description == meta.description.deep_view()
        }),
{
}

/// An option evaluation of a process that succeeded answers exactly the
/// option that Nix printed, or the decoding error.
pub proof fn evaluated_option_is_the_reported_option(
    output: CommandOutput,
    json: Result<NixosOption, String>,
)
    requires
        output.success,
    ensures
        get_option_outcome(Ok((Finished { output, json }))) == match result_view(json) {
            Ok(option) => Ok(option),
            Err(error) => Err("Failed to parse NixOS option output: "@ + error),
        },
{
}

/// An option search never makes up an option. An element of the printed list
/// that is not an object with a string `name` makes the search an error; when
/// the search answers options, there is one per element, in order, each with
/// the `name` of its element as path.
pub proof fn searched_options_are_named_by_nix(output: CommandOutput)
    requires
        output.success,
        json_object_list(output.stdout@) is Ok,
    ensures
        ({
            let entries = json_object_list(output.stdout@)->Ok_0;
            &&& (exists|i: int| 0 <= i < entries.len() && !is_named_option(#[trigger] entries[i]))
                ==> search_options_outcome(Ok(output)) is Err
            &&& search_options_outcome(Ok(output)) is Ok ==> {
                let options = search_options_outcome(Ok(output))->Ok_0;
                &&& options.len() == entries.len()
                &&& forall|i: int|
                    0 <= i < options.len() ==> is_named_option(entries[i]) && string_member(
                        entries[i].unwrap(),
                        "name"@,
                    ) == Some(#[trigger] options[i].path)
            }
        }),
{
}

/// The package evaluation runs one `nix` process whose arguments are the same
/// for every attribute: the attribute path reaches Nix only through the
/// environment variable `NIXMCP_ATTRIBUTE`, never inside the Nix expression.
pub proof fn package_attribute_reaches_nix_only_through_environment(
    attribute: Seq<char>,
    other: Seq<char>,
)
    ensures
        package_evaluation(attribute).program == "nix"@,
        package_evaluation(attribute).args == package_evaluation(other).args,
        package_evaluation(attribute).args == seq![
            "eval"@,
            "--json"@,
            "--impure"@,
            "--expr"@,
            PACKAGE_EXPRESSION@,
        ],
        package_evaluation(attribute).env == seq![("NIXMCP_ATTRIBUTE"@, attribute)],
{
}

/// The option search runs one `nix` process whose arguments are the same for
/// every query: the query reaches Nix only through the environment variable
/// `NIXMCP_QUERY`, never inside the Nix expression.
pub proof fn option_query_reaches_nix_only_through_environment(query: Seq<char>, other: Seq<char>)
    ensures
        option_search(query).program == "nix"@,
        option_search(query).args == option_search(other).args,
        option_search(query).args == seq![
            "eval"@,
            "--json"@,
            "--impure"@,
            "--expr"@,
            OPTION_SEARCH_EXPRESSION@,
        ],
        option_search(query).env == seq![("NIXMCP_QUERY"@, query)],
{
}

/// The package search and the flake listing hand the user's text to `nix` as
/// one whole argument, unchanged, and add nothing to the environment.
pub proof fn search_text_and_flake_reference_are_single_arguments(
    query: Seq<char>,
    reference: Seq<char>,
)
    ensures
        package_search(query).program == "nix"@,
        package_search(query).args.len() == 4 && package_search(query).args[2] == query,
        package_search(query).env.len() == 0,
        flake_listing(reference).program == "nix"@,
        flake_listing(reference).args.len() == 4 && flake_listing(reference).args[2] == reference,
        flake_listing(reference).env.len() == 0,
{
}

/// The first member of `members` with key `members[k].key` is the one at `k`
/// when no earlier member has that key.
proof fn first_member_with_key_is_found(members: Seq<JsonMemberView>, k: int)
    requires
        0 <= k < members.len(),
        forall|j: int| 0 <= j < k ==> members[j].key != members[k].key,
    ensures
        find_member(members, members[k].key) == Some(members[k]),
    decreases k,
{
    if k > 0 {
        let rest = members.drop_first();
        assert forall|j: int| 0 <= j < k - 1 implies (#[trigger] rest[j]).key != rest[k - 1].key by {
            assert(rest[j] == members[j + 1]);
        }
        first_member_with_key_is_found(rest, k - 1);
        assert(members[0].key != members[k].key);
    }
}

/// No member is found for a key that no member has.
proof fn absent_key_is_not_found(members: Seq<JsonMemberView>, key: Seq<char>)
    requires
        forall|j: int| 0 <= j < members.len() ==> members[j].key != key,
    ensures
        find_member(members, key) is None,
    decreases members.len(),
{
    if members.len() > 0 {
        let rest = members.drop_first();
        assert forall|j: int| 0 <= j < rest.len() implies (#[trigger] rest[j]).key != key by {
            assert(rest[j] == members[j + 1]);
        }
        absent_key_is_not_found(rest, key);
    }
}

/// Each option an option search answers reports its element's members
/// unchanged: the first member keyed `name` gives the path, `type` and
/// `description` give the type and description when they are strings, and
/// `default` gives the default as its JSON text; a key that the element
/// lacks gives no type, description or default.
pub proof fn searched_options_report_their_members(output: CommandOutput)
    requires
        output.success,
        json_object_list(output.stdout@) is Ok,
        search_options_outcome(Ok(output)) is Ok,
    ensures
        ({
            let entries = json_object_list(output.stdout@)->Ok_0;
            let options = search_options_outcome(Ok(output))->Ok_0;
            &&& options.len() == entries.len()
            &&& forall|i: int| 0 <= i < entries.len() ==> (#[trigger] entries[i]) is Some
            &&& forall|i: int, k: int|
                0 <= i < options.len() && 0 <= k < entries[i].unwrap().len() && (forall|j: int|
                    0 <= j < k ==> entries[i].unwrap()[j].key != entries[i].unwrap()[k].key)
                    ==> {
                    let member = #[trigger] entries[i].unwrap()[k];
                    &&& member.key == "name"@ ==> member.text == Some(options[i].path)
                    &&& member.key == "type"@ ==> options[i].option_type == member.text
                    &&& member.key == "description"@ ==> options[i].description == member.text
                    &&& member.key == "default"@ ==> options[i].default == Some(member.json)
                }
            &&& forall|i: int|
                0 <= i < options.len() && (forall|j: int|
                    0 <= j < entries[i].unwrap().len() ==> entries[i].unwrap()[j].key != "type"@)
                    ==> (#[trigger] options[i]).option_type is None
            &&& forall|i: int|
                0 <= i < options.len() && (forall|j: int|
                    0 <= j < entries[i].unwrap().len() ==> entries[i].unwrap()[j].key
                        != "description"@) ==> (#[trigger] options[i]).description is None
            &&& forall|i: int|
                0 <= i < options.len() && (forall|j: int|
                    0 <= j < entries[i].unwrap().len() ==> entries[i].unwrap()[j].key
                        != "default"@) ==> (#[trigger] options[i]).default is None
        }),
{
    let entries = json_object_list(output.stdout@)->Ok_0;
    let options = search_options_outcome(Ok(output))->Ok_0;
    assert(forall|i: int| 0 <= i < entries.len() ==> is_named_option(#[trigger] entries[i]));
    assert(options == entries.map_values(
        |entry: Option<Seq<JsonMemberView>>| option_of_members(entry.unwrap()),
    ));
    assert forall|i: int, k: int|
        0 <= i < options.len() && 0 <= k < entries[i].unwrap().len() && (forall|j: int|
            0 <= j < k ==> entries[i].unwrap()[j].key != entries[i].unwrap()[k].key) implies {
        let member = #[trigger] entries[i].unwrap()[k];
        &&& member.key == "name"@ ==> member.text == Some(options[i].path)
        &&& member.key == "type"@ ==> options[i].option_type == member.text
        &&& member.key == "description"@ ==> options[i].description == member.text
        &&& member.key == "default"@ ==> options[i].default == Some(member.json)
    } by {
        assert(is_named_option(entries[i]));
        first_member_with_key_is_found(entries[i].unwrap(), k);
        assert(options[i] == option_of_members(entries[i].unwrap()));
    }
    assert forall|i: int| 0 <= i < options.len() implies {
        &&& (forall|j: int|
            0 <= j < entries[i].unwrap().len() ==> entries[i].unwrap()[j].key != "type"@)
            ==> (#[trigger] options[i]).option_type is None
        &&& (forall|j: int|
            0 <= j < entries[i].unwrap().len() ==> entries[i].unwrap()[j].key != "description"@)
            ==> options[i].description is None
        &&& (forall|j: int|
            0 <= j < entries[i].unwrap().len() ==> entries[i].unwrap()[j].key != "default"@)
            ==> options[i].default is None
    } by {
        assert(options[i] == option_of_members(entries[i].unwrap()));
        if forall|j: int|
            0 <= j < entries[i].unwrap().len() ==> entries[i].unwrap()[j].key != "type"@ {
            absent_key_is_not_found(entries[i].unwrap(), "type"@);
        }
        if forall|j: int|
            0 <= j < entries[i].unwrap().len() ==> entries[i].unwrap()[j].key != "description"@ {
            absent_key_is_not_found(entries[i].unwrap(), "description"@);
        }
        if forall|j: int|
            0 <= j < entries[i].unwrap().len() ==> entries[i].unwrap()[j].key != "default"@ {
            absent_key_is_not_found(entries[i].unwrap(), "default"@);
        }
    }
}

/// The option evaluation writes the requested path whole into its Nix
/// expression, at both places: after `system.options.` and as the quoted path.
pub proof fn option_path_is_written_whole(path: Seq<char>)
    ensures
        option_evaluation(path).args.len() == 5,
        option_evaluation(path).args[4] == OPTION_EXPRESSION_HEAD@ + path
            + OPTION_EXPRESSION_MIDDLE@ + path + OPTION_EXPRESSION_TAIL@,
        option_evaluation(path).args[4].subrange(
            OPTION_EXPRESSION_HEAD@.len() as int,
            (OPTION_EXPRESSION_HEAD@.len() + path.len()) as int,
        ) == path,
        option_evaluation(path).args[4].subrange(
            (OPTION_EXPRESSION_HEAD@.len() + path.len() + OPTION_EXPRESSION_MIDDLE@.len()) as int,
            (OPTION_EXPRESSION_HEAD@.len() + path.len() + OPTION_EXPRESSION_MIDDLE@.len()
                + path.len()) as int,
        ) == path,
        option_evaluation(path).env.len() == 0,
{
    let e = option_evaluation(path).args[4];
    let h = OPTION_EXPRESSION_HEAD@.len() as int;
    let m = OPTION_EXPRESSION_MIDDLE@.len() as int;
    assert(e.subrange(h, h + path.len()) =~= path);
    assert(e.subrange(h + path.len() + m, h + path.len() + m + path.len()) =~= path);
}

/// A flake listing whose process succeeded and printed UTF-8 that is one JSON
/// value answers exactly the compact JSON text of that value, and one that
/// printed what is not JSON answers the decoder's error.
pub proof fn flake_listing_answers_the_printed_value(output: CommandOutput)
    requires
        output.success,
        valid_utf8(output.stdout@),
    ensures
        json_compact(decode_utf8(output.stdout@)) matches Ok(flake) ==> inspect_flake_outcome(
            Ok(output),
        ) == Ok::<_, Seq<char>>(flake),
        json_compact(decode_utf8(output.stdout@)) matches Err(error) ==> inspect_flake_outcome(
            Ok(output),
        ) == Err::<Seq<char>, _>("Failed to parse nix flake output: "@ + error),
{
}

/// A process that exited without success is reported by every tool that
/// quotes it with the command's description, the exit status and the standard
/// error with its surrounding white space removed; the option search reports
/// the whole standard error instead.
pub proof fn failed_process_reports_status_and_stderr(
    output: CommandOutput,
    search: Result<Vec<(String, PackageMetadata)>, String>,
    attribute: Seq<char>,
    meta: Result<PackageMetadata, String>,
    option: Result<NixosOption, String>,
)
    requires
        !output.success,
    ensures
        search_packages_outcome(Ok((Finished { output, json: search }))) == Err::<
            Seq<PackageView>,
            _,
        >("nix search"@ + " failed with status "@ + output.status@ + ": "@ + trimmed(
            utf8_lossy(output.stderr@),
        )),
        get_package_outcome(attribute, Ok((Finished { output, json: meta }))) == Err::<
            PackageView,
            _,
        >("nix package evaluation"@ + " failed with status "@ + output.status@ + ": "@ + trimmed(
            utf8_lossy(output.stderr@),
        )),
        get_option_outcome(Ok((Finished { output, json: option }))) == Err::<NixosOptionView, _>(
            "nix option evaluation"@ + " failed with status "@ + output.status@ + ": "@ + trimmed(
                utf8_lossy(output.stderr@),
            ),
        ),
        inspect_flake_outcome(Ok(output)) == Err::<Seq<char>, _>(
            "nix flake show"@ + " failed with status "@ + output.status@ + ": "@ + trimmed(
                utf8_lossy(output.stderr@),
            ),
        ),
        search_options_outcome(Ok(output)) == Err::<Seq<NixosOptionView>, _>(
            utf8_lossy(output.stderr@),
        ),
{
}

/// An option search whose printed list holds an element that is not an object
/// with a string `name` is an error naming, by its decimal position, the first
/// such element.
pub proof fn unnamed_option_is_reported_by_position(output: CommandOutput, k: int)
    requires
        output.success,
        json_object_list(output.stdout@) is Ok,
        0 <= k < json_object_list(output.stdout@)->Ok_0.len(),
        !is_named_option(json_object_list(output.stdout@)->Ok_0[k]),
        forall|j: int|
            0 <= j < k ==> is_named_option(#[trigger] json_object_list(output.stdout@)->Ok_0[j]),
    ensures
        search_options_outcome(Ok(output)) == Err::<Seq<NixosOptionView>, _>(
            "failed to parse nix output: element "@ + decimal(k as nat)
                + " of the option list is not an object with a string name"@,
        ),
{
    let entries = json_object_list(output.stdout@)->Ok_0;
    let first = crate::client::first_unnamed(entries);
    assert(0 <= first < entries.len() && !is_named_option(entries[first]) && forall|j: int|
        0 <= j < first ==> is_named_option(entries[j]));
    if first < k {
        assert(is_named_option(entries[first]));
    }
    if first > k {
        assert(is_named_option(entries[k]));
    }
}

} // verus!
