//! What holds of every request that an operation makes.
use vstd::prelude::*;

use crate::keeping::{RootActionView, RootStageView};
use crate::nix::NixView;
use crate::options::OptionsView;
use crate::path::path_under;
use crate::requests::{installables, MetadataActionView, MetadataStageView, OutcomeView};
use crate::run::OutputView;

verus! {

/// The settings of a request are those of the front end, but for what the request
/// asks for.
pub proof fn law_settings_change_in_one_place(options: OptionsView, replace_shell: bool)
    ensures
        options.cached() == (OptionsView { cache_output: true, ..options }),
        options.silent() == (OptionsView { logging: false, ..options }),
        options.interactive(replace_shell) == (OptionsView {
            logging_stdout: true,
            cache_output: false,
            replace_shell,
            ..options
        }),
{
}

/// Whatever is asked of Nix, it gets the flags of the front end.
pub proof fn law_requests_keep_the_flags(
    nix: NixView,
    args: Seq<Seq<char>>,
    replace_shell: bool,
    json: bool,
    name: Seq<char>,
    path: Seq<char>,
    input_name: Option<Seq<char>>,
)
    ensures
        nix.develop_request(args, replace_shell).options.nix_flags == nix.options.nix_flags,
        nix.dev_env_request(json, path).options.nix_flags == nix.options.nix_flags,
        nix.tidy_request(path).options.nix_flags == nix.options.nix_flags,
        nix.build_request(args) matches Some(request) ==> request.options.nix_flags
            == nix.options.nix_flags,
        nix.eval_request(args).options.nix_flags == nix.options.nix_flags,
        nix.update_request(input_name).options.nix_flags == nix.options.nix_flags,
        nix.flake_metadata_request().options.nix_flags == nix.options.nix_flags,
        nix.info_request().options.nix_flags == nix.options.nix_flags,
        nix.search_request(name).options.nix_flags == nix.options.nix_flags,
        nix.add_gc_request(name, path).options.nix_flags == nix.options.nix_flags,
        nix.ping_request().options.nix_flags == nix.options.nix_flags,
{
}

/// A development shell gets the arguments as they are. It can use caches, its
/// output is shown and is not cached, and it takes the place of the running
/// process only where that is wanted.
pub proof fn law_shells_are_asked_for(nix: NixView, args: Seq<Seq<char>>, replace_shell: bool)
    ensures
        ({
            let request = nix.develop_request(args, replace_shell);
            &&& request.substituters
            &&& request.command == "nix"@
            &&& request.args == args
            &&& request.options.logging_stdout
            &&& !request.options.cache_output
            &&& request.options.replace_shell == replace_shell
            &&& request.options.logging == nix.options.logging
        }),
{
}

/// The development environment is printed and kept at the given root, as JSON where
/// that is wanted.
pub proof fn law_environments_are_asked_for(nix: NixView, json: bool, gc_root: Seq<char>)
    ensures
        ({
            let request = nix.dev_env_request(json, gc_root);
            &&& request.substituters
            &&& request.command == "nix"@
            &&& request.args.take(3) == seq!["print-dev-env"@, "--profile"@, gc_root]
            &&& json ==> request.args.skip(3) == seq!["--json"@]
            &&& !json ==> request.args.len() == 3
            &&& request.options == (OptionsView { cache_output: true, ..nix.options })
        }),
        nix.dev_env_begun(json, gc_root) == (
            RootStageView::Evaluating { gc_root },
            RootActionView::Perform(nix.dev_env_request(json, gc_root)),
        ),
{
    let args = nix.dev_env_request(json, gc_root).args;
    assert(args.take(3) =~= seq!["print-dev-env"@, "--profile"@, gc_root]);
    if json {
        assert(args.skip(3) =~= seq!["--json"@]);
    }
}

/// The older generations of that very root are dropped, and nothing is shown of
/// it.
pub proof fn law_old_generations_are_dropped(nix: NixView, gc_root: Seq<char>)
    ensures
        ({
            let request = nix.tidy_request(gc_root);
            &&& !request.substituters
            &&& request.command == "nix-env"@
            &&& request.args == seq!["-p"@, gc_root, "--delete-generations"@, "old"@]
            &&& request.options == (OptionsView { logging: false, ..nix.options })
        }),
{
}

/// A path is registered under its name in the project's directory of roots.
pub proof fn law_roots_are_registered(nix: NixView, name: Seq<char>, path: Seq<char>)
    ensures
        ({
            let request = nix.add_gc_request(name, path);
            &&& !request.substituters
            &&& request.command == "nix-store"@
            &&& request.args == seq![
                "--add-root"@,
                path_under(nix.devenv_dot_gc, name),
                "-r"@,
                path,
            ]
            &&& request.options == nix.options
        }),
        nix.add_gc_begun(name, path) == (
            RootStageView::Adding { name, path },
            RootActionView::Perform(nix.add_gc_request(name, path)),
        ),
{
}

/// Attributes become installables one for one and in order.
pub proof fn law_attributes_become_installables(attributes: Seq<Seq<char>>)
    ensures
        installables(attributes).len() == attributes.len(),
        forall|i: int|
            0 <= i < attributes.len() ==> #[trigger] installables(attributes)[i] == ".#"@
                + attributes[i],
{
}

/// A build asks for every attribute and for the paths of what is built, and for
/// nothing where there are no attributes.
pub proof fn law_all_attributes_are_built(nix: NixView, attributes: Seq<Seq<char>>)
    ensures
        nix.build_request(attributes) is None <==> attributes.len() == 0,
        nix.build_request(attributes) matches Some(request) ==> {
            &&& request.substituters
            &&& request.command == "nix"@
            &&& request.args.len() == 3 + attributes.len()
            &&& request.args.take(3) == seq!["build"@, "--no-link"@, "--print-out-paths"@]
            &&& forall|i: int|
                0 <= i < attributes.len() ==> request.args[3 + i] == ".#"@ + #[trigger] attributes[i]
            &&& request.options == (OptionsView { cache_output: true, ..nix.options })
        },
{
    if let Some(request) = nix.build_request(attributes) {
        assert(request.args.take(3) =~= seq!["build"@, "--no-link"@, "--print-out-paths"@]);
    }
}

/// An evaluation asks for every attribute, as JSON, and uses no caches.
pub proof fn law_all_attributes_are_evaluated(nix: NixView, attributes: Seq<Seq<char>>)
    ensures
        ({
            let request = nix.eval_request(attributes);
            &&& !request.substituters
            &&& request.command == "nix"@
            &&& request.args.len() == 2 + attributes.len()
            &&& request.args.take(2) == seq!["eval"@, "--json"@]
            &&& forall|i: int|
                0 <= i < attributes.len() ==> request.args[2 + i] == ".#"@ + #[trigger] attributes[i]
            &&& request.options == (OptionsView { cache_output: true, ..nix.options })
        }),
{
    let request = nix.eval_request(attributes);
    assert(request.args.take(2) =~= seq!["eval"@, "--json"@]);
}

/// An update is of the one input that is named, or of all.
pub proof fn law_updates_are_of_what_is_named(nix: NixView, name: Seq<char>)
    ensures
        nix.update_request(Some(name)).args == seq!["flake"@, "lock"@, "--update-input"@, name],
        nix.update_request(None).args == seq!["flake"@, "update"@],
        forall|input_name: Option<Seq<char>>|
            {
                let request = #[trigger] nix.update_request(input_name);
                &&& !request.substituters
                &&& request.command == "nix"@
                &&& request.options == nix.options
            },
{
}

/// A search is for the name that is given, in the package set of the project's
/// inputs.
pub proof fn law_searches_are_for_the_name(nix: NixView, name: Seq<char>)
    ensures
        ({
            let request = nix.search_request(name);
            &&& request.substituters
            &&& request.command == "nix"@
            &&& request.args == seq![
                "search"@,
                "--inputs-from"@,
                "."@,
                "--json"@,
                "nixpkgs"@,
                name,
            ]
            &&& request.options == nix.options
        }),
{
}

/// The flake is asked for its metadata and the project for its words, raw, and the
/// store for its trust, silently.
pub proof fn law_facts_are_asked_for(nix: NixView)
    ensures
        ({
            let request = nix.flake_metadata_request();
            &&& !request.substituters
            &&& request.command == "nix"@
            &&& request.args == seq!["flake"@, "metadata"@]
            &&& request.options == (OptionsView { cache_output: true, ..nix.options })
        }),
        ({
            let request = nix.info_request();
            &&& !request.substituters
            &&& request.command == "nix"@
            &&& request.args == seq!["eval"@, "--raw"@, ".#info"@]
            &&& request.options == (OptionsView { cache_output: true, ..nix.options })
        }),
        ({
            let request = nix.ping_request();
            &&& !request.substituters
            &&& request.command == "nix"@
            &&& request.args == seq!["store"@, "ping"@, "--json"@]
            &&& request.options == (OptionsView { logging: false, ..nix.options })
        }),
{
}

/// What the flake printed is what the report is made of, unchanged, once the
/// project has answered.
pub proof fn law_the_flake_answers_first(nix: NixView, output: OutputView)
    ensures
        nix.metadata_begun().0 is AskingFlake,
        nix.metadata_continued(MetadataStageView::AskingFlake, OutcomeView::Performed(output)) == (
            MetadataStageView::AskingProject { metadata: output.stdout },
            MetadataActionView::Perform(nix.info_request()),
        ),
{
}

} // verus!
