//! What holds of every command that a request is made into.
use vstd::prelude::*;

use crate::caches::{CachixCachesView, CachixView};
use crate::command::CommandView;
use crate::keys::values;
use crate::laws::texts::{
    addresses, law_addresses_are_of_the_names, law_commands_are_shown_whole,
    law_pieces_are_strung_together, strung,
};
use crate::nix::{evaluates, option_flags, substituter_flags, NixView};
use crate::notice::{Level, NoticeView};
use crate::options::{Config, EnvironmentView, GlobalOptionsView, OptionsView};
use crate::text::decimal;

verus! {

/// The request's own arguments reach Nix as they are, in one piece and in order.
pub proof fn law_arguments_are_kept(
    nix: NixView,
    command: Seq<char>,
    args: Seq<Seq<char>>,
    options: OptionsView,
    devenv_nix: Seq<char>,
)
    ensures
        ({
            let start = nix.leading_flags(options).len() as int;
            nix.prepared(command, args, options, devenv_nix).args.subrange(
                start,
                start + args.len(),
            ) == args
        }),
{
    let start = nix.leading_flags(options).len() as int;
    let all = nix.prepared(command, args, options, devenv_nix).args;
    assert(all.subrange(start, start + args.len()) =~= args);
}

/// Nix's own evaluation cache is switched off in every command.
pub proof fn law_flake_cache_is_disabled(
    nix: NixView,
    command: Seq<char>,
    args: Seq<Seq<char>>,
    options: OptionsView,
    devenv_nix: Seq<char>,
)
    ensures
        ({
            let start = options.nix_flags.len() as int + 2;
            nix.prepared(command, args, options, devenv_nix).args.subrange(
                start,
                start + 3,
            ) == seq!["--option"@, "eval-cache"@, "false"@]
        }),
{
    let start = options.nix_flags.len() as int + 2;
    let all = nix.prepared(command, args, options, devenv_nix).args;
    assert(all.subrange(start, start + 3) =~= seq![
        "--option"@,
        "eval-cache"@,
        "false"@,
    ]);
}

proof fn lemma_option_flags(pairs: Seq<Seq<char>>, n: nat, k: int)
    requires
        0 <= k < n,
        2 * n <= pairs.len(),
    ensures
        option_flags(pairs, n).len() == 3 * n,
        option_flags(pairs, n)[3 * k] == "--option"@,
        option_flags(pairs, n)[3 * k + 1] == pairs[2 * k],
        option_flags(pairs, n)[3 * k + 2] == pairs[2 * k + 1],
    decreases n,
{
    lemma_option_flags_len(pairs, (n - 1) as nat);
    if k < n - 1 {
        lemma_option_flags(pairs, (n - 1) as nat, k);
    }
}

proof fn lemma_option_flags_len(pairs: Seq<Seq<char>>, n: nat)
    ensures
        option_flags(pairs, n).len() == 3 * n,
    decreases n,
{
    if n > 0 {
        lemma_option_flags_len(pairs, (n - 1) as nat);
    }
}

/// Every Nix option that the user gives, a key and a value, reaches every
/// command.
pub proof fn law_nix_options_are_passed_on(
    nix: NixView,
    command: Seq<char>,
    args: Seq<Seq<char>>,
    options: OptionsView,
    devenv_nix: Seq<char>,
    k: int,
)
    requires
        0 <= k,
        2 * k + 1 < nix.global_options.nix_option.len(),
    ensures
        ({
            let start = options.nix_flags.len() + 5 + 3 * k;
            nix.prepared(command, args, options, devenv_nix).args.subrange(start, start + 3)
                == seq![
                "--option"@,
                nix.global_options.nix_option[2 * k],
                nix.global_options.nix_option[2 * k + 1],
            ]
        }),
{
    let pairs = nix.global_options.nix_option;
    let start = options.nix_flags.len() + 5 + 3 * k;
    lemma_option_flags(pairs, pairs.len() / 2, k);
    let all = nix.prepared(command, args, options, devenv_nix).args;
    assert(all.subrange(start, start + 3) =~= seq![
        "--option"@,
        pairs[2 * k],
        pairs[2 * k + 1],
    ]);
}

/// The older utilities get no flag that only `nix` knows: nothing stands behind
/// their arguments.
pub proof fn law_older_utilities_get_no_new_flags(
    nix: NixView,
    command: Seq<char>,
    args: Seq<Seq<char>>,
    options: OptionsView,
    devenv_nix: Seq<char>,
)
    requires
        command != "nix"@,
    ensures
        nix.prepared(command, args, options, devenv_nix).args == nix.leading_flags(options) + args,
{
    assert(nix.prepared(command, args, options, devenv_nix).args =~= nix.leading_flags(options)
        + args);
}

/// Unless impurity is asked for, evaluations stay pure: the flag for it is not
/// added, and the search path is left alone.
pub proof fn law_purity_is_the_default(
    nix: NixView,
    command: Seq<char>,
    args: Seq<Seq<char>>,
    options: OptionsView,
    devenv_nix: Seq<char>,
)
    requires
        !nix.impure(),
    ensures
        !nix.trailing_flags(command, args).contains("--no-pure-eval"@),
        nix.prepared(command, args, options, devenv_nix).envs.len() == 0,
{
    reveal_strlit("--no-pure-eval");
    reveal_strlit("--offline");
    assert("--offline"@.len() != "--no-pure-eval"@.len());
}

/// The flags for impure evaluation and for work without the network go to `nix`
/// alone: the first to evaluations, where impurity is asked for, the second to
/// everything, while offline. Impurity clears the search path of every command.
pub proof fn law_flags_go_where_they_are_known(
    nix: NixView,
    command: Seq<char>,
    args: Seq<Seq<char>>,
    options: OptionsView,
    devenv_nix: Seq<char>,
)
    ensures
        nix.trailing_flags(command, args).contains("--no-pure-eval"@) <==> nix.impure() && command
            == "nix"@ && evaluates(args),
        nix.trailing_flags(command, args).contains("--offline"@) <==> nix.global_options.offline
            && command == "nix"@,
        nix.prepared(command, args, options, devenv_nix).envs.contains(("NIX_PATH"@, Some(":"@)))
            <==> nix.impure(),
{
    reveal_strlit("--no-pure-eval");
    reveal_strlit("--offline");
    assert("--offline"@.len() != "--no-pure-eval"@.len());
    let flags = nix.trailing_flags(command, args);
    if nix.impure() && command == "nix"@ && evaluates(args) {
        assert(flags[flags.len() - 1] == "--no-pure-eval"@);
    }
    if nix.global_options.offline && command == "nix"@ {
        assert(flags[0] == "--offline"@);
    }
    if nix.impure() {
        assert(nix.prepared(command, args, options, devenv_nix).envs[0] == (
            "NIX_PATH"@,
            Some(":"@),
        ));
    }
}

/// How many arguments stand in front of a command's own under the watch of
/// `cachix`: none where nothing is pushed.
pub open spec fn watch_args(caches: CachixCachesView, can_push: bool) -> int {
    if can_push && caches.caches.push is Some {
        4
    } else {
        0
    }
}

/// The caches that were found reach Nix, whether its results are pushed or not: the
/// flags that make them available stand right in front of the request's own
/// arguments.
pub proof fn law_found_caches_are_used(
    nix: NixView,
    command: Seq<char>,
    args: Seq<Seq<char>>,
    options: OptionsView,
    caches: CachixCachesView,
    devenv_nix: Seq<char>,
    can_push: bool,
)
    requires
        !nix.global_options.offline,
    ensures
        ({
            let all = nix.prepared_with_substituters(
                command,
                args,
                options,
                Ok(caches),
                devenv_nix,
                can_push,
            ).args;
            let start = watch_args(caches, can_push) + nix.leading_flags(options).len();
            let behind = start + substituter_flags(caches).len();
            &&& all.subrange(start, behind) == substituter_flags(caches)
            &&& all.subrange(behind, behind + args.len()) == args
        }),
{
    let all = nix.prepared_with_substituters(
        command,
        args,
        options,
        Ok(caches),
        devenv_nix,
        can_push,
    ).args;
    let start = watch_args(caches, can_push) + nix.leading_flags(options).len();
    let behind = start + substituter_flags(caches).len();
    assert(all.subrange(start, behind) =~= substituter_flags(caches));
    assert(all.subrange(behind, behind + args.len()) =~= args);
}

/// While offline, no cache is used, whatever was found, and nothing is pushed.
pub proof fn law_offline_uses_no_caches(
    nix: NixView,
    command: Seq<char>,
    args: Seq<Seq<char>>,
    options: OptionsView,
    found: Result<CachixCachesView, Seq<char>>,
    devenv_nix: Seq<char>,
    environment: EnvironmentView,
    can_push: bool,
)
    requires
        nix.global_options.offline,
    ensures
        nix.prepared_with_substituters(command, args, options, found, devenv_nix, can_push)
            == nix.prepared(command, args, options, devenv_nix),
        nix.substituter_notices(command, args, options, found, environment)
            == nix.prepare_notices(command, args, options, environment),
{
    assert(nix.substituter_notices(command, args, options, found, environment)
        =~= nix.prepare_notices(command, args, options, environment));
}

/// A search for caches that failed does not stop the request: it goes on without
/// caches.
pub proof fn law_requests_go_on_without_caches(
    nix: NixView,
    command: Seq<char>,
    args: Seq<Seq<char>>,
    options: OptionsView,
    reason: Seq<char>,
    devenv_nix: Seq<char>,
    can_push: bool,
)
    ensures
        nix.prepared_with_substituters(command, args, options, Err(reason), devenv_nix, can_push)
            == nix.prepared(command, args, options, devenv_nix),
{
}

/// Without the secret nothing is pushed: the command is not put under the watch
/// of `cachix`.
pub proof fn law_pushing_needs_the_secret(
    nix: NixView,
    command: Seq<char>,
    args: Seq<Seq<char>>,
    options: OptionsView,
    found: Result<CachixCachesView, Seq<char>>,
    devenv_nix: Seq<char>,
)
    ensures
        nix.prepared_with_substituters(command, args, options, found, devenv_nix, false)
            == nix.prepared(command, nix.substituted_args(args, found), options, devenv_nix),
{
}

/// Under the watch of `cachix` the same program runs with the same arguments, in
/// the same place, and with every variable that the command sets.
pub proof fn law_watching_changes_nothing(command: CommandView, cache: Seq<char>)
    ensures
        command.watched(cache).args.take(3) == seq!["watch-exec"@, cache, "--"@],
        command.watched(cache).args.skip(3) == seq![command.program] + command.args,
        command.current_dir is Some ==> command.watched(cache).current_dir == command.current_dir,
        forall|name: Seq<char>, value: Seq<char>|
            command.envs.contains((name, Some(value))) ==> #[trigger] command.watched(
                cache,
            ).envs.contains((name, Some(value))),
{
    let watched = command.watched(cache);
    assert(watched.args.take(3) =~= seq!["watch-exec"@, cache, "--"@]);
    assert(watched.args.skip(3) =~= seq![command.program] + command.args);
    let is_set = |e: (Seq<char>, Option<Seq<char>>)| e.1 is Some;
    assert forall|name: Seq<char>, value: Seq<char>|
        command.envs.contains((name, Some(value))) implies #[trigger] watched.envs.contains(
        (name, Some(value)),
    ) by {
        let i = choose|i: int|
            0 <= i < command.envs.len() && command.envs[i] == (name, Some(value));
        assert(is_set(command.envs[i]));
        command.envs.lemma_filter_contains(is_set, i);
    }
}

/// Commands opt into caching: nothing is cached to begin with, and of the
/// requests only the development environment, builds, evaluations and metadata
/// are cached.
pub proof fn law_caching_is_opted_into(
    nix: NixView,
    args: Seq<Seq<char>>,
    replace_shell: bool,
    json: bool,
    name: Seq<char>,
    path: Seq<char>,
    input_name: Option<Seq<char>>,
)
    requires
        nix.options == OptionsView::initial(),
    ensures
        !nix.options.cache_output,
        !nix.develop_request(args, replace_shell).options.cache_output,
        nix.dev_env_request(json, path).options.cache_output,
        !nix.tidy_request(path).options.cache_output,
        nix.build_request(args) matches Some(request) ==> request.options.cache_output,
        nix.eval_request(args).options.cache_output,
        !nix.update_request(input_name).options.cache_output,
        nix.flake_metadata_request().options.cache_output,
        nix.info_request().options.cache_output,
        !nix.search_request(name).options.cache_output,
        !nix.add_gc_request(name, path).options.cache_output,
        !nix.ping_request().options.cache_output,
{
}

/// Every command runs in the project's directory, under the watch of `cachix` too,
/// whatever it is asked to do.
pub proof fn law_commands_run_in_the_project(
    nix: NixView,
    command: Seq<char>,
    args: Seq<Seq<char>>,
    options: OptionsView,
    found: Result<CachixCachesView, Seq<char>>,
    devenv_nix: Seq<char>,
    can_push: bool,
)
    ensures
        nix.prepared(command, args, options, devenv_nix).current_dir == Some(nix.devenv_root),
        nix.prepared_with_substituters(
            command,
            args,
            options,
            found,
            devenv_nix,
            can_push,
        ).current_dir == Some(nix.devenv_root),
{
}

/// The program is the one of that name in the installation that the environment
/// names.
pub proof fn law_programs_are_of_the_installation(
    nix: NixView,
    command: Seq<char>,
    args: Seq<Seq<char>>,
    options: OptionsView,
    devenv_nix: Seq<char>,
)
    ensures
        nix.prepared(command, args, options, devenv_nix).program == devenv_nix + "/bin/"@ + command,
{
}

/// Where the request's own arguments begin: behind the call's flags, the number of
/// jobs, the switch of the flake cache and the user's options, three flags for
/// each pair.
pub open spec fn own_args_start(nix: NixView, options: OptionsView) -> int {
    (options.nix_flags.len() + 5 + 3 * (nix.global_options.nix_option.len() / 2)) as int
}

/// Nothing but what is named stands in a command: the call's own flags in front,
/// the number of jobs, the switch of the flake cache, the user's options, the
/// request's arguments, and behind them the flag for work without the network and
/// the flag for impure evaluation, where they apply.
pub proof fn law_commands_hold_nothing_else(
    nix: NixView,
    command: Seq<char>,
    args: Seq<Seq<char>>,
    options: OptionsView,
    devenv_nix: Seq<char>,
)
    ensures
        ({
            let all = nix.prepared(command, args, options, devenv_nix).args;
            let front = options.nix_flags.len() as int;
            let start = own_args_start(nix, options);
            let behind = start + args.len();
            let offline = nix.global_options.offline && command == "nix"@;
            let impure = (nix.global_options.impure || nix.config.impure) && command == "nix"@ && (
            args.contains("build"@) || args.contains("eval"@) || args.contains("print-dev-env"@));
            &&& all.take(front) == options.nix_flags
            &&& all[front] == "--max-jobs"@
            &&& all[front + 1] == decimal(nix.global_options.max_jobs as nat)
            &&& all[front + 2] == "--option"@
            &&& all[front + 3] == "eval-cache"@
            &&& all[front + 4] == "false"@
            &&& all.subrange(start, behind) == args
            &&& offline && impure ==> all.skip(behind) == seq!["--offline"@, "--no-pure-eval"@]
            &&& offline && !impure ==> all.skip(behind) == seq!["--offline"@]
            &&& !offline && impure ==> all.skip(behind) == seq!["--no-pure-eval"@]
            &&& !offline && !impure ==> all.skip(behind) == Seq::<Seq<char>>::empty()
        }),
{
    let pairs = nix.global_options.nix_option;
    lemma_option_flags_len(pairs, pairs.len() / 2);
    let all = nix.prepared(command, args, options, devenv_nix).args;
    let front = options.nix_flags.len() as int;
    let start = own_args_start(nix, options);
    let behind = start + args.len();
    assert(nix.leading_flags(options).len() == start);
    assert(all.take(front) =~= options.nix_flags);
    assert(all.subrange(start, behind) =~= args);
    assert(all.skip(behind) =~= nix.trailing_flags(command, args));
    assert(nix.trailing_flags(command, args) =~= all.skip(behind));
    let none = Seq::<Seq<char>>::empty();
    assert(none + none =~= none);
    assert(seq!["--offline"@] + none =~= seq!["--offline"@]);
    assert(none + seq!["--no-pure-eval"@] =~= seq!["--no-pure-eval"@]);
    assert(seq!["--offline"@] + seq!["--no-pure-eval"@] =~= seq!["--offline"@, "--no-pure-eval"@]);
}

/// A command changes one variable of the environment, the search path, and that
/// only where impurity is asked for.
pub proof fn law_one_variable_is_set(
    nix: NixView,
    command: Seq<char>,
    args: Seq<Seq<char>>,
    options: OptionsView,
    devenv_nix: Seq<char>,
)
    ensures
        ({
            let envs = nix.prepared(command, args, options, devenv_nix).envs;
            &&& nix.global_options.impure || nix.config.impure ==> envs == seq![
                ("NIX_PATH"@, Some(":"@)),
            ]
            &&& !nix.global_options.impure && !nix.config.impure ==> envs.len() == 0
        }),
{
}

/// The caches that are pulled from are substituters, all of them and no others, in
/// order, and all known keys are trusted: so it stands in front of the request's
/// own arguments, whatever cache is pushed to.
pub proof fn law_all_pulled_caches_are_substituters(
    nix: NixView,
    command: Seq<char>,
    args: Seq<Seq<char>>,
    options: OptionsView,
    caches: CachixCachesView,
    devenv_nix: Seq<char>,
    can_push: bool,
)
    requires
        !nix.global_options.offline,
    ensures
        ({
            let all = nix.prepared_with_substituters(
                command,
                args,
                options,
                Ok(caches),
                devenv_nix,
                can_push,
            ).args;
            let watched: int = if can_push && caches.caches.push is Some {
                4
            } else {
                0
            };
            let start = watched + own_args_start(nix, options);
            &&& all[start] == "--option"@
            &&& all[start + 1] == "extra-substituters"@
            &&& all[start + 2] == addresses(caches.caches.pull)
            &&& all[start + 3] == "--option"@
            &&& all[start + 4] == "extra-trusted-public-keys"@
            &&& all[start + 5] == strung(
                Seq::new(caches.known_keys.len(), |i: int| caches.known_keys[i].1),
                " "@,
            )
            &&& all.subrange(start + 6, start + 6 + args.len()) == args
        }),
{
    law_addresses_are_of_the_names(caches.caches.pull);
    law_pieces_are_strung_together(values(caches.known_keys), " "@);
    assert(values(caches.known_keys) =~= Seq::new(
        caches.known_keys.len(),
        |i: int| caches.known_keys[i].1,
    ));
    let pairs = nix.global_options.nix_option;
    lemma_option_flags_len(pairs, pairs.len() / 2);
    let all = nix.prepared_with_substituters(
        command,
        args,
        options,
        Ok(caches),
        devenv_nix,
        can_push,
    ).args;
    let watched: int = if can_push && caches.caches.push is Some {
        4
    } else {
        0
    };
    let start = watched + own_args_start(nix, options);
    assert(nix.leading_flags(options).len() == own_args_start(nix, options));
    assert(all.subrange(start + 6, start + 6 + args.len()) =~= args);
}

/// Caches add six arguments in front of the request's own, for the addresses and
/// the keys, and apart from that the request is one as any other.
pub proof fn law_caches_add_nothing_else(
    nix: NixView,
    command: Seq<char>,
    args: Seq<Seq<char>>,
    options: OptionsView,
    caches: CachixCachesView,
    devenv_nix: Seq<char>,
)
    requires
        !nix.global_options.offline,
    ensures
        nix.prepared_with_substituters(command, args, options, Ok(caches), devenv_nix, false)
            == nix.prepared(
            command,
            seq![
                "--option"@,
                "extra-substituters"@,
                addresses(caches.caches.pull),
                "--option"@,
                "extra-trusted-public-keys"@,
                strung(values(caches.known_keys), " "@),
            ] + args,
            options,
            devenv_nix,
        ),
{
    law_addresses_are_of_the_names(caches.caches.pull);
    law_pieces_are_strung_together(values(caches.known_keys), " "@);
    assert(substituter_flags(caches) =~= seq![
        "--option"@,
        "extra-substituters"@,
        addresses(caches.caches.pull),
        "--option"@,
        "extra-trusted-public-keys"@,
        strung(values(caches.known_keys), " "@),
    ]);
}

/// The cache that is pushed to has no part in what is pulled from: without the
/// secret, caches that differ in it alone give the same command, and with the
/// secret the same command is watched.
pub proof fn law_pushing_does_not_change_pulling(
    nix: NixView,
    command: Seq<char>,
    args: Seq<Seq<char>>,
    options: OptionsView,
    caches: CachixCachesView,
    push: Option<Seq<char>>,
    devenv_nix: Seq<char>,
)
    ensures
        ({
            let other = CachixCachesView {
                caches: CachixView { push, ..caches.caches },
                ..caches
            };
            nix.prepared_with_substituters(command, args, options, Ok(caches), devenv_nix, false)
                == nix.prepared_with_substituters(
                command,
                args,
                options,
                Ok(other),
                devenv_nix,
                false,
            )
        }),
{
}

/// With the secret and a cache to push to, `cachix` runs the very command that
/// would run without the secret, with the same variables and in the same place,
/// and pushes to that cache. Without a cache to push to the secret plays no part.
pub proof fn law_pushing_wraps_the_command(
    nix: NixView,
    command: Seq<char>,
    args: Seq<Seq<char>>,
    options: OptionsView,
    caches: CachixCachesView,
    devenv_nix: Seq<char>,
)
    requires
        !nix.global_options.offline,
    ensures
        ({
            let plain = nix.prepared_with_substituters(
                command,
                args,
                options,
                Ok(caches),
                devenv_nix,
                false,
            );
            let pushed = nix.prepared_with_substituters(
                command,
                args,
                options,
                Ok(caches),
                devenv_nix,
                true,
            );
            &&& plain.program == devenv_nix + "/bin/"@ + command
            &&& caches.caches.push is None ==> pushed == plain
            &&& caches.caches.push matches Some(cache) ==> {
                &&& pushed.program == "cachix"@
                &&& pushed.args.len() == 4 + plain.args.len()
                &&& pushed.args[0] == "watch-exec"@
                &&& pushed.args[1] == cache
                &&& pushed.args[2] == "--"@
                &&& pushed.args[3] == plain.program
                &&& pushed.args.skip(4) == plain.args
                &&& pushed.envs == plain.envs
                &&& pushed.current_dir == plain.current_dir
            }
        }),
{
    let plain = nix.prepared_with_substituters(
        command,
        args,
        options,
        Ok(caches),
        devenv_nix,
        false,
    );
    let pushed = nix.prepared_with_substituters(
        command,
        args,
        options,
        Ok(caches),
        devenv_nix,
        true,
    );
    if caches.caches.push is Some {
        assert(pushed.args.skip(4) =~= plain.args);
        reveal(Seq::filter);
        reveal_with_fuel(Seq::filter, 3);
        if nix.impure() {
            assert(plain.envs.drop_last() =~= Seq::empty());
        }
        assert(pushed.envs =~= plain.envs);
    }
}

/// A command that is watched is run by `cachix`, where the command says, and with
/// no variables but those that it sets.
pub proof fn law_watched_commands_get_no_more(command: CommandView, cache: Seq<char>)
    ensures
        command.watched(cache).program == "cachix"@,
        command.current_dir is None ==> command.watched(cache).current_dir == Some("."@),
        forall|name: Seq<char>, value: Option<Seq<char>>| #[trigger]
            command.watched(cache).envs.contains((name, value)) ==> value is Some
                && command.envs.contains((name, value)),
{
    let is_set = |e: (Seq<char>, Option<Seq<char>>)| e.1 is Some;
    let watched = command.watched(cache);
    assert forall|name: Seq<char>, value: Option<Seq<char>>| #[trigger]
        watched.envs.contains((name, value)) implies value is Some && command.envs.contains(
        (name, value),
    ) by {
        command.envs.lemma_filter_contains_rev(is_set, (name, value));
        command.envs.lemma_filter_pred(
            is_set,
            choose|i: int| 0 <= i < watched.envs.len() && watched.envs[i] == (name, value),
        );
    }
}

/// An argument that is added stands behind all others and changes nothing else.
pub proof fn law_arguments_are_added_behind(command: CommandView, arg: Seq<char>)
    ensures
        command.with_arg(arg).args.len() == command.args.len() + 1,
        command.with_arg(arg).args.last() == arg,
        command.with_arg(arg).args.drop_last() == command.args,
        command.with_arg(arg).program == command.program,
        command.with_arg(arg).envs == command.envs,
        command.with_arg(arg).current_dir == command.current_dir,
{
    assert(command.with_arg(arg).args.drop_last() =~= command.args);
}

/// Without a Nix the user is told twice, as errors; with one, the whole command is
/// shown to a user who wants to see much, and nothing to another.
pub proof fn law_commands_are_announced(
    nix: NixView,
    command: Seq<char>,
    args: Seq<Seq<char>>,
    options: OptionsView,
    environment: EnvironmentView,
)
    ensures
        ({
            let told = nix.prepare_notices(command, args, options, environment);
            match environment.devenv_nix {
                None => told == seq![
                    NoticeView {
                        level: Level::Error,
                        text:
                            "$DEVENV_NIX is not set, but required as devenv doesn't work without a few Nix patches."@,
                    },
                    NoticeView {
                        level: Level::Error,
                        text: "Please follow https://devenv.sh/getting-started/ to install devenv."@,
                    },
                ],
                Some(devenv_nix) => {
                    let cmd = nix.prepared(command, args, options, devenv_nix);
                    if nix.global_options.verbose {
                        told == seq![
                            NoticeView {
                                level: Level::Debug,
                                text: "Running command: "@ + (cmd.program + " "@ + strung(
                                    cmd.args,
                                    " "@,
                                )),
                            },
                        ]
                    } else {
                        told.len() == 0
                    }
                },
            }
        }),
{
    if let Some(devenv_nix) = environment.devenv_nix {
        law_commands_are_shown_whole(nix.prepared(command, args, options, devenv_nix));
    }
}

/// Of caches the user is told two things: that none could be found, with the
/// reason, before all else; and that the secret is missing that pushing needs,
/// after all else. While offline nothing is told of them.
pub proof fn law_missing_caches_are_announced(
    nix: NixView,
    command: Seq<char>,
    args: Seq<Seq<char>>,
    options: OptionsView,
    caches: CachixCachesView,
    reason: Seq<char>,
    environment: EnvironmentView,
)
    requires
        !nix.global_options.offline,
    ensures
        nix.substituter_notices(command, args, options, Err(reason), environment) == seq![
            NoticeView {
                level: Level::Warn,
                text: "Failed to get cachix caches due to evaluation error"@,
            },
            NoticeView { level: Level::Debug, text: reason },
        ] + nix.prepare_notices(command, args, options, environment),
        ({
            let all_args = seq![
                "--option"@,
                "extra-substituters"@,
                addresses(caches.caches.pull),
                "--option"@,
                "extra-trusted-public-keys"@,
                strung(values(caches.known_keys), " "@),
            ] + args;
            let told = nix.substituter_notices(command, args, options, Ok(caches), environment);
            let of_command = nix.prepare_notices(command, all_args, options, environment);
            &&& caches.caches.push matches Some(cache) ==> (environment.devenv_nix is Some
                && environment.cachix_auth_token is None ==> told == of_command.push(
                NoticeView {
                    level: Level::Warn,
                    text: "CACHIX_AUTH_TOKEN is not set, but required to push to "@ + cache + "."@,
                },
            ))
            &&& caches.caches.push is None || environment.devenv_nix is None
                || environment.cachix_auth_token is Some ==> told == of_command
        }),
{
    law_addresses_are_of_the_names(caches.caches.pull);
    law_pieces_are_strung_together(values(caches.known_keys), " "@);
    let all_args = seq![
        "--option"@,
        "extra-substituters"@,
        addresses(caches.caches.pull),
        "--option"@,
        "extra-trusted-public-keys"@,
        strung(values(caches.known_keys), " "@),
    ] + args;
    assert(all_args =~= nix.substituted_args(args, Ok(caches)));
    let told = nix.substituter_notices(command, args, options, Ok(caches), environment);
    let of_command = nix.prepare_notices(command, all_args, options, environment);
    assert(caches.caches.push is None || environment.devenv_nix is None
        || environment.cachix_auth_token is Some ==> told =~= of_command);
    if let Some(cache) = caches.caches.push {
        if environment.devenv_nix is Some && environment.cachix_auth_token is None {
            assert(told =~= of_command.push(
                NoticeView {
                    level: Level::Warn,
                    text: "CACHIX_AUTH_TOKEN is not set, but required to push to "@ + cache + "."@,
                },
            ));
        }
    }
    let without = nix.substituter_notices(command, args, options, Err(reason), environment);
    assert(without =~= seq![
        NoticeView {
            level: Level::Warn,
            text: "Failed to get cachix caches due to evaluation error"@,
        },
        NoticeView { level: Level::Debug, text: reason },
    ] + nix.prepare_notices(command, args, options, environment));
}

/// A front end begins with the settings it is given, each in its place, with no
/// caches, and with the flags that every call needs: the experimental features
/// among them.
pub proof fn law_front_ends_begin_as_they_are_told(
    config: Config,
    global_options: GlobalOptionsView,
    cachix_trusted_keys: Seq<char>,
    devenv_home_gc: Seq<char>,
    devenv_dotfile: Seq<char>,
    devenv_dot_gc: Seq<char>,
    devenv_root: Seq<char>,
)
    ensures
        ({
            let nix = NixView::initial(
                config,
                global_options,
                cachix_trusted_keys,
                devenv_home_gc,
                devenv_dotfile,
                devenv_dot_gc,
                devenv_root,
            );
            &&& nix.config == config
            &&& nix.global_options == global_options
            &&& nix.cachix_caches is None
            &&& nix.cachix_trusted_keys == cachix_trusted_keys
            &&& nix.devenv_home_gc == devenv_home_gc
            &&& nix.devenv_dotfile == devenv_dotfile
            &&& nix.devenv_dot_gc == devenv_dot_gc
            &&& nix.devenv_root == devenv_root
            &&& nix.options.logging
            &&& !nix.options.logging_stdout
            &&& !nix.options.cache_output
            &&& !nix.options.replace_shell
            &&& nix.options.nix_flags == seq![
                "--show-trace"@,
                "--extra-experimental-features"@,
                "nix-command"@,
                "--extra-experimental-features"@,
                "flakes"@,
                "--option"@,
                "warn-dirty"@,
                "false"@,
                "--keep-going"@,
            ]
        }),
{
}

} // verus!
