//! What holds of each step of a search for caches.
use vstd::prelude::*;

use crate::caches::{CachixCachesView, CachixView};
use crate::cachix::{
    lemma_next_missing, next_missing, ping_notices, SearchActionView, SearchEventView,
    SearchStageView,
};
use crate::error::NixErrorView;
use crate::keys::{all_bound, bound, has_name, values, Entries};
use crate::laws::texts::{
    addresses, law_addresses_are_of_the_names, law_pieces_are_strung_together, strung,
};
use crate::nix::NixView;
use crate::notice::{Level, NoticeView};
use crate::options::EnvironmentView;
use crate::requests::RequestView;

verus! {

/// A search begins with the evaluation of what the project says of its caches,
/// unless the caches are known.
pub proof fn law_searches_begin_with_the_project(nix: NixView)
    ensures
        nix.cachix_caches is Some ==> nix.search_begun() == (
            SearchStageView::Finished,
            SearchActionView::Ready,
        ),
        nix.cachix_caches is None ==> nix.search_begun().0 is Evaluating && (
        nix.search_begun().1 matches SearchActionView::Evaluate(request) && {
            &&& !request.substituters
            &&& request.command == "nix"@
            &&& request.args.len() == 3
            &&& request.args[0] == "eval"@
            &&& request.args[1] == "--json"@
            &&& request.args[2] == ".#devenv.cachix"@
            &&& request.options.cache_output
            &&& request.options.nix_flags == nix.options.nix_flags
            &&& request.options.logging == nix.options.logging
        }),
{
    reveal_strlit(".#");
    reveal_strlit("devenv.cachix");
    reveal_strlit(".#devenv.cachix");
    assert(".#"@ + "devenv.cachix"@ =~= ".#devenv.cachix"@);
}

/// Whatever the project says of its caches is remembered as it is, and the key file
/// is read.
pub proof fn law_the_key_file_is_read_next(
    nix: NixView,
    cachix: CachixView,
    environment: EnvironmentView,
)
    ensures
        ({
            let step = nix.search_continued(
                SearchStageView::Evaluating,
                SearchEventView::Evaluated(cachix),
                environment,
            );
            &&& step.stage == (SearchStageView::ReadingKeys { cachix })
            &&& step.action == (SearchActionView::ReadKeys { path: nix.cachix_trusted_keys })
            &&& step.notices.len() == 0
            &&& step.kept is None
        }),
{
}

/// From a place on, the first cache that has no key among the known ones is asked
/// for it, at its own address, with the secret where there is one.
pub proof fn law_the_first_missing_key_is_asked_for(
    nix: NixView,
    caches: CachixCachesView,
    new_keys: Entries,
    from: nat,
    next: nat,
    environment: EnvironmentView,
)
    requires
        from <= next < caches.caches.pull.len(),
        forall|i: int|
            0 <= i < caches.known_keys.len() ==> (#[trigger] caches.known_keys[i]).0
                != caches.caches.pull[next as int],
        forall|k: int|
            from <= k < next ==> exists|i: int|
                0 <= i < caches.known_keys.len() && (#[trigger] caches.known_keys[i]).0
                    == #[trigger] caches.caches.pull[k],
    ensures
        ({
            let step = nix.fetching(caches, new_keys, from, environment);
            &&& step.stage == (SearchStageView::Fetching { caches, new_keys, next })
            &&& step.action == (SearchActionView::Fetch {
                url: "https://cachix.org/api/v1/cache/"@ + caches.caches.pull[next as int],
                bearer: environment.cachix_auth_token,
            })
            &&& step.notices.len() == 0
            &&& step.kept is None
        }),
{
    let pull = caches.caches.pull;
    let known = caches.known_keys;
    lemma_next_missing(pull, known, from);
    let found = next_missing(pull, known, from);
    assert(!has_name(known, pull[next as int]));
    if found < next {
        assert(exists|i: int| 0 <= i < known.len() && (#[trigger] known[i]).0 == pull[found as int]);
        assert(has_name(known, pull[found as int]));
    }
    if next < found {
        assert(has_name(known, pull[next as int]));
    }
}

/// Where every cache from a place on has a key, the store is asked, and where there
/// are no caches at all, the search is over and keeps what it has.
pub proof fn law_the_store_is_asked_last(
    nix: NixView,
    caches: CachixCachesView,
    new_keys: Entries,
    from: nat,
    environment: EnvironmentView,
)
    requires
        from <= caches.caches.pull.len(),
        forall|k: int|
            from <= k < caches.caches.pull.len() ==> exists|i: int|
                0 <= i < caches.known_keys.len() && (#[trigger] caches.known_keys[i]).0
                    == #[trigger] caches.caches.pull[k],
    ensures
        ({
            let step = nix.fetching(caches, new_keys, from, environment);
            &&& step.notices.len() == 0
            &&& caches.caches.pull.len() > 0 ==> step.kept is None && step.stage
                == (SearchStageView::Pinging { caches, new_keys }) && step.action
                == SearchActionView::Ping(
                RequestView {
                    substituters: false,
                    command: "nix"@,
                    args: seq!["store"@, "ping"@, "--json"@],
                    options: nix.options.silent(),
                },
            )
            &&& caches.caches.pull.len() == 0 ==> step.kept == Some(caches)
                && step.stage is Finished && step.action is Ready
        }),
{
    let pull = caches.caches.pull;
    let known = caches.known_keys;
    lemma_next_missing(pull, known, from);
    let found = next_missing(pull, known, from);
    if found < pull.len() {
        assert(exists|i: int| 0 <= i < known.len() && (#[trigger] known[i]).0 == pull[found as int]);
        assert(has_name(known, pull[found as int]));
    }
}

/// The keys that are read are the known ones, and the search goes on from the first
/// cache. A key that is answered is bound to the cache that was asked, and the
/// search goes on behind that cache.
pub proof fn law_searches_go_through_all_caches(
    nix: NixView,
    cachix: CachixView,
    keys: Entries,
    caches: CachixCachesView,
    new_keys: Entries,
    next: nat,
    answer: Seq<Seq<char>>,
    environment: EnvironmentView,
)
    requires
        answer.len() > 0,
        next < caches.caches.pull.len(),
    ensures
        nix.search_continued(
            SearchStageView::ReadingKeys { cachix },
            SearchEventView::KeysRead(keys),
            environment,
        ) == nix.fetching(
            CachixCachesView { caches: cachix, known_keys: keys },
            Entries::empty(),
            0,
            environment,
        ),
        nix.search_continued(
            SearchStageView::Fetching { caches, new_keys, next },
            SearchEventView::Answered { public_signing_keys: answer },
            environment,
        ) == nix.fetching(
            caches,
            bound(new_keys, caches.caches.pull[next as int], answer[0]),
            next + 1,
            environment,
        ),
{
}

/// A cache that refuses is named to the user, who is told where caches are made.
pub proof fn law_refusals_are_told(
    nix: NixView,
    caches: CachixCachesView,
    new_keys: Entries,
    next: nat,
    environment: EnvironmentView,
)
    requires
        next < caches.caches.pull.len(),
    ensures
        ({
            let step = nix.search_continued(
                SearchStageView::Fetching { caches, new_keys, next },
                SearchEventView::Refused,
                environment,
            );
            &&& step.stage is Finished
            &&& step.action == SearchActionView::Fail(NixErrorView::CacheRefused)
            &&& step.kept is None
            &&& step.notices == seq![
                NoticeView {
                    level: Level::Error,
                    text: "Cache "@ + caches.caches.pull[next as int]
                        + " does not exist or you don't have a CACHIX_AUTH_TOKEN configured."@,
                },
                NoticeView {
                    level: Level::Error,
                    text: "To create a cache, go to https://app.cachix.org/."@,
                },
            ]
        }),
{
}

/// An evaluation or a question to the store that failed ends the search with its
/// own failure, and nothing is told of it.
pub proof fn law_failures_end_the_search(
    nix: NixView,
    caches: CachixCachesView,
    new_keys: Entries,
    e: NixErrorView,
    environment: EnvironmentView,
)
    ensures
        ({
            let step = nix.search_continued(
                SearchStageView::Evaluating,
                SearchEventView::EvaluationFailed(e),
                environment,
            );
            &&& step.stage is Finished
            &&& step.action == SearchActionView::Fail(e)
            &&& step.notices.len() == 0
            &&& step.kept is None
        }),
        ({
            let step = nix.search_continued(
                SearchStageView::Pinging { caches, new_keys },
                SearchEventView::PingFailed(e),
                environment,
            );
            &&& step.stage is Finished
            &&& step.action == SearchActionView::Fail(e)
            &&& step.notices.len() == 0
            &&& step.kept is None
        }),
{
}

/// Once the store has answered, whatever it says, the new keys are bound beside the
/// known ones and the key file is written; the caches stay what the project named.
pub proof fn law_new_keys_are_written(
    nix: NixView,
    caches: CachixCachesView,
    new_keys: Entries,
    trusted: Option<u8>,
    environment: EnvironmentView,
)
    ensures
        ({
            let step = nix.search_continued(
                SearchStageView::Pinging { caches, new_keys },
                SearchEventView::Pinged { trusted },
                environment,
            );
            &&& step.stage == (SearchStageView::Writing {
                caches: CachixCachesView {
                    caches: caches.caches,
                    known_keys: all_bound(caches.known_keys, new_keys),
                },
                trusted,
            })
            &&& step.action == (SearchActionView::WriteKeys { path: nix.cachix_trusted_keys })
            &&& step.kept is None
            &&& step.notices == ping_notices(caches.caches.pull, new_keys, trusted)
        }),
{
}

/// The user is told which caches are used, and of every new key that it is trusted
/// from now on; and before that, of a store too old to say whom it trusts.
pub proof fn law_new_keys_are_told(
    pull: Seq<Seq<char>>,
    new_keys: Entries,
    trusted: Option<u8>,
)
    ensures
        ({
            let told = ping_notices(pull, new_keys, trusted);
            let at: int = if trusted is None {
                1
            } else {
                0
            };
            &&& told.len() == at + 1 + new_keys.len()
            &&& trusted is None ==> told[0] == (NoticeView {
                level: Level::Warn,
                text:
                    "You're using very old version of Nix, please upgrade and restart nix-daemon."@,
            })
            &&& told[at] == (NoticeView {
                level: Level::Info,
                text: "Using Cachix: "@ + strung(pull, ", "@),
            })
            &&& forall|i: int|
                0 <= i < new_keys.len() ==> told[at + 1 + i] == (NoticeView {
                    level: Level::Info,
                    text: "Trusting "@ + (#[trigger] new_keys[i]).0
                        + ".cachix.org on first use with the public key "@ + new_keys[i].1,
                })
        }),
{
    law_pieces_are_strung_together(pull, ", "@);
}

/// Once the key file is written, the caches are kept as they are, unless the store
/// said that it does not trust the user: then the machine is looked at.
pub proof fn law_trust_decides(
    nix: NixView,
    caches: CachixCachesView,
    trusted: Option<u8>,
    environment: EnvironmentView,
)
    ensures
        ({
            let step = nix.search_continued(
                SearchStageView::Writing { caches, trusted },
                SearchEventView::Written,
                environment,
            );
            &&& step.notices.len() == 0
            &&& trusted == Some(0u8) ==> step.kept is None && step.stage
                == (SearchStageView::AskingHost { caches }) && step.action
                == (SearchActionView::AskHost { nixos_marker: "/etc/NIXOS"@ })
            &&& trusted != Some(0u8) ==> step.kept == Some(caches) && step.stage is Finished
                && step.action is Ready
        }),
{
}

/// What a step keeps is all that it changes in the front end.
pub proof fn law_only_the_caches_are_kept(nix: NixView, caches: CachixCachesView)
    ensures
        nix.keeping(None) == nix,
        nix.keeping(Some(caches)) == (NixView { cachix_caches: Some(caches), ..nix }),
{
}

/// A user whom the store does not trust is advised, by name, with all the addresses
/// and all the keys, and in the way that suits the machine.
pub proof fn law_advice_is_whole(
    nix: NixView,
    linux: bool,
    nixos: bool,
    username: Seq<char>,
    caches: CachixCachesView,
    environment: EnvironmentView,
)
    ensures
        ({
            let step = nix.search_continued(
                SearchStageView::AskingHost { caches },
                SearchEventView::HostSeen { nixos, linux, username },
                environment,
            );
            let pulled = addresses(caches.caches.pull);
            let keys = strung(
                Seq::new(caches.known_keys.len(), |i: int| caches.known_keys[i].1),
                " "@,
            );
            &&& step.stage is Finished
            &&& step.action == SearchActionView::Fail(NixErrorView::NotTrusted)
            &&& step.kept is None
            &&& step.notices == seq![
                NoticeView {
                    level: Level::Error,
                    text: if nixos {
                        "You're not a trusted user of the Nix store. You have the following options:\n\na) Add yourself to the trusted-users list in /etc/nix/nix.conf by editing configuration.nix for devenv to manage caches for you.\n\n{\n    nix.extraOptions = ''\n        trusted-users = root "@
                            + username
                            + "\n    '';\n}\n\nb) Add binary caches to /etc/nix/nix.conf yourself by editing configuration.nix:\n{\n    nix.extraOptions = ''\n        extra-substituters = "@
                            + pulled + ";\n        extra-trusted-public-keys = "@ + keys
                            + ";\n    '';\n}\n\nLastly rebuild your system\n\n$ sudo nixos-rebuild switch\n"@
                    } else {
                        "You're not a trusted user of the Nix store. You have the following options:\n\na) Add yourself to the trusted-users list in /etc/nix/nix.conf for devenv to manage caches for you.\n\ntrusted-users = root "@
                            + username + "\n\nRestart nix-daemon with:\n\n  $ "@ + if linux {
                            "sudo systemctl restart nix-daemon"@
                        } else {
                            "sudo launchctl kickstart -k system/org.nixos.nix-daemon"@
                        }
                            + "\n\nb) Add binary caches to /etc/nix/nix.conf yourself:\n\nextra-substituters = "@
                            + pulled + "\nextra-trusted-public-keys = "@ + keys
                            + "\n\nAnd disable automatic cache configuration in `devenv.nix`:\n\n{\n    cachix.enable = false;\n}\n"@
                    },
                },
            ]
        }),
{
    law_addresses_are_of_the_names(caches.caches.pull);
    law_pieces_are_strung_together(values(caches.known_keys), " "@);
    assert(values(caches.known_keys) =~= Seq::new(
        caches.known_keys.len(),
        |i: int| caches.known_keys[i].1,
    ));
}

} // verus!
