//! The search for a project's binary caches: what the project asks for, which
//! keys are trusted already, and which are trusted on first use.
use vstd::pervasive::unreached;
use vstd::prelude::*;
use vstd::string::*;

use crate::caches::{pull_urls, Cachix, CachixCaches, CachixCachesView, CachixView};
use crate::error::{NixError, NixErrorView};
use crate::keys::{
    all_bound, as_map, bound, has_name, json_string_map, lemma_all_bound, lemma_bound, names_once,
    values, Entries, KnownKeys,
};
use crate::nix::{Nix, NixView};
use crate::notice::{error_notice, information, report, warning, Level, Notice, NoticeView};
use crate::options::{Environment, EnvironmentView};
use crate::requests::{Request, RequestView};
use crate::text::{join, joined, owned};

verus! {

/// How far the search has come.
pub enum SearchStage {
    /// The project is evaluated for what it says of its caches.
    Evaluating,
    /// The file of trusted keys is read.
    ReadingKeys { cachix: Cachix },
    /// The key of the cache at place `next` is asked for.
    Fetching { caches: CachixCaches, new_keys: KnownKeys, next: usize },
    /// The store is asked whether it trusts the user.
    Pinging { caches: CachixCaches, new_keys: KnownKeys },
    /// The file of trusted keys is written.
    Writing { caches: CachixCaches, trusted: Option<u8> },
    /// The store does not trust the user, and the machine is looked at for what
    /// to advise.
    AskingHost { caches: CachixCaches },
    /// The search is over.
    Finished,
}

/// [`SearchStage`] with the texts as character sequences.
pub enum SearchStageView {
    Evaluating,
    ReadingKeys { cachix: CachixView },
    Fetching { caches: CachixCachesView, new_keys: Entries, next: nat },
    Pinging { caches: CachixCachesView, new_keys: Entries },
    Writing { caches: CachixCachesView, trusted: Option<u8> },
    AskingHost { caches: CachixCachesView },
    Finished,
}

impl DeepView for SearchStage {
    type V = SearchStageView;

    open spec fn deep_view(&self) -> SearchStageView {
        match self {
            SearchStage::Evaluating => SearchStageView::Evaluating,
            SearchStage::ReadingKeys { cachix } => SearchStageView::ReadingKeys {
                cachix: cachix.deep_view(),
            },
            SearchStage::Fetching { caches, new_keys, next } => SearchStageView::Fetching {
                caches: caches.deep_view(),
                new_keys: new_keys.deep_view(),
                next: *next as nat,
            },
            SearchStage::Pinging { caches, new_keys } => SearchStageView::Pinging {
                caches: caches.deep_view(),
                new_keys: new_keys.deep_view(),
            },
            SearchStage::Writing { caches, trusted } => SearchStageView::Writing {
                caches: caches.deep_view(),
                trusted: *trusted,
            },
            SearchStage::AskingHost { caches } => SearchStageView::AskingHost {
                caches: caches.deep_view(),
            },
            SearchStage::Finished => SearchStageView::Finished,
        }
    }
}

/// What is to be done next for the search.
#[derive(Debug, PartialEq, Eq)]
pub enum SearchAction<'a> {
    /// Evaluate what the project says of its caches.
    Evaluate(Request<'a>),
    /// Read the file of trusted keys.
    ReadKeys { path: String },
    /// Ask for the signing keys of a cache, with the secret where there is one.
    Fetch { url: String, bearer: Option<String> },
    /// Ask the store whether it trusts the user.
    Ping(Request<'a>),
    /// Write the file of trusted keys.
    WriteKeys { path: String, contents: String },
    /// Look at who the user is and what the machine is: NixOS where the marker
    /// exists.
    AskHost { nixos_marker: String },
    /// Nothing more: the caches are known.
    Ready,
    /// Nothing more: the search failed.
    Fail(NixError),
}

/// [`SearchAction`] with the texts as character sequences. The contents of the
/// key file are left out, since the order of the keys in it is open.
pub enum SearchActionView {
    Evaluate(RequestView),
    ReadKeys { path: Seq<char> },
    Fetch { url: Seq<char>, bearer: Option<Seq<char>> },
    Ping(RequestView),
    WriteKeys { path: Seq<char> },
    AskHost { nixos_marker: Seq<char> },
    Ready,
    Fail(NixErrorView),
}

impl<'a> DeepView for SearchAction<'a> {
    type V = SearchActionView;

    open spec fn deep_view(&self) -> SearchActionView {
        match self {
            SearchAction::Evaluate(request) => SearchActionView::Evaluate(request.deep_view()),
            SearchAction::ReadKeys { path } => SearchActionView::ReadKeys { path: path@ },
            SearchAction::Fetch { url, bearer } => SearchActionView::Fetch {
                url: url@,
                bearer: bearer.deep_view(),
            },
            SearchAction::Ping(request) => SearchActionView::Ping(request.deep_view()),
            SearchAction::WriteKeys { path, .. } => SearchActionView::WriteKeys { path: path@ },
            SearchAction::AskHost { nixos_marker } => SearchActionView::AskHost {
                nixos_marker: nixos_marker@,
            },
            SearchAction::Ready => SearchActionView::Ready,
            SearchAction::Fail(e) => SearchActionView::Fail(e.deep_view()),
        }
    }
}

/// What became of an action.
pub enum SearchEvent {
    /// The evaluation failed.
    EvaluationFailed(NixError),
    /// The project's caches.
    Evaluated(Cachix),
    /// The keys that the file holds.
    KeysRead(KnownKeys),
    /// The cache does not exist or is not open to the user.
    Refused,
    /// The cache's signing keys, of which there is at least one.
    Answered { public_signing_keys: Vec<String> },
    /// The store did not answer.
    PingFailed(NixError),
    /// Whether the store trusts the user: 0 where it does not, and nothing where
    /// it does not say.
    Pinged { trusted: Option<u8> },
    /// The file of trusted keys is written.
    Written,
    /// What the machine is and who the user is.
    HostSeen { nixos: bool, linux: bool, username: String },
}

/// [`SearchEvent`] with the texts as character sequences.
pub enum SearchEventView {
    EvaluationFailed(NixErrorView),
    Evaluated(CachixView),
    KeysRead(Entries),
    Refused,
    Answered { public_signing_keys: Seq<Seq<char>> },
    PingFailed(NixErrorView),
    Pinged { trusted: Option<u8> },
    Written,
    HostSeen { nixos: bool, linux: bool, username: Seq<char> },
}

impl DeepView for SearchEvent {
    type V = SearchEventView;

    open spec fn deep_view(&self) -> SearchEventView {
        match self {
            SearchEvent::EvaluationFailed(e) => SearchEventView::EvaluationFailed(e.deep_view()),
            SearchEvent::Evaluated(cachix) => SearchEventView::Evaluated(cachix.deep_view()),
            SearchEvent::KeysRead(keys) => SearchEventView::KeysRead(keys.deep_view()),
            SearchEvent::Refused => SearchEventView::Refused,
            SearchEvent::Answered { public_signing_keys } => SearchEventView::Answered {
                public_signing_keys: public_signing_keys.deep_view(),
            },
            SearchEvent::PingFailed(e) => SearchEventView::PingFailed(e.deep_view()),
            SearchEvent::Pinged { trusted } => SearchEventView::Pinged { trusted: *trusted },
            SearchEvent::Written => SearchEventView::Written,
            SearchEvent::HostSeen { nixos, linux, username } => SearchEventView::HostSeen {
                nixos: *nixos,
                linux: *linux,
                username: username@,
            },
        }
    }
}

/// Whether each of the first `n` caches has a key among the known ones or the
/// new ones.
pub open spec fn keyed(pull: Seq<Seq<char>>, n: int, known: Entries, new: Entries) -> bool {
    forall|j: int|
        0 <= j < n ==> has_name(known, #[trigger] pull[j]) || has_name(new, pull[j])
}

/// Whether no cache has a key both among the known ones and the new ones.
pub open spec fn apart(known: Entries, new: Entries) -> bool {
    forall|name: Seq<char>| #[trigger] has_name(new, name) ==> !has_name(known, name)
}

impl SearchStageView {
    /// Whether the event can follow what was asked for at this stage.
    pub open spec fn awaits(self, event: SearchEventView) -> bool {
        match self {
            SearchStageView::Evaluating => event is EvaluationFailed || event is Evaluated,
            SearchStageView::ReadingKeys { .. } => event is KeysRead,
            SearchStageView::Fetching { .. } => event is Refused || (
            event matches SearchEventView::Answered { public_signing_keys }
                && public_signing_keys.len() > 0),
            SearchStageView::Pinging { .. } => event is PingFailed || event is Pinged,
            SearchStageView::Writing { .. } => event is Written,
            SearchStageView::AskingHost { .. } => event is HostSeen,
            SearchStageView::Finished => false,
        }
    }

    /// What holds of every stage that a search comes to: no cache has two keys,
    /// only keys that were not known are new, and the caches that were passed
    /// have their keys.
    pub open spec fn sound(self) -> bool {
        match self {
            SearchStageView::Fetching { caches, new_keys, next } => {
                &&& names_once(caches.known_keys)
                &&& names_once(new_keys)
                &&& apart(caches.known_keys, new_keys)
                &&& next < caches.caches.pull.len()
                &&& !has_name(caches.known_keys, caches.caches.pull[next as int])
                &&& keyed(caches.caches.pull, next as int, caches.known_keys, new_keys)
            },
            SearchStageView::Pinging { caches, new_keys } => {
                &&& names_once(caches.known_keys)
                &&& names_once(new_keys)
                &&& apart(caches.known_keys, new_keys)
                &&& caches.caches.pull.len() > 0
                &&& keyed(
                    caches.caches.pull,
                    caches.caches.pull.len() as int,
                    caches.known_keys,
                    new_keys,
                )
            },
            SearchStageView::Writing { caches, .. } => caches.sound(),
            SearchStageView::AskingHost { caches } => caches.sound(),
            _ => true,
        }
    }
}

impl CachixCachesView {
    /// Whether no cache has two keys and every cache that is pulled from has one.
    pub open spec fn sound(self) -> bool {
        &&& names_once(self.known_keys)
        &&& forall|j: int|
            0 <= j < self.caches.pull.len() ==> has_name(
                self.known_keys,
                #[trigger] self.caches.pull[j],
            )
    }
}

/// The first cache from place `from` on whose key is not known, or the number of
/// caches where there is none.
pub open spec fn next_missing(pull: Seq<Seq<char>>, known: Entries, from: nat) -> nat
    decreases pull.len() - from,
{
    if from >= pull.len() {
        pull.len()
    } else if !has_name(known, pull[from as int]) {
        from
    } else {
        next_missing(pull, known, from + 1)
    }
}

/// Where the signing keys of a cache are asked for.
pub open spec fn key_url(name: Seq<char>) -> Seq<char> {
    "https://cachix.org/api/v1/cache/"@ + name
}

/// What the user is told of a key that is trusted from now on.
pub open spec fn trusting(name: Seq<char>, key: Seq<char>) -> NoticeView {
    information(
        "Trusting "@ + name + ".cachix.org on first use with the public key "@ + key,
    )
}

/// What the user is told once the store has answered.
pub open spec fn ping_notices(
    pull: Seq<Seq<char>>,
    new_keys: Entries,
    trusted: Option<u8>,
) -> Seq<NoticeView> {
    let about_age: Seq<NoticeView> = if trusted is None {
        seq![
            warning(
                "You're using very old version of Nix, please upgrade and restart nix-daemon."@,
            ),
        ]
    } else {
        Seq::empty()
    };
    about_age.push(information("Using Cachix: "@ + joined(pull, ", "@))) + Seq::new(
        new_keys.len(),
        |i: int| trusting(new_keys[i].0, new_keys[i].1),
    )
}

/// What restarts the daemon of the store.
pub open spec fn restart_command(linux: bool) -> Seq<char> {
    if linux {
        "sudo systemctl restart nix-daemon"@
    } else {
        "sudo launchctl kickstart -k system/org.nixos.nix-daemon"@
    }
}

/// The advice to a user whom the store does not trust, on a machine that is
/// configured by files.
pub open spec fn plain_advice(
    username: Seq<char>,
    restart: Seq<char>,
    urls: Seq<char>,
    keys: Seq<char>,
) -> Seq<char> {
    "You're not a trusted user of the Nix store. You have the following options:\n\na) Add yourself to the trusted-users list in /etc/nix/nix.conf for devenv to manage caches for you.\n\ntrusted-users = root "@
        + username + "\n\nRestart nix-daemon with:\n\n  $ "@ + restart
        + "\n\nb) Add binary caches to /etc/nix/nix.conf yourself:\n\nextra-substituters = "@ + urls
        + "\nextra-trusted-public-keys = "@ + keys
        + "\n\nAnd disable automatic cache configuration in `devenv.nix`:\n\n{\n    cachix.enable = false;\n}\n"@
}

/// The advice to a user whom the store does not trust, on a machine that is
/// configured by NixOS.
pub open spec fn nixos_advice(username: Seq<char>, urls: Seq<char>, keys: Seq<char>) -> Seq<char> {
    "You're not a trusted user of the Nix store. You have the following options:\n\na) Add yourself to the trusted-users list in /etc/nix/nix.conf by editing configuration.nix for devenv to manage caches for you.\n\n{\n    nix.extraOptions = ''\n        trusted-users = root "@
        + username
        + "\n    '';\n}\n\nb) Add binary caches to /etc/nix/nix.conf yourself by editing configuration.nix:\n{\n    nix.extraOptions = ''\n        extra-substituters = "@
        + urls + ";\n        extra-trusted-public-keys = "@ + keys
        + ";\n    '';\n}\n\nLastly rebuild your system\n\n$ sudo nixos-rebuild switch\n"@
}

/// The advice to a user whom the store does not trust.
pub open spec fn advice(
    nixos: bool,
    linux: bool,
    username: Seq<char>,
    caches: CachixCachesView,
) -> Seq<char> {
    let urls = joined(pull_urls(caches.caches.pull), " "@);
    let keys = joined(values(caches.known_keys), " "@);
    if nixos {
        nixos_advice(username, urls, keys)
    } else {
        plain_advice(username, restart_command(linux), urls, keys)
    }
}

/// How the search goes on: the stage that it comes to, what is to be done, what
/// the user is told, and the caches that the front end keeps, if it comes to
/// that.
pub struct SearchStep {
    pub stage: SearchStageView,
    pub action: SearchActionView,
    pub notices: Seq<NoticeView>,
    pub kept: Option<CachixCachesView>,
}

impl SearchStep {
    pub open spec fn failed(e: NixErrorView, notices: Seq<NoticeView>) -> SearchStep {
        SearchStep {
            stage: SearchStageView::Finished,
            action: SearchActionView::Fail(e),
            notices,
            kept: None,
        }
    }

    pub open spec fn ready(caches: CachixCachesView) -> SearchStep {
        SearchStep {
            stage: SearchStageView::Finished,
            action: SearchActionView::Ready,
            notices: Seq::empty(),
            kept: Some(caches),
        }
    }
}

impl NixView {
    pub open spec fn ping_request(self) -> RequestView {
        RequestView {
            substituters: false,
            command: "nix"@,
            args: seq!["store"@, "ping"@, "--json"@],
            options: self.options.silent(),
        }
    }

    /// How the search sets out. It is over where the caches are known already.
    pub open spec fn search_begun(self) -> (SearchStageView, SearchActionView) {
        if self.cachix_caches is Some {
            (SearchStageView::Finished, SearchActionView::Ready)
        } else {
            (
                SearchStageView::Evaluating,
                SearchActionView::Evaluate(self.eval_request(seq!["devenv.cachix"@])),
            )
        }
    }

    /// How the search goes on from place `from`: to the next cache whose key is
    /// not known, and when there is none, to the store, unless nothing is pulled
    /// from.
    pub open spec fn fetching(
        self,
        caches: CachixCachesView,
        new_keys: Entries,
        from: nat,
        environment: EnvironmentView,
    ) -> SearchStep {
        let pull = caches.caches.pull;
        let next = next_missing(pull, caches.known_keys, from);
        if next < pull.len() {
            SearchStep {
                stage: SearchStageView::Fetching { caches, new_keys, next },
                action: SearchActionView::Fetch {
                    url: key_url(pull[next as int]),
                    bearer: environment.cachix_auth_token,
                },
                notices: Seq::empty(),
                kept: None,
            }
        } else if pull.len() == 0 {
            SearchStep::ready(caches)
        } else {
            SearchStep {
                stage: SearchStageView::Pinging { caches, new_keys },
                action: SearchActionView::Ping(self.ping_request()),
                notices: Seq::empty(),
                kept: None,
            }
        }
    }

    /// How the search goes on after an event.
    pub open spec fn search_continued(
        self,
        stage: SearchStageView,
        event: SearchEventView,
        environment: EnvironmentView,
    ) -> SearchStep
        recommends
            stage.awaits(event),
    {
        match (stage, event) {
            (_, SearchEventView::EvaluationFailed(e)) => SearchStep::failed(e, Seq::empty()),
            (_, SearchEventView::PingFailed(e)) => SearchStep::failed(e, Seq::empty()),
            (_, SearchEventView::Evaluated(cachix)) => SearchStep {
                stage: SearchStageView::ReadingKeys { cachix },
                action: SearchActionView::ReadKeys { path: self.cachix_trusted_keys },
                notices: Seq::empty(),
                kept: None,
            },
            (
                SearchStageView::ReadingKeys { cachix },
                SearchEventView::KeysRead(known_keys),
            ) => self.fetching(
                CachixCachesView { caches: cachix, known_keys },
                Entries::empty(),
                0,
                environment,
            ),
            (SearchStageView::Fetching { caches, next, .. }, SearchEventView::Refused) =>
                SearchStep::failed(
                NixErrorView::CacheRefused,
                seq![
                    error_notice(
                        "Cache "@ + caches.caches.pull[next as int]
                            + " does not exist or you don't have a CACHIX_AUTH_TOKEN configured."@,
                    ),
                    error_notice("To create a cache, go to https://app.cachix.org/."@),
                ],
            ),
            (
                SearchStageView::Fetching { caches, new_keys, next },
                SearchEventView::Answered { public_signing_keys },
            ) => self.fetching(
                caches,
                bound(new_keys, caches.caches.pull[next as int], public_signing_keys[0]),
                next + 1,
                environment,
            ),
            (
                SearchStageView::Pinging { caches, new_keys },
                SearchEventView::Pinged { trusted },
            ) => SearchStep {
                stage: SearchStageView::Writing {
                    caches: CachixCachesView {
                        known_keys: all_bound(caches.known_keys, new_keys),
                        ..caches
                    },
                    trusted,
                },
                action: SearchActionView::WriteKeys { path: self.cachix_trusted_keys },
                notices: ping_notices(caches.caches.pull, new_keys, trusted),
                kept: None,
            },
            (SearchStageView::Writing { caches, trusted }, SearchEventView::Written) => if trusted
                == Some(0u8) {
                SearchStep {
                    stage: SearchStageView::AskingHost { caches },
                    action: SearchActionView::AskHost { nixos_marker: "/etc/NIXOS"@ },
                    notices: Seq::empty(),
                    kept: None,
                }
            } else {
                SearchStep::ready(caches)
            },
            (
                SearchStageView::AskingHost { caches },
                SearchEventView::HostSeen { nixos, linux, username },
            ) => SearchStep::failed(
                NixErrorView::NotTrusted,
                seq![error_notice(advice(nixos, linux, username, caches))],
            ),
            _ => arbitrary(),
        }
    }

    /// The front end with the caches that a step keeps.
    pub open spec fn keeping(self, kept: Option<CachixCachesView>) -> NixView {
        match kept {
            Some(caches) => NixView { cachix_caches: Some(caches), ..self },
            None => self,
        }
    }
}

/// Everything before the next missing key is known, and it is not.
pub proof fn lemma_next_missing(pull: Seq<Seq<char>>, known: Entries, from: nat)
    requires
        from <= pull.len(),
    ensures
        from <= next_missing(pull, known, from) <= pull.len(),
        forall|j: int|
            from <= j < next_missing(pull, known, from) ==> has_name(known, #[trigger] pull[j]),
        next_missing(pull, known, from) < pull.len() ==> !has_name(
            known,
            pull[next_missing(pull, known, from) as int],
        ),
    decreases pull.len() - from,
{
    if from < pull.len() && has_name(known, pull[from as int]) {
        lemma_next_missing(pull, known, from + 1);
    }
}

/// Going on from sound keys, the search comes to a sound stage, and what it keeps
/// is sound.
proof fn lemma_fetching_sound(
    nix: NixView,
    caches: CachixCachesView,
    new_keys: Entries,
    from: nat,
    environment: EnvironmentView,
)
    requires
        names_once(caches.known_keys),
        names_once(new_keys),
        apart(caches.known_keys, new_keys),
        from <= caches.caches.pull.len(),
        keyed(caches.caches.pull, from as int, caches.known_keys, new_keys),
    ensures
        nix.fetching(caches, new_keys, from, environment).stage.sound(),
        nix.fetching(caches, new_keys, from, environment).kept matches Some(kept) ==> kept.sound(),
{
    lemma_next_missing(caches.caches.pull, caches.known_keys, from);
}

/// A step from a sound stage comes to a sound stage, and what it keeps is sound.
pub proof fn lemma_step_sound(
    nix: NixView,
    stage: SearchStageView,
    event: SearchEventView,
    environment: EnvironmentView,
)
    requires
        stage.sound(),
        stage.awaits(event),
        event matches SearchEventView::KeysRead(keys) ==> names_once(keys),
    ensures
        nix.search_continued(stage, event, environment).stage.sound(),
        nix.search_continued(stage, event, environment).kept matches Some(kept) ==> kept.sound(),
{
    match (stage, event) {
        (SearchStageView::ReadingKeys { cachix }, SearchEventView::KeysRead(known_keys)) => {
            let caches = CachixCachesView { caches: cachix, known_keys };
            assert(apart(known_keys, Entries::empty()));
            lemma_fetching_sound(nix, caches, Entries::empty(), 0, environment);
        },
        (
            SearchStageView::Fetching { caches, new_keys, next },
            SearchEventView::Answered { public_signing_keys },
        ) => {
            let name = caches.caches.pull[next as int];
            let key = public_signing_keys[0];
            let more = bound(new_keys, name, key);
            lemma_bound(new_keys, name, key);
            assert forall|n: Seq<char>| has_name(more, n) == (has_name(new_keys, n) || n
                == name) by {
                assert(as_map(more).dom().contains(n) == as_map(new_keys).insert(
                    name,
                    key,
                ).dom().contains(n));
            }
            assert(keyed(caches.caches.pull, (next + 1) as int, caches.known_keys, more)) by {
                assert forall|j: int| 0 <= j < next + 1 implies has_name(
                    caches.known_keys,
                    #[trigger] caches.caches.pull[j],
                ) || has_name(more, caches.caches.pull[j]) by {}
            }
            lemma_fetching_sound(nix, caches, more, next + 1, environment);
        },
        (SearchStageView::Pinging { caches, new_keys }, SearchEventView::Pinged { trusted }) => {
            let all = all_bound(caches.known_keys, new_keys);
            lemma_all_bound(caches.known_keys, new_keys);
            assert forall|j: int| 0 <= j < caches.caches.pull.len() implies has_name(
                all,
                #[trigger] caches.caches.pull[j],
            ) by {
                let n = caches.caches.pull[j];
                assert(as_map(all).dom().contains(n) == as_map(
                    caches.known_keys,
                ).union_prefer_right(as_map(new_keys)).dom().contains(n));
            }
        },
        _ => {},
    }
}

/// Writes the advice to a user whom the store does not trust.
pub fn write_advice(nixos: bool, linux: bool, username: &str, caches: &CachixCaches) -> (s: String)
    ensures
        s@ == advice(nixos, linux, username@, caches.deep_view()),
{
    let urls = join(&caches.caches.urls(), " ");
    let keys = join(&caches.known_keys.values(), " ");
    if nixos {
        let mut s = String::from_str(
            "You're not a trusted user of the Nix store. You have the following options:\n\na) Add yourself to the trusted-users list in /etc/nix/nix.conf by editing configuration.nix for devenv to manage caches for you.\n\n{\n    nix.extraOptions = ''\n        trusted-users = root ",
        );
        s.append(username);
        s.append(
            "\n    '';\n}\n\nb) Add binary caches to /etc/nix/nix.conf yourself by editing configuration.nix:\n{\n    nix.extraOptions = ''\n        extra-substituters = ",
        );
        s.append(urls.as_str());
        s.append(";\n        extra-trusted-public-keys = ");
        s.append(keys.as_str());
        s.append(
            ";\n    '';\n}\n\nLastly rebuild your system\n\n$ sudo nixos-rebuild switch\n",
        );
        s
    } else {
        let mut s = String::from_str(
            "You're not a trusted user of the Nix store. You have the following options:\n\na) Add yourself to the trusted-users list in /etc/nix/nix.conf for devenv to manage caches for you.\n\ntrusted-users = root ",
        );
        s.append(username);
        s.append("\n\nRestart nix-daemon with:\n\n  $ ");
        if linux {
            s.append("sudo systemctl restart nix-daemon");
        } else {
            s.append("sudo launchctl kickstart -k system/org.nixos.nix-daemon");
        }
        s.append(
            "\n\nb) Add binary caches to /etc/nix/nix.conf yourself:\n\nextra-substituters = ",
        );
        s.append(urls.as_str());
        s.append("\nextra-trusted-public-keys = ");
        s.append(keys.as_str());
        s.append(
            "\n\nAnd disable automatic cache configuration in `devenv.nix`:\n\n{\n    cachix.enable = false;\n}\n",
        );
        s
    }
}

/// Whether the answer to a request for keys is a refusal: its status is one of
/// those that blame the asker.
pub fn is_refusal(status: u16) -> (r: bool)
    ensures
        r == (400 <= status < 500),
{
    400 <= status && status < 500
}

/// Tells the user what follows from the store's answer.
fn report_ping(pull: &Vec<String>, new_keys: &KnownKeys, trusted: Option<u8>, log: &mut Vec<Notice>)
    ensures
        final(log).deep_view() == old(log).deep_view() + ping_notices(
            pull.deep_view(),
            new_keys.deep_view(),
            trusted,
        ),
{
    if trusted.is_none() {
        report(
            log,
            Level::Warn,
            String::from_str(
                "You're using very old version of Nix, please upgrade and restart nix-daemon.",
            ),
        );
    }
    let mut using = String::from_str("Using Cachix: ");
    using.append(join(pull, ", ").as_str());
    report(log, Level::Info, using);
    let ghost so_far = log.deep_view();
    let ghost keys = new_keys.deep_view();
    let ghost rest = Seq::new(keys.len(), |i: int| trusting(keys[i].0, keys[i].1));
    let count: usize = new_keys.len();
    for i in 0..count
        invariant
            count == keys.len(),
            keys == new_keys.deep_view(),
            rest == Seq::new(keys.len(), |i: int| trusting(keys[i].0, keys[i].1)),
            log.deep_view() =~= so_far + rest.take(i as int),
    {
        let (name, key) = new_keys.entry(i);
        let mut text = String::from_str("Trusting ");
        text.append(name);
        text.append(".cachix.org on first use with the public key ");
        text.append(key);
        report(log, Level::Info, text);
        assert(log.deep_view().last() == rest[i as int]);
    }
    assert(rest.take(rest.len() as int) =~= rest);
    assert(log.deep_view() =~= old(log).deep_view() + ping_notices(
        pull.deep_view(),
        new_keys.deep_view(),
        trusted,
    ));
}

impl<'a> Nix<'a> {
    /// Sets out to find the project's caches.
    pub fn get_cachix_caches(&self) -> (r: (SearchStage, SearchAction<'a>))
        ensures
            (r.0.deep_view(), r.1.deep_view()) == self.deep_view().search_begun(),
            r.0.deep_view().sound(),
    {
        if self.cachix_caches.is_some() {
            (SearchStage::Finished, SearchAction::Ready)
        } else {
            let attributes = ["devenv.cachix"];
            assert(attributes.deep_view() =~= seq!["devenv.cachix"@]);
            (SearchStage::Evaluating, SearchAction::Evaluate(self.eval(&attributes)))
        }
    }

    /// Goes on to the next cache whose key is not known, or past them all.
    fn fetch_from(
        &mut self,
        caches: CachixCaches,
        new_keys: KnownKeys,
        from: usize,
        environment: &Environment,
    ) -> (r: (SearchStage, SearchAction<'a>))
        requires
            from <= caches.deep_view().caches.pull.len(),
        ensures
            ({
                let step = old(self).deep_view().fetching(
                    caches.deep_view(),
                    new_keys.deep_view(),
                    from as nat,
                    environment.deep_view(),
                );
                &&& r.0.deep_view() == step.stage
                &&& r.1.deep_view() == step.action
                &&& final(self).deep_view() == old(self).deep_view().keeping(step.kept)
            }),
            !(r.1 is WriteKeys),
    {
        let ghost pull = caches.deep_view().caches.pull;
        let ghost known = caches.deep_view().known_keys;
        let count: usize = caches.caches.pull.len();
        let mut next: usize = from;
        while next < count && caches.known_keys.contains(caches.caches.pull[next].as_str())
            invariant
                pull == caches.deep_view().caches.pull,
                known == caches.deep_view().known_keys,
                count == pull.len(),
                next <= count,
                next_missing(pull, known, from as nat) == next_missing(pull, known, next as nat),
            decreases count - next,
        {
            next = next + 1;
        }
        if next < count {
            let mut url = String::from_str("https://cachix.org/api/v1/cache/");
            url.append(caches.caches.pull[next].as_str());
            let bearer = match &environment.cachix_auth_token {
                Some(token) => Some(token.clone()),
                None => None,
            };
            (
                SearchStage::Fetching { caches, new_keys, next },
                SearchAction::Fetch { url, bearer },
            )
        } else if count == 0 {
            self.cachix_caches = Some(caches);
            (SearchStage::Finished, SearchAction::Ready)
        } else {
            let request = Request {
                substituters: false,
                command: String::from_str("nix"),
                args: owned(&["store", "ping", "--json"]),
                options: self.options.silent(),
            };
            assert(request.deep_view() =~= self.deep_view().ping_request());
            (SearchStage::Pinging { caches, new_keys }, SearchAction::Ping(request))
        }
    }

    /// Leads the search on after an event. Once it is over without a failure, the
    /// front end keeps the caches. Where the key file is to be written, what is
    /// written reads back as all the keys.
    pub fn continue_search(
        &mut self,
        stage: SearchStage,
        event: SearchEvent,
        environment: &Environment,
        log: &mut Vec<Notice>,
    ) -> (r: (SearchStage, SearchAction<'a>))
        requires
            stage.deep_view().awaits(event.deep_view()),
            stage.deep_view().sound(),
        ensures
            ({
                let step = old(self).deep_view().search_continued(
                    stage.deep_view(),
                    event.deep_view(),
                    environment.deep_view(),
                );
                &&& r.0.deep_view() == step.stage
                &&& r.1.deep_view() == step.action
                &&& final(log).deep_view() == old(log).deep_view() + step.notices
                &&& final(self).deep_view() == old(self).deep_view().keeping(step.kept)
            }),
            r.1 matches SearchAction::WriteKeys { contents, .. } ==> r.0.deep_view() matches SearchStageView::Writing {
                caches,
                ..
            } && json_string_map(contents@) == Some(as_map(caches.known_keys)),
            r.0.deep_view().sound(),
    {
        let ghost nix = self.deep_view();
        let ghost told = nix.search_continued(
            stage.deep_view(),
            event.deep_view(),
            environment.deep_view(),
        ).notices;
        proof {
            if let SearchEvent::KeysRead(keys) = &event {
                use_type_invariant(keys);
            }
            lemma_step_sound(nix, stage.deep_view(), event.deep_view(), environment.deep_view());
        }
        match event {
            SearchEvent::EvaluationFailed(e) => {
                assert(log.deep_view() =~= old(log).deep_view() + told);
                (SearchStage::Finished, SearchAction::Fail(e))
            },
            SearchEvent::PingFailed(e) => {
                assert(log.deep_view() =~= old(log).deep_view() + told);
                (SearchStage::Finished, SearchAction::Fail(e))
            },
            SearchEvent::Evaluated(cachix) => {
                assert(log.deep_view() =~= old(log).deep_view() + told);
                let path = self.cachix_trusted_keys.clone();
                (SearchStage::ReadingKeys { cachix }, SearchAction::ReadKeys { path })
            },
            SearchEvent::KeysRead(known_keys) => match stage {
                SearchStage::ReadingKeys { cachix } => {
                    assert(log.deep_view() =~= old(log).deep_view() + told);
                    let caches = CachixCaches { caches: cachix, known_keys };
                    self.fetch_from(caches, KnownKeys::new(), 0, environment)
                },
                _ => unreached(),
            },
            SearchEvent::Refused => match stage {
                SearchStage::Fetching { caches, next, .. } => {
                    let mut text = String::from_str("Cache ");
                    text.append(caches.caches.pull[next].as_str());
                    text.append(
                        " does not exist or you don't have a CACHIX_AUTH_TOKEN configured.",
                    );
                    report(log, Level::Error, text);
                    report(
                        log,
                        Level::Error,
                        String::from_str("To create a cache, go to https://app.cachix.org/."),
                    );
                    assert(log.deep_view() =~= old(log).deep_view() + told);
                    (SearchStage::Finished, SearchAction::Fail(NixError::CacheRefused))
                },
                _ => unreached(),
            },
            SearchEvent::Answered { public_signing_keys } => match stage {
                SearchStage::Fetching { caches, new_keys, next } => {
                    assert(log.deep_view() =~= old(log).deep_view() + told);
                    let count: usize = caches.caches.pull.len();
                    assert(next < count);
                    let mut more = new_keys;
                    more.insert(
                        caches.caches.pull[next].as_str(),
                        public_signing_keys[0].as_str(),
                    );
                    self.fetch_from(caches, more, next + 1, environment)
                },
                _ => unreached(),
            },
            SearchEvent::Pinged { trusted } => match stage {
                SearchStage::Pinging { caches, new_keys } => {
                    report_ping(&caches.caches.pull, &new_keys, trusted, log);
                    let mut known_keys = caches.known_keys;
                    known_keys.extend(&new_keys);
                    let contents = known_keys.to_json();
                    let caches = CachixCaches { caches: caches.caches, known_keys };
                    let path = self.cachix_trusted_keys.clone();
                    (
                        SearchStage::Writing { caches, trusted },
                        SearchAction::WriteKeys { path, contents },
                    )
                },
                _ => unreached(),
            },
            SearchEvent::Written => match stage {
                SearchStage::Writing { caches, trusted } => {
                    assert(log.deep_view() =~= old(log).deep_view() + told);
                    if trusted == Some(0u8) {
                        let nixos_marker = String::from_str("/etc/NIXOS");
                        (SearchStage::AskingHost { caches }, SearchAction::AskHost { nixos_marker })
                    } else {
                        self.cachix_caches = Some(caches);
                        (SearchStage::Finished, SearchAction::Ready)
                    }
                },
                _ => unreached(),
            },
            SearchEvent::HostSeen { nixos, linux, username } => match stage {
                SearchStage::AskingHost { caches } => {
                    report(
                        log,
                        Level::Error,
                        write_advice(nixos, linux, username.as_str(), &caches),
                    );
                    assert(log.deep_view() =~= old(log).deep_view() + told);
                    (SearchStage::Finished, SearchAction::Fail(NixError::NotTrusted))
                },
                _ => unreached(),
            },
        }
    }
}

} // verus!
