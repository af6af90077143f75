//! What holds of every search for caches, from its beginning on.
use vstd::prelude::*;

use crate::caches::{CachixCachesView, CachixView};
use crate::cachix::{
    key_url, lemma_next_missing, lemma_step_sound, next_missing, SearchActionView,
    SearchEventView, SearchStageView, SearchStep,
};
use crate::error::NixErrorView;
use crate::keys::{
    all_bound, as_map, bound, has_name, json_string_map, lemma_all_bound, lemma_bound, names_once,
    Entries,
};
use crate::nix::NixView;
use crate::options::EnvironmentView;

verus! {

/// One event of a search, and the process environment at that time.
pub struct Moment {
    pub event: SearchEventView,
    pub environment: EnvironmentView,
}

impl NixView {
    /// The step that a search takes at a stage.
    pub open spec fn search_step(self, stage: SearchStageView, moment: Moment) -> SearchStep {
        self.search_continued(stage, moment.event, moment.environment)
    }

    /// Whether a search passes through these stages, led on by these moments.
    pub open spec fn searches(
        self,
        stages: Seq<SearchStageView>,
        moments: Seq<Moment>,
    ) -> bool {
        &&& stages.len() == moments.len() + 1
        &&& stages[0] == self.search_begun().0
        &&& forall|i: int|
            0 <= i < moments.len() ==> (#[trigger] stages[i]).awaits(moments[i].event)
        &&& forall|i: int|
            0 <= i < moments.len() ==> ((#[trigger] moments[i]).event matches SearchEventView::KeysRead(
                keys,
            ) ==> names_once(keys))
        &&& forall|i: int|
            0 <= i < moments.len() ==> stages[i + 1] == (#[trigger] self.search_step(
                stages[i],
                moments[i],
            )).stage
    }
}

/// What the project said of its caches when it was evaluated, at the first moment.
pub open spec fn wanted(moments: Seq<Moment>) -> CachixView {
    moments[0].event->Evaluated_0
}

/// What the key file held when it was read, at the second moment.
pub open spec fn filed(moments: Seq<Moment>) -> Entries {
    moments[1].event->KeysRead_0
}

/// The keys that are known at a stage, where there are any yet.
pub open spec fn known_at(stage: SearchStageView) -> Option<Entries> {
    match stage {
        SearchStageView::Fetching { caches, .. } => Some(caches.known_keys),
        SearchStageView::Pinging { caches, .. } => Some(caches.known_keys),
        SearchStageView::Writing { caches, .. } => Some(caches.known_keys),
        SearchStageView::AskingHost { caches } => Some(caches.known_keys),
        _ => None,
    }
}

/// The keys that were learned up to a stage and are not known yet.
pub open spec fn learned_at(stage: SearchStageView) -> Entries {
    match stage {
        SearchStageView::Fetching { new_keys, .. } => new_keys,
        SearchStageView::Pinging { new_keys, .. } => new_keys,
        _ => Entries::empty(),
    }
}

/// The cache whose key is asked for at a stage.
pub open spec fn asked_at(stage: SearchStageView) -> Option<Seq<char>> {
    match stage {
        SearchStageView::Fetching { caches, next, .. } => Some(caches.caches.pull[next as int]),
        _ => None,
    }
}

/// Whether, before moment `n`, the cache was asked for its key and answered with
/// this one in front.
pub open spec fn answered(
    stages: Seq<SearchStageView>,
    moments: Seq<Moment>,
    n: int,
    name: Seq<char>,
    key: Seq<char>,
) -> bool {
    exists|i: int|
        0 <= i < n && asked_at(#[trigger] stages[i]) == Some(name) && (moments[i].event matches SearchEventView::Answered {
            public_signing_keys,
        } && public_signing_keys.len() > 0 && public_signing_keys[0] == key)
}

/// Whether every key of `entries` was read from the key file or answered by its
/// cache before moment `n`.
pub open spec fn vouched(
    entries: Entries,
    keys: Entries,
    stages: Seq<SearchStageView>,
    moments: Seq<Moment>,
    n: int,
) -> bool {
    forall|name: Seq<char>| #[trigger]
        as_map(entries).contains_key(name) ==> {
            ||| as_map(keys).contains_key(name) && as_map(keys)[name] == as_map(entries)[name]
            ||| answered(stages, moments, n, name, as_map(entries)[name])
        }
}

/// Whether every key of `entries` was answered by its cache before moment `n`.
pub open spec fn all_answered(
    entries: Entries,
    stages: Seq<SearchStageView>,
    moments: Seq<Moment>,
    n: int,
) -> bool {
    forall|name: Seq<char>| #[trigger]
        as_map(entries).contains_key(name) ==> answered(
            stages,
            moments,
            n,
            name,
            as_map(entries)[name],
        )
}

proof fn lemma_answered_later(
    stages: Seq<SearchStageView>,
    moments: Seq<Moment>,
    n: int,
    m: int,
    name: Seq<char>,
    key: Seq<char>,
)
    requires
        n <= m,
        answered(stages, moments, n, name, key),
    ensures
        answered(stages, moments, m, name, key),
{
    let i = choose|i: int|
        0 <= i < n && asked_at(#[trigger] stages[i]) == Some(name) && (moments[i].event matches SearchEventView::Answered {
            public_signing_keys,
        } && public_signing_keys.len() > 0 && public_signing_keys[0] == key);
    assert(asked_at(stages[i]) == Some(name));
}

/// What is shown of every stage, moment by moment.
spec fn stage_invariant(
    stages: Seq<SearchStageView>,
    moments: Seq<Moment>,
    n: int,
) -> bool {
    &&& stages[n].sound()
    &&& known_at(stages[n]) matches Some(known) ==> {
        &&& as_map(filed(moments)).submap_of(as_map(known))
        &&& vouched(known, filed(moments), stages, moments, n)
    }
    &&& all_answered(learned_at(stages[n]), stages, moments, n)
}

proof fn lemma_stages(
    nix: NixView,
    stages: Seq<SearchStageView>,
    moments: Seq<Moment>,
    n: int,
)
    requires
        nix.searches(stages, moments),
        0 <= n <= moments.len(),
    ensures
        stage_invariant(stages, moments, n),
    decreases n,
{
    if n == 0 {
        assert(as_map(learned_at(stages[0])).dom() =~= Set::<Seq<char>>::empty());
    } else {
        let m = n - 1;
        let keys = filed(moments);
        lemma_stages(nix, stages, moments, m);
        let stage = stages[m];
        let event = moments[m].event;
        let step = nix.search_step(stage, moments[m]);
        assert(stage.awaits(event));
        assert(stages[m + 1] == step.stage);
        lemma_order(nix, stages, moments, m);
        lemma_step_sound(nix, stage, event, moments[m].environment);
        assert(as_map(Entries::empty()).dom() =~= Set::<Seq<char>>::empty());
        match (stage, event) {
            (
                SearchStageView::Fetching { caches, new_keys, next },
                SearchEventView::Answered { public_signing_keys },
            ) => {
                let name = caches.caches.pull[next as int];
                let key = public_signing_keys[0];
                lemma_bound(new_keys, name, key);
                let more = bound(new_keys, name, key);
                assert(asked_at(stages[m]) == Some(name));
                assert(answered(stages, moments, n, name, key));
                assert forall|other: Seq<char>| #[trigger]
                    as_map(more).contains_key(other) implies answered(
                    stages,
                    moments,
                    n,
                    other,
                    as_map(more)[other],
                ) by {
                    if other != name {
                        assert(as_map(new_keys).contains_key(other));
                        lemma_answered_later(
                            stages,
                            moments,
                            m,
                            n,
                            other,
                            as_map(new_keys)[other],
                        );
                    }
                }
            },
            (SearchStageView::Pinging { caches, new_keys }, SearchEventView::Pinged { .. }) => {
                let all = all_bound(caches.known_keys, new_keys);
                lemma_all_bound(caches.known_keys, new_keys);
                assert forall|name: Seq<char>| as_map(keys).contains_key(name) implies as_map(
                    all,
                ).contains_key(name) && as_map(all)[name] == as_map(keys)[name] by {
                    assert(as_map(caches.known_keys).contains_key(name));
                    assert(has_name(caches.known_keys, name));
                    assert(!has_name(new_keys, name));
                }
                assert(as_map(keys).submap_of(as_map(all)));
                assert forall|name: Seq<char>| #[trigger] as_map(all).contains_key(name) implies {
                    ||| as_map(keys).contains_key(name) && as_map(keys)[name] == as_map(all)[name]
                    ||| answered(stages, moments, n, name, as_map(all)[name])
                } by {
                    if as_map(new_keys).contains_key(name) {
                        lemma_answered_later(stages, moments, m, n, name, as_map(new_keys)[name]);
                    } else {
                        assert(as_map(caches.known_keys).contains_key(name));
                        if answered(stages, moments, m, name, as_map(caches.known_keys)[name]) {
                            lemma_answered_later(
                                stages,
                                moments,
                                m,
                                n,
                                name,
                                as_map(caches.known_keys)[name],
                            );
                        }
                    }
                }
            },
            _ => {},
        }
        if let Some(known) = known_at(stages[n]) {
            if known_at(stages[m]) == Some(known) {
                assert forall|name: Seq<char>| #[trigger] as_map(known).contains_key(name) implies {
                    ||| as_map(keys).contains_key(name) && as_map(keys)[name] == as_map(known)[name]
                    ||| answered(stages, moments, n, name, as_map(known)[name])
                } by {
                    if answered(stages, moments, m, name, as_map(known)[name]) {
                        lemma_answered_later(stages, moments, m, n, name, as_map(known)[name]);
                    }
                }
            }
        }
    }
}

/// The project is evaluated at the first moment and the key file is read at the
/// second; the caches that the search is about do not change.
proof fn lemma_order(
    nix: NixView,
    stages: Seq<SearchStageView>,
    moments: Seq<Moment>,
    n: int,
)
    requires
        nix.searches(stages, moments),
        0 <= n <= moments.len(),
    ensures
        match stages[n] {
            SearchStageView::Evaluating => n == 0,
            SearchStageView::ReadingKeys { cachix } => n == 1 && moments[0].event
                == SearchEventView::Evaluated(cachix),
            SearchStageView::Fetching { caches, .. } => both_answered(moments, n, caches),
            SearchStageView::Pinging { caches, .. } => both_answered(moments, n, caches),
            SearchStageView::Writing { caches, .. } => both_answered(moments, n, caches),
            SearchStageView::AskingHost { caches } => both_answered(moments, n, caches),
            SearchStageView::Finished => true,
        },
    decreases n,
{
    if n > 0 {
        let m = n - 1;
        lemma_order(nix, stages, moments, m);
        assert(stages[m].awaits(moments[m].event));
        assert(stages[m + 1] == nix.search_step(stages[m], moments[m]).stage);
    }
}

/// Whether, before moment `n`, the project has named the caches and the key file
/// has been read.
spec fn both_answered(moments: Seq<Moment>, n: int, caches: CachixCachesView) -> bool {
    &&& n >= 2
    &&& moments[0].event == SearchEventView::Evaluated(caches.caches)
    &&& moments[1].event is KeysRead
}

/// Trust on first use. Whatever a search goes through, a key that the file held
/// when it was read is never replaced, and every key that the front end comes to
/// keep was in the file or was the first that its cache gave when it was asked.
pub proof fn law_trust_on_first_use(
    nix: NixView,
    stages: Seq<SearchStageView>,
    moments: Seq<Moment>,
    n: int,
    kept: CachixCachesView,
)
    requires
        nix.searches(stages, moments),
        0 <= n < moments.len(),
        nix.search_step(stages[n], moments[n]).kept == Some(kept),
    ensures
        n >= 1,
        moments[1].event is KeysRead,
        as_map(filed(moments)).submap_of(as_map(kept.known_keys)),
        vouched(kept.known_keys, filed(moments), stages, moments, n),
{
    lemma_stages(nix, stages, moments, n);
    lemma_order(nix, stages, moments, n);
    assert(stages[n].awaits(moments[n].event));
    lemma_kept_is_known(nix, stages, moments, n, kept);
}

/// What is kept are the keys that were known, or those just read.
proof fn lemma_kept_is_known(
    nix: NixView,
    stages: Seq<SearchStageView>,
    moments: Seq<Moment>,
    n: int,
    kept: CachixCachesView,
)
    requires
        nix.searches(stages, moments),
        0 <= n < moments.len(),
        nix.search_step(stages[n], moments[n]).kept == Some(kept),
    ensures
        n == 1 && kept.known_keys == filed(moments) || known_at(stages[n]) == Some(
            kept.known_keys,
        ),
        moments[0].event == SearchEventView::Evaluated(kept.caches),
        kept.sound(),
{
    lemma_stages(nix, stages, moments, n);
    lemma_order(nix, stages, moments, n);
    assert(stages[n].awaits(moments[n].event));
    lemma_step_sound(nix, stages[n], moments[n].event, moments[n].environment);
}

/// What a search keeps is what the project named, and it is complete: every cache
/// that is pulled from has a key, and no cache has two.
pub proof fn law_kept_caches_have_keys(
    nix: NixView,
    stages: Seq<SearchStageView>,
    moments: Seq<Moment>,
    n: int,
    kept: CachixCachesView,
)
    requires
        nix.searches(stages, moments),
        0 <= n < moments.len(),
        nix.search_step(stages[n], moments[n]).kept == Some(kept),
    ensures
        moments[0].event == SearchEventView::Evaluated(kept.caches),
        names_once(kept.known_keys),
        forall|name: Seq<char>|
            kept.caches.pull.contains(name) ==> #[trigger] as_map(kept.known_keys).contains_key(
                name,
            ),
{
    lemma_kept_is_known(nix, stages, moments, n, kept);
    let pull = kept.caches.pull;
    assert forall|name: Seq<char>| pull.contains(name) implies #[trigger] as_map(
        kept.known_keys,
    ).contains_key(name) by {
        let j = choose|j: int| 0 <= j < pull.len() && pull[j] == name;
        assert(has_name(kept.known_keys, pull[j]));
    }
}

/// A user whom the store does not trust gets no caches: once the store has said
/// so, the front end keeps nothing, and when the search is over it has failed for
/// that reason.
pub proof fn law_untrusted_users_get_no_caches(
    nix: NixView,
    stages: Seq<SearchStageView>,
    moments: Seq<Moment>,
    n: int,
    m: int,
)
    requires
        nix.searches(stages, moments),
        0 <= n < moments.len(),
        moments[n].event == (SearchEventView::Pinged { trusted: Some(0u8) }),
        0 <= m < moments.len(),
    ensures
        nix.search_step(stages[m], moments[m]).kept is None,
        m >= n && stages[m + 1] is Finished ==> nix.search_step(stages[m], moments[m]).action
            == SearchActionView::Fail(NixErrorView::NotTrusted),
{
    let step = nix.search_step(stages[m], moments[m]);
    assert(stages[m].awaits(moments[m].event));
    assert(stages[m + 1] == step.stage);
    if m < n {
        assert(stages[m + 1].awaits(moments[m + 1].event));
    } else {
        lemma_after_distrust(nix, stages, moments, n, m + 1);
        if m > n {
            lemma_after_distrust(nix, stages, moments, n, m);
            assert(stages[m].awaits(moments[m].event));
        } else {
            assert(stages[n].awaits(moments[n].event));
        }
    }
}

/// After the store's refusal there is nothing but the refusal.
proof fn lemma_after_distrust(
    nix: NixView,
    stages: Seq<SearchStageView>,
    moments: Seq<Moment>,
    n: int,
    m: int,
)
    requires
        nix.searches(stages, moments),
        0 <= n < moments.len(),
        moments[n].event == (SearchEventView::Pinged { trusted: Some(0u8) }),
        n < m <= moments.len(),
    ensures
        match stages[m] {
            SearchStageView::Writing { trusted, .. } => trusted == Some(0u8),
            SearchStageView::AskingHost { .. } => true,
            SearchStageView::Finished => true,
            _ => false,
        },
    decreases m,
{
    let k = m - 1;
    assert(stages[k].awaits(moments[k].event));
    assert(stages[k + 1] == nix.search_step(stages[k], moments[k]).stage);
    if k > n {
        lemma_after_distrust(nix, stages, moments, n, k);
    }
}

/// The failure that an event brings upon a search, where it brings one: the
/// project cannot be evaluated, a cache refuses, the store does not answer, or it
/// does not trust the user.
pub open spec fn failure_of(event: SearchEventView) -> Option<NixErrorView> {
    match event {
        SearchEventView::EvaluationFailed(e) => Some(e),
        SearchEventView::Refused => Some(NixErrorView::CacheRefused),
        SearchEventView::PingFailed(e) => Some(e),
        SearchEventView::Pinged { trusted } => if trusted == Some(0u8) {
            Some(NixErrorView::NotTrusted)
        } else {
            None
        },
        _ => None,
    }
}

/// Where the store's answer is remembered, it was given two moments before at
/// most.
proof fn lemma_store_said(
    nix: NixView,
    stages: Seq<SearchStageView>,
    moments: Seq<Moment>,
    n: int,
)
    requires
        nix.searches(stages, moments),
        0 <= n <= moments.len(),
    ensures
        stages[n] matches SearchStageView::Writing { trusted, .. } ==> n >= 1 && moments[n - 1].event
            == (SearchEventView::Pinged { trusted }),
        stages[n] is AskingHost ==> n >= 2 && moments[n - 2].event == (SearchEventView::Pinged {
            trusted: Some(0u8),
        }),
    decreases n,
{
    if n > 0 {
        let m = n - 1;
        lemma_store_said(nix, stages, moments, m);
        assert(stages[m].awaits(moments[m].event));
        assert(stages[m + 1] == nix.search_step(stages[m], moments[m]).stage);
    }
}

/// Every search that is over either has its caches or has failed. It failed
/// exactly where the project could not be evaluated, a cache refused, the store
/// did not answer or did not trust the user, and then with the failure that goes
/// with it. It keeps the caches exactly where it did not fail.
pub proof fn law_searches_fail_for_a_reason(
    nix: NixView,
    stages: Seq<SearchStageView>,
    moments: Seq<Moment>,
    e: NixErrorView,
)
    requires
        nix.searches(stages, moments),
        moments.len() > 0,
        stages[moments.len() as int] is Finished,
    ensures
        ({
            let last = nix.search_step(stages[moments.len() - 1], moments.last());
            &&& last.action == SearchActionView::Fail(e) <==> exists|i: int|
                0 <= i < moments.len() && failure_of((#[trigger] moments[i]).event) == Some(e)
            &&& last.action is Ready <==> forall|i: int|
                0 <= i < moments.len() ==> failure_of((#[trigger] moments[i]).event) is None
            &&& last.action is Ready || last.action is Fail
            &&& last.action is Ready <==> last.kept is Some
        }),
{
    let n = moments.len() - 1;
    let last = nix.search_step(stages[n], moments[n]);
    assert(stages[n].awaits(moments[n].event));
    assert(stages[n + 1] == last.stage);
    lemma_store_said(nix, stages, moments, n);
    assert forall|i: int| 0 <= i < moments.len() && failure_of(
        (#[trigger] moments[i]).event,
    ) is Some implies last.action == SearchActionView::Fail(
        failure_of(moments[i].event)->0,
    ) by {
        assert(stages[i].awaits(moments[i].event));
        assert(stages[i + 1] == nix.search_step(stages[i], moments[i]).stage);
        if moments[i].event == (SearchEventView::Pinged { trusted: Some(0u8) }) {
            law_untrusted_users_get_no_caches(nix, stages, moments, i, n);
        } else if i < n {
            assert(stages[i + 1].awaits(moments[i + 1].event));
        }
    }
    if let SearchActionView::Fail(reason) = last.action {
        if stages[n] is AskingHost {
            assert(failure_of(moments[n - 2].event) == Some(reason));
        } else {
            assert(failure_of(moments[n].event) == Some(reason));
        }
    }
}

/// How far on a stage stands.
spec fn rank(stage: SearchStageView) -> int {
    match stage {
        SearchStageView::Evaluating => 0,
        SearchStageView::ReadingKeys { .. } => 1,
        SearchStageView::Fetching { .. } => 2,
        SearchStageView::Pinging { .. } => 3,
        SearchStageView::Writing { .. } => 4,
        SearchStageView::AskingHost { .. } => 5,
        SearchStageView::Finished => 6,
    }
}

/// A search does not go back.
proof fn lemma_onward(
    nix: NixView,
    stages: Seq<SearchStageView>,
    moments: Seq<Moment>,
    n: int,
    m: int,
)
    requires
        nix.searches(stages, moments),
        0 <= n <= m <= moments.len(),
    ensures
        rank(stages[n]) <= rank(stages[m]),
    decreases m,
{
    if n < m {
        lemma_onward(nix, stages, moments, n, m - 1);
        assert(stages[m - 1].awaits(moments[m - 1].event));
        assert(stages[m] == nix.search_step(stages[m - 1], moments[m - 1]).stage);
    }
}

/// A search in which a cache refuses is over with that, and it neither asks the
/// store nor writes the key file.
pub proof fn law_refused_searches_write_nothing(
    nix: NixView,
    stages: Seq<SearchStageView>,
    moments: Seq<Moment>,
    n: int,
    m: int,
)
    requires
        nix.searches(stages, moments),
        0 <= n < moments.len(),
        moments[n].event is Refused,
        0 <= m < moments.len(),
    ensures
        n == moments.len() - 1,
        !(nix.search_step(stages[m], moments[m]).action is Ping),
        !(nix.search_step(stages[m], moments[m]).action is WriteKeys),
{
    assert(stages[n].awaits(moments[n].event));
    assert(stages[n + 1] == nix.search_step(stages[n], moments[n]).stage);
    if n + 1 < moments.len() {
        assert(stages[n + 1].awaits(moments[n + 1].event));
    }
    assert(stages[m].awaits(moments[m].event));
    assert(stages[m + 1] == nix.search_step(stages[m], moments[m]).stage);
    if m < n {
        lemma_onward(nix, stages, moments, m + 1, n);
    }
}

/// How many steps a search can still take, once the project was evaluated.
pub open spec fn steps_left(stage: SearchStageView) -> int {
    match stage {
        SearchStageView::Evaluating => 0,
        SearchStageView::ReadingKeys { cachix } => (cachix.pull.len() + 4) as int,
        SearchStageView::Fetching { caches, next, .. } => caches.caches.pull.len() - next + 3,
        SearchStageView::Pinging { .. } => 3,
        SearchStageView::Writing { .. } => 2,
        SearchStageView::AskingHost { .. } => 1,
        SearchStageView::Finished => 0,
    }
}

/// Every search comes to an end: it takes at most five steps more than there are
/// caches, and one step where the project cannot be evaluated.
pub proof fn law_searches_end(
    nix: NixView,
    stages: Seq<SearchStageView>,
    moments: Seq<Moment>,
)
    requires
        nix.searches(stages, moments),
    ensures
        moments.len() > 0 && moments[0].event is Evaluated ==> moments.len() <= wanted(
            moments,
        ).pull.len() + 5,
        moments.len() > 0 && !(moments[0].event is Evaluated) ==> moments.len() == 1,
{
    if moments.len() > 0 {
        assert(stages[0].awaits(moments[0].event));
        assert(stages[1] == nix.search_step(stages[0], moments[0]).stage);
        lemma_order(nix, stages, moments, 0);
        if moments[0].event is Evaluated {
            lemma_steps_left(nix, stages, moments, moments.len() as int);
            lemma_stages(nix, stages, moments, moments.len() as int);
        } else if moments.len() > 1 {
            assert(stages[1].awaits(moments[1].event));
        }
    }
}

proof fn lemma_steps_left(
    nix: NixView,
    stages: Seq<SearchStageView>,
    moments: Seq<Moment>,
    n: int,
)
    requires
        nix.searches(stages, moments),
        1 <= n <= moments.len(),
        moments[0].event is Evaluated,
    ensures
        steps_left(stages[n]) + n <= wanted(moments).pull.len() + 5,
    decreases n,
{
    let m = n - 1;
    lemma_order(nix, stages, moments, m);
    assert(stages[m].awaits(moments[m].event));
    assert(stages[m + 1] == nix.search_step(stages[m], moments[m]).stage);
    if m > 0 {
        lemma_steps_left(nix, stages, moments, m);
        lemma_stages(nix, stages, moments, m);
        assert(stages[m].awaits(moments[m].event));
        assert(stages[m + 1] == nix.search_step(stages[m], moments[m]).stage);
        match (stages[m], moments[m].event) {
            (SearchStageView::ReadingKeys { cachix }, SearchEventView::KeysRead(known)) => {
                lemma_next_missing(cachix.pull, known, 0);
            },
            (
                SearchStageView::Fetching { caches, next, .. },
                SearchEventView::Answered { .. },
            ) => {
                lemma_next_missing(caches.caches.pull, caches.known_keys, next + 1);
            },
            _ => {},
        }
    }
}

/// A cache is asked for its key only where the key file has none for it.
pub proof fn law_only_unknown_keys_are_asked_for(
    nix: NixView,
    stages: Seq<SearchStageView>,
    moments: Seq<Moment>,
    n: int,
    url: Seq<char>,
    bearer: Option<Seq<char>>,
)
    requires
        nix.searches(stages, moments),
        0 <= n < moments.len(),
        nix.search_step(stages[n], moments[n]).action == (SearchActionView::Fetch { url, bearer }),
    ensures
        bearer == moments[n].environment.cachix_auth_token,
        moments[0].event is Evaluated,
        moments[1].event is KeysRead,
        exists|name: Seq<char>|
            wanted(moments).pull.contains(name) && !as_map(filed(moments)).contains_key(name)
                && url == #[trigger] key_url(name),
{
    lemma_stages(nix, stages, moments, n + 1);
    lemma_order(nix, stages, moments, n + 1);
    assert(stages[n].awaits(moments[n].event));
    assert(stages[n + 1] == nix.search_step(stages[n], moments[n]).stage);
    match stages[n + 1] {
        SearchStageView::Fetching { caches, next, .. } => {
            let name = caches.caches.pull[next as int];
            assert(wanted(moments).pull.contains(name));
            assert(!has_name(caches.known_keys, name));
            assert(!as_map(caches.known_keys).contains_key(name));
            assert(url == key_url(name));
        },
        _ => {},
    }
}

/// The key file gives back what was written to it: keys that are read from a text
/// that stands for `written` are the keys of `written`.
pub proof fn law_keys_are_read_back(json: Seq<char>, written: Entries, read: Entries)
    requires
        json_string_map(json) == Some(as_map(written)),
        json_string_map(json) == Some(as_map(read)),
    ensures
        as_map(read) == as_map(written),
{
}

/// A key is asked for once: a later search for the same caches that reads back the
/// keys of a search that was completed asks no cache for its key.
pub proof fn law_keys_are_asked_for_once(
    nix: NixView,
    kept: CachixCachesView,
    read: Entries,
    environment: EnvironmentView,
)
    requires
        kept.sound(),
        as_map(read) == as_map(kept.known_keys),
    ensures
        nix.search_continued(
            SearchStageView::ReadingKeys { cachix: kept.caches },
            SearchEventView::KeysRead(read),
            environment,
        ).action == if kept.caches.pull.len() == 0 {
            SearchActionView::Ready
        } else {
            SearchActionView::Ping(nix.ping_request())
        },
{
    let pull = kept.caches.pull;
    lemma_next_missing(pull, read, 0);
    let next = next_missing(pull, read, 0);
    if next < pull.len() {
        assert(has_name(kept.known_keys, pull[next as int]));
        assert(as_map(kept.known_keys).contains_key(pull[next as int]));
        assert(as_map(read).contains_key(pull[next as int]));
    }
}

/// A second search for caches that are kept already does nothing.
pub proof fn law_caches_are_searched_for_once(nix: NixView, caches: CachixCachesView)
    ensures
        nix.keeping(Some(caches)).search_begun() == (
            SearchStageView::Finished,
            SearchActionView::Ready,
        ),
{
}

/// A search that fails leaves the front end as it was.
pub proof fn law_failed_searches_keep_nothing(
    nix: NixView,
    stage: SearchStageView,
    event: SearchEventView,
    environment: EnvironmentView,
)
    requires
        stage.awaits(event),
        nix.search_continued(stage, event, environment).action is Fail,
    ensures
        nix.keeping(nix.search_continued(stage, event, environment).kept) == nix,
{
}

} // verus!
