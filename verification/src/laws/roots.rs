//! What holds of every root that is kept, and of every path that is given up.
use vstd::prelude::*;

use crate::command::CommandView;
use crate::error::NixErrorView;
use crate::keeping::{RootActionView, RootEventView, RootStageView};
use crate::laws::commands::{law_commands_hold_nothing_else, own_args_start};
use crate::laws::names::law_paths_are_deleted_once;
use crate::nix::NixView;
use crate::notice::{Level, NoticeView};
use crate::options::EnvironmentView;
use crate::path::path_under;
use crate::requests::OutcomeView;
use crate::roots::{
    known_once, link_steps, GcActionView, GcEventView, GcStageView, GcTurn, LinkStepView,
};

verus! {

impl NixView {
    /// Whether an operation that sets out at the first of these stages passes
    /// through them, led on by these events.
    pub open spec fn keeps_root(
        self,
        stages: Seq<RootStageView>,
        events: Seq<RootEventView>,
    ) -> bool {
        &&& stages.len() == events.len() + 1
        &&& forall|i: int| 0 <= i < events.len() ==> (#[trigger] stages[i]).awaits(events[i])
        &&& forall|i: int|
            0 <= i < events.len() ==> stages[i + 1] == (#[trigger] self.root_continued(
                stages[i],
                events[i],
            )).0
    }

    /// Whether paths are given up in these turns, between which the deletions end
    /// in these events, and at which the process environment is this.
    pub open spec fn gives_up(
        self,
        paths: Seq<Option<Seq<char>>>,
        turns: Seq<GcTurn>,
        events: Seq<GcEventView>,
        environments: Seq<EnvironmentView>,
    ) -> bool {
        &&& turns.len() == events.len() + 1
        &&& turns.len() == environments.len()
        &&& turns[0] == self.gc_begun(paths, environments[0])
        &&& forall|i: int| 0 <= i < events.len() ==> (#[trigger] turns[i]).stage.deletes()
        &&& forall|i: int|
            0 <= i < events.len() ==> turns[i + 1] == #[trigger] self.gc_continued(
                turns[i].stage,
                events[i],
                environments[i + 1],
            )
    }
}

/// How the evaluation of a development environment goes, as long as it goes on.
proof fn lemma_dev_env(
    nix: NixView,
    gc_root: Seq<char>,
    stages: Seq<RootStageView>,
    events: Seq<RootEventView>,
    n: int,
)
    requires
        nix.keeps_root(stages, events),
        stages[0] == (RootStageView::Evaluating { gc_root }),
        0 <= n <= events.len(),
    ensures
        n <= 5,
        match stages[n] {
            RootStageView::Evaluating { gc_root: g } => n == 0 && g == gc_root,
            RootStageView::Tidying { gc_root: g, output } => n == 1 && g == gc_root && events[0]
                == RootEventView::Ended(OutcomeView::Performed(output)),
            RootStageView::NamingShell { gc_root: g, output } => n == 2 && g == gc_root && events[0]
                == RootEventView::Ended(OutcomeView::Performed(output)) && (
            events[1] matches RootEventView::Ended(outcome) && outcome is Performed),
            RootStageView::Resolving { target, output } => n == 3 && events[0]
                == RootEventView::Ended(OutcomeView::Performed(output)) && (
            events[1] matches RootEventView::Ended(outcome) && outcome is Performed) && (
            events[2] matches RootEventView::Timed { now } && target == nix.shell_link(now)),
            RootStageView::Linking { output } => n == 4 && events[0] == RootEventView::Ended(
                OutcomeView::Performed(output),
            ) && (events[1] matches RootEventView::Ended(outcome) && outcome is Performed),
            RootStageView::Finished => true,
            _ => false,
        },
    decreases n,
{
    if n > 0 {
        let m = n - 1;
        lemma_dev_env(nix, gc_root, stages, events, m);
        assert(stages[m].awaits(events[m]));
        assert(stages[m + 1] == nix.root_continued(stages[m], events[m]).0);
    }
}

/// The development environment is kept in order: its older generations are
/// dropped only once it is evaluated, the shell is linked to only once they are
/// dropped, the link goes from the place that the time names to what the root
/// stands for, and only once it stands is the operation a success. What it then
/// hands out is what the evaluation left behind.
pub proof fn law_environments_are_kept_in_order(
    nix: NixView,
    gc_root: Seq<char>,
    stages: Seq<RootStageView>,
    events: Seq<RootEventView>,
    n: int,
)
    requires
        nix.keeps_root(stages, events),
        stages[0] == (RootStageView::Evaluating { gc_root }),
        0 <= n < events.len(),
    ensures
        match nix.root_continued(stages[n], events[n]).1 {
            RootActionView::Perform(request) => n == 0 && request == nix.tidy_request(gc_root) && (
            events[0] matches RootEventView::Ended(outcome) && outcome is Performed),
            RootActionView::AskTime => n == 1 && (events[1] matches RootEventView::Ended(
                outcome,
            ) && outcome is Performed),
            RootActionView::Resolve { path } => n == 2 && path == gc_root,
            RootActionView::Link { link_path, target } => n == 3 && (
            events[1] matches RootEventView::Ended(outcome) && outcome is Performed) && (
            events[2] matches RootEventView::Timed { now } && target == nix.shell_link(now))
                && events[3] == (RootEventView::Resolved { path: link_path }),
            RootActionView::Succeed(output) => n == 4 && events[0] == RootEventView::Ended(
                OutcomeView::Performed(output),
            ) && (events[1] matches RootEventView::Ended(outcome) && outcome is Performed)
                && events[4] is Linked,
            RootActionView::Fail(e) => n <= 1 && events[n] == RootEventView::Ended(
                OutcomeView::Failed(e),
            ),
        },
{
    lemma_dev_env(nix, gc_root, stages, events, n);
    assert(stages[n].awaits(events[n]));
}

/// A path is linked to only once it is registered as a root: the link goes from
/// the place that the name and the time give to the path, and only once it stands
/// is the operation a success.
pub proof fn law_roots_are_kept_in_order(
    nix: NixView,
    name: Seq<char>,
    path: Seq<char>,
    stages: Seq<RootStageView>,
    events: Seq<RootEventView>,
    n: int,
)
    requires
        nix.keeps_root(stages, events),
        stages[0] == (RootStageView::Adding { name, path }),
        0 <= n < events.len(),
    ensures
        match nix.root_continued(stages[n], events[n]).1 {
            RootActionView::AskTime => n == 0 && (events[0] matches RootEventView::Ended(
                outcome,
            ) && outcome is Performed),
            RootActionView::Link { link_path, target } => n == 1 && link_path == path && (
            events[0] matches RootEventView::Ended(outcome) && outcome is Performed) && (
            events[1] matches RootEventView::Timed { now } && target == nix.root_link(name, now)),
            RootActionView::Succeed(output) => n == 2 && events[0] == RootEventView::Ended(
                OutcomeView::Performed(output),
            ) && events[2] is Linked,
            RootActionView::Fail(e) => n == 0 && events[0] == RootEventView::Ended(
                OutcomeView::Failed(e),
            ),
            _ => false,
        },
{
    lemma_add_gc(nix, name, path, stages, events, n);
    assert(stages[n].awaits(events[n]));
}

/// How the registration of a root goes, as long as it goes on.
proof fn lemma_add_gc(
    nix: NixView,
    name: Seq<char>,
    path: Seq<char>,
    stages: Seq<RootStageView>,
    events: Seq<RootEventView>,
    n: int,
)
    requires
        nix.keeps_root(stages, events),
        stages[0] == (RootStageView::Adding { name, path }),
        0 <= n <= events.len(),
    ensures
        n <= 3,
        match stages[n] {
            RootStageView::Adding { name: a, path: b } => n == 0 && a == name && b == path,
            RootStageView::NamingRoot { name: a, path: b, output } => n == 1 && a == name && b
                == path && events[0] == RootEventView::Ended(OutcomeView::Performed(output)),
            RootStageView::Linking { output } => n == 2 && events[0] == RootEventView::Ended(
                OutcomeView::Performed(output),
            ),
            RootStageView::Finished => n > 0,
            _ => false,
        },
    decreases n,
{
    if n > 0 {
        let m = n - 1;
        lemma_add_gc(nix, name, path, stages, events, m);
        assert(stages[m].awaits(events[m]));
        assert(stages[m + 1] == nix.root_continued(stages[m], events[m]).0);
    }
}

/// A request that fails ends the operation with its own failure, and nothing is
/// done after it.
pub proof fn law_nothing_follows_a_failed_request(
    nix: NixView,
    stages: Seq<RootStageView>,
    events: Seq<RootEventView>,
    n: int,
    e: NixErrorView,
)
    requires
        nix.keeps_root(stages, events),
        0 <= n < events.len(),
        events[n] == RootEventView::Ended(OutcomeView::Failed(e)),
    ensures
        nix.root_continued(stages[n], events[n]).1 == RootActionView::Fail(e),
        n == events.len() - 1,
{
    assert(stages[n].awaits(events[n]));
    assert(stages[n + 1] == nix.root_continued(stages[n], events[n]).0);
    if n + 1 < events.len() {
        assert(stages[n + 1].awaits(events[n + 1]));
    }
}

/// Every operation that keeps a root comes to an end: the development environment
/// within five steps, a path within three.
pub proof fn law_roots_end(
    nix: NixView,
    stages: Seq<RootStageView>,
    events: Seq<RootEventView>,
)
    requires
        nix.keeps_root(stages, events),
    ensures
        stages[0] is Evaluating ==> events.len() <= 5,
        stages[0] is Adding ==> events.len() <= 3,
{
    match stages[0] {
        RootStageView::Evaluating { gc_root } => {
            lemma_dev_env(nix, gc_root, stages, events, events.len() as int);
        },
        RootStageView::Adding { name, path } => {
            lemma_add_gc(nix, name, path, stages, events, events.len() as int);
        },
        _ => {},
    }
}

/// What becomes of a deletion is of no account.
pub proof fn law_failed_deletions_are_of_no_account(
    nix: NixView,
    stage: GcStageView,
    event: GcEventView,
    other: GcEventView,
    environment: EnvironmentView,
)
    requires
        stage.deletes(),
    ensures
        nix.gc_continued(stage, event, environment) == nix.gc_continued(stage, other, environment),
{
}

/// As long as there is a Nix, every path that was named is deleted, each at its
/// turn and once, whatever becomes of the deletions before it, and behind them all
/// it is done.
pub proof fn law_every_path_has_its_turn(
    nix: NixView,
    paths: Seq<Option<Seq<char>>>,
    turns: Seq<GcTurn>,
    events: Seq<GcEventView>,
    environments: Seq<EnvironmentView>,
    n: int,
)
    requires
        nix.gives_up(paths, turns, events, environments),
        0 <= n < turns.len(),
        environments[n].devenv_nix is Some,
    ensures
        n <= known_once(paths).len(),
        n < known_once(paths).len() ==> turns[n].action == GcActionView::Delete(
            nix.delete_command(known_once(paths)[n], environments[n].devenv_nix->0),
        ),
        n == known_once(paths).len() ==> turns[n].action is Succeed,
{
    lemma_turn(nix, paths, turns, events, environments, n);
}

/// The giving up of paths fails only where there is no Nix to do it and a path is
/// left to delete.
pub proof fn law_only_nix_is_missed(
    nix: NixView,
    paths: Seq<Option<Seq<char>>>,
    turns: Seq<GcTurn>,
    events: Seq<GcEventView>,
    environments: Seq<EnvironmentView>,
    n: int,
    e: NixErrorView,
)
    requires
        nix.gives_up(paths, turns, events, environments),
        0 <= n < turns.len(),
    ensures
        turns[n].action == GcActionView::Fail(e) <==> e is DevenvNixNotSet
            && environments[n].devenv_nix is None && n < known_once(paths).len(),
{
    lemma_turn(nix, paths, turns, events, environments, n);
}

/// At each turn it is the turn of the path at that place.
proof fn lemma_turn(
    nix: NixView,
    paths: Seq<Option<Seq<char>>>,
    turns: Seq<GcTurn>,
    events: Seq<GcEventView>,
    environments: Seq<EnvironmentView>,
    n: int,
)
    requires
        nix.gives_up(paths, turns, events, environments),
        0 <= n < turns.len(),
    ensures
        n <= known_once(paths).len(),
        turns[n] == nix.gc_from(known_once(paths), n as nat, environments[n]),
    decreases n,
{
    if n > 0 {
        let m = n - 1;
        lemma_turn(nix, paths, turns, events, environments, m);
        assert(turns[m].stage.deletes());
        assert(turns[m + 1] == nix.gc_continued(turns[m].stage, events[m], environments[m + 1]));
    }
}

/// What stands at which place after a step: nothing is known any more where a
/// step meets a place that is not as it needs it.
pub open spec fn step_taken(
    places: Option<Map<Seq<char>, Seq<char>>>,
    step: LinkStepView,
) -> Option<Map<Seq<char>, Seq<char>>> {
    match (places, step) {
        (Some(places), LinkStepView::Remove { target }) => if places.contains_key(target) {
            Some(places.remove(target))
        } else {
            None
        },
        (Some(places), LinkStepView::Link { link_path, target }) => if places.contains_key(
            target,
        ) {
            None
        } else {
            Some(places.insert(target, link_path))
        },
        (None, _) => None,
    }
}

/// What stands at which place after steps.
pub open spec fn steps_taken(
    places: Option<Map<Seq<char>, Seq<char>>>,
    steps: Seq<LinkStepView>,
) -> Option<Map<Seq<char>, Seq<char>>>
    decreases steps.len(),
{
    if steps.len() == 0 {
        places
    } else {
        step_taken(steps_taken(places, steps.drop_last()), steps.last())
    }
}

/// Where it is truly told whether something stands at its place, a link comes to
/// stand there whatever stood there before, nothing else is changed, and to put it
/// there again changes nothing.
pub proof fn law_links_are_forced(
    places: Map<Seq<char>, Seq<char>>,
    link_path: Seq<char>,
    target: Seq<char>,
)
    ensures
        ({
            let after = places.insert(target, link_path);
            &&& steps_taken(
                Some(places),
                link_steps(link_path, target, places.contains_key(target)),
            ) == Some(after)
            &&& steps_taken(
                Some(after),
                link_steps(link_path, target, after.contains_key(target)),
            ) == Some(after)
        }),
{
    let after = places.insert(target, link_path);
    lemma_link_steps(places, link_path, target);
    lemma_link_steps(after, link_path, target);
    assert(after.insert(target, link_path) =~= after);
}

proof fn lemma_link_steps(
    places: Map<Seq<char>, Seq<char>>,
    link_path: Seq<char>,
    target: Seq<char>,
)
    ensures
        steps_taken(Some(places), link_steps(link_path, target, places.contains_key(target)))
            == Some(places.insert(target, link_path)),
{
    reveal_with_fuel(steps_taken, 3);
    let steps = link_steps(link_path, target, places.contains_key(target));
    let link = LinkStepView::Link { link_path, target };
    if places.contains_key(target) {
        assert(steps.drop_last() =~= seq![LinkStepView::Remove { target }]);
        assert(steps.drop_last().drop_last() =~= Seq::<LinkStepView>::empty());
        assert(places.remove(target).insert(target, link_path) =~= places.insert(
            target,
            link_path,
        ));
    } else {
        assert(steps.drop_last() =~= Seq::<LinkStepView>::empty());
    }
    assert(steps.last() == link);
}

/// Every deletion is a command of the front end's own: it begins with the front
/// end's flags, as they are set, it ends in the deletion of the path, followed by
/// what an offline front end adds, and it runs in the project's directory.
pub proof fn law_deletions_keep_the_flags(
    nix: NixView,
    paths: Seq<Seq<char>>,
    next: nat,
    environment: EnvironmentView,
    command: CommandView,
)
    requires
        nix.gc_from(paths, next, environment).action == GcActionView::Delete(command),
    ensures
        next < paths.len(),
        environment.devenv_nix matches Some(devenv_nix) && command == nix.prepared(
            "nix"@,
            seq!["store"@, "delete"@, paths[next as int]],
            nix.options,
            devenv_nix,
        ),
        command.program == environment.devenv_nix->0 + "/bin/nix"@,
        command.args.take(nix.options.nix_flags.len() as int) == nix.options.nix_flags,
        ({
            let start = own_args_start(nix, nix.options);
            command.args.subrange(start, start + 3) == seq![
                "store"@,
                "delete"@,
                paths[next as int],
            ]
        }),
        command.current_dir == Some(nix.devenv_root),
{
    let args = seq!["store"@, "delete"@, paths[next as int]];
    let devenv_nix = environment.devenv_nix->0;
    law_commands_hold_nothing_else(nix, "nix"@, args, nix.options, devenv_nix);
    reveal_strlit("/bin/");
    reveal_strlit("nix");
    reveal_strlit("/bin/nix");
    assert("/bin/"@ + "nix"@ =~= "/bin/nix"@);
    assert(command.program =~= devenv_nix + "/bin/nix"@);
}

/// Each deletion is announced by the path that is deleted, and then as every
/// command is. Nothing is said once all is done.
pub proof fn law_deletions_are_announced(
    nix: NixView,
    paths: Seq<Seq<char>>,
    next: nat,
    environment: EnvironmentView,
)
    ensures
        next >= paths.len() ==> nix.gc_from(paths, next, environment).notices.len() == 0,
        next < paths.len() ==> nix.gc_from(paths, next, environment).notices == seq![
            NoticeView { level: Level::Info, text: "Deleting "@ + paths[next as int] + "..."@ },
        ] + nix.prepare_notices(
            "nix"@,
            seq!["store"@, "delete"@, paths[next as int]],
            nix.options,
            environment,
        ),
{
}

/// The giving up of paths goes from the first to the last, one at a time: the path
/// that is deleted is remembered with all the others, and the next one follows.
pub proof fn law_paths_are_given_up_in_order(
    nix: NixView,
    paths: Seq<Seq<char>>,
    next: nat,
    event: GcEventView,
    environment: EnvironmentView,
)
    requires
        next < paths.len(),
    ensures
        nix.gc_from(paths, next, environment).action is Delete ==> nix.gc_from(
            paths,
            next,
            environment,
        ).stage == (GcStageView::Deleting { paths, next }),
        nix.gc_continued(GcStageView::Deleting { paths, next }, event, environment) == nix.gc_from(
            paths,
            next + 1,
            environment,
        ),
{
}

/// A path that is named again is not given up again, and one that was not named
/// before comes behind the others; what is no text is passed over.
pub proof fn law_paths_come_in_order(paths: Seq<Option<Seq<char>>>, path: Seq<char>)
    ensures
        known_once(paths.push(Some(path))) == if paths.contains(Some(path)) {
            known_once(paths)
        } else {
            known_once(paths).push(path)
        },
        known_once(paths.push(None)) == known_once(paths),
{
    law_paths_are_deleted_once(paths);
    assert(paths.push(Some(path)).drop_last() =~= paths);
    assert(paths.push(None).drop_last() =~= paths);
}

/// The link to the shell stands in the user's directory of roots and the link to a
/// path in the project's, under the name that the moment gives it.
pub proof fn law_links_stand_in_their_directories(
    nix: NixView,
    name: Seq<char>,
    now: Seq<char>,
)
    ensures
        nix.shell_link(now) == path_under(nix.devenv_home_gc, now + "-shell"@),
        nix.root_link(name, now) == path_under(nix.devenv_dot_gc, name + "-"@ + now),
{
}

/// A step that goes wrong is named by the places that it is about.
pub proof fn law_failed_steps_are_named(link_path: Seq<char>, target: Seq<char>)
    ensures
        (LinkStepView::Remove { target }).failure() == "Failed to remove "@ + target,
        (LinkStepView::Link { link_path, target }).failure() == "Failed to create symlink: "@
            + link_path + " -> "@ + target,
{
}

} // verus!
