//! Garbage collector roots: how results are kept from collection, and how they
//! are given up.
use vstd::pervasive::unreached;
use vstd::prelude::*;
use vstd::string::*;

use crate::command::{Command, CommandView};
use crate::error::{NixError, NixErrorView};
use crate::nix::{Nix, NixView};
use crate::notice::{debugging, information, report, Level, Notice, NoticeView};
use crate::options::{Environment, EnvironmentView};
use crate::path::{join_path, path_under};
use crate::requests::{Request, RequestView};
use crate::run::{Output, OutputView};
use crate::text::{owned, same_text};

verus! {

/// The paths that are known, each once, in the order in which they first come.
pub open spec fn known_once(paths: Seq<Option<Seq<char>>>) -> Seq<Seq<char>>
    decreases paths.len(),
{
    if paths.len() == 0 {
        Seq::empty()
    } else {
        let before = known_once(paths.drop_last());
        match paths.last() {
            Some(path) if !before.contains(path) => before.push(path),
            _ => before,
        }
    }
}

impl NixView {
    pub open spec fn add_gc_request(self, name: Seq<char>, path: Seq<char>) -> RequestView {
        RequestView {
            substituters: false,
            command: "nix-store"@,
            args: seq!["--add-root"@, path_under(self.devenv_dot_gc, name), "-r"@, path],
            options: self.options,
        }
    }

    /// The link that keeps a root of this name, as it is now.
    pub open spec fn root_link(self, name: Seq<char>, now: Seq<char>) -> Seq<char> {
        path_under(self.devenv_dot_gc, name + "-"@ + now)
    }

    /// The link that keeps the shell, as it is now.
    pub open spec fn shell_link(self, now: Seq<char>) -> Seq<char> {
        path_under(self.devenv_home_gc, now + "-shell"@)
    }

    /// The command that deletes a path from the store.
    pub open spec fn delete_command(self, path: Seq<char>, devenv_nix: Seq<char>) -> CommandView {
        self.prepared("nix"@, seq!["store"@, "delete"@, path], self.options, devenv_nix)
    }

    /// What the user is told when a path is deleted.
    pub open spec fn delete_notices(self, path: Seq<char>, environment: EnvironmentView) -> Seq<
        NoticeView,
    > {
        seq![information("Deleting "@ + path + "..."@)] + self.prepare_notices(
            "nix"@,
            seq!["store"@, "delete"@, path],
            self.options,
            environment,
        )
    }

    /// How the paths are given up from place `next` on: the one there is deleted,
    /// and past them all it is done.
    pub open spec fn gc_from(
        self,
        paths: Seq<Seq<char>>,
        next: nat,
        environment: EnvironmentView,
    ) -> GcTurn {
        if next < paths.len() {
            let notices = self.delete_notices(paths[next as int], environment);
            match environment.devenv_nix {
                Some(devenv_nix) => GcTurn {
                    stage: GcStageView::Deleting { paths, next },
                    action: GcActionView::Delete(
                        self.delete_command(paths[next as int], devenv_nix),
                    ),
                    notices,
                },
                None => GcTurn {
                    stage: GcStageView::Finished,
                    action: GcActionView::Fail(NixErrorView::DevenvNixNotSet),
                    notices,
                },
            }
        } else {
            GcTurn {
                stage: GcStageView::Finished,
                action: GcActionView::Succeed,
                notices: Seq::empty(),
            }
        }
    }

    /// How the giving up of paths sets out.
    pub open spec fn gc_begun(
        self,
        paths: Seq<Option<Seq<char>>>,
        environment: EnvironmentView,
    ) -> GcTurn {
        self.gc_from(known_once(paths), 0, environment)
    }

    /// How the giving up of paths goes on: to the next path, whatever became of the
    /// deletion.
    pub open spec fn gc_continued(
        self,
        stage: GcStageView,
        event: GcEventView,
        environment: EnvironmentView,
    ) -> GcTurn
        recommends
            stage.deletes(),
    {
        match stage {
            GcStageView::Deleting { paths, next } => self.gc_from(paths, next + 1, environment),
            GcStageView::Finished => arbitrary(),
        }
    }
}

/// How far the giving up of paths has come.
#[derive(Debug, PartialEq, Eq)]
pub enum GcStage {
    /// The path at place `next` is deleted.
    Deleting { paths: Vec<String>, next: usize },
    /// All is done, or Nix was not there to do it.
    Finished,
}

/// [`GcStage`] with the texts as character sequences.
pub enum GcStageView {
    Deleting { paths: Seq<Seq<char>>, next: nat },
    Finished,
}

impl DeepView for GcStage {
    type V = GcStageView;

    open spec fn deep_view(&self) -> GcStageView {
        match self {
            GcStage::Deleting { paths, next } => GcStageView::Deleting {
                paths: paths.deep_view(),
                next: *next as nat,
            },
            GcStage::Finished => GcStageView::Finished,
        }
    }
}

impl GcStageView {
    /// Whether a path is being deleted.
    pub open spec fn deletes(self) -> bool {
        self matches GcStageView::Deleting { paths, next } && next < paths.len()
    }
}

/// What is to be done next to give up paths.
#[derive(Debug, PartialEq, Eq)]
pub enum GcAction {
    /// Run the command, which deletes a path.
    Delete(Command),
    /// Nothing more: all is done.
    Succeed,
    /// Nothing more: there is no Nix to delete with.
    Fail(NixError),
}

/// [`GcAction`] with the texts as character sequences.
pub enum GcActionView {
    Delete(CommandView),
    Succeed,
    Fail(NixErrorView),
}

impl DeepView for GcAction {
    type V = GcActionView;

    open spec fn deep_view(&self) -> GcActionView {
        match self {
            GcAction::Delete(command) => GcActionView::Delete(command.deep_view()),
            GcAction::Succeed => GcActionView::Succeed,
            GcAction::Fail(e) => GcActionView::Fail(e.deep_view()),
        }
    }
}

/// What became of a deletion.
#[derive(Debug, PartialEq, Eq)]
pub enum GcEvent {
    /// The command came to its end, in success or not.
    Completed(Output),
    /// The command did not start, for the reason given.
    NotStarted { reason: String },
}

/// [`GcEvent`] with the bytes and texts as sequences.
pub enum GcEventView {
    Completed(OutputView),
    NotStarted { reason: Seq<char> },
}

impl DeepView for GcEvent {
    type V = GcEventView;

    open spec fn deep_view(&self) -> GcEventView {
        match self {
            GcEvent::Completed(output) => GcEventView::Completed(output.deep_view()),
            GcEvent::NotStarted { reason } => GcEventView::NotStarted { reason: reason@ },
        }
    }
}

/// One turn in the giving up of paths: the stage that it comes to, what is to be
/// done, and what the user is told.
pub struct GcTurn {
    pub stage: GcStageView,
    pub action: GcActionView,
    pub notices: Seq<NoticeView>,
}

/// One step on the way to a link.
#[derive(Debug, PartialEq, Eq)]
pub enum LinkStep {
    /// Remove what stands at the place.
    Remove { target: String },
    /// Put a link to `link_path` at the place.
    Link { link_path: String, target: String },
}

/// [`LinkStep`] with the texts as character sequences.
pub enum LinkStepView {
    Remove { target: Seq<char> },
    Link { link_path: Seq<char>, target: Seq<char> },
}

impl DeepView for LinkStep {
    type V = LinkStepView;

    open spec fn deep_view(&self) -> LinkStepView {
        match self {
            LinkStep::Remove { target } => LinkStepView::Remove { target: target@ },
            LinkStep::Link { link_path, target } => LinkStepView::Link {
                link_path: link_path@,
                target: target@,
            },
        }
    }
}

impl LinkStepView {
    /// The words for a step that went wrong.
    pub open spec fn failure(self) -> Seq<char> {
        match self {
            LinkStepView::Remove { target } => "Failed to remove "@ + target,
            LinkStepView::Link { link_path, target } => "Failed to create symlink: "@ + link_path
                + " -> "@ + target,
        }
    }
}

/// The steps that put a link at `target`, whatever stands there.
pub open spec fn link_steps(link_path: Seq<char>, target: Seq<char>, target_exists: bool) -> Seq<
    LinkStepView,
> {
    if target_exists {
        seq![LinkStepView::Remove { target }, LinkStepView::Link { link_path, target }]
    } else {
        seq![LinkStepView::Link { link_path, target }]
    }
}

impl LinkStep {
    /// The words for a step that went wrong.
    pub fn failure(&self) -> (s: String)
        ensures
            s@ == self.deep_view().failure(),
    {
        match self {
            LinkStep::Remove { target } => {
                let mut s = String::from_str("Failed to remove ");
                s.append(target.as_str());
                s
            },
            LinkStep::Link { link_path, target } => {
                let mut s = String::from_str("Failed to create symlink: ");
                s.append(link_path.as_str());
                s.append(" -> ");
                s.append(target.as_str());
                s
            },
        }
    }
}

/// Puts a link to `link_path` at `target`, whatever stands there: the steps that
/// do it. They are taken while the lock of the target is held.
pub fn symlink_force(
    link_path: &str,
    target: &str,
    target_exists: bool,
    log: &mut Vec<Notice>,
) -> (steps: Vec<LinkStep>)
    ensures
        steps.deep_view() == link_steps(link_path@, target@, target_exists),
        final(log).deep_view() == old(log).deep_view().push(
            debugging("Creating symlink "@ + link_path@ + " -> "@ + target@),
        ),
{
    let mut text = String::from_str("Creating symlink ");
    text.append(link_path);
    text.append(" -> ");
    text.append(target);
    report(log, Level::Debug, text);
    let mut steps: Vec<LinkStep> = Vec::new();
    if target_exists {
        steps.push(LinkStep::Remove { target: String::from_str(target) });
    }
    steps.push(
        LinkStep::Link { link_path: String::from_str(link_path), target: String::from_str(target) },
    );
    assert(steps.deep_view() =~= link_steps(link_path@, target@, target_exists));
    steps
}

impl<'a> Nix<'a> {
    /// The call that registers a path as a root of the given name.
    pub(crate) fn add_gc_request(&self, name: &str, path: &str) -> (r: Request<'a>)
        ensures
            r.deep_view() == self.deep_view().add_gc_request(name@, path@),
    {
        let root = join_path(self.devenv_dot_gc.as_str(), name);
        let request = Request {
            substituters: false,
            command: String::from_str("nix-store"),
            args: owned(&["--add-root", root.as_str(), "-r", path]),
            options: self.options,
        };
        assert(request.deep_view() =~= self.deep_view().add_gc_request(name@, path@));
        request
    }

    /// The link that keeps a root of this name, made at the time `now`.
    pub fn root_link(&self, name: &str, now: &str) -> (path: String)
        ensures
            path@ == self.deep_view().root_link(name@, now@),
    {
        let mut file = String::from_str(name);
        file.append("-");
        file.append(now);
        join_path(self.devenv_dot_gc.as_str(), file.as_str())
    }

    /// The link that keeps the shell, made at the time `now`.
    pub fn shell_link(&self, now: &str) -> (path: String)
        ensures
            path@ == self.deep_view().shell_link(now@),
    {
        let mut file = String::from_str(now);
        file.append("-shell");
        join_path(self.devenv_home_gc.as_str(), file.as_str())
    }

    /// Sets out to give up paths, each once. A path that is not text is passed
    /// over.
    pub fn gc(
        &self,
        paths: &Vec<Option<String>>,
        environment: &Environment,
        log: &mut Vec<Notice>,
    ) -> (r: (GcStage, GcAction))
        ensures
            ({
                let begun = self.deep_view().gc_begun(
                    paths.deep_view(),
                    environment.deep_view(),
                );
                &&& r.0.deep_view() == begun.stage
                &&& r.1.deep_view() == begun.action
                &&& final(log).deep_view() == old(log).deep_view() + begun.notices
            }),
            r.1 matches GcAction::Delete(cmd) ==> cmd.args.deep_view().take(
                self.options.nix_flags@.len() as int,
            ) == self.options.nix_flags.deep_view(),
    {
        let once = collect_once(paths);
        self.gc_from(once, 0, environment, log)
    }

    /// Goes on to the path at place `next`, or past them all.
    fn gc_from(
        &self,
        paths: Vec<String>,
        next: usize,
        environment: &Environment,
        log: &mut Vec<Notice>,
    ) -> (r: (GcStage, GcAction))
        ensures
            ({
                let turn = self.deep_view().gc_from(
                    paths.deep_view(),
                    next as nat,
                    environment.deep_view(),
                );
                &&& r.0.deep_view() == turn.stage
                &&& r.1.deep_view() == turn.action
                &&& final(log).deep_view() == old(log).deep_view() + turn.notices
            }),
            r.1 matches GcAction::Delete(cmd) ==> cmd.args.deep_view().take(
                self.options.nix_flags@.len() as int,
            ) == self.options.nix_flags.deep_view(),
    {
        if next < paths.len() {
            match self.delete_path(paths[next].as_str(), environment, log) {
                Ok(cmd) => (GcStage::Deleting { paths, next }, GcAction::Delete(cmd)),
                Err(e) => (GcStage::Finished, GcAction::Fail(e)),
            }
        } else {
            assert(log.deep_view() =~= old(log).deep_view() + Seq::<NoticeView>::empty());
            (GcStage::Finished, GcAction::Succeed)
        }
    }

    /// Goes on after a deletion, whatever became of it: a root may be in use.
    pub fn continue_gc(
        &self,
        stage: GcStage,
        _event: GcEvent,
        environment: &Environment,
        log: &mut Vec<Notice>,
    ) -> (r: (GcStage, GcAction))
        requires
            stage.deep_view().deletes(),
        ensures
            ({
                let turn = self.deep_view().gc_continued(
                    stage.deep_view(),
                    _event.deep_view(),
                    environment.deep_view(),
                );
                &&& r.0.deep_view() == turn.stage
                &&& r.1.deep_view() == turn.action
                &&& final(log).deep_view() == old(log).deep_view() + turn.notices
            }),
            r.1 matches GcAction::Delete(cmd) ==> cmd.args.deep_view().take(
                self.options.nix_flags@.len() as int,
            ) == self.options.nix_flags.deep_view(),
    {
        match stage {
            GcStage::Deleting { paths, next } => {
                let count: usize = paths.len();
                assert(next < count);
                self.gc_from(paths, next + 1, environment, log)
            },
            GcStage::Finished => unreached(),
        }
    }

    /// Deletes a path from the store: the command that does it. That the command
    /// fails is of no account, since a root may be in use.
    pub fn delete_path(&self, path: &str, environment: &Environment, log: &mut Vec<Notice>) -> (r:
        Result<Command, NixError>)
        ensures
            match r {
                Ok(cmd) => environment.deep_view().devenv_nix matches Some(devenv_nix)
                    && cmd.deep_view() == self.deep_view().delete_command(path@, devenv_nix),
                Err(e) => environment.deep_view().devenv_nix is None && e is DevenvNixNotSet,
            },
            r matches Ok(cmd) ==> cmd.args.deep_view().take(self.options.nix_flags@.len() as int)
                == self.options.nix_flags.deep_view(),
            final(log).deep_view() == old(log).deep_view() + self.deep_view().delete_notices(
                path@,
                environment.deep_view(),
            ),
    {
        let mut text = String::from_str("Deleting ");
        text.append(path);
        text.append("...");
        report(log, Level::Info, text);
        let args = ["store", "delete", path];
        assert(args.deep_view() =~= seq!["store"@, "delete"@, path@]);
        let r = self.prepare_command("nix", &args, &self.options, environment, log);
        proof {
            if let Ok(cmd) = &r {
                assert(cmd.args.deep_view().take(self.options.nix_flags@.len() as int)
                    =~= self.options.nix_flags.deep_view());
            }
        }
        assert(log.deep_view() =~= old(log).deep_view() + self.deep_view().delete_notices(
            path@,
            environment.deep_view(),
        ));
        r
    }
}

/// The paths that are known, each once.
fn collect_once(paths: &Vec<Option<String>>) -> (r: Vec<String>)
    ensures
        r.deep_view() == known_once(paths.deep_view()),
{
    let mut r: Vec<String> = Vec::new();
    let ghost all = paths.deep_view();
    assert(all.take(0) =~= Seq::<Option<Seq<char>>>::empty());
    assert(r.deep_view() =~= known_once(all.take(0)));
    for i in 0..paths.len()
        invariant
            all == paths.deep_view(),
            r.deep_view() == known_once(all.take(i as int)),
    {
        proof {
            assert(all.take(i + 1).drop_last() =~= all.take(i as int));
            assert(all.take(i + 1).last() == paths[i as int].deep_view());
        }
        if let Some(path) = &paths[i] {
            if !holds(&r, path.as_str()) {
                let ghost before = r.deep_view();
                r.push(path.clone());
                assert(r.deep_view() =~= before.push(path@));
            }
        }
    }
    assert(all.take(all.len() as int) =~= all);
    r
}

/// Whether one of the texts is `text`.
fn holds(texts: &Vec<String>, text: &str) -> (r: bool)
    ensures
        r == texts.deep_view().contains(text@),
{
    for i in 0..texts.len()
        invariant
            forall|k: int| 0 <= k < i ==> texts.deep_view()[k] != text@,
    {
        if same_text(texts[i].as_str(), text) {
            assert(texts.deep_view()[i as int] == text@);
            return true;
        }
    }
    false
}

} // verus!
