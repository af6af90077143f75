//! The operations that keep a root: the course of each, from its first request to
//! its link.
use vstd::pervasive::unreached;
use vstd::prelude::*;
use vstd::string::*;

use crate::error::{NixError, NixErrorView};
use crate::nix::{Nix, NixView};
use crate::requests::{Outcome, OutcomeView, Request, RequestView};
use crate::run::{Output, OutputView};

verus! {

/// How far the operation has come.
#[derive(Debug, PartialEq, Eq)]
pub enum RootStage {
    /// The development environment is evaluated and kept as a root.
    Evaluating { gc_root: String },
    /// The root's older generations are dropped.
    Tidying { gc_root: String, output: Output },
    /// The time is asked for, by which the link to the shell is named.
    NamingShell { gc_root: String, output: Output },
    /// What the root stands for is looked up.
    Resolving { target: String, output: Output },
    /// The path is registered as a root.
    Adding { name: String, path: String },
    /// The time is asked for, by which the link to the path is named.
    NamingRoot { name: String, path: String, output: Output },
    /// The link is made.
    Linking { output: Output },
    /// The operation is over.
    Finished,
}

/// [`RootStage`] with the texts as character sequences.
pub enum RootStageView {
    Evaluating { gc_root: Seq<char> },
    Tidying { gc_root: Seq<char>, output: OutputView },
    NamingShell { gc_root: Seq<char>, output: OutputView },
    Resolving { target: Seq<char>, output: OutputView },
    Adding { name: Seq<char>, path: Seq<char> },
    NamingRoot { name: Seq<char>, path: Seq<char>, output: OutputView },
    Linking { output: OutputView },
    Finished,
}

impl DeepView for RootStage {
    type V = RootStageView;

    open spec fn deep_view(&self) -> RootStageView {
        match self {
            RootStage::Evaluating { gc_root } => RootStageView::Evaluating { gc_root: gc_root@ },
            RootStage::Tidying { gc_root, output } => RootStageView::Tidying {
                gc_root: gc_root@,
                output: output.deep_view(),
            },
            RootStage::NamingShell { gc_root, output } => RootStageView::NamingShell {
                gc_root: gc_root@,
                output: output.deep_view(),
            },
            RootStage::Resolving { target, output } => RootStageView::Resolving {
                target: target@,
                output: output.deep_view(),
            },
            RootStage::Adding { name, path } => RootStageView::Adding { name: name@, path: path@ },
            RootStage::NamingRoot { name, path, output } => RootStageView::NamingRoot {
                name: name@,
                path: path@,
                output: output.deep_view(),
            },
            RootStage::Linking { output } => RootStageView::Linking { output: output.deep_view() },
            RootStage::Finished => RootStageView::Finished,
        }
    }
}

/// What is to be done next for the operation.
#[derive(Debug, PartialEq, Eq)]
pub enum RootAction<'a> {
    /// Perform the request.
    Perform(Request<'a>),
    /// Look at the clock.
    AskTime,
    /// Look up what the path stands for, links followed.
    Resolve { path: String },
    /// Put a link to `link_path` at `target`, whatever stands there.
    Link { link_path: String, target: String },
    /// Nothing more: the operation succeeded, with the output of its first
    /// request.
    Succeed(Output),
    /// Nothing more: the operation failed.
    Fail(NixError),
}

/// [`RootAction`] with the texts as character sequences.
pub enum RootActionView {
    Perform(RequestView),
    AskTime,
    Resolve { path: Seq<char> },
    Link { link_path: Seq<char>, target: Seq<char> },
    Succeed(OutputView),
    Fail(NixErrorView),
}

impl<'a> DeepView for RootAction<'a> {
    type V = RootActionView;

    open spec fn deep_view(&self) -> RootActionView {
        match self {
            RootAction::Perform(request) => RootActionView::Perform(request.deep_view()),
            RootAction::AskTime => RootActionView::AskTime,
            RootAction::Resolve { path } => RootActionView::Resolve { path: path@ },
            RootAction::Link { link_path, target } => RootActionView::Link {
                link_path: link_path@,
                target: target@,
            },
            RootAction::Succeed(output) => RootActionView::Succeed(output.deep_view()),
            RootAction::Fail(e) => RootActionView::Fail(e.deep_view()),
        }
    }
}

/// What became of an action.
#[derive(Debug, PartialEq, Eq)]
pub enum RootEvent {
    /// The request was performed, or it failed.
    Ended(Outcome),
    /// The name of the present moment.
    Timed { now: String },
    /// What the path stands for.
    Resolved { path: String },
    /// The link stands.
    Linked,
}

/// [`RootEvent`] with the texts as character sequences.
pub enum RootEventView {
    Ended(OutcomeView),
    Timed { now: Seq<char> },
    Resolved { path: Seq<char> },
    Linked,
}

impl DeepView for RootEvent {
    type V = RootEventView;

    open spec fn deep_view(&self) -> RootEventView {
        match self {
            RootEvent::Ended(outcome) => RootEventView::Ended(outcome.deep_view()),
            RootEvent::Timed { now } => RootEventView::Timed { now: now@ },
            RootEvent::Resolved { path } => RootEventView::Resolved { path: path@ },
            RootEvent::Linked => RootEventView::Linked,
        }
    }
}

impl RootStageView {
    /// Whether the event can follow what was asked for at this stage.
    pub open spec fn awaits(self, event: RootEventView) -> bool {
        match self {
            RootStageView::Evaluating { .. } => event is Ended,
            RootStageView::Tidying { .. } => event is Ended,
            RootStageView::NamingShell { .. } => event is Timed,
            RootStageView::Resolving { .. } => event is Resolved,
            RootStageView::Adding { .. } => event is Ended,
            RootStageView::NamingRoot { .. } => event is Timed,
            RootStageView::Linking { .. } => event is Linked,
            RootStageView::Finished => false,
        }
    }
}

impl NixView {
    /// How the evaluation of the development environment sets out.
    pub open spec fn dev_env_begun(self, json: bool, gc_root: Seq<char>) -> (
        RootStageView,
        RootActionView,
    ) {
        (
            RootStageView::Evaluating { gc_root },
            RootActionView::Perform(self.dev_env_request(json, gc_root)),
        )
    }

    /// How the registration of a root sets out.
    pub open spec fn add_gc_begun(self, name: Seq<char>, path: Seq<char>) -> (
        RootStageView,
        RootActionView,
    ) {
        (
            RootStageView::Adding { name, path },
            RootActionView::Perform(self.add_gc_request(name, path)),
        )
    }

    /// How the operation goes on after an event. A request that failed ends it.
    /// The environment is tidied up behind, its root is looked up, and then the
    /// link is made; a path that is registered is linked to at once.
    pub open spec fn root_continued(self, stage: RootStageView, event: RootEventView) -> (
        RootStageView,
        RootActionView,
    )
        recommends
            stage.awaits(event),
    {
        match (stage, event) {
            (_, RootEventView::Ended(OutcomeView::Failed(e))) => (
                RootStageView::Finished,
                RootActionView::Fail(e),
            ),
            (
                RootStageView::Evaluating { gc_root },
                RootEventView::Ended(OutcomeView::Performed(output)),
            ) => (
                RootStageView::Tidying { gc_root, output },
                RootActionView::Perform(self.tidy_request(gc_root)),
            ),
            (
                RootStageView::Tidying { gc_root, output },
                RootEventView::Ended(OutcomeView::Performed(_)),
            ) => (RootStageView::NamingShell { gc_root, output }, RootActionView::AskTime),
            (
                RootStageView::NamingShell { gc_root, output },
                RootEventView::Timed { now },
            ) => (
                RootStageView::Resolving { target: self.shell_link(now), output },
                RootActionView::Resolve { path: gc_root },
            ),
            (RootStageView::Resolving { target, output }, RootEventView::Resolved { path }) => (
                RootStageView::Linking { output },
                RootActionView::Link { link_path: path, target },
            ),
            (
                RootStageView::Adding { name, path },
                RootEventView::Ended(OutcomeView::Performed(output)),
            ) => (RootStageView::NamingRoot { name, path, output }, RootActionView::AskTime),
            (
                RootStageView::NamingRoot { name, path, output },
                RootEventView::Timed { now },
            ) => (
                RootStageView::Linking { output },
                RootActionView::Link { link_path: path, target: self.root_link(name, now) },
            ),
            (RootStageView::Linking { output }, RootEventView::Linked) => (
                RootStageView::Finished,
                RootActionView::Succeed(output),
            ),
            _ => arbitrary(),
        }
    }
}

impl<'a> Nix<'a> {
    /// Sets out to evaluate the development environment and keep it as a root.
    pub fn dev_env(&self, json: bool, gc_root: &str) -> (r: (RootStage, RootAction<'a>))
        ensures
            (r.0.deep_view(), r.1.deep_view()) == self.deep_view().dev_env_begun(json, gc_root@),
    {
        (
            RootStage::Evaluating { gc_root: String::from_str(gc_root) },
            RootAction::Perform(self.dev_env_request(json, gc_root)),
        )
    }

    /// Sets out to register a path as a root of the given name.
    pub fn add_gc(&self, name: &str, path: &str) -> (r: (RootStage, RootAction<'a>))
        ensures
            (r.0.deep_view(), r.1.deep_view()) == self.deep_view().add_gc_begun(name@, path@),
    {
        (
            RootStage::Adding { name: String::from_str(name), path: String::from_str(path) },
            RootAction::Perform(self.add_gc_request(name, path)),
        )
    }

    /// Leads the operation on after an event.
    pub fn continue_root(&self, stage: RootStage, event: RootEvent) -> (r: (
        RootStage,
        RootAction<'a>,
    ))
        requires
            stage.deep_view().awaits(event.deep_view()),
        ensures
            (r.0.deep_view(), r.1.deep_view()) == self.deep_view().root_continued(
                stage.deep_view(),
                event.deep_view(),
            ),
    {
        match event {
            RootEvent::Ended(Outcome::Failed(e)) => (RootStage::Finished, RootAction::Fail(e)),
            RootEvent::Ended(Outcome::Performed(ended)) => match stage {
                RootStage::Evaluating { gc_root } => {
                    let tidy = self.tidy_request(gc_root.as_str());
                    (RootStage::Tidying { gc_root, output: ended }, RootAction::Perform(tidy))
                },
                RootStage::Tidying { gc_root, output } => (
                    RootStage::NamingShell { gc_root, output },
                    RootAction::AskTime,
                ),
                RootStage::Adding { name, path } => (
                    RootStage::NamingRoot { name, path, output: ended },
                    RootAction::AskTime,
                ),
                _ => unreached(),
            },
            RootEvent::Timed { now } => match stage {
                RootStage::NamingShell { gc_root, output } => (
                    RootStage::Resolving { target: self.shell_link(now.as_str()), output },
                    RootAction::Resolve { path: gc_root },
                ),
                RootStage::NamingRoot { name, path, output } => (
                    RootStage::Linking { output },
                    RootAction::Link {
                        link_path: path,
                        target: self.root_link(name.as_str(), now.as_str()),
                    },
                ),
                _ => unreached(),
            },
            RootEvent::Resolved { path } => match stage {
                RootStage::Resolving { target, output } => (
                    RootStage::Linking { output },
                    RootAction::Link { link_path: path, target },
                ),
                _ => unreached(),
            },
            RootEvent::Linked => match stage {
                RootStage::Linking { output } => (RootStage::Finished, RootAction::Succeed(output)),
                _ => unreached(),
            },
        }
    }
}

} // verus!
