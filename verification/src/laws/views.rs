//! What the views show: every value as it is held, and each in its place.
use vstd::prelude::*;

use crate::caches::{Cachix, CachixCaches};
use crate::cachix::{
    SearchAction, SearchActionView, SearchEvent, SearchEventView, SearchStage, SearchStageView,
};
use crate::command::Command;
use crate::error::{NixError, NixErrorView};
use crate::keeping::{
    RootAction, RootActionView, RootEvent, RootEventView, RootStage, RootStageView,
};
use crate::nix::{search_outcome, Nix};
use crate::notice::Notice;
use crate::options::{Environment, GlobalOptions, Options};
use crate::requests::{
    MetadataAction, MetadataActionView, MetadataStage, MetadataStageView, Outcome, OutcomeView,
    Request,
};
use crate::roots::{
    GcAction, GcActionView, GcEvent, GcEventView, GcStage, GcStageView, LinkStep, LinkStepView,
};
use crate::run::{
    CacheRequest, NixRun, Output, RunAction, RunActionView, RunEvent, RunEventView,
};

verus! {

/// A front end is seen as it is set.
pub proof fn law_front_ends_are_seen<'a>(nix: Nix<'a>)
    ensures
        nix.deep_view().options == nix.options.deep_view(),
        nix.deep_view().config == nix.config,
        nix.deep_view().global_options == nix.global_options.deep_view(),
        nix.cachix_caches is None ==> nix.deep_view().cachix_caches is None,
        nix.cachix_caches matches Some(caches) ==> nix.deep_view().cachix_caches == Some(
            caches.deep_view(),
        ),
        nix.deep_view().cachix_trusted_keys == nix.cachix_trusted_keys@,
        nix.deep_view().devenv_home_gc == nix.devenv_home_gc@,
        nix.deep_view().devenv_dot_gc == nix.devenv_dot_gc@,
        nix.deep_view().devenv_dotfile == nix.devenv_dotfile@,
        nix.deep_view().devenv_root == nix.devenv_root@,
{
}

/// Settings are seen as they are set.
pub proof fn law_settings_are_seen<'a>(
    options: Options<'a>,
    global_options: GlobalOptions,
    environment: Environment,
)
    ensures
        options.deep_view().replace_shell == options.replace_shell,
        options.deep_view().cache_output == options.cache_output,
        options.deep_view().logging == options.logging,
        options.deep_view().logging_stdout == options.logging_stdout,
        options.deep_view().nix_flags.len() == options.nix_flags@.len(),
        forall|i: int|
            0 <= i < options.nix_flags@.len() ==> #[trigger] options.deep_view().nix_flags[i]
                == options.nix_flags@[i]@,
        global_options.deep_view().verbose == global_options.verbose,
        global_options.deep_view().quiet == global_options.quiet,
        global_options.deep_view().max_jobs == global_options.max_jobs,
        global_options.deep_view().offline == global_options.offline,
        global_options.deep_view().impure == global_options.impure,
        global_options.deep_view().eval_cache == global_options.eval_cache,
        global_options.deep_view().refresh_eval_cache == global_options.refresh_eval_cache,
        global_options.deep_view().nix_debugger == global_options.nix_debugger,
        global_options.deep_view().nix_option.len() == global_options.nix_option@.len(),
        forall|i: int|
            0 <= i < global_options.nix_option@.len()
                ==> #[trigger] global_options.deep_view().nix_option[i]
                == global_options.nix_option@[i]@,
        environment.devenv_nix is None ==> environment.deep_view().devenv_nix is None,
        environment.devenv_nix matches Some(place) ==> environment.deep_view().devenv_nix == Some(
            place@,
        ),
        environment.cachix_auth_token is None ==> environment.deep_view().cachix_auth_token is None,
        environment.cachix_auth_token matches Some(token)
            ==> environment.deep_view().cachix_auth_token == Some(token@),
{
}

/// Caches are seen as they are named.
pub proof fn law_caches_are_seen(cachix: Cachix, caches: CachixCaches, reason: &str)
    ensures
        cachix.deep_view().pull.len() == cachix.pull@.len(),
        forall|i: int|
            0 <= i < cachix.pull@.len() ==> #[trigger] cachix.deep_view().pull[i]
                == cachix.pull@[i]@,
        cachix.push is None ==> cachix.deep_view().push is None,
        cachix.push matches Some(cache) ==> cachix.deep_view().push == Some(cache@),
        caches.deep_view().caches == caches.caches.deep_view(),
        caches.deep_view().known_keys == caches.known_keys.deep_view(),
        search_outcome(Ok(&caches)) == Ok::<_, Seq<char>>(caches.deep_view()),
        search_outcome(Err(reason)) == Err::<crate::caches::CachixCachesView, _>(reason@),
{
}

/// A command is seen as it is to run, and a request as it is made.
pub proof fn law_commands_are_seen<'a>(
    command: Command,
    request: Request<'a>,
    run: NixRun,
    cache: CacheRequest,
)
    ensures
        command.deep_view().program == command.program@,
        command.deep_view().args.len() == command.args@.len(),
        forall|i: int|
            0 <= i < command.args@.len() ==> #[trigger] command.deep_view().args[i]
                == command.args@[i]@,
        command.deep_view().envs.len() == command.envs@.len(),
        forall|i: int|
            0 <= i < command.envs@.len() ==> #[trigger] command.deep_view().envs[i] == (
                command.envs@[i].0@,
                command.envs@[i].1.deep_view(),
            ),
        command.current_dir is None ==> command.deep_view().current_dir is None,
        command.current_dir matches Some(dir) ==> command.deep_view().current_dir == Some(dir@),
        request.deep_view().substituters == request.substituters,
        request.deep_view().command == request.command@,
        request.deep_view().args.len() == request.args@.len(),
        forall|i: int|
            0 <= i < request.args@.len() ==> #[trigger] request.deep_view().args[i]
                == request.args@[i]@,
        request.deep_view().options == request.options.deep_view(),
        run.deep_view().command == run.command.deep_view(),
        run.deep_view().logging == run.logging,
        run.deep_view().logging_stdout == run.logging_stdout,
        run.deep_view().stage == run.stage,
        cache.deep_view().watch == cache.watch.deep_view(),
        cache.deep_view().unwatch == cache.unwatch.deep_view(),
        cache.deep_view().force_refresh == cache.force_refresh,
        cache.deep_view().verbosity == cache.verbosity,
{
}

/// What a process leaves behind is seen as it is, and so is what the user is told.
pub proof fn law_output_is_seen(output: Output, outcome: Outcome, notice: Notice)
    ensures
        output.deep_view().success == output.success,
        output.deep_view().code == output.code,
        output.deep_view().stdout == output.stdout@,
        output.deep_view().stderr == output.stderr@,
        output.deep_view().paths == output.paths.deep_view(),
        match outcome {
            Outcome::Performed(o) => outcome.deep_view() == OutcomeView::Performed(o.deep_view()),
            Outcome::Failed(e) => outcome.deep_view() == OutcomeView::Failed(e.deep_view()),
        },
        notice.deep_view().level == notice.level,
        notice.deep_view().text == notice.text@,
{
}

/// Failures are seen as what they are.
pub proof fn law_failures_are_seen(e: NixError)
    ensures
        match e {
            NixError::DevenvNixNotSet => e.deep_view() is DevenvNixNotSet,
            NixError::ShellNotReplaced => e.deep_view() is ShellNotReplaced,
            NixError::NotStarted { command, reason } => e.deep_view() == (
            NixErrorView::NotStarted { command: command@, reason: reason@ }),
            NixError::CommandFailed { command, code } => e.deep_view() == (
            NixErrorView::CommandFailed { command: command@, code }),
            NixError::OutputNotUtf8 { reason } => e.deep_view() == (NixErrorView::OutputNotUtf8 {
                reason: reason@,
            }),
            NixError::CacheRefused => e.deep_view() is CacheRefused,
            NixError::NotTrusted => e.deep_view() is NotTrusted,
            NixError::InvalidKeys => e.deep_view() is InvalidKeys,
            NixError::ClockBeforeEpoch => e.deep_view() is ClockBeforeEpoch,
        },
{
}

/// The events and actions of a command are seen as what they are.
pub proof fn law_runs_are_seen(action: RunAction, event: RunEvent)
    ensures
        match action {
            RunAction::ReplaceProcess => action.deep_view() is ReplaceProcess,
            RunAction::AskCache => action.deep_view() is AskCache,
            RunAction::Spawn { streams } => action.deep_view() == (RunActionView::Spawn {
                streams,
            }),
            RunAction::SpawnCached { streams, cache } => action.deep_view() == (
            RunActionView::SpawnCached { streams, cache: cache.deep_view() }),
            RunAction::Succeed(output) => action.deep_view() == RunActionView::Succeed(
                output.deep_view(),
            ),
            RunAction::Fail(e) => action.deep_view() == RunActionView::Fail(e.deep_view()),
        },
        match event {
            RunEvent::NotReplaced { reason } => event.deep_view() == (RunEventView::NotReplaced {
                reason: reason@,
            }),
            RunEvent::CacheAnswered { supported } => event.deep_view() == (
            RunEventView::CacheAnswered { supported }),
            RunEvent::NotStarted { reason } => event.deep_view() == (RunEventView::NotStarted {
                reason: reason@,
            }),
            RunEvent::Completed(output) => event.deep_view() == RunEventView::Completed(
                output.deep_view(),
            ),
        },
{
}

/// The stages, events and actions of a search are seen as what they are.
pub proof fn law_searches_are_seen<'a>(
    stage: SearchStage,
    action: SearchAction<'a>,
    event: SearchEvent,
)
    ensures
        match stage {
            SearchStage::Evaluating => stage.deep_view() is Evaluating,
            SearchStage::ReadingKeys { cachix } => stage.deep_view() == (
            SearchStageView::ReadingKeys { cachix: cachix.deep_view() }),
            SearchStage::Fetching { caches, new_keys, next } => stage.deep_view() == (
            SearchStageView::Fetching {
                caches: caches.deep_view(),
                new_keys: new_keys.deep_view(),
                next: next as nat,
            }),
            SearchStage::Pinging { caches, new_keys } => stage.deep_view() == (
            SearchStageView::Pinging {
                caches: caches.deep_view(),
                new_keys: new_keys.deep_view(),
            }),
            SearchStage::Writing { caches, trusted } => stage.deep_view() == (
            SearchStageView::Writing { caches: caches.deep_view(), trusted }),
            SearchStage::AskingHost { caches } => stage.deep_view() == (
            SearchStageView::AskingHost { caches: caches.deep_view() }),
            SearchStage::Finished => stage.deep_view() is Finished,
        },
        match action {
            SearchAction::Evaluate(request) => action.deep_view() == SearchActionView::Evaluate(
                request.deep_view(),
            ),
            SearchAction::ReadKeys { path } => action.deep_view() == (SearchActionView::ReadKeys {
                path: path@,
            }),
            SearchAction::Fetch { url, bearer } => action.deep_view() == (
            SearchActionView::Fetch { url: url@, bearer: bearer.deep_view() }),
            SearchAction::Ping(request) => action.deep_view() == SearchActionView::Ping(
                request.deep_view(),
            ),
            SearchAction::WriteKeys { path, .. } => action.deep_view() == (
            SearchActionView::WriteKeys { path: path@ }),
            SearchAction::AskHost { nixos_marker } => action.deep_view() == (
            SearchActionView::AskHost { nixos_marker: nixos_marker@ }),
            SearchAction::Ready => action.deep_view() is Ready,
            SearchAction::Fail(e) => action.deep_view() == SearchActionView::Fail(e.deep_view()),
        },
        match event {
            SearchEvent::EvaluationFailed(e) => event.deep_view()
                == SearchEventView::EvaluationFailed(e.deep_view()),
            SearchEvent::Evaluated(cachix) => event.deep_view() == SearchEventView::Evaluated(
                cachix.deep_view(),
            ),
            SearchEvent::KeysRead(keys) => event.deep_view() == SearchEventView::KeysRead(
                keys.deep_view(),
            ),
            SearchEvent::Refused => event.deep_view() is Refused,
            SearchEvent::Answered { public_signing_keys } => event.deep_view() == (
            SearchEventView::Answered { public_signing_keys: public_signing_keys.deep_view() }),
            SearchEvent::PingFailed(e) => event.deep_view() == SearchEventView::PingFailed(
                e.deep_view(),
            ),
            SearchEvent::Pinged { trusted } => event.deep_view() == (SearchEventView::Pinged {
                trusted,
            }),
            SearchEvent::Written => event.deep_view() is Written,
            SearchEvent::HostSeen { nixos, linux, username } => event.deep_view() == (
            SearchEventView::HostSeen { nixos, linux, username: username@ }),
        },
{
}

/// The stages, events and actions of what keeps a root are seen as what they are.
pub proof fn law_roots_are_seen<'a>(stage: RootStage, action: RootAction<'a>, event: RootEvent)
    ensures
        match stage {
            RootStage::Evaluating { gc_root } => stage.deep_view() == (RootStageView::Evaluating {
                gc_root: gc_root@,
            }),
            RootStage::Tidying { gc_root, output } => stage.deep_view() == (
            RootStageView::Tidying { gc_root: gc_root@, output: output.deep_view() }),
            RootStage::NamingShell { gc_root, output } => stage.deep_view() == (
            RootStageView::NamingShell { gc_root: gc_root@, output: output.deep_view() }),
            RootStage::Resolving { target, output } => stage.deep_view() == (
            RootStageView::Resolving { target: target@, output: output.deep_view() }),
            RootStage::Adding { name, path } => stage.deep_view() == (RootStageView::Adding {
                name: name@,
                path: path@,
            }),
            RootStage::NamingRoot { name, path, output } => stage.deep_view() == (
            RootStageView::NamingRoot { name: name@, path: path@, output: output.deep_view() }),
            RootStage::Linking { output } => stage.deep_view() == (RootStageView::Linking {
                output: output.deep_view(),
            }),
            RootStage::Finished => stage.deep_view() is Finished,
        },
        match action {
            RootAction::Perform(request) => action.deep_view() == RootActionView::Perform(
                request.deep_view(),
            ),
            RootAction::AskTime => action.deep_view() is AskTime,
            RootAction::Resolve { path } => action.deep_view() == (RootActionView::Resolve {
                path: path@,
            }),
            RootAction::Link { link_path, target } => action.deep_view() == (
            RootActionView::Link { link_path: link_path@, target: target@ }),
            RootAction::Succeed(output) => action.deep_view() == RootActionView::Succeed(
                output.deep_view(),
            ),
            RootAction::Fail(e) => action.deep_view() == RootActionView::Fail(e.deep_view()),
        },
        match event {
            RootEvent::Ended(outcome) => event.deep_view() == RootEventView::Ended(
                outcome.deep_view(),
            ),
            RootEvent::Timed { now } => event.deep_view() == (RootEventView::Timed { now: now@ }),
            RootEvent::Resolved { path } => event.deep_view() == (RootEventView::Resolved {
                path: path@,
            }),
            RootEvent::Linked => event.deep_view() is Linked,
        },
{
}

/// The stages, events and actions of the giving up of paths are seen as what they
/// are, and so are the steps to a link.
pub proof fn law_deletions_are_seen(
    stage: GcStage,
    action: GcAction,
    event: GcEvent,
    step: LinkStep,
)
    ensures
        match stage {
            GcStage::Deleting { paths, next } => stage.deep_view() == (GcStageView::Deleting {
                paths: paths.deep_view(),
                next: next as nat,
            }),
            GcStage::Finished => stage.deep_view() is Finished,
        },
        match action {
            GcAction::Delete(command) => action.deep_view() == GcActionView::Delete(
                command.deep_view(),
            ),
            GcAction::Succeed => action.deep_view() is Succeed,
            GcAction::Fail(e) => action.deep_view() == GcActionView::Fail(e.deep_view()),
        },
        match event {
            GcEvent::Completed(output) => event.deep_view() == GcEventView::Completed(
                output.deep_view(),
            ),
            GcEvent::NotStarted { reason } => event.deep_view() == (GcEventView::NotStarted {
                reason: reason@,
            }),
        },
        match step {
            LinkStep::Remove { target } => step.deep_view() == (LinkStepView::Remove {
                target: target@,
            }),
            LinkStep::Link { link_path, target } => step.deep_view() == (LinkStepView::Link {
                link_path: link_path@,
                target: target@,
            }),
        },
{
}

/// The stages and actions of the report on a project are seen as what they are.
pub proof fn law_reports_are_seen<'a>(stage: MetadataStage, action: MetadataAction<'a>)
    ensures
        match stage {
            MetadataStage::AskingFlake => stage.deep_view() is AskingFlake,
            MetadataStage::AskingProject { metadata } => stage.deep_view() == (
            MetadataStageView::AskingProject { metadata: metadata@ }),
            MetadataStage::Finished => stage.deep_view() is Finished,
        },
        match action {
            MetadataAction::Perform(request) => action.deep_view() == MetadataActionView::Perform(
                request.deep_view(),
            ),
            MetadataAction::Succeed(text) => action.deep_view() == MetadataActionView::Succeed(
                text@,
            ),
            MetadataAction::Fail(e) => action.deep_view() == MetadataActionView::Fail(
                e.deep_view(),
            ),
        },
{
}

} // verus!
