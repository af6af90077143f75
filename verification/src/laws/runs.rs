//! What holds of every command on its way, and of the report that two of them make.
use vstd::prelude::*;

use crate::bytes::lossy_text;
use crate::command::CommandView;
use crate::error::NixErrorView;
use crate::laws::texts::law_suffixes_end_the_text;
use crate::nix::NixView;
use crate::notice::{Level, NoticeView};
use crate::options::OptionsView;
use crate::path::path_under;
use crate::requests::{project_report, MetadataActionView, OutcomeView};
use crate::run::{
    failure_report, CacheRequestView, NixRunView, OutputView, RunActionView, RunEventView, RunStage,
    Streams, Verbosity,
};

verus! {

impl NixView {
    /// Whether a command that sets out with these options passes through these
    /// runs, led on by these events.
    pub open spec fn runs(
        self,
        command: CommandView,
        options: OptionsView,
        runs: Seq<NixRunView>,
        events: Seq<RunEventView>,
    ) -> bool {
        &&& runs.len() == events.len() + 1
        &&& runs[0] == self.run_begun(command, options).0
        &&& forall|i: int|
            0 <= i < events.len() ==> (#[trigger] runs[i]).stage.awaits(events[i])
        &&& forall|i: int|
            0 <= i < events.len() ==> runs[i + 1] == (#[trigger] self.run_continued(
                runs[i],
                events[i],
            )).0
    }
}

/// A command is reported as a success only where its process succeeded, and then
/// what the process left behind is handed on as it is.
pub proof fn law_success_is_the_process_own(
    nix: NixView,
    run: NixRunView,
    event: RunEventView,
    output: OutputView,
)
    requires
        run.stage.awaits(event),
    ensures
        nix.run_continued(run, event).1 == RunActionView::Succeed(output) <==> event
            == RunEventView::Completed(output) && output.success,
{
}

/// A command that fails is reported with its own exit code, whether the debugger
/// was wanted or not.
pub proof fn law_failure_keeps_the_exit_code(
    nix: NixView,
    command: CommandView,
    options: OptionsView,
    runs: Seq<NixRunView>,
    events: Seq<RunEventView>,
    n: int,
    m: int,
)
    requires
        nix.runs(command, options, runs, events),
        0 <= n <= m < events.len(),
        events[n] matches RunEventView::Completed(output) && !output.success,
        runs[m + 1].stage is Finished,
    ensures
        events[n] matches RunEventView::Completed(output) && nix.run_continued(
            runs[m],
            events[m],
        ).1 matches RunActionView::Fail(e) && e matches NixErrorView::CommandFailed { code, .. }
            && code == output.code,
{
    assert(runs[n].stage.awaits(events[n]));
    assert(runs[n + 1] == nix.run_continued(runs[n], events[n]).0);
    if m > n {
        assert(runs[n + 1].stage.awaits(events[n + 1]));
        assert(runs[n + 2] == nix.run_continued(runs[n + 1], events[n + 1]).0);
        if m > n + 1 {
            assert(runs[n + 2].stage.awaits(events[n + 2]));
        }
    }
}

/// How many steps a command can still take.
pub open spec fn run_steps_left(stage: RunStage) -> int {
    match stage {
        RunStage::Replacing => 1,
        RunStage::AskingCache => 3,
        RunStage::Running => 2,
        RunStage::Debugging { .. } => 1,
        RunStage::Finished => 0,
    }
}

proof fn lemma_run_steps_left(
    nix: NixView,
    command: CommandView,
    options: OptionsView,
    runs: Seq<NixRunView>,
    events: Seq<RunEventView>,
    n: int,
)
    requires
        nix.runs(command, options, runs, events),
        0 <= n <= events.len(),
    ensures
        run_steps_left(runs[n].stage) + n <= 3,
    decreases n,
{
    if n > 0 {
        let m = n - 1;
        lemma_run_steps_left(nix, command, options, runs, events, m);
        assert(runs[m].stage.awaits(events[m]));
        assert(runs[m + 1] == nix.run_continued(runs[m], events[m]).0);
    }
}

/// Every command comes to an end within three steps.
pub proof fn law_runs_end(
    nix: NixView,
    command: CommandView,
    options: OptionsView,
    runs: Seq<NixRunView>,
    events: Seq<RunEventView>,
)
    requires
        nix.runs(command, options, runs, events),
    ensures
        events.len() <= 3,
{
    lemma_run_steps_left(nix, command, options, runs, events, events.len() as int);
}

/// The evaluation cache serves a command only where the user has it switched on,
/// the request allows it, and the cache can.
pub proof fn law_caching_needs_all_to_agree(
    nix: NixView,
    command: CommandView,
    options: OptionsView,
    runs: Seq<NixRunView>,
    events: Seq<RunEventView>,
    n: int,
)
    requires
        nix.runs(command, options, runs, events),
        0 <= n < events.len(),
        nix.run_continued(runs[n], events[n]).1 is SpawnCached,
    ensures
        nix.global_options.eval_cache,
        options.cache_output,
        !options.replace_shell,
        events[n] == (RunEventView::CacheAnswered { supported: true }),
{
    assert(runs[n].stage.awaits(events[n]));
    if n > 0 {
        assert(runs[n - 1].stage.awaits(events[n - 1]));
        assert(runs[n] == nix.run_continued(runs[n - 1], events[n - 1]).0);
    }
}

/// A command that takes the place of the running process is never started in a
/// process of its own.
pub proof fn law_replacement_is_not_spawned(
    nix: NixView,
    command: CommandView,
    options: OptionsView,
    runs: Seq<NixRunView>,
    events: Seq<RunEventView>,
    n: int,
)
    requires
        nix.runs(command, options, runs, events),
        options.replace_shell,
        0 <= n < events.len(),
    ensures
        nix.run_begun(command, options).1 is ReplaceProcess,
        nix.run_continued(runs[n], events[n]).1 is Fail,
{
    assert(runs[0].stage.awaits(events[0]));
    assert(runs[1] == nix.run_continued(runs[0], events[0]).0);
    if n > 0 {
        assert(runs[1].stage.awaits(events[1]));
    }
}

/// A development shell is never served by the evaluation cache.
pub proof fn law_development_shells_are_not_cached(
    nix: NixView,
    command: CommandView,
    args: Seq<Seq<char>>,
    replace_shell: bool,
)
    ensures
        !(nix.run_begun(command, nix.develop_request(args, replace_shell).options).1 is AskCache),
{
}

/// Nothing in the directory of working files makes cached output stale, and
/// neither does the flake that is written for the project.
pub proof fn law_working_files_are_not_watched(nix: NixView, logging: bool)
    ensures
        nix.cache_request(logging).unwatch.contains(nix.devenv_dotfile),
        nix.cache_request(logging).unwatch.contains(
            path_under(nix.devenv_root, ".devenv.flake.nix"@),
        ),
{
    let unwatch = nix.cache_request(logging).unwatch;
    assert(unwatch[0] == path_under(nix.devenv_root, ".devenv.flake.nix"@));
    assert(unwatch[1] == nix.devenv_dotfile);
}

/// The project is asked about itself only once the flake has given its metadata,
/// and the report is made only once both have answered: of what both printed. A
/// request that fails is the failure of the report.
pub proof fn law_reports_need_both_answers(
    nix: NixView,
    metadata: OutputView,
    outcome: OutcomeView,
    info: OutcomeView,
)
    ensures
        nix.metadata_begun().1 == MetadataActionView::Perform(nix.flake_metadata_request()),
        ({
            let asked = nix.metadata_continued(nix.metadata_begun().0, outcome);
            &&& asked.1 == MetadataActionView::Perform(nix.info_request()) <==> outcome is Performed
            &&& outcome matches OutcomeView::Failed(e) ==> asked.1 == MetadataActionView::Fail(e)
                && asked.0 is Finished
        }),
        ({
            let asked = nix.metadata_continued(
                nix.metadata_begun().0,
                OutcomeView::Performed(metadata),
            );
            let told = nix.metadata_continued(asked.0, info);
            &&& told.0 is Finished
            &&& told.1 == match info {
                OutcomeView::Performed(output) => MetadataActionView::Succeed(
                    project_report(
                        lossy_text(metadata.stdout),
                        lossy_text(output.stdout),
                    ),
                ),
                OutcomeView::Failed(e) => MetadataActionView::Fail(e),
            }
        }),
{
}

/// What the evaluation cache is asked for is what the user and the request say:
/// the output is made anew exactly where the user wants it refreshed, whatever else
/// is set; the project's settings are watched; and the log is shown as far as the
/// user wants to see it, and not at all where nothing is shown.
pub proof fn law_the_cache_does_as_it_is_told(
    nix: NixView,
    run: NixRunView,
    event: RunEventView,
    streams: Streams,
    cache: CacheRequestView,
)
    requires
        run.stage.awaits(event),
        nix.run_continued(run, event).1 == (RunActionView::SpawnCached { streams, cache }),
    ensures
        cache.force_refresh == nix.global_options.refresh_eval_cache,
        cache.watch == seq![path_under(nix.devenv_root, "devenv.yaml"@)],
        cache.unwatch == seq![
            path_under(nix.devenv_root, ".devenv.flake.nix"@),
            nix.devenv_dotfile,
        ],
        cache.verbosity is None <==> !run.logging,
        run.logging && nix.global_options.verbose ==> cache.verbosity == Some(
            Verbosity::Talkative,
        ),
        run.logging && !nix.global_options.verbose && nix.global_options.quiet ==> cache.verbosity
            == Some(Verbosity::Error),
        run.logging && !nix.global_options.verbose && !nix.global_options.quiet ==> cache.verbosity
            == Some(Verbosity::Info),
{
}

/// A command that has a process of its own shares its input and its error output
/// where the request is logged, and its output where that is shown too, whether
/// the evaluation cache runs it or not.
pub proof fn law_streams_are_shared_as_asked(
    nix: NixView,
    command: CommandView,
    options: OptionsView,
    run: NixRunView,
    event: RunEventView,
    streams: Streams,
    cache: CacheRequestView,
)
    requires
        run.stage.awaits(event),
    ensures
        nix.run_begun(command, options).1 == (RunActionView::Spawn { streams })
            ==> streams.stdin == options.logging && streams.stderr == options.logging
            && streams.stdout == (options.logging && options.logging_stdout),
        nix.run_continued(run, event).1 == (RunActionView::Spawn { streams }) || nix.run_continued(
            run,
            event,
        ).1 == (RunActionView::SpawnCached { streams, cache }) ==> streams.stdin == run.logging
            && streams.stderr == run.logging && streams.stdout == (run.logging
            && run.logging_stdout),
{
}

/// A command sets out as it is, with what the request says of logging. It takes the
/// place of the running process exactly where that is wanted, and the cache is
/// asked exactly where both the user and the request allow it.
pub proof fn law_commands_set_out_as_asked(
    nix: NixView,
    command: CommandView,
    options: OptionsView,
)
    ensures
        ({
            let (run, action) = nix.run_begun(command, options);
            let asks = nix.global_options.eval_cache && options.cache_output;
            &&& run.logging == options.logging
            &&& run.logging_stdout == options.logging_stdout
            &&& run.command.program == command.program
            &&& run.command.envs == command.envs
            &&& run.command.current_dir == command.current_dir
            &&& options.replace_shell <==> action is ReplaceProcess
            &&& !options.replace_shell && asks <==> action is AskCache
            &&& !options.replace_shell && !asks <==> action is Spawn
            &&& action is ReplaceProcess ==> run.stage is Replacing
            &&& action is AskCache ==> run.stage is AskingCache
            &&& action is Spawn ==> run.stage is Running
            &&& !options.replace_shell ==> run.command == command
        }),
{
}

/// The debugger is for users who want it, and for programs that end in `bin/nix`.
pub proof fn law_the_debugger_is_for_nix(nix: NixView, command: CommandView)
    ensures
        nix.debugs(command) <==> nix.global_options.nix_debugger && exists|front: Seq<char>|
            command.program == #[trigger] (front + "bin/nix"@),
{
    law_suffixes_end_the_text(command.program, "bin/nix"@);
}

/// A command that takes the place of the running process gets the debugger where
/// it can have it, and is unchanged where not.
pub proof fn law_replacements_can_be_debugged(
    nix: NixView,
    command: CommandView,
    options: OptionsView,
)
    requires
        options.replace_shell,
    ensures
        nix.run_begun(command, options).0.command.args == if nix.debugs(command) {
            command.args.push("--debugger"@)
        } else {
            command.args
        },
{
}

/// No event changes what is logged, and only a failure that the debugger looks
/// into changes the command, by one argument.
pub proof fn law_runs_keep_their_command(nix: NixView, run: NixRunView, event: RunEventView)
    requires
        run.stage.awaits(event),
    ensures
        ({
            let next = nix.run_continued(run, event).0;
            &&& next.logging == run.logging
            &&& next.logging_stdout == run.logging_stdout
            &&& next.command.program == run.command.program
            &&& next.command.envs == run.command.envs
            &&& next.command.current_dir == run.command.current_dir
            &&& !(next.stage is Debugging) ==> next.command == run.command
            &&& next.stage is Debugging ==> next.command.args == run.command.args.push(
                "--debugger"@,
            )
        }),
{
}

/// What is done after each event: a shell that was not replaced is a failure, the
/// cache serves where it can and the command runs without it where it cannot, a
/// command that does not start is a failure with its reason, and a command that
/// fails is looked into where the debugger is wanted.
pub proof fn law_events_have_consequences(
    nix: NixView,
    run: NixRunView,
    event: RunEventView,
)
    requires
        run.stage.awaits(event),
    ensures
        ({
            let (next, action, told) = nix.run_continued(run, event);
            match event {
                RunEventView::NotReplaced { .. } => match run.stage {
                    RunStage::Debugging { code } => action == RunActionView::Fail(
                        NixErrorView::CommandFailed { command: run.command.shown(), code },
                    ),
                    _ => action == RunActionView::Fail(NixErrorView::ShellNotReplaced),
                },
                RunEventView::CacheAnswered { supported } => {
                    &&& next.stage is Running
                    &&& supported <==> action is SpawnCached
                    &&& !supported <==> action is Spawn
                },
                RunEventView::NotStarted { reason } => action == RunActionView::Fail(
                    NixErrorView::NotStarted { command: run.command.shown(), reason },
                ),
                RunEventView::Completed(output) => {
                    &&& output.success <==> action == RunActionView::Succeed(output)
                    &&& !output.success && nix.debugs(run.command) <==> action is ReplaceProcess
                    &&& action is ReplaceProcess ==> next.stage == (RunStage::Debugging {
                        code: output.code,
                    })
                    &&& !output.success && !nix.debugs(run.command) ==> action
                        == RunActionView::Fail(
                        NixErrorView::CommandFailed {
                            command: run.command.shown(),
                            code: output.code,
                        },
                    )
                },
            }
        }),
        ({
            let (next, action, told) = nix.run_continued(run, event);
            next.stage is Finished <==> action is Fail || action is Succeed
        }),
{
}

/// What the user is told of a command: nothing unless it fails. Of a shell that was
/// not replaced, the command and the reason; of a failure, the whole of what the
/// command printed where it is logged, and that the debugger starts where it does.
pub proof fn law_failures_are_told(nix: NixView, run: NixRunView, event: RunEventView)
    requires
        run.stage.awaits(event),
    ensures
        ({
            let told = nix.run_continued(run, event).2;
            match event {
                RunEventView::NotReplaced { reason } => if run.stage is Debugging {
                    told.len() == 0
                } else {
                    told == seq![
                        NoticeView {
                            level: Level::Error,
                            text: "Failed to replace shell with `"@ + run.command.shown() + "`: "@
                                + reason,
                        },
                    ]
                },
                RunEventView::Completed(output) if !output.success => {
                    let printed: Seq<NoticeView> = if run.logging {
                        seq![
                            NoticeView { level: Level::Plain, text: ""@ },
                            NoticeView {
                                level: Level::Error,
                                text: failure_report(
                                    lossy_text(output.stdout),
                                    lossy_text(output.stderr),
                                ),
                            },
                        ]
                    } else {
                        Seq::empty()
                    };
                    if nix.debugs(run.command) {
                        told == printed.push(
                            NoticeView { level: Level::Info, text: "Starting Nix debugger ..."@ },
                        )
                    } else {
                        told == printed
                    }
                },
                _ => told.len() == 0,
            }
        }),
{
    let told = nix.run_continued(run, event).2;
    if let RunEventView::Completed(output) = event {
        if !output.success {
            let printed: Seq<NoticeView> = if run.logging {
                seq![
                    NoticeView { level: Level::Plain, text: ""@ },
                    NoticeView {
                        level: Level::Error,
                        text: failure_report(lossy_text(output.stdout), lossy_text(output.stderr)),
                    },
                ]
            } else {
                Seq::empty()
            };
            if nix.debugs(run.command) {
                assert(told =~= printed.push(
                    NoticeView { level: Level::Info, text: "Starting Nix debugger ..."@ },
                ));
            } else {
                assert(told =~= printed);
            }
        }
    }
}

} // verus!
