//! The course of one command: how it is started, and what follows from the way
//! it ends.
use vstd::prelude::*;
use vstd::string::*;

use crate::bytes::{from_utf8_lossy, lossy_text};
use crate::caches::CachixCaches;
use crate::command::{display_command, Command, CommandView};
use crate::error::{NixError, NixErrorView};
use crate::nix::{search_outcome, Nix, NixView};
use crate::notice::{error_notice, information, report, Level, Notice, NoticeView};
use crate::options::{Environment, Options, OptionsView};
use crate::path::{join_path, path_under};
use crate::text::{ends_with, has_suffix};

verus! {

/// What a process left behind.
#[derive(Debug, PartialEq, Eq)]
pub struct Output {
    pub success: bool,
    /// The exit code, where the process was not ended from outside.
    pub code: Option<i32>,
    pub stdout: Vec<u8>,
    pub stderr: Vec<u8>,
    /// The paths that the evaluation cache saw the process read.
    pub paths: Vec<String>,
}

/// [`Output`] with the bytes and texts as sequences.
pub struct OutputView {
    pub success: bool,
    pub code: Option<i32>,
    pub stdout: Seq<u8>,
    pub stderr: Seq<u8>,
    pub paths: Seq<Seq<char>>,
}

impl DeepView for Output {
    type V = OutputView;

    open spec fn deep_view(&self) -> OutputView {
        OutputView {
            success: self.success,
            code: self.code,
            stdout: self.stdout@,
            stderr: self.stderr@,
            paths: self.paths.deep_view(),
        }
    }
}

impl Output {
    /// What a process left behind that the evaluation cache had no part in: no
    /// paths are known.
    pub fn uncached(success: bool, code: Option<i32>, stdout: Vec<u8>, stderr: Vec<u8>) -> (r:
        Output)
        ensures
            r.deep_view() == (OutputView {
                success,
                code,
                stdout: stdout@,
                stderr: stderr@,
                paths: Seq::empty(),
            }),
    {
        let paths: Vec<String> = Vec::new();
        assert(paths.deep_view() =~= Seq::empty());
        Output { success, code, stdout, stderr, paths }
    }
}

/// Which of its streams a process shares with the front end.
#[derive(Clone, Copy, Debug, PartialEq, Eq, Structural)]
pub struct Streams {
    pub stdin: bool,
    pub stdout: bool,
    pub stderr: bool,
}

/// How much of an evaluation's log is shown.
#[derive(Clone, Copy, Debug, PartialEq, Eq, Structural)]
pub enum Verbosity {
    Error,
    Info,
    Talkative,
}

/// What the evaluation cache is asked to do.
#[derive(Debug, PartialEq, Eq)]
pub struct CacheRequest {
    /// Paths whose change makes the cached output stale.
    pub watch: Vec<String>,
    /// Paths whose change is of no account.
    pub unwatch: Vec<String>,
    /// Whether what is cached is to be made anew.
    pub force_refresh: bool,
    /// How much of the log is shown, if any.
    pub verbosity: Option<Verbosity>,
}

/// [`CacheRequest`] with the texts as character sequences.
#[verifier::ext_equal]
pub struct CacheRequestView {
    pub watch: Seq<Seq<char>>,
    pub unwatch: Seq<Seq<char>>,
    pub force_refresh: bool,
    pub verbosity: Option<Verbosity>,
}

impl DeepView for CacheRequest {
    type V = CacheRequestView;

    open spec fn deep_view(&self) -> CacheRequestView {
        CacheRequestView {
            watch: self.watch.deep_view(),
            unwatch: self.unwatch.deep_view(),
            force_refresh: self.force_refresh,
            verbosity: self.verbosity,
        }
    }
}

/// How far a command has come.
#[derive(Clone, Copy, Debug, PartialEq, Eq, Structural)]
pub enum RunStage {
    /// It is to take the place of the running process.
    Replacing,
    /// The evaluation cache is asked whether it can serve the command.
    AskingCache,
    /// It runs in a process of its own.
    Running,
    /// It failed with this exit code and is to start again in the debugger.
    Debugging { code: Option<i32> },
    /// It is over.
    Finished,
}

/// A command on its way.
#[derive(Debug, PartialEq, Eq)]
pub struct NixRun {
    pub command: Command,
    pub logging: bool,
    pub logging_stdout: bool,
    pub stage: RunStage,
}

/// [`NixRun`] with the texts as character sequences.
#[verifier::ext_equal]
pub struct NixRunView {
    pub command: CommandView,
    pub logging: bool,
    pub logging_stdout: bool,
    pub stage: RunStage,
}

impl DeepView for NixRun {
    type V = NixRunView;

    open spec fn deep_view(&self) -> NixRunView {
        NixRunView {
            command: self.command.deep_view(),
            logging: self.logging,
            logging_stdout: self.logging_stdout,
            stage: self.stage,
        }
    }
}

/// What is to be done next for a command.
#[derive(Debug, PartialEq, Eq)]
pub enum RunAction {
    /// Let the command take the place of the running process.
    ReplaceProcess,
    /// Ask the evaluation cache whether it can serve the command.
    AskCache,
    /// Start the command and wait for its end.
    Spawn { streams: Streams },
    /// Have the evaluation cache run the command.
    SpawnCached { streams: Streams, cache: CacheRequest },
    /// Nothing more: the command succeeded.
    Succeed(Output),
    /// Nothing more: the command failed.
    Fail(NixError),
}

/// [`RunAction`] with the texts as character sequences.
pub enum RunActionView {
    ReplaceProcess,
    AskCache,
    Spawn { streams: Streams },
    SpawnCached { streams: Streams, cache: CacheRequestView },
    Succeed(OutputView),
    Fail(NixErrorView),
}

impl DeepView for RunAction {
    type V = RunActionView;

    open spec fn deep_view(&self) -> RunActionView {
        match self {
            RunAction::ReplaceProcess => RunActionView::ReplaceProcess,
            RunAction::AskCache => RunActionView::AskCache,
            RunAction::Spawn { streams } => RunActionView::Spawn { streams: *streams },
            RunAction::SpawnCached { streams, cache } => RunActionView::SpawnCached {
                streams: *streams,
                cache: cache.deep_view(),
            },
            RunAction::Succeed(output) => RunActionView::Succeed(output.deep_view()),
            RunAction::Fail(e) => RunActionView::Fail(e.deep_view()),
        }
    }
}

/// What became of an action.
#[derive(Debug, PartialEq, Eq)]
pub enum RunEvent {
    /// The running process was not replaced, for the reason given.
    NotReplaced { reason: String },
    /// The evaluation cache can serve the command, or it cannot.
    CacheAnswered { supported: bool },
    /// The command did not start, for the reason given.
    NotStarted { reason: String },
    /// The command came to its end.
    Completed(Output),
}

/// [`RunEvent`] with the texts as character sequences.
pub enum RunEventView {
    NotReplaced { reason: Seq<char> },
    CacheAnswered { supported: bool },
    NotStarted { reason: Seq<char> },
    Completed(OutputView),
}

impl DeepView for RunEvent {
    type V = RunEventView;

    open spec fn deep_view(&self) -> RunEventView {
        match self {
            RunEvent::NotReplaced { reason } => RunEventView::NotReplaced { reason: reason@ },
            RunEvent::CacheAnswered { supported } => RunEventView::CacheAnswered {
                supported: *supported,
            },
            RunEvent::NotStarted { reason } => RunEventView::NotStarted { reason: reason@ },
            RunEvent::Completed(output) => RunEventView::Completed(output.deep_view()),
        }
    }
}

impl RunStage {
    /// Whether the event can follow what was asked for at this stage.
    pub open spec fn awaits(self, event: RunEventView) -> bool {
        match self {
            RunStage::Replacing => event is NotReplaced,
            RunStage::AskingCache => event is CacheAnswered,
            RunStage::Running => event is NotStarted || event is Completed,
            RunStage::Debugging { .. } => event is NotReplaced,
            RunStage::Finished => false,
        }
    }
}

/// The report on a command that failed, of what it printed.
pub open spec fn failure_report(stdout: Seq<char>, stderr: Seq<char>) -> Seq<char> {
    "Command produced the following output:\n"@ + stdout + "\n"@ + stderr
}

impl NixRunView {
    pub open spec fn streams(self) -> Streams {
        Streams {
            stdin: self.logging,
            stdout: self.logging && self.logging_stdout,
            stderr: self.logging,
        }
    }

    pub open spec fn at(self, stage: RunStage) -> NixRunView {
        NixRunView { stage, ..self }
    }
}

impl NixView {
    /// Whether the debugger is wanted and the command is one that has it.
    pub open spec fn debugs(self, command: CommandView) -> bool {
        self.global_options.nix_debugger && has_suffix(command.program, "bin/nix"@)
    }

    /// What the evaluation cache is asked to do for a command.
    pub open spec fn cache_request(self, logging: bool) -> CacheRequestView {
        CacheRequestView {
            watch: seq![path_under(self.devenv_root, "devenv.yaml"@)],
            unwatch: seq![
                path_under(self.devenv_root, ".devenv.flake.nix"@),
                self.devenv_dotfile,
            ],
            force_refresh: self.global_options.refresh_eval_cache,
            verbosity: if !logging {
                None
            } else if self.global_options.verbose {
                Some(Verbosity::Talkative)
            } else if self.global_options.quiet {
                Some(Verbosity::Error)
            } else {
                Some(Verbosity::Info)
            },
        }
    }

    /// How a command sets out: in place of the running process where that is
    /// wanted, and else in a process of its own, which the evaluation cache is
    /// asked to serve where caching is on.
    pub open spec fn run_begun(self, command: CommandView, options: OptionsView) -> (
        NixRunView,
        RunActionView,
    ) {
        let run = NixRunView {
            command,
            logging: options.logging,
            logging_stdout: options.logging_stdout,
            stage: RunStage::Running,
        };
        if options.replace_shell {
            let replacement = if self.debugs(command) {
                command.with_arg("--debugger"@)
            } else {
                command
            };
            (
                NixRunView { command: replacement, stage: RunStage::Replacing, ..run },
                RunActionView::ReplaceProcess,
            )
        } else if self.global_options.eval_cache && options.cache_output {
            (run.at(RunStage::AskingCache), RunActionView::AskCache)
        } else {
            (run, RunActionView::Spawn { streams: run.streams() })
        }
    }

    /// What the user is told of a command that failed.
    pub open spec fn failure_notices(self, run: NixRunView, output: OutputView) -> Seq<NoticeView> {
        let about_output: Seq<NoticeView> = if run.logging {
            seq![
                NoticeView { level: Level::Plain, text: ""@ },
                error_notice(
                    failure_report(lossy_text(output.stdout), lossy_text(output.stderr)),
                ),
            ]
        } else {
            Seq::empty()
        };
        let about_debugger: Seq<NoticeView> = if self.debugs(run.command) {
            seq![information("Starting Nix debugger ..."@)]
        } else {
            Seq::empty()
        };
        about_output + about_debugger
    }

    /// How a command goes on after an event, and what the user is told.
    pub open spec fn run_continued(self, run: NixRunView, event: RunEventView) -> (
        NixRunView,
        RunActionView,
        Seq<NoticeView>,
    )
        recommends
            run.stage.awaits(event),
    {
        match event {
            RunEventView::NotReplaced { reason } => match run.stage {
                RunStage::Debugging { code } => (
                    run.at(RunStage::Finished),
                    RunActionView::Fail(
                        NixErrorView::CommandFailed { command: run.command.shown(), code },
                    ),
                    Seq::empty(),
                ),
                _ => (
                    run.at(RunStage::Finished),
                    RunActionView::Fail(NixErrorView::ShellNotReplaced),
                    seq![
                        error_notice(
                            "Failed to replace shell with `"@ + run.command.shown() + "`: "@
                                + reason,
                        ),
                    ],
                ),
            },
            RunEventView::CacheAnswered { supported } => (
                run.at(RunStage::Running),
                if supported {
                    RunActionView::SpawnCached {
                        streams: run.streams(),
                        cache: self.cache_request(run.logging),
                    }
                } else {
                    RunActionView::Spawn { streams: run.streams() }
                },
                Seq::empty(),
            ),
            RunEventView::NotStarted { reason } => (
                run.at(RunStage::Finished),
                RunActionView::Fail(
                    NixErrorView::NotStarted { command: run.command.shown(), reason },
                ),
                Seq::empty(),
            ),
            RunEventView::Completed(output) => if output.success {
                (run.at(RunStage::Finished), RunActionView::Succeed(output), Seq::empty())
            } else if self.debugs(run.command) {
                (
                    NixRunView {
                        command: run.command.with_arg("--debugger"@),
                        stage: RunStage::Debugging { code: output.code },
                        ..run
                    },
                    RunActionView::ReplaceProcess,
                    self.failure_notices(run, output),
                )
            } else {
                (
                    run.at(RunStage::Finished),
                    RunActionView::Fail(
                        NixErrorView::CommandFailed {
                            command: run.command.shown(),
                            code: output.code,
                        },
                    ),
                    self.failure_notices(run, output),
                )
            },
        }
    }
}

/// Writes the report on a command that failed.
pub fn report_failure(stdout: &str, stderr: &str) -> (s: String)
    ensures
        s@ == failure_report(stdout@, stderr@),
{
    let mut s = String::from_str("Command produced the following output:\n");
    s.append(stdout);
    s.append("\n");
    s.append(stderr);
    s
}

impl NixRun {
    fn streams(&self) -> (r: Streams)
        ensures
            r == self.deep_view().streams(),
    {
        Streams {
            stdin: self.logging,
            stdout: self.logging && self.logging_stdout,
            stderr: self.logging,
        }
    }

    fn at(self, stage: RunStage) -> (r: NixRun)
        ensures
            r.deep_view() == self.deep_view().at(stage),
    {
        NixRun { stage, ..self }
    }
}

impl<'a> Nix<'a> {
    fn debugs(&self, command: &Command) -> (r: bool)
        ensures
            r == self.deep_view().debugs(command.deep_view()),
    {
        self.global_options.nix_debugger && ends_with(command.program.as_str(), "bin/nix")
    }

    fn cache_request(&self, logging: bool) -> (r: CacheRequest)
        ensures
            r.deep_view() == self.deep_view().cache_request(logging),
    {
        let mut watch: Vec<String> = Vec::new();
        watch.push(join_path(self.devenv_root.as_str(), "devenv.yaml"));
        let mut unwatch: Vec<String> = Vec::new();
        unwatch.push(join_path(self.devenv_root.as_str(), ".devenv.flake.nix"));
        unwatch.push(self.devenv_dotfile.clone());
        let verbosity = if !logging {
            None
        } else if self.global_options.verbose {
            Some(Verbosity::Talkative)
        } else if self.global_options.quiet {
            Some(Verbosity::Error)
        } else {
            Some(Verbosity::Info)
        };
        let r = CacheRequest {
            watch,
            unwatch,
            force_refresh: self.global_options.refresh_eval_cache,
            verbosity,
        };
        assert(r.deep_view() =~= self.deep_view().cache_request(logging));
        r
    }

    /// Sets a command out on its way.
    pub fn run_nix_command(&self, command: Command, options: &Options<'a>) -> (r: (
        NixRun,
        RunAction,
    ))
        ensures
            (r.0.deep_view(), r.1.deep_view()) == self.deep_view().run_begun(
                command.deep_view(),
                options.deep_view(),
            ),
    {
        let mut run = NixRun {
            command,
            logging: options.logging,
            logging_stdout: options.logging_stdout,
            stage: RunStage::Running,
        };
        if options.replace_shell {
            if self.debugs(&run.command) {
                run.command.arg("--debugger");
            }
            (run.at(RunStage::Replacing), RunAction::ReplaceProcess)
        } else if self.global_options.eval_cache && options.cache_output {
            (run.at(RunStage::AskingCache), RunAction::AskCache)
        } else {
            let streams = run.streams();
            (run, RunAction::Spawn { streams })
        }
    }

    /// Leads a command on after an event.
    pub fn continue_run(&self, run: NixRun, event: RunEvent, log: &mut Vec<Notice>) -> (r: (
        NixRun,
        RunAction,
    ))
        requires
            run.stage.awaits(event.deep_view()),
        ensures
            ({
                let next = self.deep_view().run_continued(run.deep_view(), event.deep_view());
                &&& r.0.deep_view() == next.0
                &&& r.1.deep_view() == next.1
                &&& final(log).deep_view() == old(log).deep_view() + next.2
            }),
            r.1 matches RunAction::SpawnCached { cache, .. } ==> cache.force_refresh
                == self.global_options.refresh_eval_cache,
    {
        let ghost told = self.deep_view().run_continued(run.deep_view(), event.deep_view()).2;
        match event {
            RunEvent::NotReplaced { reason } => {
                let command = display_command(&run.command);
                match run.stage {
                    RunStage::Debugging { code } => {
                        assert(log.deep_view() =~= old(log).deep_view() + told);
                        (
                            run.at(RunStage::Finished),
                            RunAction::Fail(NixError::CommandFailed { command, code }),
                        )
                    },
                    _ => {
                        let mut text = String::from_str("Failed to replace shell with `");
                        text.append(command.as_str());
                        text.append("`: ");
                        text.append(reason.as_str());
                        report(log, Level::Error, text);
                        assert(log.deep_view() =~= old(log).deep_view() + told);
                        (run.at(RunStage::Finished), RunAction::Fail(NixError::ShellNotReplaced))
                    },
                }
            },
            RunEvent::CacheAnswered { supported } => {
                assert(log.deep_view() =~= old(log).deep_view() + told);
                let streams = run.streams();
                let action = if supported {
                    RunAction::SpawnCached { streams, cache: self.cache_request(run.logging) }
                } else {
                    RunAction::Spawn { streams }
                };
                (run.at(RunStage::Running), action)
            },
            RunEvent::NotStarted { reason } => {
                assert(log.deep_view() =~= old(log).deep_view() + told);
                let command = display_command(&run.command);
                (
                    run.at(RunStage::Finished),
                    RunAction::Fail(NixError::NotStarted { command, reason }),
                )
            },
            RunEvent::Completed(output) => {
                if output.success {
                    assert(log.deep_view() =~= old(log).deep_view() + told);
                    return (run.at(RunStage::Finished), RunAction::Succeed(output));
                }
                if run.logging {
                    report(log, Level::Plain, String::from_str(""));
                    let stdout = from_utf8_lossy(&output.stdout);
                    let stderr = from_utf8_lossy(&output.stderr);
                    report(log, Level::Error, report_failure(stdout.as_str(), stderr.as_str()));
                }
                if self.debugs(&run.command) {
                    report(log, Level::Info, String::from_str("Starting Nix debugger ..."));
                    assert(log.deep_view() =~= old(log).deep_view() + told);
                    let mut again = run;
                    again.command.arg("--debugger");
                    (
                        again.at(RunStage::Debugging { code: output.code }),
                        RunAction::ReplaceProcess,
                    )
                } else {
                    assert(log.deep_view() =~= old(log).deep_view() + told);
                    let command = display_command(&run.command);
                    (
                        run.at(RunStage::Finished),
                        RunAction::Fail(
                            NixError::CommandFailed { command, code: output.code },
                        ),
                    )
                }
            },
        }
    }

    /// Makes a request into a command and sets it out on its way.
    pub fn run_nix(
        &self,
        command: &str,
        args: &[&str],
        options: &Options<'a>,
        environment: &Environment,
        log: &mut Vec<Notice>,
    ) -> (r: Result<(NixRun, RunAction), NixError>)
        ensures
            match r {
                Ok(begun) => environment.deep_view().devenv_nix matches Some(devenv_nix) && (
                    begun.0.deep_view(),
                    begun.1.deep_view(),
                ) == self.deep_view().run_begun(
                    self.deep_view().prepared(
                        command@,
                        args.deep_view(),
                        options.deep_view(),
                        devenv_nix,
                    ),
                    options.deep_view(),
                ),
                Err(e) => environment.deep_view().devenv_nix is None && e is DevenvNixNotSet,
            },
            final(log).deep_view() == old(log).deep_view() + self.deep_view().prepare_notices(
                command@,
                args.deep_view(),
                options.deep_view(),
                environment.deep_view(),
            ),
    {
        match self.prepare_command(command, args, options, environment, log) {
            Ok(cmd) => Ok(self.run_nix_command(cmd, options)),
            Err(e) => Err(e),
        }
    }

    /// Makes a request that uses caches into a command and sets it out on its
    /// way.
    pub fn run_nix_with_substituters(
        &self,
        command: &str,
        args: &[&str],
        options: &Options<'a>,
        found: Result<&CachixCaches, &str>,
        environment: &Environment,
        log: &mut Vec<Notice>,
    ) -> (r: Result<(NixRun, RunAction), NixError>)
        ensures
            match r {
                Ok(begun) => environment.deep_view().devenv_nix matches Some(devenv_nix) && (
                    begun.0.deep_view(),
                    begun.1.deep_view(),
                ) == self.deep_view().run_begun(
                    self.deep_view().prepared_with_substituters(
                        command@,
                        args.deep_view(),
                        options.deep_view(),
                        search_outcome(found),
                        devenv_nix,
                        environment.cachix_auth_token is Some,
                    ),
                    options.deep_view(),
                ),
                Err(e) => environment.deep_view().devenv_nix is None && e is DevenvNixNotSet,
            },
            final(log).deep_view() == old(log).deep_view()
                + self.deep_view().substituter_notices(
                command@,
                args.deep_view(),
                options.deep_view(),
                search_outcome(found),
                environment.deep_view(),
            ),
    {
        match self.prepare_command_with_substituters(
            command,
            args,
            options,
            found,
            environment,
            log,
        ) {
            Ok(cmd) => Ok(self.run_nix_command(cmd, options)),
            Err(e) => Err(e),
        }
    }
}

} // verus!
