use cnix::caches::{Cachix, CachixCaches};
use cnix::command::Command;
use cnix::error::NixError;
use cnix::keys::KnownKeys;
use cnix::nix::Nix;
use cnix::notice::{Level, Notice};
use cnix::options::{Config, Environment, GlobalOptions, Options};
use cnix::run::{
    report_failure, CacheRequest, Output, RunAction, RunEvent, RunStage, Streams, Verbosity,
};

fn global() -> GlobalOptions {
    GlobalOptions {
        verbose: false,
        quiet: false,
        max_jobs: 1,
        offline: false,
        impure: false,
        eval_cache: true,
        refresh_eval_cache: false,
        nix_debugger: false,
        nix_option: vec![],
    }
}

fn nix(global_options: GlobalOptions) -> Nix<'static> {
    Nix::new(
        Config { impure: false },
        global_options,
        "keys".to_string(),
        "home".to_string(),
        "/project/.devenv".to_string(),
        "dot".to_string(),
        "/project".to_string(),
    )
}

fn command(program: &str) -> Command {
    Command {
        program: program.to_string(),
        args: vec!["a".to_string(), "b".to_string()],
        envs: vec![],
        current_dir: None,
    }
}

fn notice(level: Level, text: &str) -> Notice {
    Notice { level, text: text.to_string() }
}

fn output(success: bool, code: Option<i32>) -> Output {
    Output {
        success,
        code,
        stdout: b"out".to_vec(),
        stderr: vec![b'e', 0xff],
        paths: vec!["/project/devenv.nix".to_string()],
    }
}

const SHARED: Streams = Streams { stdin: true, stdout: false, stderr: true };

#[test]
fn a_command_that_succeeds() {
    let nix = nix(global());
    let mut log = vec![];
    let (run, action) = nix.run_nix_command(command("/n/bin/nix"), &nix.options);
    assert_eq!(action, RunAction::Spawn { streams: SHARED });
    let (run, action) =
        nix.continue_run(run, RunEvent::Completed(output(true, Some(0))), &mut log);
    assert_eq!(action, RunAction::Succeed(output(true, Some(0))));
    assert_eq!(run.stage, RunStage::Finished);
    assert_eq!(log, []);
}

#[test]
fn a_command_that_fails() {
    let nix = nix(global());
    let mut log = vec![];
    let (run, _) = nix.run_nix_command(command("/n/bin/nix"), &nix.options);
    let (_, action) =
        nix.continue_run(run, RunEvent::Completed(output(false, Some(3))), &mut log);
    let e = NixError::CommandFailed { command: "/n/bin/nix a b".to_string(), code: Some(3) };
    assert_eq!(e.message(), "Command `/n/bin/nix a b` failed with with exit code 3");
    assert_eq!(action, RunAction::Fail(e));
    assert_eq!(
        log,
        [
            notice(Level::Plain, ""),
            notice(Level::Error, "Command produced the following output:\nout\ne\u{fffd}"),
        ]
    );
    assert_eq!(report_failure("o", "e"), "Command produced the following output:\no\ne");
}

#[test]
fn a_silent_command_that_is_killed() {
    let nix = nix(global());
    let mut log = vec![];
    let silent = Options { logging: false, logging_stdout: true, ..nix.options };
    let (run, action) = nix.run_nix_command(command("/n/bin/nix-env"), &silent);
    assert_eq!(
        action,
        RunAction::Spawn { streams: Streams { stdin: false, stdout: false, stderr: false } }
    );
    let (_, action) = nix.continue_run(run, RunEvent::Completed(output(false, None)), &mut log);
    let e = NixError::CommandFailed { command: "/n/bin/nix-env a b".to_string(), code: None };
    assert_eq!(e.message(), "Command `/n/bin/nix-env a b` failed with without exit code");
    assert_eq!(action, RunAction::Fail(e));
    assert_eq!(log, []);
}

#[test]
fn a_command_that_does_not_start() {
    let nix = nix(global());
    let mut log = vec![];
    let (run, _) = nix.run_nix_command(command("nix"), &nix.options);
    let event = RunEvent::NotStarted { reason: "not found".to_string() };
    let (_, action) = nix.continue_run(run, event, &mut log);
    let e = NixError::NotStarted {
        command: "nix a b".to_string(),
        reason: "not found".to_string(),
    };
    assert_eq!(e.message(), "Failed to run command `nix a b`");
    assert_eq!(action, RunAction::Fail(e));
    assert_eq!(log, []);
}

#[test]
fn a_shell_that_is_not_replaced() {
    let mut options = global();
    options.nix_debugger = true;
    let nix = nix(options);
    let mut log = vec![];
    let replace = Options { replace_shell: true, cache_output: true, ..nix.options };
    let (run, action) = nix.run_nix_command(command("/n/bin/nix"), &replace);
    assert_eq!(action, RunAction::ReplaceProcess);
    assert_eq!(run.command.args, ["a", "b", "--debugger"]);
    let event = RunEvent::NotReplaced { reason: "denied".to_string() };
    let (_, action) = nix.continue_run(run, event, &mut log);
    assert_eq!(action, RunAction::Fail(NixError::ShellNotReplaced));
    assert_eq!(NixError::ShellNotReplaced.message(), "Failed to replace shell");
    assert_eq!(
        log,
        [notice(
            Level::Error,
            "Failed to replace shell with `/n/bin/nix a b --debugger`: denied"
        )]
    );
}

#[test]
fn the_debugger_is_for_nix_alone() {
    let mut options = global();
    options.nix_debugger = true;
    let nix = nix(options);
    let replace = Options { replace_shell: true, ..nix.options };
    let (run, _) = nix.run_nix_command(command("cachix"), &replace);
    assert_eq!(run.command.args, ["a", "b"]);
}

#[test]
fn a_failure_starts_the_debugger() {
    let mut options = global();
    options.nix_debugger = true;
    let nix = nix(options);
    let mut log = vec![];
    let (run, _) = nix.run_nix_command(command("/n/bin/nix"), &nix.options);
    let (run, action) =
        nix.continue_run(run, RunEvent::Completed(output(false, Some(1))), &mut log);
    assert_eq!(action, RunAction::ReplaceProcess);
    assert_eq!(run.stage, RunStage::Debugging { code: Some(1) });
    assert_eq!(run.command.args, ["a", "b", "--debugger"]);
    assert_eq!(log.len(), 3);
    assert_eq!(log[2], notice(Level::Info, "Starting Nix debugger ..."));
    let event = RunEvent::NotReplaced { reason: "denied".to_string() };
    let (_, action) = nix.continue_run(run, event, &mut log);
    assert_eq!(
        action,
        RunAction::Fail(NixError::CommandFailed {
            command: "/n/bin/nix a b --debugger".to_string(),
            code: Some(1),
        })
    );
    assert_eq!(log.len(), 3);
}

#[test]
fn the_cache_is_asked_and_serves() {
    for (verbose, quiet, verbosity) in [
        (false, false, Verbosity::Info),
        (false, true, Verbosity::Error),
        (true, true, Verbosity::Talkative),
    ] {
        let mut options = global();
        options.verbose = verbose;
        options.quiet = quiet;
        options.refresh_eval_cache = verbose;
        let nix = nix(options);
        let cached =
            Options { cache_output: true, logging_stdout: true, ..nix.options };
        let (run, action) = nix.run_nix_command(command("/n/bin/nix"), &cached);
        assert_eq!(action, RunAction::AskCache);
        let event = RunEvent::CacheAnswered { supported: true };
        let (run, action) = nix.continue_run(run, event, &mut vec![]);
        assert_eq!(run.stage, RunStage::Running);
        assert_eq!(
            action,
            RunAction::SpawnCached {
                streams: Streams { stdin: true, stdout: true, stderr: true },
                cache: CacheRequest {
                    watch: vec!["/project/devenv.yaml".to_string()],
                    unwatch: vec![
                        "/project/.devenv.flake.nix".to_string(),
                        "/project/.devenv".to_string(),
                    ],
                    force_refresh: verbose,
                    verbosity: Some(verbosity),
                },
            }
        );
    }
}

#[test]
fn a_silent_cache_shows_no_log() {
    let nix = nix(global());
    let cached = Options { cache_output: true, logging: false, ..nix.options };
    let (run, _) = nix.run_nix_command(command("/n/bin/nix"), &cached);
    let event = RunEvent::CacheAnswered { supported: true };
    match nix.continue_run(run, event, &mut vec![]).1 {
        RunAction::SpawnCached { cache, .. } => assert_eq!(cache.verbosity, None),
        _ => unreachable!(),
    }
}

#[test]
fn the_cache_is_asked_and_declines() {
    let nix = nix(global());
    let cached = Options { cache_output: true, ..nix.options };
    let (run, _) = nix.run_nix_command(command("/n/bin/nix"), &cached);
    let event = RunEvent::CacheAnswered { supported: false };
    let (_, action) = nix.continue_run(run, event, &mut vec![]);
    assert_eq!(action, RunAction::Spawn { streams: SHARED });
}

#[test]
fn the_cache_can_be_switched_off() {
    let mut options = global();
    options.eval_cache = false;
    let nix = nix(options);
    let cached = Options { cache_output: true, ..nix.options };
    let (_, action) = nix.run_nix_command(command("/n/bin/nix"), &cached);
    assert_eq!(action, RunAction::Spawn { streams: SHARED });
}

#[test]
fn requests_are_prepared_and_set_out() {
    let nix = nix(global());
    let env = Environment {
        devenv_nix: Some("/n".to_string()),
        cachix_auth_token: Some("secret".to_string()),
    };
    let mut log = vec![];
    let (run, action) =
        nix.run_nix("nix", &["flake", "update"], &nix.options, &env, &mut log).unwrap();
    assert_eq!(run.command.program, "/n/bin/nix");
    assert_eq!(action, RunAction::Spawn { streams: SHARED });
    let found = CachixCaches {
        caches: Cachix { pull: vec![], push: Some("mine".to_string()) },
        known_keys: KnownKeys::new(),
    };
    let (run, _) = nix
        .run_nix_with_substituters("nix", &["build"], &nix.options, Ok(&found), &env, &mut log)
        .unwrap();
    assert_eq!(run.command.program, "cachix");
    assert_eq!(log, []);
    let nowhere = Environment { devenv_nix: None, cachix_auth_token: None };
    assert_eq!(
        nix.run_nix("nix", &[], &nix.options, &nowhere, &mut log),
        Err(NixError::DevenvNixNotSet)
    );
    assert_eq!(
        nix.run_nix_with_substituters("nix", &[], &nix.options, Err("x"), &nowhere, &mut log),
        Err(NixError::DevenvNixNotSet)
    );
    assert_eq!(log.len(), 2 + 4);
}

#[test]
fn a_process_on_its_own_leaves_no_paths() {
    assert_eq!(
        Output::uncached(false, Some(2), b"o".to_vec(), b"e".to_vec()),
        Output {
            success: false,
            code: Some(2),
            stdout: b"o".to_vec(),
            stderr: b"e".to_vec(),
            paths: vec![],
        }
    );
}
