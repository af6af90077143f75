use cnix::error::NixError;
use cnix::keeping::{RootAction, RootEvent, RootStage};
use cnix::nix::Nix;
use cnix::options::{Config, GlobalOptions, Options};
use cnix::requests::{Outcome, Request};
use cnix::run::Output;

fn nix() -> Nix<'static> {
    Nix::new(
        Config { impure: false },
        GlobalOptions {
            verbose: false,
            quiet: false,
            max_jobs: 1,
            offline: false,
            impure: false,
            eval_cache: true,
            refresh_eval_cache: false,
            nix_debugger: false,
            nix_option: vec![],
        },
        "keys".to_string(),
        "/home/gc".to_string(),
        "/project/.devenv".to_string(),
        "/project/.devenv/gc".to_string(),
        "/project".to_string(),
    )
}

fn output(text: &str) -> Output {
    Output::uncached(true, Some(0), text.as_bytes().to_vec(), vec![])
}

fn performed(text: &str) -> RootEvent {
    RootEvent::Ended(Outcome::Performed(output(text)))
}

fn timed() -> RootEvent {
    RootEvent::Timed { now: "17.5".to_string() }
}

fn perform(
    substituters: bool,
    command: &str,
    args: &[&str],
    options: Options<'static>,
) -> RootAction<'static> {
    RootAction::Perform(Request {
        substituters,
        command: command.to_string(),
        args: args.iter().map(|s| s.to_string()).collect(),
        options,
    })
}

fn link(link_path: &str, target: &str) -> RootAction<'static> {
    RootAction::Link { link_path: link_path.to_string(), target: target.to_string() }
}

#[test]
fn an_environment_from_beginning_to_end() {
    let nix = nix();
    let (stage, action) = nix.dev_env(false, "/gc/shell");
    assert_eq!(
        action,
        perform(
            true,
            "nix",
            &["print-dev-env", "--profile", "/gc/shell"],
            Options { cache_output: true, ..nix.options }
        )
    );
    let (stage, action) = nix.continue_root(stage, performed("environment"));
    assert_eq!(
        action,
        perform(
            false,
            "nix-env",
            &["-p", "/gc/shell", "--delete-generations", "old"],
            Options { logging: false, ..nix.options }
        )
    );
    let (stage, action) = nix.continue_root(stage, performed("tidied"));
    assert_eq!(action, RootAction::AskTime);
    let (stage, action) = nix.continue_root(stage, timed());
    assert_eq!(action, RootAction::Resolve { path: "/gc/shell".to_string() });
    let resolved = RootEvent::Resolved { path: "/nix/store/shell".to_string() };
    let (stage, action) = nix.continue_root(stage, resolved);
    assert_eq!(action, link("/nix/store/shell", "/home/gc/17.5-shell"));
    let (stage, action) = nix.continue_root(stage, RootEvent::Linked);
    assert_eq!(action, RootAction::Succeed(output("environment")));
    assert_eq!(stage, RootStage::Finished);
}

#[test]
fn environments_as_json() {
    let nix = nix();
    let (_, action) = nix.dev_env(true, "/gc/shell");
    assert_eq!(
        action,
        perform(
            true,
            "nix",
            &["print-dev-env", "--profile", "/gc/shell", "--json"],
            Options { cache_output: true, ..nix.options }
        )
    );
}

#[test]
fn environments_stop_at_a_failure() {
    let nix = nix();
    let (stage, _) = nix.dev_env(false, "/gc/shell");
    let event = RootEvent::Ended(Outcome::Failed(NixError::DevenvNixNotSet));
    let (stage, action) = nix.continue_root(stage, event);
    assert_eq!(action, RootAction::Fail(NixError::DevenvNixNotSet));
    assert_eq!(stage, RootStage::Finished);

    let (stage, _) = nix.dev_env(false, "/gc/shell");
    let (stage, _) = nix.continue_root(stage, performed("environment"));
    let event = RootEvent::Ended(Outcome::Failed(NixError::ShellNotReplaced));
    let (stage, action) = nix.continue_root(stage, event);
    assert_eq!(action, RootAction::Fail(NixError::ShellNotReplaced));
    assert_eq!(stage, RootStage::Finished);
}

#[test]
fn a_root_from_beginning_to_end() {
    let nix = nix();
    let (stage, action) = nix.add_gc("shell", "/nix/store/a");
    assert_eq!(
        action,
        perform(
            false,
            "nix-store",
            &["--add-root", "/project/.devenv/gc/shell", "-r", "/nix/store/a"],
            nix.options
        )
    );
    let (stage, action) = nix.continue_root(stage, performed("added"));
    assert_eq!(action, RootAction::AskTime);
    let (stage, action) = nix.continue_root(stage, timed());
    assert_eq!(action, link("/nix/store/a", "/project/.devenv/gc/shell-17.5"));
    let (stage, action) = nix.continue_root(stage, RootEvent::Linked);
    assert_eq!(action, RootAction::Succeed(output("added")));
    assert_eq!(stage, RootStage::Finished);
}

#[test]
fn a_root_that_is_not_registered_is_not_linked_to() {
    let nix = nix();
    let (stage, _) = nix.add_gc("shell", "/nix/store/a");
    let e = NixError::CommandFailed { command: "nix-store".to_string(), code: Some(1) };
    let (stage, action) = nix.continue_root(stage, RootEvent::Ended(Outcome::Failed(e)));
    let e = NixError::CommandFailed { command: "nix-store".to_string(), code: Some(1) };
    assert_eq!(action, RootAction::Fail(e));
    assert_eq!(stage, RootStage::Finished);
}
