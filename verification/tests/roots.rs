use cnix::error::NixError;
use cnix::nix::Nix;
use cnix::notice::{Level, Notice};
use cnix::options::{Config, Environment, GlobalOptions};
use cnix::roots::{symlink_force, GcAction, GcEvent, GcStage, LinkStep};
use cnix::run::Output;

fn nix() -> Nix<'static> {
    Nix::new(
        Config { impure: false },
        GlobalOptions {
            verbose: false,
            quiet: false,
            max_jobs: 1,
            offline: false,
            impure: false,
            eval_cache: true,
            refresh_eval_cache: false,
            nix_debugger: false,
            nix_option: vec![],
        },
        "keys".to_string(),
        "/home/gc".to_string(),
        "/project/.devenv".to_string(),
        "/project/.devenv/gc".to_string(),
        "/project".to_string(),
    )
}

fn notice(level: Level, text: &str) -> Notice {
    Notice { level, text: text.to_string() }
}

#[test]
fn links_carry_the_time() {
    let nix = nix();
    assert_eq!(nix.root_link("shell", "17.5"), "/project/.devenv/gc/shell-17.5");
    assert_eq!(nix.shell_link("17.5"), "/home/gc/17.5-shell");
    assert_ne!(nix.shell_link("17.5"), nix.shell_link("17.6"));
    assert_ne!(nix.root_link("shell", "17.5"), nix.root_link("shell", "17.6"));
}

#[test]
fn links_replace_what_stands_there() {
    let mut log = vec![];
    let link = LinkStep::Link {
        link_path: "/nix/store/a".to_string(),
        target: "/gc/a".to_string(),
    };
    let remove = LinkStep::Remove { target: "/gc/a".to_string() };
    assert_eq!(remove.failure(), "Failed to remove /gc/a");
    assert_eq!(link.failure(), "Failed to create symlink: /nix/store/a -> /gc/a");
    let steps = symlink_force("/nix/store/a", "/gc/a", true, &mut log);
    assert_eq!(log, [notice(Level::Debug, "Creating symlink /nix/store/a -> /gc/a")]);
    assert_eq!(steps.len(), 2);
    assert_eq!(steps[0], remove);
    assert_eq!(steps[1], link);
    assert_eq!(symlink_force("/nix/store/a", "/gc/a", false, &mut log), [link]);
}

fn named(paths: &[Option<&str>]) -> Vec<Option<String>> {
    paths.iter().map(|path| path.map(|s| s.to_string())).collect()
}

fn environment(devenv_nix: Option<&str>) -> Environment {
    Environment { devenv_nix: devenv_nix.map(|s| s.to_string()), cachix_auth_token: None }
}

fn deleted(action: GcAction) -> String {
    match action {
        GcAction::Delete(cmd) => {
            assert_eq!(cmd.program, "/n/bin/nix");
            let n = cmd.args.len();
            assert_eq!(cmd.args[n - 3..n - 1], ["store", "delete"]);
            cmd.args[n - 1].clone()
        }
        _ => unreachable!(),
    }
}

fn failed() -> GcEvent {
    GcEvent::Completed(Output::uncached(false, Some(1), vec![], b"in use".to_vec()))
}

#[test]
fn paths_are_deleted_once() {
    let nix = nix();
    let env = environment(Some("/n"));
    let mut log = vec![];
    let paths = named(&[Some("a"), None, Some("b"), Some("a"), Some("c"), Some("b")]);
    let (stage, action) = nix.gc(&paths, &env, &mut log);
    assert_eq!(deleted(action), "a");
    let done = GcEvent::Completed(Output::uncached(true, Some(0), vec![], vec![]));
    let (stage, action) = nix.continue_gc(stage, done, &env, &mut log);
    assert_eq!(deleted(action), "b");
    let (stage, action) = nix.continue_gc(stage, failed(), &env, &mut log);
    assert_eq!(deleted(action), "c");
    let absent = GcEvent::NotStarted { reason: "not found".to_string() };
    let (stage, action) = nix.continue_gc(stage, absent, &env, &mut log);
    assert_eq!(action, GcAction::Succeed);
    assert_eq!(stage, GcStage::Finished);
    assert_eq!(
        log,
        [
            notice(Level::Info, "Deleting a..."),
            notice(Level::Info, "Deleting b..."),
            notice(Level::Info, "Deleting c..."),
        ]
    );
}

#[test]
fn no_paths_need_no_nix() {
    for paths in [named(&[]), named(&[None, None])] {
        let mut log = vec![];
        let (stage, action) = nix().gc(&paths, &environment(None), &mut log);
        assert_eq!(stage, GcStage::Finished);
        assert_eq!(action, GcAction::Succeed);
        assert_eq!(log, []);
    }
}

#[test]
fn paths_stay_where_there_is_no_nix() {
    let mut log = vec![];
    let paths = named(&[Some("a"), Some("b")]);
    let (stage, action) = nix().gc(&paths, &environment(None), &mut log);
    assert_eq!(stage, GcStage::Finished);
    assert_eq!(action, GcAction::Fail(NixError::DevenvNixNotSet));
    assert_eq!(log.len(), 3);
    assert_eq!(log[0], notice(Level::Info, "Deleting a..."));
}

#[test]
fn the_outcome_of_a_deletion_is_of_no_account() {
    let nix = nix();
    let env = environment(Some("/n"));
    let events = [
        failed(),
        GcEvent::Completed(Output::uncached(true, Some(0), vec![], vec![])),
        GcEvent::NotStarted { reason: "x".to_string() },
    ];
    for event in events {
        let (stage, _) = nix.gc(&named(&[Some("a"), Some("b")]), &env, &mut vec![]);
        let mut log = vec![];
        let (stage, action) = nix.continue_gc(stage, event, &env, &mut log);
        assert_eq!(
            stage,
            GcStage::Deleting { paths: vec!["a".to_string(), "b".to_string()], next: 1 }
        );
        assert_eq!(deleted(action), "b");
        assert_eq!(log, [notice(Level::Info, "Deleting b...")]);
    }
}

#[test]
fn deletions_are_announced() {
    let nix = nix();
    let mut log = vec![];
    let env = Environment { devenv_nix: Some("/n".to_string()), cachix_auth_token: None };
    let cmd = nix.delete_path("/nix/store/a", &env, &mut log).unwrap();
    assert_eq!(cmd.args[cmd.args.len() - 3..], ["store", "delete", "/nix/store/a"]);
    assert_eq!(log, [notice(Level::Info, "Deleting /nix/store/a...")]);
    let env = Environment { devenv_nix: None, cachix_auth_token: None };
    let r = nix.delete_path("/nix/store/a", &env, &mut log);
    assert_eq!(r, Err(NixError::DevenvNixNotSet));
    assert_eq!(log.len(), 1 + 3);
}
