use cnix::caches::{Cachix, CachixCaches};
use cnix::command::{display_command, Command};
use cnix::error::NixError;
use cnix::keys::KnownKeys;
use cnix::nix::Nix;
use cnix::notice::{Level, Notice};
use cnix::options::{Config, Environment, GlobalOptions, Options};

const FLAGS: [&str; 9] = [
    "--show-trace",
    "--extra-experimental-features",
    "nix-command",
    "--extra-experimental-features",
    "flakes",
    "--option",
    "warn-dirty",
    "false",
    "--keep-going",
];

fn global() -> GlobalOptions {
    GlobalOptions {
        verbose: false,
        quiet: false,
        max_jobs: 4,
        offline: false,
        impure: false,
        eval_cache: true,
        refresh_eval_cache: false,
        nix_debugger: false,
        nix_option: vec![],
    }
}

fn nix(global_options: GlobalOptions, impure: bool) -> Nix<'static> {
    Nix::new(
        Config { impure },
        global_options,
        "/home/keys.json".to_string(),
        "/home/gc".to_string(),
        "/project/.devenv".to_string(),
        "/project/.devenv/gc".to_string(),
        "/project".to_string(),
    )
}

fn environment(token: Option<&str>) -> Environment {
    Environment {
        devenv_nix: Some("/opt/nix".to_string()),
        cachix_auth_token: token.map(|t| t.to_string()),
    }
}

fn caches(push: Option<&str>) -> CachixCaches {
    let mut known_keys = KnownKeys::new();
    known_keys.insert("devenv", "devenv.cachix.org-1:aaa");
    known_keys.insert("other", "other.cachix.org-1:bbb");
    CachixCaches {
        caches: Cachix {
            pull: vec!["devenv".to_string(), "other".to_string()],
            push: push.map(|p| p.to_string()),
        },
        known_keys,
    }
}

fn expect(front: &[&str], rest: &[&str]) -> Vec<String> {
    front.iter().chain(rest).map(|s| s.to_string()).collect()
}

fn notice(level: Level, text: &str) -> Notice {
    Notice { level, text: text.to_string() }
}

const JOBS: [&str; 5] = ["--max-jobs", "4", "--option", "eval-cache", "false"];

fn leading() -> Vec<&'static str> {
    FLAGS.iter().chain(JOBS.iter()).copied().collect()
}

#[test]
fn settings_to_begin_with() {
    let nix = nix(global(), false);
    assert_eq!(
        nix.options,
        Options {
            replace_shell: false,
            cache_output: false,
            logging: true,
            logging_stdout: false,
            nix_flags: &FLAGS,
        }
    );
    assert!(nix.cachix_caches.is_none());
    assert_eq!(nix.database_url(), "sqlite:/project/.devenv/nix-eval-cache.db");
    assert!(nix.searches_caches());
}

#[test]
fn a_plain_command() {
    let nix = nix(global(), false);
    let mut log = vec![];
    let cmd = nix
        .prepare_command("nix", &["flake", "update"], &nix.options, &environment(None), &mut log)
        .unwrap();
    assert_eq!(
        cmd,
        Command {
            program: "/opt/nix/bin/nix".to_string(),
            args: expect(&leading(), &["flake", "update"]),
            envs: vec![],
            current_dir: Some("/project".to_string()),
        }
    );
    assert_eq!(log, []);
}

#[test]
fn nix_options_come_in_pairs() {
    let mut options = global();
    options.nix_option =
        ["cores", "2", "sandbox", "true", "odd"].iter().map(|s| s.to_string()).collect();
    let nix = nix(options, false);
    let cmd = nix
        .prepare_command("nix", &["build"], &nix.options, &environment(None), &mut vec![])
        .unwrap();
    assert_eq!(
        cmd.args,
        expect(
            &leading(),
            &["--option", "cores", "2", "--option", "sandbox", "true", "build"]
        )
    );
}

#[test]
fn offline_and_impure_flags_are_for_nix_alone() {
    let mut options = global();
    options.offline = true;
    let nix = nix(options, true);
    let env = environment(None);
    let mut log = vec![];
    for subcommand in ["build", "eval", "print-dev-env"] {
        let cmd = nix
            .prepare_command("nix", &[subcommand], &nix.options, &env, &mut log)
            .unwrap();
        assert_eq!(
            cmd.args,
            expect(&leading(), &[subcommand, "--offline", "--no-pure-eval"])
        );
        assert_eq!(cmd.envs, [("NIX_PATH".to_string(), Some(":".to_string()))]);
    }
    let cmd = nix.prepare_command("nix", &["repl", "."], &nix.options, &env, &mut log).unwrap();
    assert_eq!(cmd.args, expect(&leading(), &["repl", ".", "--offline"]));
    let cmd = nix.prepare_command("nix-store", &["build"], &nix.options, &env, &mut log).unwrap();
    assert_eq!(cmd.args, expect(&leading(), &["build"]));
    assert_eq!(cmd.program, "/opt/nix/bin/nix-store");
    assert_eq!(cmd.envs.len(), 1);
    assert!(!nix.searches_caches());
}

#[test]
fn impurity_on_the_command_line() {
    let mut options = global();
    options.impure = true;
    let nix = nix(options, false);
    let cmd = nix
        .prepare_command("nix", &["eval"], &nix.options, &environment(None), &mut vec![])
        .unwrap();
    assert_eq!(cmd.args.last().unwrap(), "--no-pure-eval");
}

#[test]
fn nix_has_to_be_somewhere() {
    let nix = nix(global(), false);
    let env = Environment { devenv_nix: None, cachix_auth_token: None };
    let mut log = vec![];
    let r = nix.prepare_command("nix", &["repl"], &nix.options, &env, &mut log);
    assert_eq!(r, Err(NixError::DevenvNixNotSet));
    assert_eq!(NixError::DevenvNixNotSet.message(), "$DEVENV_NIX is not set");
    assert_eq!(
        log,
        [
            notice(
                Level::Error,
                "$DEVENV_NIX is not set, but required as devenv doesn't work without a few Nix patches."
            ),
            notice(
                Level::Error,
                "Please follow https://devenv.sh/getting-started/ to install devenv."
            ),
        ]
    );
}

#[test]
fn verbose_commands_are_shown() {
    let mut options = global();
    options.verbose = true;
    let nix = nix(options, false);
    let mut log = vec![];
    let plain = Options { nix_flags: &["-v"], ..nix.options };
    let cmd =
        nix.prepare_command("nix", &["x"], &plain, &environment(None), &mut log).unwrap();
    let shown = "/opt/nix/bin/nix -v --max-jobs 4 --option eval-cache false x";
    assert_eq!(display_command(&cmd), shown);
    assert_eq!(log, [notice(Level::Debug, &format!("Running command: {}", shown))]);
}

#[test]
fn caches_are_made_available() {
    let nix = nix(global(), false);
    let found = caches(None);
    let mut log = vec![];
    let cmd = nix
        .prepare_command_with_substituters(
            "nix",
            &["build"],
            &nix.options,
            Ok(&found),
            &environment(None),
            &mut log,
        )
        .unwrap();
    assert_eq!(
        cmd.args,
        expect(
            &leading(),
            &[
                "--option",
                "extra-substituters",
                "https://devenv.cachix.org https://other.cachix.org",
                "--option",
                "extra-trusted-public-keys",
                "devenv.cachix.org-1:aaa other.cachix.org-1:bbb",
                "build",
            ]
        )
    );
    assert_eq!(log, []);
}

#[test]
fn a_failed_search_is_reported_and_passed_over() {
    let nix = nix(global(), false);
    let mut log = vec![];
    let cmd = nix
        .prepare_command_with_substituters(
            "nix",
            &["build"],
            &nix.options,
            Err("no such attribute"),
            &environment(None),
            &mut log,
        )
        .unwrap();
    assert_eq!(cmd.args, expect(&leading(), &["build"]));
    assert_eq!(
        log,
        [
            notice(Level::Warn, "Failed to get cachix caches due to evaluation error"),
            notice(Level::Debug, "no such attribute"),
        ]
    );
}

#[test]
fn offline_requests_use_no_caches() {
    let mut options = global();
    options.offline = true;
    let nix = nix(options, false);
    let found = caches(Some("mine"));
    let mut log = vec![];
    let cmd = nix
        .prepare_command_with_substituters(
            "nix",
            &["build"],
            &nix.options,
            Ok(&found),
            &environment(Some("secret")),
            &mut log,
        )
        .unwrap();
    assert_eq!(cmd.program, "/opt/nix/bin/nix");
    assert_eq!(cmd.args, expect(&leading(), &["build", "--offline"]));
    assert_eq!(log, []);
}

#[test]
fn pushing_puts_the_command_under_watch() {
    let nix = nix(global(), true);
    let found = caches(Some("mine"));
    let mut log = vec![];
    let cmd = nix
        .prepare_command_with_substituters(
            "nix",
            &["flake"],
            &nix.options,
            Ok(&found),
            &environment(Some("secret")),
            &mut log,
        )
        .unwrap();
    assert_eq!(cmd.program, "cachix");
    assert_eq!(cmd.args[..4], ["watch-exec", "mine", "--", "/opt/nix/bin/nix"]);
    assert_eq!(cmd.args.last().unwrap(), "flake");
    assert_eq!(cmd.args.len(), 4 + 14 + 6 + 1);
    assert_eq!(cmd.args[4 + 14..4 + 16], ["--option", "extra-substituters"]);
    assert_eq!(cmd.args[4 + 17..4 + 19], ["--option", "extra-trusted-public-keys"]);
    assert_eq!(cmd.envs, [("NIX_PATH".to_string(), Some(":".to_string()))]);
    assert_eq!(cmd.current_dir, Some("/project".to_string()));
    assert_eq!(log, []);
}

#[test]
fn pushing_needs_the_secret() {
    let nix = nix(global(), false);
    let found = caches(Some("mine"));
    let mut log = vec![];
    let cmd = nix
        .prepare_command_with_substituters(
            "nix",
            &["flake"],
            &nix.options,
            Ok(&found),
            &environment(None),
            &mut log,
        )
        .unwrap();
    assert_eq!(cmd.program, "/opt/nix/bin/nix");
    assert_eq!(
        log,
        [notice(
            Level::Warn,
            "CACHIX_AUTH_TOKEN is not set, but required to push to mine."
        )]
    );
}

#[test]
fn watched_commands_leave_out_variables_that_are_taken_away() {
    let cmd = Command {
        program: "nix".to_string(),
        args: vec!["a".to_string()],
        envs: vec![
            ("A".to_string(), Some("1".to_string())),
            ("B".to_string(), None),
            ("C".to_string(), Some("3".to_string())),
        ],
        current_dir: None,
    };
    assert_eq!(
        cmd.watched("mine"),
        Command {
            program: "cachix".to_string(),
            args: expect(&["watch-exec", "mine", "--", "nix"], &["a"]),
            envs: vec![
                ("A".to_string(), Some("1".to_string())),
                ("C".to_string(), Some("3".to_string())),
            ],
            current_dir: Some(".".to_string()),
        }
    );
}
