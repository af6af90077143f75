use cnix::error::NixError;
use cnix::inputs::inputs_section;
use cnix::nix::Nix;
use cnix::options::{Config, Environment, GlobalOptions, Options};
use cnix::requests::{
    build_outputs, eval_output, metadata_output, report_project, MetadataAction, MetadataStage,
    Outcome, Request,
};
use cnix::run::Output;

fn nix() -> Nix<'static> {
    Nix::new(
        Config { impure: false },
        GlobalOptions {
            verbose: false,
            quiet: false,
            max_jobs: 1,
            offline: false,
            impure: false,
            eval_cache: true,
            refresh_eval_cache: false,
            nix_debugger: false,
            nix_option: vec![],
        },
        "keys".to_string(),
        "home".to_string(),
        "dotfile".to_string(),
        "dot".to_string(),
        "root".to_string(),
    )
}

fn request<'a>(
    substituters: bool,
    command: &str,
    args: &[&str],
    options: Options<'a>,
) -> Request<'a> {
    Request {
        substituters,
        command: command.to_string(),
        args: args.iter().map(|s| s.to_string()).collect(),
        options,
    }
}

#[test]
fn development_shells() {
    let nix = nix();
    for replace_shell in [false, true] {
        assert_eq!(
            nix.develop(&["develop", "-c", "ls"], replace_shell),
            request(
                true,
                "nix",
                &["develop", "-c", "ls"],
                Options {
                    logging_stdout: true,
                    cache_output: false,
                    replace_shell,
                    ..nix.options
                }
            )
        );
    }
}

#[test]
fn the_interpreter() {
    let nix = nix();
    let mut log = vec![];
    let env = Environment { devenv_nix: Some("/n".to_string()), cachix_auth_token: None };
    let cmd = nix.repl(&env, &mut log).unwrap();
    assert_eq!(cmd.program, "/n/bin/nix");
    assert_eq!(cmd.args[cmd.args.len() - 2..], ["repl", "."]);
    assert_eq!(log, []);
    let env = Environment { devenv_nix: None, cachix_auth_token: None };
    assert_eq!(nix.repl(&env, &mut log), Err(NixError::DevenvNixNotSet));
    assert_eq!(log.len(), 2);
}

#[test]
fn builds() {
    let nix = nix();
    let cached = Options { cache_output: true, ..nix.options };
    assert_eq!(nix.build(&[]), None);
    assert_eq!(
        nix.build(&["shell", "ci"]),
        Some(request(
            true,
            "nix",
            &["build", "--no-link", "--print-out-paths", ".#shell", ".#ci"],
            cached
        ))
    );
}

#[test]
fn evaluations() {
    let nix = nix();
    let cached = Options { cache_output: true, ..nix.options };
    assert_eq!(
        nix.eval(&["devenv.cachix"]),
        request(false, "nix", &["eval", "--json", ".#devenv.cachix"], cached)
    );
    assert_eq!(nix.eval(&[]), request(false, "nix", &["eval", "--json"], cached));
}

#[test]
fn updates() {
    let nix = nix();
    assert_eq!(
        nix.update(&Some("nixpkgs".to_string())),
        request(
            false,
            "nix",
            &["flake", "lock", "--update-input", "nixpkgs"],
            nix.options
        )
    );
    assert_eq!(
        nix.update(&None),
        request(false, "nix", &["flake", "update"], nix.options)
    );
}

#[test]
fn searches_of_packages() {
    let nix = nix();
    assert_eq!(
        nix.search("hello"),
        request(
            true,
            "nix",
            &["search", "--inputs-from", ".", "--json", "nixpkgs", "hello"],
            nix.options
        )
    );
}

fn printed(stdout: &[u8]) -> Outcome {
    Outcome::Performed(Output::uncached(true, Some(0), stdout.to_vec(), vec![]))
}

#[test]
fn a_report_asks_twice() {
    let nix = nix();
    let cached = Options { cache_output: true, ..nix.options };
    let (stage, action) = nix.metadata();
    assert_eq!(
        action,
        MetadataAction::Perform(request(false, "nix", &["flake", "metadata"], cached))
    );
    let (stage, action) = nix.continue_metadata(stage, printed(b"URL: x\nInputs: a"));
    assert_eq!(
        action,
        MetadataAction::Perform(request(false, "nix", &["eval", "--raw", ".#info"], cached))
    );
    let (stage, action) = nix.continue_metadata(stage, printed(b"info\n"));
    assert_eq!(action, MetadataAction::Succeed("Inputs: a\ninfo\n".to_string()));
    assert_eq!(stage, MetadataStage::Finished);
}

#[test]
fn a_report_stops_at_a_failure() {
    let nix = nix();
    let (stage, _) = nix.metadata();
    let (stage, action) =
        nix.continue_metadata(stage, Outcome::Failed(NixError::DevenvNixNotSet));
    assert_eq!(action, MetadataAction::Fail(NixError::DevenvNixNotSet));
    assert_eq!(stage, MetadataStage::Finished);
    let (stage, _) = nix.metadata();
    let (stage, _) = nix.continue_metadata(stage, printed(b"Inputs: a"));
    let (stage, action) =
        nix.continue_metadata(stage, Outcome::Failed(NixError::ShellNotReplaced));
    assert_eq!(action, MetadataAction::Fail(NixError::ShellNotReplaced));
    assert_eq!(stage, MetadataStage::Finished);
}

#[test]
fn build_outputs_are_split() {
    assert_eq!(build_outputs(&vec![]), Vec::<String>::new());
    assert_eq!(
        build_outputs(&b"/nix/store/a\n/nix/store/b\n".to_vec()),
        ["/nix/store/a", "/nix/store/b"]
    );
    assert_eq!(build_outputs(&vec![b'a', 0xff, b' ', b'b']), ["a\u{fffd}", "b"]);
}

#[test]
fn evaluations_print_text() {
    assert_eq!(eval_output("{\"a\":\"\u{e9}\"}".as_bytes().to_vec()), Ok("{\"a\":\"\u{e9}\"}".to_string()));
    let e = eval_output(vec![b'a', 0xff]).unwrap_err();
    assert_eq!(
        e.message(),
        "Failed to parse command output as UTF-8: invalid utf-8 sequence of 1 bytes from index 1"
    );
    assert_eq!(
        eval_output(vec![0xe2, 0x82]),
        Err(NixError::OutputNotUtf8 {
            reason: "incomplete utf-8 byte sequence from index 0".to_string()
        })
    );
}

#[test]
fn inputs_are_on_the_last_line() {
    assert_eq!(inputs_section(""), "");
    assert_eq!(inputs_section("Inputs:"), "");
    assert_eq!(inputs_section("Inputs:x"), "Inputs:x");
    assert_eq!(inputs_section("URL: a\nInputs: b c"), "Inputs: b c");
    assert_eq!(inputs_section("Inputs: b\nmore"), "");
    assert_eq!(inputs_section("Inputs: b\n"), "");
    assert_eq!(inputs_section("a Inputs: b Inputs: c"), "Inputs: b Inputs: c");
    assert_eq!(inputs_section("Inputs:\nInputs: c"), "Inputs: c");
    assert_eq!(inputs_section("inputs: c"), "");
    assert_eq!(inputs_section("\u{e9}Inputs:\r"), "Inputs:\r");
}

#[test]
fn inputs_of_short_texts() {
    let pieces = ["Inputs:", "I", "\n", "\r", "\u{2028}", "x"];
    let mut texts = vec![String::new()];
    let mut last = texts.clone();
    for _ in 0..4 {
        let mut longer = vec![];
        for text in &last {
            for piece in pieces {
                longer.push(format!("{}{}", text, piece));
            }
        }
        texts.extend(longer.iter().cloned());
        last = longer;
    }
    for text in texts {
        let line = text.rfind('\n').map_or(0, |i| i + 1);
        let expected = match text[line..].find("Inputs:") {
            Some(at) if line + at + "Inputs:".len() < text.len() => &text[line + at..],
            _ => "",
        };
        assert_eq!(inputs_section(&text), expected);
    }
}

#[test]
fn projects_are_reported() {
    assert_eq!(report_project("x\nInputs: a", "# env\n"), "Inputs: a\n# env\n");
    assert_eq!(report_project("x\n", "info"), "\ninfo");
    assert_eq!(
        metadata_output(&b"Inputs: a".to_vec(), &vec![b'i', 0xff]),
        "Inputs: a\ni\u{fffd}"
    );
}
