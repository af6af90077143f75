//! Settings that decide how Nix is called.
use vstd::prelude::*;

verus! {

/// How one call of Nix is made.
#[derive(Clone, Copy, Debug, PartialEq, Eq)]
pub struct Options<'a> {
    /// Whether the command takes the place of the running process.
    pub replace_shell: bool,
    /// Whether the output may come from the evaluation cache.
    pub cache_output: bool,
    /// Whether the user sees what the command reports.
    pub logging: bool,
    /// Whether the user sees what the command prints.
    pub logging_stdout: bool,
    /// The flags that stand in front of all others.
    pub nix_flags: &'a [&'a str],
}

/// [`Options`] with the flags as character sequences.
pub struct OptionsView {
    pub replace_shell: bool,
    pub cache_output: bool,
    pub logging: bool,
    pub logging_stdout: bool,
    pub nix_flags: Seq<Seq<char>>,
}

impl<'a> DeepView for Options<'a> {
    type V = OptionsView;

    open spec fn deep_view(&self) -> OptionsView {
        OptionsView {
            replace_shell: self.replace_shell,
            cache_output: self.cache_output,
            logging: self.logging,
            logging_stdout: self.logging_stdout,
            nix_flags: self.nix_flags.deep_view(),
        }
    }
}

/// The flags of every call, unless a call brings its own.
pub open spec fn default_flags() -> Seq<Seq<char>> {
    seq![
        "--show-trace"@,
        "--extra-experimental-features"@,
        "nix-command"@,
        "--extra-experimental-features"@,
        "flakes"@,
        "--option"@,
        "warn-dirty"@,
        "false"@,
        "--keep-going"@,
    ]
}

impl OptionsView {
    /// The settings that a call starts from: logged, not cached, in a process
    /// of its own.
    pub open spec fn initial() -> OptionsView {
        OptionsView {
            replace_shell: false,
            cache_output: false,
            logging: true,
            logging_stdout: false,
            nix_flags: default_flags(),
        }
    }

    /// The same settings, with the output cached.
    pub open spec fn cached(self) -> OptionsView {
        OptionsView { cache_output: true, ..self }
    }

    /// The same settings, with nothing shown.
    pub open spec fn silent(self) -> OptionsView {
        OptionsView { logging: false, ..self }
    }

    /// The same settings for a development shell: its output is shown and not
    /// cached.
    pub open spec fn interactive(self, replace_shell: bool) -> OptionsView {
        OptionsView { logging_stdout: true, cache_output: false, replace_shell, ..self }
    }
}

impl<'a> Options<'a> {
    /// The settings that a call starts from.
    pub fn initial() -> (r: Options<'a>)
        ensures
            r.deep_view() == OptionsView::initial(),
    {
        let r = Options {
            replace_shell: false,
            cache_output: false,
            logging: true,
            logging_stdout: false,
            nix_flags: &[
                "--show-trace",
                "--extra-experimental-features",
                "nix-command",
                "--extra-experimental-features",
                "flakes",
                "--option",
                "warn-dirty",
                "false",
                "--keep-going",
            ],
        };
        assert(r.nix_flags.deep_view() =~= default_flags());
        r
    }

    /// The same settings, with the output cached.
    pub fn cached(&self) -> (r: Options<'a>)
        ensures
            r.deep_view() == self.deep_view().cached(),
    {
        Options { cache_output: true, ..*self }
    }

    /// The same settings, with nothing shown.
    pub fn silent(&self) -> (r: Options<'a>)
        ensures
            r.deep_view() == self.deep_view().silent(),
    {
        Options { logging: false, ..*self }
    }

    /// The same settings for a development shell.
    pub fn interactive(&self, replace_shell: bool) -> (r: Options<'a>)
        ensures
            r.deep_view() == self.deep_view().interactive(replace_shell),
    {
        Options { logging_stdout: true, cache_output: false, replace_shell, ..*self }
    }
}

/// What the project's configuration says.
pub struct Config {
    pub impure: bool,
}

/// What the command line says.
pub struct GlobalOptions {
    pub verbose: bool,
    pub quiet: bool,
    pub max_jobs: u64,
    pub offline: bool,
    pub impure: bool,
    pub eval_cache: bool,
    pub refresh_eval_cache: bool,
    pub nix_debugger: bool,
    /// Keys and values of Nix options, by turns.
    pub nix_option: Vec<String>,
}

/// [`GlobalOptions`] with the texts as character sequences.
pub struct GlobalOptionsView {
    pub verbose: bool,
    pub quiet: bool,
    pub max_jobs: u64,
    pub offline: bool,
    pub impure: bool,
    pub eval_cache: bool,
    pub refresh_eval_cache: bool,
    pub nix_debugger: bool,
    pub nix_option: Seq<Seq<char>>,
}

impl DeepView for GlobalOptions {
    type V = GlobalOptionsView;

    open spec fn deep_view(&self) -> GlobalOptionsView {
        GlobalOptionsView {
            verbose: self.verbose,
            quiet: self.quiet,
            max_jobs: self.max_jobs,
            offline: self.offline,
            impure: self.impure,
            eval_cache: self.eval_cache,
            refresh_eval_cache: self.refresh_eval_cache,
            nix_debugger: self.nix_debugger,
            nix_option: self.nix_option.deep_view(),
        }
    }
}

/// What the process environment says.
pub struct Environment {
    /// Where Nix is installed.
    pub devenv_nix: Option<String>,
    /// The secret that pushes to caches and opens private ones.
    pub cachix_auth_token: Option<String>,
}

/// [`Environment`] with the texts as character sequences.
pub struct EnvironmentView {
    pub devenv_nix: Option<Seq<char>>,
    pub cachix_auth_token: Option<Seq<char>>,
}

impl DeepView for Environment {
    type V = EnvironmentView;

    open spec fn deep_view(&self) -> EnvironmentView {
        EnvironmentView {
            devenv_nix: self.devenv_nix.deep_view(),
            cachix_auth_token: self.cachix_auth_token.deep_view(),
        }
    }
}

} // verus!
