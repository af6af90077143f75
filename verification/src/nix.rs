//! The front end: its settings, and the commands that it makes of a request.
use vstd::prelude::*;
use vstd::string::*;

use crate::caches::{pull_urls, CachixCaches, CachixCachesView};
use crate::command::{display_command, Command, CommandView};
use crate::error::NixError;
use crate::keys::values;
use crate::notice::{debugging, error_notice, report, warning, Level, Notice, NoticeView};
use crate::options::{
    Config, Environment, EnvironmentView, GlobalOptions, GlobalOptionsView, Options, OptionsView,
};
use crate::text::{
    append_owned, borrowed, contains_text, decimal, format_decimal, join, joined, owned, push_text,
    same_text,
};

verus! {

/// A Nix front end for one project.
pub struct Nix<'a> {
    /// The settings that a call starts from.
    pub options: Options<'a>,
    pub config: Config,
    pub global_options: GlobalOptions,
    /// The caches in use, once they have been found out.
    pub cachix_caches: Option<CachixCaches>,
    /// The file of trusted keys.
    pub cachix_trusted_keys: String,
    /// The user's directory of garbage collector roots.
    pub devenv_home_gc: String,
    /// The project's directory of garbage collector roots.
    pub devenv_dot_gc: String,
    /// The project's directory of working files.
    pub devenv_dotfile: String,
    /// The project's directory.
    pub devenv_root: String,
}

/// [`Nix`] with the texts as character sequences.
#[verifier::ext_equal]
pub struct NixView {
    pub options: OptionsView,
    pub config: Config,
    pub global_options: GlobalOptionsView,
    pub cachix_caches: Option<CachixCachesView>,
    pub cachix_trusted_keys: Seq<char>,
    pub devenv_home_gc: Seq<char>,
    pub devenv_dot_gc: Seq<char>,
    pub devenv_dotfile: Seq<char>,
    pub devenv_root: Seq<char>,
}

impl<'a> DeepView for Nix<'a> {
    type V = NixView;

    open spec fn deep_view(&self) -> NixView {
        NixView {
            options: self.options.deep_view(),
            config: self.config,
            global_options: self.global_options.deep_view(),
            cachix_caches: self.cachix_caches.deep_view(),
            cachix_trusted_keys: self.cachix_trusted_keys@,
            devenv_home_gc: self.devenv_home_gc@,
            devenv_dot_gc: self.devenv_dot_gc@,
            devenv_dotfile: self.devenv_dotfile@,
            devenv_root: self.devenv_root@,
        }
    }
}

/// The flags for the first `n` pairs of a key and a value.
pub open spec fn option_flags(pairs: Seq<Seq<char>>, n: nat) -> Seq<Seq<char>>
    decreases n,
{
    if n == 0 {
        Seq::empty()
    } else {
        option_flags(pairs, (n - 1) as nat) + seq![
            "--option"@,
            pairs[2 * n - 2],
            pairs[2 * n - 1],
        ]
    }
}

/// Whether one of the arguments asks for an evaluation that can be impure.
pub open spec fn evaluates(args: Seq<Seq<char>>) -> bool {
    args.contains("build"@) || args.contains("eval"@) || args.contains("print-dev-env"@)
}

/// The database of the evaluation cache in the directory of working files.
pub open spec fn database_url(devenv_dotfile: Seq<char>) -> Seq<char> {
    "sqlite:"@ + devenv_dotfile + "/nix-eval-cache.db"@
}

/// The flags that make the caches available.
pub open spec fn substituter_flags(caches: CachixCachesView) -> Seq<Seq<char>> {
    seq![
        "--option"@,
        "extra-substituters"@,
        joined(pull_urls(caches.caches.pull), " "@),
        "--option"@,
        "extra-trusted-public-keys"@,
        joined(values(caches.known_keys), " "@),
    ]
}

/// The outcome of the search for caches, with the texts as character sequences.
pub open spec fn search_outcome(found: Result<&CachixCaches, &str>) -> Result<
    CachixCachesView,
    Seq<char>,
> {
    match found {
        Ok(caches) => Ok(caches.deep_view()),
        Err(reason) => Err(reason@),
    }
}

impl NixView {
    /// A front end that has not looked for caches yet.
    pub open spec fn initial(
        config: Config,
        global_options: GlobalOptionsView,
        cachix_trusted_keys: Seq<char>,
        devenv_home_gc: Seq<char>,
        devenv_dotfile: Seq<char>,
        devenv_dot_gc: Seq<char>,
        devenv_root: Seq<char>,
    ) -> NixView {
        NixView {
            options: OptionsView::initial(),
            config,
            global_options,
            cachix_caches: None,
            cachix_trusted_keys,
            devenv_home_gc,
            devenv_dot_gc,
            devenv_dotfile,
            devenv_root,
        }
    }

    /// Whether evaluations may look outside the project.
    pub open spec fn impure(self) -> bool {
        self.global_options.impure || self.config.impure
    }

    /// The flags in front of a request's own arguments.
    pub open spec fn leading_flags(self, options: OptionsView) -> Seq<Seq<char>> {
        options.nix_flags + seq![
            "--max-jobs"@,
            decimal(self.global_options.max_jobs as nat),
            "--option"@,
            "eval-cache"@,
            "false"@,
        ] + option_flags(
            self.global_options.nix_option,
            self.global_options.nix_option.len() / 2,
        )
    }

    /// The flags behind a request's own arguments.
    pub open spec fn trailing_flags(self, command: Seq<char>, args: Seq<Seq<char>>) -> Seq<
        Seq<char>,
    > {
        let offline: Seq<Seq<char>> = if self.global_options.offline && command == "nix"@ {
            seq!["--offline"@]
        } else {
            Seq::empty()
        };
        let impure: Seq<Seq<char>> = if self.impure() && command == "nix"@ && evaluates(args) {
            seq!["--no-pure-eval"@]
        } else {
            Seq::empty()
        };
        offline + impure
    }

    /// The command for a request, with Nix installed at `devenv_nix`.
    pub open spec fn prepared(
        self,
        command: Seq<char>,
        args: Seq<Seq<char>>,
        options: OptionsView,
        devenv_nix: Seq<char>,
    ) -> CommandView {
        CommandView {
            program: devenv_nix + "/bin/"@ + command,
            args: self.leading_flags(options) + args + self.trailing_flags(command, args),
            envs: if self.impure() {
                seq![("NIX_PATH"@, Some(":"@))]
            } else {
                Seq::empty()
            },
            current_dir: Some(self.devenv_root),
        }
    }

    /// What the user is told when a request is made into a command.
    pub open spec fn prepare_notices(
        self,
        command: Seq<char>,
        args: Seq<Seq<char>>,
        options: OptionsView,
        environment: EnvironmentView,
    ) -> Seq<NoticeView> {
        match environment.devenv_nix {
            None => seq![
                error_notice(
                    "$DEVENV_NIX is not set, but required as devenv doesn't work without a few Nix patches."@,
                ),
                error_notice(
                    "Please follow https://devenv.sh/getting-started/ to install devenv."@,
                ),
            ],
            Some(devenv_nix) => if self.global_options.verbose {
                seq![
                    debugging(
                        "Running command: "@ + self.prepared(
                            command,
                            args,
                            options,
                            devenv_nix,
                        ).shown(),
                    ),
                ]
            } else {
                Seq::empty()
            },
        }
    }

    /// The caches that a request uses, of those that were found: none while
    /// offline.
    pub open spec fn usable(self, found: Result<CachixCachesView, Seq<char>>) -> Option<
        CachixCachesView,
    > {
        match found {
            Ok(caches) if !self.global_options.offline => Some(caches),
            _ => None,
        }
    }

    /// The arguments of a request, behind the flags for the caches it uses.
    pub open spec fn substituted_args(
        self,
        args: Seq<Seq<char>>,
        found: Result<CachixCachesView, Seq<char>>,
    ) -> Seq<Seq<char>> {
        match self.usable(found) {
            Some(caches) => substituter_flags(caches) + args,
            None => args,
        }
    }

    /// The cache that a request's results are pushed to.
    pub open spec fn push_cache(self, found: Result<CachixCachesView, Seq<char>>) -> Option<
        Seq<char>,
    > {
        match self.usable(found) {
            Some(caches) => caches.caches.push,
            None => None,
        }
    }

    /// The command for a request that uses caches.
    pub open spec fn prepared_with_substituters(
        self,
        command: Seq<char>,
        args: Seq<Seq<char>>,
        options: OptionsView,
        found: Result<CachixCachesView, Seq<char>>,
        devenv_nix: Seq<char>,
        can_push: bool,
    ) -> CommandView {
        let cmd = self.prepared(command, self.substituted_args(args, found), options, devenv_nix);
        match self.push_cache(found) {
            Some(cache) if can_push => cmd.watched(cache),
            _ => cmd,
        }
    }

    /// What the user is told when a request that uses caches is made into a
    /// command.
    pub open spec fn substituter_notices(
        self,
        command: Seq<char>,
        args: Seq<Seq<char>>,
        options: OptionsView,
        found: Result<CachixCachesView, Seq<char>>,
        environment: EnvironmentView,
    ) -> Seq<NoticeView> {
        let about_caches: Seq<NoticeView> = match found {
            Err(reason) if !self.global_options.offline => seq![
                warning("Failed to get cachix caches due to evaluation error"@),
                debugging(reason),
            ],
            _ => Seq::empty(),
        };
        let about_command = self.prepare_notices(
            command,
            self.substituted_args(args, found),
            options,
            environment,
        );
        let about_push: Seq<NoticeView> = match self.push_cache(found) {
            Some(cache) if environment.devenv_nix is Some && environment.cachix_auth_token is None =>
                seq![
                warning(
                    "CACHIX_AUTH_TOKEN is not set, but required to push to "@ + cache + "."@,
                ),
            ],
            _ => Seq::empty(),
        };
        about_caches + about_command + about_push
    }
}

impl<'a> Nix<'a> {
    /// A front end that has not looked for caches yet.
    pub fn new(
        config: Config,
        global_options: GlobalOptions,
        cachix_trusted_keys: String,
        devenv_home_gc: String,
        devenv_dotfile: String,
        devenv_dot_gc: String,
        devenv_root: String,
    ) -> (r: Nix<'a>)
        ensures
            r.deep_view() == NixView::initial(
                config,
                global_options.deep_view(),
                cachix_trusted_keys@,
                devenv_home_gc@,
                devenv_dotfile@,
                devenv_dot_gc@,
                devenv_root@,
            ),
    {
        Nix {
            options: Options::initial(),
            config,
            global_options,
            cachix_caches: None,
            cachix_trusted_keys,
            devenv_home_gc,
            devenv_dot_gc,
            devenv_dotfile,
            devenv_root,
        }
    }

    /// The database of the evaluation cache.
    pub fn database_url(&self) -> (url: String)
        ensures
            url@ == database_url(self.deep_view().devenv_dotfile),
    {
        let mut url = String::from_str("sqlite:");
        url.append(self.devenv_dotfile.as_str());
        url.append("/nix-eval-cache.db");
        url
    }

    /// Whether a request that uses caches searches for them first.
    pub fn searches_caches(&self) -> (r: bool)
        ensures
            r == !self.deep_view().global_options.offline,
    {
        !self.global_options.offline
    }

    /// The flags in front of a request's own arguments.
    fn leading_flags(&self, options: &Options<'a>) -> (flags: Vec<String>)
        ensures
            flags.deep_view() == self.deep_view().leading_flags(options.deep_view()),
    {
        let mut flags = owned(options.nix_flags);
        push_text(&mut flags, "--max-jobs");
        push_text(&mut flags, format_decimal(self.global_options.max_jobs).as_str());
        push_text(&mut flags, "--option");
        push_text(&mut flags, "eval-cache");
        push_text(&mut flags, "false");
        let ghost front = flags.deep_view();
        let pairs = &self.global_options.nix_option;
        let count: usize = pairs.len() / 2;
        for n in 0..count
            invariant
                count == pairs.len() / 2,
                flags.deep_view() =~= front + option_flags(pairs.deep_view(), n as nat),
        {
            push_text(&mut flags, "--option");
            push_text(&mut flags, pairs[2 * n].as_str());
            push_text(&mut flags, pairs[2 * n + 1].as_str());
        }
        assert(flags.deep_view() =~= self.deep_view().leading_flags(options.deep_view()));
        flags
    }

    /// Makes a request into a command. It fails, and says so, where the
    /// environment does not name the place of Nix.
    pub fn prepare_command(
        &self,
        command: &str,
        args: &[&str],
        options: &Options<'a>,
        environment: &Environment,
        log: &mut Vec<Notice>,
    ) -> (r: Result<Command, NixError>)
        ensures
            match r {
                Ok(cmd) => environment.deep_view().devenv_nix matches Some(devenv_nix)
                    && cmd.deep_view() == self.deep_view().prepared(
                    command@,
                    args.deep_view(),
                    options.deep_view(),
                    devenv_nix,
                ),
                Err(e) => environment.deep_view().devenv_nix is None && e is DevenvNixNotSet,
            },
            r matches Ok(cmd) ==> (cmd.current_dir matches Some(dir) && dir@
                == self.devenv_root@),
            final(log).deep_view() == old(log).deep_view() + self.deep_view().prepare_notices(
                command@,
                args.deep_view(),
                options.deep_view(),
                environment.deep_view(),
            ),
    {
        let mut flags = self.leading_flags(options);
        append_owned(&mut flags, args);
        let program = match &environment.devenv_nix {
            Some(devenv_nix) => {
                let mut program = String::from_str(devenv_nix.as_str());
                program.append("/bin/");
                program.append(command);
                program
            },
            None => {
                report(
                    log,
                    Level::Error,
                    String::from_str(
                        "$DEVENV_NIX is not set, but required as devenv doesn't work without a few Nix patches.",
                    ),
                );
                report(
                    log,
                    Level::Error,
                    String::from_str(
                        "Please follow https://devenv.sh/getting-started/ to install devenv.",
                    ),
                );
                assert(log.deep_view() =~= old(log).deep_view()
                    + self.deep_view().prepare_notices(
                    command@,
                    args.deep_view(),
                    options.deep_view(),
                    environment.deep_view(),
                ));
                return Err(NixError::DevenvNixNotSet);
            },
        };
        let is_nix = same_text(command, "nix");
        if self.global_options.offline && is_nix {
            push_text(&mut flags, "--offline");
        }
        let mut envs: Vec<(String, Option<String>)> = Vec::new();
        if self.global_options.impure || self.config.impure {
            if is_nix && (contains_text(args, "build") || contains_text(args, "eval")
                || contains_text(args, "print-dev-env")) {
                push_text(&mut flags, "--no-pure-eval");
            }
            envs.push((String::from_str("NIX_PATH"), Some(String::from_str(":"))));
        }
        let cmd = Command {
            program,
            args: flags,
            envs,
            current_dir: Some(self.devenv_root.clone()),
        };
        assert(cmd.deep_view() =~= self.deep_view().prepared(
            command@,
            args.deep_view(),
            options.deep_view(),
            environment.deep_view().devenv_nix->0,
        ));
        if self.global_options.verbose {
            let mut text = String::from_str("Running command: ");
            text.append(display_command(&cmd).as_str());
            report(log, Level::Debug, text);
        }
        assert(log.deep_view() =~= old(log).deep_view() + self.deep_view().prepare_notices(
            command@,
            args.deep_view(),
            options.deep_view(),
            environment.deep_view(),
        ));
        Ok(cmd)
    }

    /// Makes a request that uses caches into a command. `found` is what the
    /// search for caches came to; while offline it plays no part. Where there is
    /// a cache to push to and a secret to do it with, the command runs under
    /// the watch of `cachix`; without the secret the user is warned.
    pub fn prepare_command_with_substituters(
        &self,
        command: &str,
        args: &[&str],
        options: &Options<'a>,
        found: Result<&CachixCaches, &str>,
        environment: &Environment,
        log: &mut Vec<Notice>,
    ) -> (r: Result<Command, NixError>)
        ensures
            match r {
                Ok(cmd) => environment.deep_view().devenv_nix matches Some(devenv_nix)
                    && cmd.deep_view() == self.deep_view().prepared_with_substituters(
                    command@,
                    args.deep_view(),
                    options.deep_view(),
                    search_outcome(found),
                    devenv_nix,
                    environment.cachix_auth_token is Some,
                ),
                Err(e) => environment.deep_view().devenv_nix is None && e is DevenvNixNotSet,
            },
            r matches Ok(cmd) ==> (cmd.current_dir matches Some(dir) && dir@
                == self.devenv_root@),
            final(log).deep_view() == old(log).deep_view()
                + self.deep_view().substituter_notices(
                command@,
                args.deep_view(),
                options.deep_view(),
                search_outcome(found),
                environment.deep_view(),
            ),
    {
        let mut final_args: Vec<String> = Vec::new();
        let mut push_cache: Option<&str> = None;
        if !self.global_options.offline {
            match found {
                Err(reason) => {
                    report(
                        log,
                        Level::Warn,
                        String::from_str("Failed to get cachix caches due to evaluation error"),
                    );
                    report(log, Level::Debug, String::from_str(reason));
                },
                Ok(caches) => {
                    push_cache = match &caches.caches.push {
                        Some(cache) => Some(cache.as_str()),
                        None => None,
                    };
                    push_text(&mut final_args, "--option");
                    push_text(&mut final_args, "extra-substituters");
                    push_text(&mut final_args, join(&caches.caches.urls(), " ").as_str());
                    push_text(&mut final_args, "--option");
                    push_text(&mut final_args, "extra-trusted-public-keys");
                    push_text(&mut final_args, join(&caches.known_keys.values(), " ").as_str());
                },
            }
        }
        append_owned(&mut final_args, args);
        let ghost outcome = search_outcome(found);
        let ghost all_args = self.deep_view().substituted_args(args.deep_view(), outcome);
        assert(final_args.deep_view() =~= all_args);
        let prepared = self.prepare_command(
            command,
            borrowed(&final_args).as_slice(),
            options,
            environment,
            log,
        );
        let result = match prepared {
            Err(e) => Err(e),
            Ok(cmd) => match push_cache {
                Some(cache) => {
                    if environment.cachix_auth_token.is_some() {
                        Ok(cmd.watched(cache))
                    } else {
                        let mut text = String::from_str(
                            "CACHIX_AUTH_TOKEN is not set, but required to push to ",
                        );
                        text.append(cache);
                        text.append(".");
                        report(log, Level::Warn, text);
                        Ok(cmd)
                    }
                },
                None => Ok(cmd),
            },
        };
        assert(log.deep_view() =~= old(log).deep_view() + self.deep_view().substituter_notices(
            command@,
            args.deep_view(),
            options.deep_view(),
            outcome,
            environment.deep_view(),
        ));
        result
    }
}

} // verus!
