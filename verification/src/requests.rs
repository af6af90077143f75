//! The operations of the front end: what each asks of Nix, and what it makes of
//! the answer.
use vstd::pervasive::unreached;
use vstd::prelude::*;
use vstd::string::*;
use vstd::utf8::*;

use crate::bytes::{from_utf8, from_utf8_lossy, lossy_text, utf8_complaint};
use crate::command::Command;
use crate::error::{NixError, NixErrorView};
use crate::inputs::{inputs_section, section_of};
use crate::nix::{Nix, NixView};
use crate::notice::Notice;
use crate::options::{Environment, Options, OptionsView};
use crate::run::{Output, OutputView};
use crate::text::{owned, push_text, split_words, words};

verus! {

/// A call of one of the Nix commands.
#[derive(Debug, PartialEq, Eq)]
pub struct Request<'a> {
    /// Whether the call uses binary caches.
    pub substituters: bool,
    pub command: String,
    pub args: Vec<String>,
    pub options: Options<'a>,
}

/// [`Request`] with the texts as character sequences.
#[verifier::ext_equal]
pub struct RequestView {
    pub substituters: bool,
    pub command: Seq<char>,
    pub args: Seq<Seq<char>>,
    pub options: OptionsView,
}

impl<'a> DeepView for Request<'a> {
    type V = RequestView;

    open spec fn deep_view(&self) -> RequestView {
        RequestView {
            substituters: self.substituters,
            command: self.command@,
            args: self.args.deep_view(),
            options: self.options.deep_view(),
        }
    }
}

/// What became of a request.
#[derive(Debug, PartialEq, Eq)]
pub enum Outcome {
    /// It was performed, and left this behind.
    Performed(Output),
    /// It failed.
    Failed(NixError),
}

/// [`Outcome`] with the bytes and texts as sequences.
pub enum OutcomeView {
    Performed(OutputView),
    Failed(NixErrorView),
}

impl DeepView for Outcome {
    type V = OutcomeView;

    open spec fn deep_view(&self) -> OutcomeView {
        match self {
            Outcome::Performed(output) => OutcomeView::Performed(output.deep_view()),
            Outcome::Failed(e) => OutcomeView::Failed(e.deep_view()),
        }
    }
}

/// How far the report on a project has come.
#[derive(Debug, PartialEq, Eq)]
pub enum MetadataStage {
    /// The flake is asked for its metadata.
    AskingFlake,
    /// The project is asked what it says of itself. The flake printed this.
    AskingProject { metadata: Vec<u8> },
    /// The report is made, or it failed.
    Finished,
}

/// [`MetadataStage`] with the bytes as a sequence.
pub enum MetadataStageView {
    AskingFlake,
    AskingProject { metadata: Seq<u8> },
    Finished,
}

impl DeepView for MetadataStage {
    type V = MetadataStageView;

    open spec fn deep_view(&self) -> MetadataStageView {
        match self {
            MetadataStage::AskingFlake => MetadataStageView::AskingFlake,
            MetadataStage::AskingProject { metadata } => MetadataStageView::AskingProject {
                metadata: metadata@,
            },
            MetadataStage::Finished => MetadataStageView::Finished,
        }
    }
}

/// What is to be done next for the report on a project.
#[derive(Debug, PartialEq, Eq)]
pub enum MetadataAction<'a> {
    /// Perform the request.
    Perform(Request<'a>),
    /// Nothing more: this is the report.
    Succeed(String),
    /// Nothing more: a request failed.
    Fail(NixError),
}

/// [`MetadataAction`] with the texts as character sequences.
pub enum MetadataActionView {
    Perform(RequestView),
    Succeed(Seq<char>),
    Fail(NixErrorView),
}

impl<'a> DeepView for MetadataAction<'a> {
    type V = MetadataActionView;

    open spec fn deep_view(&self) -> MetadataActionView {
        match self {
            MetadataAction::Perform(request) => MetadataActionView::Perform(request.deep_view()),
            MetadataAction::Succeed(text) => MetadataActionView::Succeed(text@),
            MetadataAction::Fail(e) => MetadataActionView::Fail(e.deep_view()),
        }
    }
}

/// The project's attributes as installables.
pub open spec fn installables(attributes: Seq<Seq<char>>) -> Seq<Seq<char>> {
    Seq::new(attributes.len(), |i: int| ".#"@ + attributes[i])
}

impl NixView {
    pub open spec fn develop_request(self, args: Seq<Seq<char>>, replace_shell: bool) -> RequestView {
        RequestView {
            substituters: true,
            command: "nix"@,
            args,
            options: self.options.interactive(replace_shell),
        }
    }

    pub open spec fn dev_env_request(self, json: bool, gc_root: Seq<char>) -> RequestView {
        let args = seq!["print-dev-env"@, "--profile"@, gc_root];
        RequestView {
            substituters: true,
            command: "nix"@,
            args: if json {
                args.push("--json"@)
            } else {
                args
            },
            options: self.options.cached(),
        }
    }

    pub open spec fn tidy_request(self, gc_root: Seq<char>) -> RequestView {
        RequestView {
            substituters: false,
            command: "nix-env"@,
            args: seq!["-p"@, gc_root, "--delete-generations"@, "old"@],
            options: self.options.silent(),
        }
    }

    pub open spec fn build_request(self, attributes: Seq<Seq<char>>) -> Option<RequestView> {
        if attributes.len() == 0 {
            None
        } else {
            Some(
                RequestView {
                    substituters: true,
                    command: "nix"@,
                    args: seq!["build"@, "--no-link"@, "--print-out-paths"@] + installables(
                        attributes,
                    ),
                    options: self.options.cached(),
                },
            )
        }
    }

    pub open spec fn eval_request(self, attributes: Seq<Seq<char>>) -> RequestView {
        RequestView {
            substituters: false,
            command: "nix"@,
            args: seq!["eval"@, "--json"@] + installables(attributes),
            options: self.options.cached(),
        }
    }

    pub open spec fn update_request(self, input_name: Option<Seq<char>>) -> RequestView {
        RequestView {
            substituters: false,
            command: "nix"@,
            args: match input_name {
                Some(name) => seq!["flake"@, "lock"@, "--update-input"@, name],
                None => seq!["flake"@, "update"@],
            },
            options: self.options,
        }
    }

    pub open spec fn flake_metadata_request(self) -> RequestView {
        RequestView {
            substituters: false,
            command: "nix"@,
            args: seq!["flake"@, "metadata"@],
            options: self.options.cached(),
        }
    }

    pub open spec fn info_request(self) -> RequestView {
        RequestView {
            substituters: false,
            command: "nix"@,
            args: seq!["eval"@, "--raw"@, ".#info"@],
            options: self.options.cached(),
        }
    }

    /// How the report on a project sets out.
    pub open spec fn metadata_begun(self) -> (MetadataStageView, MetadataActionView) {
        (
            MetadataStageView::AskingFlake,
            MetadataActionView::Perform(self.flake_metadata_request()),
        )
    }

    /// How the report on a project goes on: the flake is asked, then the project,
    /// and a request that failed ends it.
    pub open spec fn metadata_continued(self, stage: MetadataStageView, outcome: OutcomeView) -> (
        MetadataStageView,
        MetadataActionView,
    )
        recommends
            !(stage is Finished),
    {
        match (stage, outcome) {
            (_, OutcomeView::Failed(e)) => (
                MetadataStageView::Finished,
                MetadataActionView::Fail(e),
            ),
            (MetadataStageView::AskingFlake, OutcomeView::Performed(output)) => (
                MetadataStageView::AskingProject { metadata: output.stdout },
                MetadataActionView::Perform(self.info_request()),
            ),
            (MetadataStageView::AskingProject { metadata }, OutcomeView::Performed(output)) => (
                MetadataStageView::Finished,
                MetadataActionView::Succeed(
                    project_report(lossy_text(metadata), lossy_text(output.stdout)),
                ),
            ),
            (MetadataStageView::Finished, OutcomeView::Performed(_)) => arbitrary(),
        }
    }

    pub open spec fn search_request(self, name: Seq<char>) -> RequestView {
        RequestView {
            substituters: true,
            command: "nix"@,
            args: seq!["search"@, "--inputs-from"@, "."@, "--json"@, "nixpkgs"@, name],
            options: self.options,
        }
    }
}

/// The report on a project: its inputs, then what it says of itself.
pub open spec fn project_report(metadata: Seq<char>, info: Seq<char>) -> Seq<char> {
    section_of(metadata) + "\n"@ + info
}

/// Appends the attributes as installables.
fn append_installables(args: &mut Vec<String>, attributes: &[&str])
    ensures
        final(args).deep_view() == old(args).deep_view() + installables(attributes.deep_view()),
{
    let ghost all = installables(attributes.deep_view());
    for i in 0..attributes.len()
        invariant
            all == installables(attributes.deep_view()),
            args.deep_view() =~= old(args).deep_view() + all.take(i as int),
    {
        let mut installable = String::from_str(".#");
        installable.append(attributes[i]);
        push_text(args, installable.as_str());
        assert(all[i as int] == ".#"@ + attributes[i as int]@);
    }
    assert(all.take(all.len() as int) =~= all);
}

/// The paths that a build printed.
pub fn build_outputs(stdout: &Vec<u8>) -> (paths: Vec<String>)
    ensures
        paths.deep_view() == words(lossy_text(stdout@)),
        valid_utf8(stdout@) ==> paths.deep_view() == words(decode_utf8(stdout@)),
{
    split_words(from_utf8_lossy(stdout).as_str())
}

/// The text that an evaluation printed. It is an error where that is not UTF-8.
pub fn eval_output(stdout: Vec<u8>) -> (r: Result<String, NixError>)
    ensures
        match r {
            Ok(text) => valid_utf8(stdout@) && text@ == decode_utf8(stdout@),
            Err(e) => !valid_utf8(stdout@) && e.deep_view() == (NixErrorView::OutputNotUtf8 {
                reason: utf8_complaint(stdout@),
            }),
        },
{
    match from_utf8(stdout) {
        Ok(text) => Ok(text),
        Err(reason) => Err(NixError::OutputNotUtf8 { reason }),
    }
}

/// Writes the report on a project, of the flake's metadata and the project's
/// own words.
pub fn report_project(metadata: &str, info: &str) -> (s: String)
    ensures
        s@ == project_report(metadata@, info@),
        s@.len() == section_of(metadata@).len() + 1 + info@.len(),
        s@.take(section_of(metadata@).len() as int) == section_of(metadata@),
        s@[section_of(metadata@).len() as int] == '\n',
        s@.skip(s@.len() - info@.len()) == info@,
{
    let mut s = inputs_section(metadata);
    s.append("\n");
    s.append(info);
    proof {
        reveal_strlit("\n");
        assert(s@.take(section_of(metadata@).len() as int) =~= section_of(metadata@));
        assert(s@.skip(s@.len() - info@.len()) =~= info@);
    }
    s
}

/// Writes the report on a project, of what the two metadata requests printed.
pub fn metadata_output(metadata: &Vec<u8>, info: &Vec<u8>) -> (s: String)
    ensures
        s@ == project_report(lossy_text(metadata@), lossy_text(info@)),
        valid_utf8(metadata@) && valid_utf8(info@) ==> s@ == project_report(
            decode_utf8(metadata@),
            decode_utf8(info@),
        ),
{
    report_project(from_utf8_lossy(metadata).as_str(), from_utf8_lossy(info).as_str())
}

impl<'a> Nix<'a> {
    /// Opens a development shell, in place of the running process or beside it.
    pub fn develop(&self, args: &[&str], replace_shell: bool) -> (r: Request<'a>)
        ensures
            r.deep_view() == self.deep_view().develop_request(args.deep_view(), replace_shell),
    {
        Request {
            substituters: true,
            command: String::from_str("nix"),
            args: owned(args),
            options: self.options.interactive(replace_shell),
        }
    }

    /// The call that evaluates the development environment and keeps it as a root.
    pub(crate) fn dev_env_request(&self, json: bool, gc_root: &str) -> (r: Request<'a>)
        ensures
            r.deep_view() == self.deep_view().dev_env_request(json, gc_root@),
    {
        let mut args = owned(&["print-dev-env", "--profile", gc_root]);
        if json {
            push_text(&mut args, "--json");
        }
        let request = Request {
            substituters: true,
            command: String::from_str("nix"),
            args,
            options: self.options.cached(),
        };
        assert(request.deep_view() =~= self.deep_view().dev_env_request(json, gc_root@));
        request
    }

    /// The call that drops the older generations of a root.
    pub(crate) fn tidy_request(&self, gc_root: &str) -> (r: Request<'a>)
        ensures
            r.deep_view() == self.deep_view().tidy_request(gc_root@),
    {
        let request = Request {
            substituters: false,
            command: String::from_str("nix-env"),
            args: owned(&["-p", gc_root, "--delete-generations", "old"]),
            options: self.options.silent(),
        };
        assert(request.deep_view() =~= self.deep_view().tidy_request(gc_root@));
        request
    }

    /// Opens the interactive interpreter: the command that takes the place of
    /// the running process.
    pub fn repl(&self, environment: &Environment, log: &mut Vec<Notice>) -> (r: Result<
        Command,
        NixError,
    >)
        ensures
            match r {
                Ok(cmd) => environment.deep_view().devenv_nix matches Some(devenv_nix)
                    && cmd.deep_view() == self.deep_view().prepared(
                    "nix"@,
                    seq!["repl"@, "."@],
                    self.deep_view().options,
                    devenv_nix,
                ),
                Err(e) => environment.deep_view().devenv_nix is None && e is DevenvNixNotSet,
            },
            final(log).deep_view() == old(log).deep_view() + self.deep_view().prepare_notices(
                "nix"@,
                seq!["repl"@, "."@],
                self.deep_view().options,
                environment.deep_view(),
            ),
    {
        let args = ["repl", "."];
        assert(args.deep_view() =~= seq!["repl"@, "."@]);
        self.prepare_command("nix", &args, &self.options, environment, log)
    }

    /// Builds attributes of the project. Nothing is asked where there are none.
    pub fn build(&self, attributes: &[&str]) -> (r: Option<Request<'a>>)
        ensures
            r.deep_view() == self.deep_view().build_request(attributes.deep_view()),
    {
        if attributes.len() == 0 {
            return None;
        }
        let mut args = owned(&["build", "--no-link", "--print-out-paths"]);
        append_installables(&mut args, attributes);
        let request = Request {
            substituters: true,
            command: String::from_str("nix"),
            args,
            options: self.options.cached(),
        };
        assert(request.deep_view() =~= self.deep_view().build_request(attributes.deep_view())->0);
        Some(request)
    }

    /// Evaluates attributes of the project to JSON.
    pub fn eval(&self, attributes: &[&str]) -> (r: Request<'a>)
        ensures
            r.deep_view() == self.deep_view().eval_request(attributes.deep_view()),
    {
        let mut args = owned(&["eval", "--json"]);
        append_installables(&mut args, attributes);
        let request = Request {
            substituters: false,
            command: String::from_str("nix"),
            args,
            options: self.options.cached(),
        };
        assert(request.deep_view() =~= self.deep_view().eval_request(attributes.deep_view()));
        request
    }

    /// Updates one input of the project, or all of them.
    pub fn update(&self, input_name: &Option<String>) -> (r: Request<'a>)
        ensures
            r.deep_view() == self.deep_view().update_request(input_name.deep_view()),
    {
        let args = match input_name {
            Some(name) => owned(&["flake", "lock", "--update-input", name.as_str()]),
            None => owned(&["flake", "update"]),
        };
        let request = Request {
            substituters: false,
            command: String::from_str("nix"),
            args,
            options: self.options,
        };
        assert(request.deep_view() =~= self.deep_view().update_request(input_name.deep_view()));
        request
    }

    /// Sets out to report on the project.
    pub fn metadata(&self) -> (r: (MetadataStage, MetadataAction<'a>))
        ensures
            (r.0.deep_view(), r.1.deep_view()) == self.deep_view().metadata_begun(),
    {
        let request = Request {
            substituters: false,
            command: String::from_str("nix"),
            args: owned(&["flake", "metadata"]),
            options: self.options.cached(),
        };
        assert(request.deep_view() =~= self.deep_view().flake_metadata_request());
        (MetadataStage::AskingFlake, MetadataAction::Perform(request))
    }

    /// Leads the report on after the request that was asked for.
    pub fn continue_metadata(&self, stage: MetadataStage, outcome: Outcome) -> (r: (
        MetadataStage,
        MetadataAction<'a>,
    ))
        requires
            !(stage is Finished),
        ensures
            (r.0.deep_view(), r.1.deep_view()) == self.deep_view().metadata_continued(
                stage.deep_view(),
                outcome.deep_view(),
            ),
    {
        match outcome {
            Outcome::Failed(e) => (MetadataStage::Finished, MetadataAction::Fail(e)),
            Outcome::Performed(output) => match stage {
                MetadataStage::AskingFlake => {
                    let request = Request {
                        substituters: false,
                        command: String::from_str("nix"),
                        args: owned(&["eval", "--raw", ".#info"]),
                        options: self.options.cached(),
                    };
                    assert(request.deep_view() =~= self.deep_view().info_request());
                    (
                        MetadataStage::AskingProject { metadata: output.stdout },
                        MetadataAction::Perform(request),
                    )
                },
                MetadataStage::AskingProject { metadata } => (
                    MetadataStage::Finished,
                    MetadataAction::Succeed(metadata_output(&metadata, &output.stdout)),
                ),
                MetadataStage::Finished => unreached(),
            },
        }
    }

    /// Searches the packages of the project's inputs.
    pub fn search(&self, name: &str) -> (r: Request<'a>)
        ensures
            r.deep_view() == self.deep_view().search_request(name@),
    {
        let request = Request {
            substituters: true,
            command: String::from_str("nix"),
            args: owned(&["search", "--inputs-from", ".", "--json", "nixpkgs", name]),
            options: self.options,
        };
        assert(request.deep_view() =~= self.deep_view().search_request(name@));
        request
    }
}

} // verus!
