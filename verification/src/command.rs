//! Commands: a program, its arguments, and what surrounds it.
use vstd::prelude::*;
use vstd::string::*;

use crate::text::{join, joined};

verus! {

/// A process to be started.
#[derive(Debug, PartialEq, Eq)]
pub struct Command {
    pub program: String,
    pub args: Vec<String>,
    /// Changes to the environment: a variable is set, or taken out.
    pub envs: Vec<(String, Option<String>)>,
    pub current_dir: Option<String>,
}

/// [`Command`] with the texts as character sequences.
#[verifier::ext_equal]
pub struct CommandView {
    pub program: Seq<char>,
    pub args: Seq<Seq<char>>,
    pub envs: Seq<(Seq<char>, Option<Seq<char>>)>,
    pub current_dir: Option<Seq<char>>,
}

impl DeepView for Command {
    type V = CommandView;

    open spec fn deep_view(&self) -> CommandView {
        CommandView {
            program: self.program@,
            args: self.args.deep_view(),
            envs: self.envs.deep_view(),
            current_dir: self.current_dir.deep_view(),
        }
    }
}

impl CommandView {
    /// The command as one line.
    pub open spec fn shown(self) -> Seq<char> {
        self.program + " "@ + joined(self.args, " "@)
    }

    /// The command with one more argument.
    pub open spec fn with_arg(self, arg: Seq<char>) -> CommandView {
        CommandView { args: self.args.push(arg), ..self }
    }

    /// The same work done under the watch of `cachix`, which pushes to `cache`
    /// what the command builds. It runs with the variables that the command
    /// sets and where the command runs.
    pub open spec fn watched(self, cache: Seq<char>) -> CommandView {
        CommandView {
            program: "cachix"@,
            args: seq!["watch-exec"@, cache, "--"@, self.program] + self.args,
            envs: self.envs.filter(|e: (Seq<char>, Option<Seq<char>>)| e.1 is Some),
            current_dir: match self.current_dir {
                Some(dir) => Some(dir),
                None => Some("."@),
            },
        }
    }
}

/// Shows a command as one line.
pub fn display_command(cmd: &Command) -> (s: String)
    ensures
        s@ == cmd.deep_view().shown(),
{
    let mut s = String::from_str(cmd.program.as_str());
    s.append(" ");
    s.append(join(&cmd.args, " ").as_str());
    s
}

impl Command {
    /// Adds an argument.
    pub fn arg(&mut self, arg: &str)
        ensures
            final(self).deep_view() == old(self).deep_view().with_arg(arg@),
    {
        self.args.push(String::from_str(arg));
        assert(self.args.deep_view() =~= old(self).args.deep_view().push(arg@));
    }

    /// The same work done under the watch of `cachix`.
    pub fn watched(self, cache: &str) -> (r: Command)
        ensures
            r.deep_view() == self.deep_view().watched(cache@),
    {
        let mut args: Vec<String> = Vec::new();
        args.push(String::from_str("watch-exec"));
        args.push(String::from_str(cache));
        args.push(String::from_str("--"));
        args.push(self.program);
        let ghost front = args.deep_view();
        assert(front =~= seq!["watch-exec"@, cache@, "--"@, self.program@]);
        for i in 0..self.args.len()
            invariant
                args.deep_view() =~= front + self.args.deep_view().take(i as int),
        {
            let ghost before = args.deep_view();
            args.push(self.args[i].clone());
            assert(args.deep_view() =~= before.push(self.args.deep_view()[i as int]));
        }
        assert(self.args.deep_view().take(self.args.deep_view().len() as int)
            =~= self.args.deep_view());
        let ghost all = self.envs.deep_view();
        let ghost is_set = |e: (Seq<char>, Option<Seq<char>>)| e.1 is Some;
        let mut envs: Vec<(String, Option<String>)> = Vec::new();
        assert(envs.deep_view() =~= all.take(0).filter(is_set)) by {
            reveal(Seq::filter);
        }
        for i in 0..self.envs.len()
            invariant
                all == self.envs.deep_view(),
                is_set == (|e: (Seq<char>, Option<Seq<char>>)| e.1 is Some),
                envs.deep_view() == all.take(i as int).filter(is_set),
        {
            let ghost before = envs.deep_view();
            proof {
                reveal(Seq::filter);
                assert(all.take(i + 1).drop_last() =~= all.take(i as int));
                assert(all.take(i + 1).last() == self.envs[i as int].deep_view());
            }
            if let Some(value) = &self.envs[i].1 {
                envs.push((self.envs[i].0.clone(), Some(value.clone())));
                assert(envs.deep_view() =~= before.push(all[i as int]));
            }
        }
        assert(all.take(all.len() as int) =~= all);
        let current_dir = match self.current_dir {
            Some(dir) => Some(dir),
            None => Some(String::from_str(".")),
        };
        Command { program: String::from_str("cachix"), args, envs, current_dir }
    }
}

} // verus!
