//! Operations through the `git` command.
//!
//! What touches a working tree goes through the command, which refuses to overwrite uncommitted
//! work and respects sparse checkouts.
use vstd::prelude::*;

use crate::dialogue::{
    and_then, ran_turn, turn, version_turn, Command, CommandModel, Dialogue, Interrupt, Reply,
    Request, RequestModel, Turn,
};
use crate::errors::{CliErrorModel, GitCliError};
use crate::model::{lemma_models_push, Model};
use crate::raw::{utf8, RawText};
use crate::records::{RunReport, VersionReport};
use crate::text::{cat, cat3, copied_texts, trim, trimmed, utf8_lossy};

verus! {

broadcast use lemma_models_push;

/// How an operation through the `git` command stands.
pub type CliTurn<A> = Turn<A, CliErrorModel>;

/// What an operation through the `git` command returns.
pub type CliResult<T> = Result<T, Interrupt<GitCliError>>;

/// The `git` command, and the directories that staging and status leave out.
pub struct GitCli {
    skip_dirs: Vec<String>,
}

impl GitCli {
    /// The names of the directories that staging and status leave out.
    pub closed spec fn dirs(&self) -> Seq<Seq<char>> {
        self.skip_dirs.model()
    }

    /// The command, with the names of the directories that staging and status leave out.
    pub fn new(skip_dirs: Vec<String>) -> (r: GitCli)
        ensures
            r.dirs() == skip_dirs.model(),
    {
        GitCli { skip_dirs }
    }

    /// The names of the directories that staging and status leave out.
    pub fn skip_dirs(&self) -> (r: &Vec<String>)
        ensures
            r.model() == self.dirs(),
    {
        &self.skip_dirs
    }
}

impl Clone for GitCli {
    /// The same command again.
    fn clone(&self) -> (r: GitCli)
        ensures
            r.dirs() == self.dirs(),
    {
        GitCli { skip_dirs: copied_texts(&self.skip_dirs) }
    }
}

// ---------------------------------------------------------------------------
// Running a command
// ---------------------------------------------------------------------------

/// Whether `git` can be run.
pub open spec fn available_turn(h: Seq<Reply>, at: int) -> CliTurn<()> {
    and_then(
        version_turn(RequestModel::Version, h, at),
        |v: VersionReport, n: int|
            if v == VersionReport::Ended(true) {
                Turn::Done((), n)
            } else {
                Turn::Failed(CliErrorModel::NotAvailable, n)
            },
    )
}

/// What is told of a command that failed with this output.
pub open spec fn failure_text(stdout: Seq<char>, stderr: Seq<char>) -> Seq<char> {
    if stdout.len() == 0 && stderr.len() == 0 {
        "Command failed with no output"@
    } else if stdout.len() == 0 {
        "--- stdout\n"@ + stderr
    } else if stderr.len() == 0 {
        "--- stderr\n"@ + stdout
    } else {
        "--- stderr\n"@ + stderr + "\n--- stdout\n"@ + stdout
    }
}

/// What a command wrote, or how it failed. A failure of the command comes before a failure to
/// write its input.
pub open spec fn output_of(r: RunReport) -> Result<Seq<u8>, CliErrorModel> {
    match r {
        RunReport::Missing => Err(CliErrorModel::NotAvailable),
        RunReport::NotStarted(m) => Err(CliErrorModel::CommandFailed(m@)),
        RunReport::Ended(end) => if end.code != Some(0i32) {
            Err(
                CliErrorModel::CommandFailed(
                    failure_text(trimmed(utf8_lossy(end.stdout@)), trimmed(utf8_lossy(end.stderr@))),
                ),
            )
        } else {
            match end.stdin_error {
                Some(m) => Err(
                    CliErrorModel::CommandFailed("failed to write to git stdin: "@ + m@),
                ),
                None => Ok(end.stdout@),
            }
        },
    }
}

/// Whether `git diff --quiet` found differences: its exit code tells.
pub open spec fn differences_of(r: RunReport) -> Result<bool, CliErrorModel> {
    match r {
        RunReport::Missing => Err(CliErrorModel::NotAvailable),
        RunReport::NotStarted(m) => Err(CliErrorModel::CommandFailed(m@)),
        RunReport::Ended(end) => if end.code == Some(0i32) {
            Ok(false)
        } else if end.code == Some(1i32) {
            Ok(true)
        } else {
            Err(CliErrorModel::CommandFailed(trimmed(utf8_lossy(end.stderr@))))
        },
    }
}

/// Run `git -C <dir> <args>` and take the bytes that it writes.
pub open spec fn run_turn(c: CommandModel, h: Seq<Reply>, at: int) -> CliTurn<Seq<u8>> {
    and_then(
        available_turn(h, at),
        |u: (), n: int|
            and_then(
                ran_turn(RequestModel::Run(c), h, n),
                |r: RunReport, n: int|
                    match output_of(r) {
                        Ok(bytes) => Turn::Done(bytes, n),
                        Err(e) => Turn::Failed(e, n),
                    },
            ),
    )
}

/// Run `git -C <dir> <args>` and take the text that it writes.
pub open spec fn text_turn(c: CommandModel, h: Seq<Reply>, at: int) -> CliTurn<Seq<char>> {
    and_then(run_turn(c, h, at), |out: Seq<u8>, n: int| Turn::Done(utf8_lossy(out), n))
}

/// The command `git -C <dir> <args>`, with nothing in its environment and no input.
pub open spec fn plain_command(dir: Seq<u8>, args: Seq<Seq<u8>>) -> CommandModel {
    CommandModel { dir, args, envs: seq![], stdin: None }
}

/// Run `git -C <dir> <args>` and take the text that it writes.
pub open spec fn git_turn(dir: Seq<u8>, args: Seq<Seq<u8>>, h: Seq<Reply>, at: int) -> CliTurn<
    Seq<char>,
> {
    text_turn(plain_command(dir, args), h, at)
}

/// `t` with its value dropped.
pub open spec fn finished<A, E>(t: Turn<A, E>) -> Turn<(), E> {
    and_then(t, |a: A, n: int| Turn::Done((), n))
}

/// An environment in which nothing is set.
pub(crate) fn no_envs() -> (r: Vec<(RawText, RawText)>)
    ensures
        r.model() == Seq::<(Seq<u8>, Seq<u8>)>::empty(),
{
    let r: Vec<(RawText, RawText)> = Vec::new();
    assert(r.model() =~= Seq::<(Seq<u8>, Seq<u8>)>::empty());
    r
}

/// An environment in which `name` is set to `value`.
pub(crate) fn one_env(name: &str, value: RawText) -> (r: Vec<(RawText, RawText)>)
    ensures
        r.model() == seq![(utf8(name@), value@)],
{
    let mut r: Vec<(RawText, RawText)> = Vec::new();
    r.push((RawText::of(name), value));
    assert(r.model() =~= seq![(utf8(name@), value@)]);
    r
}

/// What is told of a command that failed with this output.
pub fn failure_message(stdout: &str, stderr: &str) -> (r: String)
    ensures
        r@ == failure_text(stdout@, stderr@),
{
    if stdout.is_empty() {
        if stderr.is_empty() {
            "Command failed with no output".to_owned()
        } else {
            cat("--- stdout\n", stderr)
        }
    } else if stderr.is_empty() {
        cat("--- stderr\n", stdout)
    } else {
        cat(cat3("--- stderr\n", stderr, "\n--- stdout\n").as_str(), stdout)
    }
}

/// What a command wrote, or how it failed.
pub fn command_output(report: &RunReport) -> (r: Result<RawText, GitCliError>)
    ensures
        r.model() == output_of(*report),
{
    match report {
        RunReport::Missing => Err(GitCliError::NotAvailable),
        RunReport::NotStarted(m) => Err(GitCliError::CommandFailed(m.clone())),
        RunReport::Ended(end) => {
            let success: bool = match end.code {
                Some(c) => c == 0,
                None => false,
            };
            if !success {
                let stdout: String = trim(end.stdout.to_text().as_str());
                let stderr: String = trim(end.stderr.to_text().as_str());
                return Err(
                    GitCliError::CommandFailed(failure_message(stdout.as_str(), stderr.as_str())),
                );
            }
            match &end.stdin_error {
                Some(m) => Err(
                    GitCliError::CommandFailed(cat("failed to write to git stdin: ", m.as_str())),
                ),
                None => Ok(end.stdout.copy()),
            }
        },
    }
}

/// Whether `git diff --quiet` found differences.
pub fn found_differences(report: &RunReport) -> (r: Result<bool, GitCliError>)
    ensures
        r.model() == differences_of(*report),
{
    match report {
        RunReport::Missing => Err(GitCliError::NotAvailable),
        RunReport::NotStarted(m) => Err(GitCliError::CommandFailed(m.clone())),
        RunReport::Ended(end) => match end.code {
            Some(0) => Ok(false),
            Some(1) => Ok(true),
            _ => Err(GitCliError::CommandFailed(trim(end.stderr.to_text().as_str()))),
        },
    }
}

impl GitCli {
    /// Make sure that `git` can be run.
    pub fn ensure_available(&self, io: &mut Dialogue) -> (r: CliResult<()>)
        ensures
            final(io).record() == old(io).record(),
            turn(r, final(io)) == available_turn(old(io).record(), old(io).at()),
    {
        match io.version(Request::Version)? {
            VersionReport::Ended(true) => Ok(()),
            _ => Err(Interrupt::Failed(GitCliError::NotAvailable)),
        }
    }

    /// Run `git -C <repo_path> <args>` and take the bytes that it writes.
    pub fn git_impl(
        &self,
        repo_path: &RawText,
        args: Vec<RawText>,
        envs: Vec<(RawText, RawText)>,
        stdin: Option<RawText>,
        io: &mut Dialogue,
    ) -> (r: CliResult<RawText>)
        ensures
            final(io).record() == old(io).record(),
            turn(r, final(io)) == run_turn(
                (CommandModel {
                    dir: repo_path@,
                    args: args.model(),
                    envs: envs.model(),
                    stdin: stdin.model(),
                }),
                old(io).record(),
                old(io).at(),
            ),
    {
        self.ensure_available(io)?;
        let command: Command = Command { dir: repo_path.copy(), args, envs, stdin };
        match command_output(io.ran(Request::Run(command))?) {
            Ok(out) => Ok(out),
            Err(e) => Err(Interrupt::Failed(e)),
        }
    }

    /// Run `git -C <repo_path> <args>` and take the text that it writes.
    pub fn git(&self, repo_path: &RawText, args: Vec<RawText>, io: &mut Dialogue) -> (r: CliResult<
        String,
    >)
        ensures
            final(io).record() == old(io).record(),
            turn(r, final(io)) == git_turn(
                repo_path@,
                args.model(),
                old(io).record(),
                old(io).at(),
            ),
    {
        let out: RawText = self.git_impl(repo_path, args, no_envs(), None, io)?;
        Ok(out.to_text())
    }

    /// Run `git -C <repo_path> <args>` with `envs` set in its environment.
    pub fn git_with_env(
        &self,
        repo_path: &RawText,
        args: Vec<RawText>,
        envs: Vec<(RawText, RawText)>,
        io: &mut Dialogue,
    ) -> (r: CliResult<String>)
        ensures
            final(io).record() == old(io).record(),
            turn(r, final(io)) == text_turn(
                (CommandModel {
                    dir: repo_path@,
                    args: args.model(),
                    envs: envs.model(),
                    stdin: None,
                }),
                old(io).record(),
                old(io).at(),
            ),
    {
        let out: RawText = self.git_impl(repo_path, args, envs, None, io)?;
        Ok(out.to_text())
    }

    /// Run `git -C <repo_path> <args>` with `envs` set in its environment and with some input.
    pub fn git_with_stdin(
        &self,
        repo_path: &RawText,
        args: Vec<RawText>,
        envs: Vec<(RawText, RawText)>,
        stdin: RawText,
        io: &mut Dialogue,
    ) -> (r: CliResult<String>)
        ensures
            final(io).record() == old(io).record(),
            turn(r, final(io)) == text_turn(
                (CommandModel {
                    dir: repo_path@,
                    args: args.model(),
                    envs: envs.model(),
                    stdin: Some(stdin@),
                }),
                old(io).record(),
                old(io).at(),
            ),
    {
        let out: RawText = self.git_impl(repo_path, args, envs, Some(stdin), io)?;
        Ok(out.to_text())
    }
}

} // verus!
