//! The per-file rename engine: the plan for one path, the overwrite policy,
//! and the fold of per-file outcomes into an exit status.
//!
//! Prompting, existence checks and the copy or rename itself are done by the
//! caller, which hands each result back to the decisions here.

use vstd::prelude::*;
use crate::matcher::{ConfigError, Repl};
use crate::path::{base_name, dir_part, has_file_name, split_path};

verus! {

/// The policy of one invocation.
#[derive(Clone, Copy, Debug, PartialEq, Eq, Structural)]
pub struct Settings {
    /// Report what would happen, change nothing.
    pub dry: bool,
    /// Copy files instead of moving them.
    pub copy: bool,
    /// Never prompt before overwriting.
    pub force: bool,
    /// Prompt before every rename.
    pub interactive: bool,
    /// Never overwrite an existing file.
    pub no_clobber: bool,
    /// Report every rename.
    pub verbose: bool,
}

/// `force` excludes `interactive` and `no-clobber`.
pub open spec fn consistent(s: Settings) -> bool {
    s.force ==> !s.interactive && !s.no_clobber
}

/// Rejects a policy that combines `force` with `interactive` or `no-clobber`.
pub fn check_flags(settings: &Settings) -> (r: Result<(), ConfigError>)
    ensures
        r is Ok <==> consistent(*settings),
        r is Err ==> r matches Err(ConfigError::ConflictingFlags),
{
    if settings.force && (settings.interactive || settings.no_clobber) {
        Err(ConfigError::ConflictingFlags)
    } else {
        Ok(())
    }
}

/// Why one file could not be handled.
#[derive(Clone, Debug, PartialEq, Eq)]
pub enum FileError {
    /// The path has no file name.
    InvalidPath(String),
    /// Copying source to destination failed.
    CopyFailed(String, String),
    /// Moving source to destination failed.
    RenameFailed(String, String),
    /// The answer to a prompt could not be read.
    PromptReadFailed,
    /// The prompt could not be written out.
    OutputFlushFailed,
}

impl FileError {
    /// Whether the error ends the whole invocation, rather than this file only.
    pub open spec fn fatal(&self) -> bool {
        self is PromptReadFailed || self is OutputFlushFailed
    }

    /// Whether the error ends the whole invocation, rather than this file only.
    pub fn is_fatal(&self) -> (r: bool)
        ensures
            r == self.fatal(),
    {
        match self {
            FileError::PromptReadFailed | FileError::OutputFlushFailed => true,
            _ => false,
        }
    }
}

/// The destination of `path` under `repl`: the same directory, the expanded
/// name; `None` where the path has no file name or the expression does not match.
pub open spec fn destination(path: Seq<char>, repl: Repl) -> Option<Seq<char>> {
    if !has_file_name(path) {
        None
    } else {
        match repl.renamed(base_name(path)) {
            Some(n) => Some(dir_part(path) + n),
            None => None,
        }
    }
}

/// One matched file: where it is and where it goes.
pub struct Task {
    /// The path as given.
    pub source: String,
    /// The same directory with the new file name.
    pub dest: String,
}

/// Plans the renaming of `path`: `InvalidPath` where it has no file name,
/// `Ok(None)` where the expression finds no match in its file name, otherwise
/// the task from `path` to its destination.
pub fn plan(path: &str, repl: &Repl) -> (r: Result<Option<Task>, FileError>)
    ensures
        !has_file_name(path@) <==> r is Err,
        r is Err ==> (r matches Err(FileError::InvalidPath(p)) && p@ == path@),
        r matches Ok(None) <==> has_file_name(path@) && destination(path@, *repl) is None,
        r matches Ok(Some(t)) ==> t.source@ == path@ && destination(path@, *repl) == Some(t.dest@),
{
    match split_path(path) {
        None => Err(FileError::InvalidPath(path.to_string())),
        Some((dir, name)) => match repl.try_rename(name.as_str()) {
            None => Ok(None),
            Some(new_name) => {
                let dest = dir.concat(new_name.as_str());
                Ok(Some(Task { source: path.to_string(), dest }))
            },
        },
    }
}

impl Task {
    /// The question asked before acting: `"<source> -> <destination>: "`.
    pub fn prompt_line(&self) -> (r: String)
        ensures
            r@ == self.source@ + " -> "@ + self.dest@ + ": "@,
    {
        self.source.clone().concat(" -> ").concat(self.dest.as_str()).concat(": ")
    }

    /// The report of a planned transition: `"<source> -> <destination>"`.
    pub fn report_line(&self) -> (r: String)
        ensures
            r@ == self.source@ + " -> "@ + self.dest@,
    {
        self.source.clone().concat(" -> ").concat(self.dest.as_str())
    }
}

/// What happens before the action: a prompt, a report line, or nothing.
#[derive(Clone, Copy, Debug, PartialEq, Eq, Structural)]
pub enum Opening {
    /// Ask `"<source> -> <destination>: "` and read the answer.
    Prompt,
    /// Print `"<source> -> <destination>"`.
    Report,
    /// Say nothing.
    Quiet,
}

/// A prompt is owed when asked for, or when an existing destination would be
/// overwritten without `force` or `no-clobber`.
pub open spec fn prompts(s: Settings, dest_exists: bool) -> bool {
    s.interactive || (!s.no_clobber && !s.force && dest_exists)
}

/// What comes before the action: a prompt where one is owed, else a report
/// on a dry or verbose run, else nothing.
pub open spec fn opening_of(s: Settings, dest_exists: bool) -> Opening {
    if prompts(s, dest_exists) {
        Opening::Prompt
    } else if s.dry || s.verbose {
        Opening::Report
    } else {
        Opening::Quiet
    }
}

/// What comes before the action, given whether the destination exists.
pub fn opening(settings: &Settings, dest_exists: bool) -> (r: Opening)
    ensures
        r == opening_of(*settings, dest_exists),
{
    if settings.interactive || (!settings.no_clobber && !settings.force && dest_exists) {
        Opening::Prompt
    } else if settings.dry || settings.verbose {
        Opening::Report
    } else {
        Opening::Quiet
    }
}

/// An answer that confirms: its first character is `y` or `Y`.
pub open spec fn is_yes(answer: Option<char>) -> bool {
    answer == Some('y') || answer == Some('Y')
}

/// Whether the first character of an answer confirms the action.
pub fn confirms(answer: Option<char>) -> (r: bool)
    ensures
        r == is_yes(answer),
{
    match answer {
        Some(c) => c == 'y' || c == 'Y',
        None => false,
    }
}

/// What is done on disk for one file.
#[derive(Clone, Copy, Debug, PartialEq, Eq, Structural)]
pub enum Action {
    /// Nothing.
    Skip,
    /// Copy the source to the destination.
    Copy,
    /// Move the source to the destination.
    Move,
}

/// Nothing on a dry run or where `no-clobber` meets an existing destination,
/// else a copy in copy mode and a move otherwise.
pub open spec fn action_of(s: Settings, dest_exists: bool) -> Action {
    if s.dry || (s.no_clobber && dest_exists) {
        Action::Skip
    } else if s.copy {
        Action::Copy
    } else {
        Action::Move
    }
}

/// The action once any prompt has been passed, given whether the destination
/// exists now.
pub fn action(settings: &Settings, dest_exists: bool) -> (r: Action)
    ensures
        r == action_of(*settings, dest_exists),
{
    if settings.dry || (settings.no_clobber && dest_exists) {
        Action::Skip
    } else if settings.copy {
        Action::Copy
    } else {
        Action::Move
    }
}

/// The action for one matched file: `exists_before` is what the destination
/// check gave before any prompt, `answer` the answer to the prompt (read only
/// where one is owed), `exists_after` what the check gave before acting.
pub open spec fn outcome(
    s: Settings,
    exists_before: bool,
    answer: Option<char>,
    exists_after: bool,
) -> Action {
    if prompts(s, exists_before) && !is_yes(answer) {
        Action::Skip
    } else {
        action_of(s, exists_after)
    }
}

/// The action for one matched file, as [`outcome`] states it.
pub fn decide(
    settings: &Settings,
    exists_before: bool,
    answer: Option<char>,
    exists_after: bool,
) -> (r: Action)
    ensures
        r == outcome(*settings, exists_before, answer, exists_after),
{
    if opening(settings, exists_before) == Opening::Prompt && !confirms(answer) {
        Action::Skip
    } else {
        action(settings, exists_after)
    }
}

/// What the files handled so far add up to.
#[derive(Clone, Copy, Debug, PartialEq, Eq, Structural)]
pub struct Summary {
    /// Some file failed.
    pub failed: bool,
    /// A fatal error ended the invocation.
    pub aborted: bool,
}

/// `s` after one more file with result `r`.
pub open spec fn record_of(s: Summary, r: Result<(), FileError>) -> Summary {
    Summary {
        failed: s.failed || r is Err,
        aborted: s.aborted || (r matches Err(e) && e.fatal()),
    }
}

/// The summary of the results `rs`, in order.
pub open spec fn summary_of(rs: Seq<Result<(), FileError>>) -> Summary
    decreases rs.len(),
{
    if rs.len() == 0 {
        Summary { failed: false, aborted: false }
    } else {
        record_of(summary_of(rs.drop_last()), rs.last())
    }
}

/// The exit status of a summary: 0 where no file failed, else 1.
pub open spec fn exit_code_of(s: Summary) -> i32 {
    if s.failed {
        1
    } else {
        0
    }
}

impl Summary {
    /// The summary of no file.
    pub fn new() -> (r: Summary)
        ensures
            r == summary_of(seq![]),
    {
        Summary { failed: false, aborted: false }
    }

    /// Adds the result of one more file; returns whether the next file may
    /// be handled, that is, whether no fatal error has come.
    pub fn record(&mut self, r: &Result<(), FileError>) -> (go_on: bool)
        ensures
            *final(self) == record_of(*old(self), *r),
            go_on == !final(self).aborted,
    {
        let fatal = match r {
            Ok(()) => false,
            Err(e) => e.is_fatal(),
        };
        self.failed = self.failed || r.is_err();
        self.aborted = self.aborted || fatal;
        !self.aborted
    }

    /// The exit status of the invocation.
    pub fn exit_code(&self) -> (r: i32)
        ensures
            r == exit_code_of(*self),
    {
        if self.failed {
            1
        } else {
            0
        }
    }
}

} // verus!
