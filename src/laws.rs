//! Properties of the engine that hold for every input.

use vstd::prelude::*;
use crate::engine::{
    action_of, consistent, destination, exit_code_of, is_yes, opening_of, outcome, prompts,
    summary_of, Action, FileError, Opening, Settings,
};
use crate::matcher::Repl;
use crate::path::{base_name, dir_part, has_file_name, lemma_join, names_file};

verus! {

/// A path whose file name the expression does not match has no destination,
/// so nothing is planned for it.
pub proof fn law_no_match_no_task(path: Seq<char>, repl: Repl)
    requires
        repl.renamed(base_name(path)) is None,
    ensures
        destination(path, repl) is None,
{
}

/// The destination is the source's directory part followed by the template
/// expanded with the captures; where that name is a plain file name, the
/// destination's file name is that name and its directory part is the
/// source's.
pub proof fn law_destination_keeps_directory(path: Seq<char>, repl: Repl, name: Seq<char>)
    requires
        has_file_name(path),
        repl.renamed(base_name(path)) == Some(name),
    ensures
        destination(path, repl) == Some(dir_part(path) + name),
        names_file(name) && (forall|i: int| 0 <= i < name.len() ==> name[i] != '/') ==> {
            &&& base_name(dir_part(path) + name) == name
            &&& dir_part(dir_part(path) + name) == dir_part(path)
        },
{
    if names_file(name) && (forall|i: int| 0 <= i < name.len() ==> name[i] != '/') {
        lemma_join(path, name);
    }
}

/// Whatever is done on disk is a copy in copy mode and a move otherwise.
pub proof fn law_copy_or_move(s: Settings, exists_before: bool, answer: Option<char>, exists_after: bool)
    ensures
        outcome(s, exists_before, answer, exists_after) != Action::Skip ==> {
            &&& s.copy ==> outcome(s, exists_before, answer, exists_after) == Action::Copy
            &&& !s.copy ==> outcome(s, exists_before, answer, exists_after) == Action::Move
        },
{
}

/// A dry run does nothing on disk, and reports the transition wherever no
/// prompt is owed.
pub proof fn law_dry_run_changes_nothing(
    s: Settings,
    exists_before: bool,
    answer: Option<char>,
    exists_after: bool,
)
    requires
        s.dry,
    ensures
        outcome(s, exists_before, answer, exists_after) == Action::Skip,
        !prompts(s, exists_before) ==> opening_of(s, exists_before) == Opening::Report,
{
}

/// With `no-clobber`, an existing destination is never overwritten, whatever
/// the answer to a prompt.
pub proof fn law_no_clobber_keeps_destination(s: Settings, exists_before: bool, answer: Option<char>)
    requires
        s.no_clobber,
    ensures
        outcome(s, exists_before, answer, true) == Action::Skip,
{
}

/// With `force`, no prompt is issued, and the copy or move goes ahead unless
/// the run is dry, whether the destination exists or not.
pub proof fn law_force_never_prompts(
    s: Settings,
    exists_before: bool,
    answer: Option<char>,
    exists_after: bool,
)
    requires
        consistent(s),
        s.force,
    ensures
        opening_of(s, exists_before) != Opening::Prompt,
        outcome(s, exists_before, answer, exists_after) == (if s.dry {
            Action::Skip
        } else if s.copy {
            Action::Copy
        } else {
            Action::Move
        }),
{
}

/// With `interactive`, every matched file is prompted for, and any answer but
/// `y` or `Y` leaves it alone.
pub proof fn law_interactive_always_prompts(
    s: Settings,
    exists_before: bool,
    answer: Option<char>,
    exists_after: bool,
)
    requires
        s.interactive,
    ensures
        opening_of(s, exists_before) == Opening::Prompt,
        !is_yes(answer) ==> outcome(s, exists_before, answer, exists_after) == Action::Skip,
{
}

/// The invocation fails exactly when some file failed, and is cut short
/// exactly when some file met a fatal error.
pub proof fn law_exit_status(rs: Seq<Result<(), FileError>>)
    ensures
        summary_of(rs).failed <==> exists|i: int| 0 <= i < rs.len() && rs[i] is Err,
        exit_code_of(summary_of(rs)) == 0 <==> forall|i: int| 0 <= i < rs.len() ==> rs[i] is Ok,
        summary_of(rs).aborted <==> exists|i: int|
            0 <= i < rs.len() && (#[trigger] rs[i] matches Err(e) && e.fatal()),
    decreases rs.len(),
{
    if rs.len() > 0 {
        let init = rs.drop_last();
        law_exit_status(init);
        assert forall|i: int| 0 <= i < init.len() implies init[i] == rs[i] by {}
        if summary_of(rs).failed && !summary_of(init).failed {
            assert(rs[rs.len() - 1] is Err);
        }
        if !summary_of(rs).failed {
            assert forall|i: int| 0 <= i < rs.len() implies rs[i] is Ok by {
                if i < init.len() {
                    assert(init[i] == rs[i]);
                }
            }
        }
        if summary_of(rs).aborted && !summary_of(init).aborted {
            assert(rs[rs.len() - 1] matches Err(e) && e.fatal());
        }
        if !summary_of(rs).aborted {
            assert forall|i: int| 0 <= i < rs.len() implies !(#[trigger] rs[i] matches Err(
                e,
            ) && e.fatal()) by {
                if i < init.len() {
                    assert(init[i] == rs[i]);
                }
            }
        }
    }
}

} // verus!
