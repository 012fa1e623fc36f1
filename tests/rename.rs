use batch_rename::engine::{
    check_flags, decide, opening, plan, Action, FileError, Opening, Settings, Summary, Task,
};
use batch_rename::matcher::{ConfigError, Repl};
use batch_rename::path::split_path;

fn defaults() -> Settings {
    Settings {
        dry: false,
        copy: false,
        force: false,
        interactive: false,
        no_clobber: false,
        verbose: false,
    }
}

fn photo_repl() -> Repl {
    Repl::new(r"IMG_(\d+)\.jpg", "photo_$1.jpg").unwrap()
}

fn planned(path: &str, repl: &Repl) -> Task {
    plan(path, repl).unwrap().unwrap()
}

#[test]
fn default_flags_move_match_to_expanded_name() {
    let repl = photo_repl();
    let task = planned("IMG_042.jpg", &repl);
    assert_eq!(task.source, "IMG_042.jpg");
    assert_eq!(task.dest, "photo_042.jpg");
    let s = defaults();
    assert_eq!(opening(&s, false), Opening::Quiet);
    assert_eq!(decide(&s, false, None, false), Action::Move);
}

#[test]
fn non_matching_name_is_left_alone() {
    let repl = photo_repl();
    assert!(matches!(plan("notes.txt", &repl), Ok(None)));
}

#[test]
fn no_clobber_with_existing_destination_keeps_source() {
    let repl = photo_repl();
    let task = planned("IMG_042.jpg", &repl);
    assert_eq!(task.dest, "photo_042.jpg");
    let s = Settings { no_clobber: true, ..defaults() };
    assert_eq!(opening(&s, true), Opening::Quiet);
    assert_eq!(decide(&s, true, None, true), Action::Skip);
}

#[test]
fn copy_mode_copies_to_new_destination() {
    let repl = photo_repl();
    let task = planned("IMG_042.jpg", &repl);
    assert_eq!(task.dest, "photo_042.jpg");
    let s = Settings { copy: true, ..defaults() };
    assert_eq!(opening(&s, false), Opening::Quiet);
    assert_eq!(decide(&s, false, None, false), Action::Copy);
}

#[test]
fn directory_of_source_is_kept() {
    let repl = photo_repl();
    let task = planned("pics/2020/IMG_007.jpg", &repl);
    assert_eq!(task.source, "pics/2020/IMG_007.jpg");
    assert_eq!(task.dest, "pics/2020/photo_007.jpg");
    let task = planned("/abs/IMG_1.jpg", &repl);
    assert_eq!(task.dest, "/abs/photo_1.jpg");
}

#[test]
fn match_inside_longer_name_counts() {
    let repl = photo_repl();
    let task = planned("old_IMG_042.jpg.bak", &repl);
    assert_eq!(task.dest, "photo_042.jpg");
}

#[test]
fn unmatched_optional_group_expands_empty() {
    let repl = Repl::new(r"(a)?(b)", "x${1}y${2}z").unwrap();
    assert_eq!(repl.try_rename("b"), Some("xybz".to_string()));
    assert_eq!(repl.try_rename("ab"), Some("xaybz".to_string()));
    assert_eq!(repl.try_rename("c"), None);
}

#[test]
fn named_groups_and_literal_dollar() {
    let repl = Repl::new(r"(?<stem>\w+)\.txt", "${stem}_$$.md").unwrap();
    assert_eq!(repl.try_rename("notes.txt"), Some("notes_$.md".to_string()));
}

#[test]
fn invalid_expression_is_config_error() {
    assert!(matches!(
        Repl::new("foo(bar", "x"),
        Err(ConfigError::InvalidExpression(_))
    ));
}

#[test]
fn path_without_file_name_is_invalid() {
    let repl = photo_repl();
    for p in ["", "/", "///", "a/..", ".", "..", "/.", "./."] {
        assert_eq!(
            plan(p, &repl).err(),
            Some(FileError::InvalidPath(p.to_string()))
        );
    }
}

#[test]
fn split_path_parts() {
    assert_eq!(
        split_path("a/b/c.txt"),
        Some(("a/b/".to_string(), "c.txt".to_string()))
    );
    assert_eq!(split_path("c.txt"), Some(("".to_string(), "c.txt".to_string())));
    assert_eq!(split_path("a/b/"), Some(("a/".to_string(), "b".to_string())));
    assert_eq!(split_path("/x"), Some(("/".to_string(), "x".to_string())));
    assert_eq!(split_path("a/.hidden"), Some(("a/".to_string(), ".hidden".to_string())));
    assert_eq!(split_path("a/..."), Some(("a/".to_string(), "...".to_string())));
    assert_eq!(split_path("a/."), Some(("".to_string(), "a".to_string())));
    assert_eq!(split_path("a/b/."), Some(("a/".to_string(), "b".to_string())));
    assert_eq!(split_path("a/./"), Some(("".to_string(), "a".to_string())));
    assert_eq!(split_path("a/b/./."), Some(("a/".to_string(), "b".to_string())));
    assert_eq!(split_path("./a"), Some(("./".to_string(), "a".to_string())));
    assert_eq!(split_path("/."), None);
    assert_eq!(split_path("./."), None);
}

#[test]
fn trailing_dot_component_is_skipped() {
    let repl = photo_repl();
    assert!(matches!(plan("a/.", &repl), Ok(None)));
    assert!(matches!(plan("a/b/.", &repl), Ok(None)));
    let repl = Repl::new("b", "z").unwrap();
    let task = planned("a/b/.", &repl);
    assert_eq!(task.dest, "a/z");
}

#[test]
fn trailing_separator_keeps_parent_directory() {
    let repl = Repl::new("b", "z").unwrap();
    let task = planned("a/b/", &repl);
    assert_eq!(task.dest, "a/z");
}

#[test]
fn dry_run_reports_and_skips() {
    let s = Settings { dry: true, ..defaults() };
    assert_eq!(opening(&s, false), Opening::Report);
    for before in [false, true] {
        for after in [false, true] {
            for answer in [None, Some('y'), Some('n')] {
                assert_eq!(decide(&s, before, answer, after), Action::Skip);
            }
        }
    }
    let s = Settings { dry: true, copy: true, force: true, ..defaults() };
    assert_eq!(opening(&s, true), Opening::Report);
    assert_eq!(decide(&s, true, None, true), Action::Skip);
}

#[test]
fn verbose_reports_and_acts() {
    let s = Settings { verbose: true, ..defaults() };
    assert_eq!(opening(&s, false), Opening::Report);
    assert_eq!(decide(&s, false, None, false), Action::Move);
}

#[test]
fn existing_destination_prompts_by_default() {
    let s = defaults();
    assert_eq!(opening(&s, true), Opening::Prompt);
    assert_eq!(decide(&s, true, Some('y'), true), Action::Move);
    assert_eq!(decide(&s, true, Some('Y'), true), Action::Move);
    assert_eq!(decide(&s, true, Some('n'), true), Action::Skip);
    assert_eq!(decide(&s, true, None, true), Action::Skip);
}

#[test]
fn no_clobber_confirmed_still_skips() {
    let s = Settings { no_clobber: true, interactive: true, ..defaults() };
    assert_eq!(opening(&s, true), Opening::Prompt);
    assert_eq!(decide(&s, true, Some('y'), true), Action::Skip);
    assert_eq!(decide(&s, false, Some('y'), false), Action::Move);
}

#[test]
fn force_overwrites_without_prompt() {
    let s = Settings { force: true, ..defaults() };
    assert_eq!(opening(&s, true), Opening::Quiet);
    assert_eq!(decide(&s, true, None, true), Action::Move);
    let s = Settings { force: true, copy: true, ..defaults() };
    assert_eq!(decide(&s, true, None, true), Action::Copy);
}

#[test]
fn interactive_prompts_every_match() {
    let s = Settings { interactive: true, copy: true, ..defaults() };
    assert_eq!(opening(&s, false), Opening::Prompt);
    assert_eq!(opening(&s, true), Opening::Prompt);
    assert_eq!(decide(&s, false, Some('y'), false), Action::Copy);
    assert_eq!(decide(&s, false, Some('q'), false), Action::Skip);
    assert_eq!(decide(&s, false, Some('\n'), false), Action::Skip);
    assert_eq!(decide(&s, false, None, false), Action::Skip);
}

#[test]
fn conflicting_flags_are_refused() {
    for (interactive, no_clobber) in [(true, false), (false, true), (true, true)] {
        let s = Settings { force: true, interactive, no_clobber, ..defaults() };
        assert!(matches!(check_flags(&s), Err(ConfigError::ConflictingFlags)));
    }
    assert!(check_flags(&Settings { force: true, ..defaults() }).is_ok());
    assert!(check_flags(&Settings { interactive: true, no_clobber: true, ..defaults() }).is_ok());
}

#[test]
fn prompt_and_report_lines() {
    let task = planned("d/IMG_042.jpg", &photo_repl());
    assert_eq!(task.prompt_line(), "d/IMG_042.jpg -> d/photo_042.jpg: ");
    assert_eq!(task.report_line(), "d/IMG_042.jpg -> d/photo_042.jpg");
}

#[test]
fn summary_counts_failures_and_stops_on_fatal() {
    let mut sum = Summary::new();
    assert_eq!(sum.exit_code(), 0);
    assert!(sum.record(&Ok(())));
    assert_eq!(sum.exit_code(), 0);
    assert!(sum.record(&Err(FileError::InvalidPath("/".to_string()))));
    assert!(sum.record(&Err(FileError::CopyFailed("a".to_string(), "b".to_string()))));
    assert!(sum.record(&Ok(())));
    assert_eq!(sum.exit_code(), 1);
    assert!(!sum.aborted);
    assert!(!sum.record(&Err(FileError::PromptReadFailed)));
    assert!(sum.aborted);
    let mut other = Summary::new();
    assert!(!other.record(&Err(FileError::OutputFlushFailed)));
    assert_eq!(other.exit_code(), 1);
}

#[test]
fn fatal_errors() {
    assert!(FileError::PromptReadFailed.is_fatal());
    assert!(FileError::OutputFlushFailed.is_fatal());
    assert!(!FileError::InvalidPath(String::new()).is_fatal());
    assert!(!FileError::RenameFailed("a".to_string(), "b".to_string()).is_fatal());
}
