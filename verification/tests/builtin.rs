use shell_engine::builtin::builtin_kind;
use shell_engine::{builtin, Builtin, BuiltinError, BuiltinRequest, History};

fn tokens(items: &[&str]) -> Vec<String> {
    items.iter().map(|s| s.to_string()).collect()
}

fn usage(builtin: Builtin, reason: &str) -> BuiltinError {
    BuiltinError { builtin, reason: reason.to_string() }
}

#[test]
fn names_of_the_builtins() {
    assert_eq!(builtin_kind("ls"), Some(Builtin::ListFiles));
    assert_eq!(builtin_kind("rm"), Some(Builtin::Remove));
    assert_eq!(builtin_kind("touch"), Some(Builtin::Touch));
    assert_eq!(builtin_kind("cd"), Some(Builtin::ChangeDirectory));
    assert_eq!(builtin_kind("pwd"), Some(Builtin::WorkingDirectory));
    assert_eq!(builtin_kind("history"), Some(Builtin::History));
    assert_eq!(builtin_kind("clear"), Some(Builtin::Clear));
    assert_eq!(builtin_kind("cat"), Some(Builtin::ShowFile));
    assert_eq!(builtin_kind("echo"), None);
    assert_eq!(builtin_kind("LS"), None);
    assert_eq!(builtin_kind(""), None);
}

#[test]
fn other_programs_are_left_to_the_engine() {
    let history = History::new();
    assert_eq!(builtin(&tokens(&["echo", "hi"]), &history), Ok(None));
    assert_eq!(builtin(&tokens(&["exit"]), &history), Ok(None));
    assert_eq!(builtin(&[], &history), Ok(None));
}

#[test]
fn ls_lists_the_current_directory_or_those_named() {
    let history = History::new();
    assert_eq!(
        builtin(&tokens(&["ls"]), &history),
        Ok(Some(BuiltinRequest::ListFiles { directories: vec![] }))
    );
    assert_eq!(
        builtin(&tokens(&["ls", "src", "/tmp"]), &history),
        Ok(Some(BuiltinRequest::ListFiles { directories: tokens(&["src", "/tmp"]) }))
    );
}

#[test]
fn rm_removes_files_or_directories() {
    let history = History::new();
    assert_eq!(
        builtin(&tokens(&["rm", "a", "b"]), &history),
        Ok(Some(BuiltinRequest::RemoveFiles { files: tokens(&["a", "b"]) }))
    );
    assert_eq!(
        builtin(&tokens(&["rm", "-r", "d", "e"]), &history),
        Ok(Some(BuiltinRequest::RemoveDirectories { directories: tokens(&["d", "e"]) }))
    );
    assert_eq!(
        builtin(&tokens(&["rm", "-r"]), &history),
        Ok(Some(BuiltinRequest::RemoveDirectories { directories: vec![] }))
    );
    assert_eq!(
        builtin(&tokens(&["rm", "a", "-r"]), &history),
        Ok(Some(BuiltinRequest::RemoveFiles { files: tokens(&["a", "-r"]) }))
    );
    assert_eq!(
        builtin(&tokens(&["rm"]), &history),
        Err(usage(Builtin::Remove, "usage: rm [-r] <file1 file2 ...>"))
    );
}

#[test]
fn touch_needs_a_file() {
    let history = History::new();
    assert_eq!(
        builtin(&tokens(&["touch", "a", "b"]), &history),
        Ok(Some(BuiltinRequest::Touch { files: tokens(&["a", "b"]) }))
    );
    assert_eq!(
        builtin(&tokens(&["touch"]), &history),
        Err(usage(Builtin::Touch, "usage: touch <file1 file2 ...>"))
    );
}

#[test]
fn cd_takes_the_first_argument() {
    let history = History::new();
    assert_eq!(
        builtin(&tokens(&["cd", "/tmp"]), &history),
        Ok(Some(BuiltinRequest::ChangeDirectory { directory: "/tmp".to_string() }))
    );
    assert_eq!(
        builtin(&tokens(&["cd", "a", "b"]), &history),
        Ok(Some(BuiltinRequest::ChangeDirectory { directory: "a".to_string() }))
    );
    assert_eq!(
        builtin(&tokens(&["cd"]), &history),
        Err(usage(Builtin::ChangeDirectory, "Usage: cd <directory path>"))
    );
}

#[test]
fn pwd_takes_anything() {
    let history = History::new();
    assert_eq!(
        builtin(&tokens(&["pwd"]), &history),
        Ok(Some(BuiltinRequest::PrintWorkingDirectory))
    );
    assert_eq!(
        builtin(&tokens(&["pwd", "x"]), &history),
        Ok(Some(BuiltinRequest::PrintWorkingDirectory))
    );
}

#[test]
fn history_lists_all_or_the_newest() {
    let mut history = History::new();
    history.add_to_history(&tokens(&["ls"]));
    history.add_to_history(&tokens(&["cd", "/"]));
    history.add_to_history(&tokens(&["history"]));
    assert_eq!(
        builtin(&tokens(&["history"]), &history),
        Ok(Some(BuiltinRequest::ShowHistory {
            lines: tokens(&["1 > \"ls\"", "2 > \"cd /\"", "3 > \"history\""])
        }))
    );
    assert_eq!(
        builtin(&tokens(&["history", "2"]), &history),
        Ok(Some(BuiltinRequest::ShowHistory {
            lines: tokens(&["1 > \"cd /\"", "2 > \"history\""])
        }))
    );
    assert_eq!(
        builtin(&tokens(&["history", "+1"]), &history),
        Ok(Some(BuiltinRequest::ShowHistory { lines: tokens(&["2 > \"history\""]) }))
    );
    assert_eq!(
        builtin(&tokens(&["history", "007"]), &history),
        Ok(Some(BuiltinRequest::ShowHistory {
            lines: tokens(&["0 > \"ls\"", "1 > \"cd /\"", "2 > \"history\""])
        }))
    );
}

#[test]
fn history_refuses_what_is_no_number() {
    let history = History::new();
    for bad in ["two", "-1", "", "+", "1.5", "3x", " 3", "99999999999999999999999999"] {
        assert_eq!(
            builtin(&tokens(&["history", bad]), &history),
            Err(usage(Builtin::History, "Non-number argument given"))
        );
    }
}

#[test]
fn history_refuses_more_than_one_argument() {
    let history = History::new();
    assert_eq!(
        builtin(&tokens(&["history", "1", "2"]), &history),
        Err(usage(Builtin::History, "Usage: history <num of previous commands>"))
    );
}

#[test]
fn clear_takes_no_argument() {
    let history = History::new();
    assert_eq!(builtin(&tokens(&["clear"]), &history), Ok(Some(BuiltinRequest::ClearScreen)));
    assert_eq!(
        builtin(&tokens(&["clear", "now"]), &history),
        Err(usage(Builtin::Clear, "Usage: clear"))
    );
}

#[test]
fn cat_takes_one_file() {
    let history = History::new();
    assert_eq!(
        builtin(&tokens(&["cat", "f.txt"]), &history),
        Ok(Some(BuiltinRequest::ShowFile { file: "f.txt".to_string() }))
    );
    assert_eq!(
        builtin(&tokens(&["cat"]), &history),
        Err(usage(Builtin::ShowFile, "Usage: cat <path to file>"))
    );
    assert_eq!(
        builtin(&tokens(&["cat", "a", "b"]), &history),
        Err(usage(Builtin::ShowFile, "Usage: cat <path to file>"))
    );
}
