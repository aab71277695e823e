use shell_engine::{
    parse, parse_line, redirect, AssemblyError, Effect, OpenMode, ProcessSpec, Stream,
    StreamBinding,
};

fn tokens(items: &[&str]) -> Vec<String> {
    items.iter().map(|s| s.to_string()).collect()
}

fn plain(program: &str, args: &[&str]) -> ProcessSpec {
    ProcessSpec {
        program: program.to_string(),
        args: tokens(args),
        stdin: StreamBinding::Inherit,
        stdout: StreamBinding::Inherit,
        stderr: StreamBinding::Inherit,
    }
}

fn file(path: &str, mode: OpenMode) -> StreamBinding {
    StreamBinding::File { path: path.to_string(), mode }
}

fn open(path: &str, mode: OpenMode, stream: Stream) -> Effect {
    Effect::Open { path: path.to_string(), mode, stream }
}

fn assemble(line: &str) -> (Result<Option<ProcessSpec>, AssemblyError>, Vec<Effect>) {
    let toks = parse(line.to_string()).unwrap();
    let mut effects = Vec::new();
    let result = parse_line(&toks, None, &mut effects);
    (result, effects)
}

#[test]
fn line_without_operators_is_one_process() {
    let (result, effects) = assemble("ls -l -a /tmp");
    assert_eq!(result, Ok(Some(plain("ls", &["-l", "-a", "/tmp"]))));
    assert!(effects.is_empty());
}

#[test]
fn program_alone_has_no_arguments() {
    let (result, effects) = assemble("pwd");
    assert_eq!(result, Ok(Some(plain("pwd", &[]))));
    assert!(effects.is_empty());
}

#[test]
fn empty_line_is_a_no_op() {
    let (result, effects) = assemble("   ");
    assert_eq!(result, Ok(None));
    assert!(effects.is_empty());
}

#[test]
fn empty_line_keeps_the_process_in_hand() {
    let mut effects = Vec::new();
    let result = parse_line(&[], Some(plain("ls", &[])), &mut effects);
    assert_eq!(result, Ok(Some(plain("ls", &[]))));
    assert!(effects.is_empty());
}

#[test]
fn leading_operator_is_refused_without_effects() {
    let (result, effects) = assemble("> out.txt");
    assert_eq!(result, Err(AssemblyError::ExpectedProgram { found: ">".to_string() }));
    assert!(effects.is_empty());
}

#[test]
fn leading_pipe_is_refused_without_effects() {
    let (result, effects) = assemble("| wc");
    assert_eq!(result, Err(AssemblyError::ExpectedProgram { found: "|".to_string() }));
    assert!(effects.is_empty());
}

#[test]
fn stdout_redirect_truncates() {
    let (result, effects) = assemble("echo hi > out.txt");
    let mut expected = plain("echo", &["hi"]);
    expected.stdout = file("out.txt", OpenMode::Truncate);
    assert_eq!(result, Ok(Some(expected)));
    assert_eq!(effects, vec![open("out.txt", OpenMode::Truncate, Stream::Stdout)]);
}

#[test]
fn one_greater_than_is_stdout_too() {
    let (result, effects) = assemble("echo hi 1> out.txt");
    let mut expected = plain("echo", &["hi"]);
    expected.stdout = file("out.txt", OpenMode::Truncate);
    assert_eq!(result, Ok(Some(expected)));
    assert_eq!(effects, vec![open("out.txt", OpenMode::Truncate, Stream::Stdout)]);
}

#[test]
fn append_redirect_appends() {
    let (result, effects) = assemble("echo hi >> log.txt");
    let mut expected = plain("echo", &["hi"]);
    expected.stdout = file("log.txt", OpenMode::Append);
    assert_eq!(result, Ok(Some(expected)));
    assert_eq!(effects, vec![open("log.txt", OpenMode::Append, Stream::Stdout)]);
}

#[test]
fn stderr_redirect_binds_stderr_only() {
    let (result, effects) = assemble("make 2> err.txt");
    let mut expected = plain("make", &[]);
    expected.stderr = file("err.txt", OpenMode::Truncate);
    assert_eq!(result, Ok(Some(expected)));
    assert_eq!(effects, vec![open("err.txt", OpenMode::Truncate, Stream::Stderr)]);
}

#[test]
fn both_redirect_opens_two_handles() {
    let (result, effects) = assemble("make &> all.txt");
    let mut expected = plain("make", &[]);
    expected.stdout = file("all.txt", OpenMode::Truncate);
    expected.stderr = file("all.txt", OpenMode::Truncate);
    assert_eq!(result, Ok(Some(expected)));
    assert_eq!(
        effects,
        vec![
            open("all.txt", OpenMode::Truncate, Stream::Stdout),
            open("all.txt", OpenMode::Truncate, Stream::Stderr),
        ]
    );
}

#[test]
fn stdin_redirect_opens_before_anything_is_spawned() {
    let (result, effects) = assemble("cmd < missing.txt");
    let mut expected = plain("cmd", &[]);
    expected.stdin = file("missing.txt", OpenMode::Read);
    assert_eq!(result, Ok(Some(expected)));
    assert_eq!(effects, vec![open("missing.txt", OpenMode::Read, Stream::Stdin)]);
    assert!(!effects.iter().any(|e| matches!(e, Effect::Spawn { .. })));
}

#[test]
fn pipe_spawns_the_left_side_and_feeds_the_right() {
    let (result, effects) = assemble("printf a | wc -c");
    let mut upstream = plain("printf", &["a"]);
    upstream.stdout = StreamBinding::Pipe;
    let mut last = plain("wc", &["-c"]);
    last.stdin = StreamBinding::Pipe;
    assert_eq!(result, Ok(Some(last)));
    assert_eq!(effects, vec![Effect::Spawn { process: upstream }]);
}

#[test]
fn three_stages_spawn_from_left_to_right() {
    let (result, effects) = assemble("cat f | sort | uniq -c");
    let mut first = plain("cat", &["f"]);
    first.stdout = StreamBinding::Pipe;
    let mut second = plain("sort", &[]);
    second.stdin = StreamBinding::Pipe;
    second.stdout = StreamBinding::Pipe;
    let mut last = plain("uniq", &["-c"]);
    last.stdin = StreamBinding::Pipe;
    assert_eq!(result, Ok(Some(last)));
    assert_eq!(
        effects,
        vec![Effect::Spawn { process: first }, Effect::Spawn { process: second }]
    );
}

#[test]
fn redirects_and_pipes_mix_in_order() {
    let (result, effects) = assemble("sort < in.txt | uniq > out.txt");
    let mut first = plain("sort", &[]);
    first.stdin = file("in.txt", OpenMode::Read);
    first.stdout = StreamBinding::Pipe;
    let mut last = plain("uniq", &[]);
    last.stdin = StreamBinding::Pipe;
    last.stdout = file("out.txt", OpenMode::Truncate);
    assert_eq!(result, Ok(Some(last)));
    assert_eq!(
        effects,
        vec![
            open("in.txt", OpenMode::Read, Stream::Stdin),
            Effect::Spawn { process: first },
            open("out.txt", OpenMode::Truncate, Stream::Stdout),
        ]
    );
}

#[test]
fn later_redirect_of_a_stream_wins_and_both_files_are_opened() {
    let (result, effects) = assemble("echo hi > a.txt > b.txt");
    let mut expected = plain("echo", &["hi"]);
    expected.stdout = file("b.txt", OpenMode::Truncate);
    assert_eq!(result, Ok(Some(expected)));
    assert_eq!(
        effects,
        vec![
            open("a.txt", OpenMode::Truncate, Stream::Stdout),
            open("b.txt", OpenMode::Truncate, Stream::Stdout),
        ]
    );
}

#[test]
fn tokens_after_the_file_name_are_ignored() {
    let (result, effects) = assemble("echo hi > out.txt extra words");
    let mut expected = plain("echo", &["hi"]);
    expected.stdout = file("out.txt", OpenMode::Truncate);
    assert_eq!(result, Ok(Some(expected)));
    assert_eq!(effects, vec![open("out.txt", OpenMode::Truncate, Stream::Stdout)]);
}

#[test]
fn redirect_without_file_name_is_refused() {
    let (result, effects) = assemble("echo hi >");
    assert_eq!(result, Err(AssemblyError::MissingOperand { operator: ">".to_string() }));
    assert!(effects.is_empty());
}

#[test]
fn pipe_without_right_side_is_refused_before_spawning() {
    let (result, effects) = assemble("echo hi |");
    assert_eq!(result, Err(AssemblyError::MissingOperand { operator: "|".to_string() }));
    assert!(effects.is_empty());
}

#[test]
fn two_operators_in_a_row_are_refused() {
    let (result, effects) = assemble("echo hi > | wc");
    assert_eq!(result, Err(AssemblyError::MissingOperand { operator: ">".to_string() }));
    assert!(effects.is_empty());
}

#[test]
fn effects_before_an_error_are_kept() {
    let (result, effects) = assemble("a | b > out.txt <");
    let mut upstream = plain("a", &[]);
    upstream.stdout = StreamBinding::Pipe;
    assert_eq!(result, Err(AssemblyError::MissingOperand { operator: "<".to_string() }));
    assert_eq!(
        effects,
        vec![
            Effect::Spawn { process: upstream },
            open("out.txt", OpenMode::Truncate, Stream::Stdout),
        ]
    );
}

#[test]
fn reserved_marker_has_no_meaning() {
    let (result, effects) = assemble("echo hi ! there");
    assert_eq!(result, Err(AssemblyError::UnknownOperator { operator: "!".to_string() }));
    assert!(effects.is_empty());
}

#[test]
fn unknown_two_character_operator_is_refused() {
    let (result, effects) = assemble("echo hi 3> out.txt");
    assert_eq!(result, Err(AssemblyError::UnknownOperator { operator: "3>".to_string() }));
    assert!(effects.is_empty());
}

#[test]
fn quoted_operator_is_an_argument() {
    let toks = tokens(&["echo", "a | b"]);
    let mut effects = Vec::new();
    let result = parse_line(&toks, None, &mut effects);
    assert_eq!(result, Ok(Some(plain("echo", &["a | b"]))));
    assert!(effects.is_empty());
}

#[test]
fn assembling_twice_gives_the_same_chain() {
    let toks = tokens(&["sort", "<", "in.txt", "|", "uniq", "-c", "&>", "out.txt"]);
    let mut first_effects = Vec::new();
    let first = parse_line(&toks, None, &mut first_effects);
    let mut second_effects = Vec::new();
    let second = parse_line(&toks, None, &mut second_effects);
    assert_eq!(first, second);
    assert_eq!(first_effects, second_effects);
    assert_eq!(first_effects.len(), 4);
}

#[test]
fn effects_are_appended_to_the_log() {
    let toks = tokens(&["echo", ">>", "log"]);
    let mut effects = vec![open("earlier", OpenMode::Read, Stream::Stdin)];
    let result = parse_line(&toks, None, &mut effects);
    assert!(result.is_ok());
    assert_eq!(
        effects,
        vec![
            open("earlier", OpenMode::Read, Stream::Stdin),
            open("log", OpenMode::Append, Stream::Stdout),
        ]
    );
}

#[test]
fn plain_segment_replaces_the_process_in_hand() {
    let toks = tokens(&["wc", "-l"]);
    let mut effects = Vec::new();
    let result = parse_line(&toks, Some(plain("ls", &[])), &mut effects);
    assert_eq!(result, Ok(Some(plain("wc", &["-l"]))));
    assert!(effects.is_empty());
}

#[test]
fn operator_continues_the_process_in_hand() {
    let toks = tokens(&[">", "out.txt"]);
    let mut effects = Vec::new();
    let result = parse_line(&toks, Some(plain("ls", &["-l"])), &mut effects);
    let mut expected = plain("ls", &["-l"]);
    expected.stdout = file("out.txt", OpenMode::Truncate);
    assert_eq!(result, Ok(Some(expected)));
    assert_eq!(effects, vec![open("out.txt", OpenMode::Truncate, Stream::Stdout)]);
}

#[test]
fn redirect_step_starts_a_process() {
    let mut effects = Vec::new();
    let result = redirect("", &tokens(&["grep", "-n", "x"]), None, &mut effects);
    assert_eq!(result, Ok(Some(plain("grep", &["-n", "x"]))));
    assert!(effects.is_empty());
}

#[test]
fn redirect_step_without_program_is_refused() {
    let mut effects = Vec::new();
    let result = redirect("", &[], None, &mut effects);
    assert_eq!(result, Err(AssemblyError::ExpectedProgram { found: String::new() }));
    assert!(effects.is_empty());
}

#[test]
fn redirect_step_needs_a_process_in_hand() {
    let mut effects = Vec::new();
    let result = redirect("<", &tokens(&["in.txt"]), None, &mut effects);
    assert_eq!(result, Err(AssemblyError::ExpectedProgram { found: "<".to_string() }));
    assert!(effects.is_empty());
}

#[test]
fn redirect_step_binds_stdin() {
    let mut effects = Vec::new();
    let result = redirect("<", &tokens(&["in.txt"]), Some(plain("wc", &[])), &mut effects);
    let mut expected = plain("wc", &[]);
    expected.stdin = file("in.txt", OpenMode::Read);
    assert_eq!(result, Ok(Some(expected)));
    assert_eq!(effects, vec![open("in.txt", OpenMode::Read, Stream::Stdin)]);
}

#[test]
fn redirect_step_pipes() {
    let mut effects = Vec::new();
    let mut current = plain("ls", &[]);
    current.stderr = file("e", OpenMode::Truncate);
    let result = redirect("|", &tokens(&["wc", "-l"]), Some(current.clone()), &mut effects);
    let mut last = plain("wc", &["-l"]);
    last.stdin = StreamBinding::Pipe;
    current.stdout = StreamBinding::Pipe;
    assert_eq!(result, Ok(Some(last)));
    assert_eq!(effects, vec![Effect::Spawn { process: current }]);
}

#[test]
fn new_process_inherits_every_stream() {
    let p = ProcessSpec::new("ls", &tokens(&["-l"]));
    assert_eq!(p, plain("ls", &["-l"]));
}

/// The handles that someone holds who carries a log out: for each stream the
/// file opened last since the last spawn, and the pipe of that spawn.
fn held(effects: &[Effect], stream: Stream) -> StreamBinding {
    let mut binding = StreamBinding::Inherit;
    for effect in effects {
        match effect {
            Effect::Spawn { .. } => {
                binding = if stream == Stream::Stdin {
                    StreamBinding::Pipe
                } else {
                    StreamBinding::Inherit
                };
            }
            Effect::Open { path, mode, stream: opened } => {
                if *opened == stream {
                    binding = StreamBinding::File { path: path.clone(), mode: *mode };
                }
            }
        }
    }
    binding
}

#[test]
fn bindings_follow_the_log() {
    for line in [
        "a",
        "a > f",
        "a > f > g 2> e",
        "a < i | b >> o | c &> x < j",
        "a > f | b",
        "a 2> e | b | c 2> e2 > o",
        "a | b <",
    ] {
        let (result, effects) = assemble(line);
        for (k, effect) in effects.iter().enumerate() {
            if let Effect::Spawn { process } = effect {
                assert_eq!(process.stdin, held(&effects[..k], Stream::Stdin));
                assert_eq!(process.stdout, StreamBinding::Pipe);
                assert_eq!(process.stderr, held(&effects[..k], Stream::Stderr));
            }
        }
        if let Ok(Some(last)) = result {
            assert_eq!(last.stdin, held(&effects, Stream::Stdin));
            assert_eq!(last.stdout, held(&effects, Stream::Stdout));
            assert_eq!(last.stderr, held(&effects, Stream::Stderr));
        }
    }
}

#[test]
fn only_an_empty_line_leaves_nothing_in_hand() {
    assert_eq!(assemble("").0, Ok(None));
    for line in ["a", "a b", "a | b", "a > f"] {
        assert!(matches!(assemble(line).0, Ok(Some(_))));
    }
}
