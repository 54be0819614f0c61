use runny::error::RunnyError;
use runny::runny::{command_words, escape_backslashes, Launch, Runny};
use std::time::Duration;

fn strings(words: &[&str]) -> Vec<String> {
    words.iter().map(|w| w.to_string()).collect()
}

#[test]
fn backslashes_are_doubled() {
    assert_eq!(escape_backslashes(""), "");
    assert_eq!(escape_backslashes("/bin/true"), "/bin/true");
    assert_eq!(escape_backslashes("a\\b"), "a\\\\b");
    assert_eq!(escape_backslashes("\\\\"), "\\\\\\\\");
    assert_eq!(escape_backslashes("C:\\Windows\\notepad.exe"), "C:\\\\Windows\\\\notepad.exe");
    assert_eq!(escape_backslashes("h\u{e9}\\llo"), "h\u{e9}\\\\llo");
}

#[test]
fn command_line_is_split_into_words() {
    assert_eq!(
        Runny::make_command("/bin/echo -n 'Launch test echo works'"),
        Ok(strings(&["/bin/echo", "-n", "Launch test echo works"]))
    );
    assert_eq!(
        Runny::make_command("/bin/bash -c 'echo -n Hi there; sleep 1000; echo -n Bye there'"),
        Ok(strings(&["/bin/bash", "-c", "echo -n Hi there; sleep 1000; echo -n Bye there"]))
    );
    assert_eq!(Runny::make_command("/usr/bin/seq 1 5"), Ok(strings(&["/usr/bin/seq", "1", "5"])));
    assert_eq!(Runny::make_command(""), Ok(strings(&[])));
    assert_eq!(Runny::make_command("   "), Ok(strings(&[])));
}

#[test]
fn backslashes_reach_the_words_as_written() {
    assert_eq!(
        Runny::make_command("C:\\Windows\\notepad.exe"),
        Ok(strings(&["C:\\Windows\\notepad.exe"]))
    );
    assert_eq!(
        Runny::make_command("cmd /c echo a\\ b"),
        Ok(strings(&["cmd", "/c", "echo", "a\\", "b"]))
    );
}

#[test]
fn unbalanced_quote_is_no_command() {
    assert_eq!(Runny::make_command("/bin/echo 'oops"), Err(RunnyError::NoCommandSpecified));
    assert_eq!(Runny::make_command("\"/bin/echo"), Err(RunnyError::NoCommandSpecified));
    assert_eq!(
        Runny::new("/bin/echo 'oops").prepare(),
        Err(RunnyError::NoCommandSpecified)
    );
}

#[test]
fn split_result_becomes_a_command() {
    assert_eq!(command_words(None), Err(RunnyError::NoCommandSpecified));
    assert_eq!(command_words(Some(strings(&[]))), Ok(strings(&[])));
    assert_eq!(command_words(Some(strings(&["a", "b"]))), Ok(strings(&["a", "b"])));
}

#[test]
fn empty_command_line_is_no_command() {
    assert_eq!(Runny::new("").prepare(), Err(RunnyError::NoCommandSpecified));
    assert_eq!(Runny::new("  \t ").prepare(), Err(RunnyError::NoCommandSpecified));
    assert_eq!(Runny::new("x").launch(strings(&[])), Err(RunnyError::NoCommandSpecified));
}

#[test]
fn plain_launcher_prepares_program_and_arguments() {
    let launch = Runny::new("/bin/echo -n hello").prepare().unwrap();
    assert_eq!(
        launch,
        Launch {
            program: "/bin/echo".to_string(),
            args: strings(&["-n", "hello"]),
            working_directory: None,
            timeout: None,
            path: strings(&[]),
        }
    );
}

#[test]
fn program_without_arguments() {
    let launch = Runny::new("/bin/does/not/exist").prepare().unwrap();
    assert_eq!(launch.program, "/bin/does/not/exist");
    assert_eq!(launch.args, strings(&[]));
}

#[test]
fn options_reach_the_launch() {
    let mut runny = Runny::new("/bin/bash -c 'sleep 1000'");
    runny
        .directory(&Some("/tmp".to_string()))
        .path(strings(&["/bin", "/usr/bin"]))
        .timeout(Duration::from_secs(3));
    assert_eq!(
        runny.prepare(),
        Ok(Launch {
            program: "/bin/bash".to_string(),
            args: strings(&["-c", "sleep 1000"]),
            working_directory: Some("/tmp".to_string()),
            timeout: Some(Duration::from_secs(3)),
            path: strings(&["/bin", "/usr/bin"]),
        })
    );
}

#[test]
fn later_option_replaces_the_earlier() {
    let mut runny = Runny::new("/bin/true");
    runny.timeout(Duration::from_secs(3));
    runny.timeout(Duration::from_secs(7));
    runny.directory(&Some("/tmp".to_string()));
    runny.directory(&None);
    runny.path(strings(&["/bin"]));
    runny.path(strings(&["/opt/bin"]));
    let launch = runny.prepare().unwrap();
    assert_eq!(launch.timeout, Some(Duration::from_secs(7)));
    assert_eq!(launch.working_directory, None);
    assert_eq!(launch.path, strings(&["/opt/bin"]));
}

#[test]
fn launch_takes_the_first_word_as_program() {
    let runny = Runny::new("ignored");
    let launch = runny.launch(strings(&["prog", "a", "b c"])).unwrap();
    assert_eq!(launch.program, "prog");
    assert_eq!(launch.args, strings(&["a", "b c"]));
    let alone = runny.launch(strings(&["prog"])).unwrap();
    assert_eq!(alone.program, "prog");
    assert_eq!(alone.args, strings(&[]));
}

#[test]
fn prepare_does_not_change_the_launcher() {
    let mut runny = Runny::new("/bin/true");
    runny.timeout(Duration::from_secs(1));
    let before = runny.clone();
    let first = runny.prepare();
    let second = runny.prepare();
    assert_eq!(first, second);
    assert_eq!(runny, before);
}
