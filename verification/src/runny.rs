//! The launcher: what to run, where, and for how long.

use crate::error::RunnyError;
use std::time::Duration;
use vstd::prelude::*;

verus! {

/// The backslash.
pub const BACKSLASH: char = '\\';

/// What stands for one character of a command line once its backslashes
/// are doubled.
pub open spec fn doubled_char(c: char) -> Seq<char> {
    if c == BACKSLASH {
        seq![BACKSLASH, BACKSLASH]
    } else {
        seq![c]
    }
}

/// A command line with each of its backslashes doubled, so that the
/// splitting into words hands every one of them on as it was written.
pub open spec fn doubled(line: Seq<char>) -> Seq<char>
    decreases line.len(),
{
    if line.len() == 0 {
        Seq::empty()
    } else {
        doubled(line.drop_last()) + doubled_char(line.last())
    }
}

/// The words of a command line by the rules of a POSIX shell, or nothing
/// where the line breaks those rules.
pub uninterp spec fn shell_words(line: Seq<char>) -> Option<Seq<Seq<char>>>;

/// `shlex::split` splits a line into words as a POSIX shell does and
/// returns nothing for a line that it cannot split. The contract gives
/// its result the name `shell_words` of the line.
pub assume_specification[ shlex::split ](in_str: &str) -> (words: Option<Vec<String>>)
    ensures
        match words {
            Some(list) => shell_words(in_str@) == Some(list.deep_view()),
            None => shell_words(in_str@) is None,
        },
;

/// `String::push` appends one character to the string.
pub assume_specification[ String::push ](text: &mut String, ch: char)
    ensures
        final(text)@ == old(text)@.push(ch),
;

/// The command line with each backslash doubled.
pub fn escape_backslashes(line: &str) -> (escaped: String)
    ensures
        escaped@ == doubled(line@),
{
    broadcast use vstd::string::group_string_axioms;

    let mut escaped = String::new();
    let chars = line.chars();
    for c in it: chars
        invariant
            it.seq() == line@,
            escaped@ == doubled(line@.take(it.index())),
    {
        proof {
            let before = line@.take(it.index());
            let after = line@.take(it.index() + 1);
            assert(after.drop_last() =~= before);
            assert(after.last() == c);
        }
        if c == BACKSLASH {
            escaped.push(BACKSLASH);
            escaped.push(BACKSLASH);
            assert(escaped@ =~= doubled(line@.take(it.index())) + seq![BACKSLASH, BACKSLASH]);
        } else {
            escaped.push(c);
            assert(escaped@ =~= doubled(line@.take(it.index())) + seq![c]);
        }
    }
    assert(line@.take(line@.len() as int) =~= line@);
    escaped
}

/// The command that a split gave: its words, or the error of a command
/// line that could not be split.
pub open spec fn spec_command_words(split: Option<Seq<Seq<char>>>) -> Result<
    Seq<Seq<char>>,
    RunnyError,
> {
    match split {
        Some(words) => Ok(words),
        None => Err(RunnyError::NoCommandSpecified),
    }
}

/// Whether `command` holds, word for word, what `expected` says.
pub open spec fn same_words(
    command: Result<Vec<String>, RunnyError>,
    expected: Result<Seq<Seq<char>>, RunnyError>,
) -> bool {
    match command {
        Ok(words) => expected == Ok::<Seq<Seq<char>>, RunnyError>(words.deep_view()),
        Err(error) => expected == Err::<Seq<Seq<char>>, RunnyError>(error),
    }
}

/// Turns the result of a split into a command: the words where there are
/// any to speak of, the error `NoCommandSpecified` where the line could
/// not be split.
pub fn command_words(split: Option<Vec<String>>) -> (command: Result<Vec<String>, RunnyError>)
    ensures
        same_words(
            command,
            spec_command_words(
                match split {
                    Some(words) => Some(words.deep_view()),
                    None => None,
                },
            ),
        ),
{
    match split {
        Some(words) => Ok(words),
        None => Err(RunnyError::NoCommandSpecified),
    }
}

/// A launcher as contracts see it.
pub struct RunnyView {
    /// The command line.
    pub cmd: Seq<char>,
    /// The directory to run the command in, if it is not the caller's.
    pub working_directory: Option<Seq<char>>,
    /// The time after which the command is terminated.
    pub timeout: Option<Duration>,
    /// The directories to search for programs.
    pub path: Seq<Seq<char>>,
}

/// Describes a command to run: the command line and the options of the
/// session.
#[derive(Debug, Clone, PartialEq, Eq)]
pub struct Runny {
    cmd: String,
    working_directory: Option<String>,
    timeout: Option<Duration>,
    path: Vec<String>,
}

/// What to execute: the result of reading a launcher's command line.
#[derive(Debug, Clone, PartialEq, Eq)]
pub struct Launch {
    /// The program: the first word of the command line.
    pub program: String,
    /// The arguments: the words after the first.
    pub args: Vec<String>,
    /// The directory to run the program in, if it is not the caller's.
    pub working_directory: Option<String>,
    /// The time after which the session is terminated.
    pub timeout: Option<Duration>,
    /// The directories to search for programs.
    pub path: Vec<String>,
}

/// A launch as contracts see it.
pub struct LaunchView {
    pub program: Seq<char>,
    pub args: Seq<Seq<char>>,
    pub working_directory: Option<Seq<char>>,
    pub timeout: Option<Duration>,
    pub path: Seq<Seq<char>>,
}

/// The characters of an optional string.
pub open spec fn text_of(text: Option<String>) -> Option<Seq<char>> {
    match text {
        Some(s) => Some(s@),
        None => None,
    }
}

impl View for Runny {
    type V = RunnyView;

    closed spec fn view(&self) -> RunnyView {
        RunnyView {
            cmd: self.cmd@,
            working_directory: text_of(self.working_directory),
            timeout: self.timeout,
            path: self.path.deep_view(),
        }
    }
}

impl View for Launch {
    type V = LaunchView;

    open spec fn view(&self) -> LaunchView {
        LaunchView {
            program: self.program@,
            args: self.args.deep_view(),
            working_directory: text_of(self.working_directory),
            timeout: self.timeout,
            path: self.path.deep_view(),
        }
    }
}

/// The launch that the words of a command line give: the first word is
/// the program and the others are its arguments. Without a first word
/// there is no command.
pub open spec fn spec_launch(words: Seq<Seq<char>>, v: RunnyView) -> Result<
    LaunchView,
    RunnyError,
> {
    if words.len() == 0 {
        Err(RunnyError::NoCommandSpecified)
    } else {
        Ok(
            LaunchView {
                program: words[0],
                args: words.drop_first(),
                working_directory: v.working_directory,
                timeout: v.timeout,
                path: v.path,
            },
        )
    }
}

/// The launch of a launcher whose command line splits as `split` says.
pub open spec fn spec_prepare(split: Option<Seq<Seq<char>>>, v: RunnyView) -> Result<
    LaunchView,
    RunnyError,
> {
    match spec_command_words(split) {
        Ok(words) => spec_launch(words, v),
        Err(error) => Err(error),
    }
}

/// Whether `launch` is what `expected` says.
pub open spec fn same_launch(
    launch: Result<Launch, RunnyError>,
    expected: Result<LaunchView, RunnyError>,
) -> bool {
    match launch {
        Ok(l) => expected == Ok::<LaunchView, RunnyError>(l@),
        Err(error) => expected == Err::<LaunchView, RunnyError>(error),
    }
}

/// A copy of an optional string.
fn copy_text(text: &Option<String>) -> (copy: Option<String>)
    ensures
        text_of(copy) == text_of(*text),
{
    match text {
        Some(s) => Some(s.clone()),
        None => None,
    }
}

/// A copy of a list of strings.
fn copy_texts(texts: &Vec<String>) -> (copy: Vec<String>)
    ensures
        copy.deep_view() == texts.deep_view(),
{
    let mut copy: Vec<String> = Vec::new();
    let mut at: usize = 0;
    while at < texts.len()
        invariant
            at <= texts.len(),
            copy.len() == at,
            forall|i: int| 0 <= i < at ==> (#[trigger] copy[i])@ == texts[i]@,
        decreases texts.len() - at,
    {
        copy.push(texts[at].clone());
        at = at + 1;
    }
    assert(copy.deep_view() =~= texts.deep_view());
    copy
}

impl Runny {
    /// A launcher for the command line `cmd`: in the caller's directory,
    /// without a timeout, with no search path of its own.
    pub fn new(cmd: &str) -> (runny: Runny)
        ensures
            runny@ == (RunnyView {
                cmd: cmd@,
                working_directory: None,
                timeout: None,
                path: Seq::empty(),
            }),
    {
        let runny = Runny {
            cmd: String::from_str(cmd),
            working_directory: None,
            timeout: None,
            path: Vec::new(),
        };
        assert(runny.path.deep_view() =~= Seq::<Seq<char>>::empty());
        runny
    }

    /// Sets the directory to run the command in; none is the caller's.
    pub fn directory(&mut self, wd: &Option<String>) -> (runny: &mut Runny)
        ensures
            runny@ == (RunnyView { working_directory: text_of(*wd), ..old(self)@ }),
            *final(self) == *final(runny),
    {
        self.working_directory = copy_text(wd);
        self
    }

    /// Sets the directories to search for programs.
    pub fn path(&mut self, path: Vec<String>) -> (runny: &mut Runny)
        ensures
            runny@ == (RunnyView { path: path.deep_view(), ..old(self)@ }),
            *final(self) == *final(runny),
    {
        self.path = path;
        self
    }

    /// Sets the time after which the command is terminated.
    pub fn timeout(&mut self, timeout: Duration) -> (runny: &mut Runny)
        ensures
            runny@ == (RunnyView { timeout: Some(timeout), ..old(self)@ }),
            *final(self) == *final(runny),
    {
        self.timeout = Some(timeout);
        self
    }

    /// Splits a command line into its words. The backslashes of the line
    /// are doubled first, so that each reaches its word as written. A
    /// line that cannot be split gives the error `NoCommandSpecified`.
    pub fn make_command(cmd: &str) -> (command: Result<Vec<String>, RunnyError>)
        ensures
            same_words(command, spec_command_words(shell_words(doubled(cmd@)))),
    {
        let escaped = escape_backslashes(cmd);
        command_words(shlex::split(escaped.as_str()))
    }

    /// The launch for the given words of this launcher's command line:
    /// the first word as the program, the others as its arguments, with
    /// the launcher's directory, timeout and search path. Without a first
    /// word the error is `NoCommandSpecified`.
    pub fn launch(&self, words: Vec<String>) -> (launch: Result<Launch, RunnyError>)
        ensures
            same_launch(launch, spec_launch(words.deep_view(), self@)),
    {
        let mut words = words;
        if words.len() == 0 {
            return Err(RunnyError::NoCommandSpecified);
        }
        let ghost all = words.deep_view();
        let program = words.remove(0);
        assert(words.deep_view() =~= all.drop_first());
        let launch = Launch {
            program,
            args: words,
            working_directory: copy_text(&self.working_directory),
            timeout: self.timeout,
            path: copy_texts(&self.path),
        };
        Ok(launch)
    }

    /// Reads the command line and gives what to execute: the launch for
    /// the words of the line, or the error `NoCommandSpecified` where the
    /// line cannot be split or holds no word.
    pub fn prepare(&self) -> (launch: Result<Launch, RunnyError>)
        ensures
            same_launch(launch, spec_prepare(shell_words(doubled(self@.cmd)), self@)),
    {
        match Runny::make_command(self.cmd.as_str()) {
            Ok(words) => self.launch(words),
            Err(error) => Err(error),
        }
    }
}

} // verus!
