use crate::languages::{Directory, Language, LanguageDetector};
use vstd::prelude::*;

verus! {

/// The actions a user can ask for.
#[derive(Clone, Copy, Debug, PartialEq, Eq)]
pub enum Verb {
    Build,
    Clean,
    Run,
    Test,
    Install,
}

/// Why an invocation ended without a successful child.
#[derive(Clone, Copy, Debug, PartialEq, Eq)]
pub enum Failure {
    /// No registered marker exists in the directory.
    NoProfileDetected,
    /// The executable is not on the search path.
    CommandNotFound,
    /// The profile has no command for the verb.
    UnsupportedOperation,
    /// The child could not be started, or ended with the given non-zero
    /// exit code, or ended without one.
    ExecutionFailed(Option<i32>),
}

/// A program and the one argument it is started with.
#[derive(Clone, Copy, Debug, PartialEq, Eq)]
pub struct Spawn<'a> {
    pub program: &'a str,
    pub args: &'a str,
}

/// What has to happen next to carry a command out.
#[derive(Clone, Copy, Debug, PartialEq, Eq)]
pub enum Step<'a> {
    /// Search the path for `command`, then go on with `located`.
    Locate { command: &'a str, args: &'a str },
    /// Start the program, then go on with `conclude`.
    Run(Spawn<'a>),
}

/// A command that is about to be carried out: the line that announces it
/// and its first step.
#[derive(Debug, PartialEq, Eq)]
pub struct Started<'a> {
    pub line: String,
    pub step: Step<'a>,
}

/// Place `i` holds the first profile of `languages` whose marker exists in
/// `dir`.
pub open spec fn governs(languages: Seq<Language>, dir: &Directory, i: int) -> bool {
    &&& 0 <= i < languages.len()
    &&& languages[i].applies(dir)
    &&& forall|j: int| 0 <= j < i ==> !(#[trigger] languages[j]).applies(dir)
}

/// The place of the profile that governs `dir`, if any does.
pub open spec fn first_match(languages: Seq<Language>, dir: &Directory) -> Option<int> {
    if exists|i: int| governs(languages, dir, i) {
        Some(choose|i: int| governs(languages, dir, i))
    } else {
        None
    }
}

/// At most one place governs a directory.
pub proof fn lemma_governs_unique(languages: Seq<Language>, dir: &Directory, i: int, j: int)
    requires
        governs(languages, dir, i),
        governs(languages, dir, j),
    ensures
        i == j,
{
    if i < j {
        assert(!languages[i].applies(dir));
    } else if j < i {
        assert(!languages[j].applies(dir));
    }
}

/// Scans the profiles in order and returns the first whose marker exists in
/// `dir`.
pub fn resolve(languages: &Vec<Language>, dir: &Directory) -> (found: Option<Language>)
    ensures
        match found {
            Some(language) => exists|i: int|
                governs(languages@, dir, i) && languages@[i] == language,
            None => forall|i: int|
                0 <= i < languages@.len() ==> !(#[trigger] languages@[i]).applies(dir),
        },
        found == match first_match(languages@, dir) {
            Some(i) => Some(languages@[i]),
            None => None,
        },
{
    let mut i: usize = 0;
    while i < languages.len()
        invariant
            i <= languages@.len(),
            forall|j: int| 0 <= j < i ==> !(#[trigger] languages@[j]).applies(dir),
        decreases languages@.len() - i,
    {
        if languages[i].current_language(dir) {
            proof {
                assert(governs(languages@, dir, i as int));
                let c = choose|k: int| governs(languages@, dir, k);
                lemma_governs_unique(languages@, dir, i as int, c);
            }
            return Some(languages[i]);
        }
        i += 1;
    }
    None
}


/// A directory in which a later marker exists too is still governed by the
/// earlier profile: the later one is never the match, and where nothing
/// before the earlier one applies, the earlier one is.
pub proof fn lemma_earlier_profile_wins(
    languages: Seq<Language>,
    dir: &Directory,
    earlier: int,
    later: int,
)
    requires
        0 <= earlier < later < languages.len(),
        languages[earlier].applies(dir),
    ensures
        first_match(languages, dir) is Some,
        first_match(languages, dir)->0 <= earlier,
        first_match(languages, dir) != Some(later),
        (forall|j: int| 0 <= j < earlier ==> !(#[trigger] languages[j]).applies(dir))
            ==> first_match(languages, dir) == Some(earlier),
{
    lemma_some_profile_governs(languages, dir, earlier);
    let c = choose|k: int| governs(languages, dir, k);
    if c > earlier {
        assert(!languages[earlier].applies(dir));
    }
    if forall|j: int| 0 <= j < earlier ==> !(#[trigger] languages[j]).applies(dir) {
        lemma_governs_unique(languages, dir, earlier, c);
    }
}

/// Where the marker of the profile at place `i` exists, some place at or
/// before `i` governs the directory.
pub proof fn lemma_some_profile_governs(languages: Seq<Language>, dir: &Directory, i: int)
    requires
        0 <= i < languages.len(),
        languages[i].applies(dir),
    ensures
        exists|k: int| 0 <= k <= i && governs(languages, dir, k),
    decreases i,
{
    if forall|j: int| 0 <= j < i ==> !(#[trigger] languages[j]).applies(dir) {
        assert(governs(languages, dir, i));
    } else {
        let j = choose|j: int| 0 <= j < i && (#[trigger] languages[j]).applies(dir);
        lemma_some_profile_governs(languages, dir, j);
    }
}

/// The argument payload that `language` maps `verb` to.
pub open spec fn fragment(language: Language, verb: Verb) -> Option<&'static str> {
    match verb {
        Verb::Build => Some(language.build_command),
        Verb::Clean => Some(language.clean_command),
        Verb::Run => Some(language.run_command),
        Verb::Test => Some(language.test_command),
        Verb::Install => language.install_command,
    }
}

/// The program and payload for `verb`, or `UnsupportedOperation` where the
/// profile maps the verb to nothing.
pub open spec fn dispatched(language: Language, verb: Verb) -> Result<Spawn<'static>, Failure> {
    match fragment(language, verb) {
        Some(args) => Ok(Spawn { program: language.main_command, args }),
        None => Err(Failure::UnsupportedOperation),
    }
}

/// Looks up the command of `verb` in `language`.
pub fn dispatch(language: &Language, verb: Verb) -> (command: Result<Spawn<'static>, Failure>)
    ensures
        command == dispatched(*language, verb),
{
    let args = match verb {
        Verb::Build => Some(language.build_command),
        Verb::Clean => Some(language.clean_command),
        Verb::Run => Some(language.run_command),
        Verb::Test => Some(language.test_command),
        Verb::Install => language.install_command,
    };
    match args {
        Some(args) => Ok(Spawn { program: language.main_command, args }),
        None => Err(Failure::UnsupportedOperation),
    }
}

/// The line that announces a command.
pub open spec fn announcement(heading: Seq<char>, command: Seq<char>, args: Seq<char>) -> Seq<
    char,
> {
    heading + " ⚙️ '"@ + command + " "@ + args + "'"@
}

/// The first step of a command: a search of the path where one is asked
/// for, else the start of the program under its own name.
pub open spec fn first_step<'a>(command: &'a str, args: &'a str, detect_path: bool) -> Step<'a> {
    if detect_path {
        Step::Locate { command, args }
    } else {
        Step::Run(Spawn { program: command, args })
    }
}

/// The step after a search of the path: the start of the executable that
/// was found, with the same payload, or `CommandNotFound`.
pub open spec fn after_lookup<'a>(args: &'a str, found: Option<&'a str>) -> Result<
    Spawn<'a>,
    Failure,
> {
    match found {
        Some(program) => Ok(Spawn { program, args }),
        None => Err(Failure::CommandNotFound),
    }
}

/// What a child's end means: success for exit code 0, else
/// `ExecutionFailed` with the code, if there is one.
pub open spec fn concluded(child: Option<i32>) -> Result<(), Failure> {
    if child == Some(0i32) {
        Ok(())
    } else {
        Err(Failure::ExecutionFailed(child))
    }
}

/// Announces a command and names its first step. Nothing is started here:
/// the caller prints the line and carries the step out.
pub fn run_cmd<'a>(heading: &str, command: &'a str, args: &'a str, detect_path: bool) -> (started:
    Started<'a>)
    ensures
        started.line@ == announcement(heading@, command@, args@),
        started.step == first_step(command, args, detect_path),
{
    let line = String::from_str(heading).concat(" ⚙️ '").concat(command).concat(" ").concat(
        args,
    ).concat("'");
    let step = if detect_path {
        Step::Locate { command, args }
    } else {
        Step::Run(Spawn { program: command, args })
    };
    Started { line, step }
}

/// Goes on after the search of the path: `found` is the executable's
/// absolute path, or `None` where the path holds no such executable.
pub fn located<'a>(args: &'a str, found: Option<&'a str>) -> (next: Result<Spawn<'a>, Failure>)
    ensures
        next == after_lookup(args, found),
{
    match found {
        Some(program) => Ok(Spawn { program, args }),
        None => Err(Failure::CommandNotFound),
    }
}

/// The line that reports a command missing from the search path.
pub fn not_found_line(command: &str) -> (line: String)
    ensures
        line@ == "Command not found: "@ + command@,
{
    String::from_str("Command not found: ").concat(command)
}

/// Goes on after the child: `child` is its exit code, or `None` where it
/// could not be started or ended without a code.
pub fn conclude(child: Option<i32>) -> (outcome: Result<(), Failure>)
    ensures
        outcome == concluded(child),
{
    match child {
        Some(code) => {
            if code == 0 {
                Ok(())
            } else {
                Err(Failure::ExecutionFailed(child))
            }
        },
        None => Err(Failure::ExecutionFailed(child)),
    }
}

/// The exit status of an invocation: 0 for success, the child's own code
/// where it failed with one, else 1.
pub open spec fn status_of(outcome: Result<(), Failure>) -> i32 {
    match outcome {
        Ok(_) => 0i32,
        Err(Failure::ExecutionFailed(Some(code))) => if code != 0 {
            code
        } else {
            1i32
        },
        Err(_) => 1i32,
    }
}

/// Computes the exit status of an invocation.
pub fn exit_code(outcome: &Result<(), Failure>) -> (code: i32)
    ensures
        code == status_of(*outcome),
        code == 0 <==> *outcome is Ok,
{
    match outcome {
        Ok(_) => 0,
        Err(Failure::ExecutionFailed(Some(code))) => {
            if *code != 0 {
                *code
            } else {
                1
            }
        },
        Err(_) => 1,
    }
}

/// The words that report a failure.
pub open spec fn description(failure: Failure) -> Seq<char> {
    match failure {
        Failure::NoProfileDetected => "No build system detected"@,
        Failure::CommandNotFound => "Command not found"@,
        Failure::UnsupportedOperation => "No install command found"@,
        Failure::ExecutionFailed(_) => "Failed to execute command"@,
    }
}

/// Names a failure in words.
pub fn describe(failure: &Failure) -> (text: &'static str)
    ensures
        text@ == description(*failure),
{
    match failure {
        Failure::NoProfileDetected => "No build system detected",
        Failure::CommandNotFound => "Command not found",
        Failure::UnsupportedOperation => "No install command found",
        Failure::ExecutionFailed(_) => "Failed to execute command",
    }
}

/// What `verb` comes to in `dir`: the command of the profile that governs
/// it, `NoProfileDetected` where none does, `UnsupportedOperation` where that
/// profile maps the verb to nothing.
pub open spec fn planned(languages: Seq<Language>, dir: &Directory, verb: Verb) -> Result<
    (Language, Spawn<'static>),
    Failure,
> {
    match first_match(languages, dir) {
        None => Err(Failure::NoProfileDetected),
        Some(i) => match dispatched(languages[i], verb) {
            Ok(spawn) => Ok((languages[i], spawn)),
            Err(failure) => Err(failure),
        },
    }
}

/// `outcome` announces the planned command under its profile's heading and
/// names its first step, or is the failure that the plan ended with.
pub open spec fn starts(
    languages: Seq<Language>,
    dir: &Directory,
    verb: Verb,
    outcome: Result<Started<'static>, Failure>,
) -> bool {
    match planned(languages, dir, verb) {
        Ok((language, spawn)) => {
            &&& outcome is Ok
            &&& outcome->Ok_0.line@ == announcement(
                language.heading@,
                spawn.program@,
                spawn.args@,
            )
            &&& outcome->Ok_0.step == first_step(
                spawn.program,
                spawn.args,
                language.lookup_full_path,
            )
        },
        Err(failure) => outcome == Err::<Started<'static>, Failure>(failure),
    }
}

/// Resolves the profile of `dir`, maps `verb` to its command and begins it.
pub fn exec_verb(languages: &Vec<Language>, dir: &Directory, verb: Verb) -> (outcome: Result<
    Started<'static>,
    Failure,
>)
    ensures
        starts(languages@, dir, verb, outcome),
{
    match resolve(languages, dir) {
        None => Err(Failure::NoProfileDetected),
        Some(language) => match dispatch(&language, verb) {
            Ok(spawn) => Ok(
                run_cmd(language.heading, spawn.program, spawn.args, language.lookup_full_path),
            ),
            Err(failure) => Err(failure),
        },
    }
}

/// Begins the test command of the profile that governs `dir`.
pub fn exec_test(languages: Vec<Language>, dir: &Directory) -> (outcome: Result<
    Started<'static>,
    Failure,
>)
    ensures
        starts(languages@, dir, Verb::Test, outcome),
{
    exec_verb(&languages, dir, Verb::Test)
}

/// Begins the run command of the profile that governs `dir`.
pub fn exec_run(languages: &Vec<Language>, dir: &Directory) -> (outcome: Result<
    Started<'static>,
    Failure,
>)
    ensures
        starts(languages@, dir, Verb::Run, outcome),
{
    exec_verb(languages, dir, Verb::Run)
}

/// Begins the clean command of the profile that governs `dir`.
pub fn exec_clean(languages: &Vec<Language>, dir: &Directory) -> (outcome: Result<
    Started<'static>,
    Failure,
>)
    ensures
        starts(languages@, dir, Verb::Clean, outcome),
{
    exec_verb(languages, dir, Verb::Clean)
}

/// Begins the build command of the profile that governs `dir`.
pub fn exec_build(languages: &Vec<Language>, dir: &Directory) -> (outcome: Result<
    Started<'static>,
    Failure,
>)
    ensures
        starts(languages@, dir, Verb::Build, outcome),
{
    exec_verb(languages, dir, Verb::Build)
}

/// Begins the install command of the profile that governs `dir`; a profile
/// without one gives `UnsupportedOperation`.
pub fn exec_install(languages: &Vec<Language>, dir: &Directory) -> (outcome: Result<
    Started<'static>,
    Failure,
>)
    ensures
        starts(languages@, dir, Verb::Install, outcome),
{
    exec_verb(languages, dir, Verb::Install)
}


/// The child that a command comes to start, if any, when its steps are
/// carried out in turn and the search of the path, where one is made,
/// answers `found`.
pub open spec fn spawned<'a>(
    command: &'a str,
    args: &'a str,
    detect_path: bool,
    found: Option<&'a str>,
) -> Option<Spawn<'a>> {
    match first_step(command, args, detect_path) {
        Step::Run(spawn) => Some(spawn),
        Step::Locate { command: _, args: payload } => match after_lookup(payload, found) {
            Ok(spawn) => Some(spawn),
            Err(_) => None,
        },
    }
}

/// How a command ends when its steps are carried out in turn, the search of
/// the path answers `found` and the child, where one is started, ends with
/// `child`.
pub open spec fn executed<'a>(
    command: &'a str,
    args: &'a str,
    detect_path: bool,
    found: Option<&'a str>,
    child: Option<i32>,
) -> Result<(), Failure> {
    match first_step(command, args, detect_path) {
        Step::Run(_) => concluded(child),
        Step::Locate { command: _, args: payload } => match after_lookup(payload, found) {
            Ok(_) => concluded(child),
            Err(failure) => Err(failure),
        },
    }
}

/// A command that is to be found on the search path and is not there
/// starts no child and ends with `CommandNotFound`, whatever a child would
/// have returned.
pub proof fn lemma_absent_executable_starts_nothing(
    command: &str,
    args: &str,
    child: Option<i32>,
)
    ensures
        first_step(command, args, true) == (Step::Locate { command, args }),
        after_lookup(args, None) == Err::<Spawn, Failure>(Failure::CommandNotFound),
        spawned(command, args, true, None) is None,
        executed(command, args, true, None, child) == Err::<(), Failure>(
            Failure::CommandNotFound,
        ),
{
}

/// Every child that a command starts gets the command's payload as it is:
/// with a search of the path the program is the executable found, without
/// one it is the command's own name, and the payload is the same either way.
pub proof fn lemma_payload_reaches_child_unmodified(
    command: &str,
    args: &str,
    detect_path: bool,
    found: Option<&str>,
)
    ensures
        spawned(command, args, detect_path, found) matches Some(spawn) ==> spawn.args == args,
        !detect_path ==> spawned(command, args, detect_path, found) == Some(
            Spawn { program: command, args },
        ),
        detect_path ==> spawned(command, args, detect_path, found) == match found {
            Some(program) => Some(Spawn { program, args }),
            None => None,
        },
{
}

/// The payload that a profile's command is started with is the fragment
/// that the profile holds for the verb.
pub proof fn lemma_dispatch_keeps_fragment(language: Language, verb: Verb)
    ensures
        dispatched(language, verb) matches Ok(spawn) ==> fragment(language, verb) == Some(
            spawn.args,
        ) && spawn.program == language.main_command,
        dispatched(language, verb) is Err <==> verb == Verb::Install
            && language.install_command is None,
        dispatched(language, verb) matches Err(failure) ==> failure
            == Failure::UnsupportedOperation,
{
}

/// `install` in a directory whose profile has no install command ends with
/// `UnsupportedOperation` before any step is named: nothing is searched for
/// and nothing is started.
pub proof fn lemma_install_without_mapping_starts_nothing(
    languages: Seq<Language>,
    dir: &Directory,
    i: int,
    outcome: Result<Started<'static>, Failure>,
)
    requires
        governs(languages, dir, i),
        languages[i].install_command is None,
        starts(languages, dir, Verb::Install, outcome),
    ensures
        dispatched(languages[i], Verb::Install) == Err::<Spawn<'static>, Failure>(
            Failure::UnsupportedOperation,
        ),
        planned(languages, dir, Verb::Install) == Err::<(Language, Spawn<'static>), Failure>(
            Failure::UnsupportedOperation,
        ),
        outcome == Err::<Started<'static>, Failure>(Failure::UnsupportedOperation),
{
    let c = choose|k: int| governs(languages, dir, k);
    lemma_governs_unique(languages, dir, i, c);
}

/// A directory in which no marker of the list exists has no profile, and
/// every verb ends with `NoProfileDetected`.
pub proof fn lemma_no_marker_no_profile(languages: Seq<Language>, dir: &Directory, verb: Verb)
    requires
        forall|i: int| 0 <= i < languages.len() ==> !(#[trigger] languages[i]).applies(dir),
    ensures
        first_match(languages, dir) is None,
        planned(languages, dir, verb) == Err::<(Language, Spawn<'static>), Failure>(
            Failure::NoProfileDetected,
        ),
{
}

} // verus!
