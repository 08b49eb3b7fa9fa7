use vstd::prelude::*;
use crate::exit::{ExitError, ExitOutcome};

verus! {

/// The text of each string of a sequence.
pub open spec fn strs(v: Seq<String>) -> Seq<Seq<char>> {
    v.map_values(|s: String| s@)
}

/// The characters with the Unicode property White_Space.
pub open spec fn is_white_space(c: char) -> bool {
    ('\u{9}' <= c && c <= '\u{d}') || c == ' ' || c == '\u{85}' || c == '\u{a0}'
        || c == '\u{1680}' || ('\u{2000}' <= c && c <= '\u{200a}') || c == '\u{2028}'
        || c == '\u{2029}' || c == '\u{202f}' || c == '\u{205f}' || c == '\u{3000}'
}

/// A text without its leading white space.
pub open spec fn trim_start_spec(s: Seq<char>) -> Seq<char>
    decreases s.len(),
{
    if s.len() > 0 && is_white_space(s[0]) {
        trim_start_spec(s.drop_first())
    } else {
        s
    }
}

/// A text without its trailing white space.
pub open spec fn trim_end_spec(s: Seq<char>) -> Seq<char>
    decreases s.len(),
{
    if s.len() > 0 && is_white_space(s.last()) {
        trim_end_spec(s.drop_last())
    } else {
        s
    }
}

/// A text without its leading and trailing white space.
pub open spec fn trimmed(s: Seq<char>) -> Seq<char> {
    trim_end_spec(trim_start_spec(s))
}

/// Relies on `str::trim`: the text with leading and trailing White_Space
/// characters removed.
#[verifier::external_body]
fn trim_owned(s: &String) -> (r: String)
    ensures
        r@ == trimmed(s@),
{
    s.trim().to_string()
}

/// A copy of a list of strings, element for element.
pub fn copy_strings(v: &Vec<String>) -> (r: Vec<String>)
    ensures
        r@ == v@,
{
    let mut r: Vec<String> = Vec::new();
    let mut i: usize = 0;
    while i < v.len()
        invariant
            i <= v@.len(),
            r@ == v@.subrange(0, i as int),
        decreases v@.len() - i,
    {
        r.push(v[i].clone());
        i = i + 1;
    }
    assert(r@ =~= v@);
    r
}

/// One external invocation: the program, its arguments, whether standard
/// output is captured, and a message to log before it runs.
#[derive(Debug, Default)]
pub struct Command {
    /// Log the invocation without running it.
    pub dry: bool,
    /// Human-readable message on what the command does.
    pub message: Option<String>,
    /// Collect standard output instead of letting it through.
    pub capture: bool,
    /// The program, then its arguments.
    pub args: Vec<String>,
}

/// A command as plain values: the texts of its message and arguments.
pub ghost struct CommandView {
    pub dry: bool,
    pub message: Option<Seq<char>>,
    pub capture: bool,
    pub args: Seq<Seq<char>>,
}

/// The text of an optional string.
pub open spec fn opt_str(o: Option<String>) -> Option<Seq<char>> {
    match o {
        Some(s) => Some(s@),
        None => None,
    }
}

impl View for Command {
    type V = CommandView;

    open spec fn view(&self) -> CommandView {
        CommandView {
            dry: self.dry,
            message: opt_str(self.message),
            capture: self.capture,
            args: strs(self.args@),
        }
    }
}

/// Collects the fields of a [`Command`]; `build` refuses an empty argument list.
#[derive(Debug, Default)]
pub struct CommandBuilder {
    pub dry: bool,
    pub message: Option<String>,
    pub capture: bool,
    pub args: Vec<String>,
}

/// What is left to do to run a process: the program and its arguments.
/// Standard error is discarded; standard output is piped when `capture`.
#[derive(Debug)]
pub struct Invocation {
    pub program: String,
    pub args: Vec<String>,
    pub capture: bool,
}

/// What happened when an [`Invocation`] was carried out.
#[derive(Debug)]
pub enum ProcessOutcome {
    /// The process could not be started (missing binary, no permission).
    SpawnFailed(String),
    /// The process ran and ended; `stdout` is what it printed when captured.
    Finished { exit: ExitOutcome, stdout: String },
}

/// The next thing to do for a command.
#[derive(Debug)]
pub enum ExecStep {
    /// Start this process and report back how it went.
    Spawn(Invocation),
    /// Nothing more to run; the captured text, if any.
    Done(Option<String>),
}

/// Why running a command failed.
#[derive(Debug, PartialEq, Eq)]
pub enum RunError {
    /// The command has no program to run.
    EmptyArgs,
    /// The process could not be started.
    Spawn(String),
    /// The process ended with anything but a clean exit.
    Exit(ExitError),
}

impl CommandBuilder {
    pub fn new() -> (r: CommandBuilder)
        ensures
            !r.dry,
            r.message is None,
            !r.capture,
            r.args@.len() == 0,
    {
        CommandBuilder { dry: false, message: None, capture: false, args: Vec::new() }
    }

    /// Appends `input` to the argument list.
    pub fn args(&mut self, input: &[String])
        ensures
            final(self).args@ == old(self).args@ + input@,
            final(self).dry == old(self).dry,
            final(self).capture == old(self).capture,
            final(self).message == old(self).message,
    {
        let mut i: usize = 0;
        while i < input.len()
            invariant
                i <= input@.len(),
                self.args@ == old(self).args@ + input@.subrange(0, i as int),
                self.dry == old(self).dry,
                self.capture == old(self).capture,
                self.message == old(self).message,
            decreases input@.len() - i,
        {
            self.args.push(input[i].clone());
            i = i + 1;
            assert(self.args@ =~= old(self).args@ + input@.subrange(0, i as int));
        }
        assert(input@.subrange(0, input@.len() as int) =~= input@);
    }

    /// The described command, or `EmptyArgs` when no program was given.
    pub fn build(&self) -> (r: Result<Command, RunError>)
        ensures
            r is Ok <==> self.args@.len() > 0,
            self.args@.len() == 0 ==> r == Err::<Command, RunError>(RunError::EmptyArgs),
            r matches Ok(c) ==> c.dry == self.dry && c.message == self.message
                && c.capture == self.capture && c.args@ == self.args@,
    {
        if self.args.len() == 0 {
            Err(RunError::EmptyArgs)
        } else {
            Ok(Command {
                dry: self.dry,
                message: self.message.clone(),
                capture: self.capture,
                args: copy_strings(&self.args),
            })
        }
    }
}

impl Command {
    /// Advances the execution of this command. Called first with `None`, it
    /// says what process to start, if any; called with the outcome of that
    /// process, it gives the result of the whole run.
    pub fn run(&self, event: Option<ProcessOutcome>) -> (r: Result<ExecStep, RunError>)
        ensures
            event is Some ==> !(r matches Ok(ExecStep::Spawn(_))),
            self.args@.len() == 0 ==> r == Err::<ExecStep, RunError>(RunError::EmptyArgs),
            self.args@.len() > 0 ==> match event {
                None => if self.dry {
                    r == Ok::<ExecStep, RunError>(ExecStep::Done(None))
                } else {
                    r matches Ok(ExecStep::Spawn(inv)) && inv.program == self.args@[0]
                        && inv.args@ == self.args@.drop_first() && inv.capture == self.capture
                },
                Some(ProcessOutcome::SpawnFailed(m)) => r == Err::<ExecStep, RunError>(
                    RunError::Spawn(m),
                ),
                Some(ProcessOutcome::Finished { exit, stdout }) => if !exit.is_success_spec() {
                    r == Err::<ExecStep, RunError>(RunError::Exit(ExitError(exit)))
                } else if self.capture {
                    r matches Ok(ExecStep::Done(Some(out))) && out@ == trimmed(stdout@)
                } else {
                    r == Ok::<ExecStep, RunError>(ExecStep::Done(None))
                },
            },
    {
        if self.args.len() == 0 {
            return Err(RunError::EmptyArgs);
        }
        match event {
            None => {
                if self.dry {
                    Ok(ExecStep::Done(None))
                } else {
                    let mut rest: Vec<String> = Vec::new();
                    let mut i: usize = 1;
                    while i < self.args.len()
                        invariant
                            1 <= i <= self.args@.len(),
                            rest@ == self.args@.subrange(1, i as int),
                        decreases self.args@.len() - i,
                    {
                        rest.push(self.args[i].clone());
                        i = i + 1;
                        assert(rest@ =~= self.args@.subrange(1, i as int));
                    }
                    assert(rest@ =~= self.args@.drop_first());
                    Ok(ExecStep::Spawn(Invocation {
                        program: self.args[0].clone(),
                        args: rest,
                        capture: self.capture,
                    }))
                }
            },
            Some(ProcessOutcome::SpawnFailed(m)) => Err(RunError::Spawn(m)),
            Some(ProcessOutcome::Finished { exit, stdout }) => {
                if !exit.is_success() {
                    Err(RunError::Exit(ExitError(exit)))
                } else if self.capture {
                    Ok(ExecStep::Done(Some(trim_owned(&stdout))))
                } else {
                    Ok(ExecStep::Done(None))
                }
            },
        }
    }
}

} // verus!
