//! A program invocation by name and arguments, and the judgement of its run
//! against the exit code zero.
use vstd::prelude::*;
use vstd::string::*;
use crate::decimal::{push_signed_decimal, signed_decimal};
use crate::program::{ProcessOutput, io_error_text};

verus! {

/// A program to run, with its arguments, passed on unmodified.
pub struct Command {
    program: String,
    args: Vec<String>,
}

/// The model of a `Command`.
pub struct CommandView {
    pub program: Seq<char>,
    pub args: Seq<Seq<char>>,
}

/// The texts of a list of strings.
pub open spec fn texts(v: Seq<String>) -> Seq<Seq<char>> {
    v.map_values(|s: String| s@)
}

impl View for Command {
    type V = CommandView;

    closed spec fn view(&self) -> CommandView {
        CommandView { program: self.program@, args: texts(self.args@) }
    }
}

impl Command {
    /// The invocation of `program` with `args`.
    pub fn new(program: String, args: Vec<String>) -> (r: Self)
        ensures
            r@.program == program@,
            r@.args == texts(args@),
    {
        Command { program, args }
    }

    /// The program's name.
    pub fn program(&self) -> (r: &str)
        ensures
            r@ == self@.program,
    {
        self.program.as_str()
    }

    /// The arguments, in order.
    pub fn args(&self) -> (r: &Vec<String>)
        ensures
            texts(r@) == self@.args,
    {
        &self.args
    }

    /// Judges the outcome of running this command: success exactly when it
    /// exited with code zero.
    pub fn execute(self, outcome: Result<ProcessOutput, std::io::Error>) -> (r: Result<
        Output,
        Error,
    >)
        ensures
            match outcome {
                Err(e) => r == Err::<Output, Error>(Error::Io(e)),
                Ok(p) => match p.status_code {
                    None => r is Err && r->Err_0 is BadStatusCode,
                    Some(code) => {
                        let captured = OutputView {
                            status_code: code,
                            stdout: p.stdout@,
                            stderr: p.stderr@,
                        };
                        if code == 0 {
                            r is Ok && r->Ok_0@ == captured
                        } else {
                            r is Err && r->Err_0 is NonZeroStatusCode
                                && r->Err_0->NonZeroStatusCode_0@ == captured
                        }
                    },
                },
            },
    {
        match outcome {
            Err(e) => Err(Error::Io(e)),
            Ok(p) => match p.status_code {
                None => Err(Error::BadStatusCode),
                Some(code) => {
                    let result = Output { status_code: code, stdout: p.stdout, stderr: p.stderr };
                    if code != 0 {
                        Err(Error::NonZeroStatusCode(result))
                    } else {
                        Ok(result)
                    }
                },
            },
        }
    }
}

/// The captured result of a command that exited with a readable code.
pub struct Output {
    status_code: i32,
    stdout: Vec<u8>,
    stderr: Vec<u8>,
}

/// The model of an `Output`.
pub struct OutputView {
    pub status_code: i32,
    pub stdout: Seq<u8>,
    pub stderr: Seq<u8>,
}

impl View for Output {
    type V = OutputView;

    closed spec fn view(&self) -> OutputView {
        OutputView { status_code: self.status_code, stdout: self.stdout@, stderr: self.stderr@ }
    }
}

impl Output {
    /// The exit code.
    pub fn status_code(&self) -> (r: i32)
        ensures
            r == self@.status_code,
    {
        self.status_code
    }

    /// Everything the command wrote to standard output.
    pub fn stdout(&self) -> (r: &Vec<u8>)
        ensures
            r@ == self@.stdout,
    {
        &self.stdout
    }

    /// Everything the command wrote to standard error.
    pub fn stderr(&self) -> (r: &Vec<u8>)
        ensures
            r@ == self@.stderr,
    {
        &self.stderr
    }
}

/// Why a command did not succeed.
pub enum Error {
    /// The command exited with a code other than zero.
    NonZeroStatusCode(Output),
    /// The command could not be spawned, or its output could not be read.
    Io(std::io::Error),
    /// The command ended without an exit code.
    BadStatusCode,
}

/// The message of an error that is not an I/O error.
pub open spec fn command_error_text(e: Error) -> Seq<char> {
    match e {
        Error::NonZeroStatusCode(o) => "Non-zero status code: "@ + signed_decimal(
            o@.status_code as int,
        ),
        _ => "Unable to get status code from `Command`"@,
    }
}

impl Error {
    /// The error's message; for an I/O error, that error's own.
    pub fn to_string(&self) -> (r: String)
        ensures
            !(self is Io) ==> r@ == command_error_text(*self),
    {
        match self {
            Error::NonZeroStatusCode(o) => {
                let mut s = String::from_str("Non-zero status code: ");
                push_signed_decimal(&mut s, o.status_code);
                s
            },
            Error::Io(e) => io_error_text(e),
            Error::BadStatusCode => String::from_str("Unable to get status code from `Command`"),
        }
    }
}

} // verus!
