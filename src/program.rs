//! Running an external program and judging its exit status.
use vstd::prelude::*;
use vstd::string::*;
use crate::decimal::{push_signed_decimal, signed_decimal};

verus! {

/// An I/O failure while spawning a process or reading its output.
#[verifier::external_type_specification]
#[verifier::external_body]
pub struct ExIoError(std::io::Error);

/// What a finished process left behind, before it is judged: its exit code,
/// if it has one (a process ended by a signal has none), and its captured
/// standard output and standard error.
pub struct ProcessOutput {
    pub status_code: Option<i32>,
    pub stdout: Vec<u8>,
    pub stderr: Vec<u8>,
}

/// The captured result of a process whose exit code could be read.
#[derive(Debug)]
pub struct Output {
    status_code: i32,
    stdout: Vec<u8>,
    stderr: Vec<u8>,
}

/// The model of an `Output`.
pub struct OutputView {
    pub status_code: i32,
    pub stdout: Seq<u8>,
    pub stderr: Seq<u8>,
}

impl View for Output {
    type V = OutputView;

    closed spec fn view(&self) -> OutputView {
        OutputView { status_code: self.status_code, stdout: self.stdout@, stderr: self.stderr@ }
    }
}

impl Output {
    /// The exit code of the process.
    pub fn status_code(&self) -> (r: &i32)
        ensures
            *r == self@.status_code,
    {
        &self.status_code
    }

    /// Everything the process wrote to standard output.
    pub fn stdout(&self) -> (r: &[u8])
        ensures
            r@ == self@.stdout,
    {
        self.stdout.as_slice()
    }

    /// Everything the process wrote to standard error.
    pub fn stderr(&self) -> (r: &[u8])
        ensures
            r@ == self@.stderr,
    {
        self.stderr.as_slice()
    }
}

/// Why running a program did not succeed.
pub enum Error {
    /// The program could not be spawned, or its output could not be read.
    Io(std::io::Error),
    /// The program ended without an exit code (it was killed by a signal).
    NoStatusCode,
    /// The program exited with a code other than the expected one.
    UnexpectedStatusCode(Output),
}

/// Whether `raw` is the outcome `expected` calls a success.
pub open spec fn succeeded(raw: Result<ProcessOutput, std::io::Error>, expected: i32) -> bool {
    match raw {
        Ok(p) => p.status_code == Some(expected),
        Err(_) => false,
    }
}

/// The judgement of one finished run, given the exit code that counts as success.
pub open spec fn judged(
    raw: Result<ProcessOutput, std::io::Error>,
    expected: i32,
    r: Result<Output, Error>,
) -> bool {
    match raw {
        Err(e) => r == Err::<Output, Error>(Error::Io(e)),
        Ok(p) => match p.status_code {
            None => r is Err && r->Err_0 is NoStatusCode,
            Some(code) => {
                let captured = OutputView { status_code: code, stdout: p.stdout@, stderr: p.stderr@ };
                if code == expected {
                    r is Ok && r->Ok_0@ == captured
                } else {
                    r is Err && r->Err_0 is UnexpectedStatusCode
                        && r->Err_0->UnexpectedStatusCode_0@ == captured
                }
            },
        },
    }
}

/// Judges the outcome of one run of a program: success exactly when it
/// exited with `expected`, keeping the exit code and both captured streams
/// as they were.
pub fn check_output(raw: Result<ProcessOutput, std::io::Error>, expected: i32) -> (r: Result<
    Output,
    Error,
>)
    ensures
        judged(raw, expected, r),
        r is Ok <==> succeeded(raw, expected),
{
    match raw {
        Err(e) => Err(Error::Io(e)),
        Ok(p) => match p.status_code {
            None => Err(Error::NoStatusCode),
            Some(code) => {
                let result = Output { status_code: code, stdout: p.stdout, stderr: p.stderr };
                if code != expected {
                    Err(Error::UnexpectedStatusCode(result))
                } else {
                    Ok(result)
                }
            },
        },
    }
}

/// A runnable process description: the step that actually runs something
/// and captures what it wrote. Tests supply scripted outcomes through it.
pub trait Command {
    /// Runs the process to its end and captures its output.
    fn output(&mut self) -> Result<ProcessOutput, std::io::Error>;
}

/// Something that can be executed and judged.
pub trait Program {
    /// The exit code that counts as success.
    spec fn expected(&self) -> i32;

    /// Runs once and judges the outcome.
    fn execute(&mut self) -> (r: Result<Output, Error>)
        ensures
            final(self).expected() == old(self).expected(),
            r is Ok ==> r->Ok_0@.status_code == old(self).expected(),
            r is Err && r->Err_0 is UnexpectedStatusCode ==> r->Err_0->UnexpectedStatusCode_0@.status_code
                != old(self).expected(),
    ;
}

/// A `Command` together with the exit code that counts as its success.
pub struct ProgramImpl<T: Command> {
    command: T,
    expected_status_code: i32,
}

impl<T: Command> ProgramImpl<T> {
    /// Pairs `command` with the exit code that counts as success.
    pub fn new(command: T, expected_status_code: i32) -> (r: Self)
        ensures
            r.expected() == expected_status_code,
    {
        ProgramImpl { command, expected_status_code }
    }
}

impl<T: Command> Program for ProgramImpl<T> {
    closed spec fn expected(&self) -> i32 {
        self.expected_status_code
    }

    fn execute(&mut self) -> (r: Result<Output, Error>) {
        let raw = self.command.output();
        check_output(raw, self.expected_status_code)
    }
}

/// The text of `b` decoded as UTF-8, each invalid sequence replaced by U+FFFD.
pub uninterp spec fn utf8_lossy(b: Seq<u8>) -> Seq<char>;

/// The text of `s` as Rust's debug formatting writes it: quoted, with
/// special characters escaped.
pub uninterp spec fn debug_quoted(s: Seq<char>) -> Seq<char>;

/// Relies on `Display` for `std::io::Error`: its message.
#[verifier::external_body]
pub(crate) fn io_error_text(e: &std::io::Error) -> String {
    format!("{e}")
}

/// Relies on `Debug` for `std::io::Error`: its debug form.
#[verifier::external_body]
fn io_error_debug_text(e: &std::io::Error) -> String {
    format!("{e:?}")
}

/// Relies on `String::from_utf8_lossy`: decodes `b`, replacing what is not UTF-8.
#[verifier::external_body]
fn lossy_text(b: &[u8]) -> (r: String)
    ensures
        r@ == utf8_lossy(b@),
{
    String::from_utf8_lossy(b).into_owned()
}

/// Relies on `Debug` for `str`: quotes and escapes `s`.
#[verifier::external_body]
fn quoted(s: &str) -> (r: String)
    ensures
        r@ == debug_quoted(s@),
{
    format!("{s:?}")
}

/// The message of an error that is not an I/O error.
pub open spec fn error_text(e: Error) -> Seq<char> {
    match e {
        Error::UnexpectedStatusCode(o) => "Unexpected status code: "@ + signed_decimal(
            o@.status_code as int,
        ),
        _ => "Unable to get status code from `Command`"@,
    }
}

/// The detailed message of an error that is not an I/O error: for an
/// unexpected exit code, also both captured streams, decoded and quoted.
pub open spec fn error_debug_text(e: Error) -> Seq<char> {
    match e {
        Error::UnexpectedStatusCode(o) => "Unexpected status code: "@ + signed_decimal(
            o@.status_code as int,
        ) + " | stdout: "@ + debug_quoted(utf8_lossy(o@.stdout)) + " | stderr: "@ + debug_quoted(
            utf8_lossy(o@.stderr),
        ),
        _ => "Unable to get status code from `Command`"@,
    }
}

impl Error {
    /// The error's message; for an I/O error, that error's own.
    pub fn to_string(&self) -> (r: String)
        ensures
            !(self is Io) ==> r@ == error_text(*self),
    {
        match self {
            Error::Io(e) => io_error_text(e),
            Error::NoStatusCode => String::from_str("Unable to get status code from `Command`"),
            Error::UnexpectedStatusCode(o) => {
                let mut s = String::from_str("Unexpected status code: ");
                push_signed_decimal(&mut s, o.status_code);
                s
            },
        }
    }

    /// The error's detailed message; for an I/O error, that error's debug form.
    pub fn to_debug_string(&self) -> (r: String)
        ensures
            !(self is Io) ==> r@ == error_debug_text(*self),
    {
        match self {
            Error::Io(e) => io_error_debug_text(e),
            Error::NoStatusCode => String::from_str("Unable to get status code from `Command`"),
            Error::UnexpectedStatusCode(o) => {
                let mut s = String::from_str("Unexpected status code: ");
                push_signed_decimal(&mut s, o.status_code);
                s.append(" | stdout: ");
                let out = lossy_text(o.stdout.as_slice());
                s.append(quoted(out.as_str()).as_str());
                s.append(" | stderr: ");
                let err = lossy_text(o.stderr.as_slice());
                s.append(quoted(err.as_str()).as_str());
                s
            },
        }
    }
}

} // verus!
