//! State machine and process supervision for a two-mode desktop utility.
use vstd::prelude::*;
use vstd::string::*;

pub mod app_state;
pub mod application;
pub mod command;
pub mod config;
pub mod decimal;
pub mod program;
pub mod waiting_child;

pub use app_state::{Action, AppState, Mode, StateChangeMessage};
pub use application::Application;
pub use config::Config;
use command::texts;
use program::{Program, ProgramImpl};

verus! {

/// Why the Dock's autohide setting could not be read.
pub enum DockError {
    /// Running the query failed.
    Program(program::Error),
    /// The answer was not one character and a newline.
    UnexpectedLength,
    /// The answer's character was neither `0` nor `1`.
    UnexpectedDigit(u8),
}

/// The query that prints the Dock's autohide setting.
pub fn dock_autohide_query() -> (r: command::Command)
    ensures
        r@.program == "defaults"@,
        r@.args == seq!["read"@, "com.apple.dock"@, "autohide"@],
{
    let mut args: Vec<String> = Vec::new();
    args.push(String::from_str("read"));
    args.push(String::from_str("com.apple.dock"));
    args.push(String::from_str("autohide"));
    let r = command::Command::new(String::from_str("defaults"), args);
    assert(texts(args@) =~= seq!["read"@, "com.apple.dock"@, "autohide"@]);
    r
}

/// Reads the autohide setting from what the query printed: `1` means the
/// Dock hides itself, `0` that it does not.
pub fn autohide_from_stdout(stdout: &[u8]) -> (r: Result<bool, DockError>)
    ensures
        stdout@.len() != 2 ==> r is Err && r->Err_0 is UnexpectedLength,
        stdout@.len() == 2 ==> match r {
            Ok(b) => (stdout@[0] == 0x31u8 && b) || (stdout@[0] == 0x30u8 && !b),
            Err(e) => (e matches DockError::UnexpectedDigit(d) && d == stdout@[0]
                && d != 0x30u8 && d != 0x31u8),
        },
{
    if stdout.len() != 2 {
        return Err(DockError::UnexpectedLength);
    }
    let digit = stdout[0];
    if digit == 0x30u8 {
        Ok(false)
    } else if digit == 0x31u8 {
        Ok(true)
    } else {
        Err(DockError::UnexpectedDigit(digit))
    }
}

/// Whether the Dock hides itself, by running `defaults`, the query of
/// `dock_autohide_query`, and reading its answer.
pub fn dock_autohide<C: program::Command>(defaults: C) -> (r: Result<bool, DockError>)
    ensures
        r is Err && r->Err_0 is Program ==> !(r->Err_0->Program_0 is UnexpectedStatusCode)
            || r->Err_0->Program_0->UnexpectedStatusCode_0@.status_code != 0,
{
    let mut program = ProgramImpl::new(defaults, 0);
    match program.execute() {
        Err(e) => Err(DockError::Program(e)),
        Ok(output) => autohide_from_stdout(output.stdout()),
    }
}

} // verus!
