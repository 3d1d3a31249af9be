//! The handle on one supervised caffeination process.
use vstd::prelude::*;
use vstd::string::*;
use crate::command::{Command, texts};
use crate::decimal::{decimal, to_decimal};

verus! {

/// A running child process, known by its process id. A background waiter
/// owns the process itself and reports its end as a message; the handle only
/// names it.
pub struct WaitingChild {
    id: u32,
}

/// The arguments that make `kill` end process `id` unconditionally.
pub open spec fn kill_args(id: u32) -> Seq<Seq<char>> {
    seq!["-9"@, decimal(id as nat)]
}

impl WaitingChild {
    /// The handle on the process `id`.
    pub fn new(id: u32) -> (r: Self)
        ensures
            r.id() == id,
    {
        WaitingChild { id }
    }

    /// The process id.
    pub closed spec fn id(&self) -> u32 {
        self.id
    }

    /// The process id.
    pub fn process_id(&self) -> (r: u32)
        ensures
            r == self.id(),
    {
        self.id
    }

    /// The command that sends the process a kill signal. Running it does not
    /// end the session: the waiter reports the end once the process is gone.
    pub fn kill(&self) -> (r: Command)
        ensures
            r@.program == "kill"@,
            r@.args == kill_args(self.id()),
    {
        let mut args: Vec<String> = Vec::new();
        args.push(String::from_str("-9"));
        args.push(to_decimal(self.id));
        let r = Command::new(String::from_str("kill"), args);
        assert(texts(args@) =~= kill_args(self.id));
        r
    }
}

} // verus!
