use vstd::prelude::*;
use crate::command::{command_accepted, rejection, tokens, InvalidCommand};
use crate::resize::ResizeRequest;
use crate::session::{observe, Action, ExecObserver};

verus! {

/// The parsed command line.
#[derive(Debug)]
pub struct Opts {
    pub subcmd: Cmd,
}

/// The two things the tool does.
#[derive(Debug)]
pub enum Cmd {
    /// Run a command in a container and inspect it.
    Inspect { container: String, cmd: Vec<String> },
    /// Resize the terminal of an exec session.
    Resize { exec_id: String, width: u64, height: u64 },
}

/// The work that a command line asks for.
#[derive(Debug)]
pub enum Plan {
    /// A run-and-observe, with its first action.
    Observe(ExecObserver, Action),
    /// One resize request.
    Resize(ResizeRequest),
}

/// How an invocation ended.
#[derive(Debug, Clone, PartialEq, Eq)]
pub enum Outcome {
    /// Everything asked for was done.
    Success,
    /// The command was refused before any engine call.
    Refused(InvalidCommand),
    /// The engine failed with this message.
    EngineFailed(String),
}

impl Opts {
    /// Decide what to do. Only the inspect path checks a command, and it does
    /// so before anything is sent; a resize is passed on as it stands.
    pub fn plan(self) -> (r: Result<Plan, InvalidCommand>)
        ensures
            self.subcmd matches Cmd::Inspect { container, cmd } ==> {
                &&& r is Ok <==> command_accepted(tokens(cmd@))
                &&& r matches Ok(Plan::Observe(o, a)) ==> o.wf() && o.phase is Creating
                    && o.request.container == container && o.request.cmd == cmd
                    && o.exec_id is None && a == Action::Create
                &&& r matches Err(e) ==> rejection(cmd@, e)
            },
            self.subcmd matches Cmd::Resize { exec_id, width, height } ==> r matches Ok(
                Plan::Resize(q),
            ) && q.exec_id == exec_id && q.width == width && q.height == height,
    {
        match self.subcmd {
            Cmd::Inspect { container, cmd } => match observe(container, cmd) {
                Ok((o, a)) => Ok(Plan::Observe(o, a)),
                Err(e) => Err(e),
            },
            Cmd::Resize { exec_id, width, height } => Ok(
                Plan::Resize(ResizeRequest::new(exec_id, width, height)),
            ),
        }
    }
}

impl Outcome {
    /// The process exit status: zero on success, one on any failure.
    pub fn exit_code(&self) -> (r: i32)
        ensures
            self is Success ==> r == 0,
            !(self is Success) ==> r == 1,
    {
        match self {
            Outcome::Success => 0,
            _ => 1,
        }
    }

    /// The outcome of a run that ended with `a`: success on `Finish`, the
    /// engine's message on `Abort`.
    pub fn of_action(a: Action) -> (r: Outcome)
        requires
            a is Finish || a is Abort,
        ensures
            a is Finish ==> r == Outcome::Success,
            a matches Action::Abort(m) ==> r == Outcome::EngineFailed(m),
    {
        match a {
            Action::Abort(m) => Outcome::EngineFailed(m),
            _ => Outcome::Success,
        }
    }
}

} // verus!
