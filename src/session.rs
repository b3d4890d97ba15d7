use vstd::prelude::*;
use crate::chunk::{render_chunk, shows, OutputChunk, OutputLine};
use crate::command::{command_accepted, rejection, tokens, validate, InvalidCommand};

verus! {

/// What the engine is asked to run: a command in a container, with standard
/// output and standard error attached and standard input not attached.
#[derive(Debug, Clone, PartialEq, Eq)]
pub struct ExecRequest {
    pub container: String,
    pub cmd: Vec<String>,
    pub attach_stdout: bool,
    pub attach_stderr: bool,
    pub attach_stdin: bool,
}

impl ExecRequest {
    /// The command passed the allow-list, and the attach flags are the fixed ones.
    pub open spec fn wf(&self) -> bool {
        &&& command_accepted(tokens(self.cmd@))
        &&& self.attach_stdout
        &&& self.attach_stderr
        &&& !self.attach_stdin
    }

    /// Build the request for `cmd` in `container`, after checking the command
    /// against the allow-list.
    pub fn new(container: String, cmd: Vec<String>) -> (r: Result<ExecRequest, InvalidCommand>)
        ensures
            r is Ok <==> command_accepted(tokens(cmd@)),
            r matches Ok(req) ==> req.wf() && req.container == container && req.cmd == cmd,
            r matches Err(e) ==> rejection(cmd@, e),
    {
        match validate(&cmd) {
            Ok(()) => Ok(
                ExecRequest {
                    container,
                    cmd,
                    attach_stdout: true,
                    attach_stderr: true,
                    attach_stdin: false,
                },
            ),
            Err(e) => Err(e),
        }
    }
}

/// A snapshot of an exec session's state as the engine reports it. The exit
/// code is there once the process has exited.
#[derive(Debug, Clone, Copy, PartialEq, Eq, Structural)]
pub struct ExecInspection {
    pub running: Option<bool>,
    pub exit_code: Option<i64>,
}

/// How far one run-and-observe has come. Each step leads to the next one
/// only, or to `Failed`; nothing leads back.
#[derive(Debug, Clone, Copy, PartialEq, Eq, Structural)]
pub enum Phase {
    /// The session is being created.
    Creating,
    /// The session exists; its first inspection is awaited.
    Created,
    /// Inspected once; the start is awaited.
    Starting,
    /// Started and attached; the first chunk is awaited.
    Started,
    /// The first chunk's line is being shown.
    Emitting,
    /// The first chunk is dealt with; the second inspection is awaited.
    FirstChunkObserved,
    /// Both inspections are done: the run is over.
    PostInspected,
    /// An engine call failed: the run is over.
    Failed,
}

/// What the engine (or the output) answered to the last action.
#[derive(Debug, Clone, PartialEq, Eq)]
pub enum Event {
    /// The session was created under this identifier.
    Created(String),
    /// An inspection returned this snapshot.
    Inspected(ExecInspection),
    /// The session started and its output is attached.
    Started,
    /// The first chunk of output arrived.
    Chunk(OutputChunk),
    /// The output ended, or could not be read, before any chunk arrived.
    NoChunk,
    /// The line of the first chunk was written.
    Emitted,
    /// An engine call failed with this message.
    Failed(String),
}

/// What to do next.
#[derive(Debug, Clone, PartialEq, Eq)]
pub enum Action {
    /// Create a session for the observer's request.
    Create,
    /// Inspect the session with this identifier.
    Inspect(String),
    /// Start the session with this identifier and attach to its output.
    Start(String),
    /// Read one chunk of the attached output, and no more.
    ReadChunk,
    /// Write this line to its channel.
    Emit(OutputLine),
    /// The run succeeded.
    Finish,
    /// The run failed with this engine message, passed on as it came.
    Abort(String),
}

/// The decisions of one run-and-observe: create a session, inspect it, start
/// it, show its first chunk of output, and inspect it again.
#[derive(Debug)]
pub struct ExecObserver {
    pub request: ExecRequest,
    pub phase: Phase,
    pub exec_id: Option<String>,
    pub before_start: Option<ExecInspection>,
    pub after_chunk: Option<ExecInspection>,
}

/// The phases in which the engine has handed out a session identifier.
pub open spec fn has_session(p: Phase) -> bool {
    !(p is Creating) && !(p is Failed)
}

/// The events that can answer the action taken in phase `p`. A standard input
/// chunk answers none: input is never attached.
pub open spec fn fits(p: Phase, ev: Event) -> bool {
    match ev {
        Event::Failed(_) => !(p is PostInspected) && !(p is Failed),
        Event::Created(_) => p is Creating,
        Event::Inspected(_) => p is Created || p is FirstChunkObserved,
        Event::Started => p is Starting,
        Event::Chunk(c) => p is Started && !(c is StdIn),
        Event::NoChunk => p is Started,
        Event::Emitted => p is Emitting,
    }
}

/// One step of the run: from `s`, event `ev` leads to `t` and action `a`.
pub open spec fn transition(s: ExecObserver, ev: Event, t: ExecObserver, a: Action) -> bool {
    match ev {
        Event::Failed(msg) => t == (ExecObserver { phase: Phase::Failed, ..s }) && a
            == Action::Abort(msg),
        Event::Created(id) => s.phase is Creating && t == (ExecObserver {
            phase: Phase::Created,
            exec_id: Some(id),
            ..s
        }) && a == Action::Inspect(id),
        Event::Inspected(x) => if s.phase is Created {
            t == (ExecObserver { phase: Phase::Starting, before_start: Some(x), ..s }) && a
                == Action::Start(s.exec_id->0)
        } else {
            s.phase is FirstChunkObserved && t == (ExecObserver {
                phase: Phase::PostInspected,
                after_chunk: Some(x),
                ..s
            }) && a == Action::Finish
        },
        Event::Started => s.phase is Starting && t == (ExecObserver {
            phase: Phase::Started,
            ..s
        }) && a == Action::ReadChunk,
        Event::Chunk(c) => s.phase is Started && t == (ExecObserver {
            phase: Phase::Emitting,
            ..s
        }) && (a matches Action::Emit(line) && shows(c, line)),
        Event::NoChunk => s.phase is Started && t == (ExecObserver {
            phase: Phase::FirstChunkObserved,
            ..s
        }) && a == Action::Inspect(s.exec_id->0),
        Event::Emitted => s.phase is Emitting && t == (ExecObserver {
            phase: Phase::FirstChunkObserved,
            ..s
        }) && a == Action::Inspect(s.exec_id->0),
    }
}

impl ExecObserver {
    /// The request is an accepted one, and a session identifier is held from
    /// creation on.
    pub open spec fn wf(&self) -> bool {
        &&& self.request.wf()
        &&& has_session(self.phase) ==> self.exec_id is Some
    }

    /// A run for an accepted request; its first action creates the session.
    /// Every run asks for a session of its own: none is looked up or reused.
    pub fn new(request: ExecRequest) -> (r: (ExecObserver, Action))
        requires
            request.wf(),
        ensures
            r.0.wf(),
            r.0 == (ExecObserver {
                request,
                phase: Phase::Creating,
                exec_id: None,
                before_start: None,
                after_chunk: None,
            }),
            r.1 == Action::Create,
    {
        let o = ExecObserver {
            request,
            phase: Phase::Creating,
            exec_id: None,
            before_start: None,
            after_chunk: None,
        };
        (o, Action::Create)
    }

    /// Whether `ev` answers the action taken in the current phase.
    pub fn accepts(&self, ev: &Event) -> (r: bool)
        ensures
            r == fits(self.phase, *ev),
    {
        match ev {
            Event::Failed(_) => !matches!(self.phase, Phase::PostInspected | Phase::Failed),
            Event::Created(_) => matches!(self.phase, Phase::Creating),
            Event::Inspected(_) => matches!(self.phase, Phase::Created | Phase::FirstChunkObserved),
            Event::Started => matches!(self.phase, Phase::Starting),
            Event::Chunk(c) => matches!(self.phase, Phase::Started) && !matches!(c, OutputChunk::StdIn(_)),
            Event::NoChunk => matches!(self.phase, Phase::Started),
            Event::Emitted => matches!(self.phase, Phase::Emitting),
        }
    }

    /// Whether the run is over, by success or by failure.
    pub fn is_finished(&self) -> (r: bool)
        ensures
            r == (self.phase is PostInspected || self.phase is Failed),
    {
        matches!(self.phase, Phase::PostInspected | Phase::Failed)
    }

    fn session_id(&self) -> (r: String)
        requires
            self.wf(),
            has_session(self.phase),
        ensures
            r == self.exec_id->0,
    {
        match &self.exec_id {
            Some(id) => id.clone(),
            None => unreached(),
        }
    }

    /// Advance the run by one event and say what to do next.
    pub fn step(&mut self, ev: Event) -> (a: Action)
        requires
            old(self).wf(),
            fits(old(self).phase, ev),
        ensures
            final(self).wf(),
            transition(*old(self), ev, *final(self), a),
    {
        match ev {
            Event::Failed(msg) => {
                self.phase = Phase::Failed;
                Action::Abort(msg)
            },
            Event::Created(id) => {
                let a = Action::Inspect(id.clone());
                self.phase = Phase::Created;
                self.exec_id = Some(id);
                a
            },
            Event::Inspected(x) => {
                if matches!(self.phase, Phase::Created) {
                    let id = self.session_id();
                    self.phase = Phase::Starting;
                    self.before_start = Some(x);
                    Action::Start(id)
                } else {
                    self.phase = Phase::PostInspected;
                    self.after_chunk = Some(x);
                    Action::Finish
                }
            },
            Event::Started => {
                self.phase = Phase::Started;
                Action::ReadChunk
            },
            Event::Chunk(c) => {
                let line = render_chunk(&c);
                self.phase = Phase::Emitting;
                Action::Emit(line)
            },
            Event::NoChunk => {
                let id = self.session_id();
                self.phase = Phase::FirstChunkObserved;
                Action::Inspect(id)
            },
            Event::Emitted => {
                let id = self.session_id();
                self.phase = Phase::FirstChunkObserved;
                Action::Inspect(id)
            },
        }
    }
}

/// Start a run for `cmd` in `container`. The command is checked first: a
/// refused command gives its error and no run, so no engine call is ever made
/// for it.
pub fn observe(container: String, cmd: Vec<String>) -> (r: Result<(ExecObserver, Action), InvalidCommand>)
    ensures
        r is Ok <==> command_accepted(tokens(cmd@)),
        r matches Ok(p) ==> p.0.wf() && p.0.phase is Creating && p.0.request.container == container
            && p.0.request.cmd == cmd && p.0.exec_id is None && p.1 == Action::Create,
        r matches Err(e) ==> rejection(cmd@, e),
{
    match ExecRequest::new(container, cmd) {
        Ok(req) => Ok(ExecObserver::new(req)),
        Err(e) => Err(e),
    }
}

/// Sessions are never shared: two runs for the same container and command
/// each ask the engine for a session, and each keeps the identifier that the
/// engine handed to it, so distinct identifiers from the engine stay distinct.
pub proof fn lemma_sessions_not_shared(
    s1: ExecObserver,
    s2: ExecObserver,
    id1: String,
    id2: String,
    t1: ExecObserver,
    t2: ExecObserver,
    a1: Action,
    a2: Action,
)
    requires
        s1.phase is Creating,
        s2.phase is Creating,
        s1.request == s2.request,
        transition(s1, Event::Created(id1), t1, a1),
        transition(s2, Event::Created(id2), t2, a2),
        id1@ != id2@,
    ensures
        t1.exec_id == Some(id1),
        t2.exec_id == Some(id2),
        t1.exec_id != t2.exec_id,
        a1 == Action::Inspect(id1),
        a2 == Action::Inspect(id2),
        a1 != a2,
{
}

} // verus!
