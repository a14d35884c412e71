//! The client of one adapter session: the sequence counter, the captured
//! capabilities, the phase of the session and the cache of thread states.
//!
//! A command is issued in two steps. The client first decides whether the
//! phase allows the command, gives it the next sequence number and hands the
//! request out; the host sends it and waits. What the host receives goes to
//! the functions of `reply`, or, where the answer changes what the client
//! holds, to the client: `initialized` for the answer to `initialize`,
//! `resumed` and `stepped` for the answers to a resume and to a step.
//!
//! Issuing a request never writes to the cache of thread states. An entry
//! changes when an event is taken in, when the answer to a resume or a step
//! reports success, or when the host writes what it fetched.
//!
//! The session moves forward only:
//! `Uninitialized`, `Initializing`, `Initialized`, `Configuring`, then
//! `Running` and `Stopped` in turns, and `Ended`.

use crate::config::{DebugAdapterConfig, DebugRequestType};
use crate::json::json_null;
use crate::protocol::{
    introduces, Arguments, Command, Events, NamedRequest, Payload, Request, Response, Source,
    SteppingGranularity, ThreadReason,
};
use crate::reply::{
    acknowledged, acknowledges, capabilities_of, continued, continues, reads_capabilities,
    RequestError,
};
use crate::router::{deliver, delivered, first_stray, Delivery};
use crate::thread_state::{ThreadState, ThreadStateView, ThreadStates, ThreadStatus, UnknownThread};
use vstd::prelude::*;

verus! {

/// Tells the sessions of concurrently running adapters apart.
#[derive(Copy, Clone, Debug, PartialEq, Eq, Structural, PartialOrd, Ord, Hash)]
pub struct DebugAdapterClientId(pub usize);

/// How far a session has come.
#[derive(Copy, Clone, Debug, PartialEq, Eq, Structural, Hash)]
pub enum SessionPhase {
    /// Nothing was sent yet.
    Uninitialized,
    /// `initialize` was sent and its answer is awaited.
    Initializing,
    /// The adapter's capabilities are known.
    Initialized,
    /// `launch` or `attach` was sent; breakpoints may be set.
    Configuring,
    /// `configurationDone` was sent; the debuggee runs.
    Running,
    /// The adapter reported a stop.
    Stopped,
    /// The debuggee exited, the adapter terminated, or `initialize` failed.
    Ended,
}

/// Why a command was not issued.
#[derive(Copy, Clone, Debug, PartialEq, Eq, Structural)]
pub enum IssueError {
    /// The session is in a phase that does not allow the command.
    WrongPhase(SessionPhase),
    /// Every sequence number was given out.
    SequenceExhausted,
}

/// Whether a session in `phase` may send `command`.
pub open spec fn allows(phase: SessionPhase, command: Command) -> bool {
    match command {
        Command::Initialize => phase == SessionPhase::Uninitialized,
        Command::Launch | Command::Attach => phase == SessionPhase::Initialized,
        Command::SetBreakpoints | Command::ConfigurationDone => phase == SessionPhase::Configuring,
        Command::Continue
        | Command::Next
        | Command::StepIn
        | Command::StepOut
        | Command::StepBack
        | Command::Pause => phase == SessionPhase::Running || phase == SessionPhase::Stopped,
    }
}

/// The phase of a session that was in `phase` and has sent `command`.
pub open spec fn phase_after(phase: SessionPhase, command: Command) -> SessionPhase {
    match command {
        Command::Initialize => SessionPhase::Initializing,
        Command::Launch | Command::Attach => SessionPhase::Configuring,
        Command::ConfigurationDone => SessionPhase::Running,
        Command::Continue
        | Command::Next
        | Command::StepIn
        | Command::StepOut
        | Command::StepBack => SessionPhase::Running,
        Command::SetBreakpoints | Command::Pause => phase,
    }
}

/// The cache `threads` with the status of `thread_id` set, where that thread
/// has an entry.
pub open spec fn with_thread_status(
    threads: Map<u64, ThreadStateView>,
    thread_id: u64,
    status: ThreadStatus,
) -> Map<u64, ThreadStateView> {
    if threads.contains_key(thread_id) {
        threads.insert(thread_id, ThreadStateView { status, ..threads[thread_id] })
    } else {
        threads
    }
}

/// Whether the capabilities were captured by the time a session is in
/// `phase`.
pub open spec fn past_initialize(phase: SessionPhase) -> bool {
    phase == SessionPhase::Initialized || phase == SessionPhase::Configuring || phase
        == SessionPhase::Running || phase == SessionPhase::Stopped
}

/// What a client holds, as mathematics.
pub struct ClientView {
    pub id: DebugAdapterClientId,
    pub config: DebugAdapterConfig,
    /// The sequence number that the next request gets. Every number below it
    /// was given out, and none at or above it.
    pub next_seq: u64,
    pub capabilities: Option<dap_types::Capabilities>,
    pub phase: SessionPhase,
    pub threads: Map<u64, ThreadStateView>,
}

impl ClientView {
    /// Why `command` cannot be issued, where it cannot.
    pub open spec fn refusal(self, command: Command) -> Option<IssueError> {
        if !allows(self.phase, command) {
            Some(IssueError::WrongPhase(self.phase))
        } else if self.next_seq == u64::MAX {
            Some(IssueError::SequenceExhausted)
        } else {
            None
        }
    }

    /// The client once a request with `arguments` was issued: the next
    /// sequence number is spent and the phase has moved on. Nothing else
    /// changes; the cache of thread states is left to the events and answers
    /// of the adapter.
    pub open spec fn after_request(self, arguments: Arguments) -> ClientView {
        ClientView {
            next_seq: (self.next_seq + 1) as u64,
            phase: phase_after(self.phase, arguments.spec_command()),
            ..self
        }
    }

    /// Why a command given by its name cannot be issued, where it cannot:
    /// such a command waits for a live session.
    pub open spec fn named_refusal(self) -> Option<IssueError> {
        if !self.is_live() {
            Some(IssueError::WrongPhase(self.phase))
        } else if self.next_seq == u64::MAX {
            Some(IssueError::SequenceExhausted)
        } else {
            None
        }
    }

    /// The client once a command given by its name was issued: the next
    /// sequence number is spent, and nothing else changes.
    pub open spec fn after_named_request(self) -> ClientView {
        ClientView { next_seq: (self.next_seq + 1) as u64, ..self }
    }

    /// The client once the answer to a request that resumes `thread_id` was
    /// taken in: on success a cached thread is marked as running, on failure
    /// nothing changes.
    pub open spec fn after_resume_answer(self, thread_id: u64, succeeded: bool) -> ClientView {
        if succeeded {
            ClientView {
                threads: with_thread_status(self.threads, thread_id, ThreadStatus::Running),
                ..self
            }
        } else {
            self
        }
    }

    /// Whether `done` and `after` are what an update of the cached entry of
    /// `thread_id` to `entry` gives: the entry replaced and all else as it
    /// was, or, for a thread without an entry, the refusal and nothing
    /// changed.
    pub open spec fn entry_set(
        self,
        thread_id: u64,
        entry: ThreadStateView,
        done: Result<(), UnknownThread>,
        after: ClientView,
    ) -> bool {
        if self.threads.contains_key(thread_id) {
            done is Ok && after == (ClientView {
                threads: self.threads.insert(thread_id, entry),
                ..self
            })
        } else {
            done == Err::<(), UnknownThread>(UnknownThread { thread_id }) && after == self
        }
    }

    /// The arguments of `setBreakpoints` for the file at `path`, as a client
    /// with this configuration sends them.
    pub open spec fn breakpoints_for(
        self,
        path: String,
        breakpoints: Option<Vec<dap_types::SourceBreakpoint>>,
    ) -> Arguments {
        Arguments::SetBreakpoints {
            source: Source {
                path: Some(path),
                adapter_data: match self.config.request_args {
                    Some(request_args) => Some(request_args.args),
                    None => None,
                },
            },
            breakpoints,
            lines: None,
            source_modified: None,
        }
    }

    /// Whether `result` and `after` are what issuing `command` gives: the
    /// refusal and an unchanged client, or a request of that command under
    /// the next sequence number.
    pub open spec fn issued(
        self,
        command: Command,
        result: Result<Request, IssueError>,
        after: ClientView,
    ) -> bool {
        match self.refusal(command) {
            Some(e) => result == Err::<Request, IssueError>(e) && after == self,
            None => {
                &&& result is Ok
                &&& result->Ok_0.seq == self.next_seq
                &&& result->Ok_0.arguments.spec_command() == command
                &&& after == self.after_request(result->Ok_0.arguments)
            },
        }
    }

    /// Whether `result` and `after` are what issuing a request with exactly
    /// these `arguments` gives.
    pub open spec fn requested(
        self,
        arguments: Arguments,
        result: Result<Request, IssueError>,
        after: ClientView,
    ) -> bool {
        match self.refusal(arguments.spec_command()) {
            Some(e) => result == Err::<Request, IssueError>(e) && after == self,
            None => result == Ok::<Request, IssueError>(Request { seq: self.next_seq, arguments })
                && after == self.after_request(arguments),
        }
    }

    /// What holds of every client: the capabilities are there once the
    /// session is past `initialize`, and not before its answer came.
    pub open spec fn well_formed(self) -> bool {
        &&& past_initialize(self.phase) ==> self.capabilities is Some
        &&& self.phase == SessionPhase::Uninitialized || self.phase == SessionPhase::Initializing
            ==> self.capabilities is None
    }

    /// Whether the session is between `configurationDone` and its end.
    pub open spec fn is_live(self) -> bool {
        self.phase == SessionPhase::Running || self.phase == SessionPhase::Stopped
    }

    /// The client once it has taken in `event`.
    ///
    /// A stop gives its thread an empty entry, whatever the phase; a
    /// continuation sets the status of a cached thread; the exit of a thread
    /// takes its entry away; the end of the debuggee or of the adapter ends
    /// the session and empties the cache. The phase follows a stop or a
    /// continuation only in a live session.
    pub open spec fn after_event(self, event: Events) -> ClientView {
        match event {
            Events::Stopped { thread_id, .. } => ClientView {
                phase: if self.is_live() {
                    SessionPhase::Stopped
                } else {
                    self.phase
                },
                threads: match thread_id {
                    Some(id) => self.threads.insert(
                        id,
                        ThreadStateView::fresh(ThreadStatus::Stopped),
                    ),
                    None => self.threads,
                },
                ..self
            },
            Events::Continued { thread_id, .. } => ClientView {
                phase: if self.is_live() {
                    SessionPhase::Running
                } else {
                    self.phase
                },
                threads: with_thread_status(self.threads, thread_id, ThreadStatus::Running),
                ..self
            },
            Events::Thread { reason: ThreadReason::Exited, thread_id } => ClientView {
                threads: self.threads.remove(thread_id),
                ..self
            },
            Events::Exited { .. } | Events::Terminated => ClientView {
                phase: SessionPhase::Ended,
                threads: Map::empty(),
                ..self
            },
            _ => self,
        }
    }

    /// The client once it has taken in each of `events` in turn.
    pub open spec fn after_events(self, events: Seq<Events>) -> ClientView
        decreases events.len(),
    {
        if events.len() == 0 {
            self
        } else {
            self.after_events(events.drop_last()).after_event(events.last())
        }
    }
}

/// The client of one adapter session.
pub struct DebugAdapterClient {
    id: DebugAdapterClientId,
    config: DebugAdapterConfig,
    request_count: u64,
    capabilities: Option<dap_types::Capabilities>,
    phase: SessionPhase,
    thread_states: ThreadStates,
}

impl View for DebugAdapterClient {
    type V = ClientView;

    closed spec fn view(&self) -> ClientView {
        ClientView {
            id: self.id,
            config: self.config,
            next_seq: self.request_count,
            capabilities: self.capabilities,
            phase: self.phase,
            threads: self.thread_states@,
        }
    }
}

impl DebugAdapterClient {
    /// A client for a session that has not begun.
    pub fn new(id: DebugAdapterClientId, config: DebugAdapterConfig) -> (client: Self)
        ensures
            client@ == (ClientView {
                id,
                config,
                next_seq: 0,
                capabilities: None,
                phase: SessionPhase::Uninitialized,
                threads: Map::empty(),
            }),
            client@.well_formed(),
    {
        DebugAdapterClient {
            id,
            config,
            request_count: 0,
            capabilities: None,
            phase: SessionPhase::Uninitialized,
            thread_states: ThreadStates::new(),
        }
    }

    /// A client for a session that has not begun, whose first request gets
    /// the sequence number `first`: for a host that keeps one numbering over
    /// several connections to an adapter.
    pub fn with_first_sequence_number(
        id: DebugAdapterClientId,
        config: DebugAdapterConfig,
        first: u64,
    ) -> (client: Self)
        ensures
            client@ == (ClientView {
                id,
                config,
                next_seq: first,
                capabilities: None,
                phase: SessionPhase::Uninitialized,
                threads: Map::empty(),
            }),
            client@.well_formed(),
    {
        DebugAdapterClient {
            id,
            config,
            request_count: first,
            capabilities: None,
            phase: SessionPhase::Uninitialized,
            thread_states: ThreadStates::new(),
        }
    }

    pub fn id(&self) -> (id: DebugAdapterClientId)
        ensures
            id == self@.id,
    {
        self.id
    }

    pub fn config(&self) -> (config: &DebugAdapterConfig)
        ensures
            *config == self@.config,
    {
        &self.config
    }

    /// Whether this session launches the debuggee or attaches to it.
    pub fn request_type(&self) -> (request: DebugRequestType)
        ensures
            request == self@.config.request,
    {
        self.config.request
    }

    pub fn phase(&self) -> (phase: SessionPhase)
        ensures
            phase == self@.phase,
    {
        self.phase
    }

    /// The capabilities that the adapter reported, once it has.
    pub fn capabilities(&self) -> (capabilities: Option<&dap_types::Capabilities>)
        ensures
            capabilities is Some <==> self@.capabilities is Some,
            capabilities matches Some(c) ==> Some(*c) == self@.capabilities,
    {
        self.capabilities.as_ref()
    }

    /// Gives out the next sequence number. The numbers of one client rise by
    /// one from its first; once the last was given out there is none.
    pub fn next_request_id(&mut self) -> (seq: Option<u64>)
        ensures
            old(self)@.next_seq < u64::MAX ==> seq == Some(old(self)@.next_seq) && final(self)@ == (
            ClientView { next_seq: (old(self)@.next_seq + 1) as u64, ..old(self)@ }),
            old(self)@.next_seq == u64::MAX ==> seq is None && final(self)@ == old(self)@,
    {
        if self.request_count < u64::MAX {
            let seq = self.request_count;
            self.request_count = seq + 1;
            Some(seq)
        } else {
            None
        }
    }

    /// The cache of thread states.
    pub fn thread_states(&self) -> (cache: &ThreadStates)
        ensures
            cache@ == self@.threads,
    {
        &self.thread_states
    }

    /// The cached state of `thread_id`, or `UnknownThread` where the adapter
    /// never reported a stop of that thread.
    pub fn thread_state_by_id(&self, thread_id: u64) -> (found: Result<&ThreadState, UnknownThread>)
        ensures
            self@.threads.contains_key(thread_id) ==> (found matches Ok(state) && state@
                == self@.threads[thread_id]),
            !self@.threads.contains_key(thread_id) ==> found == Err::<&ThreadState, UnknownThread>(
                UnknownThread { thread_id },
            ),
    {
        self.thread_states.thread_state_by_id(thread_id)
    }

    /// Sets the status of a cached thread. For a thread without an entry
    /// nothing changes.
    pub fn update_thread_state_status(&mut self, thread_id: u64, status: ThreadStatus)
        ensures
            final(self)@ == (ClientView {
                threads: with_thread_status(old(self)@.threads, thread_id, status),
                ..old(self)@
            }),
    {
        self.thread_states.update_thread_state_status(thread_id, status);
    }

    /// Replaces the cached stack of a known thread, as the answer to a
    /// stack trace gave it, and leaves the rest of its entry as it was. For a
    /// thread without an entry the update is refused and nothing changes.
    pub fn set_stack_frames(&mut self, thread_id: u64, frames: Vec<dap_types::StackFrame>) -> (done:
        Result<(), UnknownThread>)
        ensures
            old(self)@.entry_set(
                thread_id,
                ThreadStateView { stack_frames: frames@, ..old(self)@.threads[thread_id] },
                done,
                final(self)@,
            ),
    {
        self.thread_states.set_stack_frames(thread_id, frames)
    }

    /// Names the stack frame that a known thread is looked at in, and leaves
    /// the rest of its entry as it was. For a thread without an entry the
    /// update is refused and nothing changes.
    pub fn set_current_stack_frame(&mut self, thread_id: u64, frame_id: Option<u64>) -> (done: Result<
        (),
        UnknownThread,
    >)
        ensures
            old(self)@.entry_set(
                thread_id,
                ThreadStateView {
                    current_stack_frame_id: frame_id,
                    ..old(self)@.threads[thread_id]
                },
                done,
                final(self)@,
            ),
    {
        self.thread_states.set_current_stack_frame(thread_id, frame_id)
    }

    /// Caches the scopes of one stack frame of a known thread, in place of
    /// what was cached for that frame, and leaves the rest of its entry as it
    /// was. For a thread without an entry the update is refused and nothing
    /// changes.
    pub fn set_scopes(&mut self, thread_id: u64, frame_id: u64, scopes: Vec<dap_types::Scope>) -> (done:
        Result<(), UnknownThread>)
        ensures
            old(self)@.entry_set(
                thread_id,
                ThreadStateView {
                    scopes: old(self)@.threads[thread_id].scopes.insert(frame_id, scopes@),
                    ..old(self)@.threads[thread_id]
                },
                done,
                final(self)@,
            ),
    {
        self.thread_states.set_scopes(thread_id, frame_id, scopes)
    }

    /// Caches the variables under one reference of a known thread, in place
    /// of what was cached under that reference, and leaves the rest of its
    /// entry as it was. For a thread without an entry the update is refused
    /// and nothing changes.
    pub fn set_variables(
        &mut self,
        thread_id: u64,
        reference: u64,
        variables: Vec<dap_types::Variable>,
    ) -> (done: Result<(), UnknownThread>)
        ensures
            old(self)@.entry_set(
                thread_id,
                ThreadStateView {
                    variables: old(self)@.threads[thread_id].variables.insert(
                        reference,
                        variables@,
                    ),
                    ..old(self)@.threads[thread_id]
                },
                done,
                final(self)@,
            ),
    {
        self.thread_states.set_variables(thread_id, reference, variables)
    }

    /// Whether a session in `phase` may send `command`.
    pub fn may_send(phase: SessionPhase, command: Command) -> (allowed: bool)
        ensures
            allowed == allows(phase, command),
    {
        match command {
            Command::Initialize => matches!(phase, SessionPhase::Uninitialized),
            Command::Launch | Command::Attach => matches!(phase, SessionPhase::Initialized),
            Command::SetBreakpoints | Command::ConfigurationDone => matches!(
                phase,
                SessionPhase::Configuring
            ),
            Command::Continue
            | Command::Next
            | Command::StepIn
            | Command::StepOut
            | Command::StepBack
            | Command::Pause => matches!(phase, SessionPhase::Running | SessionPhase::Stopped),
        }
    }

    /// Issues a request: where the phase allows its command and a sequence
    /// number is left, the request goes out under the next number and the
    /// phase moves on as the command asks. Otherwise nothing changes. The
    /// cache of thread states is never touched.
    pub fn request(&mut self, arguments: Arguments) -> (result: Result<Request, IssueError>)
        ensures
            old(self)@.requested(arguments, result, final(self)@),
    {
        let command = arguments.command();
        if !Self::may_send(self.phase, command) {
            return Err(IssueError::WrongPhase(self.phase));
        }
        if self.request_count == u64::MAX {
            return Err(IssueError::SequenceExhausted);
        }
        let seq = self.request_count;
        self.request_count = seq + 1;
        match command {
            Command::Initialize => {
                self.phase = SessionPhase::Initializing;
            },
            Command::Launch | Command::Attach => {
                self.phase = SessionPhase::Configuring;
            },
            Command::ConfigurationDone
            | Command::Continue
            | Command::Next
            | Command::StepIn
            | Command::StepOut
            | Command::StepBack => {
                self.phase = SessionPhase::Running;
            },
            Command::SetBreakpoints | Command::Pause => {},
        }
        Ok(Request { seq, arguments })
    }

    /// Issues a command that this client has no function of its own for,
    /// by its name and with its arguments already serialised: `stackTrace`,
    /// `scopes`, `variables` and the like, whose answers the host reads and
    /// writes to the cache. In a live session with a sequence number left the
    /// request goes out under the next number; the phase and the cache stay
    /// as they are. Otherwise nothing changes.
    pub fn request_by_name(&mut self, command: String, arguments: Option<serde_json::Value>) -> (result:
        Result<NamedRequest, IssueError>)
        ensures
            match old(self)@.named_refusal() {
                Some(e) => result == Err::<NamedRequest, IssueError>(e) && final(self)@ == old(
                    self,
                )@,
                None => result == Ok::<NamedRequest, IssueError>(
                    NamedRequest { seq: old(self)@.next_seq, command, arguments },
                ) && final(self)@ == old(self)@.after_named_request(),
            },
    {
        if !matches!(self.phase, SessionPhase::Running | SessionPhase::Stopped) {
            return Err(IssueError::WrongPhase(self.phase));
        }
        if self.request_count == u64::MAX {
            return Err(IssueError::SequenceExhausted);
        }
        let seq = self.request_count;
        self.request_count = seq + 1;
        Ok(NamedRequest { seq, command, arguments })
    }

    /// The arguments of `initialize` for this session's adapter.
    pub fn initialize_arguments(&self) -> (arguments: Arguments)
        ensures
            arguments is Initialize,
            introduces(arguments->Initialize_0, self@.config.id@),
    {
        Arguments::initialize(self.config.id.clone())
    }

    /// The arguments of `setBreakpoints` for the file at `path`. The
    /// adapter's own data from the configuration travels with the source.
    pub fn set_breakpoints_arguments(
        &self,
        path: String,
        breakpoints: Option<Vec<dap_types::SourceBreakpoint>>,
    ) -> (arguments: Arguments)
        ensures
            arguments == self@.breakpoints_for(path, breakpoints),
    {
        let adapter_data = match &self.config.request_args {
            Some(request_args) => Some(request_args.args.clone()),
            None => None,
        };
        Arguments::set_breakpoints(path, adapter_data, breakpoints)
    }

    /// Issues `initialize`, the first request of a session and sent once.
    pub fn initialize(&mut self) -> (result: Result<Request, IssueError>)
        ensures
            old(self)@.issued(Command::Initialize, result, final(self)@),
            result matches Ok(request) ==> (request.arguments matches Arguments::Initialize(
                arguments,
            ) && introduces(arguments, old(self)@.config.id@)),
    {
        let arguments = self.initialize_arguments();
        self.request(arguments)
    }

    /// Takes in the answer to `initialize`. On success the capabilities are
    /// captured, once and for the rest of the session, and the session is
    /// initialized. On any failure the session has ended. An answer that
    /// comes while no `initialize` is awaited changes nothing.
    pub fn initialized(&mut self, reply: Option<Response>) -> (result: Result<
        dap_types::Capabilities,
        RequestError,
    >)
        ensures
            old(self)@.phase != SessionPhase::Initializing ==> result == Err::<
                dap_types::Capabilities,
                RequestError,
            >(RequestError::NotAwaited) && final(self)@ == old(self)@,
            old(self)@.phase == SessionPhase::Initializing ==> reads_capabilities(reply, result),
            old(self)@.phase == SessionPhase::Initializing ==> final(self)@ == match result {
                Ok(capabilities) => ClientView {
                    capabilities: Some(capabilities),
                    phase: SessionPhase::Initialized,
                    ..old(self)@
                },
                Err(_) => ClientView { phase: SessionPhase::Ended, ..old(self)@ },
            },
    {
        if !matches!(self.phase, SessionPhase::Initializing) {
            return Err(RequestError::NotAwaited);
        }
        match capabilities_of(reply) {
            Ok(capabilities) => {
                self.capabilities = Some(capabilities.clone());
                self.phase = SessionPhase::Initialized;
                Ok(capabilities)
            },
            Err(e) => {
                self.phase = SessionPhase::Ended;
                Err(e)
            },
        }
    }

    /// Issues `launch` with the adapter's own arguments, or with `null`
    /// where there are none.
    pub fn launch(&mut self, args: Option<serde_json::Value>) -> (result: Result<Request, IssueError>)
        ensures
            old(self)@.issued(Command::Launch, result, final(self)@),
            result matches Ok(request) ==> (request.arguments matches Arguments::Launch { raw } && (
            args matches Some(given) ==> raw == given) && (args is None ==> json_null(raw))),
    {
        self.request(Arguments::launch(args))
    }

    /// Issues `attach` with the adapter's own arguments, or with `null`
    /// where there are none.
    pub fn attach(&mut self, args: Option<serde_json::Value>) -> (result: Result<Request, IssueError>)
        ensures
            old(self)@.issued(Command::Attach, result, final(self)@),
            result matches Ok(request) ==> (request.arguments matches Arguments::Attach { raw } && (
            args matches Some(given) ==> raw == given) && (args is None ==> json_null(raw))),
    {
        self.request(Arguments::attach(args))
    }

    /// Issues `continue` for one thread.
    pub fn resume(&mut self, thread_id: u64) -> (result: Result<Request, IssueError>)
        ensures
            old(self)@.requested(
                Arguments::Continue { thread_id, single_thread: Some(true) },
                result,
                final(self)@,
            ),
    {
        self.request(Arguments::resume(thread_id))
    }

    /// Takes in the answer to `continue` for `thread_id`. On success the
    /// thread, where it is cached, is marked as running; on any failure the
    /// cache stays as it was, for the host to log and go on.
    pub fn resumed(&mut self, thread_id: u64, reply: Option<Response>) -> (result: Result<
        Option<bool>,
        RequestError,
    >)
        ensures
            continues(reply, result),
            final(self)@ == old(self)@.after_resume_answer(thread_id, result is Ok),
    {
        let result = continued(reply);
        if result.is_ok() {
            self.thread_states.update_thread_state_status(thread_id, ThreadStatus::Running);
        }
        result
    }

    /// Takes in the answer to a step of `thread_id`: to `next`, `stepIn`,
    /// `stepOut` or `stepBack`. On success the thread, where it is cached, is
    /// marked as running until the adapter reports the stop that ends the
    /// step; on any failure the cache stays as it was.
    pub fn stepped(&mut self, thread_id: u64, reply: Option<Response>) -> (result: Result<
        (),
        RequestError,
    >)
        ensures
            acknowledges(reply, result),
            final(self)@ == old(self)@.after_resume_answer(thread_id, result is Ok),
    {
        let result = acknowledged(reply);
        if result.is_ok() {
            self.thread_states.update_thread_state_status(thread_id, ThreadStatus::Running);
        }
        result
    }

    /// Issues `next`: one statement further in one thread, over calls.
    pub fn step_over(&mut self, thread_id: u64) -> (result: Result<Request, IssueError>)
        ensures
            old(self)@.requested(
                Arguments::Next {
                    thread_id,
                    single_thread: Some(true),
                    granularity: Some(SteppingGranularity::Statement),
                },
                result,
                final(self)@,
            ),
    {
        self.request(Arguments::step_over(thread_id))
    }

    /// Issues `stepIn`: one statement further in one thread, into calls.
    pub fn step_in(&mut self, thread_id: u64) -> (result: Result<Request, IssueError>)
        ensures
            old(self)@.requested(
                Arguments::StepIn {
                    thread_id,
                    single_thread: Some(true),
                    target_id: None,
                    granularity: Some(SteppingGranularity::Statement),
                },
                result,
                final(self)@,
            ),
    {
        self.request(Arguments::step_in(thread_id))
    }

    /// Issues `stepOut`: one thread runs until its function returns.
    pub fn step_out(&mut self, thread_id: u64) -> (result: Result<Request, IssueError>)
        ensures
            old(self)@.requested(
                Arguments::StepOut {
                    thread_id,
                    single_thread: Some(true),
                    granularity: Some(SteppingGranularity::Statement),
                },
                result,
                final(self)@,
            ),
    {
        self.request(Arguments::step_out(thread_id))
    }

    /// Issues `stepBack`: one statement back in one thread.
    pub fn step_back(&mut self, thread_id: u64) -> (result: Result<Request, IssueError>)
        ensures
            old(self)@.requested(
                Arguments::StepBack {
                    thread_id,
                    single_thread: Some(true),
                    granularity: Some(SteppingGranularity::Statement),
                },
                result,
                final(self)@,
            ),
    {
        self.request(Arguments::step_back(thread_id))
    }

    /// Restarts one thread. The verbs of this client hold none of its own
    /// for a restart: the request that goes out is `stepBack`.
    pub fn restart(&mut self, thread_id: u64) -> (result: Result<Request, IssueError>)
        ensures
            old(self)@.requested(
                Arguments::StepBack {
                    thread_id,
                    single_thread: Some(true),
                    granularity: Some(SteppingGranularity::Statement),
                },
                result,
                final(self)@,
            ),
    {
        self.request(Arguments::restart(thread_id))
    }

    /// Issues `pause` for one thread. The thread counts as stopped once the
    /// adapter reports the stop.
    pub fn pause(&mut self, thread_id: u64) -> (result: Result<Request, IssueError>)
        ensures
            old(self)@.requested(Arguments::Pause { thread_id }, result, final(self)@),
    {
        self.request(Arguments::pause(thread_id))
    }

    /// Issues `setBreakpoints` for the file at `path`: the list replaces
    /// every breakpoint of that file. The adapter's own data from the
    /// configuration travels with the source. What the adapter makes of the
    /// list is in its answer, not in the list.
    pub fn set_breakpoints(
        &mut self,
        path: String,
        breakpoints: Option<Vec<dap_types::SourceBreakpoint>>,
    ) -> (result: Result<Request, IssueError>)
        ensures
            old(self)@.requested(
                old(self)@.breakpoints_for(path, breakpoints),
                result,
                final(self)@,
            ),
    {
        let arguments = self.set_breakpoints_arguments(path, breakpoints);
        self.request(arguments)
    }

    /// Issues `configurationDone`: the breakpoints are set, the debuggee may
    /// run.
    pub fn configuration_done(&mut self) -> (result: Result<Request, IssueError>)
        ensures
            old(self)@.requested(Arguments::ConfigurationDone, result, final(self)@),
    {
        self.request(Arguments::ConfigurationDone)
    }

    /// Takes in one event of the adapter.
    pub fn apply_event(&mut self, event: &Events)
        ensures
            final(self)@ == old(self)@.after_event(*event),
    {
        let live = matches!(self.phase, SessionPhase::Running | SessionPhase::Stopped);
        match event {
            Events::Stopped { thread_id, .. } => {
                if live {
                    self.phase = SessionPhase::Stopped;
                }
                match thread_id {
                    Some(id) => self.thread_states.stopped(*id),
                    None => {},
                }
            },
            Events::Continued { thread_id, .. } => {
                if live {
                    self.phase = SessionPhase::Running;
                }
                self.thread_states.update_thread_state_status(*thread_id, ThreadStatus::Running);
            },
            Events::Thread { reason, thread_id } => {
                match reason {
                    ThreadReason::Exited => self.thread_states.exited(*thread_id),
                    _ => {},
                }
            },
            Events::Exited { .. } | Events::Terminated => {
                self.phase = SessionPhase::Ended;
                self.thread_states.clear();
            },
            _ => {},
        }
    }

    /// Drains a run of payloads from the application's queue. The events up
    /// to the first payload that is no event are taken in, in the queue's
    /// order, and handed out for the application's handler in that order. A
    /// payload that is no event is handed out as the stray on which the loop
    /// has to fail; nothing behind it is taken in.
    pub fn handle_events(&mut self, queue: Vec<Payload>) -> (delivery: Delivery)
        ensures
            delivery.events@ == delivered(queue@),
            delivery.stray == first_stray(queue@),
            final(self)@ == old(self)@.after_events(delivered(queue@)),
    {
        let delivery = deliver(queue);
        let n = delivery.events.len();
        for i in 0..n
            invariant
                n == delivery.events@.len(),
                delivery.events@ == delivered(queue@),
                delivery.stray == first_stray(queue@),
                self@ == old(self)@.after_events(delivery.events@.take(i as int)),
        {
            proof {
                let seen = delivery.events@.take(i as int);
                assert(delivery.events@.take(i + 1).drop_last() =~= seen);
            }
            self.apply_event(&delivery.events[i]);
        }
        proof {
            assert(delivery.events@.take(n as int) =~= delivery.events@);
        }
        delivery
    }
}

/// One thing that happens to a client in the course of a session.
pub enum Step {
    /// A request with these arguments is asked for.
    Request(Arguments),
    /// The answer to `initialize` is handed in, and read as this.
    Answer(Result<dap_types::Capabilities, RequestError>),
    /// An event of the adapter is taken in.
    Event(Events),
    /// A command given by its name is asked for.
    Named,
    /// A sequence number is taken without a request.
    Number,
    /// The cache of thread states is written, by the answer to a resume or
    /// a step or by the host, and holds this afterwards.
    Threads(Map<u64, ThreadStateView>),
}

impl ClientView {
    /// The client once the answer to `initialize` was handed in and read as
    /// `result`.
    pub open spec fn after_answer(
        self,
        result: Result<dap_types::Capabilities, RequestError>,
    ) -> ClientView {
        if self.phase != SessionPhase::Initializing {
            self
        } else {
            match result {
                Ok(capabilities) => ClientView {
                    capabilities: Some(capabilities),
                    phase: SessionPhase::Initialized,
                    ..self
                },
                Err(_) => ClientView { phase: SessionPhase::Ended, ..self },
            }
        }
    }

    /// The client after one step.
    pub open spec fn after_step(self, step: Step) -> ClientView {
        match step {
            Step::Request(arguments) => if self.refusal(arguments.spec_command()) is None {
                self.after_request(arguments)
            } else {
                self
            },
            Step::Answer(result) => self.after_answer(result),
            Step::Event(event) => self.after_event(event),
            Step::Named => if self.named_refusal() is None {
                self.after_named_request()
            } else {
                self
            },
            Step::Number => if self.next_seq < u64::MAX {
                ClientView { next_seq: (self.next_seq + 1) as u64, ..self }
            } else {
                self
            },
            Step::Threads(threads) => ClientView { threads, ..self },
        }
    }

    /// The client after each of `steps` in turn.
    pub open spec fn after_steps(self, steps: Seq<Step>) -> ClientView
        decreases steps.len(),
    {
        if steps.len() == 0 {
            self
        } else {
            self.after_steps(steps.drop_last()).after_step(steps.last())
        }
    }

    /// Whether `step` takes a sequence number from this client.
    pub open spec fn takes_number(self, step: Step) -> bool {
        match step {
            Step::Request(arguments) => self.refusal(arguments.spec_command()) is None,
            Step::Named => self.named_refusal() is None,
            Step::Number => self.next_seq < u64::MAX,
            _ => false,
        }
    }

    /// The sequence numbers that go out in the course of `steps`, in the
    /// order in which they go out.
    pub open spec fn numbers_issued(self, steps: Seq<Step>) -> Seq<u64>
        decreases steps.len(),
    {
        if steps.len() == 0 {
            Seq::empty()
        } else {
            let before = self.after_steps(steps.drop_last());
            let earlier = self.numbers_issued(steps.drop_last());
            if before.takes_number(steps.last()) {
                earlier.push(before.next_seq)
            } else {
                earlier
            }
        }
    }
}

proof fn lemma_numbers_issued_bounds(start: ClientView, steps: Seq<Step>)
    ensures
        start.next_seq <= start.after_steps(steps).next_seq,
        forall|i: int|
            0 <= i < start.numbers_issued(steps).len() ==> start.next_seq
                <= #[trigger] start.numbers_issued(steps)[i] < start.after_steps(steps).next_seq,
        forall|i: int, j: int|
            0 <= i < j < start.numbers_issued(steps).len() ==> start.numbers_issued(steps)[i]
                < start.numbers_issued(steps)[j],
    decreases steps.len(),
{
    if steps.len() > 0 {
        let front = steps.drop_last();
        lemma_numbers_issued_bounds(start, front);
        let before = start.after_steps(front);
        let earlier = start.numbers_issued(front);
        let all = start.numbers_issued(steps);
        if before.takes_number(steps.last()) {
            assert(all == earlier.push(before.next_seq));
            assert(start.after_steps(steps).next_seq == before.next_seq + 1);
            assert forall|i: int| 0 <= i < all.len() implies start.next_seq <= #[trigger] all[i]
                < start.after_steps(steps).next_seq by {
                if i < earlier.len() {
                    assert(all[i] == earlier[i]);
                }
            }
            assert forall|i: int, j: int| 0 <= i < j < all.len() implies all[i] < all[j] by {
                assert(all[i] == earlier[i]);
                if j < earlier.len() {
                    assert(all[j] == earlier[j]);
                }
            }
        } else {
            assert(all == earlier);
        }
    }
}

/// Sequence numbers rise and never come back: of the numbers that a client
/// gives out in the course of any run of steps, each is larger than every
/// number given out before it, so no two requests of one client share a
/// number.
pub proof fn sequence_numbers_rise(start: ClientView, steps: Seq<Step>)
    ensures
        forall|i: int, j: int|
            0 <= i < j < start.numbers_issued(steps).len() ==> start.numbers_issued(steps)[i]
                < start.numbers_issued(steps)[j],
        forall|i: int|
            0 <= i < start.numbers_issued(steps).len() ==> start.next_seq
                <= #[trigger] start.numbers_issued(steps)[i] < start.after_steps(steps).next_seq,
{
    lemma_numbers_issued_bounds(start, steps);
}

/// No step takes the capabilities away, and no step leads past `initialize`
/// without them: a client that is well formed stays so.
pub proof fn steps_keep_well_formed(start: ClientView, steps: Seq<Step>)
    requires
        start.well_formed(),
    ensures
        start.after_steps(steps).well_formed(),
        start.capabilities is Some ==> start.after_steps(steps).capabilities == start.capabilities,
    decreases steps.len(),
{
    if steps.len() > 0 {
        steps_keep_well_formed(start, steps.drop_last());
    }
}

/// Asking is not yet being answered: whatever request is issued or refused,
/// the cache of thread states, the capabilities, the id and the configuration
/// are after it what they were before it.
pub proof fn a_request_leaves_the_cache_alone(
    before: ClientView,
    arguments: Arguments,
    result: Result<Request, IssueError>,
    after: ClientView,
)
    requires
        before.requested(arguments, result, after) || before.issued(
            arguments.spec_command(),
            result,
            after,
        ),
    ensures
        after.threads == before.threads,
        after.capabilities == before.capabilities,
        after.id == before.id,
        after.config == before.config,
{
}

/// `launch` and `attach` wait for the capabilities: while the answer to
/// `initialize` is outstanding, and whenever that answer was a failure,
/// neither is issued.
pub proof fn launch_waits_for_capabilities(
    start: ClientView,
    answer: Result<dap_types::Capabilities, RequestError>,
    command: Command,
)
    requires
        start.phase == SessionPhase::Initializing,
        command == Command::Launch || command == Command::Attach,
    ensures
        start.refusal(command) == Some(IssueError::WrongPhase(SessionPhase::Initializing)),
        answer is Err ==> start.after_answer(answer).refusal(command) == Some(
            IssueError::WrongPhase(SessionPhase::Ended),
        ),
        answer is Ok && start.next_seq < u64::MAX ==> start.after_answer(answer).refusal(command)
            is None,
{
}

/// A session that has ended stays ended, and no request goes out of it.
pub proof fn an_ended_session_stays_ended(start: ClientView, step: Step)
    requires
        start.phase == SessionPhase::Ended,
    ensures
        start.after_step(step).phase == SessionPhase::Ended,
        step is Request || step is Named ==> start.after_step(step) == start,
        step is Request || step is Named ==> start.numbers_issued(seq![step]) == Seq::<
            u64,
        >::empty(),
{
    assert(seq![step].drop_last() =~= Seq::<Step>::empty());
    assert(start.after_steps(Seq::<Step>::empty()) == start);
    assert(start.numbers_issued(Seq::<Step>::empty()) == Seq::<u64>::empty());
}

} // verus!
