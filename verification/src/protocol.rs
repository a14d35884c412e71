//! The messages a client exchanges with an adapter: the commands it may send
//! with their arguments, and the three kinds of payload that arrive.

use crate::json::{json_null, or_null};
use vstd::prelude::*;

verus! {

/// The adapter's feature set, as its `initialize` response reports it. The
/// client stores it and hands it out, and reads nothing in it.
#[verifier::external_type_specification]
#[verifier::external_body]
pub struct ExCapabilities(dap_types::Capabilities);

/// A breakpoint as the adapter answers it.
#[verifier::external_type_specification]
#[verifier::external_body]
pub struct ExBreakpoint(dap_types::Breakpoint);

/// A breakpoint as the client asks for it.
#[verifier::external_type_specification]
#[verifier::external_body]
pub struct ExSourceBreakpoint(dap_types::SourceBreakpoint);

/// `Capabilities::clone`: the copy is the value itself.
pub assume_specification[ <dap_types::Capabilities as Clone>::clone ](
    this: &dap_types::Capabilities,
) -> (copy: dap_types::Capabilities)
    ensures
        copy == *this,
;

/// The verbs of the protocol that this client speaks.
#[derive(Copy, Clone, Debug, PartialEq, Eq, Structural, Hash)]
pub enum Command {
    Initialize,
    Launch,
    Attach,
    Continue,
    Next,
    StepIn,
    StepOut,
    StepBack,
    Pause,
    SetBreakpoints,
    ConfigurationDone,
}

/// How far one step goes.
#[derive(Copy, Clone, Debug, PartialEq, Eq, Structural, Hash)]
pub enum SteppingGranularity {
    Statement,
    Line,
    Instruction,
}

/// How the client writes paths.
#[derive(Copy, Clone, Debug, PartialEq, Eq, Structural, Hash)]
pub enum PathFormat {
    Path,
    Uri,
}

/// What the client tells the adapter about itself.
#[derive(Clone, Debug)]
pub struct InitializeRequestArguments {
    pub client_id: Option<String>,
    pub client_name: Option<String>,
    pub adapter_id: String,
    pub locale: Option<String>,
    pub lines_start_at1: Option<bool>,
    pub columns_start_at1: Option<bool>,
    pub path_format: Option<PathFormat>,
    pub supports_variable_type: Option<bool>,
    pub supports_variable_paging: Option<bool>,
    pub supports_run_in_terminal_request: Option<bool>,
    pub supports_memory_references: Option<bool>,
    pub supports_progress_reporting: Option<bool>,
    pub supports_invalidated_event: Option<bool>,
    pub supports_memory_event: Option<bool>,
    pub supports_args_can_be_interpreted_by_shell: Option<bool>,
    pub supports_start_debugging_request: Option<bool>,
}

/// A source file on disk. Every attribute of a source that is not listed
/// here is absent on the wire.
#[derive(Clone, Debug)]
pub struct Source {
    pub path: Option<String>,
    pub adapter_data: Option<serde_json::Value>,
}

/// The arguments of one request; the variant is the command.
#[derive(Clone, Debug)]
pub enum Arguments {
    Initialize(InitializeRequestArguments),
    Launch { raw: serde_json::Value },
    Attach { raw: serde_json::Value },
    Continue { thread_id: u64, single_thread: Option<bool> },
    Next { thread_id: u64, single_thread: Option<bool>, granularity: Option<SteppingGranularity> },
    StepIn {
        thread_id: u64,
        single_thread: Option<bool>,
        target_id: Option<u64>,
        granularity: Option<SteppingGranularity>,
    },
    StepOut {
        thread_id: u64,
        single_thread: Option<bool>,
        granularity: Option<SteppingGranularity>,
    },
    StepBack {
        thread_id: u64,
        single_thread: Option<bool>,
        granularity: Option<SteppingGranularity>,
    },
    Pause { thread_id: u64 },
    SetBreakpoints {
        source: Source,
        breakpoints: Option<Vec<dap_types::SourceBreakpoint>>,
        lines: Option<Vec<u64>>,
        source_modified: Option<bool>,
    },
    ConfigurationDone,
}

/// A request on its way to the adapter.
#[derive(Clone, Debug)]
pub struct Request {
    /// The sequence number by which the response finds its way back.
    pub seq: u64,
    pub arguments: Arguments,
}

/// A request of a command that this client has no function of its own
/// for, such as `stackTrace`, `scopes` or `variables`: the command by its
/// name, the arguments as the host serialised them.
#[derive(Clone, Debug)]
pub struct NamedRequest {
    /// The sequence number by which the response finds its way back.
    pub seq: u64,
    pub command: String,
    pub arguments: Option<serde_json::Value>,
}

/// A request that the adapter makes of the client.
#[derive(Clone, Debug)]
pub struct ReverseRequest {
    pub seq: u64,
    pub command: String,
    pub arguments: Option<serde_json::Value>,
}

/// The adapter's answer to one request.
#[derive(Clone, Debug)]
pub struct Response {
    /// The sequence number of the request that this answers.
    pub seq: u64,
    pub success: bool,
    pub body: Option<serde_json::Value>,
    /// The adapter's words on a failure.
    pub message: Option<String>,
}

/// Why a thread stopped.
#[derive(Copy, Clone, Debug, PartialEq, Eq, Structural, Hash)]
pub enum StoppedReason {
    Step,
    Breakpoint,
    Exception,
    Pause,
    Entry,
    Goto,
    FunctionBreakpoint,
    DataBreakpoint,
    InstructionBreakpoint,
    Unknown,
}

/// What happened to a thread.
#[derive(Copy, Clone, Debug, PartialEq, Eq, Structural, Hash)]
pub enum ThreadReason {
    Started,
    Exited,
    Unknown,
}

/// What the adapter reports of its own accord.
#[derive(Clone, Debug)]
pub enum Events {
    Initialized,
    Stopped { reason: StoppedReason, thread_id: Option<u64>, all_threads_stopped: Option<bool> },
    Continued { thread_id: u64, all_threads_continued: Option<bool> },
    Thread { reason: ThreadReason, thread_id: u64 },
    Exited { exit_code: u64 },
    Terminated,
    /// An event that changes nothing the client keeps.
    Other { event: String, body: Option<serde_json::Value> },
}

/// One decoded message from the adapter.
#[derive(Clone, Debug)]
pub enum Payload {
    Event(Events),
    Request(ReverseRequest),
    Response(Response),
}

impl Command {
    /// The verb as the wire spells it.
    pub open spec fn spelling(self) -> Seq<char> {
        match self {
            Command::Initialize => "initialize"@,
            Command::Launch => "launch"@,
            Command::Attach => "attach"@,
            Command::Continue => "continue"@,
            Command::Next => "next"@,
            Command::StepIn => "stepIn"@,
            Command::StepOut => "stepOut"@,
            Command::StepBack => "stepBack"@,
            Command::Pause => "pause"@,
            Command::SetBreakpoints => "setBreakpoints"@,
            Command::ConfigurationDone => "configurationDone"@,
        }
    }

    /// The verb as the wire spells it.
    pub fn name(&self) -> (name: &'static str)
        ensures
            name@ == self.spelling(),
    {
        match self {
            Command::Initialize => "initialize",
            Command::Launch => "launch",
            Command::Attach => "attach",
            Command::Continue => "continue",
            Command::Next => "next",
            Command::StepIn => "stepIn",
            Command::StepOut => "stepOut",
            Command::StepBack => "stepBack",
            Command::Pause => "pause",
            Command::SetBreakpoints => "setBreakpoints",
            Command::ConfigurationDone => "configurationDone",
        }
    }
}

impl Arguments {
    /// The command that these arguments belong to.
    pub open spec fn spec_command(&self) -> Command {
        match self {
            Arguments::Initialize(_) => Command::Initialize,
            Arguments::Launch { .. } => Command::Launch,
            Arguments::Attach { .. } => Command::Attach,
            Arguments::Continue { .. } => Command::Continue,
            Arguments::Next { .. } => Command::Next,
            Arguments::StepIn { .. } => Command::StepIn,
            Arguments::StepOut { .. } => Command::StepOut,
            Arguments::StepBack { .. } => Command::StepBack,
            Arguments::Pause { .. } => Command::Pause,
            Arguments::SetBreakpoints { .. } => Command::SetBreakpoints,
            Arguments::ConfigurationDone => Command::ConfigurationDone,
        }
    }

    /// The command that these arguments belong to.
    #[verifier::when_used_as_spec(spec_command)]
    pub fn command(&self) -> (command: Command)
        ensures
            command == self.spec_command(),
    {
        match self {
            Arguments::Initialize(_) => Command::Initialize,
            Arguments::Launch { .. } => Command::Launch,
            Arguments::Attach { .. } => Command::Attach,
            Arguments::Continue { .. } => Command::Continue,
            Arguments::Next { .. } => Command::Next,
            Arguments::StepIn { .. } => Command::StepIn,
            Arguments::StepOut { .. } => Command::StepOut,
            Arguments::StepBack { .. } => Command::StepBack,
            Arguments::Pause { .. } => Command::Pause,
            Arguments::SetBreakpoints { .. } => Command::SetBreakpoints,
            Arguments::ConfigurationDone => Command::ConfigurationDone,
        }
    }
}

/// What `initialize` tells the adapter: who the client is, and what it can
/// do.
pub open spec fn introduces(arguments: InitializeRequestArguments, adapter_id: Seq<char>) -> bool {
    &&& arguments.client_id is Some && arguments.client_id->Some_0@ == "zed"@
    &&& arguments.client_name is Some && arguments.client_name->Some_0@ == "Zed"@
    &&& arguments.adapter_id@ == adapter_id
    &&& arguments.locale is Some && arguments.locale->Some_0@ == "en-us"@
    &&& arguments.lines_start_at1 == Some(true)
    &&& arguments.columns_start_at1 == Some(true)
    &&& arguments.path_format == Some(PathFormat::Path)
    &&& arguments.supports_variable_type == Some(true)
    &&& arguments.supports_variable_paging == Some(false)
    &&& arguments.supports_run_in_terminal_request == Some(false)
    &&& arguments.supports_memory_references == Some(true)
    &&& arguments.supports_progress_reporting == Some(true)
    &&& arguments.supports_invalidated_event == Some(false)
    &&& arguments.supports_memory_event == Some(true)
    &&& arguments.supports_args_can_be_interpreted_by_shell == None::<bool>
    &&& arguments.supports_start_debugging_request == Some(true)
}

/// The arguments of each command as this client sends it. A host that
/// serialises the arguments before it asks for a sequence number builds them
/// here and hands them to the client's `request`.
impl Arguments {
    /// The arguments of `initialize` for the adapter with this id.
    pub fn initialize(adapter_id: String) -> (arguments: Arguments)
        ensures
            arguments is Initialize,
            introduces(arguments->Initialize_0, adapter_id@),
    {
        Arguments::Initialize(
            InitializeRequestArguments {
                client_id: Some("zed".to_owned()),
                client_name: Some("Zed".to_owned()),
                adapter_id,
                locale: Some("en-us".to_owned()),
                lines_start_at1: Some(true),
                columns_start_at1: Some(true),
                path_format: Some(PathFormat::Path),
                supports_variable_type: Some(true),
                supports_variable_paging: Some(false),
                supports_run_in_terminal_request: Some(false),
                supports_memory_references: Some(true),
                supports_progress_reporting: Some(true),
                supports_invalidated_event: Some(false),
                supports_memory_event: Some(true),
                supports_args_can_be_interpreted_by_shell: None,
                supports_start_debugging_request: Some(true),
            },
        )
    }

    /// The arguments of `launch`: the adapter's own, or `null` where there
    /// are none.
    pub fn launch(args: Option<serde_json::Value>) -> (arguments: Arguments)
        ensures
            arguments is Launch,
            args matches Some(given) ==> arguments->Launch_raw == given,
            args is None ==> json_null(arguments->Launch_raw),
    {
        Arguments::Launch { raw: or_null(args) }
    }

    /// The arguments of `attach`: the adapter's own, or `null` where there
    /// are none.
    pub fn attach(args: Option<serde_json::Value>) -> (arguments: Arguments)
        ensures
            arguments is Attach,
            args matches Some(given) ==> arguments->Attach_raw == given,
            args is None ==> json_null(arguments->Attach_raw),
    {
        Arguments::Attach { raw: or_null(args) }
    }

    /// The arguments of `continue` for one thread.
    pub fn resume(thread_id: u64) -> (arguments: Arguments)
        ensures
            arguments == (Arguments::Continue { thread_id, single_thread: Some(true) }),
    {
        Arguments::Continue { thread_id, single_thread: Some(true) }
    }

    /// The arguments of `next`: one statement further in one thread.
    pub fn step_over(thread_id: u64) -> (arguments: Arguments)
        ensures
            arguments == (Arguments::Next {
                thread_id,
                single_thread: Some(true),
                granularity: Some(SteppingGranularity::Statement),
            }),
    {
        Arguments::Next {
            thread_id,
            single_thread: Some(true),
            granularity: Some(SteppingGranularity::Statement),
        }
    }

    /// The arguments of `stepIn`: one statement further in one thread, into
    /// no chosen target.
    pub fn step_in(thread_id: u64) -> (arguments: Arguments)
        ensures
            arguments == (Arguments::StepIn {
                thread_id,
                single_thread: Some(true),
                target_id: None,
                granularity: Some(SteppingGranularity::Statement),
            }),
    {
        Arguments::StepIn {
            thread_id,
            single_thread: Some(true),
            target_id: None,
            granularity: Some(SteppingGranularity::Statement),
        }
    }

    /// The arguments of `stepOut` for one thread.
    pub fn step_out(thread_id: u64) -> (arguments: Arguments)
        ensures
            arguments == (Arguments::StepOut {
                thread_id,
                single_thread: Some(true),
                granularity: Some(SteppingGranularity::Statement),
            }),
    {
        Arguments::StepOut {
            thread_id,
            single_thread: Some(true),
            granularity: Some(SteppingGranularity::Statement),
        }
    }

    /// The arguments of `stepBack`: one statement back in one thread.
    pub fn step_back(thread_id: u64) -> (arguments: Arguments)
        ensures
            arguments == (Arguments::StepBack {
                thread_id,
                single_thread: Some(true),
                granularity: Some(SteppingGranularity::Statement),
            }),
    {
        Arguments::StepBack {
            thread_id,
            single_thread: Some(true),
            granularity: Some(SteppingGranularity::Statement),
        }
    }

    /// The arguments with which one thread is restarted. The verbs of this
    /// client hold none of its own for a restart: these are the arguments of
    /// `stepBack`.
    pub fn restart(thread_id: u64) -> (arguments: Arguments)
        ensures
            arguments == (Arguments::StepBack {
                thread_id,
                single_thread: Some(true),
                granularity: Some(SteppingGranularity::Statement),
            }),
    {
        Arguments::StepBack {
            thread_id,
            single_thread: Some(true),
            granularity: Some(SteppingGranularity::Statement),
        }
    }

    /// The arguments of `pause` for one thread.
    pub fn pause(thread_id: u64) -> (arguments: Arguments)
        ensures
            arguments == (Arguments::Pause { thread_id }),
    {
        Arguments::Pause { thread_id }
    }

    /// The arguments of `setBreakpoints` for the file at `path`, with the
    /// adapter's own data for the source.
    pub fn set_breakpoints(
        path: String,
        adapter_data: Option<serde_json::Value>,
        breakpoints: Option<Vec<dap_types::SourceBreakpoint>>,
    ) -> (arguments: Arguments)
        ensures
            arguments == (Arguments::SetBreakpoints {
                source: Source { path: Some(path), adapter_data },
                breakpoints,
                lines: None,
                source_modified: None,
            }),
    {
        Arguments::SetBreakpoints {
            source: Source { path: Some(path), adapter_data },
            breakpoints,
            lines: None,
            source_modified: None,
        }
    }
}

} // verus!
