use dap::bootstrap::{Bootstrap, BootstrapAction, BootstrapEvent, Wiring};
use dap::client::{DebugAdapterClient, DebugAdapterClientId, IssueError, SessionPhase};
use dap::config::{DebugAdapterConfig, DebugConnectionType, DebugRequestArgs, DebugRequestType};
use dap::protocol::{
    Arguments, Command, Events, PathFormat, Payload, Request, Response, ReverseRequest,
    SteppingGranularity, StoppedReason, ThreadReason,
};
use dap::reply::{verified_breakpoints, RequestError};
use dap::thread_state::{ThreadStatus, UnknownThread};
use serde_json::Value;

fn json(text: &str) -> Value {
    serde_json::from_str(text).expect("the test's own JSON")
}

fn config(request_args: Option<Value>) -> DebugAdapterConfig {
    DebugAdapterConfig {
        id: String::from("lldb"),
        connection: DebugConnectionType::STDIO,
        port: 0,
        request: DebugRequestType::Launch,
        request_args: request_args.map(|args| DebugRequestArgs { args }),
    }
}

fn client() -> DebugAdapterClient {
    DebugAdapterClient::new(DebugAdapterClientId(1), config(None))
}

fn capabilities_reply(seq: u64) -> Option<Response> {
    Some(Response {
        seq,
        success: true,
        body: Some(json(r#"{"supportsConfigurationDoneRequest": true}"#)),
        message: None,
    })
}

fn initialized_client() -> DebugAdapterClient {
    let mut client = client();
    let request = client.initialize().expect("a fresh session");
    client.initialized(capabilities_reply(request.seq)).expect("capabilities");
    client
}

fn running_client() -> DebugAdapterClient {
    let mut client = initialized_client();
    client.launch(None).expect("initialized");
    client.configuration_done().expect("configuring");
    client
}

fn stopped(thread_id: u64) -> Events {
    Events::Stopped {
        reason: StoppedReason::Breakpoint,
        thread_id: Some(thread_id),
        all_threads_stopped: None,
    }
}

fn source_breakpoint(line: u64) -> dap_types::SourceBreakpoint {
    dap_types::SourceBreakpoint {
        line,
        column: None,
        condition: None,
        hit_condition: None,
        log_message: None,
        mode: None,
    }
}

#[test]
fn a_new_client_has_begun_nothing() {
    let client = DebugAdapterClient::new(DebugAdapterClientId(9), config(None));
    assert_eq!(client.id(), DebugAdapterClientId(9));
    assert_eq!(client.config().id, "lldb");
    assert_eq!(client.config().connection, DebugConnectionType::STDIO);
    assert_eq!(client.request_type(), DebugRequestType::Launch);
    assert_eq!(client.phase(), SessionPhase::Uninitialized);
    assert!(client.capabilities().is_none());
    assert_eq!(client.thread_states().len(), 0);
}

#[test]
fn request_type_is_the_configured_one() {
    let mut attach = config(None);
    attach.request = DebugRequestType::Attach;
    let client = DebugAdapterClient::new(DebugAdapterClientId(2), attach);
    assert_eq!(client.request_type(), DebugRequestType::Attach);
}

#[test]
fn sequence_numbers_rise_by_one_from_zero() {
    let mut client = client();
    for expected in 0..100u64 {
        assert_eq!(client.next_request_id(), Some(expected));
    }
}

#[test]
fn requests_never_share_a_sequence_number() {
    let mut client = client();
    let mut seen = Vec::new();
    seen.push(client.initialize().unwrap().seq);
    client.initialized(capabilities_reply(0)).unwrap();
    seen.push(client.launch(None).unwrap().seq);
    seen.push(client.set_breakpoints(String::from("/a.rs"), None).unwrap().seq);
    seen.push(client.configuration_done().unwrap().seq);
    seen.push(client.pause(1).unwrap().seq);
    // A refused command takes no number.
    assert!(client.initialize().is_err());
    seen.push(client.resume(1).unwrap().seq);
    seen.push(client.step_over(1).unwrap().seq);
    assert_eq!(seen, vec![0, 1, 2, 3, 4, 5, 6]);
}

#[test]
fn initialize_introduces_the_client() {
    let mut client = client();
    let request = client.initialize().expect("a fresh session");
    assert_eq!(request.seq, 0);
    assert_eq!(request.arguments.command(), Command::Initialize);
    assert_eq!(request.arguments.command().name(), "initialize");
    match request.arguments {
        Arguments::Initialize(a) => {
            assert_eq!(a.client_id.as_deref(), Some("zed"));
            assert_eq!(a.client_name.as_deref(), Some("Zed"));
            assert_eq!(a.adapter_id, "lldb");
            assert_eq!(a.locale.as_deref(), Some("en-us"));
            assert_eq!(a.path_format, Some(PathFormat::Path));
            assert_eq!(a.supports_variable_type, Some(true));
            assert_eq!(a.supports_variable_paging, Some(false));
            assert_eq!(a.supports_run_in_terminal_request, Some(false));
            assert_eq!(a.supports_memory_references, Some(true));
            assert_eq!(a.supports_progress_reporting, Some(true));
            assert_eq!(a.supports_invalidated_event, Some(false));
            assert_eq!(a.lines_start_at1, Some(true));
            assert_eq!(a.columns_start_at1, Some(true));
            assert_eq!(a.supports_memory_event, Some(true));
            assert_eq!(a.supports_args_can_be_interpreted_by_shell, None);
            assert_eq!(a.supports_start_debugging_request, Some(true));
        }
        other => panic!("unexpected {:?}", other),
    }
    assert_eq!(client.phase(), SessionPhase::Initializing);
}

#[test]
fn initialize_is_sent_once() {
    let mut client = client();
    client.initialize().unwrap();
    assert_eq!(
        client.initialize().unwrap_err(),
        IssueError::WrongPhase(SessionPhase::Initializing)
    );
    client.initialized(capabilities_reply(0)).unwrap();
    assert_eq!(
        client.initialize().unwrap_err(),
        IssueError::WrongPhase(SessionPhase::Initialized)
    );
}

#[test]
fn the_capabilities_are_captured_on_success() {
    let mut client = client();
    client.initialize().unwrap();
    let capabilities = client.initialized(capabilities_reply(0)).expect("capabilities");
    assert_eq!(capabilities.supports_configuration_done_request, Some(true));
    assert_eq!(client.phase(), SessionPhase::Initialized);
    let kept = client.capabilities().expect("captured");
    assert_eq!(kept.supports_configuration_done_request, Some(true));
    assert_eq!(kept.supports_step_back, None);
}

#[test]
fn initialize_then_launch_succeed_once_the_capabilities_came() {
    let mut client = client();
    let first = client.initialize().expect("a fresh session");
    // Before the answer, launch is not issued.
    assert_eq!(
        client.launch(None).unwrap_err(),
        IssueError::WrongPhase(SessionPhase::Initializing)
    );
    assert_eq!(
        client.attach(None).unwrap_err(),
        IssueError::WrongPhase(SessionPhase::Initializing)
    );
    client.initialized(capabilities_reply(first.seq)).expect("capabilities");
    let second = client.launch(None).expect("initialized");
    assert_eq!(second.seq, first.seq + 1);
    assert_eq!(second.arguments.command().name(), "launch");
    assert_eq!(client.phase(), SessionPhase::Configuring);
}

#[test]
fn a_failed_initialize_ends_the_session() {
    let mut client = client();
    client.initialize().unwrap();
    let reply = Some(Response {
        seq: 0,
        success: false,
        body: Some(json("{}")),
        message: Some(String::from("unsupported client")),
    });
    match client.initialized(reply) {
        Err(RequestError::Failed { message }) => {
            assert_eq!(message.as_deref(), Some("unsupported client"))
        }
        other => panic!("unexpected {:?}", other),
    }
    assert_eq!(client.phase(), SessionPhase::Ended);
    assert!(client.capabilities().is_none());
    assert_eq!(client.launch(None).unwrap_err(), IssueError::WrongPhase(SessionPhase::Ended));
    assert_eq!(client.initialize().unwrap_err(), IssueError::WrongPhase(SessionPhase::Ended));
}

#[test]
fn a_lost_connection_during_initialize_ends_the_session() {
    let mut client = client();
    client.initialize().unwrap();
    assert!(matches!(client.initialized(None), Err(RequestError::ConnectionLost)));
    assert_eq!(client.phase(), SessionPhase::Ended);
}

#[test]
fn capabilities_of_another_shape_end_the_session_with_a_decode_error() {
    let mut client = client();
    client.initialize().unwrap();
    let reply =
        Some(Response { seq: 0, success: true, body: Some(json("7")), message: None });
    assert!(matches!(client.initialized(reply), Err(RequestError::Decode(_))));
    assert_eq!(client.phase(), SessionPhase::Ended);
}

#[test]
fn an_answer_that_is_not_awaited_changes_nothing() {
    let mut client = client();
    assert!(matches!(client.initialized(capabilities_reply(0)), Err(RequestError::NotAwaited)));
    assert_eq!(client.phase(), SessionPhase::Uninitialized);
    assert!(client.capabilities().is_none());
    let mut client = initialized_client();
    let other = Some(Response {
        seq: 0,
        success: true,
        body: Some(json(r#"{"supportsStepBack": true}"#)),
        message: None,
    });
    assert!(matches!(client.initialized(other), Err(RequestError::NotAwaited)));
    assert_eq!(client.phase(), SessionPhase::Initialized);
    assert_eq!(client.capabilities().unwrap().supports_step_back, None);
}

#[test]
fn launch_sends_the_adapters_arguments_or_null() {
    let mut client = initialized_client();
    let request = client.launch(Some(json(r#"{"program": "a.out"}"#))).unwrap();
    match request.arguments {
        Arguments::Launch { raw } => assert_eq!(raw, json(r#"{"program":"a.out"}"#)),
        other => panic!("unexpected {:?}", other),
    }
    let mut client = initialized_client();
    match client.launch(None).unwrap().arguments {
        Arguments::Launch { raw } => assert_eq!(raw, Value::Null),
        other => panic!("unexpected {:?}", other),
    }
}

#[test]
fn attach_sends_the_adapters_arguments_or_null() {
    let mut client = initialized_client();
    let request = client.attach(Some(json(r#"{"pid": 4}"#))).unwrap();
    assert_eq!(request.arguments.command().name(), "attach");
    match request.arguments {
        Arguments::Attach { raw } => assert_eq!(raw, json(r#"{"pid":4}"#)),
        other => panic!("unexpected {:?}", other),
    }
    assert_eq!(client.phase(), SessionPhase::Configuring);
    let mut client = initialized_client();
    match client.attach(None).unwrap().arguments {
        Arguments::Attach { raw } => assert!(raw.is_null()),
        other => panic!("unexpected {:?}", other),
    }
}

#[test]
fn launch_and_attach_exclude_each_other() {
    let mut client = initialized_client();
    client.launch(None).unwrap();
    assert_eq!(
        client.attach(None).unwrap_err(),
        IssueError::WrongPhase(SessionPhase::Configuring)
    );
    assert_eq!(
        client.launch(None).unwrap_err(),
        IssueError::WrongPhase(SessionPhase::Configuring)
    );
    let mut client = initialized_client();
    client.attach(None).unwrap();
    assert_eq!(
        client.launch(None).unwrap_err(),
        IssueError::WrongPhase(SessionPhase::Configuring)
    );
}

#[test]
fn set_breakpoints_names_the_file_and_carries_the_list() {
    let mut client =
        DebugAdapterClient::new(DebugAdapterClientId(1), config(Some(json(r#"{"k": 1}"#))));
    client.initialize().unwrap();
    client.initialized(capabilities_reply(0)).unwrap();
    client.launch(None).unwrap();
    let list = vec![source_breakpoint(3), source_breakpoint(14), source_breakpoint(15)];
    let request = client.set_breakpoints(String::from("/src/main.rs"), Some(list)).unwrap();
    assert_eq!(request.seq, 2);
    assert_eq!(request.arguments.command().name(), "setBreakpoints");
    match request.arguments {
        Arguments::SetBreakpoints { source, breakpoints, lines, source_modified } => {
            assert_eq!(source.path.as_deref(), Some("/src/main.rs"));
            assert_eq!(source.adapter_data, Some(json(r#"{"k":1}"#)));
            let lines_asked: Vec<u64> = breakpoints.unwrap().iter().map(|b| b.line).collect();
            assert_eq!(lines_asked, vec![3, 14, 15]);
            assert!(lines.is_none());
            assert_eq!(source_modified, None);
        }
        other => panic!("unexpected {:?}", other),
    }
    assert_eq!(client.phase(), SessionPhase::Configuring);
}

#[test]
fn set_breakpoints_without_adapter_data_or_list() {
    let mut client = initialized_client();
    client.launch(None).unwrap();
    match client.set_breakpoints(String::from("b.rs"), None).unwrap().arguments {
        Arguments::SetBreakpoints { source, breakpoints, .. } => {
            assert_eq!(source.adapter_data, None);
            assert!(breakpoints.is_none());
        }
        other => panic!("unexpected {:?}", other),
    }
}

#[test]
fn breakpoints_are_set_before_configuration_is_done() {
    let mut client = initialized_client();
    assert_eq!(
        client.set_breakpoints(String::from("a.rs"), None).unwrap_err(),
        IssueError::WrongPhase(SessionPhase::Initialized)
    );
    assert_eq!(
        client.configuration_done().unwrap_err(),
        IssueError::WrongPhase(SessionPhase::Initialized)
    );
    client.launch(None).unwrap();
    client.set_breakpoints(String::from("a.rs"), None).unwrap();
    client.set_breakpoints(String::from("b.rs"), None).unwrap();
    let done = client.configuration_done().unwrap();
    assert!(matches!(done.arguments, Arguments::ConfigurationDone));
    assert_eq!(done.arguments.command().name(), "configurationDone");
    assert_eq!(client.phase(), SessionPhase::Running);
    assert_eq!(
        client.set_breakpoints(String::from("a.rs"), None).unwrap_err(),
        IssueError::WrongPhase(SessionPhase::Running)
    );
    assert_eq!(
        client.configuration_done().unwrap_err(),
        IssueError::WrongPhase(SessionPhase::Running)
    );
}

#[test]
fn runtime_controls_name_one_thread_and_step_by_statement() {
    let mut client = running_client();
    let statement = Some(SteppingGranularity::Statement);
    match client.resume(4).unwrap() {
        Request { arguments: Arguments::Continue { thread_id, single_thread }, .. } => {
            assert_eq!((thread_id, single_thread), (4, Some(true)))
        }
        other => panic!("unexpected {:?}", other),
    }
    match client.step_over(5).unwrap().arguments {
        Arguments::Next { thread_id, single_thread, granularity } => {
            assert_eq!((thread_id, single_thread, granularity), (5, Some(true), statement))
        }
        other => panic!("unexpected {:?}", other),
    }
    match client.step_in(6).unwrap().arguments {
        Arguments::StepIn { thread_id, single_thread, target_id, granularity } => {
            assert_eq!((thread_id, single_thread, granularity), (6, Some(true), statement));
            assert_eq!(target_id, None);
        }
        other => panic!("unexpected {:?}", other),
    }
    match client.step_out(7).unwrap().arguments {
        Arguments::StepOut { thread_id, single_thread, granularity } => {
            assert_eq!((thread_id, single_thread, granularity), (7, Some(true), statement))
        }
        other => panic!("unexpected {:?}", other),
    }
    match client.step_back(8).unwrap().arguments {
        Arguments::StepBack { thread_id, single_thread, granularity } => {
            assert_eq!((thread_id, single_thread, granularity), (8, Some(true), statement))
        }
        other => panic!("unexpected {:?}", other),
    }
    match client.restart(9).unwrap().arguments {
        Arguments::StepBack { thread_id, single_thread, granularity } => {
            assert_eq!((thread_id, single_thread, granularity), (9, Some(true), statement))
        }
        other => panic!("unexpected {:?}", other),
    }
    match client.pause(10).unwrap().arguments {
        Arguments::Pause { thread_id } => assert_eq!(thread_id, 10),
        other => panic!("unexpected {:?}", other),
    }
}

#[test]
fn the_commands_are_spelled_as_the_protocol_spells_them() {
    let names: Vec<&str> = [
        Command::Initialize,
        Command::Launch,
        Command::Attach,
        Command::Continue,
        Command::Next,
        Command::StepIn,
        Command::StepOut,
        Command::StepBack,
        Command::Pause,
        Command::SetBreakpoints,
        Command::ConfigurationDone,
    ]
    .iter()
    .map(|c| c.name())
    .collect();
    assert_eq!(
        names,
        vec![
            "initialize",
            "launch",
            "attach",
            "continue",
            "next",
            "stepIn",
            "stepOut",
            "stepBack",
            "pause",
            "setBreakpoints",
            "configurationDone"
        ]
    );
}

#[test]
fn runtime_controls_wait_for_a_live_session() {
    let mut client = initialized_client();
    let refused = IssueError::WrongPhase(SessionPhase::Initialized);
    assert_eq!(client.resume(1).unwrap_err(), refused);
    assert_eq!(client.step_over(1).unwrap_err(), refused);
    assert_eq!(client.step_in(1).unwrap_err(), refused);
    assert_eq!(client.step_out(1).unwrap_err(), refused);
    assert_eq!(client.step_back(1).unwrap_err(), refused);
    assert_eq!(client.restart(1).unwrap_err(), refused);
    assert_eq!(client.pause(1).unwrap_err(), refused);
    assert!(DebugAdapterClient::may_send(SessionPhase::Stopped, Command::Pause));
    assert!(!DebugAdapterClient::may_send(SessionPhase::Ended, Command::Pause));
    assert!(!DebugAdapterClient::may_send(SessionPhase::Running, Command::Launch));
}

#[test]
fn stop_and_continue_toggle_the_session() {
    let mut client = running_client();
    client.apply_event(&stopped(1));
    assert_eq!(client.phase(), SessionPhase::Stopped);
    assert_eq!(client.thread_state_by_id(1).unwrap().status, ThreadStatus::Stopped);
    client.step_over(1).unwrap();
    assert_eq!(client.phase(), SessionPhase::Running);
    client.apply_event(&stopped(1));
    assert_eq!(client.phase(), SessionPhase::Stopped);
    // A pause is only asked for; the stop is the adapter's to report.
    client.pause(1).unwrap();
    assert_eq!(client.phase(), SessionPhase::Stopped);
    client.apply_event(&Events::Continued { thread_id: 1, all_threads_continued: None });
    assert_eq!(client.phase(), SessionPhase::Running);
    assert_eq!(client.thread_state_by_id(1).unwrap().status, ThreadStatus::Running);
    client.pause(1).unwrap();
    assert_eq!(client.phase(), SessionPhase::Running);
}

fn answer(success: bool, body: Option<Value>) -> Option<Response> {
    Some(Response { seq: 0, success, body, message: None })
}

#[test]
fn issuing_a_resume_or_a_step_leaves_the_cache_as_it_was() {
    let mut client = running_client();
    client.apply_event(&stopped(7));
    client.set_stack_frames(7, vec![frame(70, "main")]).unwrap();
    client.resume(7).unwrap();
    client.step_over(7).unwrap();
    client.step_in(7).unwrap();
    client.step_out(7).unwrap();
    client.step_back(7).unwrap();
    client.restart(7).unwrap();
    client.pause(7).unwrap();
    let state = client.thread_state_by_id(7).unwrap();
    assert_eq!(state.status, ThreadStatus::Stopped);
    assert_eq!(state.stack_frames.len(), 1);
    assert_eq!(client.thread_states().len(), 1);
}

#[test]
fn a_failed_resume_leaves_the_thread_stopped() {
    let mut client = running_client();
    client.apply_event(&stopped(7));
    client.resume(7).unwrap();
    assert!(matches!(
        client.resumed(7, answer(false, None)),
        Err(RequestError::Failed { message: None })
    ));
    assert_eq!(client.thread_state_by_id(7).unwrap().status, ThreadStatus::Stopped);
    assert!(matches!(client.resumed(7, None), Err(RequestError::ConnectionLost)));
    assert_eq!(client.thread_state_by_id(7).unwrap().status, ThreadStatus::Stopped);
    let other_shape = answer(true, Some(json(r#"{"allThreadsContinued": "all"}"#)));
    assert!(matches!(client.resumed(7, other_shape), Err(RequestError::Decode(_))));
    assert_eq!(client.thread_state_by_id(7).unwrap().status, ThreadStatus::Stopped);
}

#[test]
fn a_successful_resume_marks_the_cached_thread_as_running() {
    let mut client = running_client();
    client.apply_event(&stopped(7));
    client.set_current_stack_frame(7, Some(3)).unwrap();
    client.resume(7).unwrap();
    let all = client.resumed(7, answer(true, Some(json(r#"{"allThreadsContinued": true}"#))));
    assert!(matches!(all, Ok(Some(true))));
    let state = client.thread_state_by_id(7).unwrap();
    assert_eq!(state.status, ThreadStatus::Running);
    assert_eq!(state.current_stack_frame_id, Some(3));
    // A thread without an entry gets none.
    assert!(matches!(client.resumed(8, answer(true, None)), Ok(None)));
    assert!(client.thread_state_by_id(8).is_err());
}

#[test]
fn the_answer_to_a_step_marks_the_thread_as_running_on_success_only() {
    let mut client = running_client();
    client.apply_event(&stopped(2));
    client.step_in(2).unwrap();
    assert!(matches!(client.stepped(2, answer(false, None)), Err(RequestError::Failed { .. })));
    assert_eq!(client.thread_state_by_id(2).unwrap().status, ThreadStatus::Stopped);
    assert!(matches!(
        client.stepped(2, answer(true, Some(json("[]")))),
        Err(RequestError::Decode(_))
    ));
    assert_eq!(client.thread_state_by_id(2).unwrap().status, ThreadStatus::Stopped);
    assert!(client.stepped(2, answer(true, None)).is_ok());
    assert_eq!(client.thread_state_by_id(2).unwrap().status, ThreadStatus::Running);
}

fn frame(id: u64, name: &str) -> dap_types::StackFrame {
    dap_types::StackFrame {
        id,
        name: String::from(name),
        source: None,
        line: 1,
        column: 1,
        end_line: None,
        end_column: None,
        can_restart: None,
        instruction_pointer_reference: None,
        module_id: None,
        presentation_hint: None,
    }
}

fn scope(name: &str, variables_reference: u64) -> dap_types::Scope {
    dap_types::Scope {
        name: String::from(name),
        presentation_hint: None,
        variables_reference,
        named_variables: None,
        indexed_variables: None,
        expensive: false,
        source: None,
        line: None,
        column: None,
        end_line: None,
        end_column: None,
    }
}

fn variable(name: &str, value: &str) -> dap_types::Variable {
    dap_types::Variable {
        name: String::from(name),
        value: String::from(value),
        type_: None,
        presentation_hint: None,
        evaluate_name: None,
        variables_reference: 0,
        named_variables: None,
        indexed_variables: None,
        memory_reference: None,
    }
}

#[test]
fn what_the_host_fetched_accumulates_in_the_clients_cache() {
    let mut client = running_client();
    client.apply_event(&stopped(1));
    client.set_stack_frames(1, vec![frame(10, "inner"), frame(11, "outer")]).unwrap();
    client.set_current_stack_frame(1, Some(10)).unwrap();
    client.set_scopes(1, 10, vec![scope("Locals", 100)]).unwrap();
    client.set_variables(1, 100, vec![variable("x", "1"), variable("y", "2")]).unwrap();
    let state = client.thread_state_by_id(1).unwrap();
    assert_eq!(state.status, ThreadStatus::Stopped);
    assert_eq!(state.stack_frames[1].name, "outer");
    assert_eq!(state.current_stack_frame_id, Some(10));
    assert_eq!(state.scopes[&10][0].variables_reference, 100);
    assert_eq!(state.variables[&100][1].value, "2");
    assert_eq!(client.phase(), SessionPhase::Stopped);
}

#[test]
fn the_clients_cache_refuses_what_belongs_to_no_thread() {
    let mut client = running_client();
    let unknown = Err(UnknownThread { thread_id: 4 });
    assert_eq!(client.set_stack_frames(4, vec![frame(1, "f")]), unknown);
    assert_eq!(client.set_current_stack_frame(4, Some(1)), unknown);
    assert_eq!(client.set_scopes(4, 1, vec![scope("Locals", 2)]), unknown);
    assert_eq!(client.set_variables(4, 2, vec![variable("x", "1")]), unknown);
    assert_eq!(client.thread_states().len(), 0);
}

#[test]
fn a_success_without_body_gives_the_default_capabilities() {
    let mut client = client();
    client.initialize().unwrap();
    let capabilities = client.initialized(answer(true, None)).expect("the empty form");
    let expected = serde_json::to_value(dap_types::Capabilities::default()).unwrap();
    assert_eq!(serde_json::to_value(&capabilities).unwrap(), expected);
    let kept = client.capabilities().expect("captured");
    assert_eq!(serde_json::to_value(kept).unwrap(), expected);
    assert_eq!(client.phase(), SessionPhase::Initialized);
}

#[test]
fn building_arguments_spends_no_sequence_number() {
    let mut client = client();
    let arguments = client.initialize_arguments();
    assert_eq!(arguments.command(), Command::Initialize);
    assert!(matches!(&arguments, Arguments::Initialize(a) if a.adapter_id == "lldb"));
    let breakpoints = client.set_breakpoints_arguments(String::from("a.rs"), None);
    assert_eq!(breakpoints.command(), Command::SetBreakpoints);
    assert_eq!(client.phase(), SessionPhase::Uninitialized);
    assert_eq!(client.request(arguments).unwrap().seq, 0);
}

#[test]
fn the_builders_give_what_the_commands_send() {
    let statement = Some(SteppingGranularity::Statement);
    assert!(matches!(
        Arguments::resume(1),
        Arguments::Continue { thread_id: 1, single_thread: Some(true) }
    ));
    assert!(matches!(
        Arguments::step_over(2),
        Arguments::Next { thread_id: 2, single_thread: Some(true), granularity } if granularity == statement
    ));
    assert!(matches!(
        Arguments::step_in(3),
        Arguments::StepIn { thread_id: 3, single_thread: Some(true), target_id: None, granularity }
            if granularity == statement
    ));
    assert!(matches!(
        Arguments::step_out(4),
        Arguments::StepOut { thread_id: 4, single_thread: Some(true), granularity } if granularity == statement
    ));
    assert!(matches!(
        Arguments::step_back(5),
        Arguments::StepBack { thread_id: 5, single_thread: Some(true), granularity } if granularity == statement
    ));
    assert!(matches!(
        Arguments::restart(6),
        Arguments::StepBack { thread_id: 6, single_thread: Some(true), granularity } if granularity == statement
    ));
    assert!(matches!(Arguments::pause(7), Arguments::Pause { thread_id: 7 }));
    assert!(matches!(Arguments::launch(None), Arguments::Launch { raw } if raw.is_null()));
    assert!(matches!(
        Arguments::attach(Some(json("1"))),
        Arguments::Attach { raw } if raw == json("1")
    ));
    match Arguments::set_breakpoints(String::from("x.rs"), Some(json("2")), None) {
        Arguments::SetBreakpoints { source, breakpoints, lines, source_modified } => {
            assert_eq!(source.path.as_deref(), Some("x.rs"));
            assert_eq!(source.adapter_data, Some(json("2")));
            assert!(breakpoints.is_none() && lines.is_none() && source_modified.is_none());
        }
        other => panic!("unexpected {:?}", other),
    }
    match Arguments::initialize(String::from("gdb")) {
        Arguments::Initialize(a) => assert_eq!(a.adapter_id, "gdb"),
        other => panic!("unexpected {:?}", other),
    }
}

#[test]
fn resuming_an_uncached_thread_makes_no_entry() {
    let mut client = running_client();
    client.resume(77).unwrap();
    assert_eq!(client.thread_state_by_id(77).unwrap_err(), UnknownThread { thread_id: 77 });
    assert_eq!(client.thread_states().len(), 0);
}

#[test]
fn lookup_of_an_unseen_thread_is_a_recoverable_failure() {
    let mut client = running_client();
    assert_eq!(client.thread_state_by_id(5).unwrap_err(), UnknownThread { thread_id: 5 });
    client.apply_event(&Events::Thread { reason: ThreadReason::Started, thread_id: 5 });
    assert_eq!(client.thread_state_by_id(5).unwrap_err(), UnknownThread { thread_id: 5 });
    client.apply_event(&stopped(5));
    assert!(client.thread_state_by_id(5).is_ok());
    assert_eq!(client.thread_state_by_id(6).unwrap_err(), UnknownThread { thread_id: 6 });
}

#[test]
fn update_thread_state_status_sets_a_cached_thread_only() {
    let mut client = running_client();
    client.apply_event(&stopped(2));
    client.update_thread_state_status(2, ThreadStatus::Ended);
    assert_eq!(client.thread_state_by_id(2).unwrap().status, ThreadStatus::Ended);
    client.update_thread_state_status(3, ThreadStatus::Stopped);
    assert!(client.thread_state_by_id(3).is_err());
    assert_eq!(client.phase(), SessionPhase::Stopped);
}

#[test]
fn a_thread_exit_prunes_the_entry() {
    let mut client = running_client();
    client.apply_event(&stopped(1));
    client.apply_event(&stopped(2));
    client.apply_event(&Events::Thread { reason: ThreadReason::Exited, thread_id: 1 });
    assert!(client.thread_state_by_id(1).is_err());
    assert!(client.thread_state_by_id(2).is_ok());
    assert_eq!(client.thread_states().len(), 1);
}

#[test]
fn the_end_of_the_debuggee_ends_the_session() {
    let mut client = running_client();
    client.apply_event(&stopped(1));
    client.apply_event(&Events::Exited { exit_code: 0 });
    assert_eq!(client.phase(), SessionPhase::Ended);
    assert_eq!(client.thread_states().len(), 0);
    assert_eq!(client.resume(1).unwrap_err(), IssueError::WrongPhase(SessionPhase::Ended));
    let mut client = running_client();
    client.apply_event(&stopped(1));
    client.apply_event(&Events::Terminated);
    assert_eq!(client.phase(), SessionPhase::Ended);
    assert_eq!(client.thread_states().len(), 0);
    // A late stop does not bring the session back.
    client.apply_event(&stopped(1));
    assert_eq!(client.phase(), SessionPhase::Ended);
}

#[test]
fn a_stop_before_the_session_runs_is_cached_and_leaves_the_phase() {
    let mut client = initialized_client();
    client.apply_event(&stopped(1));
    assert_eq!(client.phase(), SessionPhase::Initialized);
    assert_eq!(client.thread_state_by_id(1).unwrap().status, ThreadStatus::Stopped);
    client.apply_event(&Events::Continued { thread_id: 1, all_threads_continued: Some(true) });
    assert_eq!(client.phase(), SessionPhase::Initialized);
    assert_eq!(client.thread_state_by_id(1).unwrap().status, ThreadStatus::Running);
    // The first stop that is observed makes the entry, in any phase.
    let mut fresh = DebugAdapterClient::new(DebugAdapterClientId(5), config(None));
    fresh.apply_event(&stopped(9));
    assert_eq!(fresh.phase(), SessionPhase::Uninitialized);
    assert!(fresh.thread_state_by_id(9).is_ok());
}

#[test]
fn a_stop_without_thread_stops_the_session_only() {
    let mut client = running_client();
    client.apply_event(&Events::Stopped {
        reason: StoppedReason::Pause,
        thread_id: None,
        all_threads_stopped: Some(true),
    });
    assert_eq!(client.phase(), SessionPhase::Stopped);
    assert_eq!(client.thread_states().len(), 0);
}

#[test]
fn other_events_change_nothing() {
    let mut client = running_client();
    client.apply_event(&Events::Initialized);
    client.apply_event(&Events::Other { event: String::from("output"), body: Some(json("{}")) });
    assert_eq!(client.phase(), SessionPhase::Running);
    assert_eq!(client.thread_states().len(), 0);
}

#[test]
fn handle_events_takes_in_and_hands_out_in_queue_order() {
    let mut client = running_client();
    let queue = vec![
        Payload::Event(stopped(1)),
        Payload::Event(stopped(2)),
        Payload::Event(Events::Thread { reason: ThreadReason::Exited, thread_id: 1 }),
        Payload::Event(Events::Continued { thread_id: 2, all_threads_continued: None }),
    ];
    let delivery = client.handle_events(queue);
    assert!(delivery.stray.is_none());
    assert_eq!(delivery.events.len(), 4);
    assert!(matches!(delivery.events[0], Events::Stopped { thread_id: Some(1), .. }));
    assert!(matches!(delivery.events[1], Events::Stopped { thread_id: Some(2), .. }));
    assert!(matches!(delivery.events[2], Events::Thread { thread_id: 1, .. }));
    assert!(matches!(delivery.events[3], Events::Continued { thread_id: 2, .. }));
    assert_eq!(client.phase(), SessionPhase::Running);
    assert!(client.thread_state_by_id(1).is_err());
    assert_eq!(client.thread_state_by_id(2).unwrap().status, ThreadStatus::Running);
}

#[test]
fn handle_events_fails_on_a_payload_that_is_no_event() {
    let mut client = running_client();
    let queue = vec![
        Payload::Event(stopped(1)),
        Payload::Request(ReverseRequest {
            seq: 12,
            command: String::from("runInTerminal"),
            arguments: None,
        }),
        Payload::Event(Events::Terminated),
    ];
    let delivery = client.handle_events(queue);
    assert_eq!(delivery.events.len(), 1);
    assert!(matches!(delivery.stray, Some(Payload::Request(ref r)) if r.seq == 12));
    // What stands behind the stray was not taken in.
    assert_eq!(client.phase(), SessionPhase::Stopped);
    assert!(client.thread_state_by_id(1).is_ok());
}

#[test]
fn request_issues_any_command_the_phase_allows() {
    let mut client = running_client();
    let request = client.request(Arguments::Pause { thread_id: 3 }).unwrap();
    assert_eq!(request.seq, 3);
    assert!(matches!(request.arguments, Arguments::Pause { thread_id: 3 }));
    assert_eq!(
        client.request(Arguments::ConfigurationDone).unwrap_err(),
        IssueError::WrongPhase(SessionPhase::Running)
    );
    // The refused request took no number.
    assert_eq!(client.request(Arguments::Pause { thread_id: 3 }).unwrap().seq, 4);
}

#[test]
fn the_last_sequence_number_is_never_given_twice() {
    let mut client = DebugAdapterClient::with_first_sequence_number(
        DebugAdapterClientId(1),
        config(None),
        u64::MAX - 1,
    );
    assert_eq!(client.next_request_id(), Some(u64::MAX - 1));
    assert_eq!(client.next_request_id(), None);
    assert_eq!(client.next_request_id(), None);
    assert_eq!(client.initialize().unwrap_err(), IssueError::SequenceExhausted);
    // The refusal changed nothing: the session has still not begun.
    assert_eq!(client.phase(), SessionPhase::Uninitialized);
}

#[test]
fn a_wrong_phase_is_reported_before_an_exhausted_counter() {
    let mut client = DebugAdapterClient::with_first_sequence_number(
        DebugAdapterClientId(1),
        config(None),
        u64::MAX,
    );
    assert_eq!(
        client.launch(None).unwrap_err(),
        IssueError::WrongPhase(SessionPhase::Uninitialized)
    );
    assert_eq!(client.initialize().unwrap_err(), IssueError::SequenceExhausted);
}

#[test]
fn a_session_over_standard_streams_from_spawn_to_launch() {
    let settings = config(None);
    let (mut boot, _) = Bootstrap::new(settings.connection, settings.port);
    assert_eq!(boot.advance(BootstrapEvent::Spawned), BootstrapAction::Start(Wiring::Pipes));
    let mut client = DebugAdapterClient::new(DebugAdapterClientId(3), settings);
    let initialize = client.initialize().expect("the first request");
    assert!(client.launch(None).is_err());
    let capabilities = client.initialized(capabilities_reply(initialize.seq));
    assert!(capabilities.is_ok());
    let launch = client.launch(Some(json(r#"{"program": "target/debug/app"}"#)));
    assert_eq!(launch.expect("capabilities are known").seq, 1);
}

#[test]
fn three_breakpoints_sent_two_answered_two_returned() {
    let mut client = initialized_client();
    client.launch(None).unwrap();
    let sent = vec![source_breakpoint(3), source_breakpoint(14), source_breakpoint(15)];
    let request = client.set_breakpoints(String::from("/src/main.rs"), Some(sent)).unwrap();
    let reply = Some(Response {
        seq: request.seq,
        success: true,
        body: Some(json(
            r#"{"breakpoints": [{"verified": true, "line": 3}, {"verified": true, "line": 15}]}"#,
        )),
        message: None,
    });
    let answered = verified_breakpoints(reply).expect("a breakpoints body");
    let lines: Vec<Option<u64>> = answered.iter().map(|b| b.line).collect();
    assert_eq!(lines, vec![Some(3), Some(15)]);
}

#[test]
fn a_command_by_name_goes_out_in_a_live_session() {
    let mut client = running_client();
    client.apply_event(&stopped(1));
    let arguments = json(r#"{"threadId": 1}"#);
    let request = client
        .request_by_name(String::from("stackTrace"), Some(arguments.clone()))
        .expect("a live session");
    assert_eq!(request.seq, 3);
    assert_eq!(request.command, "stackTrace");
    assert_eq!(request.arguments, Some(arguments));
    // Neither the phase nor the cache moved.
    assert_eq!(client.phase(), SessionPhase::Stopped);
    assert_eq!(client.thread_state_by_id(1).unwrap().status, ThreadStatus::Stopped);
    let next = client.request_by_name(String::from("threads"), None).unwrap();
    assert_eq!(next.seq, 4);
    assert_eq!(next.arguments, None);
    assert_eq!(client.pause(1).unwrap().seq, 5);
}

#[test]
fn a_command_by_name_waits_for_a_live_session() {
    let mut client = initialized_client();
    assert_eq!(
        client.request_by_name(String::from("scopes"), None).unwrap_err(),
        IssueError::WrongPhase(SessionPhase::Initialized)
    );
    // The refusal took no number.
    assert_eq!(client.launch(None).unwrap().seq, 1);
    let mut ended = running_client();
    ended.apply_event(&Events::Terminated);
    assert_eq!(
        ended.request_by_name(String::from("variables"), None).unwrap_err(),
        IssueError::WrongPhase(SessionPhase::Ended)
    );
}
