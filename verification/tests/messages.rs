use layer_sharing::browser::{check_execute_result, process_role, AfterExecute, ExecuteError, ProcessRole};
use layer_sharing::host::{
    context_id_from_env, control_flow, window_event_actions, ContextIdError, ControlFlow, HostAction,
    HostApp, WindowEvent,
};
use layer_sharing::ipc::{InitialInfo, Payload};

fn info() -> InitialInfo {
    InitialInfo { context_id: 77, window_width: 1024, window_height: 768 }
}

#[test]
fn initialize_payload_gives_its_info() {
    assert_eq!(Payload::Initialize(info()).initial_info(), Some(info()));
}

#[test]
fn set_size_payload_gives_no_info() {
    let p = Payload::SetSize { width_bits: 800.0f64.to_bits(), height_bits: 600.0f64.to_bits() };
    assert_eq!(p.initial_info(), None);
}

#[test]
fn host_resumes_with_window_and_layer() {
    let mut app = HostApp::new(info());
    assert!(!app.window_open);
    let actions = app.resumed();
    assert_eq!(
        actions,
        vec![
            HostAction::CreateWindow { width: 1024, height: 768 },
            HostAction::InjectLayerHost { context_id: 77 },
        ]
    );
    assert!(app.window_open);
    assert_eq!(app.initial_info, info());
}

#[test]
fn host_close_kills_child_and_exits() {
    let mut app = HostApp::new(info());
    app.resumed();
    assert_eq!(
        app.window_event(WindowEvent::CloseRequested),
        vec![HostAction::AnnounceClose, HostAction::KillChild, HostAction::ExitLoop]
    );
}

#[test]
fn host_redraw_requests_redraw() {
    let mut app = HostApp::new(info());
    app.resumed();
    assert_eq!(app.window_event(WindowEvent::RedrawRequested), vec![HostAction::RequestRedraw]);
    assert_eq!(app.window_event(WindowEvent::Other), vec![]);
}

#[test]
fn viewer_close_only_exits() {
    assert_eq!(
        window_event_actions(WindowEvent::CloseRequested, false, true),
        vec![HostAction::AnnounceClose, HostAction::ExitLoop]
    );
    assert_eq!(window_event_actions(WindowEvent::Other, false, false), vec![]);
}

#[test]
fn web_view_host_control_flow() {
    assert_eq!(control_flow(WindowEvent::CloseRequested), ControlFlow::Exit);
    assert_eq!(control_flow(WindowEvent::RedrawRequested), ControlFlow::Wait);
    assert_eq!(control_flow(WindowEvent::Other), ControlFlow::Wait);
}

#[test]
fn process_role_from_type_switch() {
    assert_eq!(process_role(0), ProcessRole::Browser);
    assert_eq!(process_role(1), ProcessRole::Subprocess);
    assert_eq!(process_role(2), ProcessRole::Browser);
}

#[test]
fn execute_results() {
    assert_eq!(check_execute_result(ProcessRole::Browser, -1), Ok(AfterExecute::InitializeBrowser));
    assert_eq!(check_execute_result(ProcessRole::Browser, 0), Err(ExecuteError::CannotExecuteBrowser));
    assert_eq!(check_execute_result(ProcessRole::Subprocess, 0), Ok(AfterExecute::Exit));
    assert_eq!(check_execute_result(ProcessRole::Subprocess, 3), Ok(AfterExecute::Exit));
    assert_eq!(check_execute_result(ProcessRole::Subprocess, -1), Err(ExecuteError::CannotExecuteSubprocess));
}

#[test]
fn context_id_parsing() {
    assert_eq!(context_id_from_env(Some("12345")), Ok(12345));
    assert_eq!(context_id_from_env(Some("+7")), Ok(7));
    assert_eq!(context_id_from_env(Some("4294967295")), Ok(u32::MAX));
    assert_eq!(context_id_from_env(Some("4294967296")), Err(ContextIdError::Invalid));
    assert_eq!(context_id_from_env(Some("")), Err(ContextIdError::Invalid));
    assert_eq!(context_id_from_env(Some("+")), Err(ContextIdError::Invalid));
    assert_eq!(context_id_from_env(Some("-1")), Err(ContextIdError::Invalid));
    assert_eq!(context_id_from_env(Some(" 1")), Err(ContextIdError::Invalid));
    assert_eq!(context_id_from_env(Some("1a")), Err(ContextIdError::Invalid));
    assert_eq!(context_id_from_env(None), Err(ContextIdError::Missing));
}
