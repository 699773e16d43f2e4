use vstd::prelude::*;

use crate::ipc::InitialInfo;
use crate::layer_tree::ContextId;

verus! {

/// The window events that the host processes tell apart.
#[derive(Debug, Clone, Copy, PartialEq, Eq, Structural)]
pub enum WindowEvent {
    CloseRequested,
    RedrawRequested,
    /// Any other event, which the host ignores.
    Other,
}

/// A step that the host's event loop performs on behalf of the decisions below.
#[derive(Debug, Clone, Copy, PartialEq, Eq, Structural)]
pub enum HostAction {
    /// Open the window with the given logical inner size.
    CreateWindow { width: i32, height: i32 },
    /// Put a `CALayerHost` showing `context_id` into the window's layer tree.
    InjectLayerHost { context_id: ContextId },
    /// Tell the user that the close button was pressed.
    AnnounceClose,
    /// Kill the browser child process.
    KillChild,
    /// Leave the event loop.
    ExitLoop,
    /// Ask the window for another redraw.
    RequestRedraw,
}

/// The steps a host takes on a window event. A host that started the browser
/// child process (`owns_child`) kills it before leaving the loop.
pub open spec fn window_event_plan(event: WindowEvent, owns_child: bool) -> Seq<HostAction> {
    match event {
        WindowEvent::CloseRequested => if owns_child {
            seq![HostAction::AnnounceClose, HostAction::KillChild, HostAction::ExitLoop]
        } else {
            seq![HostAction::AnnounceClose, HostAction::ExitLoop]
        },
        WindowEvent::RedrawRequested => seq![HostAction::RequestRedraw],
        WindowEvent::Other => Seq::empty(),
    }
}

/// The steps a host takes on a window event. A redraw needs an open window.
pub fn window_event_actions(event: WindowEvent, owns_child: bool, window_open: bool) -> (actions: Vec<
    HostAction,
>)
    requires
        event == WindowEvent::RedrawRequested ==> window_open,
    ensures
        actions@ == window_event_plan(event, owns_child),
        event == WindowEvent::RedrawRequested ==> actions@ == seq![HostAction::RequestRedraw],
        event == WindowEvent::Other ==> actions@.len() == 0,
        event == WindowEvent::CloseRequested ==> actions@ == (if owns_child {
            seq![HostAction::AnnounceClose, HostAction::KillChild, HostAction::ExitLoop]
        } else {
            seq![HostAction::AnnounceClose, HostAction::ExitLoop]
        }),
{
    match event {
        WindowEvent::CloseRequested => {
            if owns_child {
                vec![HostAction::AnnounceClose, HostAction::KillChild, HostAction::ExitLoop]
            } else {
                vec![HostAction::AnnounceClose, HostAction::ExitLoop]
            }
        },
        WindowEvent::RedrawRequested => vec![HostAction::RequestRedraw],
        WindowEvent::Other => Vec::new(),
    }
}

/// The steps a host takes when it resumes with the browser's initial
/// information: open a window of the browser's size, then show the browser's
/// context in it.
pub open spec fn resume_plan(info: InitialInfo) -> Seq<HostAction> {
    seq![
        HostAction::CreateWindow { width: info.window_width, height: info.window_height },
        HostAction::InjectLayerHost { context_id: info.context_id },
    ]
}

/// The decisions of the host process that shows the browser's layer in a
/// window of its own, once the browser has sent its initial information.
pub struct HostApp {
    pub initial_info: InitialInfo,
    /// Whether the window has been created.
    pub window_open: bool,
}

impl HostApp {
    /// The host before its window exists.
    pub fn new(initial_info: InitialInfo) -> (app: HostApp)
        ensures
            app.initial_info == initial_info,
            !app.window_open,
    {
        HostApp { initial_info, window_open: false }
    }

    /// On resumption: open a window of the browser's size and show the
    /// browser's context in it.
    pub fn resumed(&mut self) -> (actions: Vec<HostAction>)
        ensures
            final(self).window_open,
            final(self).initial_info == old(self).initial_info,
            actions@ == resume_plan(old(self).initial_info),
            actions@ == seq![
                HostAction::CreateWindow {
                    width: old(self).initial_info.window_width,
                    height: old(self).initial_info.window_height,
                },
                HostAction::InjectLayerHost { context_id: old(self).initial_info.context_id },
            ],
    {
        let info = self.initial_info;
        self.window_open = true;
        vec![
            HostAction::CreateWindow { width: info.window_width, height: info.window_height },
            HostAction::InjectLayerHost { context_id: info.context_id },
        ]
    }

    /// On a window event: the host owns the browser child process and kills
    /// it when its window closes.
    pub fn window_event(&self, event: WindowEvent) -> (actions: Vec<HostAction>)
        requires
            event == WindowEvent::RedrawRequested ==> self.window_open,
        ensures
            actions@ == window_event_plan(event, true),
            event == WindowEvent::RedrawRequested ==> actions@ == seq![HostAction::RequestRedraw],
            event == WindowEvent::Other ==> actions@.len() == 0,
            event == WindowEvent::CloseRequested ==> actions@ == seq![
                HostAction::AnnounceClose,
                HostAction::KillChild,
                HostAction::ExitLoop,
            ],
    {
        window_event_actions(event, true, self.window_open)
    }
}

/// How the event loop of the web-view host goes on after an event.
#[derive(Debug, Clone, Copy, PartialEq, Eq, Structural)]
pub enum ControlFlow {
    /// Sleep until the next event.
    Wait,
    /// Leave the loop.
    Exit,
}

/// The web-view host waits for events and leaves when its window is asked to
/// close.
pub fn control_flow(event: WindowEvent) -> (flow: ControlFlow)
    ensures
        flow == (if event == WindowEvent::CloseRequested { ControlFlow::Exit } else { ControlFlow::Wait }),
{
    match event {
        WindowEvent::CloseRequested => ControlFlow::Exit,
        _ => ControlFlow::Wait,
    }
}

/// Whether `c` is an ASCII decimal digit.
pub open spec fn is_decimal_digit(c: char) -> bool {
    '0' <= c && c <= '9'
}

/// The value of a string of decimal digits, most significant first.
pub open spec fn decimal_value(digits: Seq<char>) -> nat
    decreases digits.len(),
{
    if digits.len() == 0 {
        0
    } else {
        decimal_value(digits.drop_last()) * 10 + ((digits.last() as nat) - ('0' as nat)) as nat
    }
}

/// The `u32` that a string denotes in decimal: an optional `+` followed by at
/// least one digit and nothing else, of a value that fits in a `u32`.
pub open spec fn decimal_u32(s: Seq<char>) -> Option<u32> {
    let digits = if s.len() > 0 && s[0] == '+' {
        s.drop_first()
    } else {
        s
    };
    if digits.len() > 0 && (forall|i: int| 0 <= i < digits.len() ==> is_decimal_digit(#[trigger] digits[i]))
        && decimal_value(digits) <= u32::MAX {
        Some(decimal_value(digits) as u32)
    } else {
        None
    }
}

/// `str::parse::<u32>`, which reads an optional `+` sign followed by decimal
/// digits only, and fails on an empty string, on any other character and on
/// a value above `u32::MAX`; the error kind is dropped.
#[verifier::external_body]
fn parse_u32(s: &str) -> (n: Option<u32>)
    ensures
        n == decimal_u32(s@),
{
    s.parse::<u32>().ok()
}

/// Why the viewer cannot tell which context to show.
#[derive(Debug, Clone, Copy, PartialEq, Eq, Structural)]
pub enum ContextIdError {
    /// The `CONTEXT_ID` variable is not set.
    Missing,
    /// The `CONTEXT_ID` variable does not hold a `u32` in decimal.
    Invalid,
}

/// The context that the stand-alone viewer shows, from the value of its
/// `CONTEXT_ID` environment variable (`None` when it is not set).
pub fn context_id_from_env(value: Option<&str>) -> (id: Result<ContextId, ContextIdError>)
    ensures
        match value {
            None => id == Err::<ContextId, ContextIdError>(ContextIdError::Missing),
            Some(s) => match decimal_u32(s@) {
                Some(n) => id == Ok::<ContextId, ContextIdError>(n),
                None => id == Err::<ContextId, ContextIdError>(ContextIdError::Invalid),
            },
        },
{
    match value {
        None => Err(ContextIdError::Missing),
        Some(s) => match parse_u32(s) {
            Some(n) => Ok(n),
            None => Err(ContextIdError::Invalid),
        },
    }
}

} // verus!
