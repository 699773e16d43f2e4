use vstd::prelude::*;

use crate::ipc::{InitialInfo, Payload};
use crate::layer_tree::{
    CaLayer, first_context_below, first_host_below, get_ca_context_id, hosts_below, lemma_hosts_in_are_hosts,
};

verus! {

/// The `Initialize` message for a window whose root layer is `root_layer`:
/// the context of the first layer host below it and the window's size.
pub open spec fn initialize_message(root_layer: CaLayer, window_width: i32, window_height: i32) -> Option<
    Payload,
> {
    match first_context_below(root_layer) {
        Some(context_id) => Some(
            Payload::Initialize(InitialInfo { context_id, window_width, window_height }),
        ),
        None => None,
    }
}

/// The `Initialize` message that the browser child process sends when its page
/// has loaded: the context of the first layer host in its window's layer tree
/// and the window's size. `None` when the tree holds no layer host.
pub fn initialize_payload(root_layer: &CaLayer, window_width: i32, window_height: i32) -> (payload:
    Option<Payload>)
    ensures
        payload == initialize_message(*root_layer, window_width, window_height),
        payload is Some <==> hosts_below(*root_layer).len() > 0,
        payload == (match first_host_below(*root_layer) {
            Some(host) => Some(
                Payload::Initialize(
                    InitialInfo { context_id: host.host_context.unwrap(), window_width, window_height },
                ),
            ),
            None => None,
        }),
{
    proof {
        lemma_hosts_in_are_hosts(root_layer.sublayers@);
    }
    match get_ca_context_id(root_layer) {
        Some(context_id) => Some(Payload::Initialize(InitialInfo { context_id, window_width, window_height })),
        None => None,
    }
}

/// Which process of the browser application is running.
#[derive(Debug, Clone, Copy, PartialEq, Eq, Structural)]
pub enum ProcessRole {
    /// The main browser process, started without a `type` switch.
    Browser,
    /// A helper process (renderer, GPU, ...), started with a `type` switch.
    Subprocess,
}

/// The role of the process from the answer of the command line's
/// `has_switch("type")`, which is `1` when the switch is present.
pub fn process_role(has_type_switch: i32) -> (role: ProcessRole)
    ensures
        role == (if has_type_switch != 1 { ProcessRole::Browser } else { ProcessRole::Subprocess }),
{
    if has_type_switch != 1 {
        ProcessRole::Browser
    } else {
        ProcessRole::Subprocess
    }
}

/// What the process does after `execute_process` returned.
#[derive(Debug, Clone, Copy, PartialEq, Eq, Structural)]
pub enum AfterExecute {
    /// The browser process goes on to initialize the framework and run its loop.
    InitializeBrowser,
    /// A helper process has done its work and returns.
    Exit,
}

/// Why the process cannot go on after `execute_process`.
#[derive(Debug, Clone, Copy, PartialEq, Eq, Structural)]
pub enum ExecuteError {
    /// The browser process got another code than `-1`.
    CannotExecuteBrowser,
    /// A helper process got a negative code.
    CannotExecuteSubprocess,
}

/// Checks the code that `execute_process` returned: `-1` for the browser
/// process, which then initializes the framework; a code `>= 0` for a helper
/// process, which then exits.
pub fn check_execute_result(role: ProcessRole, code: i32) -> (outcome: Result<AfterExecute, ExecuteError>)
    ensures
        match role {
            ProcessRole::Browser => outcome == (if code == -1 {
                Ok::<AfterExecute, ExecuteError>(AfterExecute::InitializeBrowser)
            } else {
                Err::<AfterExecute, ExecuteError>(ExecuteError::CannotExecuteBrowser)
            }),
            ProcessRole::Subprocess => outcome == (if code >= 0 {
                Ok::<AfterExecute, ExecuteError>(AfterExecute::Exit)
            } else {
                Err::<AfterExecute, ExecuteError>(ExecuteError::CannotExecuteSubprocess)
            }),
        },
{
    match role {
        ProcessRole::Browser => {
            if code == -1 {
                Ok(AfterExecute::InitializeBrowser)
            } else {
                Err(ExecuteError::CannotExecuteBrowser)
            }
        },
        ProcessRole::Subprocess => {
            if code >= 0 {
                Ok(AfterExecute::Exit)
            } else {
                Err(ExecuteError::CannotExecuteSubprocess)
            }
        },
    }
}

} // verus!
