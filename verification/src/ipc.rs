use vstd::prelude::*;

use crate::layer_tree::ContextId;

verus! {

/// What the browser child process tells the host process once its page has
/// loaded: the rendering context to show and the size of its window.
#[derive(Debug, Clone, Copy, PartialEq, Eq, Structural)]
pub struct InitialInfo {
    pub context_id: ContextId,
    pub window_width: i32,
    pub window_height: i32,
}

/// A message from the browser child process to the host process.
///
/// The sizes of `SetSize` are `f64` values on the wire; here they are held as
/// their IEEE 754 bit patterns (`f64::to_bits`), which keeps them exactly.
#[derive(Debug, Clone, Copy, PartialEq, Eq, Structural)]
pub enum Payload {
    Initialize(InitialInfo),
    SetSize { width_bits: u64, height_bits: u64 },
}

impl Payload {
    /// The initial information carried by an `Initialize` message; `None`
    /// for any other message, which the host refuses as a first message.
    pub fn initial_info(self) -> (info: Option<InitialInfo>)
        ensures
            match self {
                Payload::Initialize(i) => info == Some(i),
                _ => info is None,
            },
    {
        match self {
            Payload::Initialize(info) => Some(info),
            _ => None,
        }
    }
}

} // verus!
