//! The companion agent's state and the avatar's expressions.
use vstd::prelude::*;

verus! {

/// What the agent is doing.
#[derive(Debug, Clone, Copy, PartialEq, Eq, Structural)]
pub enum AgentState {
    Idle,
    Thinking,
    Speaking,
}

/// One exchange with the assistant.
pub struct Interaction {
    pub prompt: String,
    pub response: String,
}

/// The companion: its state and the remembered exchanges.
pub struct Companion {
    pub state: AgentState,
    pub memory: Vec<Interaction>,
}

/// Why an exchange with the assistant failed.
#[derive(Debug, Clone, Copy, PartialEq, Eq, Structural)]
pub enum Error {
    Network,
    Parse,
}

/// The avatar's expressions.
#[derive(Debug, Clone, Copy, PartialEq, Eq, Structural)]
pub enum Expression {
    Neutral,
    Curious,
    Processing,
    Happy,
}

impl Companion {
    /// An idle companion with no memory.
    pub fn new() -> (c: Self)
        ensures
            c.state == AgentState::Idle,
            c.memory@.len() == 0,
    {
        Companion { state: AgentState::Idle, memory: Vec::new() }
    }
}

/// Show an expression on the avatar.  No renderer is attached on this
/// board: the call has no effect.
pub fn set_expression(expr: Expression) {
}

} // verus!
