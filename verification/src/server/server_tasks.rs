//! The tasks of one tick of the server, and the events of its interface.

use vstd::prelude::*;

verus! {

/// What a task works on.
#[derive(Clone, Copy, Debug, PartialEq, Eq, Structural)]
pub enum TaskTarget {
    /// The engine: entities, world and events.
    Engine,
    /// The window.
    Window,
}

/// One task of a tick.
#[derive(Clone, Copy, Debug, PartialEq, Eq, Hash, Structural)]
pub enum ServerTask {
    ApplyEvents,
    Main,
    AfterMain,
    PrepareRendering,
    SendMustSync,
    MultiFirstPart,
    MultiSecondPart,
    MultiThirdPart,
    MultiFourthPart,
    SendFramebuf,
    WaitForPresent,
}

impl ServerTask {
    /// What the task works on.
    #[verifier::allow_in_spec]
    pub fn uses_type(&self) -> TaskTarget
        returns
            (match *self {
                ServerTask::SendFramebuf | ServerTask::WaitForPresent => TaskTarget::Window,
                _ => TaskTarget::Engine,
            }),
    {
        match self {
            ServerTask::SendFramebuf | ServerTask::WaitForPresent => TaskTarget::Window,
            _ => TaskTarget::Engine,
        }
    }

    /// The greatest number of threads that may share the task: eight for
    /// the two passes that work vehicle by vehicle, one for all others.
    #[verifier::allow_in_spec]
    pub fn max_threads(&self) -> usize
        returns
            (match *self {
                ServerTask::Main | ServerTask::AfterMain => 8usize,
                _ => 1usize,
            }),
    {
        match self {
            ServerTask::Main | ServerTask::AfterMain => 8,
            _ => 1,
        }
    }

    /// The number of the task among the tasks that work on the same thing.
    #[verifier::allow_in_spec]
    pub fn type_task_id(&self) -> usize
        returns
            (match *self {
                ServerTask::ApplyEvents => 0usize,
                ServerTask::Main => 1usize,
                ServerTask::AfterMain => 2usize,
                ServerTask::PrepareRendering => 3usize,
                ServerTask::SendMustSync => 30usize,
                ServerTask::MultiFirstPart => 10usize,
                ServerTask::MultiSecondPart => 11usize,
                ServerTask::MultiThirdPart => 12usize,
                ServerTask::MultiFourthPart => 13usize,
                ServerTask::SendFramebuf => 0usize,
                ServerTask::WaitForPresent => 1usize,
            }),
    {
        match self {
            ServerTask::ApplyEvents => 0,
            ServerTask::Main => 1,
            ServerTask::AfterMain => 2,
            ServerTask::PrepareRendering => 3,
            ServerTask::SendMustSync => 30,
            ServerTask::MultiFirstPart => 10,
            ServerTask::MultiSecondPart => 11,
            ServerTask::MultiThirdPart => 12,
            ServerTask::MultiFourthPart => 13,
            ServerTask::SendFramebuf => 0,
            ServerTask::WaitForPresent => 1,
        }
    }
}

/// What a user of the interface did.
#[derive(Clone, Debug, PartialEq, Eq, Hash)]
pub enum GameUserEvent {
    ClickedCoolButton,
    ClickedBadButton,
    IncreasedThatValue(String),
    DecreasedThatValue(String),
    ChoseThatValue(String, String),
}

/// Does nothing.
pub fn cool() {
}

} // verus!
