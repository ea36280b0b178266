//! The agent capability: producing messages and consuming them.
use vstd::prelude::*;

verus! {

/// An agent that takes in messages.
pub trait ConsumerAgent {
    type Mrx;
    type Error;

    /// Takes in one message.
    fn receive_message(&mut self, mrx: Self::Mrx) -> Result<(), Self::Error>;
}

/// An agent that puts out messages.
pub trait ProducerAgent {
    type Mtx;
    type Error;

    /// Based on the current state of the agent, replies with a message.
    fn send_message(&mut self) -> Result<Self::Mtx, Self::Error>;
}

/// An agent with a name to show to the others.
pub trait NamedAgent {
    fn name(&self) -> &str;
}

} // verus!
