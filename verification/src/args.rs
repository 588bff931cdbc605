//! The options of the command-line client.
use vstd::prelude::*;

verus! {

/// What the client sends, how often and how fast.
#[derive(Clone, Debug, PartialEq, Eq)]
pub struct Args {
    /// Message to send to the server.
    pub message: String,
    /// Number of times to send the message.
    pub repeat: u64,
    /// Time in milliseconds to wait between messages.
    pub delay: u64,
    /// Whether to wait for the response before sending the next message.
    pub wait: bool,
}

impl Args {
    /// The options for sending `message`, with every other option at its
    /// default: sent once, without delay, without waiting for the response.
    pub fn new(message: String) -> (args: Args)
        ensures
            args.message == message,
            args.repeat == 1,
            args.delay == 0,
            !args.wait,
    {
        Args { message, repeat: 1, delay: 0, wait: false }
    }
}

} // verus!
