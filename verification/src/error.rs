use vstd::prelude::*;

verus! {

/// Why a client operation was refused. Each of these is found before anything
/// reaches the transport.
#[derive(Clone, Copy, Debug, PartialEq, Eq, Structural)]
pub enum ClientError {
    /// The name does not parse as a topic filter.
    InvalidTopic,
    /// Subscribe or unsubscribe named a topic that has no handler.
    UnknownTopic,
    /// The topic of a publish holds a wildcard.
    InvalidPublishTopic,
    /// A packet arrived that a client never receives.
    ProtocolViolation,
}

impl ClientError {
    /// The name of the error, as it is shown to users.
    pub fn message(&self) -> (text: &'static str)
        ensures
            text@ == match *self {
                ClientError::InvalidTopic => "InvalidTopic"@,
                ClientError::UnknownTopic => "UnknownTopic"@,
                ClientError::InvalidPublishTopic => "InvalidPublishTopic"@,
                ClientError::ProtocolViolation => "ProtocolViolation"@,
            },
    {
        match self {
            ClientError::InvalidTopic => "InvalidTopic",
            ClientError::UnknownTopic => "UnknownTopic",
            ClientError::InvalidPublishTopic => "InvalidPublishTopic",
            ClientError::ProtocolViolation => "ProtocolViolation",
        }
    }
}

} // verus!
