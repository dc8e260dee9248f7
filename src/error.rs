use vstd::prelude::*;

verus! {

/// The ways an operation can fail. Every one of them ends the operation; none
/// is retried.
#[derive(Clone, Copy, Debug, PartialEq, Eq, Structural)]
pub enum ChirpError {
    /// No credential file is stored yet.
    ConfigNotFound,
    /// The credential file could not be read or written.
    ConfigIo,
    /// The stored text is not a valid credential record.
    ConfigParse,
    /// The user's home directory could not be determined.
    HomeDirectoryUnavailable,
    /// The notification service could not be reached or refused the message.
    Delivery,
}

} // verus!
