//! The message suite: messages to the user are not provided.

use vstd::prelude::*;

use crate::ofx_constants::kOfxStatErrUnsupported;

verus! {

/// The operations of the message suite.
pub struct MessageSuite;

/// The message suite that the host hands to plug-ins.
pub fn message_suite() -> (r: MessageSuite) {
    MessageSuite
}

impl MessageSuite {
    /// Posting a message is not provided.
    pub fn message(&self) -> (status: i32)
        ensures
            status == kOfxStatErrUnsupported,
    {
        kOfxStatErrUnsupported
    }
}

} // verus!
