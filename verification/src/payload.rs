//! Request bodies: the notification payload, the push-submission body,
//! and the client-registration body.

use vstd::prelude::*;

verus! {

/// The payload flag bit that marks a blob as already-encrypted content.
pub const ENCRYPTED_FLAG: u32 = 1;

/// One notification payload as submitted by the upstream caller. The
/// blob is an opaque string: a ciphertext or a plaintext event body,
/// depending on the flag bit.
#[derive(Debug, PartialEq, Eq)]
pub struct MessagePayload {
    pub topic: Option<String>,
    pub flags: u32,
    pub blob: String,
}

impl Clone for MessagePayload {
    fn clone(&self) -> (res: Self)
        ensures
            res == *self,
    {
        MessagePayload {
            topic: crate::strutil::clone_opt_string(&self.topic),
            flags: self.flags,
            blob: self.blob.clone(),
        }
    }
}

impl MessagePayload {
    /// Whether the flag bit for already-encrypted content is set.
    pub open spec fn spec_is_encrypted(&self) -> bool {
        self.flags & ENCRYPTED_FLAG == ENCRYPTED_FLAG
    }

    pub fn is_encrypted(&self) -> (r: bool)
        ensures
            r == self.spec_is_encrypted(),
    {
        (self.flags & ENCRYPTED_FLAG) == ENCRYPTED_FLAG
    }
}

/// The body of one push submission: the caller-chosen notification id
/// and the payload to forward.
#[derive(Debug, Clone, PartialEq, Eq)]
pub struct PushMessageBody {
    pub id: String,
    pub payload: MessagePayload,
}

/// The body of one client registration.
#[derive(Debug, Clone, PartialEq, Eq)]
pub struct RegisterBody {
    pub client_id: String,
    pub push_type: String,
    pub token: String,
}

} // verus!
