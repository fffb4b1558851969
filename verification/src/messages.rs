//! The fixed messages of the local protocol. Serializing the variable
//! payloads is the socket layer's work; the acknowledgment, whose bytes
//! never vary, is fixed here.

use vstd::prelude::*;

use crate::common::{GeneralMessage, MessageType};
use crate::version::{code_suffix_spec, local_version_code, local_version_number, Version};

verus! {

/// The payload of every acknowledgment frame.
pub open spec fn ack_payload_spec() -> Seq<char> {
    "{\"message_received\":true}"@
}

/// The acknowledgment the aggregator answers a status update with.
pub fn make_acknowledge_message() -> (r: GeneralMessage)
    ensures
        r.version@ == local_version_number() + code_suffix_spec(local_version_code()),
        r.msg_type == MessageType::Acknowledgment,
        r.payload@ == ack_payload_spec(),
        r.error is None,
{
    GeneralMessage {
        version: Version::get(),
        msg_type: MessageType::Acknowledgment,
        payload: String::from_str("{\"message_received\":true}"),
        error: None,
    }
}

} // verus!
