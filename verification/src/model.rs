//! Response models of the dialog and subscriber endpoints.
use vstd::prelude::*;

pub mod dialog;
pub mod subscriber;

pub use dialog::{
    AttachmentCount, Chatmate, Dialog, DialogsExtra, DialogsResponse, MediaAttachmentCount, Message,
    MessageAttachments, MessagesExtra, MessagesResponse,
};
pub use subscriber::{LevelFlags, Subscriber, SubscriberLevel, SubscribersResponse};

verus! {

/// `serde_json::Value`: unstructured JSON, carried through opaquely.
#[verifier::external_type_specification]
#[verifier::external_body]
pub struct ExJsonValue(serde_json::Value);

} // verus!
