use vstd::prelude::*;

use crate::credentials::{
    load_credentials, spec_loaded, Credentials, StoredFile,
};
use crate::error::ChirpError;
use crate::priority::{service_priority, spec_service_priority, PriorityLevel};

verus! {

/// The service's notification sound, carried through untouched.
#[verifier::external_type_specification]
#[verifier::external_body]
pub struct ExSound(pushover::Sound);

/// The service's message request, whose fields are read as declared.
#[verifier::external_type_specification]
pub struct ExSendMessage(pushover::requests::message::SendMessage);

/// One notification to deliver: built fresh for each command, never stored.
#[derive(Clone, Debug)]
pub struct Notification {
    pub title: String,
    pub message: String,
    pub priority: PriorityLevel,
}

/// A notification as values: title, message and priority level.
pub struct NotificationView {
    pub title: Seq<char>,
    pub message: Seq<char>,
    pub priority: PriorityLevel,
}

impl View for Notification {
    type V = NotificationView;

    open spec fn view(&self) -> NotificationView {
        NotificationView { title: self.title@, message: self.message@, priority: self.priority }
    }
}

/// A request that addresses `message` to the user with `token`, and sets
/// nothing else.
pub open spec fn is_plain_request(
    m: pushover::requests::message::SendMessage,
    token: Seq<char>,
    user_key: Seq<char>,
    message: Seq<char>,
) -> bool {
    &&& m.token@ == token
    &&& m.user_key@ == user_key
    &&& m.message@ == message
    &&& m.devices@.len() == 0
    &&& m.title is None
    &&& m.url is None
    &&& m.url_title is None
    &&& m.priority is None
    &&& m.timestamp is None
    &&& m.sound is None
}

/// Relies on SendMessage::new: it stores the three strings and leaves every
/// optional field unset and the device list empty.
#[verifier::external_body]
fn new_request(token: &str, user_key: &str, message: &str) -> (r:
    pushover::requests::message::SendMessage)
    ensures
        is_plain_request(r, token@, user_key@, message@),
{
    pushover::requests::message::SendMessage::new(token, user_key, message)
}

/// Relies on SendMessage::set_title: it sets the title and nothing else.
#[verifier::external_body]
fn set_request_title(m: &mut pushover::requests::message::SendMessage, title: &str)
    ensures
        final(m).title is Some,
        final(m).title->Some_0@ == title@,
        final(m).token == old(m).token,
        final(m).user_key == old(m).user_key,
        final(m).message == old(m).message,
        final(m).devices == old(m).devices,
        final(m).url == old(m).url,
        final(m).url_title == old(m).url_title,
        final(m).priority == old(m).priority,
        final(m).timestamp == old(m).timestamp,
        final(m).sound == old(m).sound,
{
    m.set_title(title)
}

/// Relies on SendMessage::set_priority: it sets the priority and nothing else.
pub assume_specification[ pushover::requests::message::SendMessage::set_priority ](
    m: &mut pushover::requests::message::SendMessage,
    p: pushover::Priority,
)
    ensures
        final(m).priority == Some(p),
        final(m).token == old(m).token,
        final(m).user_key == old(m).user_key,
        final(m).message == old(m).message,
        final(m).devices == old(m).devices,
        final(m).title == old(m).title,
        final(m).url == old(m).url,
        final(m).url_title == old(m).url_title,
        final(m).timestamp == old(m).timestamp,
        final(m).sound == old(m).sound,
;

/// Builds the service request for a notification sent with the given
/// credentials: the request carries the credentials, the message, the title
/// and the mapped priority, and nothing else.
pub fn build_request(creds: &Credentials, n: &Notification) -> (r:
    pushover::requests::message::SendMessage)
    ensures
        r.token@ == creds.api_token@,
        r.user_key@ == creds.user_key@,
        r.message@ == n.message@,
        r.title matches Some(t) && t@ == n.title@,
        r.priority == Some(spec_service_priority(n.priority)),
        r.devices@.len() == 0,
        r.url is None,
        r.url_title is None,
        r.timestamp is None,
        r.sound is None,
{
    let mut m = new_request(creds.api_token.as_str(), creds.user_key.as_str(), n.message.as_str());
    set_request_title(&mut m, n.title.as_str());
    m.set_priority(service_priority(n.priority));
    m
}

/// Prepares the delivery of a notification: loads the credentials from what
/// reading the credential file gave, failing as loading fails, and builds the
/// request from them.
pub fn prepare_send(file: &StoredFile, n: &Notification) -> (r: Result<
    pushover::requests::message::SendMessage,
    ChirpError,
>)
    ensures
        match spec_loaded(*file) {
            Err(e) => r == Err::<pushover::requests::message::SendMessage, ChirpError>(e),
            Ok(c) => r matches Ok(m) && {
                &&& m.token@ == c.0
                &&& m.user_key@ == c.1
                &&& m.message@ == n.message@
                &&& m.title matches Some(t) && t@ == n.title@
                &&& m.priority == Some(spec_service_priority(n.priority))
                &&& m.devices@.len() == 0
                &&& m.url is None
                &&& m.url_title is None
                &&& m.timestamp is None
                &&& m.sound is None
            },
        },
{
    let loaded = load_credentials(file);
    match loaded {
        Ok(creds) => Ok(build_request(&creds, n)),
        Err(e) => Err(e),
    }
}

} // verus!
