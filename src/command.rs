use vstd::prelude::*;

use crate::credentials::Credentials;
use crate::notify::{Notification, NotificationView};
use crate::priority::PriorityLevel;

verus! {

/// Title of the notification sent by `success`.
pub const SUCCESS_TITLE: &'static str = "Success Notification";

/// Title of the notification sent by `failure`.
pub const FAILURE_TITLE: &'static str = "Failure Notification";

/// Title of the notification sent by `msg` when no title is given.
pub const CUSTOM_TITLE: &'static str = "Custom Notification";

/// A parsed command line. A priority left out is `None`.
#[derive(Clone, Debug)]
pub enum Command {
    /// Store the credentials, and install the wrapper script unless told not to.
    Config { api_token: String, user_key: String, no_wrapper: bool },
    /// Report that something succeeded.
    Success { message: String, priority: Option<PriorityLevel> },
    /// Report that something failed.
    Failure { message: String, priority: Option<PriorityLevel> },
    /// Send a message with a title of the user's choosing.
    Msg { message: String, title: Option<String>, priority: Option<PriorityLevel> },
}

/// What a command asks to be done.
#[derive(Clone, Debug)]
pub enum Action {
    /// Overwrite the stored credential record, then install the wrapper
    /// script if `install_wrapper` holds.
    SaveCredentials { credentials: Credentials, install_wrapper: bool },
    /// Load the stored credentials and deliver this notification.
    Send(Notification),
}

/// An action as values.
pub enum ActionView {
    SaveCredentials { credentials: (Seq<char>, Seq<char>), install_wrapper: bool },
    Send(NotificationView),
}

impl View for Action {
    type V = ActionView;

    open spec fn view(&self) -> ActionView {
        match self {
            Action::SaveCredentials { credentials, install_wrapper } => ActionView::SaveCredentials {
                credentials: credentials@,
                install_wrapper: *install_wrapper,
            },
            Action::Send(n) => ActionView::Send(n@),
        }
    }
}

/// The given priority, or `default` where none was given.
pub open spec fn level_or(p: Option<PriorityLevel>, default: PriorityLevel) -> PriorityLevel {
    match p {
        Some(l) => l,
        None => default,
    }
}

/// The action a command stands for. `success` and `msg` default to Normal
/// priority and `failure` to High; `msg` without a title is titled
/// "Custom Notification".
pub open spec fn spec_plan(cmd: Command) -> ActionView {
    match cmd {
        Command::Config { api_token, user_key, no_wrapper } => ActionView::SaveCredentials {
            credentials: (api_token@, user_key@),
            install_wrapper: !no_wrapper,
        },
        Command::Success { message, priority } => ActionView::Send(
            NotificationView {
                title: SUCCESS_TITLE@,
                message: message@,
                priority: level_or(priority, PriorityLevel::Normal),
            },
        ),
        Command::Failure { message, priority } => ActionView::Send(
            NotificationView {
                title: FAILURE_TITLE@,
                message: message@,
                priority: level_or(priority, PriorityLevel::High),
            },
        ),
        Command::Msg { message, title, priority } => ActionView::Send(
            NotificationView {
                title: match title {
                    Some(t) => t@,
                    None => CUSTOM_TITLE@,
                },
                message: message@,
                priority: level_or(priority, PriorityLevel::Normal),
            },
        ),
    }
}

fn level_or_default(p: Option<PriorityLevel>, default: PriorityLevel) -> (r: PriorityLevel)
    ensures
        r == level_or(p, default),
{
    match p {
        Some(l) => l,
        None => default,
    }
}

/// Decides what a command asks to be done.
pub fn plan(cmd: Command) -> (r: Action)
    ensures
        r@ == spec_plan(cmd),
{
    match cmd {
        Command::Config { api_token, user_key, no_wrapper } => Action::SaveCredentials {
            credentials: Credentials { api_token, user_key },
            install_wrapper: !no_wrapper,
        },
        Command::Success { message, priority } => Action::Send(
            Notification {
                title: SUCCESS_TITLE.to_owned(),
                message,
                priority: level_or_default(priority, PriorityLevel::Normal),
            },
        ),
        Command::Failure { message, priority } => Action::Send(
            Notification {
                title: FAILURE_TITLE.to_owned(),
                message,
                priority: level_or_default(priority, PriorityLevel::High),
            },
        ),
        Command::Msg { message, title, priority } => {
            let title = match title {
                Some(t) => t,
                None => CUSTOM_TITLE.to_owned(),
            };
            Action::Send(
                Notification {
                    title,
                    message,
                    priority: level_or_default(priority, PriorityLevel::Normal),
                },
            )
        },
    }
}

/// Left to their defaults, `success` sends a Normal-priority notification
/// titled "Success Notification", `failure` a High-priority one titled
/// "Failure Notification", and `msg` a Normal-priority one titled "Custom
/// Notification"; each carries the message as given.
pub proof fn lemma_command_defaults(message: String)
    ensures
        spec_plan(Command::Success { message, priority: None }) == ActionView::Send(
            NotificationView {
                title: SUCCESS_TITLE@,
                message: message@,
                priority: PriorityLevel::Normal,
            },
        ),
        spec_plan(Command::Failure { message, priority: None }) == ActionView::Send(
            NotificationView {
                title: FAILURE_TITLE@,
                message: message@,
                priority: PriorityLevel::High,
            },
        ),
        spec_plan(Command::Msg { message, title: None, priority: None }) == ActionView::Send(
            NotificationView {
                title: CUSTOM_TITLE@,
                message: message@,
                priority: PriorityLevel::Normal,
            },
        ),
{
}

} // verus!
