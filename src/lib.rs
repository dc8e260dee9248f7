//! Push notifications through the Pushover service: the priority levels and
//! their mapping onto the service's representation, the stored credential
//! record, the routing of commands to actions, and the wrapper-script
//! installer's plan.
mod command;
mod credentials;
mod error;
mod notify;
mod priority;
mod wrapper;

pub use command::{
    lemma_command_defaults, plan, Action, ActionView, Command, CUSTOM_TITLE, FAILURE_TITLE,
    SUCCESS_TITLE,
};
pub use credentials::{
    credentials_from_entries, decode_credentials, encode_credentials, lemma_record_round_trip,
    load_credentials, lookup_entry, record_entries, Credentials, StoredFile, API_TOKEN_FIELD,
    CONFIG_FILE_NAME, USER_KEY_FIELD,
};
pub use error::ChirpError;
pub use notify::{build_request, prepare_send, Notification, NotificationView};
pub use priority::{
    service_priority, spec_service_priority, PriorityLevel, EMERGENCY_EXPIRE, EMERGENCY_RETRY,
};
pub use wrapper::{
    lemma_install_idempotent, wrapper_file, WrapperFile, WRAPPER_DIR, WRAPPER_FILE_NAME,
    WRAPPER_MODE, WRAPPER_SCRIPT,
};
