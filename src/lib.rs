//! Command handlers of the FCA Manager desktop shell: a greeting, the
//! application's version, and the acknowledgement of a security event.
pub mod greeting;
pub mod security;
pub mod version;

pub use greeting::greet;
pub use security::{log_security_event, security_event_line};
pub use version::get_app_version;
