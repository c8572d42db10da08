//! Security events reported by the front end: the line written for each
//! event, and the acknowledgement returned to the caller.
use vstd::prelude::*;
use vstd::string::*;

verus! {

/// How a success flag reads in an event line.
pub open spec fn flag_text(success: bool) -> Seq<char> {
    if success {
        "true"@
    } else {
        "false"@
    }
}

/// The line written for an event:
/// `Security Event: <event> | User: <username> | Success: <true|false>`.
pub open spec fn event_line(event: Seq<char>, username: Seq<char>, success: bool) -> Seq<char> {
    "Security Event: "@ + event + " | User: "@ + username + " | Success: "@ + flag_text(success)
}

/// The acknowledgement returned for every event.
pub open spec fn event_ack() -> Seq<char> {
    "Event logged successfully"@
}

/// Builds the line that records a security event.
pub fn security_event_line(event: &str, username: &str, success: bool) -> (r: String)
    ensures
        r@ == event_line(event@, username@, success),
{
    let mut s = String::from_str("Security Event: ");
    s.append(event);
    s.append(" | User: ");
    s.append(username);
    s.append(" | Success: ");
    if success {
        s.append("true");
    } else {
        s.append("false");
    }
    s
}

/// Acknowledges a security event. Recording the event never fails: the result
/// is always `Ok` with the same acknowledgement, whatever the event.
pub fn log_security_event(event: String, username: String, success: bool) -> (r: Result<
    String,
    String,
>)
    ensures
        r is Ok,
        r matches Ok(s) && s@ == event_ack(),
{
    Ok(String::from_str("Event logged successfully"))
}

} // verus!
