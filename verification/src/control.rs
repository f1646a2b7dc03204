//! The control channel to the login manager's session object.
//!
//! The channel is stateless beyond its address: the well-known service name
//! and a path built from the session identifier, with a fixed per-call
//! timeout. Each operation is described here as a [`RemoteCall`] value — the
//! address, interface, member and argument of one remote method call — and
//! performed outside the library; a call that exceeds the timeout is a
//! [`crate::status::ControlError::Timeout`].

use vstd::prelude::*;
use vstd::string::StringExecFns;

use crate::status::ControlError;

verus! {

/// The fixed per-call timeout of the channel, in milliseconds.
pub const CONTROL_TIMEOUT_MS: u64 = 5000;

/// The argument a remote call carries.
#[derive(Debug)]
pub enum CallArg {
    /// The call takes no argument.
    NoArg,
    /// The call takes a single boolean flag.
    Flag(bool),
    /// The call takes a single interface name.
    InterfaceName(String),
}

/// One remote method call, fully addressed: where it goes, what it invokes,
/// what it carries, and how long it may take.
#[derive(Debug)]
pub struct RemoteCall {
    pub destination: String,
    pub path: String,
    pub interface: String,
    pub member: String,
    pub timeout_ms: u64,
    pub arg: CallArg,
}

/// The channel to one session's control object.
#[derive(Debug)]
pub struct ControlChannel {
    pub destination: String,
    pub path: String,
    pub timeout_ms: u64,
}

impl ControlChannel {
    /// Addresses the login manager's object for the given session
    /// identifier, with the channel's fixed timeout.
    pub fn new(session_id: &str) -> (channel: ControlChannel)
        ensures
            channel.destination@ == "org.freedesktop.login1"@,
            channel.path@ == "/org/freedesktop/login1/session/"@ + session_id@,
            channel.timeout_ms == CONTROL_TIMEOUT_MS,
    {
        ControlChannel {
            destination: String::from_str("org.freedesktop.login1"),
            path: String::from_str("/org/freedesktop/login1/session/").concat(session_id),
            timeout_ms: CONTROL_TIMEOUT_MS,
        }
    }

    /// The call that asserts exclusive input/display control over the
    /// session, with the given force flag.
    pub fn take_control_call(&self, force: bool) -> (call: RemoteCall)
        ensures
            call.destination@ == self.destination@,
            call.path@ == self.path@,
            call.interface@ == "org.freedesktop.login1.Session"@,
            call.member@ == "TakeControl"@,
            call.timeout_ms == self.timeout_ms,
            call.arg == CallArg::Flag(force),
    {
        RemoteCall {
            destination: self.destination.clone(),
            path: self.path.clone(),
            interface: String::from_str("org.freedesktop.login1.Session"),
            member: String::from_str("TakeControl"),
            timeout_ms: self.timeout_ms,
            arg: CallArg::Flag(force),
        }
    }

    /// The call that relinquishes control of the session.
    pub fn release_control_call(&self) -> (call: RemoteCall)
        ensures
            call.destination@ == self.destination@,
            call.path@ == self.path@,
            call.interface@ == "org.freedesktop.login1.Session"@,
            call.member@ == "ReleaseControl"@,
            call.timeout_ms == self.timeout_ms,
            call.arg is NoArg,
    {
        RemoteCall {
            destination: self.destination.clone(),
            path: self.path.clone(),
            interface: String::from_str("org.freedesktop.login1.Session"),
            member: String::from_str("ReleaseControl"),
            timeout_ms: self.timeout_ms,
            arg: CallArg::NoArg,
        }
    }

    /// The call that fetches all properties of the session object, for
    /// diagnostics only.
    pub fn describe_call(&self) -> (call: RemoteCall)
        ensures
            call.destination@ == self.destination@,
            call.path@ == self.path@,
            call.interface@ == "org.freedesktop.DBus.Properties"@,
            call.member@ == "GetAll"@,
            call.timeout_ms == self.timeout_ms,
            call.arg matches CallArg::InterfaceName(name) && name@
                == "org.freedesktop.login1.Session"@,
    {
        RemoteCall {
            destination: self.destination.clone(),
            path: self.path.clone(),
            interface: String::from_str("org.freedesktop.DBus.Properties"),
            member: String::from_str("GetAll"),
            timeout_ms: self.timeout_ms,
            arg: CallArg::InterfaceName(String::from_str("org.freedesktop.login1.Session")),
        }
    }
}

/// Classifies a failed remote call by the transport's error name: the
/// transport's no-reply error means the channel's per-call timeout elapsed;
/// any other failure — or one carrying no name at all — is a plain failure.
pub fn classify_transport_error(error_name: Option<&str>) -> (error: ControlError)
    ensures
        error == (match error_name {
            Option::Some(name) => if name@ == "org.freedesktop.DBus.Error.NoReply"@ {
                ControlError::Timeout
            } else {
                ControlError::Failed
            },
            Option::None => ControlError::Failed,
        }),
{
    match error_name {
        Option::Some(name) => {
            let no_reply: String = "org.freedesktop.DBus.Error.NoReply".to_owned();
            if name.to_owned() == no_reply {
                ControlError::Timeout
            } else {
                ControlError::Failed
            }
        },
        Option::None => ControlError::Failed,
    }
}

} // verus!
