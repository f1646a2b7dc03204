//! A minimal fallback session controller, modelled as a verified library.
//!
//! The library holds the session-control state machine: authenticate a local
//! user, open a login-manager session, take exclusive control of the
//! session's virtual terminal, wait for a release condition, release control,
//! and close the session in order. The process edges — the PAM calls, the
//! D-Bus calls to the login manager, the terminal ioctl and the input-device
//! polling — stay outside; the library decides, on plain values, what each
//! outcome means and which step comes next.

pub mod control;
pub mod conversation;
pub mod credential;
pub mod orchestrator;
pub mod trigger;
pub mod status;
pub mod vt;
