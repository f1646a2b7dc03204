//! Virtual-terminal status probe: classification of what a read-only look at
//! the console device found, and the log level each finding deserves.
//!
//! The probe itself (opening the device, issuing the keyboard-mode control
//! query) is I/O and lives outside the library; it reports its raw finding as
//! a [`VtProbe`], which is classified here. The status is diagnostic only:
//! it is logged before and after control transitions and never changes what
//! the controller does next.

use vstd::prelude::*;

verus! {

/// Control code of the "get current keyboard mode" query on a virtual
/// terminal device.
pub const KDGKBMODE: u64 = 0x4B44;

/// Keyboard mode value meaning that the virtual terminal does not consume
/// input.
pub const K_OFF: u64 = 0x04;

/// What the probe of the terminal device observed, as plain values.
#[derive(Clone, Copy, Debug, PartialEq, Eq, Structural)]
pub enum VtProbe {
    /// The device node does not exist.
    DeviceMissing,
    /// Opening the device failed with the given OS error (other than a
    /// missing device).
    OpenFailed(i32),
    /// The keyboard-mode query itself failed with the given OS error.
    QueryError(i32),
    /// The keyboard-mode query returned this mode value.
    KeyboardMode(u64),
}

/// The virtual terminal's input status, as derived from a probe.
#[derive(Clone, Copy, Debug, PartialEq, Eq, Structural)]
pub enum VtStatus {
    /// The terminal device is absent; no terminal-related input problem.
    Absent,
    /// The probe could not complete; carries the OS error code.
    QueryFailed(i32),
    /// The keyboard mode is off: the terminal does not consume input.
    InputDisabled,
    /// The keyboard mode is active (carried verbatim): the terminal may
    /// consume input.
    InputActive(u64),
}

/// Severity of the log line a status deserves.
#[derive(Clone, Copy, Debug, PartialEq, Eq, Structural)]
pub enum LogLevel {
    Info,
    Warning,
    Error,
}

/// Classifies a raw probe finding as a terminal status.
///
/// A missing device is not an error; any other failure of the open or of the
/// query yields `QueryFailed` with the OS error; a returned mode is read as
/// "input disabled" exactly when it equals [`K_OFF`].
pub fn classify_vt_probe(probe: &VtProbe) -> (status: VtStatus)
    ensures
        *probe is DeviceMissing ==> status is Absent,
        *probe matches VtProbe::OpenFailed(e) ==> status == VtStatus::QueryFailed(e),
        *probe matches VtProbe::QueryError(e) ==> status == VtStatus::QueryFailed(e),
        *probe matches VtProbe::KeyboardMode(m) ==> status == if m == K_OFF {
            VtStatus::InputDisabled
        } else {
            VtStatus::InputActive(m)
        },
{
    match probe {
        VtProbe::DeviceMissing => VtStatus::Absent,
        VtProbe::OpenFailed(e) => VtStatus::QueryFailed(*e),
        VtProbe::QueryError(e) => VtStatus::QueryFailed(*e),
        VtProbe::KeyboardMode(m) => {
            if *m == K_OFF {
                VtStatus::InputDisabled
            } else {
                VtStatus::InputActive(*m)
            }
        },
    }
}

/// The log level under which a status is reported: an absent device and a
/// disabled terminal are informational, an active terminal is a warning
/// (it may consume input), and a failed probe is an error.
pub fn vt_log_level(status: &VtStatus) -> (level: LogLevel)
    ensures
        *status is Absent ==> level is Info,
        *status is QueryFailed ==> level is Error,
        *status is InputDisabled ==> level is Info,
        *status is InputActive ==> level is Warning,
{
    match status {
        VtStatus::Absent => LogLevel::Info,
        VtStatus::QueryFailed(_) => LogLevel::Error,
        VtStatus::InputDisabled => LogLevel::Info,
        VtStatus::InputActive(_) => LogLevel::Warning,
    }
}

} // verus!
