//! The orchestrator: the session-control lifecycle as a state machine.
//!
//! The controller's run is an ordered, partially fallible sequence —
//! inspect the terminal, authenticate, open a session, take control, wait
//! for the release trigger, release control, inspect again, and tear the
//! credential down in order. Everything that touches the outside world is
//! an [`Action`] the caller performs; the caller reports what happened as
//! an [`Event`], and [`Orchestrator::step`] decides the next state and
//! action. Every failure path still closes an open session before the
//! handle is finalized, and once control has been taken, every path that
//! leaves the waiting phase goes through a release attempt.

use vstd::pervasive::unreached;
use vstd::prelude::*;

use crate::control::CallArg;
use crate::control::ControlChannel;
use crate::control::RemoteCall;
use crate::credential::env_lookup;
use crate::credential::EnvEntry;
use crate::credential::PasswordlessClient;
use crate::status::ControlError;
use crate::status::PamStatus;
use crate::trigger::ReleaseTrigger;
use crate::vt::VtStatus;

verus! {

/// Where the controller stands in its lifecycle. Each phase names the
/// outcome it is waiting for.
#[derive(Clone, Copy, Debug, PartialEq, Eq, Structural)]
pub enum Phase {
    /// Not started.
    Idle,
    /// Waiting for the initial terminal status probe.
    ProbePre,
    /// Waiting for the authentication outcome.
    Authing,
    /// Waiting for the session-open outcome.
    Opening,
    /// Waiting for the take-control reply.
    TakingControl,
    /// Waiting for the terminal status probe after taking control.
    ProbeMid,
    /// Waiting for the release trigger to fire.
    WaitingRelease,
    /// Waiting for the release-control reply.
    Releasing,
    /// Waiting for the terminal status probe after releasing control.
    ProbePost,
    /// Waiting for the session-close outcome.
    ClosingSession,
    /// Waiting for the handle finalization to be done.
    Finalizing,
    /// Finished; the exit code has been issued.
    Done,
}

/// What happened outside the library, reported back to the controller.
#[derive(Debug)]
pub enum Event {
    /// The process is up; begin the run.
    Started,
    /// A terminal status probe completed with this status.
    VtProbed(VtStatus),
    /// The authentication call returned this code.
    AuthOutcome(PamStatus),
    /// The session-open call returned this code and assigned these
    /// environment entries.
    OpenOutcome(PamStatus, Vec<EnvEntry>),
    /// The take-control call returned.
    TakeControlReply(Result<(), ControlError>),
    /// The release trigger fired.
    TriggerFired,
    /// The release-control call returned.
    ReleaseReply(Result<(), ControlError>),
    /// The session-close call returned this code.
    CloseOutcome(PamStatus),
    /// The handle finalization was performed.
    Finalized,
}

/// What the caller must do next.
#[derive(Debug)]
pub enum Action {
    /// Probe the terminal device and log its status.
    ProbeVt,
    /// Run the authentication call.
    RunAuthenticate,
    /// Run the session-open call.
    RunOpenSession,
    /// Perform this remote call to take control of the session.
    CallTakeControl(RemoteCall),
    /// Block on the configured release trigger until it fires.
    AwaitRelease,
    /// Perform this remote call to release control of the session.
    CallReleaseControl(RemoteCall),
    /// Run the session-close call.
    RunCloseSession,
    /// Finalize the handle with this status.
    FinalizeHandle(PamStatus),
    /// Terminate the process with this exit code.
    Exit(i32),
    /// The event did not belong to the current phase; nothing to do.
    Ignore,
}

/// Whether an event is the one the given phase waits for.
pub open spec fn expects(phase: Phase, event: Event) -> bool {
    match (phase, event) {
        (Phase::Idle, Event::Started) => true,
        (Phase::ProbePre, Event::VtProbed(_)) => true,
        (Phase::Authing, Event::AuthOutcome(_)) => true,
        (Phase::Opening, Event::OpenOutcome(_, _)) => true,
        (Phase::TakingControl, Event::TakeControlReply(_)) => true,
        (Phase::ProbeMid, Event::VtProbed(_)) => true,
        (Phase::WaitingRelease, Event::TriggerFired) => true,
        (Phase::Releasing, Event::ReleaseReply(_)) => true,
        (Phase::ProbePost, Event::VtProbed(_)) => true,
        (Phase::ClosingSession, Event::CloseOutcome(_)) => true,
        (Phase::Finalizing, Event::Finalized) => true,
        _ => false,
    }
}

/// The controller: the credential it owns, the channel once one exists,
/// the configured release trigger, and where the run stands.
pub struct Orchestrator {
    pub phase: Phase,
    pub client: PasswordlessClient,
    pub channel: Option<ControlChannel>,
    pub trigger: ReleaseTrigger,
    /// Control has been granted and not yet released.
    pub control_taken: bool,
    /// A release call has been issued.
    pub release_attempted: bool,
    /// Some step of the run failed; the exit code will be non-zero.
    pub failed: bool,
}

impl Orchestrator {
    /// The controller's invariant, tying each phase to the credential and
    /// channel state it presupposes. In particular control is only ever
    /// taken for an authenticated credential with an open session, and the
    /// waiting phase always holds taken, unreleased control.
    pub open spec fn wf(self) -> bool {
        &&& self.client.wf()
        &&& self.client.close_on_drop
        &&& match self.phase {
            Phase::Idle | Phase::ProbePre | Phase::Authing => !self.client.is_authenticated
                && !self.client.has_open_session && self.channel is None && !self.control_taken
                && !self.release_attempted && !self.client.finalized && !self.failed,
            Phase::Opening => self.client.is_authenticated && !self.client.has_open_session
                && self.channel is None && !self.control_taken && !self.release_attempted
                && !self.client.finalized && !self.failed,
            Phase::TakingControl => self.client.is_authenticated && self.client.has_open_session
                && self.channel is Some && !self.control_taken && !self.release_attempted
                && !self.client.finalized && !self.failed,
            Phase::ProbeMid | Phase::WaitingRelease => self.client.has_open_session
                && self.channel is Some && self.control_taken && !self.release_attempted
                && !self.client.finalized && !self.failed,
            Phase::Releasing | Phase::ProbePost => self.client.has_open_session
                && self.channel is Some && self.control_taken && self.release_attempted
                && !self.client.finalized && !self.failed,
            Phase::ClosingSession => self.client.has_open_session && !self.client.finalized,
            Phase::Finalizing | Phase::Done => self.client.finalized,
        }
    }

    /// A fresh controller: an idle run over a fresh credential for the
    /// `fallbackdm` service whose environment holds exactly the two
    /// terminal-assignment hints, no channel, and the given release
    /// trigger. The caller is expected to have stored the hints in the real
    /// authenticated context already, fatally aborting before any run if
    /// that failed.
    pub fn new(trigger: ReleaseTrigger) -> (controller: Orchestrator)
        ensures
            controller.wf(),
            controller.phase is Idle,
            !controller.failed,
            controller.trigger == trigger,
            controller.client.service@ == "fallbackdm"@,
            controller.client.env@.len() == 2,
            controller.client.env@[0].key@ == "PAM_TTY"@,
            controller.client.env@[0].value@ == "tty1"@,
            controller.client.env@[1].key@ == "XDG_VTNR"@,
            controller.client.env@[1].value@ == "1"@,
    {
        let mut client = match PasswordlessClient::new_client("fallbackdm") {
            Result::Ok(c) => c,
            Result::Err(_) => unreached(),
        };
        let ghost empty_env = client.env@;
        let _ = client.set_env("PAM_TTY", "tty1", PamStatus::Success);
        let ghost first_hint = client.env@;
        let _ = client.set_env("XDG_VTNR", "1", PamStatus::Success);
        proof {
            assert(client.env@[0] == first_hint[0]);
        }
        Orchestrator {
            phase: Phase::Idle,
            client,
            channel: Option::None,
            trigger,
            control_taken: false,
            release_attempted: false,
            failed: false,
        }
    }

    /// One step of the lifecycle: reacts to what happened outside and says
    /// what to do next. An event the current phase does not wait for
    /// changes nothing. Control is requested only after authentication and
    /// session-open have both succeeded; every failure after the session
    /// opened still closes it; once the trigger fired, a release call is
    /// issued before anything else; and the final exit code is zero exactly
    /// when no step failed.
    pub fn step(&mut self, event: Event) -> (action: Action)
        requires
            old(self).wf(),
        ensures
            final(self).wf(),
            !expects(old(self).phase, event) ==> action is Ignore && *final(self) == *old(self),
            old(self).failed ==> final(self).failed,
            final(self).trigger == old(self).trigger,
            old(self).channel is Some ==> final(self).channel == old(self).channel,
            !(old(self).phase is Authing || old(self).phase is Opening || old(self).phase
                is ClosingSession) ==> final(self).client == old(self).client,
            !(old(self).phase is Authing || old(self).phase is Opening || old(self).phase
                is TakingControl || old(self).phase is Releasing) ==> final(self).failed == old(self).failed,
            action is CallTakeControl ==> final(self).client.is_authenticated && final(self).client.has_open_session && !final(self).failed,
            old(self).phase is Idle && event is Started ==> action is ProbeVt && final(self).phase
                is ProbePre,
            old(self).phase is ProbePre && event is VtProbed ==> action is RunAuthenticate && final(self).phase is Authing,
            event matches Event::AuthOutcome(code) ==> (old(self).phase is Authing ==> (if code
                == PamStatus::Success {
                action is RunOpenSession && final(self).phase is Opening && final(self).client.is_authenticated
            } else {
                action == Action::FinalizeHandle(PamStatus::Success) && final(self).phase
                    is Finalizing && final(self).failed && final(self).channel is None && !final(self).control_taken && !final(self).client.has_open_session
            })),
            event matches Event::OpenOutcome(code, assigned) ==> (old(self).phase is Opening ==> (
            if code == PamStatus::Success {
                match env_lookup(old(self).client.env@ + assigned@, "XDG_SESSION_ID"@) {
                    Option::Some(id) => {
                        &&& action is CallTakeControl
                        &&& action->CallTakeControl_0.destination@ == "org.freedesktop.login1"@
                        &&& action->CallTakeControl_0.path@ == "/org/freedesktop/login1/session/"@
                            + id
                        &&& action->CallTakeControl_0.interface@
                            == "org.freedesktop.login1.Session"@
                        &&& action->CallTakeControl_0.member@ == "TakeControl"@
                        &&& action->CallTakeControl_0.arg == CallArg::Flag(false)
                        &&& final(self).phase is TakingControl
                        &&& final(self).channel is Some
                        &&& final(self).channel->0.path@ == "/org/freedesktop/login1/session/"@
                            + id
                    },
                    Option::None => {
                        &&& final(self).failed
                        &&& final(self).phase is ClosingSession
                        &&& action is RunCloseSession
                    },
                }
            } else {
                action == Action::FinalizeHandle(PamStatus::Success) && final(self).phase
                    is Finalizing && final(self).failed && final(self).channel is None
            })),
            event matches Event::TakeControlReply(reply) ==> (old(self).phase is TakingControl ==> (
            if reply is Ok {
                action is ProbeVt && final(self).phase is ProbeMid && final(self).control_taken
            } else {
                action is RunCloseSession && final(self).phase is ClosingSession && final(self).failed && !final(self).control_taken
            })),
            old(self).phase is ProbeMid && event is VtProbed ==> action is AwaitRelease && final(self).phase is WaitingRelease,
            old(self).phase is WaitingRelease && event is TriggerFired ==> action
                is CallReleaseControl && final(self).phase is Releasing && final(self).release_attempted && action->CallReleaseControl_0.member@ == "ReleaseControl"@
                && action->CallReleaseControl_0.interface@ == "org.freedesktop.login1.Session"@
                && action->CallReleaseControl_0.arg is NoArg,
            old(self).channel matches Option::Some(ch) ==> (old(self).phase is WaitingRelease
                && event is TriggerFired ==> action->CallReleaseControl_0.path@ == ch.path@),
            event matches Event::ReleaseReply(reply) ==> (old(self).phase is Releasing ==> (if reply
                is Ok {
                action is ProbeVt && final(self).phase is ProbePost
            } else {
                action is RunCloseSession && final(self).phase is ClosingSession && final(self).failed
            })),
            old(self).phase is ProbePost && event is VtProbed ==> action is RunCloseSession
                && final(self).phase is ClosingSession,
            event matches Event::CloseOutcome(code) ==> (old(self).phase is ClosingSession
                ==> action == Action::FinalizeHandle(code) && final(self).phase is Finalizing
                && final(self).client.finalized && final(self).client.last_code == code),
            old(self).phase is Finalizing && event is Finalized ==> final(self).phase is Done
                && action == (if old(self).failed {
                Action::Exit(1)
            } else {
                Action::Exit(0)
            }),
    {
        match (self.phase, event) {
            (Phase::Idle, Event::Started) => {
                self.phase = Phase::ProbePre;
                Action::ProbeVt
            },
            (Phase::ProbePre, Event::VtProbed(_)) => {
                self.phase = Phase::Authing;
                Action::RunAuthenticate
            },
            (Phase::Authing, Event::AuthOutcome(code)) => {
                match self.client.authenticate(code) {
                    Result::Ok(_) => {
                        self.phase = Phase::Opening;
                        Action::RunOpenSession
                    },
                    Result::Err(_) => {
                        self.failed = true;
                        let report = self.client.teardown(PamStatus::Success);
                        self.phase = Phase::Finalizing;
                        Action::FinalizeHandle(report.finalize_status)
                    },
                }
            },
            (Phase::Opening, Event::OpenOutcome(code, assigned)) => {
                match self.client.open_session(code, assigned) {
                    Result::Ok(_) => {
                        let looked_up = match self.client.get_env("XDG_SESSION_ID", PamStatus::Success) {
                            Result::Ok(o) => o,
                            Result::Err(_) => unreached(),
                        };
                        match looked_up {
                            Option::Some(id) => {
                                let channel = ControlChannel::new(id.as_str());
                                let call = channel.take_control_call(false);
                                self.channel = Option::Some(channel);
                                self.phase = Phase::TakingControl;
                                Action::CallTakeControl(call)
                            },
                            Option::None => {
                                self.failed = true;
                                self.phase = Phase::ClosingSession;
                                Action::RunCloseSession
                            },
                        }
                    },
                    Result::Err(_) => {
                        self.failed = true;
                        let report = self.client.teardown(PamStatus::Success);
                        self.phase = Phase::Finalizing;
                        Action::FinalizeHandle(report.finalize_status)
                    },
                }
            },
            (Phase::TakingControl, Event::TakeControlReply(reply)) => {
                match reply {
                    Result::Ok(_) => {
                        self.control_taken = true;
                        self.phase = Phase::ProbeMid;
                        Action::ProbeVt
                    },
                    Result::Err(_) => {
                        self.failed = true;
                        self.phase = Phase::ClosingSession;
                        Action::RunCloseSession
                    },
                }
            },
            (Phase::ProbeMid, Event::VtProbed(_)) => {
                self.phase = Phase::WaitingRelease;
                Action::AwaitRelease
            },
            (Phase::WaitingRelease, Event::TriggerFired) => {
                self.release_attempted = true;
                self.phase = Phase::Releasing;
                let call = match &self.channel {
                    Option::Some(channel) => channel.release_control_call(),
                    Option::None => unreached(),
                };
                Action::CallReleaseControl(call)
            },
            (Phase::Releasing, Event::ReleaseReply(reply)) => {
                match reply {
                    Result::Ok(_) => {
                        self.phase = Phase::ProbePost;
                        Action::ProbeVt
                    },
                    Result::Err(_) => {
                        self.failed = true;
                        self.phase = Phase::ClosingSession;
                        Action::RunCloseSession
                    },
                }
            },
            (Phase::ProbePost, Event::VtProbed(_)) => {
                self.phase = Phase::ClosingSession;
                Action::RunCloseSession
            },
            (Phase::ClosingSession, Event::CloseOutcome(code)) => {
                let report = self.client.teardown(code);
                self.phase = Phase::Finalizing;
                Action::FinalizeHandle(report.finalize_status)
            },
            (Phase::Finalizing, Event::Finalized) => {
                self.phase = Phase::Done;
                if self.failed {
                    Action::Exit(1)
                } else {
                    Action::Exit(0)
                }
            },
            _ => Action::Ignore,
        }
    }
}

/// Law: while the controller waits for the release trigger, control has
/// been taken and no release has been attempted — a process that terminates
/// in this phase leaves control asserted on the session, a state the next
/// run finds as it is, not auto-recovered.
pub proof fn lemma_waiting_leaves_control_asserted(controller: Orchestrator)
    requires
        controller.wf(),
        controller.phase is WaitingRelease,
    ensures
        controller.control_taken,
        !controller.release_attempted,
        controller.client.has_open_session,
{
}

} // verus!
