//! The power procedures of the TV, as state machines.
//!
//! A procedure starts in a state and names an action; the caller performs
//! the action (sending a command, waking the TV, reconnecting, waiting) and
//! hands back the event that came of it, from which the procedure decides
//! its next state and action, until the action is `Finish`.
use vstd::prelude::*;

use crate::constants::errors::LgTvError;
use crate::constants::types::PowerStates;
use crate::lg_tv::{app_details_of, parse_current_app, CURRENT_APP_COMMAND, POWER_OFF_COMMAND};

verus! {

/// What the caller is to do next.
#[derive(Debug)]
pub enum Action {
    /// Send this command to the TV and report the decrypted reply.
    SendCommand(String),
    /// Send the Wake-on-LAN packet and report how it went.
    WakeOnLan,
    /// Open the TCP connection again and report how it went.
    Reconnect,
    /// Wait this many milliseconds, then report.
    Sleep(u64),
    /// The procedure is over, with this result.
    Finish(Result<(), LgTvError>),
}

/// What came of the last action.
#[derive(Debug)]
pub enum Event {
    /// The reply to a command, or why none came.
    Reply(Result<String, LgTvError>),
    /// Whether the Wake-on-LAN packet went out, with the reason if not.
    WokeUp(Result<(), String>),
    /// Whether the connection was opened again, with the reason if not.
    Reconnected(Result<(), String>),
    /// The wait is over.
    Slept,
}

/// The action is to send the command `command`.
pub open spec fn sends(a: Action, command: Seq<char>) -> bool {
    a matches Action::SendCommand(c) && c@ == command
}

/// The action ends the procedure with success.
pub open spec fn finishes_ok(a: Action) -> bool {
    a matches Action::Finish(Ok(()))
}

/// The action ends the procedure with the error `e`.
pub open spec fn finishes_with(a: Action, e: LgTvError) -> bool {
    a matches Action::Finish(Err(x)) && x == e
}

/// The action is a wait of `ms` milliseconds.
pub open spec fn sleeps(a: Action, ms: u64) -> bool {
    a matches Action::Sleep(t) && t == ms
}

/// A reply to `CURRENT_APP` shows that the TV is on: it came, it is not
/// empty, and it names an application.
pub open spec fn shows_app(reply: Result<String, LgTvError>) -> bool {
    reply matches Ok(t) && t@.len() != 0 && app_details_of(t@).0.len() != 0
}

/// Where a probe stands.
#[derive(Debug, Clone, Copy, PartialEq, Eq, Structural)]
pub enum ProbePhase {
    /// `CURRENT_APP` was sent; its reply is awaited.
    Asking,
    /// A second's wait before asking again.
    Waiting,
}

/// Finds out whether the TV is on by asking for the current application,
/// again after a second's wait while retries are left.
#[derive(Debug, Clone, Copy, PartialEq, Eq, Structural)]
pub struct Probe {
    pub attempts_left: u8,
    pub phase: ProbePhase,
}

/// The reply to `CURRENT_APP` shows an application.
fn reply_shows_app(reply: &Result<String, LgTvError>) -> (b: bool)
    ensures
        b == shows_app(*reply),
{
    match reply {
        Ok(text) => match parse_current_app(text.as_str()) {
            Ok(details) => !details.app.as_str().is_empty(),
            Err(_) => false,
        },
        Err(_) => false,
    }
}

impl Probe {
    /// The event the probe waits for.
    pub open spec fn expects(self, event: Event) -> bool {
        match self.phase {
            ProbePhase::Asking => event is Reply,
            ProbePhase::Waiting => event is Slept,
        }
    }

    /// How far the probe is from its end: each step that does not finish it
    /// brings this down.
    pub open spec fn measure(self) -> nat {
        2 * self.attempts_left as nat + match self.phase {
            ProbePhase::Asking => 1nat,
            ProbePhase::Waiting => 2nat,
        }
    }

    /// Starts a probe that asks once more for each of `retries`.
    pub fn start(retries: u8) -> (r: (Probe, Action))
        ensures
            r.0 == (Probe { attempts_left: retries, phase: ProbePhase::Asking }),
            sends(r.1, CURRENT_APP_COMMAND@),
    {
        (
            Probe { attempts_left: retries, phase: ProbePhase::Asking },
            Action::SendCommand(String::from_str(CURRENT_APP_COMMAND)),
        )
    }

    /// Takes the event that came of the last action. A reply that shows an
    /// application ends the probe with success; any other reply, or an
    /// error, ends it with `PowerOff` when no retry is left, and otherwise
    /// uses one retry and waits a second before asking again.
    pub fn step(self, event: Event) -> (r: (Probe, Action))
        requires
            self.expects(event),
        ensures
            is_finish(r.1) || (r.0.measure() < self.measure() && r.0.attempts_left
                <= self.attempts_left),
            self.phase == ProbePhase::Asking ==> {
                let reply = event->Reply_0;
                &&& shows_app(reply) ==> finishes_ok(r.1)
                &&& (!shows_app(reply) && self.attempts_left == 0) ==> finishes_with(r.1, LgTvError::PowerOff)
                &&& (!shows_app(reply) && self.attempts_left > 0) ==> {
                    &&& r.0 == Probe {
                        attempts_left: (self.attempts_left - 1) as u8,
                        phase: ProbePhase::Waiting,
                    }
                    &&& sleeps(r.1, 1000)
                }
            },
            self.phase == ProbePhase::Waiting ==> {
                &&& r.0 == Probe { attempts_left: self.attempts_left, phase: ProbePhase::Asking }
                &&& sends(r.1, CURRENT_APP_COMMAND@)
            },
    {
        match self.phase {
            ProbePhase::Asking => {
                let reply = match event {
                    Event::Reply(reply) => reply,
                    _ => Err(LgTvError::PowerOff),
                };
                if reply_shows_app(&reply) {
                    (self, Action::Finish(Ok(())))
                } else if self.attempts_left == 0 {
                    (self, Action::Finish(Err(LgTvError::PowerOff)))
                } else {
                    (
                        Probe { attempts_left: self.attempts_left - 1, phase: ProbePhase::Waiting },
                        Action::Sleep(1000),
                    )
                }
            },
            ProbePhase::Waiting => Probe::start(self.attempts_left),
        }
    }
}

/// The power state that a probe's result shows: on when it succeeded.
pub fn power_state_of(probe_result: &Result<(), LgTvError>) -> (s: PowerStates)
    ensures
        s == (if probe_result is Ok { PowerStates::On } else { PowerStates::Off }),
{
    match probe_result {
        Ok(_) => PowerStates::On,
        Err(_) => PowerStates::Off,
    }
}

/// The number of retries a probe of the power state makes.
pub const POWER_STATE_RETRIES: u8 = 5;

/// The number of attempts that power procedures make when none is given.
pub const DEFAULT_ATTEMPTS: u8 = 10;

/// Where the power-off procedure stands.
#[derive(Debug, Clone, Copy, PartialEq, Eq, Structural)]
pub enum PowerOffPhase {
    /// `POWER off` was sent; its reply is awaited.
    Sending,
    /// A second's wait before checking.
    Waiting,
    /// Checking, with one retry, whether the TV is still on.
    Checking(Probe),
}

/// Turns the TV off: sends `POWER off`, waits a second and checks whether
/// the TV still shows an application, as long as attempts are left.
#[derive(Debug, Clone, Copy, PartialEq, Eq, Structural)]
pub struct PowerOff {
    pub attempts_left: u8,
    pub phase: PowerOffPhase,
}

impl PowerOff {
    /// The event the procedure waits for.
    pub open spec fn expects(self, event: Event) -> bool {
        match self.phase {
            PowerOffPhase::Sending => event is Reply,
            PowerOffPhase::Waiting => event is Slept,
            PowerOffPhase::Checking(p) => p.expects(event),
        }
    }

    /// The state is one that the procedure reaches.
    pub open spec fn wf(self) -> bool {
        &&& self.attempts_left > 0
        &&& self.phase matches PowerOffPhase::Checking(p) ==> p.attempts_left <= 1
    }

    /// How far the procedure is from its end: each step that does not finish
    /// it brings this down.
    pub open spec fn measure(self) -> nat {
        6 * self.attempts_left as nat + match self.phase {
            PowerOffPhase::Sending => 5nat,
            PowerOffPhase::Waiting => 4nat,
            PowerOffPhase::Checking(p) => p.measure(),
        }
    }

    /// Starts turning the TV off, with `retries` attempts (10 when none is
    /// given). With no attempt, the procedure ends at once with `PowerOff`.
    pub fn start(retries: Option<u8>) -> (r: (PowerOff, Action))
        ensures
            ({
                let n = match retries {
                    Some(k) => k,
                    None => 10u8,
                };
                &&& n == 0 ==> finishes_with(r.1, LgTvError::PowerOff)
                &&& n > 0 ==> r.0 == (PowerOff { attempts_left: n, phase: PowerOffPhase::Sending })
                    && sends(r.1, POWER_OFF_COMMAND@)
            }),
    {
        let attempts_left = match retries {
            Some(k) => k,
            None => DEFAULT_ATTEMPTS,
        };
        let state = PowerOff { attempts_left, phase: PowerOffPhase::Sending };
        if attempts_left == 0 {
            (state, Action::Finish(Err(LgTvError::PowerOff)))
        } else {
            (state, Action::SendCommand(String::from_str(POWER_OFF_COMMAND)))
        }
    }

    /// Takes the event that came of the last action. A failed `POWER off`
    /// ends the procedure with its error; a sent one is followed by a
    /// second's wait and a check with one retry. A check that finds the TV
    /// off ends the procedure with success; one that finds it on uses up an
    /// attempt, and when none is left the procedure ends with `PowerOff`.
    pub fn step(self, event: Event) -> (r: (PowerOff, Action))
        requires
            self.wf(),
            self.expects(event),
        ensures
            is_finish(r.1) || (r.0.wf() && r.0.measure() < self.measure()),
            self.phase == PowerOffPhase::Sending ==> {
                let reply = event->Reply_0;
                &&& reply matches Err(e) ==> finishes_with(r.1, e)
                &&& reply is Ok ==> r.0 == (PowerOff {
                    attempts_left: self.attempts_left,
                    phase: PowerOffPhase::Waiting,
                }) && sleeps(r.1, 1000)
            },
            self.phase == PowerOffPhase::Waiting ==> {
                &&& r.0 == (PowerOff {
                    attempts_left: self.attempts_left,
                    phase: PowerOffPhase::Checking(
                        Probe { attempts_left: 1, phase: ProbePhase::Asking },
                    ),
                })
                &&& sends(r.1, CURRENT_APP_COMMAND@)
            },
            self.phase matches PowerOffPhase::Checking(p) ==> {
                let (q, a) = probe_outcome(p, event);
                &&& a matches ProbeOutcome::On ==> {
                    &&& self.attempts_left == 1 ==> finishes_with(r.1, LgTvError::PowerOff)
                    &&& self.attempts_left > 1 ==> r.0 == (PowerOff {
                        attempts_left: (self.attempts_left - 1) as u8,
                        phase: PowerOffPhase::Sending,
                    }) && sends(r.1, POWER_OFF_COMMAND@)
                }
                &&& a matches ProbeOutcome::Off ==> finishes_ok(r.1)
                &&& (a is Continue && p.phase == ProbePhase::Asking) ==> sleeps(r.1, 1000)
                &&& (a is Continue && p.phase == ProbePhase::Waiting) ==> sends(
                    r.1,
                    CURRENT_APP_COMMAND@,
                )
                &&& a matches ProbeOutcome::Continue ==> r.0 == (PowerOff {
                    attempts_left: self.attempts_left,
                    phase: PowerOffPhase::Checking(q),
                })
            },
    {
        match self.phase {
            PowerOffPhase::Sending => {
                match event {
                    Event::Reply(Err(e)) => (self, Action::Finish(Err(e))),
                    _ => (
                        PowerOff { attempts_left: self.attempts_left, phase: PowerOffPhase::Waiting },
                        Action::Sleep(1000),
                    ),
                }
            },
            PowerOffPhase::Waiting => {
                let (probe, action) = Probe::start(1);
                (
                    PowerOff {
                        attempts_left: self.attempts_left,
                        phase: PowerOffPhase::Checking(probe),
                    },
                    action,
                )
            },
            PowerOffPhase::Checking(probe) => {
                let (next, action) = probe.step(event);
                match action {
                    Action::Finish(Ok(())) => {
                        let attempts_left = self.attempts_left - 1;
                        let state = PowerOff { attempts_left, phase: PowerOffPhase::Sending };
                        if attempts_left == 0 {
                            (state, Action::Finish(Err(LgTvError::PowerOff)))
                        } else {
                            (state, Action::SendCommand(String::from_str(POWER_OFF_COMMAND)))
                        }
                    },
                    Action::Finish(Err(_)) => (self, Action::Finish(Ok(()))),
                    _ => (
                        PowerOff {
                            attempts_left: self.attempts_left,
                            phase: PowerOffPhase::Checking(next),
                        },
                        action,
                    ),
                }
            },
        }
    }
}

/// What one step of a probe tells.
pub enum ProbeOutcome {
    /// The probe found the TV on.
    On,
    /// The probe gave up: the TV is off.
    Off,
    /// The probe goes on.
    Continue,
}

/// The next state of a probe and what its step tells.
pub open spec fn probe_outcome(p: Probe, event: Event) -> (Probe, ProbeOutcome) {
    match p.phase {
        ProbePhase::Asking => match event {
            Event::Reply(reply) => if shows_app(reply) {
                (p, ProbeOutcome::On)
            } else if p.attempts_left == 0 {
                (p, ProbeOutcome::Off)
            } else {
                (
                    Probe { attempts_left: (p.attempts_left - 1) as u8, phase: ProbePhase::Waiting },
                    ProbeOutcome::Continue,
                )
            },
            _ => (p, ProbeOutcome::Continue),
        },
        ProbePhase::Waiting => (
            Probe { attempts_left: p.attempts_left, phase: ProbePhase::Asking },
            ProbeOutcome::Continue,
        ),
    }
}

/// Where the power-on procedure stands.
#[derive(Debug, Clone, Copy, PartialEq, Eq, Structural)]
pub enum PowerOnPhase {
    /// The Wake-on-LAN packet is being sent.
    WakingUp,
    /// Half a second's wait for the TV to wake.
    Settling,
    /// The connection is being opened again.
    Reconnecting,
    /// Checking that the TV shows an application.
    Checking(Probe),
}

/// Turns the TV on: sends the Wake-on-LAN packet, waits half a second,
/// reconnects, and checks with the given number of retries that the TV is on.
#[derive(Debug, Clone, Copy, PartialEq, Eq, Structural)]
pub struct PowerOn {
    pub attempts: u8,
    pub phase: PowerOnPhase,
}

impl PowerOn {
    /// The event the procedure waits for.
    pub open spec fn expects(self, event: Event) -> bool {
        match self.phase {
            PowerOnPhase::WakingUp => event is WokeUp,
            PowerOnPhase::Settling => event is Slept,
            PowerOnPhase::Reconnecting => event is Reconnected,
            PowerOnPhase::Checking(p) => p.expects(event),
        }
    }

    /// How far the procedure is from its end: each step that does not finish
    /// it brings this down.
    pub open spec fn measure(self) -> nat {
        match self.phase {
            PowerOnPhase::WakingUp => 2 * self.attempts as nat + 4,
            PowerOnPhase::Settling => 2 * self.attempts as nat + 3,
            PowerOnPhase::Reconnecting => 2 * self.attempts as nat + 2,
            PowerOnPhase::Checking(p) => p.measure(),
        }
    }

    /// The state is one that the procedure reaches.
    pub open spec fn wf(self) -> bool {
        self.phase matches PowerOnPhase::Checking(p) ==> p.attempts_left <= self.attempts
    }

    /// Starts turning the TV on, with `retries` retries for the final check
    /// (10 when none is given).
    pub fn start(retries: Option<u8>) -> (r: (PowerOn, Action))
        ensures
            r.0 == (PowerOn {
                attempts: match retries {
                    Some(k) => k,
                    None => 10u8,
                },
                phase: PowerOnPhase::WakingUp,
            }),
            r.1 is WakeOnLan,
    {
        let attempts = match retries {
            Some(k) => k,
            None => DEFAULT_ATTEMPTS,
        };
        (PowerOn { attempts, phase: PowerOnPhase::WakingUp }, Action::WakeOnLan)
    }

    /// Takes the event that came of the last action. A failed Wake-on-LAN
    /// ends the procedure with `WakeOnLan`, a failed reconnection with
    /// `TcpConnectionError`, each with the reason; otherwise the check decides.
    pub fn step(self, event: Event) -> (r: (PowerOn, Action))
        requires
            self.wf(),
            self.expects(event),
        ensures
            is_finish(r.1) || (r.0.wf() && r.0.measure() < self.measure()),
            self.phase == PowerOnPhase::WakingUp ==> {
                let outcome = event->WokeUp_0;
                &&& outcome matches Err(msg) ==> finishes_with(r.1, LgTvError::WakeOnLan(msg))
                &&& outcome is Ok ==> r.0 == (PowerOn {
                    attempts: self.attempts,
                    phase: PowerOnPhase::Settling,
                }) && sleeps(r.1, 500)
            },
            self.phase == PowerOnPhase::Settling ==> r.0 == (PowerOn {
                attempts: self.attempts,
                phase: PowerOnPhase::Reconnecting,
            }) && r.1 is Reconnect,
            self.phase == PowerOnPhase::Reconnecting ==> {
                let outcome = event->Reconnected_0;
                &&& outcome matches Err(msg) ==> finishes_with(
                    r.1,
                    LgTvError::TcpConnectionError(msg),
                )
                &&& outcome is Ok ==> r.0 == (PowerOn {
                    attempts: self.attempts,
                    phase: PowerOnPhase::Checking(
                        Probe { attempts_left: self.attempts, phase: ProbePhase::Asking },
                    ),
                }) && sends(r.1, CURRENT_APP_COMMAND@)
            },
            self.phase matches PowerOnPhase::Checking(p) ==> {
                let (q, a) = probe_outcome(p, event);
                &&& a matches ProbeOutcome::On ==> finishes_ok(r.1)
                &&& a matches ProbeOutcome::Off ==> finishes_with(r.1, LgTvError::PowerOff)
                &&& (a is Continue && p.phase == ProbePhase::Asking) ==> sleeps(r.1, 1000)
                &&& (a is Continue && p.phase == ProbePhase::Waiting) ==> sends(
                    r.1,
                    CURRENT_APP_COMMAND@,
                )
                &&& a matches ProbeOutcome::Continue ==> r.0 == (PowerOn {
                    attempts: self.attempts,
                    phase: PowerOnPhase::Checking(q),
                })
            },
    {
        match self.phase {
            PowerOnPhase::WakingUp => match event {
                Event::WokeUp(Err(msg)) => (self, Action::Finish(Err(LgTvError::WakeOnLan(msg)))),
                _ => (
                    PowerOn { attempts: self.attempts, phase: PowerOnPhase::Settling },
                    Action::Sleep(500),
                ),
            },
            PowerOnPhase::Settling => (
                PowerOn { attempts: self.attempts, phase: PowerOnPhase::Reconnecting },
                Action::Reconnect,
            ),
            PowerOnPhase::Reconnecting => match event {
                Event::Reconnected(Err(msg)) => (
                    self,
                    Action::Finish(Err(LgTvError::TcpConnectionError(msg))),
                ),
                _ => {
                    let (probe, action) = Probe::start(self.attempts);
                    (PowerOn { attempts: self.attempts, phase: PowerOnPhase::Checking(probe) }, action)
                },
            },
            PowerOnPhase::Checking(probe) => {
                let (next, action) = probe.step(event);
                (PowerOn { attempts: self.attempts, phase: PowerOnPhase::Checking(next) }, action)
            },
        }
    }
}

/// The action ends the procedure.
pub open spec fn is_finish(a: Action) -> bool {
    a is Finish
}

} // verus!
