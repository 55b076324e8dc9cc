//! The keepalive of a session: a pulse to the server at every tick of the
//! pulse timer, until the session is closed.

use crate::error::{Error, ErrorView};
use crate::id::ID;
use crate::message::{Request, TransactionRequest};
use crate::options::{Options, SessionType, TransactionType};
use vstd::prelude::*;
use vstd::string::*;

verus! {

/// The time between two pulses of a session, in milliseconds.
pub const PULSE_INTERVAL_MILLIS: u64 = 5000;

/// When pulse number `k` of a session is due, in milliseconds after the
/// session was opened. The first pulse, number 0, is due at once.
pub open spec fn pulse_due(k: nat) -> nat {
    k * (PULSE_INTERVAL_MILLIS as nat)
}

/// What the pulse task has to do next.
#[derive(Debug)]
pub enum PulseAction {
    /// Send a pulse for the session, whatever becomes of it, and sleep
    /// until so many milliseconds after the deadline that just passed.
    Send { session_id: ID, next_pulse_in_millis: u64 },
    /// End the task.
    Stop,
}

/// The mathematical value of a [`PulseAction`].
pub enum PulseActionView {
    Send { session_id: Seq<u8>, next_pulse_in_millis: u64 },
    Stop,
}

impl View for PulseAction {
    type V = PulseActionView;

    open spec fn view(&self) -> PulseActionView {
        match *self {
            PulseAction::Send { session_id, next_pulse_in_millis } => PulseActionView::Send {
                session_id: session_id@,
                next_pulse_in_millis,
            },
            PulseAction::Stop => PulseActionView::Stop,
        }
    }
}

/// The mathematical value of a [`Pulse`].
pub struct PulseView {
    pub session_id: Seq<u8>,
    /// How many pulses have been asked for.
    pub sent: nat,
    pub cancelled: bool,
}

impl PulseView {
    /// When the next pulse is due, in milliseconds after the session was
    /// opened.
    pub open spec fn next_due(self) -> nat {
        pulse_due(self.sent)
    }

    /// What the task does when its timer fires: it sends the pulse that is
    /// due, unless the session was cancelled.
    pub open spec fn on_timer(self) -> (PulseView, PulseActionView) {
        if self.cancelled {
            (self, PulseActionView::Stop)
        } else {
            (
                PulseView { session_id: self.session_id, sent: self.sent + 1, cancelled: false },
                PulseActionView::Send {
                    session_id: self.session_id,
                    next_pulse_in_millis: PULSE_INTERVAL_MILLIS,
                },
            )
        }
    }

    /// The task after the session was closed.
    pub open spec fn on_cancel(self) -> PulseView {
        PulseView { session_id: self.session_id, sent: self.sent, cancelled: true }
    }
}

/// The pulse task of one session.
pub struct Pulse {
    session_id: ID,
    cancelled: bool,
    sent: Ghost<nat>,
}

impl View for Pulse {
    type V = PulseView;

    closed spec fn view(&self) -> PulseView {
        PulseView { session_id: self.session_id@, sent: self.sent@, cancelled: self.cancelled }
    }
}

impl Pulse {
    /// The pulse task of a session that was just opened: its first pulse is
    /// due at once.
    pub fn new(session_id: ID) -> (pulse: Pulse)
        ensures
            pulse@ == (PulseView { session_id: session_id@, sent: 0, cancelled: false }),
    {
        Pulse { session_id, cancelled: false, sent: Ghost(0) }
    }

    /// Whether the task goes on.
    pub fn is_running(&self) -> (running: bool)
        ensures
            running == !self@.cancelled,
    {
        !self.cancelled
    }

    /// Takes the firing of the pulse timer: a pulse is sent for the session
    /// and the next one is due `PULSE_INTERVAL_MILLIS` later. A cancelled
    /// task stops.
    pub fn on_timer(&mut self) -> (action: PulseAction)
        ensures
            (final(self)@, action@) == old(self)@.on_timer(),
    {
        if self.cancelled {
            PulseAction::Stop
        } else {
            proof {
                self.sent@ = self.sent@ + 1;
            }
            PulseAction::Send {
                session_id: self.session_id.clone(),
                next_pulse_in_millis: PULSE_INTERVAL_MILLIS,
            }
        }
    }

    /// Takes the outcome of a pulse. A failed pulse is swallowed like a
    /// successful one: the task goes on, and the server's own timeout will
    /// close a session that it has lost.
    pub fn on_reply(&self, succeeded: bool) -> (goes_on: bool)
        ensures
            goes_on == !self@.cancelled,
    {
        !self.cancelled
    }

    /// Takes the signal that the session was closed: the task stops at its
    /// next step.
    pub fn on_cancel(&mut self)
        ensures
            final(self)@ == old(self)@.on_cancel(),
    {
        self.cancelled = true;
    }
}

/// Pulse keeps the session alive. While the pulse task runs, a pulse is due
/// in every stretch of time that is at least as long as the pulse interval.
/// So a server whose idle timeout is no shorter than the pulse interval
/// never sees the session idle for a whole timeout, however long the user
/// leaves it alone.
pub proof fn lemma_pulse_in_every_window(from: nat, window: nat)
    requires
        window >= PULSE_INTERVAL_MILLIS,
    ensures
        exists|k: nat| from <= #[trigger] pulse_due(k) < from + window,
{
    let interval = PULSE_INTERVAL_MILLIS as nat;
    let k: nat = if from % interval == 0 {
        from / interval
    } else {
        from / interval + 1
    };
    assert(from <= pulse_due(k) < from + window) by (nonlinear_arith)
        requires
            interval == 5000,
            window >= interval,
            k == if from % interval == 0 {
                from / interval
            } else {
                from / interval + 1
            },
            pulse_due(k) == k * interval,
    {
    }
}

/// A running pulse task that has seen its timer fire `fired` times has asked
/// for as many pulses, and the next one is due one interval after the last.
pub proof fn lemma_pulse_schedule(start: PulseView, fired: nat)
    requires
        !start.cancelled,
    ensures
        after_timers(start, fired).sent == start.sent + fired,
        !after_timers(start, fired).cancelled,
        after_timers(start, fired).next_due() == start.next_due() + fired * (
        PULSE_INTERVAL_MILLIS as nat),
    decreases fired,
{
    if fired > 0 {
        lemma_pulse_schedule(start, (fired - 1) as nat);
        let interval = PULSE_INTERVAL_MILLIS as nat;
        let s = start.sent;
        assert((s + fired) * interval == s * interval + fired * interval) by (nonlinear_arith);
    } else {
        assert(0 * (PULSE_INTERVAL_MILLIS as nat) == 0);
    }
}

/// The pulse task after its timer has fired `fired` times.
pub open spec fn after_timers(start: PulseView, fired: nat) -> PulseView
    decreases fired,
{
    if fired == 0 {
        start
    } else {
        after_timers(start, (fired - 1) as nat).on_timer().0
    }
}

/// The mathematical value of a [`Session`].
pub struct SessionView {
    pub session_id: Seq<u8>,
    pub session_type: SessionType,
    pub database_name: Seq<char>,
    pub network_latency_millis: u64,
    pub is_open: bool,
}

/// How long a message travels between the driver and the server: what the
/// opening of the session took, less what the server says that it took
/// itself, and nothing if the server took longer than all of it.
pub open spec fn network_latency(elapsed_millis: u64, server_duration_millis: u64) -> u64 {
    if elapsed_millis >= server_duration_millis {
        (elapsed_millis - server_duration_millis) as u64
    } else {
        0
    }
}

/// A session on a database, as the server opened it.
#[derive(Debug)]
pub struct Session {
    session_id: ID,
    session_type: SessionType,
    database_name: String,
    network_latency_millis: u64,
    is_open: bool,
}

impl View for Session {
    type V = SessionView;

    closed spec fn view(&self) -> SessionView {
        SessionView {
            session_id: self.session_id@,
            session_type: self.session_type,
            database_name: self.database_name@,
            network_latency_millis: self.network_latency_millis,
            is_open: self.is_open,
        }
    }
}

impl Session {
    /// The open session that the server opened under `session_id`. The
    /// opening took `elapsed_millis`, of which the server reports
    /// `server_duration_millis` as its own.
    pub fn new(
        database_name: &str,
        session_type: SessionType,
        session_id: ID,
        elapsed_millis: u64,
        server_duration_millis: u64,
    ) -> (session: Session)
        ensures
            session@ == (SessionView {
                session_id: session_id@,
                session_type,
                database_name: database_name@,
                network_latency_millis: network_latency(elapsed_millis, server_duration_millis),
                is_open: true,
            }),
    {
        let network_latency_millis = if elapsed_millis >= server_duration_millis {
            elapsed_millis - server_duration_millis
        } else {
            0
        };
        Session {
            session_id,
            session_type,
            database_name: database_name.to_owned(),
            network_latency_millis,
            is_open: true,
        }
    }

    /// The id that the server gave the session.
    pub fn id(&self) -> (id: &ID)
        ensures
            id@ == self@.session_id,
    {
        &self.session_id
    }

    /// What the session was opened for.
    pub fn type_(&self) -> (session_type: SessionType)
        ensures
            session_type == self@.session_type,
    {
        self.session_type
    }

    /// The name of the session's database.
    pub fn database_name(&self) -> (name: &str)
        ensures
            name@ == self@.database_name,
    {
        self.database_name.as_str()
    }

    /// How long a message travels to the server, in milliseconds.
    pub fn network_latency_millis(&self) -> (millis: u64)
        ensures
            millis == self@.network_latency_millis,
    {
        self.network_latency_millis
    }

    /// Whether the session has not been closed.
    pub fn is_open(&self) -> (open: bool)
        ensures
            open == self@.is_open,
    {
        self.is_open
    }

    /// The pulse task of the session.
    pub fn pulse(&self) -> (pulse: Pulse)
        ensures
            pulse@ == (PulseView { session_id: self@.session_id, sent: 0, cancelled: false }),
    {
        Pulse::new(self.session_id.clone())
    }

    /// The request that opens a transaction in the session. Refused with
    /// `SessionIsClosed` exactly when the session has been closed.
    pub fn transaction(&self, transaction_type: TransactionType, options: Options) -> (res: Result<
        Request,
        Error,
    >)
        ensures
            match res {
                Ok(request) => {
                    &&& self@.is_open
                    &&& request matches Request::Transaction(
                        TransactionRequest::Open {
                            session_id,
                            transaction_type: requested,
                            options: carried,
                            network_latency_millis,
                        },
                    )
                    &&& session_id@ == self@.session_id
                    &&& requested == transaction_type
                    &&& carried == options
                    &&& network_latency_millis == self@.network_latency_millis
                },
                Err(error) => !self@.is_open && error@ == ErrorView::SessionIsClosed,
            },
    {
        if !self.is_open {
            return Err(Error::SessionIsClosed);
        }
        Ok(
            Request::Transaction(
                TransactionRequest::Open {
                    session_id: self.session_id.clone(),
                    transaction_type,
                    options,
                    network_latency_millis: self.network_latency_millis,
                },
            ),
        )
    }

    /// Closes the session. Returns whether it was open: only then does the
    /// close request have to be sent. A second call changes nothing.
    pub fn force_close(&mut self) -> (was_open: bool)
        ensures
            was_open == old(self)@.is_open,
            final(self)@ == (SessionView { is_open: false, ..old(self)@ }),
    {
        let was_open = self.is_open;
        self.is_open = false;
        was_open
    }
}

} // verus!
