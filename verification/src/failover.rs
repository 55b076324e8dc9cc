//! The retry combinators of a cluster: on any replica, on the primary
//! replica, and fail-safe.
//!
//! A combinator is a state machine. It never touches the network: it says
//! what has to happen next (run the task on a replica, ask a server for the
//! replicas, wait), the caller does so and reports what came of it.

use crate::database::{
    cluster_unable_to_connect, primary_index, replica_views, unable_to_connect, Database,
    DatabaseView, Replica, ReplicaView,
};
use crate::error::{Error, ErrorView, InternalError};
use vstd::prelude::*;

verus! {

/// How often a task is run on the primary replica before the run gives up.
pub const MAX_RETRIES: usize = 10;

/// How often the replicas are fetched anew while no primary is advertised.
pub const FETCH_MAX_RETRIES: usize = 10;

/// How long a wait for the election of a primary lasts, in milliseconds.
pub const PRIMARY_WAIT_MILLIS: u64 = 2000;

/// Which combinator a run follows.
#[derive(Clone, Copy, Debug, PartialEq, Eq, Structural)]
pub enum Strategy {
    /// Fetch the replicas of the database from any server that answers.
    FetchReplicas,
    /// Run the task on the replicas in list order until one can be reached.
    AnyReplica,
    /// Run the task on the primary replica, seeking it anew after a failure.
    PrimaryReplica,
    /// Try any replica; fall back to the primary if that replica refuses.
    Failsafe,
}

/// Where a run stands.
#[derive(Clone, Copy, Debug, PartialEq, Eq, Structural)]
pub enum Phase {
    /// Not started.
    Idle,
    /// The only work is a fetch, and server `server` was asked.
    FetchOnly { server: usize },
    /// The task runs on replica `replica`, in list order.
    AnyTask { replica: usize },
    /// The task runs on the primary, replica `replica`; it is run number `runs`.
    PrimaryTask { replica: usize, runs: usize },
    /// The caller waits after failed run number `runs`.
    RetryWait { runs: usize },
    /// Server `server` was asked for the replicas, in round `seeks` of a
    /// search for the primary, after `runs` runs of the task.
    Fetching { server: usize, seeks: usize, runs: usize },
    /// The caller waits because round `seeks` found no primary.
    SeekWait { seeks: usize, runs: usize },
    /// The run is over.
    Finished,
}

/// What the caller has to do next.
#[derive(Debug)]
pub enum Action {
    /// Run the task on replica `replica` of the snapshot and report the result.
    Run { replica: usize, is_first_run: bool },
    /// Ask server `server` of the cluster for the replicas and report the answer.
    Fetch { server: usize },
    /// Wait for so many milliseconds and report back.
    Wait { millis: u64 },
    /// The run is over: hand on what was reported last, unchanged.
    Return,
    /// The run is over: fail with this error.
    Fail(Error),
}

/// The mathematical value of an [`Action`].
pub enum ActionView {
    Run { replica: usize, is_first_run: bool },
    Fetch { server: usize },
    Wait { millis: u64 },
    Return,
    Fail(ErrorView),
}

impl View for Action {
    type V = ActionView;

    open spec fn view(&self) -> ActionView {
        match *self {
            Action::Run { replica, is_first_run } => ActionView::Run { replica, is_first_run },
            Action::Fetch { server } => ActionView::Fetch { server },
            Action::Wait { millis } => ActionView::Wait { millis },
            Action::Return => ActionView::Return,
            Action::Fail(error) => ActionView::Fail(error@),
        }
    }
}

/// What the caller reports.
pub enum Event {
    /// The run begins.
    Start,
    /// The task ran: it succeeded (`None`) or failed with the error.
    TaskDone(Option<ErrorView>),
    /// The wait is over.
    Waited,
    /// The server that was asked answered with these replicas.
    Fetched(Seq<ReplicaView>),
    /// The server that was asked did not answer with replicas.
    FetchFailed(ErrorView),
}

/// The mathematical value of a [`Failover`] run.
pub struct FailoverView {
    pub strategy: Strategy,
    pub phase: Phase,
    pub database: DatabaseView,
}

/// What an event that the phase does not expect is answered with.
pub open spec fn out_of_turn() -> ErrorView {
    ErrorView::InternalError(InternalError::UnexpectedResponseType)
}

impl FailoverView {
    /// The invariant of a run: the indices of the phase lie in the snapshot
    /// and in the cluster, and the counters within their caps.
    pub open spec fn wf(self) -> bool {
        match self.phase {
            Phase::Idle => true,
            Phase::FetchOnly { server } => server < self.database.servers.len(),
            Phase::AnyTask { replica } => replica < self.database.replicas.len(),
            Phase::PrimaryTask { replica, runs } => replica < self.database.replicas.len() && 1
                <= runs <= MAX_RETRIES,
            Phase::RetryWait { runs } => 1 <= runs <= MAX_RETRIES,
            Phase::Fetching { server, seeks, runs } => server < self.database.servers.len() && 1
                <= seeks <= FETCH_MAX_RETRIES && runs <= MAX_RETRIES,
            Phase::SeekWait { seeks, runs } => 1 <= seeks <= FETCH_MAX_RETRIES && runs
                <= MAX_RETRIES,
            Phase::Finished => true,
        }
    }

    /// The run in another phase.
    pub open spec fn at(self, phase: Phase) -> FailoverView {
        FailoverView { strategy: self.strategy, phase, database: self.database }
    }

    /// The run with a newer snapshot of the replicas.
    pub open spec fn with_replicas(self, replicas: Seq<ReplicaView>) -> FailoverView {
        FailoverView {
            strategy: self.strategy,
            phase: self.phase,
            database: DatabaseView {
                name: self.database.name,
                replicas,
                servers: self.database.servers,
            },
        }
    }

    /// The run ends with a failure.
    pub open spec fn fail(self, error: ErrorView) -> (FailoverView, ActionView) {
        (self.at(Phase::Finished), ActionView::Fail(error))
    }

    /// The run ends because no server or replica could be reached.
    pub open spec fn give_up(self) -> (FailoverView, ActionView) {
        self.fail(unable_to_connect(self.database.servers))
    }

    /// A round of fetches begins at the first server.
    pub open spec fn fetch_round(self, seeks: usize, runs: usize) -> (FailoverView, ActionView) {
        if self.database.servers.len() == 0 {
            self.give_up()
        } else {
            (self.at(Phase::Fetching { server: 0, seeks, runs }), ActionView::Fetch { server: 0 })
        }
    }

    /// The task runs on the primary next, unless it has run as often as it may.
    pub open spec fn run_on_primary(self, primary: int, runs: usize) -> (
        FailoverView,
        ActionView,
    ) {
        if runs < MAX_RETRIES {
            (
                self.at(
                    Phase::PrimaryTask { replica: primary as usize, runs: (runs + 1) as usize },
                ),
                ActionView::Run { replica: primary as usize, is_first_run: runs == 0 },
            )
        } else {
            self.give_up()
        }
    }

    /// The part of a run that works on the primary begins: with the primary
    /// of the snapshot if it has one, with a search for it otherwise.
    pub open spec fn begin_on_primary(self) -> (FailoverView, ActionView) {
        match primary_index(self.database.replicas) {
            Some(primary) => self.run_on_primary(primary, 0),
            None => self.fetch_round(1, 0),
        }
    }

    /// What the run answers to `Start`.
    pub open spec fn on_start(self) -> (FailoverView, ActionView) {
        match self.strategy {
            Strategy::FetchReplicas => if self.database.servers.len() == 0 {
                self.give_up()
            } else {
                (self.at(Phase::FetchOnly { server: 0 }), ActionView::Fetch { server: 0 })
            },
            Strategy::PrimaryReplica => self.begin_on_primary(),
            _ => if self.database.replicas.len() == 0 {
                self.give_up()
            } else {
                (
                    self.at(Phase::AnyTask { replica: 0 }),
                    ActionView::Run { replica: 0, is_first_run: true },
                )
            },
        }
    }

    /// What the run answers to the result of the task.
    pub open spec fn on_task_done(self, failure: Option<ErrorView>) -> (FailoverView, ActionView) {
        match self.phase {
            Phase::AnyTask { replica } => {
                if failure == Some(ErrorView::UnableToConnect) {
                    if replica + 1 < self.database.replicas.len() {
                        (
                            self.at(Phase::AnyTask { replica: (replica + 1) as usize }),
                            ActionView::Run {
                                replica: (replica + 1) as usize,
                                is_first_run: false,
                            },
                        )
                    } else {
                        self.give_up()
                    }
                } else if self.strategy == Strategy::Failsafe && failure == Some(
                    ErrorView::ClusterReplicaNotPrimary,
                ) {
                    self.begin_on_primary()
                } else {
                    (self.at(Phase::Finished), ActionView::Return)
                }
            },
            Phase::PrimaryTask { replica, runs } => {
                if failure is Some && failure.unwrap().is_retryable() {
                    (self.at(Phase::RetryWait { runs }), ActionView::Wait { millis: PRIMARY_WAIT_MILLIS })
                } else {
                    (self.at(Phase::Finished), ActionView::Return)
                }
            },
            _ => self.fail(out_of_turn()),
        }
    }

    /// What the run answers to the end of a wait.
    pub open spec fn on_waited(self) -> (FailoverView, ActionView) {
        match self.phase {
            Phase::RetryWait { runs } => self.fetch_round(1, runs),
            Phase::SeekWait { seeks, runs } => {
                if seeks < FETCH_MAX_RETRIES {
                    self.fetch_round((seeks + 1) as usize, runs)
                } else {
                    self.give_up()
                }
            },
            _ => self.fail(out_of_turn()),
        }
    }

    /// What the run answers to the replicas that a server reported.
    pub open spec fn on_fetched(self, replicas: Seq<ReplicaView>) -> (FailoverView, ActionView) {
        match self.phase {
            Phase::FetchOnly { server } => (
                self.with_replicas(replicas).at(Phase::Finished),
                ActionView::Return,
            ),
            Phase::Fetching { server, seeks, runs } => {
                let fresh = self.with_replicas(replicas);
                match primary_index(replicas) {
                    Some(primary) => fresh.run_on_primary(primary, runs),
                    None => (fresh.at(Phase::SeekWait { seeks, runs }), ActionView::Wait { millis: PRIMARY_WAIT_MILLIS }),
                }
            },
            _ => self.fail(out_of_turn()),
        }
    }

    /// What the run answers to a server that reported no replicas.
    pub open spec fn on_fetch_failed(self, error: ErrorView) -> (FailoverView, ActionView) {
        match self.phase {
            Phase::FetchOnly { server } => {
                if error is UnableToConnect {
                    if server + 1 < self.database.servers.len() {
                        (
                            self.at(Phase::FetchOnly { server: (server + 1) as usize }),
                            ActionView::Fetch { server: (server + 1) as usize },
                        )
                    } else {
                        self.give_up()
                    }
                } else {
                    self.fail(error)
                }
            },
            Phase::Fetching { server, seeks, runs } => {
                if error is UnableToConnect {
                    if server + 1 < self.database.servers.len() {
                        (
                            self.at(
                                Phase::Fetching { server: (server + 1) as usize, seeks, runs },
                            ),
                            ActionView::Fetch { server: (server + 1) as usize },
                        )
                    } else {
                        self.give_up()
                    }
                } else {
                    self.fail(error)
                }
            },
            _ => self.fail(out_of_turn()),
        }
    }

    /// The transition function of a run: the state after the event, and
    /// what the caller has to do next.
    pub open spec fn step(self, event: Event) -> (FailoverView, ActionView) {
        match event {
            Event::Start => if self.phase is Idle {
                self.on_start()
            } else {
                self.fail(out_of_turn())
            },
            Event::TaskDone(failure) => self.on_task_done(failure),
            Event::Waited => self.on_waited(),
            Event::Fetched(replicas) => self.on_fetched(replicas),
            Event::FetchFailed(error) => self.on_fetch_failed(error),
        }
    }
}

/// The error of a task's result, if it failed.
pub open spec fn failure_of<R>(result: Result<R, Error>) -> Option<ErrorView> {
    match result {
        Ok(_) => None,
        Err(error) => Some(error@),
    }
}

/// One run of a retry combinator on a database.
#[derive(Debug)]
pub struct Failover {
    strategy: Strategy,
    phase: Phase,
    database: Database,
}

impl View for Failover {
    type V = FailoverView;

    closed spec fn view(&self) -> FailoverView {
        FailoverView { strategy: self.strategy, phase: self.phase, database: self.database@ }
    }
}

impl Failover {
    /// A run of the given combinator on a database, not yet started.
    pub fn new(strategy: Strategy, database: Database) -> (run: Failover)
        ensures
            run@ == (FailoverView { strategy, phase: Phase::Idle, database: database@ }),
            run@.wf(),
    {
        Failover { strategy, phase: Phase::Idle, database }
    }

    /// Which combinator the run follows.
    pub fn strategy(&self) -> (strategy: Strategy)
        ensures
            strategy == self@.strategy,
    {
        self.strategy
    }

    /// Where the run stands.
    pub fn phase(&self) -> (phase: Phase)
        ensures
            phase == self@.phase,
    {
        self.phase
    }

    /// Whether the run is over.
    pub fn is_finished(&self) -> (finished: bool)
        ensures
            finished == (self@.phase is Finished),
    {
        match self.phase {
            Phase::Finished => true,
            _ => false,
        }
    }

    /// The database with the newest snapshot of its replicas.
    pub fn database(&self) -> (database: &Database)
        ensures
            database@ == self@.database,
    {
        &self.database
    }

    /// Ends the use of the run and hands back the database with the newest
    /// snapshot of its replicas.
    pub fn into_database(self) -> (database: Database)
        ensures
            database@ == self@.database,
    {
        self.database
    }

    fn fail(&mut self, error: Error) -> (action: Action)
        ensures
            (final(self)@, action@) == old(self)@.fail(error@),
            final(self)@.wf(),
    {
        self.phase = Phase::Finished;
        Action::Fail(error)
    }

    fn give_up(&mut self) -> (action: Action)
        ensures
            (final(self)@, action@) == old(self)@.give_up(),
            final(self)@.wf(),
    {
        let error = cluster_unable_to_connect(self.database.servers());
        self.fail(error)
    }

    fn fetch_round(&mut self, seeks: usize, runs: usize) -> (action: Action)
        requires
            1 <= seeks <= FETCH_MAX_RETRIES,
            runs <= MAX_RETRIES,
        ensures
            (final(self)@, action@) == old(self)@.fetch_round(seeks, runs),
            final(self)@.wf(),
    {
        if self.database.servers().len() == 0 {
            self.give_up()
        } else {
            self.phase = Phase::Fetching { server: 0, seeks, runs };
            Action::Fetch { server: 0 }
        }
    }

    fn run_on_primary(&mut self, primary: usize, runs: usize) -> (action: Action)
        requires
            primary < old(self)@.database.replicas.len(),
            runs <= MAX_RETRIES,
        ensures
            (final(self)@, action@) == old(self)@.run_on_primary(primary as int, runs),
            final(self)@.wf(),
    {
        if runs < MAX_RETRIES {
            self.phase = Phase::PrimaryTask { replica: primary, runs: runs + 1 };
            Action::Run { replica: primary, is_first_run: runs == 0 }
        } else {
            self.give_up()
        }
    }

    fn begin_on_primary(&mut self) -> (action: Action)
        ensures
            (final(self)@, action@) == old(self)@.begin_on_primary(),
            final(self)@.wf(),
    {
        match self.database.primary_replica_index() {
            Some(primary) => {
                proof {
                    crate::database::lemma_primary_index(self@.database.replicas);
                }
                self.run_on_primary(primary, 0)
            },
            None => self.fetch_round(1, 0),
        }
    }

    /// Begins the run. A run begins once: a second `start` ends it with an
    /// internal error.
    pub fn start(&mut self) -> (action: Action)
        requires
            old(self)@.wf(),
        ensures
            (final(self)@, action@) == old(self)@.step(Event::Start),
            final(self)@.wf(),
    {
        match self.phase {
            Phase::Idle => {},
            _ => {
                return self.fail(Error::InternalError(InternalError::UnexpectedResponseType));
            },
        }
        match self.strategy {
            Strategy::FetchReplicas => {
                if self.database.servers().len() == 0 {
                    self.give_up()
                } else {
                    self.phase = Phase::FetchOnly { server: 0 };
                    Action::Fetch { server: 0 }
                }
            },
            Strategy::PrimaryReplica => self.begin_on_primary(),
            _ => {
                if self.database.replicas().len() == 0 {
                    self.give_up()
                } else {
                    self.phase = Phase::AnyTask { replica: 0 };
                    Action::Run { replica: 0, is_first_run: true }
                }
            },
        }
    }

    /// Takes the result of the task that the last `Run` asked for.
    ///
    /// On any replica, `UnableToConnect` moves on to the next replica, and
    /// past the last one the run gives up; in a fail-safe run
    /// `ClusterReplicaNotPrimary` turns to the primary; every other result
    /// is returned. On the primary, `UnableToConnect` and
    /// `ClusterReplicaNotPrimary` ask for a wait of `PRIMARY_WAIT_MILLIS`,
    /// and every other result is returned.
    pub fn on_task_result<R>(&mut self, result: &Result<R, Error>) -> (action: Action)
        requires
            old(self)@.wf(),
        ensures
            (final(self)@, action@) == old(self)@.step(Event::TaskDone(failure_of(*result))),
            final(self)@.wf(),
    {
        match self.phase {
            Phase::AnyTask { replica } => {
                let unreachable = match result {
                    Err(Error::UnableToConnect) => true,
                    _ => false,
                };
                let not_primary = match result {
                    Err(Error::ClusterReplicaNotPrimary) => true,
                    _ => false,
                };
                if unreachable {
                    let count = self.database.replicas().len();
                    if replica + 1 < count {
                        self.phase = Phase::AnyTask { replica: replica + 1 };
                        Action::Run { replica: replica + 1, is_first_run: false }
                    } else {
                        self.give_up()
                    }
                } else if not_primary && matches!(self.strategy, Strategy::Failsafe) {
                    self.begin_on_primary()
                } else {
                    self.phase = Phase::Finished;
                    Action::Return
                }
            },
            Phase::PrimaryTask { replica, runs } => {
                let retry = match result {
                    Err(error) => error.is_retryable(),
                    Ok(_) => false,
                };
                if retry {
                    self.phase = Phase::RetryWait { runs };
                    Action::Wait { millis: PRIMARY_WAIT_MILLIS }
                } else {
                    self.phase = Phase::Finished;
                    Action::Return
                }
            },
            _ => self.fail(Error::InternalError(InternalError::UnexpectedResponseType)),
        }
    }

    /// Takes the end of the wait that the last `Wait` asked for.
    ///
    /// After a failed run of the task a search for the primary begins. After
    /// a round of the search that found no primary the next round begins,
    /// unless there have been `FETCH_MAX_RETRIES` rounds: then the run gives
    /// up.
    pub fn on_waited(&mut self) -> (action: Action)
        requires
            old(self)@.wf(),
        ensures
            (final(self)@, action@) == old(self)@.step(Event::Waited),
            final(self)@.wf(),
    {
        match self.phase {
            Phase::RetryWait { runs } => self.fetch_round(1, runs),
            Phase::SeekWait { seeks, runs } => {
                if seeks < FETCH_MAX_RETRIES {
                    self.fetch_round(seeks + 1, runs)
                } else {
                    self.give_up()
                }
            },
            _ => self.fail(Error::InternalError(InternalError::UnexpectedResponseType)),
        }
    }

    /// Takes the replicas that the server of the last `Fetch` reported. They
    /// replace the snapshot.
    ///
    /// Where only a fetch was asked for, the run is over. In a search for
    /// the primary, the task runs on the primary of the new snapshot, unless
    /// it has run `MAX_RETRIES` times: then the run gives up. If the new
    /// snapshot has no primary, the run asks for a wait.
    pub fn on_fetched(&mut self, replicas: Vec<Replica>) -> (action: Action)
        requires
            old(self)@.wf(),
        ensures
            (final(self)@, action@) == old(self)@.step(
                Event::Fetched(replica_views(replicas@)),
            ),
            final(self)@.wf(),
    {
        match self.phase {
            Phase::FetchOnly { server } => {
                self.database.set_replicas(replicas);
                self.phase = Phase::Finished;
                Action::Return
            },
            Phase::Fetching { server, seeks, runs } => {
                self.database.set_replicas(replicas);
                match self.database.primary_replica_index() {
                    Some(primary) => {
                        proof {
                            crate::database::lemma_primary_index(self@.database.replicas);
                        }
                        self.run_on_primary(primary, runs)
                    },
                    None => {
                        self.phase = Phase::SeekWait { seeks, runs };
                        Action::Wait { millis: PRIMARY_WAIT_MILLIS }
                    },
                }
            },
            _ => self.fail(Error::InternalError(InternalError::UnexpectedResponseType)),
        }
    }

    /// Takes the error of the server of the last `Fetch`.
    ///
    /// `UnableToConnect` moves on to the next server, and past the last one
    /// the run gives up. Every other error ends the run with that error.
    pub fn on_fetch_failed(&mut self, error: Error) -> (action: Action)
        requires
            old(self)@.wf(),
        ensures
            (final(self)@, action@) == old(self)@.step(Event::FetchFailed(error@)),
            final(self)@.wf(),
    {
        let unreachable = match &error {
            Error::UnableToConnect => true,
            _ => false,
        };
        match self.phase {
            Phase::FetchOnly { server } => {
                if unreachable {
                    let count = self.database.servers().len();
                    if server + 1 < count {
                        self.phase = Phase::FetchOnly { server: server + 1 };
                        Action::Fetch { server: server + 1 }
                    } else {
                        self.give_up()
                    }
                } else {
                    self.fail(error)
                }
            },
            Phase::Fetching { server, seeks, runs } => {
                if unreachable {
                    let count = self.database.servers().len();
                    if server + 1 < count {
                        self.phase = Phase::Fetching { server: server + 1, seeks, runs };
                        Action::Fetch { server: server + 1 }
                    } else {
                        self.give_up()
                    }
                } else {
                    self.fail(error)
                }
            },
            _ => self.fail(Error::InternalError(InternalError::UnexpectedResponseType)),
        }
    }
}

impl Database {
    /// The run that fetches the replicas of this database anew from any
    /// server that answers. `UnableToConnect` moves on to the next server;
    /// any other error ends the run.
    pub fn fetch_replicas(self) -> (run: Failover)
        ensures
            run@ == (FailoverView {
                strategy: Strategy::FetchReplicas,
                phase: Phase::Idle,
                database: self@,
            }),
            run@.wf(),
    {
        Failover::new(Strategy::FetchReplicas, self)
    }

    /// The run of a task on the replicas in list order, until one of them
    /// can be reached.
    pub fn run_on_any_replica(self) -> (run: Failover)
        ensures
            run@ == (FailoverView {
                strategy: Strategy::AnyReplica,
                phase: Phase::Idle,
                database: self@,
            }),
            run@.wf(),
    {
        Failover::new(Strategy::AnyReplica, self)
    }

    /// The run of a task on the primary replica, which is sought anew after
    /// each failure that is retried, for at most `MAX_RETRIES` runs.
    pub fn run_on_primary_replica(self) -> (run: Failover)
        ensures
            run@ == (FailoverView {
                strategy: Strategy::PrimaryReplica,
                phase: Phase::Idle,
                database: self@,
            }),
            run@.wf(),
    {
        Failover::new(Strategy::PrimaryReplica, self)
    }

    /// The fail-safe run of a task: on any replica first, and on the primary
    /// if that replica answers that it is not the primary.
    pub fn run_failsafe(self) -> (run: Failover)
        ensures
            run@ == (FailoverView {
                strategy: Strategy::Failsafe,
                phase: Phase::Idle,
                database: self@,
            }),
            run@.wf(),
    {
        Failover::new(Strategy::Failsafe, self)
    }
}

} // verus!
