//! The databases of a cluster: looking one up, and listing all of them.

use crate::address::{Address, AddressView};
use crate::database::{
    address_views, clone_addresses, is_well_addressed, replicas_of, Database, DatabaseInfo,
    DatabaseInfoView, DatabaseView,
};
use crate::error::{error_message, Error, ErrorView, InternalError};
use crate::failover::{out_of_turn, Failover, FailoverView, Phase, Strategy};
use crate::text::{
    join, joined, lemma_joined_holds_each_part, lemma_occurs_in_is_transitive, occurs_at,
    occurs_in, views,
};
use vstd::prelude::*;
use vstd::string::*;

verus! {

/// The line that reports the failure of one server: a hyphen, the server's
/// address, a colon, and what the error says.
pub open spec fn diagnostic_line(address: AddressView, error: ErrorView) -> Seq<char> {
    "- "@ + address.canonical() + ": "@ + error_message(error)
}

/// The lines that report the failures of the first servers, one per error.
pub open spec fn diagnostic_lines(servers: Seq<AddressView>, errors: Seq<ErrorView>) -> Seq<
    Seq<char>,
> {
    Seq::new(errors.len(), |i: int| diagnostic_line(servers[i], errors[i]))
}

/// The error of a listing that every server refused: one line per server,
/// in the servers' order.
pub open spec fn all_nodes_failed(servers: Seq<AddressView>, errors: Seq<ErrorView>) -> ErrorView {
    ErrorView::ClusterAllNodesFailed(joined(diagnostic_lines(servers, errors), "\n"@))
}

/// The databases that a listing describes, in a cluster of the given servers.
pub open spec fn databases_of(listing: Seq<DatabaseInfoView>, servers: Seq<AddressView>) -> Seq<
    DatabaseView,
> {
    Seq::new(
        listing.len(),
        |i: int|
            DatabaseView {
                name: listing[i].name,
                replicas: replicas_of(listing[i]),
                servers,
            },
    )
}

/// Whether every replica in a listing has an address that can be parsed.
pub open spec fn is_listing_well_addressed(listing: Seq<DatabaseInfoView>) -> bool {
    forall|i: int| 0 <= i < listing.len() ==> is_well_addressed(#[trigger] listing[i])
}

/// The values of a list of reports.
pub open spec fn info_views(listing: Seq<DatabaseInfo>) -> Seq<DatabaseInfoView> {
    Seq::new(listing.len(), |i: int| listing[i]@)
}

/// The values of a list of databases.
pub open spec fn database_views(databases: Seq<Database>) -> Seq<DatabaseView> {
    Seq::new(databases.len(), |i: int| databases[i]@)
}

/// Where a listing stands.
#[derive(Clone, Copy, Debug, PartialEq, Eq, Structural)]
pub enum ListingPhase {
    /// Not started.
    Idle,
    /// Server `server` was asked for its databases.
    Asking { server: usize },
    /// The listing is over.
    Finished,
}

/// What the caller of a listing has to do next.
#[derive(Debug)]
pub enum ListingAction {
    /// Ask server `server` of the cluster for its databases and report the answer.
    Ask { server: usize },
    /// The listing is over: these are the databases.
    Done(Vec<Database>),
    /// The listing is over: fail with this error.
    Fail(Error),
}

/// The mathematical value of a [`ListingAction`].
pub enum ListingActionView {
    Ask { server: usize },
    Done(Seq<DatabaseView>),
    Fail(ErrorView),
}

impl View for ListingAction {
    type V = ListingActionView;

    open spec fn view(&self) -> ListingActionView {
        match *self {
            ListingAction::Ask { server } => ListingActionView::Ask { server },
            ListingAction::Done(databases) => ListingActionView::Done(database_views(databases@)),
            ListingAction::Fail(error) => ListingActionView::Fail(error@),
        }
    }
}

/// The mathematical value of a [`Listing`].
pub struct ListingView {
    pub servers: Seq<AddressView>,
    pub phase: ListingPhase,
    pub errors: Seq<ErrorView>,
}

impl ListingView {
    /// The invariant of a listing: the servers before the one that is asked
    /// have failed, each with one error.
    pub open spec fn wf(self) -> bool {
        match self.phase {
            ListingPhase::Idle => self.errors.len() == 0,
            ListingPhase::Asking { server } => server < self.servers.len() && self.errors.len()
                == server,
            ListingPhase::Finished => true,
        }
    }

    /// The listing in another phase.
    pub open spec fn at(self, phase: ListingPhase) -> ListingView {
        ListingView { servers: self.servers, phase, errors: self.errors }
    }

    /// What the listing answers to its start: it asks the first server, and
    /// a cluster without servers has failed at once.
    pub open spec fn on_start(self) -> (ListingView, ListingActionView) {
        if !(self.phase is Idle) {
            (self.at(ListingPhase::Finished), ListingActionView::Fail(out_of_turn()))
        } else if self.servers.len() == 0 {
            (
                self.at(ListingPhase::Finished),
                ListingActionView::Fail(all_nodes_failed(self.servers, self.errors)),
            )
        } else {
            (self.at(ListingPhase::Asking { server: 0 }), ListingActionView::Ask { server: 0 })
        }
    }

    /// What the listing answers to the databases that a server reported:
    /// they are the result, unless an address among them cannot be parsed.
    pub open spec fn on_listed(self, listing: Seq<DatabaseInfoView>) -> (
        ListingView,
        Option<ListingActionView>,
    ) {
        if !(self.phase is Asking) {
            (self.at(ListingPhase::Finished), Some(ListingActionView::Fail(out_of_turn())))
        } else if is_listing_well_addressed(listing) {
            (
                self.at(ListingPhase::Finished),
                Some(ListingActionView::Done(databases_of(listing, self.servers))),
            )
        } else {
            (self.at(ListingPhase::Finished), None)
        }
    }

    /// What the listing answers to the error of a server: it asks the next
    /// server, and past the last one it fails with a line for each server.
    pub open spec fn on_failed(self, error: ErrorView) -> (ListingView, ListingActionView) {
        match self.phase {
            ListingPhase::Asking { server } => {
                let errors = self.errors.push(error);
                if server + 1 < self.servers.len() {
                    (
                        ListingView {
                            servers: self.servers,
                            phase: ListingPhase::Asking { server: (server + 1) as usize },
                            errors,
                        },
                        ListingActionView::Ask { server: (server + 1) as usize },
                    )
                } else {
                    (
                        ListingView {
                            servers: self.servers,
                            phase: ListingPhase::Finished,
                            errors,
                        },
                        ListingActionView::Fail(all_nodes_failed(self.servers, errors)),
                    )
                }
            },
            _ => (self.at(ListingPhase::Finished), ListingActionView::Fail(out_of_turn())),
        }
    }
}

/// The databases that a listing describes, in a cluster of the given
/// servers. Fails with an `Other` error exactly when an address in the
/// listing cannot be parsed.
pub fn databases_from(listing: &Vec<DatabaseInfo>, servers: &Vec<Address>) -> (res: Result<
    Vec<Database>,
    Error,
>)
    ensures
        match res {
            Ok(databases) => is_listing_well_addressed(info_views(listing@)) && database_views(
                databases@,
            ) == databases_of(info_views(listing@), address_views(servers@)),
            Err(error) => !is_listing_well_addressed(info_views(listing@)) && error@ is Other,
        },
{
    let mut databases: Vec<Database> = Vec::new();
    let mut i: usize = 0;
    let ghost all = info_views(listing@);
    let ghost cluster = address_views(servers@);
    while i < listing.len()
        invariant
            i <= listing.len(),
            databases@.len() == i,
            all == info_views(listing@),
            cluster == address_views(servers@),
            forall|j: int| 0 <= j < i ==> is_well_addressed(#[trigger] all[j]),
            forall|j: int|
                0 <= j < i ==> (#[trigger] databases@[j])@ == databases_of(all, cluster)[j],
        decreases listing.len() - i,
    {
        match Database::new(&listing[i], clone_addresses(servers)) {
            Ok(database) => databases.push(database),
            Err(error) => {
                assert(!is_well_addressed(all[i as int]));
                return Err(error);
            },
        }
        i += 1;
    }
    assert(database_views(databases@) =~= databases_of(all, cluster));
    Ok(databases)
}

/// One listing of all databases of a cluster. It succeeds as soon as any
/// server answers with a listing, and fails when every server has refused.
pub struct Listing {
    servers: Vec<Address>,
    phase: ListingPhase,
    lines: Vec<String>,
    errors: Ghost<Seq<ErrorView>>,
}

impl View for Listing {
    type V = ListingView;

    closed spec fn view(&self) -> ListingView {
        ListingView {
            servers: address_views(self.servers@),
            phase: self.phase,
            errors: self.errors@,
        }
    }
}

impl Listing {
    /// The invariant of the representation: the lines kept are those of the
    /// errors reported.
    pub closed spec fn inv(&self) -> bool {
        &&& self@.wf()
        &&& self.errors@.len() <= self.servers@.len()
        &&& views(self.lines@) == diagnostic_lines(address_views(self.servers@), self.errors@)
    }

    /// Where the listing stands.
    pub fn phase(&self) -> (phase: ListingPhase)
        ensures
            phase == self@.phase,
    {
        self.phase
    }

    /// Begins the listing.
    pub fn start(&mut self) -> (action: ListingAction)
        requires
            old(self).inv(),
        ensures
            final(self).inv(),
            (final(self)@, action@) == old(self)@.on_start(),
    {
        match self.phase {
            ListingPhase::Idle => {},
            _ => {
                self.phase = ListingPhase::Finished;
                return ListingAction::Fail(
                    Error::InternalError(InternalError::UnexpectedResponseType),
                );
            },
        }
        if self.servers.len() == 0 {
            self.phase = ListingPhase::Finished;
            ListingAction::Fail(Error::ClusterAllNodesFailed(join(&self.lines, "\n")))
        } else {
            self.phase = ListingPhase::Asking { server: 0 };
            ListingAction::Ask { server: 0 }
        }
    }

    /// Takes the databases that the server of the last `Ask` reported. They
    /// are the result of the listing. If an address among them cannot be
    /// parsed the listing fails with an `Other` error.
    pub fn on_listed(&mut self, listing: &Vec<DatabaseInfo>) -> (action: ListingAction)
        requires
            old(self).inv(),
        ensures
            final(self).inv(),
            final(self)@ == old(self)@.on_listed(info_views(listing@)).0,
            match old(self)@.on_listed(info_views(listing@)).1 {
                Some(expected) => action@ == expected,
                None => action@ matches ListingActionView::Fail(error) && error is Other,
            },
    {
        match self.phase {
            ListingPhase::Asking { server } => {},
            _ => {
                self.phase = ListingPhase::Finished;
                return ListingAction::Fail(
                    Error::InternalError(InternalError::UnexpectedResponseType),
                );
            },
        }
        self.phase = ListingPhase::Finished;
        match databases_from(listing, &self.servers) {
            Ok(databases) => ListingAction::Done(databases),
            Err(error) => ListingAction::Fail(error),
        }
    }

    /// Takes the error of the server of the last `Ask`, whatever its kind.
    /// The next server is asked; when the last server has failed the listing
    /// fails with `ClusterAllNodesFailed`, which holds a line for each
    /// server.
    pub fn on_failed(&mut self, error: &Error) -> (action: ListingAction)
        requires
            old(self).inv(),
        ensures
            final(self).inv(),
            (final(self)@, action@) == old(self)@.on_failed(error@),
    {
        match self.phase {
            ListingPhase::Asking { server } => {
                let ghost before = self.errors@;
                let ghost cluster = address_views(self.servers@);
                assert(cluster.len() == self.servers@.len());
                assert(server < self.servers@.len());
                assert(views(self.lines@).len() == diagnostic_lines(cluster, before).len());
                assert(self.lines@.len() == before.len());
                let count = self.servers.len();
                let mut line = String::from_str("- ");
                let address = self.servers[server].to_string();
                line.append(address.as_str());
                line.append(": ");
                let message = error.message();
                line.append(message.as_str());
                self.lines.push(line);
                proof {
                    self.errors@ = self.errors@.push(error@);
                    assert(line@ =~= diagnostic_line(cluster[server as int], error@));
                    let kept = views(self.lines@);
                    let due = diagnostic_lines(cluster, self.errors@);
                    assert(kept.len() == due.len());
                    assert forall|j: int| 0 <= j < kept.len() implies kept[j] == due[j] by {
                        if j < server {
                            assert(kept[j] == views(old(self).lines@)[j]);
                            assert(due[j] == diagnostic_lines(cluster, before)[j]);
                        }
                    }
                    assert(kept =~= due);
                }
                if server + 1 < count {
                    self.phase = ListingPhase::Asking { server: server + 1 };
                    ListingAction::Ask { server: server + 1 }
                } else {
                    self.phase = ListingPhase::Finished;
                    ListingAction::Fail(Error::ClusterAllNodesFailed(join(&self.lines, "\n")))
                }
            },
            _ => {
                self.phase = ListingPhase::Finished;
                ListingAction::Fail(Error::InternalError(InternalError::UnexpectedResponseType))
            },
        }
    }
}

/// All-nodes-failed diagnostics. When every server of a cluster has refused
/// a listing, what the error says to the user holds the address of every
/// server and what each server's error says.
pub proof fn lemma_all_nodes_failed_names_every_node(
    servers: Seq<AddressView>,
    errors: Seq<ErrorView>,
    i: int,
)
    requires
        errors.len() == servers.len(),
        0 <= i < servers.len(),
    ensures
        all_nodes_failed(servers, errors) matches ErrorView::ClusterAllNodesFailed(diagnostics)
            && occurs_in(diagnostics, servers[i].canonical()) && occurs_in(
            diagnostics,
            error_message(errors[i]),
        ),
        occurs_in(error_message(all_nodes_failed(servers, errors)), servers[i].canonical()),
        occurs_in(error_message(all_nodes_failed(servers, errors)), error_message(errors[i])),
{
    let lines = diagnostic_lines(servers, errors);
    let diagnostics = joined(lines, "\n"@);
    let line = lines[i];
    let address = servers[i].canonical();
    let said = error_message(errors[i]);
    lemma_joined_holds_each_part(lines, "\n"@, i);
    assert(line == "- "@ + address + ": "@ + said);
    let a: int = "- "@.len() as int;
    assert(line.subrange(a, a + address.len()) =~= address);
    assert(occurs_at(line, address, a));
    let b: int = ("- "@.len() + address.len() + ": "@.len()) as int;
    assert(line.subrange(b, b + said.len()) =~= said);
    assert(occurs_at(line, said, b));
    lemma_occurs_in_is_transitive(diagnostics, line, address);
    lemma_occurs_in_is_transitive(diagnostics, line, said);
    let whole = error_message(all_nodes_failed(servers, errors));
    let head =
        "Attempted connecting to all cluster members, but the following errors occurred:\n"@;
    assert(whole == head + diagnostics);
    let c: int = head.len() as int;
    assert(whole.subrange(c, c + diagnostics.len()) =~= diagnostics);
    assert(occurs_at(whole, diagnostics, c));
    lemma_occurs_in_is_transitive(whole, diagnostics, address);
    lemma_occurs_in_is_transitive(whole, diagnostics, said);
}

/// The user's view of the databases of a cluster.
#[derive(Debug)]
pub struct DatabaseManager {
    servers: Vec<Address>,
}

impl View for DatabaseManager {
    type V = Seq<AddressView>;

    closed spec fn view(&self) -> Seq<AddressView> {
        address_views(self.servers@)
    }
}

impl DatabaseManager {
    /// The databases of the cluster of the given servers.
    pub fn new(servers: Vec<Address>) -> (manager: DatabaseManager)
        ensures
            manager@ == address_views(servers@),
    {
        DatabaseManager { servers }
    }

    /// The addresses of the cluster's servers.
    pub fn servers(&self) -> (servers: &Vec<Address>)
        ensures
            address_views(servers@) == self@,
    {
        &self.servers
    }

    /// The run that looks up the named database: it fetches the replicas
    /// from any server that answers.
    pub fn get(&self, name: &str) -> (run: Failover)
        ensures
            run@ == (FailoverView {
                strategy: Strategy::FetchReplicas,
                phase: Phase::Idle,
                database: DatabaseView { name: name@, replicas: Seq::empty(), servers: self@ },
            }),
            run@.wf(),
    {
        Failover::new(Strategy::FetchReplicas, Database::named(name, clone_addresses(&self.servers)))
    }

    /// The listing of all databases of the cluster, not yet started.
    pub fn all(&self) -> (listing: Listing)
        ensures
            listing.inv(),
            listing@ == (ListingView {
                servers: self@,
                phase: ListingPhase::Idle,
                errors: Seq::empty(),
            }),
    {
        let listing = Listing {
            servers: clone_addresses(&self.servers),
            phase: ListingPhase::Idle,
            lines: Vec::new(),
            errors: Ghost(Seq::empty()),
        };
        assert(views(listing.lines@) =~= diagnostic_lines(
            address_views(listing.servers@),
            listing.errors@,
        ));
        listing
    }
}

} // verus!
