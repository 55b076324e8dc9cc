//! A connection to a cluster: its servers, the sessions that are open on
//! each of them, and whether it has been closed.

use crate::address::{Address, AddressView};
use crate::database::{address_views, cluster_unable_to_connect, unable_to_connect};
use crate::error::{Error, ErrorView, InternalError};
use crate::id::ID;
use vstd::prelude::*;

verus! {

/// The values of a list of ids.
pub open spec fn id_views(ids: Seq<ID>) -> Seq<Seq<u8>> {
    Seq::new(ids.len(), |i: int| ids[i]@)
}

/// Whether the endpoint stands among the addresses, by its canonical text.
pub open spec fn holds_address(addresses: Seq<AddressView>, address: AddressView) -> bool {
    exists|j: int|
        0 <= j < addresses.len() && (#[trigger] addresses[j]).canonical() == address.canonical()
}

/// The addresses without repetitions: each endpoint where it stands first.
pub open spec fn distinct_addresses(addresses: Seq<AddressView>) -> Seq<AddressView>
    decreases addresses.len(),
{
    if addresses.len() == 0 {
        Seq::empty()
    } else {
        let earlier = distinct_addresses(addresses.drop_last());
        if holds_address(earlier, addresses.last()) {
            earlier
        } else {
            earlier.push(addresses.last())
        }
    }
}

/// Whether the endpoint stands among the addresses.
pub fn contains_address(addresses: &Vec<Address>, address: &Address) -> (found: bool)
    ensures
        found == holds_address(address_views(addresses@), address@),
{
    let ghost all = address_views(addresses@);
    let mut i: usize = 0;
    while i < addresses.len()
        invariant
            i <= addresses.len(),
            all == address_views(addresses@),
            forall|j: int| 0 <= j < i ==> (#[trigger] all[j]).canonical() != address@.canonical(),
        decreases addresses.len() - i,
    {
        if addresses[i].same_as(address) {
            assert(all[i as int].canonical() == address@.canonical());
            return true;
        }
        i += 1;
    }
    false
}

/// The addresses without repetitions: each endpoint where it stands first.
pub fn unique_addresses(addresses: &Vec<Address>) -> (unique: Vec<Address>)
    ensures
        address_views(unique@) == distinct_addresses(address_views(addresses@)),
{
    let ghost all = address_views(addresses@);
    let mut unique: Vec<Address> = Vec::new();
    let mut i: usize = 0;
    assert(all.subrange(0, 0) =~= Seq::<AddressView>::empty());
    assert(address_views(unique@) =~= Seq::<AddressView>::empty());
    while i < addresses.len()
        invariant
            i <= addresses.len(),
            all == address_views(addresses@),
            address_views(unique@) == distinct_addresses(all.subrange(0, i as int)),
        decreases addresses.len() - i,
    {
        let ghost before = address_views(unique@);
        assert(all.subrange(0, i + 1).drop_last() =~= all.subrange(0, i as int));
        assert(all.subrange(0, i + 1).last() == addresses@[i as int]@);
        if !contains_address(&unique, &addresses[i]) {
            unique.push(addresses[i].clone());
            assert(address_views(unique@) =~= before.push(addresses@[i as int]@));
        }
        i += 1;
    }
    assert(all.subrange(0, addresses.len() as int) =~= all);
    unique
}

/// The sessions that are open on one server.
#[derive(Debug)]
pub struct ServerConnection {
    address: Address,
    open_sessions: Vec<ID>,
}

/// The mathematical value of a [`ServerConnection`].
pub struct ServerConnectionView {
    pub address: AddressView,
    pub open_sessions: Seq<Seq<u8>>,
}

impl View for ServerConnection {
    type V = ServerConnectionView;

    closed spec fn view(&self) -> ServerConnectionView {
        ServerConnectionView {
            address: self.address@,
            open_sessions: id_views(self.open_sessions@),
        }
    }
}

impl ServerConnectionView {
    /// No session is registered twice.
    pub open spec fn wf(self) -> bool {
        forall|i: int, j: int|
            0 <= i < self.open_sessions.len() && 0 <= j < self.open_sessions.len() && i != j
                ==> #[trigger] self.open_sessions[i] != #[trigger] self.open_sessions[j]
    }

    /// The server with the session registered, once.
    pub open spec fn with_session(self, id: Seq<u8>) -> ServerConnectionView {
        if self.open_sessions.contains(id) {
            self
        } else {
            ServerConnectionView {
                address: self.address,
                open_sessions: self.open_sessions.push(id),
            }
        }
    }

    /// The server without the session.
    pub open spec fn without_session(self, id: Seq<u8>) -> ServerConnectionView {
        if self.open_sessions.contains(id) {
            ServerConnectionView {
                address: self.address,
                open_sessions: self.open_sessions.remove(self.open_sessions.index_of(id)),
            }
        } else {
            self
        }
    }

    /// The server without sessions.
    pub open spec fn without_sessions(self) -> ServerConnectionView {
        ServerConnectionView { address: self.address, open_sessions: Seq::empty() }
    }
}

impl ServerConnection {
    /// The connection to a server, with no session open.
    pub fn new(address: Address) -> (server: ServerConnection)
        ensures
            server@ == (ServerConnectionView { address: address@, open_sessions: Seq::empty() }),
            server@.wf(),
    {
        let server = ServerConnection { address, open_sessions: Vec::new() };
        assert(server@.open_sessions =~= Seq::empty());
        server
    }

    /// The server's address.
    pub fn address(&self) -> (address: &Address)
        ensures
            address@ == self@.address,
    {
        &self.address
    }

    /// How many sessions are open on the server.
    pub fn session_count(&self) -> (count: usize)
        ensures
            count == self@.open_sessions.len(),
    {
        self.open_sessions.len()
    }

    /// The sessions that are open on the server, in the order in which they
    /// were opened.
    pub fn sessions(&self) -> (sessions: Vec<ID>)
        ensures
            id_views(sessions@) == self@.open_sessions,
    {
        let mut sessions: Vec<ID> = Vec::new();
        let mut i: usize = 0;
        while i < self.open_sessions.len()
            invariant
                i <= self.open_sessions.len(),
                sessions@.len() == i,
                forall|j: int| 0 <= j < i ==> (#[trigger] sessions@[j])@ == self.open_sessions@[j]@,
            decreases self.open_sessions.len() - i,
        {
            sessions.push(self.open_sessions[i].clone());
            i += 1;
        }
        assert(id_views(sessions@) =~= id_views(self.open_sessions@));
        sessions
    }

    fn find_session(&self, id: &ID) -> (found: Option<usize>)
        ensures
            match found {
                Some(i) => i < self@.open_sessions.len() && self@.open_sessions[i as int] == id@,
                None => !self@.open_sessions.contains(id@),
            },
    {
        let ghost all = id_views(self.open_sessions@);
        let mut i: usize = 0;
        while i < self.open_sessions.len()
            invariant
                i <= self.open_sessions.len(),
                all == id_views(self.open_sessions@),
                forall|j: int| 0 <= j < i ==> all[j] != id@,
            decreases self.open_sessions.len() - i,
        {
            if self.open_sessions[i].same_as(id) {
                return Some(i);
            }
            i += 1;
        }
        None
    }

    /// Whether the session is open on the server.
    pub fn has_session(&self, id: &ID) -> (open: bool)
        ensures
            open == self@.open_sessions.contains(id@),
    {
        match self.find_session(id) {
            Some(i) => {
                assert(self@.open_sessions[i as int] == id@);
                true
            },
            None => false,
        }
    }

    /// Registers a session that the server has opened. Returns whether the
    /// session is new to the registry.
    pub fn register_session(&mut self, id: ID) -> (fresh: bool)
        requires
            old(self)@.wf(),
        ensures
            fresh == !old(self)@.open_sessions.contains(id@),
            final(self)@ == old(self)@.with_session(id@),
            final(self)@.wf(),
    {
        if self.has_session(&id) {
            false
        } else {
            let ghost before = id_views(self.open_sessions@);
            self.open_sessions.push(id);
            proof {
                let after = id_views(self.open_sessions@);
                assert(after =~= before.push(id@));
                assert forall|i: int, j: int|
                    0 <= i < after.len() && 0 <= j < after.len() && i != j implies #[trigger] after[i]
                    != #[trigger] after[j] by {
                    if i < before.len() {
                        assert(after[i] == before[i]);
                        assert(before.contains(before[i]));
                    }
                    if j < before.len() {
                        assert(after[j] == before[j]);
                        assert(before.contains(before[j]));
                    }
                }
            }
            true
        }
    }

    /// Takes a session out of the registry. Returns whether it was there: if
    /// it was, its pulse has to be cancelled.
    pub fn unregister_session(&mut self, id: &ID) -> (was_open: bool)
        requires
            old(self)@.wf(),
        ensures
            was_open == old(self)@.open_sessions.contains(id@),
            final(self)@ == old(self)@.without_session(id@),
            final(self)@.wf(),
            !final(self)@.open_sessions.contains(id@),
    {
        match self.find_session(id) {
            Some(i) => {
                let ghost before = id_views(self.open_sessions@);
                proof {
                    assert(before[i as int] == id@);
                    assert(before.contains(id@));
                    let k = before.index_of(id@);
                    assert(before[k] == id@);
                    assert(k == i);
                }
                self.open_sessions.remove(i);
                proof {
                    let after = id_views(self.open_sessions@);
                    assert(after =~= before.remove(i as int));
                    assert forall|a: int, b: int|
                        0 <= a < after.len() && 0 <= b < after.len() && a != b implies #[trigger] after[a]
                        != #[trigger] after[b] by {
                        let oa = if a < i {
                            a
                        } else {
                            a + 1
                        };
                        let ob = if b < i {
                            b
                        } else {
                            b + 1
                        };
                        assert(after[a] == before[oa]);
                        assert(after[b] == before[ob]);
                    }
                    if after.contains(id@) {
                        let a = after.index_of(id@);
                        let oa = if a < i {
                            a
                        } else {
                            a + 1
                        };
                        assert(after[a] == before[oa]);
                    }
                }
                true
            },
            None => false,
        }
    }

    /// Takes every session out of the registry and hands them back, in the
    /// order in which they were opened: each of them has to be closed.
    pub fn force_close(&mut self) -> (sessions: Vec<ID>)
        ensures
            id_views(sessions@) == old(self)@.open_sessions,
            final(self)@ == old(self)@.without_sessions(),
            final(self)@.wf(),
    {
        let mut sessions: Vec<ID> = Vec::new();
        sessions.append(&mut self.open_sessions);
        assert(id_views(sessions@) =~= old(self)@.open_sessions);
        assert(id_views(self.open_sessions@) =~= Seq::<Seq<u8>>::empty());
        sessions
    }
}

/// The values of a list of server connections.
pub open spec fn server_views(servers: Seq<ServerConnection>) -> Seq<ServerConnectionView> {
    Seq::new(servers.len(), |i: int| servers[i]@)
}

/// The addresses of a list of servers.
pub open spec fn addresses_of(servers: Seq<ServerConnectionView>) -> Seq<AddressView> {
    Seq::new(servers.len(), |i: int| servers[i].address)
}

/// The mathematical value of a [`Connection`].
pub struct ConnectionView {
    pub servers: Seq<ServerConnectionView>,
    pub is_open: bool,
}

/// What is to be done about a session that is being closed.
#[derive(Debug)]
pub struct SessionClosure {
    /// The session was registered: its pulse has to be cancelled.
    pub cancel_pulse: bool,
    /// Whether the close request can be sent: it cannot when the connection
    /// is closed.
    pub request: Result<(), Error>,
}

impl ConnectionView {
    /// The invariant of a connection: no server registers a session twice.
    pub open spec fn wf(self) -> bool {
        forall|i: int| 0 <= i < self.servers.len() ==> (#[trigger] self.servers[i]).wf()
    }

    /// Why a request cannot be sent, if it cannot: the connection is closed.
    pub open spec fn refusal(self) -> Option<ErrorView> {
        if self.is_open {
            None
        } else {
            Some(ErrorView::ClientIsClosed)
        }
    }

    /// The connection with one server replaced.
    pub open spec fn with_server(self, at: int, server: ServerConnectionView) -> ConnectionView {
        ConnectionView { servers: self.servers.update(at, server), is_open: self.is_open }
    }

    /// The sessions that a forced close closes: for each server those that
    /// are open on it.
    pub open spec fn open_sessions(self) -> Seq<Seq<Seq<u8>>> {
        Seq::new(self.servers.len(), |i: int| self.servers[i].open_sessions)
    }

    /// The connection after a forced close: closed, and without sessions.
    pub open spec fn force_closed(self) -> ConnectionView {
        ConnectionView {
            servers: Seq::new(self.servers.len(), |i: int| self.servers[i].without_sessions()),
            is_open: false,
        }
    }
}

/// Idempotent close. A forced close of a connection that has been
/// force-closed finds no session to close and changes nothing, and from the
/// first forced close on every request is refused with `ClientIsClosed`.
pub proof fn lemma_force_close_is_idempotent(connection: ConnectionView)
    ensures
        connection.force_closed().force_closed() == connection.force_closed(),
        connection.force_closed().wf(),
        connection.force_closed().refusal() == Some(ErrorView::ClientIsClosed),
        connection.force_closed().open_sessions().len() == connection.servers.len(),
        forall|i: int|
            0 <= i < connection.servers.len() ==> (#[trigger] connection.force_closed().open_sessions()[i]).len()
                == 0,
{
    let once = connection.force_closed();
    assert(once.force_closed().servers =~= once.servers);
}

/// A connection to a cluster, or to a single server.
#[derive(Debug)]
pub struct Connection {
    servers: Vec<ServerConnection>,
    is_open: bool,
}

impl View for Connection {
    type V = ConnectionView;

    closed spec fn view(&self) -> ConnectionView {
        ConnectionView { servers: server_views(self.servers@), is_open: self.is_open }
    }
}

impl Connection {
    /// An open connection to the servers at the given addresses, each taken
    /// once, with no session open.
    pub fn new_encrypted(addresses: &Vec<Address>) -> (connection: Connection)
        ensures
            connection@.is_open,
            connection@.wf(),
            addresses_of(connection@.servers) == distinct_addresses(address_views(addresses@)),
            forall|i: int|
                0 <= i < connection@.servers.len() ==> (#[trigger] connection@.servers[i]).open_sessions.len()
                    == 0,
    {
        let unique = unique_addresses(addresses);
        let mut servers: Vec<ServerConnection> = Vec::new();
        let mut i: usize = 0;
        while i < unique.len()
            invariant
                i <= unique.len(),
                servers@.len() == i,
                forall|j: int|
                    0 <= j < i ==> (#[trigger] servers@[j])@ == (ServerConnectionView {
                        address: unique@[j]@,
                        open_sessions: Seq::empty(),
                    }),
            decreases unique.len() - i,
        {
            servers.push(ServerConnection::new(unique[i].clone()));
            i += 1;
        }
        let connection = Connection { servers, is_open: true };
        assert(addresses_of(connection@.servers) =~= address_views(unique@));
        connection
    }

    /// An open connection to the single server at the given address. Fails
    /// with an `Other` error exactly when the address cannot be parsed.
    pub fn new_plaintext(address: &str) -> (res: Result<Connection, Error>)
        ensures
            match res {
                Ok(connection) => crate::address::parse_address(address@) matches Some(parsed)
                    && connection@ == (ConnectionView {
                    servers: seq![
                        ServerConnectionView { address: parsed, open_sessions: Seq::empty() },
                    ],
                    is_open: true,
                }) && connection@.wf(),
                Err(error) => crate::address::parse_address(address@) is None && error@ is Other,
            },
    {
        match Address::parse(address) {
            Ok(parsed) => {
                let mut servers: Vec<ServerConnection> = Vec::new();
                servers.push(ServerConnection::new(parsed));
                let connection = Connection { servers, is_open: true };
                assert(connection@.servers =~= seq![
                    ServerConnectionView { address: parsed@, open_sessions: Seq::empty() },
                ]);
                Ok(connection)
            },
            Err(error) => Err(error),
        }
    }

    /// Whether the connection has not been closed.
    pub fn is_open(&self) -> (open: bool)
        ensures
            open == self@.is_open,
    {
        self.is_open
    }

    /// How many servers the connection holds.
    pub fn server_count(&self) -> (count: usize)
        ensures
            count == self@.servers.len(),
    {
        self.servers.len()
    }

    /// The addresses of the servers.
    pub fn addresses(&self) -> (addresses: Vec<Address>)
        ensures
            address_views(addresses@) == addresses_of(self@.servers),
    {
        let mut addresses: Vec<Address> = Vec::new();
        let mut i: usize = 0;
        while i < self.servers.len()
            invariant
                i <= self.servers.len(),
                addresses@.len() == i,
                forall|j: int| 0 <= j < i ==> (#[trigger] addresses@[j])@ == self.servers@[j]@.address,
            decreases self.servers.len() - i,
        {
            addresses.push(self.servers[i].address().clone());
            i += 1;
        }
        assert(address_views(addresses@) =~= addresses_of(self@.servers));
        addresses
    }

    /// The index of the server at the given address.
    pub fn get_server_connection(&self, address: &Address) -> (found: Option<usize>)
        ensures
            match found {
                Some(i) => i < self@.servers.len() && self@.servers[i as int].address.canonical()
                    == address@.canonical(),
                None => !holds_address(addresses_of(self@.servers), address@),
            },
    {
        let ghost all = addresses_of(self@.servers);
        let mut i: usize = 0;
        while i < self.servers.len()
            invariant
                i <= self.servers.len(),
                all == addresses_of(self@.servers),
                forall|j: int| 0 <= j < i ==> (#[trigger] all[j]).canonical() != address@.canonical(),
            decreases self.servers.len() - i,
        {
            if self.servers[i].address().same_as(address) {
                return Some(i);
            }
            i += 1;
        }
        None
    }

    /// The server at an index.
    pub fn server(&self, index: usize) -> (server: Option<&ServerConnection>)
        ensures
            match server {
                Some(server) => index < self@.servers.len() && server@ == self@.servers[index as int],
                None => index >= self@.servers.len(),
            },
    {
        if index < self.servers.len() {
            Some(&self.servers[index])
        } else {
            None
        }
    }

    /// The error that says that none of the servers could be reached.
    pub fn unable_to_connect(&self) -> (error: Error)
        ensures
            error@ == unable_to_connect(addresses_of(self@.servers)),
    {
        let addresses = self.addresses();
        cluster_unable_to_connect(&addresses)
    }

    /// Whether a request can be sent: `ClientIsClosed` once the connection
    /// has been closed.
    pub fn check_open(&self) -> (res: Result<(), Error>)
        ensures
            match res {
                Ok(_) => self@.refusal() is None,
                Err(error) => self@.refusal() == Some(error@),
            },
    {
        if self.is_open {
            Ok(())
        } else {
            Err(Error::ClientIsClosed)
        }
    }

    /// Registers the session that server `server` has opened. Refused with
    /// `ClientIsClosed` when the connection is closed, and with an internal
    /// error when there is no such server; the connection is then as it was.
    pub fn open_session(&mut self, server: usize, id: ID) -> (res: Result<(), Error>)
        requires
            old(self)@.wf(),
        ensures
            final(self)@.wf(),
            match res {
                Ok(_) => old(self)@.is_open && server < old(self)@.servers.len() && final(self)@
                    == old(self)@.with_server(
                    server as int,
                    old(self)@.servers[server as int].with_session(id@),
                ),
                Err(error) => final(self)@ == old(self)@ && if !old(self)@.is_open {
                    error@ == ErrorView::ClientIsClosed
                } else {
                    server >= old(self)@.servers.len() && error@ == ErrorView::InternalError(
                        InternalError::UnknownServer,
                    )
                },
            },
    {
        if !self.is_open {
            return Err(Error::ClientIsClosed);
        }
        if server >= self.servers.len() {
            return Err(Error::InternalError(InternalError::UnknownServer));
        }
        let ghost before = server_views(self.servers@);
        let mut entry = self.servers.remove(server);
        entry.register_session(id);
        self.servers.insert(server, entry);
        proof {
            let after = server_views(self.servers@);
            assert(after =~= before.update(server as int, before[server as int].with_session(id@)));
        }
        Ok(())
    }

    /// Closes a session on server `server`: the session leaves the
    /// registry, and the result says whether its pulse has to be cancelled
    /// and whether the close request can be sent. On a closed connection
    /// the request is refused with `ClientIsClosed`.
    pub fn close_session(&mut self, server: usize, id: &ID) -> (closure: SessionClosure)
        requires
            old(self)@.wf(),
        ensures
            final(self)@.wf(),
            if server < old(self)@.servers.len() {
                &&& final(self)@ == old(self)@.with_server(
                    server as int,
                    old(self)@.servers[server as int].without_session(id@),
                )
                &&& closure.cancel_pulse == old(self)@.servers[server as int].open_sessions.contains(
                    id@,
                )
                &&& match closure.request {
                    Ok(_) => old(self)@.is_open,
                    Err(error) => !old(self)@.is_open && error@ == ErrorView::ClientIsClosed,
                }
            } else {
                &&& final(self)@ == old(self)@
                &&& !closure.cancel_pulse
                &&& closure.request matches Err(error) && error@ == ErrorView::InternalError(
                    InternalError::UnknownServer,
                )
            },
    {
        if server >= self.servers.len() {
            return SessionClosure {
                cancel_pulse: false,
                request: Err(Error::InternalError(InternalError::UnknownServer)),
            };
        }
        let ghost before = server_views(self.servers@);
        let mut entry = self.servers.remove(server);
        let cancel_pulse = entry.unregister_session(id);
        self.servers.insert(server, entry);
        proof {
            let after = server_views(self.servers@);
            assert(after =~= before.update(
                server as int,
                before[server as int].without_session(id@),
            ));
        }
        let request = if self.is_open {
            Ok(())
        } else {
            Err(Error::ClientIsClosed)
        };
        SessionClosure { cancel_pulse, request }
    }

    /// Closes the connection by force. Every session on every server leaves
    /// the registry; the result holds, for each server, the sessions that
    /// have to be closed and whose pulses have to be cancelled. From now on
    /// every request is refused with `ClientIsClosed`.
    pub fn force_close(&mut self) -> (sessions: Vec<Vec<ID>>)
        ensures
            final(self)@ == old(self)@.force_closed(),
            final(self)@.wf(),
            sessions@.len() == old(self)@.servers.len(),
            forall|i: int|
                0 <= i < sessions@.len() ==> id_views((#[trigger] sessions@[i])@) == old(
                    self,
                )@.open_sessions()[i],
    {
        let ghost before = server_views(self.servers@);
        let mut sessions: Vec<Vec<ID>> = Vec::new();
        let mut closed: Vec<ServerConnection> = Vec::new();
        let mut remaining: Vec<ServerConnection> = Vec::new();
        remaining.append(&mut self.servers);
        assert(server_views(remaining@) =~= before);
        let mut i: usize = 0;
        let count = remaining.len();
        while i < count
            invariant
                i <= count,
                count == before.len(),
                remaining@.len() == count - i,
                sessions@.len() == i,
                closed@.len() == i,
                forall|j: int| 0 <= j < count - i ==> (#[trigger] remaining@[j])@ == before[i + j],
                forall|j: int|
                    0 <= j < i ==> (#[trigger] closed@[j])@ == before[j].without_sessions(),
                forall|j: int|
                    0 <= j < i ==> id_views((#[trigger] sessions@[j])@) == before[j].open_sessions,
            decreases count - i,
        {
            let ghost rest = remaining@;
            let mut entry = remaining.remove(0);
            assert forall|j: int| 0 <= j < count - i - 1 implies (#[trigger] remaining@[j])@
                == before[i + 1 + j] by {
                assert(remaining@[j] == rest[j + 1]);
            }
            sessions.push(entry.force_close());
            closed.push(entry);
            i += 1;
        }
        self.servers = closed;
        self.is_open = false;
        assert(self@.servers =~= old(self)@.force_closed().servers);
        sessions
    }
}

} // verus!
