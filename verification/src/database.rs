//! Databases and their replicas, as the servers report them.

use crate::address::{parse_address, Address, AddressView};
use crate::error::{Error, ErrorView};
use crate::text::{join, joined, views};
use vstd::prelude::*;
use vstd::string::*;

verus! {

/// What a server reports of one replica of a database.
#[derive(Debug)]
pub struct ReplicaInfo {
    pub address: String,
    pub primary: bool,
    pub preferred: bool,
    pub term: i64,
}

/// What a server reports of a database: its name and its replicas, in the
/// server's order.
#[derive(Debug)]
pub struct DatabaseInfo {
    pub name: String,
    pub replicas: Vec<ReplicaInfo>,
}

/// The mathematical value of a [`ReplicaInfo`].
pub struct ReplicaInfoView {
    pub address: Seq<char>,
    pub primary: bool,
    pub preferred: bool,
    pub term: i64,
}

/// The mathematical value of a [`DatabaseInfo`].
pub struct DatabaseInfoView {
    pub name: Seq<char>,
    pub replicas: Seq<ReplicaInfoView>,
}

impl View for ReplicaInfo {
    type V = ReplicaInfoView;

    open spec fn view(&self) -> ReplicaInfoView {
        ReplicaInfoView {
            address: self.address@,
            primary: self.primary,
            preferred: self.preferred,
            term: self.term,
        }
    }
}

impl View for DatabaseInfo {
    type V = DatabaseInfoView;

    open spec fn view(&self) -> DatabaseInfoView {
        DatabaseInfoView {
            name: self.name@,
            replicas: Seq::new(self.replicas@.len(), |i: int| self.replicas@[i]@),
        }
    }
}

/// The mathematical value of a [`Replica`].
pub struct ReplicaView {
    pub address: AddressView,
    pub database_name: Seq<char>,
    pub is_primary: bool,
    pub term: i64,
    pub is_preferred: bool,
}

/// The replica that a report describes, where its address can be parsed.
pub open spec fn replica_of(name: Seq<char>, info: ReplicaInfoView) -> Option<ReplicaView> {
    match parse_address(info.address) {
        Some(address) => Some(
            ReplicaView {
                address,
                database_name: name,
                is_primary: info.primary,
                term: info.term,
                is_preferred: info.preferred,
            },
        ),
        None => None,
    }
}

/// Whether every replica of a report has an address that can be parsed.
pub open spec fn is_well_addressed(info: DatabaseInfoView) -> bool {
    forall|i: int|
        0 <= i < info.replicas.len() ==> (#[trigger] replica_of(info.name, info.replicas[i])) is Some
}

/// The replicas that a report describes, in its order.
pub open spec fn replicas_of(info: DatabaseInfoView) -> Seq<ReplicaView> {
    Seq::new(info.replicas.len(), |i: int| replica_of(info.name, info.replicas[i]).unwrap())
}

/// The choice among the first `n` replicas: of the primaries the one of the
/// highest term, and of several with that term the last.
pub open spec fn primary_upto(replicas: Seq<ReplicaView>, n: int) -> Option<int>
    decreases n,
{
    if n <= 0 {
        None
    } else {
        let earlier = primary_upto(replicas, n - 1);
        let candidate = replicas[n - 1];
        if candidate.is_primary && (earlier is None || replicas[earlier.unwrap()].term
            <= candidate.term) {
            Some(n - 1)
        } else {
            earlier
        }
    }
}

/// The index of the current primary: of the replicas marked primary the one
/// of the highest term, and of several with that term the last.
pub open spec fn primary_index(replicas: Seq<ReplicaView>) -> Option<int> {
    primary_upto(replicas, replicas.len() as int)
}

/// What singles out the current primary at index `i`.
pub open spec fn is_primary_choice(replicas: Seq<ReplicaView>, i: int) -> bool {
    &&& 0 <= i < replicas.len()
    &&& replicas[i].is_primary
    &&& forall|j: int|
        0 <= j < replicas.len() && (#[trigger] replicas[j]).is_primary ==> replicas[j].term
            <= replicas[i].term
    &&& forall|j: int|
        i < j < replicas.len() && (#[trigger] replicas[j]).is_primary ==> replicas[j].term
            < replicas[i].term
}

/// The current primary is a primary of the highest term, the last of those;
/// there is none exactly when no replica is marked primary.
pub proof fn lemma_primary_index(replicas: Seq<ReplicaView>)
    ensures
        match primary_index(replicas) {
            Some(i) => is_primary_choice(replicas, i),
            None => forall|j: int| 0 <= j < replicas.len() ==> !(#[trigger] replicas[j]).is_primary,
        },
{
    lemma_primary_upto(replicas, replicas.len() as int);
    assert(replicas.subrange(0, replicas.len() as int) =~= replicas);
}

proof fn lemma_primary_upto(replicas: Seq<ReplicaView>, n: int)
    requires
        0 <= n <= replicas.len(),
    ensures
        match primary_upto(replicas, n) {
            Some(i) => is_primary_choice(replicas.subrange(0, n), i),
            None => forall|j: int| 0 <= j < n ==> !(#[trigger] replicas[j]).is_primary,
        },
    decreases n,
{
    if n > 0 {
        lemma_primary_upto(replicas, n - 1);
        let earlier = primary_upto(replicas, n - 1);
        let shorter = replicas.subrange(0, n - 1);
        let longer = replicas.subrange(0, n);
        assert forall|j: int| 0 <= j < n - 1 implies shorter[j] == longer[j] by {}
        match primary_upto(replicas, n) {
            Some(i) => {
                assert(longer[i] == replicas[i]);
                assert forall|j: int|
                    0 <= j < longer.len() && (#[trigger] longer[j]).is_primary implies longer[j].term
                    <= longer[i].term by {
                    if j < n - 1 {
                        assert(shorter[j].is_primary);
                    }
                }
                assert forall|j: int|
                    i < j < longer.len() && (#[trigger] longer[j]).is_primary implies longer[j].term
                    < longer[i].term by {
                    if j < n - 1 {
                        assert(shorter[j].is_primary);
                    }
                }
            },
            None => {},
        }
    }
}

/// One server-side copy of a database.
#[derive(Debug)]
pub struct Replica {
    address: Address,
    database_name: String,
    is_primary: bool,
    term: i64,
    is_preferred: bool,
}

impl View for Replica {
    type V = ReplicaView;

    closed spec fn view(&self) -> ReplicaView {
        ReplicaView {
            address: self.address@,
            database_name: self.database_name@,
            is_primary: self.is_primary,
            term: self.term,
            is_preferred: self.is_preferred,
        }
    }
}

impl Clone for Replica {
    fn clone(&self) -> (res: Self)
        ensures
            res@ == self@,
    {
        Replica {
            address: self.address.clone(),
            database_name: self.database_name.clone(),
            is_primary: self.is_primary,
            term: self.term,
            is_preferred: self.is_preferred,
        }
    }
}

/// The values of a list of replicas.
pub open spec fn replica_views(replicas: Seq<Replica>) -> Seq<ReplicaView> {
    Seq::new(replicas.len(), |i: int| replicas[i]@)
}

impl Replica {
    /// The replica of the named database that a server's report describes.
    /// Fails with an `Other` error exactly when the reported address cannot
    /// be parsed.
    pub fn new(name: &str, metadata: &ReplicaInfo) -> (res: Result<Replica, Error>)
        ensures
            match res {
                Ok(replica) => replica_of(name@, metadata@) == Some(replica@),
                Err(error) => replica_of(name@, metadata@) is None && error@ is Other,
            },
    {
        match Address::parse(metadata.address.as_str()) {
            Ok(address) => Ok(
                Replica {
                    address,
                    database_name: name.to_owned(),
                    is_primary: metadata.primary,
                    term: metadata.term,
                    is_preferred: metadata.preferred,
                },
            ),
            Err(error) => Err(error),
        }
    }

    /// The replicas that a server's report describes, in its order. Fails
    /// with an `Other` error exactly when one of the addresses cannot be
    /// parsed.
    pub fn from_proto(proto: &DatabaseInfo) -> (res: Result<Vec<Replica>, Error>)
        ensures
            match res {
                Ok(replicas) => is_well_addressed(proto@) && replica_views(replicas@)
                    == replicas_of(proto@),
                Err(error) => !is_well_addressed(proto@) && error@ is Other,
            },
    {
        let mut replicas: Vec<Replica> = Vec::new();
        let mut i: usize = 0;
        while i < proto.replicas.len()
            invariant
                i <= proto.replicas.len(),
                replicas@.len() == i,
                forall|j: int|
                    0 <= j < i ==> (#[trigger] replica_of(proto@.name, proto@.replicas[j])) == Some(
                        replicas@[j]@,
                    ),
            decreases proto.replicas.len() - i,
        {
            match Replica::new(proto.name.as_str(), &proto.replicas[i]) {
                Ok(replica) => replicas.push(replica),
                Err(error) => {
                    assert(replica_of(proto@.name, proto@.replicas[i as int]) is None);
                    return Err(error);
                },
            }
            i += 1;
        }
        assert(replica_views(replicas@) =~= replicas_of(proto@));
        Ok(replicas)
    }

    /// Where the replica is served.
    pub fn address(&self) -> (address: &Address)
        ensures
            address@ == self@.address,
    {
        &self.address
    }

    /// The name of the database that this is a replica of.
    pub fn database_name(&self) -> (name: &str)
        ensures
            name@ == self@.database_name,
    {
        self.database_name.as_str()
    }

    /// Whether the replica is marked primary.
    pub fn is_primary(&self) -> (primary: bool)
        ensures
            primary == self@.is_primary,
    {
        self.is_primary
    }

    /// The term of the election that the replica's role comes from.
    pub fn term(&self) -> (term: i64)
        ensures
            term == self@.term,
    {
        self.term
    }

    /// Whether the replica is the preferred one.
    pub fn is_preferred(&self) -> (preferred: bool)
        ensures
            preferred == self@.is_preferred,
    {
        self.is_preferred
    }
}

/// The index of the current primary among the replicas.
pub fn find_primary(replicas: &Vec<Replica>) -> (found: Option<usize>)
    ensures
        match found {
            Some(i) => primary_index(replica_views(replicas@)) == Some(i as int),
            None => primary_index(replica_views(replicas@)) is None,
        },
{
    let ghost all = replica_views(replicas@);
    let mut found: Option<usize> = None;
    let mut i: usize = 0;
    while i < replicas.len()
        invariant
            i <= replicas.len(),
            all == replica_views(replicas@),
            match found {
                Some(k) => k < i && primary_upto(all, i as int) == Some(k as int),
                None => primary_upto(all, i as int) is None,
            },
        decreases replicas.len() - i,
    {
        let candidate = &replicas[i];
        let takes = candidate.is_primary && match found {
            Some(k) => replicas[k].term <= candidate.term,
            None => true,
        };
        if takes {
            found = Some(i);
        }
        i += 1;
    }
    found
}

/// The values of a list of addresses.
pub open spec fn address_views(addresses: Seq<Address>) -> Seq<AddressView> {
    Seq::new(addresses.len(), |i: int| addresses[i]@)
}

/// The canonical texts of a list of addresses.
pub open spec fn canonical_texts(addresses: Seq<AddressView>) -> Seq<Seq<char>> {
    Seq::new(addresses.len(), |i: int| addresses[i].canonical())
}

/// The error that says that none of the servers could be reached: it lists
/// their addresses, separated by commas.
pub open spec fn unable_to_connect(servers: Seq<AddressView>) -> ErrorView {
    ErrorView::ClusterUnableToConnect(joined(canonical_texts(servers), ","@))
}

/// A copy of a list of addresses.
pub fn clone_addresses(addresses: &Vec<Address>) -> (copy: Vec<Address>)
    ensures
        address_views(copy@) == address_views(addresses@),
{
    let mut copy: Vec<Address> = Vec::new();
    let mut i: usize = 0;
    while i < addresses.len()
        invariant
            i <= addresses.len(),
            copy@.len() == i,
            forall|j: int| 0 <= j < i ==> copy@[j]@ == addresses@[j]@,
        decreases addresses.len() - i,
    {
        copy.push(addresses[i].clone());
        i += 1;
    }
    assert(address_views(copy@) =~= address_views(addresses@));
    copy
}

/// The error that says that none of the servers could be reached.
pub fn cluster_unable_to_connect(servers: &Vec<Address>) -> (error: Error)
    ensures
        error@ == unable_to_connect(address_views(servers@)),
{
    let mut texts: Vec<String> = Vec::new();
    let mut i: usize = 0;
    while i < servers.len()
        invariant
            i <= servers.len(),
            texts@.len() == i,
            forall|j: int| 0 <= j < i ==> texts@[j]@ == servers@[j]@.canonical(),
        decreases servers.len() - i,
    {
        texts.push(servers[i].to_string());
        i += 1;
    }
    assert(views(texts@) =~= canonical_texts(address_views(servers@)));
    Error::ClusterUnableToConnect(join(&texts, ","))
}

/// A database of the cluster: its name, a snapshot of its replicas, and the
/// addresses of the cluster's servers.
#[derive(Debug)]
pub struct Database {
    name: String,
    replicas: Vec<Replica>,
    servers: Vec<Address>,
}

/// The mathematical value of a [`Database`].
pub struct DatabaseView {
    pub name: Seq<char>,
    pub replicas: Seq<ReplicaView>,
    pub servers: Seq<AddressView>,
}

impl View for Database {
    type V = DatabaseView;

    closed spec fn view(&self) -> DatabaseView {
        DatabaseView {
            name: self.name@,
            replicas: replica_views(self.replicas@),
            servers: address_views(self.servers@),
        }
    }
}

/// A copy of a list of replicas.
pub fn clone_replicas(replicas: &Vec<Replica>) -> (copy: Vec<Replica>)
    ensures
        replica_views(copy@) == replica_views(replicas@),
{
    let mut copy: Vec<Replica> = Vec::new();
    let mut i: usize = 0;
    while i < replicas.len()
        invariant
            i <= replicas.len(),
            copy@.len() == i,
            forall|j: int| 0 <= j < i ==> copy@[j]@ == replicas@[j]@,
        decreases replicas.len() - i,
    {
        copy.push(replicas[i].clone());
        i += 1;
    }
    assert(replica_views(copy@) =~= replica_views(replicas@));
    copy
}

impl Clone for Database {
    fn clone(&self) -> (res: Self)
        ensures
            res@ == self@,
    {
        Database {
            name: self.name.clone(),
            replicas: clone_replicas(&self.replicas),
            servers: clone_addresses(&self.servers),
        }
    }
}

impl Database {
    /// The database that a server's report describes, in a cluster of the
    /// given servers. Fails with an `Other` error exactly when one of the
    /// reported addresses cannot be parsed.
    pub fn new(proto: &DatabaseInfo, servers: Vec<Address>) -> (res: Result<Database, Error>)
        ensures
            match res {
                Ok(database) => is_well_addressed(proto@) && database@ == (DatabaseView {
                    name: proto@.name,
                    replicas: replicas_of(proto@),
                    servers: address_views(servers@),
                }),
                Err(error) => !is_well_addressed(proto@) && error@ is Other,
            },
    {
        match Replica::from_proto(proto) {
            Ok(replicas) => Ok(Database { name: proto.name.clone(), replicas, servers }),
            Err(error) => Err(error),
        }
    }

    /// A database of which only the name is known yet, in a cluster of the
    /// given servers.
    pub fn named(name: &str, servers: Vec<Address>) -> (database: Database)
        ensures
            database@ == (DatabaseView {
                name: name@,
                replicas: Seq::empty(),
                servers: address_views(servers@),
            }),
    {
        let database = Database { name: name.to_owned(), replicas: Vec::new(), servers };
        assert(database@.replicas =~= Seq::empty());
        database
    }

    /// The addresses of the cluster's servers.
    pub fn servers(&self) -> (servers: &Vec<Address>)
        ensures
            address_views(servers@) == self@.servers,
    {
        &self.servers
    }

    /// The error that says that none of the cluster's servers could be
    /// reached: it lists their addresses, separated by commas.
    pub fn cluster_unable_to_connect(&self) -> (error: Error)
        ensures
            error@ == unable_to_connect(self@.servers),
    {
        cluster_unable_to_connect(&self.servers)
    }

    /// The name of the database.
    pub fn name(&self) -> (name: &str)
        ensures
            name@ == self@.name,
    {
        self.name.as_str()
    }

    /// The replicas of the snapshot, in the server's order.
    pub fn replicas(&self) -> (replicas: &Vec<Replica>)
        ensures
            replica_views(replicas@) == self@.replicas,
    {
        &self.replicas
    }

    /// Replaces the snapshot of the replicas by a newer one.
    pub fn set_replicas(&mut self, replicas: Vec<Replica>)
        ensures
            final(self)@ == (DatabaseView {
                name: old(self)@.name,
                replicas: replica_views(replicas@),
                servers: old(self)@.servers,
            }),
    {
        self.replicas = replicas;
    }

    /// The index of the current primary in the snapshot.
    pub fn primary_replica_index(&self) -> (found: Option<usize>)
        ensures
            match found {
                Some(i) => primary_index(self@.replicas) == Some(i as int),
                None => primary_index(self@.replicas) is None,
            },
    {
        find_primary(&self.replicas)
    }

    /// The current primary: of the replicas marked primary the one of the
    /// highest term, and of several with that term the last. `None` exactly
    /// when no replica is marked primary.
    pub fn primary_replica(&self) -> (found: Option<Replica>)
        ensures
            match found {
                Some(replica) => primary_index(self@.replicas) is Some && replica@
                    == self@.replicas[primary_index(self@.replicas).unwrap()],
                None => primary_index(self@.replicas) is None,
            },
    {
        match find_primary(&self.replicas) {
            Some(i) => {
                proof {
                    lemma_primary_index(self@.replicas);
                }
                Some(self.replicas[i].clone())
            },
            None => None,
        }
    }
}

} // verus!
