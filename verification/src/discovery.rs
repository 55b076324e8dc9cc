//! Topology discovery: the seed addresses are asked for the servers of the
//! cluster, and the first answer is the cluster.

use crate::address::{parse_address, Address, AddressView};
use crate::connection::{distinct_addresses, unique_addresses, Connection};
use crate::database::address_views;
use crate::error::{error_message, Error, ErrorView};
use crate::text::{join, joined, views};
use vstd::prelude::*;
use vstd::string::*;

verus! {

/// The values of a list of texts.
pub open spec fn text_views(texts: Seq<String>) -> Seq<Seq<char>> {
    Seq::new(texts.len(), |i: int| texts[i]@)
}

/// Whether each of the texts is an address.
pub open spec fn are_addresses(texts: Seq<Seq<char>>) -> bool {
    forall|i: int| 0 <= i < texts.len() ==> parse_address(#[trigger] texts[i]) is Some
}

/// The addresses that the texts spell.
pub open spec fn parsed_addresses(texts: Seq<Seq<char>>) -> Seq<AddressView> {
    Seq::new(texts.len(), |i: int| parse_address(texts[i]).unwrap())
}

/// Parses each of the texts as an address. Fails with an `Other` error
/// exactly when one of them is no address.
pub fn parse_addresses(texts: &Vec<String>) -> (res: Result<Vec<Address>, Error>)
    ensures
        match res {
            Ok(addresses) => are_addresses(text_views(texts@)) && address_views(addresses@)
                == parsed_addresses(text_views(texts@)),
            Err(error) => !are_addresses(text_views(texts@)) && error@ is Other,
        },
{
    let ghost all = text_views(texts@);
    let mut addresses: Vec<Address> = Vec::new();
    let mut i: usize = 0;
    while i < texts.len()
        invariant
            i <= texts.len(),
            all == text_views(texts@),
            addresses@.len() == i,
            forall|j: int| 0 <= j < i ==> parse_address(#[trigger] all[j]) == Some(addresses@[j]@),
        decreases texts.len() - i,
    {
        match Address::parse(texts[i].as_str()) {
            Ok(address) => addresses.push(address),
            Err(error) => {
                assert(parse_address(all[i as int]) is None);
                return Err(error);
            },
        }
        i += 1;
    }
    assert(address_views(addresses@) =~= parsed_addresses(all));
    Ok(addresses)
}

/// The line that reports the failure of one seed: its address, a colon, and
/// what the error says.
pub open spec fn seed_line(seeds: Seq<AddressView>, failure: (int, ErrorView)) -> Seq<char> {
    seeds[failure.0].canonical() + ": "@ + error_message(failure.1)
}

/// The lines that report the failures of the seeds, in the order in which
/// they were reported.
pub open spec fn seed_lines(seeds: Seq<AddressView>, failures: Seq<(int, ErrorView)>) -> Seq<
    Seq<char>,
> {
    Seq::new(failures.len(), |i: int| seed_line(seeds, failures[i]))
}

/// The error of a discovery in which every seed failed: it carries each
/// seed's address with what its error says, separated by commas.
pub open spec fn no_seed_answered(seeds: Seq<AddressView>, failures: Seq<(int, ErrorView)>)
    -> ErrorView {
    ErrorView::ClusterUnableToConnect(joined(seed_lines(seeds, failures), ","@))
}

/// The mathematical value of a [`Discovery`].
pub struct DiscoveryView {
    pub seeds: Seq<AddressView>,
    /// The seeds that have failed, each with its error, in the order in
    /// which they were reported.
    pub failures: Seq<(int, ErrorView)>,
    pub finished: bool,
}

/// The seeds of the failures, in the order in which they were reported.
pub open spec fn failed_seeds(failures: Seq<(int, ErrorView)>) -> Seq<int> {
    Seq::new(failures.len(), |i: int| failures[i].0)
}

impl DiscoveryView {
    /// Whether seed `seed` has been reported as failed.
    pub open spec fn has_failed(self, seed: int) -> bool {
        failed_seeds(self.failures).contains(seed)
    }

    /// The invariant of a discovery: each failure is that of a seed, no seed
    /// has failed twice, and an unfinished discovery has seeds left.
    pub open spec fn wf(self) -> bool {
        &&& forall|i: int|
            0 <= i < self.failures.len() ==> 0 <= (#[trigger] self.failures[i]).0
                < self.seeds.len()
        &&& failed_seeds(self.failures).no_duplicates()
        &&& !self.finished ==> self.failures.len() < self.seeds.len()
    }

    /// What becomes of the discovery when seed `seed` has failed, and the
    /// error of the discovery if this was the last seed. A report for a seed
    /// that does not exist, for a seed that has failed before, or after the
    /// end, changes nothing.
    pub open spec fn on_failure(self, seed: int, error: ErrorView) -> (
        DiscoveryView,
        Option<ErrorView>,
    ) {
        if self.finished || seed >= self.seeds.len() || self.has_failed(seed) {
            (self, None)
        } else {
            let failures = self.failures.push((seed, error));
            if failures.len() >= self.seeds.len() {
                (
                    DiscoveryView { seeds: self.seeds, failures, finished: true },
                    Some(no_seed_answered(self.seeds, failures)),
                )
            } else {
                (DiscoveryView { seeds: self.seeds, failures, finished: false }, None)
            }
        }
    }
}

/// A discovery fails only when every seed has failed: whenever as many
/// failures have been reported as there are seeds, each seed is among them,
/// and the error of the discovery carries the seed's address.
pub proof fn lemma_every_seed_has_failed(discovery: DiscoveryView, seed: int)
    requires
        discovery.wf(),
        discovery.failures.len() == discovery.seeds.len(),
        0 <= seed < discovery.seeds.len(),
    ensures
        discovery.has_failed(seed),
        no_seed_answered(discovery.seeds, discovery.failures) matches ErrorView::ClusterUnableToConnect(
            carried,
        ) && crate::text::occurs_in(carried, discovery.seeds[seed].canonical()),
{
    let seeds = failed_seeds(discovery.failures);
    let count = discovery.seeds.len() as int;
    let failed = seeds.to_set();
    let all = vstd::set_lib::set_int_range(0, count);
    seeds.unique_seq_to_set();
    vstd::set_lib::lemma_int_range(0, count);
    assert forall|k: int| failed.contains(k) implies all.contains(k) by {
        let i = choose|i: int| 0 <= i < seeds.len() && seeds[i] == k;
        assert(seeds[i] == discovery.failures[i].0);
    }
    vstd::set_lib::lemma_subset_equality(failed, all);
    assert(all.contains(seed));
    assert(failed.contains(seed));
    assert(seeds.contains(seed));
    let i = choose|i: int| 0 <= i < seeds.len() && seeds[i] == seed;
    assert(discovery.failures[i].0 == seed);
    let lines = seed_lines(discovery.seeds, discovery.failures);
    let line = lines[i];
    let address = discovery.seeds[seed].canonical();
    crate::text::lemma_joined_holds_each_part(lines, ","@, i);
    assert(line.subrange(0, address.len() as int) =~= address);
    assert(crate::text::occurs_at(line, address, 0));
    crate::text::lemma_occurs_in_is_transitive(joined(lines, ","@), line, address);
}

/// One discovery of the servers of a cluster.
pub struct Discovery {
    seeds: Vec<Address>,
    /// The seeds that have failed, in the order in which they were reported.
    reported: Vec<usize>,
    lines: Vec<String>,
    finished: bool,
    failures: Ghost<Seq<(int, ErrorView)>>,
}

impl View for Discovery {
    type V = DiscoveryView;

    closed spec fn view(&self) -> DiscoveryView {
        DiscoveryView {
            seeds: address_views(self.seeds@),
            failures: self.failures@,
            finished: self.finished,
        }
    }
}

impl Discovery {
    /// The invariant of the representation: the discovery is well formed,
    /// and one line and one seed are kept for each failure.
    pub closed spec fn inv(&self) -> bool {
        &&& self@.wf()
        &&& views(self.lines@) == seed_lines(address_views(self.seeds@), self.failures@)
        &&& self.reported@.len() == self.failures@.len()
        &&& forall|i: int|
            0 <= i < self.reported@.len() ==> (#[trigger] self.reported@[i]) as int
                == self.failures@[i].0
    }

    /// What the invariant of the representation says of the value.
    pub proof fn lemma_inv_is_wf(&self)
        requires
            self.inv(),
        ensures
            self@.wf(),
    {
    }

    fn has_reported(&self, seed: usize) -> (reported: bool)
        requires
            self.inv(),
        ensures
            reported == self@.has_failed(seed as int),
    {
        let ghost seeds = failed_seeds(self.failures@);
        let mut i: usize = 0;
        while i < self.reported.len()
            invariant
                self.inv(),
                seeds == failed_seeds(self.failures@),
                i <= self.reported.len(),
                forall|j: int| 0 <= j < i ==> seeds[j] != seed as int,
            decreases self.reported.len() - i,
        {
            if self.reported[i] == seed {
                assert(seeds[i as int] == seed as int);
                return true;
            }
            i += 1;
        }
        false
    }

    /// The seeds, in the order in which they were given.
    pub fn seeds(&self) -> (seeds: &Vec<Address>)
        ensures
            address_views(seeds@) == self@.seeds,
    {
        &self.seeds
    }

    /// Whether the discovery is over.
    pub fn is_finished(&self) -> (finished: bool)
        ensures
            finished == self@.finished,
    {
        self.finished
    }

    /// Takes the failure of seed `seed`, whatever its kind. When every seed
    /// has failed the discovery has failed: the result is
    /// `ClusterUnableToConnect`, which carries each seed's address and what
    /// its error says. A seed fails once: a second report of it is passed
    /// over.
    pub fn on_failure(&mut self, seed: usize, error: &Error) -> (failed: Option<Error>)
        requires
            old(self).inv(),
        ensures
            final(self).inv(),
            final(self)@ == old(self)@.on_failure(seed as int, error@).0,
            match failed {
                Some(failed) => old(self)@.on_failure(seed as int, error@).1 == Some(failed@),
                None => old(self)@.on_failure(seed as int, error@).1 is None,
            },
    {
        if self.finished || seed >= self.seeds.len() {
            return None;
        }
        if self.has_reported(seed) {
            return None;
        }
        let ghost cluster = address_views(self.seeds@);
        let ghost before = self.failures@;
        assert(views(self.lines@).len() == seed_lines(cluster, before).len());
        let count = self.seeds.len();
        self.reported.push(seed);
        let mut line = self.seeds[seed].to_string();
        line.append(": ");
        let message = error.message();
        line.append(message.as_str());
        self.lines.push(line);
        proof {
            self.failures@ = before.push((seed as int, error@));
            assert(line@ =~= seed_line(cluster, (seed as int, error@)));
            let kept = views(self.lines@);
            let due = seed_lines(cluster, self.failures@);
            assert(kept.len() == due.len());
            assert forall|j: int| 0 <= j < kept.len() implies kept[j] == due[j] by {
                if j < before.len() {
                    assert(kept[j] == views(old(self).lines@)[j]);
                    assert(due[j] == seed_lines(cluster, before)[j]);
                }
            }
            assert(kept =~= due);
            let earlier = failed_seeds(before);
            let now = failed_seeds(self.failures@);
            assert(now =~= earlier.push(seed as int));
            assert forall|a: int, b: int| 0 <= a < now.len() && 0 <= b < now.len() && a != b implies now[a]
                != now[b] by {
                if a < earlier.len() && b < earlier.len() {
                    assert(earlier[a] != earlier[b]);
                } else if a < earlier.len() {
                    assert(earlier.contains(earlier[a]));
                } else {
                    assert(earlier.contains(earlier[b]));
                }
            }
        }
        if self.lines.len() >= count {
            self.finished = true;
            Some(Error::ClusterUnableToConnect(join(&self.lines, ",")))
        } else {
            None
        }
    }

    /// Takes the answer of a seed: the addresses of the servers of the
    /// cluster. The discovery is over, and the result is the connection to
    /// those servers, each taken once. Fails with an `Other` error exactly
    /// when one of the addresses cannot be parsed.
    pub fn on_servers(&mut self, servers: &Vec<String>) -> (res: Result<Connection, Error>)
        requires
            old(self).inv(),
        ensures
            final(self).inv(),
            final(self)@ == (DiscoveryView {
                seeds: old(self)@.seeds,
                failures: old(self)@.failures,
                finished: true,
            }),
            match res {
                Ok(connection) => are_addresses(text_views(servers@)) && connection@.is_open
                    && connection@.wf() && crate::connection::addresses_of(connection@.servers)
                    == distinct_addresses(parsed_addresses(text_views(servers@))) && forall|
                    i: int,
                |
                    0 <= i < connection@.servers.len() ==> (
                    #[trigger] connection@.servers[i]).open_sessions.len() == 0,
                Err(error) => !are_addresses(text_views(servers@)) && error@ is Other,
            },
    {
        self.finished = true;
        match parse_addresses(servers) {
            Ok(addresses) => Ok(Connection::new_encrypted(&addresses)),
            Err(error) => Err(error),
        }
    }
}

impl Connection {
    /// Begins the discovery of a cluster from its seed addresses. Fails with
    /// an `Other` error exactly when one of the seeds is no address, and with
    /// `ClusterUnableToConnect` when there is no seed at all.
    pub fn from_init(init_addresses: &Vec<String>) -> (res: Result<Discovery, Error>)
        ensures
            match res {
                Ok(discovery) => are_addresses(text_views(init_addresses@)) && init_addresses@.len()
                    > 0 && discovery.inv() && discovery@ == (DiscoveryView {
                    seeds: parsed_addresses(text_views(init_addresses@)),
                    failures: Seq::empty(),
                    finished: false,
                }),
                Err(error) => if are_addresses(text_views(init_addresses@)) {
                    init_addresses@.len() == 0 && error@ == no_seed_answered(
                        Seq::empty(),
                        Seq::empty(),
                    )
                } else {
                    error@ is Other
                },
            },
    {
        match parse_addresses(init_addresses) {
            Ok(seeds) => {
                assert(address_views(seeds@).len() == parsed_addresses(
                    text_views(init_addresses@),
                ).len());
                assert(seeds@.len() == init_addresses@.len());
                let lines: Vec<String> = Vec::new();
                if seeds.len() == 0 {
                    assert(views(lines@) =~= seed_lines(Seq::empty(), Seq::empty()));
                    return Err(Error::ClusterUnableToConnect(join(&lines, ",")));
                }
                let discovery = Discovery {
                    seeds,
                    reported: Vec::new(),
                    lines,
                    finished: false,
                    failures: Ghost(Seq::empty()),
                };
                assert(views(discovery.lines@) =~= seed_lines(
                    address_views(discovery.seeds@),
                    discovery.failures@,
                ));
                Ok(discovery)
            },
            Err(error) => Err(error),
        }
    }
}

} // verus!
