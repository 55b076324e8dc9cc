//! The transaction stream: one bidirectional stream that carries many
//! concurrent requests, told apart by their ids.
//!
//! The multiplexer keeps the routing table from request id to reply sink
//! and decides where each server frame goes. It is generic in the sink: the
//! caller installs whatever it completes replies with, and gets it back when
//! the sink is done.

use crate::error::{Error, ErrorView, InternalError};
use crate::id::ID;
use crate::options::TransactionType;
use vstd::prelude::*;

verus! {

/// How often the dispatch buffer is sent off, in milliseconds.
pub const DISPATCH_INTERVAL_MILLIS: u64 = 3;

/// How a reply sink takes its replies.
#[derive(Clone, Copy, Debug, PartialEq, Eq, Structural)]
pub enum SinkKind {
    /// One reply completes the sink.
    Single,
    /// The sink takes parts of a reply until the server marks the last one.
    Stream,
}

/// What a server frame is.
#[derive(Clone, Copy, Debug, PartialEq, Eq, Structural)]
pub enum FrameKind {
    /// A complete reply.
    Res,
    /// A part of a streamed reply; `terminal` marks the last one.
    ResPart { terminal: bool },
    /// The server holds more parts of a streamed reply and waits to be asked
    /// for them.
    Continue,
}

/// Where a transaction stands in its life.
#[derive(Clone, Copy, Debug, PartialEq, Eq, Structural)]
pub enum Lifecycle {
    Open,
    /// A commit was issued and is not acknowledged yet.
    Committing,
    /// A rollback was issued and is not acknowledged yet.
    RollingBack,
    Closed,
}

/// An installed reply sink.
#[derive(Debug)]
pub struct Sink<S> {
    pub id: ID,
    pub kind: SinkKind,
    pub handle: S,
}

/// The mathematical value of a [`Sink`].
pub struct SinkView<S> {
    pub id: Seq<u8>,
    pub kind: SinkKind,
    pub handle: S,
}

impl<S> View for Sink<S> {
    type V = SinkView<S>;

    open spec fn view(&self) -> SinkView<S> {
        SinkView { id: self.id@, kind: self.kind, handle: self.handle }
    }
}

/// The values of a list of sinks.
pub open spec fn sink_views<S>(sinks: Seq<Sink<S>>) -> Seq<SinkView<S>> {
    Seq::new(sinks.len(), |i: int| sinks[i]@)
}

/// The index of the first sink at or after `from` that is installed under
/// `id`, or the number of sinks if there is none.
pub open spec fn position<S>(sinks: Seq<SinkView<S>>, id: Seq<u8>, from: int) -> int
    decreases sinks.len() - from,
{
    if 0 <= from < sinks.len() && sinks[from].id != id {
        position(sinks, id, from + 1)
    } else {
        from
    }
}

/// The index of the sink that is installed under `id`, if there is one.
pub open spec fn find<S>(sinks: Seq<SinkView<S>>, id: Seq<u8>) -> Option<int> {
    let at = position(sinks, id, 0);
    if at < sinks.len() {
        Some(at)
    } else {
        None
    }
}

/// No two sinks are installed under the same id.
pub open spec fn has_distinct_ids<S>(sinks: Seq<SinkView<S>>) -> bool {
    forall|i: int, j: int|
        0 <= i < sinks.len() && 0 <= j < sinks.len() && i != j ==> (#[trigger] sinks[i]).id != (
        #[trigger] sinks[j]).id
}

/// What `position` finds: the first sink under the id, or the end.
pub proof fn lemma_position<S>(sinks: Seq<SinkView<S>>, id: Seq<u8>, from: int)
    requires
        0 <= from <= sinks.len(),
    ensures
        from <= position(sinks, id, from) <= sinks.len(),
        position(sinks, id, from) < sinks.len() ==> sinks[position(sinks, id, from)].id == id,
        forall|j: int| from <= j < position(sinks, id, from) ==> (#[trigger] sinks[j]).id != id,
    decreases sinks.len() - from,
{
    if from < sinks.len() && sinks[from].id != id {
        lemma_position(sinks, id, from + 1);
    }
}

/// What `find` finds: the sink under the id; none exactly when no sink is
/// installed under it.
pub proof fn lemma_find<S>(sinks: Seq<SinkView<S>>, id: Seq<u8>)
    ensures
        match find(sinks, id) {
            Some(at) => 0 <= at < sinks.len() && sinks[at].id == id,
            None => forall|j: int| 0 <= j < sinks.len() ==> (#[trigger] sinks[j]).id != id,
        },
{
    lemma_position(sinks, id, 0);
}

/// The end of a transaction: the sinks that were still installed, and the
/// error that each of them ends with.
#[derive(Debug)]
pub struct Teardown<S> {
    pub error: Error,
    pub drained: Vec<Sink<S>>,
}

/// The mathematical value of a [`Teardown`].
pub struct TeardownView<S> {
    pub error: ErrorView,
    pub drained: Seq<SinkView<S>>,
}

impl<S> View for Teardown<S> {
    type V = TeardownView<S>;

    open spec fn view(&self) -> TeardownView<S> {
        TeardownView { error: self.error@, drained: sink_views(self.drained@) }
    }
}

/// The value of a teardown, if there is one.
pub open spec fn teardown_view<S>(teardown: Option<Teardown<S>>) -> Option<TeardownView<S>> {
    match teardown {
        Some(teardown) => Some(teardown@),
        None => None,
    }
}

/// Where a server frame goes.
#[allow(inconsistent_fields)]
#[derive(Debug)]
pub enum Routing<S> {
    /// To the sink at `index`, which stays installed.
    Push { index: usize },
    /// Nowhere: the stream of the sink at `index` goes on when the server is
    /// asked for more under the same request id.
    Continue { index: usize },
    /// To `sink`, which is done and no longer installed. Where the frame
    /// acknowledged a commit, the transaction is closed, and the teardown
    /// holds the sinks that were still installed: they end with
    /// `TransactionIsClosed`.
    Complete { sink: Sink<S>, teardown: Option<Teardown<S>> },
    /// Nowhere: no sink is installed under the frame's id, or the sink is
    /// none that the frame can go to. The transaction is closed, and the
    /// teardown holds the sinks that were installed: they end with an
    /// internal error.
    Violation { teardown: Teardown<S> },
    /// Nowhere: the transaction is closed.
    Ignored,
}

/// The mathematical value of a [`Routing`].
#[allow(inconsistent_fields)]
pub enum RoutingView<S> {
    Push { index: int },
    Continue { index: int },
    Complete { sink: SinkView<S>, teardown: Option<TeardownView<S>> },
    Violation { teardown: TeardownView<S> },
    Ignored,
}

impl<S> View for Routing<S> {
    type V = RoutingView<S>;

    open spec fn view(&self) -> RoutingView<S> {
        match *self {
            Routing::Push { index } => RoutingView::Push { index: index as int },
            Routing::Continue { index } => RoutingView::Continue { index: index as int },
            Routing::Complete { sink, teardown } => RoutingView::Complete {
                sink: sink@,
                teardown: teardown_view(teardown),
            },
            Routing::Violation { teardown } => RoutingView::Violation { teardown: teardown@ },
            Routing::Ignored => RoutingView::Ignored,
        }
    }
}

/// The mathematical value of a [`TransactionStream`].
pub struct StreamView<S> {
    pub transaction_type: TransactionType,
    pub lifecycle: Lifecycle,
    /// The id of the commit or rollback that is not acknowledged yet.
    pub awaited: Seq<u8>,
    pub sinks: Seq<SinkView<S>>,
}

impl<S> StreamView<S> {
    /// The invariant of a transaction stream: no two sinks share an id, and
    /// a closed transaction has no sinks.
    pub open spec fn wf(self) -> bool {
        &&& has_distinct_ids(self.sinks)
        &&& self.lifecycle is Closed ==> self.sinks.len() == 0
    }

    /// The stream with other sinks.
    pub open spec fn with_sinks(self, sinks: Seq<SinkView<S>>) -> StreamView<S> {
        StreamView {
            transaction_type: self.transaction_type,
            lifecycle: self.lifecycle,
            awaited: self.awaited,
            sinks,
        }
    }

    /// The stream at another point of its life.
    pub open spec fn in_lifecycle(self, lifecycle: Lifecycle, awaited: Seq<u8>) -> StreamView<S> {
        StreamView {
            transaction_type: self.transaction_type,
            lifecycle,
            awaited,
            sinks: self.sinks,
        }
    }

    /// The end of the stream with the given error: every sink that is
    /// installed ends with it.
    pub open spec fn teardown(self, error: ErrorView) -> TeardownView<S> {
        TeardownView { error, drained: self.sinks }
    }

    /// The stream closed: without sinks.
    pub open spec fn closed(self) -> StreamView<S> {
        StreamView {
            transaction_type: self.transaction_type,
            lifecycle: Lifecycle::Closed,
            awaited: Seq::empty(),
            sinks: Seq::empty(),
        }
    }

    /// Why a request cannot be issued under `id`, if it cannot: the
    /// transaction is closed, or the id is in use.
    pub open spec fn refusal(self, id: Seq<u8>) -> Option<ErrorView> {
        if self.lifecycle is Closed {
            Some(ErrorView::TransactionIsClosed)
        } else if find(self.sinks, id) is Some {
            Some(ErrorView::InternalError(InternalError::DuplicateRequestId))
        } else {
            None
        }
    }

    /// Why a commit or rollback cannot be issued under `id`, if it cannot:
    /// the transaction is not open, or the id is in use.
    pub open spec fn lifecycle_refusal(self, id: Seq<u8>) -> Option<ErrorView> {
        if !(self.lifecycle is Open) {
            Some(ErrorView::TransactionIsClosed)
        } else if find(self.sinks, id) is Some {
            Some(ErrorView::InternalError(InternalError::DuplicateRequestId))
        } else {
            None
        }
    }

    /// The stream with one more sink.
    pub open spec fn installed(self, sink: SinkView<S>) -> StreamView<S> {
        self.with_sinks(self.sinks.push(sink))
    }

    /// What becomes of the stream on a server frame, and where the frame
    /// goes.
    pub open spec fn on_frame(self, id: Seq<u8>, kind: FrameKind) -> (
        StreamView<S>,
        RoutingView<S>,
    ) {
        if self.lifecycle is Closed {
            (self, RoutingView::Ignored)
        } else {
            match find(self.sinks, id) {
                None => (
                    self.closed(),
                    RoutingView::Violation {
                        teardown: self.teardown(
                            ErrorView::InternalError(InternalError::UnknownRequestId),
                        ),
                    },
                ),
                Some(at) => {
                    let sink = self.sinks[at];
                    let rest = self.sinks.remove(at);
                    match kind {
                        FrameKind::ResPart { terminal: false } => (
                            self,
                            RoutingView::Push { index: at },
                        ),
                        FrameKind::ResPart { terminal: true } => (
                            self.with_sinks(rest),
                            RoutingView::Complete { sink, teardown: None },
                        ),
                        FrameKind::Continue => if sink.kind == SinkKind::Stream {
                            (self, RoutingView::Continue { index: at })
                        } else {
                            (
                                self.closed(),
                                RoutingView::Violation {
                                    teardown: self.teardown(
                                        ErrorView::InternalError(
                                            InternalError::UnexpectedResponseType,
                                        ),
                                    ),
                                },
                            )
                        },
                        FrameKind::Res => {
                            if self.lifecycle is Committing && self.awaited == id {
                                (
                                    self.closed(),
                                    RoutingView::Complete {
                                        sink,
                                        teardown: Some(
                                            TeardownView {
                                                error: ErrorView::TransactionIsClosed,
                                                drained: rest,
                                            },
                                        ),
                                    },
                                )
                            } else if self.lifecycle is RollingBack && self.awaited == id {
                                (
                                    self.with_sinks(rest).in_lifecycle(
                                        Lifecycle::Open,
                                        Seq::empty(),
                                    ),
                                    RoutingView::Complete { sink, teardown: None },
                                )
                            } else {
                                (self.with_sinks(rest), RoutingView::Complete { sink, teardown: None })
                            }
                        },
                    }
                },
            }
        }
    }
}

/// Removing a sink keeps the ids of the others distinct, and leaves no sink
/// under the id of the one removed.
pub proof fn lemma_remove_keeps_distinct<S>(sinks: Seq<SinkView<S>>, at: int)
    requires
        has_distinct_ids(sinks),
        0 <= at < sinks.len(),
    ensures
        has_distinct_ids(sinks.remove(at)),
        find(sinks.remove(at), sinks[at].id) is None,
        forall|id: Seq<u8>|
            id != sinks[at].id && find(sinks, id) is Some ==> (#[trigger] find(
                sinks.remove(at),
                id,
            )) is Some && sinks.remove(at)[find(sinks.remove(at), id).unwrap()] == sinks[find(
                sinks,
                id,
            ).unwrap()],
{
    let rest = sinks.remove(at);
    assert forall|i: int, j: int| 0 <= i < rest.len() && 0 <= j < rest.len() && i != j implies (
    #[trigger] rest[i]).id != (#[trigger] rest[j]).id by {
        let oi = if i < at {
            i
        } else {
            i + 1
        };
        let oj = if j < at {
            j
        } else {
            j + 1
        };
        assert(rest[i] == sinks[oi]);
        assert(rest[j] == sinks[oj]);
    }
    lemma_find(rest, sinks[at].id);
    if find(rest, sinks[at].id) is Some {
        let k = find(rest, sinks[at].id).unwrap();
        let ok = if k < at {
            k
        } else {
            k + 1
        };
        assert(rest[k] == sinks[ok]);
        assert(sinks[ok].id == sinks[at].id);
    }
    assert forall|id: Seq<u8>| id != sinks[at].id && find(sinks, id) is Some implies (
    #[trigger] find(rest, id)) is Some && rest[find(rest, id).unwrap()] == sinks[find(
        sinks,
        id,
    ).unwrap()] by {
        lemma_find(sinks, id);
        lemma_find(rest, id);
        let p = find(sinks, id).unwrap();
        let q = if p < at {
            p
        } else {
            p - 1
        };
        assert(rest[q] == sinks[p]);
        if find(rest, id) is Some {
            let k = find(rest, id).unwrap();
            let ok = if k < at {
                k
            } else {
                k + 1
            };
            assert(rest[k] == sinks[ok]);
            assert(sinks[ok].id == sinks[p].id);
        }
    }
}

/// The multiplexer of one transaction.
#[derive(Debug)]
pub struct TransactionStream<S> {
    transaction_type: TransactionType,
    lifecycle: Lifecycle,
    awaited: Vec<u8>,
    sinks: Vec<Sink<S>>,
}

impl<S> View for TransactionStream<S> {
    type V = StreamView<S>;

    closed spec fn view(&self) -> StreamView<S> {
        StreamView {
            transaction_type: self.transaction_type,
            lifecycle: self.lifecycle,
            awaited: self.awaited@,
            sinks: sink_views(self.sinks@),
        }
    }
}

impl<S> TransactionStream<S> {
    /// The multiplexer of a transaction that was just opened.
    pub fn new(transaction_type: TransactionType) -> (stream: Self)
        ensures
            stream@ == (StreamView::<S> {
                transaction_type,
                lifecycle: Lifecycle::Open,
                awaited: Seq::empty(),
                sinks: Seq::empty(),
            }),
            stream@.wf(),
    {
        let stream = TransactionStream {
            transaction_type,
            lifecycle: Lifecycle::Open,
            awaited: Vec::new(),
            sinks: Vec::new(),
        };
        assert(sink_views(stream.sinks@) =~= Seq::<SinkView<S>>::empty());
        stream
    }

    /// What the transaction was opened for.
    pub fn transaction_type(&self) -> (transaction_type: TransactionType)
        ensures
            transaction_type == self@.transaction_type,
    {
        self.transaction_type
    }

    /// Where the transaction stands in its life.
    pub fn lifecycle(&self) -> (lifecycle: Lifecycle)
        ensures
            lifecycle == self@.lifecycle,
    {
        self.lifecycle
    }

    /// Whether the transaction takes requests: it does until it is closed.
    pub fn is_open(&self) -> (open: bool)
        ensures
            open == !(self@.lifecycle is Closed),
    {
        match self.lifecycle {
            Lifecycle::Closed => false,
            _ => true,
        }
    }

    /// How many sinks are installed.
    pub fn pending(&self) -> (count: usize)
        ensures
            count == self@.sinks.len(),
    {
        self.sinks.len()
    }

    /// The sink at an index of the routing table.
    pub fn sink(&self, index: usize) -> (sink: Option<&Sink<S>>)
        ensures
            match sink {
                Some(sink) => index < self@.sinks.len() && sink@ == self@.sinks[index as int],
                None => index >= self@.sinks.len(),
            },
    {
        if index < self.sinks.len() {
            Some(&self.sinks[index])
        } else {
            None
        }
    }

    /// The index of the sink that is installed under the id.
    pub fn find(&self, id: &ID) -> (found: Option<usize>)
        ensures
            match found {
                Some(at) => find(self@.sinks, id@) == Some(at as int),
                None => find(self@.sinks, id@) is None,
            },
    {
        let ghost all = sink_views(self.sinks@);
        let mut i: usize = 0;
        while i < self.sinks.len()
            invariant
                i <= self.sinks.len(),
                all == sink_views(self.sinks@),
                position(all, id@, 0) == position(all, id@, i as int),
            decreases self.sinks.len() - i,
        {
            if self.sinks[i].id.same_as(id) {
                assert(all[i as int].id == id@);
                return Some(i);
            }
            assert(all[i as int].id != id@);
            i += 1;
        }
        None
    }

    fn install_unchecked(&mut self, id: ID, kind: SinkKind, handle: S)
        requires
            old(self)@.wf(),
            !(old(self)@.lifecycle is Closed),
            find(old(self)@.sinks, id@) is None,
        ensures
            final(self)@ == old(self)@.installed(SinkView { id: id@, kind, handle }),
            final(self)@.wf(),
    {
        proof {
            lemma_find(self@.sinks, id@);
        }
        let ghost before = sink_views(self.sinks@);
        self.sinks.push(Sink { id, kind, handle });
        proof {
            let after = sink_views(self.sinks@);
            assert(after =~= before.push(SinkView { id: id@, kind, handle }));
            assert forall|i: int, j: int|
                0 <= i < after.len() && 0 <= j < after.len() && i != j implies (
            #[trigger] after[i]).id != (#[trigger] after[j]).id by {
                if i < before.len() {
                    assert(after[i] == before[i]);
                }
                if j < before.len() {
                    assert(after[j] == before[j]);
                }
            }
        }
    }

    /// Installs the reply sink of a request that is about to be sent under
    /// `id`. Refused with `TransactionIsClosed` when the transaction is
    /// closed, and with an internal error when the id is in use; the stream
    /// is then as it was.
    pub fn issue(&mut self, id: ID, kind: SinkKind, handle: S) -> (res: Result<(), Error>)
        requires
            old(self)@.wf(),
        ensures
            final(self)@.wf(),
            match res {
                Ok(_) => old(self)@.refusal(id@) is None && final(self)@ == old(self)@.installed(
                    SinkView { id: id@, kind, handle },
                ),
                Err(error) => old(self)@.refusal(id@) == Some(error@) && final(self)@ == old(
                    self,
                )@,
            },
    {
        if !self.is_open() {
            return Err(Error::TransactionIsClosed);
        }
        match self.find(&id) {
            Some(_) => Err(Error::InternalError(InternalError::DuplicateRequestId)),
            None => {
                self.install_unchecked(id, kind, handle);
                Ok(())
            },
        }
    }

    /// Whether a continuation of the stream under `id` can be requested: it
    /// can while a stream sink is installed under the id. The continuation
    /// reuses the id and installs nothing.
    pub fn can_continue(&self, id: &ID) -> (yes: bool)
        ensures
            yes == (find(self@.sinks, id@) matches Some(at) && self@.sinks[at].kind
                == SinkKind::Stream),
    {
        match self.find(id) {
            Some(at) => {
                proof {
                    lemma_find(self@.sinks, id@);
                }
                match self.sinks[at].kind {
                    SinkKind::Stream => true,
                    SinkKind::Single => false,
                }
            },
            None => false,
        }
    }

    fn begin(&mut self, id: ID, handle: S, lifecycle: Lifecycle) -> (res: Result<(), Error>)
        requires
            old(self)@.wf(),
            lifecycle is Committing || lifecycle is RollingBack,
        ensures
            final(self)@.wf(),
            match res {
                Ok(_) => old(self)@.lifecycle_refusal(id@) is None && final(self)@ == old(
                    self,
                )@.installed(SinkView { id: id@, kind: SinkKind::Single, handle }).in_lifecycle(
                    lifecycle,
                    id@,
                ),
                Err(error) => old(self)@.lifecycle_refusal(id@) == Some(error@) && final(self)@
                    == old(self)@,
            },
    {
        match self.lifecycle {
            Lifecycle::Open => {},
            _ => {
                return Err(Error::TransactionIsClosed);
            },
        }
        match self.find(&id) {
            Some(_) => Err(Error::InternalError(InternalError::DuplicateRequestId)),
            None => {
                self.awaited = crate::id::bytes_clone(id.as_bytes());
                self.lifecycle = lifecycle;
                self.install_unchecked(id, SinkKind::Single, handle);
                Ok(())
            },
        }
    }

    /// Installs the reply sink of a commit that is about to be sent under
    /// `id`. The transaction is committing until the commit is acknowledged,
    /// and closed from then on. Refused with `TransactionIsClosed` unless the
    /// transaction is open.
    pub fn commit(&mut self, id: ID, handle: S) -> (res: Result<(), Error>)
        requires
            old(self)@.wf(),
        ensures
            final(self)@.wf(),
            match res {
                Ok(_) => old(self)@.lifecycle_refusal(id@) is None && final(self)@ == old(
                    self,
                )@.installed(SinkView { id: id@, kind: SinkKind::Single, handle }).in_lifecycle(
                    Lifecycle::Committing,
                    id@,
                ),
                Err(error) => old(self)@.lifecycle_refusal(id@) == Some(error@) && final(self)@
                    == old(self)@,
            },
    {
        self.begin(id, handle, Lifecycle::Committing)
    }

    /// Installs the reply sink of a rollback that is about to be sent under
    /// `id`. The transaction is rolling back until the rollback is
    /// acknowledged, and open again from then on. Refused with
    /// `TransactionIsClosed` unless the transaction is open.
    pub fn rollback(&mut self, id: ID, handle: S) -> (res: Result<(), Error>)
        requires
            old(self)@.wf(),
        ensures
            final(self)@.wf(),
            match res {
                Ok(_) => old(self)@.lifecycle_refusal(id@) is None && final(self)@ == old(
                    self,
                )@.installed(SinkView { id: id@, kind: SinkKind::Single, handle }).in_lifecycle(
                    Lifecycle::RollingBack,
                    id@,
                ),
                Err(error) => old(self)@.lifecycle_refusal(id@) == Some(error@) && final(self)@
                    == old(self)@,
            },
    {
        self.begin(id, handle, Lifecycle::RollingBack)
    }

    fn drain(&mut self, error: Error) -> (teardown: Teardown<S>)
        ensures
            teardown@ == old(self)@.teardown(error@),
            final(self)@ == old(self)@.closed(),
            final(self)@.wf(),
    {
        let mut drained: Vec<Sink<S>> = Vec::new();
        drained.append(&mut self.sinks);
        self.lifecycle = Lifecycle::Closed;
        self.awaited = Vec::new();
        assert(sink_views(drained@) =~= old(self)@.sinks);
        assert(sink_views(self.sinks@) =~= Seq::<SinkView<S>>::empty());
        Teardown { error, drained }
    }

    /// Closes the transaction, as when its handle is dropped or the server
    /// ends the stream. The sinks that were installed are handed back: they
    /// end with `TransactionIsClosed`.
    pub fn close(&mut self) -> (teardown: Teardown<S>)
        ensures
            teardown@ == old(self)@.teardown(ErrorView::TransactionIsClosed),
            final(self)@ == old(self)@.closed(),
            final(self)@.wf(),
    {
        self.drain(Error::TransactionIsClosed)
    }

    /// Routes a server frame that names the request `id`.
    ///
    /// A complete reply goes to the sink under the id, which is removed. A
    /// part goes to the sink under the id, which is removed if the part is
    /// the last. A stream whose server waits to be asked for more goes on
    /// when a continuation is sent under the same id. A frame for an id
    /// without a sink, or a wait on a sink that is no stream, closes the
    /// transaction.
    /// The reply to a commit closes the transaction, the reply to a rollback
    /// opens it again. A closed transaction ignores every frame.
    pub fn on_frame(&mut self, id: &ID, kind: FrameKind) -> (routing: Routing<S>)
        requires
            old(self)@.wf(),
        ensures
            (final(self)@, routing@) == old(self)@.on_frame(id@, kind),
            final(self)@.wf(),
    {
        if !self.is_open() {
            return Routing::Ignored;
        }
        let found = self.find(id);
        proof {
            lemma_find(self@.sinks, id@);
        }
        match found {
            None => Routing::Violation {
                teardown: self.drain(Error::InternalError(InternalError::UnknownRequestId)),
            },
            Some(at) => {
                proof {
                    lemma_remove_keeps_distinct(self@.sinks, at as int);
                }
                match kind {
                    FrameKind::ResPart { terminal: false } => Routing::Push { index: at },
                    FrameKind::ResPart { terminal: true } => {
                        let sink = self.sinks.remove(at);
                        assert(sink_views(self.sinks@) =~= old(self)@.sinks.remove(at as int));
                        Routing::Complete { sink, teardown: None }
                    },
                    FrameKind::Continue => {
                        match self.sinks[at].kind {
                            SinkKind::Stream => Routing::Continue { index: at },
                            SinkKind::Single => Routing::Violation {
                                teardown: self.drain(
                                    Error::InternalError(InternalError::UnexpectedResponseType),
                                ),
                            },
                        }
                    },
                    FrameKind::Res => {
                        let acknowledged = crate::id::bytes_equal(&self.awaited, id.as_bytes());
                        let sink = self.sinks.remove(at);
                        assert(sink_views(self.sinks@) =~= old(self)@.sinks.remove(at as int));
                        match self.lifecycle {
                            Lifecycle::Committing => {
                                if acknowledged {
                                    let teardown = self.drain(Error::TransactionIsClosed);
                                    return Routing::Complete { sink, teardown: Some(teardown) };
                                }
                            },
                            Lifecycle::RollingBack => {
                                if acknowledged {
                                    self.lifecycle = Lifecycle::Open;
                                    self.awaited = Vec::new();
                                }
                            },
                            _ => {},
                        }
                        Routing::Complete { sink, teardown: None }
                    },
                }
            },
        }
    }
}

} // verus!
