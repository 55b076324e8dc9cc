//! What holds of every run of the transaction stream's multiplexer.

use crate::transaction::{
    find, lemma_find, lemma_remove_keeps_distinct, FrameKind, Lifecycle, RoutingView, SinkKind,
    SinkView, StreamView, TeardownView,
};
use vstd::prelude::*;

verus! {

/// What the multiplexer reads of a server frame: the request that it
/// belongs to, and what it is.
pub struct FrameHeader {
    pub id: Seq<u8>,
    pub kind: FrameKind,
}

/// The sink that a frame went to, if it went anywhere.
pub open spec fn recipient<S>(state: StreamView<S>, routing: RoutingView<S>) -> Option<
    SinkView<S>,
> {
    match routing {
        RoutingView::Push { index } => Some(state.sinks[index]),
        RoutingView::Continue { index } => None,
        RoutingView::Complete { sink, teardown } => Some(sink),
        RoutingView::Violation { teardown } => None,
        RoutingView::Ignored => None,
    }
}

/// The multiplexer fed with the server's frames in order: the state at the
/// end, and for each frame the sink that it went to.
pub open spec fn demultiplex<S>(start: StreamView<S>, frames: Seq<FrameHeader>) -> (
    StreamView<S>,
    Seq<Option<SinkView<S>>>,
)
    decreases frames.len(),
{
    if frames.len() == 0 {
        (start, Seq::empty())
    } else {
        let (state, recipients) = demultiplex(start, frames.drop_last());
        let (next, routing) = state.on_frame(frames.last().id, frames.last().kind);
        (next, recipients.push(recipient(state, routing)))
    }
}

/// The frames are parts of streamed replies to requests whose sinks are
/// installed, and no stream goes on after its last part.
pub open spec fn are_stream_parts<S>(start: StreamView<S>, frames: Seq<FrameHeader>) -> bool {
    &&& forall|i: int| 0 <= i < frames.len() ==> (#[trigger] frames[i]).kind is ResPart
    &&& forall|i: int| 0 <= i < frames.len() ==> find(start.sinks, (#[trigger] frames[i]).id) is Some
    &&& forall|i: int, j: int|
        0 <= i < j < frames.len() && (#[trigger] frames[i]).id == (#[trigger] frames[j]).id
            ==> frames[i].kind != (FrameKind::ResPart { terminal: true })
}

/// The sink that was installed under the id when the frames began.
pub open spec fn installed_under<S>(start: StreamView<S>, id: Seq<u8>) -> SinkView<S> {
    start.sinks[find(start.sinks, id).unwrap()]
}

/// No frame among the first `n` ends the stream of the request `id`.
pub open spec fn is_unfinished(frames: Seq<FrameHeader>, n: int, id: Seq<u8>) -> bool {
    forall|i: int|
        0 <= i < n && (#[trigger] frames[i]).id == id ==> frames[i].kind != (FrameKind::ResPart {
            terminal: true,
        })
}

/// Every sink of `start` whose stream the first `n` frames do not end is
/// installed in `state` as it was.
pub open spec fn keeps_unfinished<S>(
    start: StreamView<S>,
    state: StreamView<S>,
    frames: Seq<FrameHeader>,
    n: int,
) -> bool {
    forall|id: Seq<u8>|
        find(start.sinks, id) is Some && is_unfinished(frames, n, id) ==> (#[trigger] find(
            state.sinks,
            id,
        )) is Some && state.sinks[find(state.sinks, id).unwrap()] == installed_under(start, id)
}

proof fn lemma_demultiplex_step<S>(
    start: StreamView<S>,
    before: StreamView<S>,
    frames: Seq<FrameHeader>,
    n: int,
)
    requires
        before.wf(),
        !(before.lifecycle is Closed),
        are_stream_parts(start, frames),
        1 <= n <= frames.len(),
        keeps_unfinished(start, before, frames, n - 1),
    ensures
        ({
            let (state, routing) = before.on_frame(frames[n - 1].id, frames[n - 1].kind);
            &&& state.wf()
            &&& state.lifecycle == before.lifecycle
            &&& state.awaited == before.awaited
            &&& recipient(before, routing) == Some(installed_under(start, frames[n - 1].id))
            &&& keeps_unfinished(start, state, frames, n)
        }),
{
    let frame = frames[n - 1];
    let (state, routing) = before.on_frame(frame.id, frame.kind);
    assert(is_unfinished(frames, n - 1, frame.id)) by {
        assert forall|i: int| 0 <= i < n - 1 && (#[trigger] frames[i]).id == frame.id implies frames[i].kind
            != (FrameKind::ResPart { terminal: true }) by {
            assert(frames[i].id == frames[n - 1].id);
        }
    }
    assert(find(start.sinks, frame.id) is Some);
    assert(find(before.sinks, frame.id) is Some);
    let at = find(before.sinks, frame.id).unwrap();
    lemma_find(before.sinks, frame.id);
    lemma_remove_keeps_distinct(before.sinks, at);
    assert(frame.kind is ResPart);
    assert forall|id: Seq<u8>|
        find(start.sinks, id) is Some && is_unfinished(frames, n, id) implies (#[trigger] find(
        state.sinks,
        id,
    )) is Some && state.sinks[find(state.sinks, id).unwrap()] == installed_under(start, id) by {
        assert(is_unfinished(frames, n - 1, id));
        assert(find(before.sinks, id) is Some);
        if frame.kind == (FrameKind::ResPart { terminal: true }) {
            assert(frames[n - 1].id != id);
        }
    }
}

proof fn lemma_demultiplex_prefix<S>(start: StreamView<S>, frames: Seq<FrameHeader>, n: int)
    requires
        start.wf(),
        !(start.lifecycle is Closed),
        are_stream_parts(start, frames),
        0 <= n <= frames.len(),
    ensures
        ({
            let (state, recipients) = demultiplex(start, frames.subrange(0, n));
            &&& state.wf()
            &&& state.lifecycle == start.lifecycle
            &&& state.awaited == start.awaited
            &&& recipients.len() == n
            &&& forall|i: int|
                0 <= i < n ==> (#[trigger] recipients[i]) == Some(
                    installed_under(start, frames[i].id),
                )
            &&& keeps_unfinished(start, state, frames, n)
        }),
    decreases n,
{
    let prefix = frames.subrange(0, n);
    if n == 0 {
        assert(prefix =~= Seq::<FrameHeader>::empty());
    } else {
        lemma_demultiplex_prefix(start, frames, n - 1);
        assert(prefix.drop_last() =~= frames.subrange(0, n - 1));
        assert(prefix.last() == frames[n - 1]);
        let (before, earlier) = demultiplex(start, frames.subrange(0, n - 1));
        lemma_demultiplex_step(start, before, frames, n);
        let frame = frames[n - 1];
        let (state, routing) = before.on_frame(frame.id, frame.kind);
        let recipients = earlier.push(recipient(before, routing));
        assert(demultiplex(start, prefix) == (state, recipients));
        assert forall|i: int| 0 <= i < n implies (#[trigger] recipients[i]) == Some(
            installed_under(start, frames[i].id),
        ) by {
            if i < n - 1 {
                assert(recipients[i] == earlier[i]);
            }
        }
    }
}

/// Transaction stream demultiplexing. While the server sends parts of the
/// streamed replies to any number of requests of one transaction, in any
/// interleaving, each part goes to the sink that was installed under the id
/// of its request, and to no other. So each stream receives exactly the
/// parts of its own request, in the order in which the server sent them.
pub proof fn lemma_streams_receive_their_own_parts<S>(
    start: StreamView<S>,
    frames: Seq<FrameHeader>,
)
    requires
        start.wf(),
        !(start.lifecycle is Closed),
        are_stream_parts(start, frames),
    ensures
        ({
            let (end, recipients) = demultiplex(start, frames);
            &&& end.wf()
            &&& end.lifecycle == start.lifecycle
            &&& recipients.len() == frames.len()
            &&& forall|i: int|
                0 <= i < frames.len() ==> (#[trigger] recipients[i]) == Some(
                    installed_under(start, frames[i].id),
                ) && recipients[i].unwrap().id == frames[i].id
        }),
{
    lemma_demultiplex_prefix(start, frames, frames.len() as int);
    assert(frames.subrange(0, frames.len() as int) =~= frames);
    assert forall|i: int| 0 <= i < frames.len() implies installed_under(start, frames[i].id).id
        == (#[trigger] frames[i]).id by {
        lemma_find(start.sinks, frames[i].id);
    }
}

/// A frame for a request without a sink closes the transaction: the sinks
/// that were installed end with an internal error, and every frame after it
/// is ignored.
pub proof fn lemma_unknown_id_closes<S>(
    start: StreamView<S>,
    id: Seq<u8>,
    kind: FrameKind,
    later_id: Seq<u8>,
    later_kind: FrameKind,
)
    requires
        start.wf(),
        !(start.lifecycle is Closed),
        find(start.sinks, id) is None,
    ensures
        ({
            let (state, routing) = start.on_frame(id, kind);
            &&& state.lifecycle is Closed
            &&& routing == RoutingView::Violation {
                teardown: TeardownView {
                    error: crate::error::ErrorView::InternalError(
                        crate::error::InternalError::UnknownRequestId,
                    ),
                    drained: start.sinks,
                },
            }
            &&& state.refusal(later_id) == Some(crate::error::ErrorView::TransactionIsClosed)
            &&& state.on_frame(later_id, later_kind) == (state, RoutingView::<S>::Ignored)
        }),
{
}

/// An acknowledged commit closes the transaction: the sink of the commit is
/// completed, the other sinks end with `TransactionIsClosed`, and no request
/// can be issued any more.
pub proof fn lemma_commit_closes<S>(
    start: StreamView<S>,
    commit: SinkView<S>,
    later_id: Seq<u8>,
)
    requires
        start.wf(),
        start.lifecycle is Open,
        start.lifecycle_refusal(commit.id) is None,
        commit.kind == SinkKind::Single,
    ensures
        ({
            let committing = start.installed(commit).in_lifecycle(
                Lifecycle::Committing,
                commit.id,
            );
            let (state, routing) = committing.on_frame(commit.id, FrameKind::Res);
            &&& state.lifecycle is Closed
            &&& state.sinks.len() == 0
            &&& routing == RoutingView::Complete {
                sink: commit,
                teardown: Some(
                    TeardownView {
                        error: crate::error::ErrorView::TransactionIsClosed,
                        drained: start.sinks,
                    },
                ),
            }
            &&& state.refusal(later_id) == Some(crate::error::ErrorView::TransactionIsClosed)
        }),
{
    let committing = start.installed(commit).in_lifecycle(Lifecycle::Committing, commit.id);
    let n = start.sinks.len() as int;
    lemma_find(start.sinks, commit.id);
    crate::transaction::lemma_position(committing.sinks, commit.id, 0);
    let at = crate::transaction::position(committing.sinks, commit.id, 0);
    assert(committing.sinks[n] == commit);
    if at < n {
        assert(committing.sinks[at] == start.sinks[at]);
    }
    assert(at == n);
    assert(committing.sinks.remove(at) =~= start.sinks);
}

} // verus!
