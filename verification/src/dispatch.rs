//! The dispatch buffer of a transaction: requests wait in it for the next
//! tick of the dispatch timer, or until enough of them have gathered, and
//! leave it together as one frame.

use vstd::prelude::*;

verus! {

/// The requests that wait to be sent, oldest first.
#[derive(Debug)]
pub struct Dispatcher<T> {
    buffer: Vec<T>,
    high_water: usize,
}

/// The mathematical value of a [`Dispatcher`].
pub struct DispatcherView<T> {
    pub buffer: Seq<T>,
    pub high_water: usize,
}

/// What happens to a dispatch buffer.
pub enum DispatchEvent<T> {
    /// A request is issued.
    Push(T),
    /// The dispatch timer ticks.
    Tick,
}

impl<T> DispatcherView<T> {
    /// What becomes of the buffer when a request is issued, and the batch
    /// that leaves it, if one does: the buffer is sent off with the request
    /// as soon as it holds `high_water` requests.
    pub open spec fn push(self, request: T) -> (DispatcherView<T>, Option<Seq<T>>) {
        let grown = self.buffer.push(request);
        if grown.len() >= self.high_water {
            (
                DispatcherView { buffer: Seq::empty(), high_water: self.high_water },
                Some(grown),
            )
        } else {
            (DispatcherView { buffer: grown, high_water: self.high_water }, None)
        }
    }

    /// What becomes of the buffer when the timer ticks, and the batch that
    /// leaves it, if one does: whatever waits is sent off.
    pub open spec fn tick(self) -> (DispatcherView<T>, Option<Seq<T>>) {
        if self.buffer.len() > 0 {
            (
                DispatcherView { buffer: Seq::empty(), high_water: self.high_water },
                Some(self.buffer),
            )
        } else {
            (self, None)
        }
    }

    /// One event.
    pub open spec fn step(self, event: DispatchEvent<T>) -> (DispatcherView<T>, Option<Seq<T>>) {
        match event {
            DispatchEvent::Push(request) => self.push(request),
            DispatchEvent::Tick => self.tick(),
        }
    }
}

/// The buffer after the events, and the batches that left it, in order.
pub open spec fn dispatch<T>(start: DispatcherView<T>, events: Seq<DispatchEvent<T>>) -> (
    DispatcherView<T>,
    Seq<Seq<T>>,
)
    decreases events.len(),
{
    if events.len() == 0 {
        (start, Seq::empty())
    } else {
        let (state, batches) = dispatch(start, events.drop_last());
        let (next, batch) = state.step(events.last());
        match batch {
            Some(batch) => (next, batches.push(batch)),
            None => (next, batches),
        }
    }
}

/// The requests that the events issue, in order.
pub open spec fn issued<T>(events: Seq<DispatchEvent<T>>) -> Seq<T>
    decreases events.len(),
{
    if events.len() == 0 {
        Seq::empty()
    } else {
        match events.last() {
            DispatchEvent::Push(request) => issued(events.drop_last()).push(request),
            DispatchEvent::Tick => issued(events.drop_last()),
        }
    }
}

/// The requests of the batches, batch after batch.
pub open spec fn flattened<T>(batches: Seq<Seq<T>>) -> Seq<T>
    decreases batches.len(),
{
    if batches.len() == 0 {
        Seq::empty()
    } else {
        flattened(batches.drop_last()) + batches.last()
    }
}

/// The dispatch buffer preserves the order of issue: the batches that have
/// left the buffer, one after the other, and then what still waits in it,
/// are the requests in the order in which they were issued. No batch is
/// empty.
pub proof fn lemma_dispatch_preserves_order<T>(
    start: DispatcherView<T>,
    events: Seq<DispatchEvent<T>>,
)
    requires
        start.buffer.len() == 0,
    ensures
        ({
            let (state, batches) = dispatch(start, events);
            &&& flattened(batches) + state.buffer == issued(events)
            &&& state.high_water == start.high_water
            &&& forall|i: int| 0 <= i < batches.len() ==> (#[trigger] batches[i]).len() > 0
        }),
    decreases events.len(),
{
    if events.len() == 0 {
        assert(flattened(Seq::<Seq<T>>::empty()) + start.buffer =~= Seq::<T>::empty());
    } else {
        lemma_dispatch_preserves_order(start, events.drop_last());
        let (state, batches) = dispatch(start, events.drop_last());
        let (next, batch) = state.step(events.last());
        match batch {
            Some(batch) => {
                let more = batches.push(batch);
                assert(more.drop_last() =~= batches);
                assert(flattened(more) + next.buffer =~= issued(events));
            },
            None => {
                assert(flattened(batches) + next.buffer =~= issued(events));
            },
        }
    }
}

impl<T> View for Dispatcher<T> {
    type V = DispatcherView<T>;

    closed spec fn view(&self) -> DispatcherView<T> {
        DispatcherView { buffer: self.buffer@, high_water: self.high_water }
    }
}

impl<T> Dispatcher<T> {
    /// An empty buffer that is sent off as soon as it holds `high_water`
    /// requests, and at each tick of the timer.
    pub fn new(high_water: usize) -> (dispatcher: Self)
        ensures
            dispatcher@ == (DispatcherView::<T> { buffer: Seq::empty(), high_water }),
    {
        Dispatcher { buffer: Vec::new(), high_water }
    }

    /// How many requests wait.
    pub fn len(&self) -> (count: usize)
        ensures
            count == self@.buffer.len(),
    {
        self.buffer.len()
    }

    fn take(&mut self) -> (batch: Vec<T>)
        ensures
            batch@ == old(self)@.buffer,
            final(self)@ == (DispatcherView::<T> {
                buffer: Seq::empty(),
                high_water: old(self)@.high_water,
            }),
    {
        let mut batch: Vec<T> = Vec::new();
        batch.append(&mut self.buffer);
        assert(batch@ =~= old(self)@.buffer);
        batch
    }

    /// Takes a request that was issued. It waits behind the earlier ones,
    /// unless the buffer is full with it: then all of them are handed back,
    /// oldest first, to be sent as one frame.
    pub fn push(&mut self, request: T) -> (batch: Option<Vec<T>>)
        ensures
            final(self)@ == old(self)@.push(request).0,
            match batch {
                Some(batch) => old(self)@.push(request).1 == Some(batch@),
                None => old(self)@.push(request).1 is None,
            },
    {
        self.buffer.push(request);
        if self.buffer.len() >= self.high_water {
            Some(self.take())
        } else {
            None
        }
    }

    /// Takes a tick of the dispatch timer: the requests that wait are
    /// handed back, oldest first, to be sent as one frame. Nothing is sent
    /// when nothing waits.
    pub fn on_tick(&mut self) -> (batch: Option<Vec<T>>)
        ensures
            final(self)@ == old(self)@.tick().0,
            match batch {
                Some(batch) => old(self)@.tick().1 == Some(batch@),
                None => old(self)@.tick().1 is None,
            },
    {
        if self.buffer.len() > 0 {
            Some(self.take())
        } else {
            None
        }
    }
}

} // verus!
