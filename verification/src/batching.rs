//! Buffering of sensor samples and their simulation results before they are
//! written to the store in batches.
use vstd::prelude::*;

verus! {

/// A batch is written once this many samples are waiting.
pub const BUFFER_FLUSH_SIZE: usize = 10;

/// Samples and simulation results waiting to be written, in arrival order.
pub struct SampleBuffer<S, D> {
    sensors: Vec<S>,
    dynamics: Vec<D>,
}

impl<S, D> View for SampleBuffer<S, D> {
    type V = (Seq<S>, Seq<D>);

    closed spec fn view(&self) -> (Seq<S>, Seq<D>) {
        (self.sensors@, self.dynamics@)
    }
}

impl<S, D> SampleBuffer<S, D> {
    pub fn new() -> (b: Self)
        ensures
            b@ == (Seq::<S>::empty(), Seq::<D>::empty()),
    {
        SampleBuffer { sensors: Vec::new(), dynamics: Vec::new() }
    }

    /// How many samples are waiting.
    pub fn pending(&self) -> (n: usize)
        ensures
            n == self@.0.len(),
    {
        self.sensors.len()
    }

    /// Queues a sample together with its simulation result.
    pub fn record(&mut self, sensor: S, dynamics: D)
        ensures
            final(self)@ == (old(self)@.0.push(sensor), old(self)@.1.push(dynamics)),
    {
        self.sensors.push(sensor);
        self.dynamics.push(dynamics);
    }

    fn take_all(&mut self) -> (batch: (Vec<S>, Vec<D>))
        ensures
            (batch.0@, batch.1@) == old(self)@,
            final(self)@ == (Seq::<S>::empty(), Seq::<D>::empty()),
    {
        let mut sensors: Vec<S> = Vec::new();
        let mut dynamics: Vec<D> = Vec::new();
        std::mem::swap(&mut sensors, &mut self.sensors);
        std::mem::swap(&mut dynamics, &mut self.dynamics);
        (sensors, dynamics)
    }

    /// Hands out everything waiting once `BUFFER_FLUSH_SIZE` samples have
    /// gathered; otherwise hands out nothing.
    pub fn take_if_full(&mut self) -> (batch: Option<(Vec<S>, Vec<D>)>)
        ensures
            old(self)@.0.len() >= BUFFER_FLUSH_SIZE ==> (batch matches Some(b) && (b.0@, b.1@)
                == old(self)@) && final(self)@ == (Seq::<S>::empty(), Seq::<D>::empty()),
            old(self)@.0.len() < BUFFER_FLUSH_SIZE ==> batch is None && final(self)@ == old(self)@,
    {
        if self.sensors.len() >= BUFFER_FLUSH_SIZE {
            Some(self.take_all())
        } else {
            None
        }
    }

    /// Hands out everything waiting, unless no sample is waiting.
    pub fn take_pending(&mut self) -> (batch: Option<(Vec<S>, Vec<D>)>)
        ensures
            old(self)@.0.len() > 0 ==> (batch matches Some(b) && (b.0@, b.1@) == old(self)@)
                && final(self)@ == (Seq::<S>::empty(), Seq::<D>::empty()),
            old(self)@.0.len() == 0 ==> batch is None && final(self)@ == old(self)@,
    {
        if self.sensors.len() == 0 {
            None
        } else {
            Some(self.take_all())
        }
    }
}

/// One thing that can happen to a buffer.
pub enum BufferStep<S, D> {
    Record(S, D),
    TakeIfFull,
    TakePending,
}

/// The buffer's contents after `steps`, starting from `start`, together
/// with the batches handed out on the way, in order.
pub open spec fn run_buffer<S, D>(start: (Seq<S>, Seq<D>), steps: Seq<BufferStep<S, D>>) -> (
    (Seq<S>, Seq<D>),
    Seq<(Seq<S>, Seq<D>)>,
)
    decreases steps.len(),
{
    if steps.len() == 0 {
        (start, Seq::empty())
    } else {
        let (state, batches) = run_buffer(start, steps.drop_last());
        match steps.last() {
            BufferStep::Record(s, d) => ((state.0.push(s), state.1.push(d)), batches),
            BufferStep::TakeIfFull => if state.0.len() >= BUFFER_FLUSH_SIZE {
                ((Seq::empty(), Seq::empty()), batches.push(state))
            } else {
                (state, batches)
            },
            BufferStep::TakePending => if state.0.len() > 0 {
                ((Seq::empty(), Seq::empty()), batches.push(state))
            } else {
                (state, batches)
            },
        }
    }
}

/// The samples of a list of batches, joined in order.
pub open spec fn joined_samples<S, D>(batches: Seq<(Seq<S>, Seq<D>)>) -> Seq<S>
    decreases batches.len(),
{
    if batches.len() == 0 {
        Seq::empty()
    } else {
        joined_samples(batches.drop_last()) + batches.last().0
    }
}

/// The simulation results of a list of batches, joined in order.
pub open spec fn joined_results<S, D>(batches: Seq<(Seq<S>, Seq<D>)>) -> Seq<D>
    decreases batches.len(),
{
    if batches.len() == 0 {
        Seq::empty()
    } else {
        joined_results(batches.drop_last()) + batches.last().1
    }
}

/// The samples and results recorded by `steps`, in order.
pub open spec fn recorded<S, D>(steps: Seq<BufferStep<S, D>>) -> (Seq<S>, Seq<D>)
    decreases steps.len(),
{
    if steps.len() == 0 {
        (Seq::empty(), Seq::empty())
    } else {
        let r = recorded(steps.drop_last());
        match steps.last() {
            BufferStep::Record(s, d) => (r.0.push(s), r.1.push(d)),
            _ => r,
        }
    }
}

/// Nothing is lost or written twice: starting from an empty buffer, the
/// batches handed out followed by what still waits are exactly the samples
/// and results recorded, in the order they were recorded; and samples and
/// results stay paired one to one.
pub proof fn lemma_buffer_conserves<S, D>(steps: Seq<BufferStep<S, D>>)
    ensures
        ({
            let (state, batches) = run_buffer((Seq::<S>::empty(), Seq::<D>::empty()), steps);
            &&& joined_samples(batches) + state.0 == recorded(steps).0
            &&& joined_results(batches) + state.1 == recorded(steps).1
            &&& state.0.len() == state.1.len()
            &&& forall|i: int| 0 <= i < batches.len() ==> (#[trigger] batches[i]).0.len() == batches[i].1.len()
        }),
    decreases steps.len(),
{
    if steps.len() > 0 {
        let prior = steps.drop_last();
        lemma_buffer_conserves(prior);
        let (state, batches) = run_buffer((Seq::<S>::empty(), Seq::<D>::empty()), prior);
        let (state2, batches2) = run_buffer((Seq::<S>::empty(), Seq::<D>::empty()), steps);
        match steps.last() {
            BufferStep::Record(s, d) => {
                assert(joined_samples(batches) + state.0.push(s) =~= (joined_samples(batches)
                    + state.0).push(s));
                assert(joined_results(batches) + state.1.push(d) =~= (joined_results(batches)
                    + state.1).push(d));
            },
            _ => {
                if batches2.len() > batches.len() {
                    assert(batches2.drop_last() =~= batches);
                    assert(joined_samples(batches2) + state2.0 =~= joined_samples(batches)
                        + state.0);
                    assert(joined_results(batches2) + state2.1 =~= joined_results(batches)
                        + state.1);
                    assert forall|i: int| 0 <= i < batches2.len() implies (#[trigger] batches2[i]).0.len()
                        == batches2[i].1.len() by {
                        if i < batches.len() {
                            assert(batches2[i] == batches[i]);
                        }
                    }
                }
            },
        }
    }
}

} // verus!
