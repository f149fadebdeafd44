//! The experience buffer: the entries recorded since the last flush, and the
//! flush that turns them into one training batch.

use crate::reward::{
    episodes_ended, return_at, reward_to_go, summarize, total_reward, trajectory, EntryModel,
    EpochSummary, HistoryEntry,
};
use vstd::prelude::*;

verus! {

/// One element of a training batch: an observation, the action taken on it
/// and the reward-to-go that followed.
#[derive(Debug)]
pub struct TrainingSample<T> {
    pub observation: Vec<T>,
    pub action: usize,
    pub reward_to_go: i128,
}

/// Mathematical model of a [`TrainingSample`].
pub struct SampleModel<T> {
    pub observation: Seq<T>,
    pub action: usize,
    pub reward_to_go: int,
}

impl<T> View for TrainingSample<T> {
    type V = SampleModel<T>;

    open spec fn view(&self) -> SampleModel<T> {
        SampleModel {
            observation: self.observation@,
            action: self.action,
            reward_to_go: self.reward_to_go as int,
        }
    }
}

/// The samples that a batch holds.
pub open spec fn samples<T>(batch: Seq<TrainingSample<T>>) -> Seq<SampleModel<T>> {
    Seq::new(batch.len(), |i: int| batch[i]@)
}

/// The sample made from entry `i` of a trajectory.
pub open spec fn sample_at<T>(entries: Seq<EntryModel<T>>, i: int) -> SampleModel<T> {
    SampleModel {
        observation: entries[i].observation,
        action: entries[i].action,
        reward_to_go: return_at(entries, i),
    }
}

/// The batch made from a whole trajectory: one sample per entry, in order.
pub open spec fn batch_of<T>(entries: Seq<EntryModel<T>>) -> Seq<SampleModel<T>> {
    Seq::new(entries.len(), |i: int| sample_at(entries, i))
}

/// Where a buffer stands in its cycle.
#[derive(Clone, Copy, Debug, PartialEq, Eq, Structural)]
pub enum BufferPhase {
    /// Entries may be appended.
    Accumulating,
    /// A batch has been handed out and its training has not been reported
    /// as complete.
    Flushing,
}

/// The ordered entries collected since the last flush.
pub struct ExperienceBuffer<T> {
    entries: Vec<HistoryEntry<T>>,
    phase: BufferPhase,
}

impl<T> View for ExperienceBuffer<T> {
    type V = Seq<EntryModel<T>>;

    closed spec fn view(&self) -> Seq<EntryModel<T>> {
        trajectory(self.entries@)
    }
}

impl<T> ExperienceBuffer<T> {
    /// The phase of the buffer.
    pub closed spec fn phase_of(&self) -> BufferPhase {
        self.phase
    }

    /// While a batch is out for training the buffer holds nothing.
    pub open spec fn wf(&self) -> bool {
        self.phase_of() == BufferPhase::Flushing ==> self@.len() == 0
    }

    /// An empty buffer, ready to accumulate.
    pub fn new() -> (buffer: ExperienceBuffer<T>)
        ensures
            buffer.wf(),
            buffer@ == Seq::<EntryModel<T>>::empty(),
            buffer.phase_of() == BufferPhase::Accumulating,
    {
        let buffer = ExperienceBuffer { entries: Vec::new(), phase: BufferPhase::Accumulating };
        assert(buffer@ =~= Seq::<EntryModel<T>>::empty());
        buffer
    }

    /// The phase of the buffer.
    pub fn phase(&self) -> (phase: BufferPhase)
        ensures
            phase == self.phase_of(),
    {
        self.phase
    }

    /// The number of entries held.
    pub fn len(&self) -> (len: usize)
        ensures
            len == self@.len(),
    {
        self.entries.len()
    }

    /// Whether no entry is held.
    pub fn is_empty(&self) -> (empty: bool)
        ensures
            empty == (self@.len() == 0),
    {
        self.entries.len() == 0
    }

    /// The entries held, oldest first.
    pub fn entries(&self) -> (entries: &Vec<HistoryEntry<T>>)
        ensures
            trajectory(entries@) == self@,
    {
        &self.entries
    }

    /// Sums up what is held, as the record of epoch `epoch`.
    pub fn summary(&self, epoch: usize) -> (summary: EpochSummary)
        ensures
            summary == (EpochSummary {
                epoch,
                episodes: episodes_ended(self@) as usize,
                total_reward: total_reward(self@) as i128,
            }),
            summary.episodes == episodes_ended(self@),
            summary.total_reward == total_reward(self@),
    {
        summarize(&self.entries, epoch)
    }

    /// Adds `entry` as the newest one.
    pub fn append(&mut self, entry: HistoryEntry<T>)
        requires
            old(self).phase_of() == BufferPhase::Accumulating,
        ensures
            final(self)@ == old(self)@.push(entry@),
            final(self).phase_of() == BufferPhase::Accumulating,
            final(self).wf(),
    {
        self.entries.push(entry);
        assert(self@ =~= old(self)@.push(entry@));
    }

    /// Hands out everything collected as one training batch and leaves the
    /// buffer empty and `Flushing` until [`Self::finish_flush`] reports the
    /// training as complete. On an empty buffer nothing happens: there is no
    /// batch, nothing to train on, and the buffer keeps accumulating.
    pub fn flush(&mut self) -> (batch: Option<Vec<TrainingSample<T>>>)
        requires
            old(self).phase_of() == BufferPhase::Accumulating,
        ensures
            final(self).wf(),
            final(self)@.len() == 0,
            old(self)@.len() == 0 ==> batch is None && final(self).phase_of()
                == BufferPhase::Accumulating,
            old(self)@.len() > 0 ==> batch is Some && samples(batch->0@) == batch_of(old(self)@)
                && final(self).phase_of() == BufferPhase::Flushing,
    {
        if self.entries.len() == 0 {
            return None;
        }
        let gains: Vec<i128> = reward_to_go(&self.entries);
        let mut taken: Vec<HistoryEntry<T>> = Vec::new();
        std::mem::swap(&mut self.entries, &mut taken);
        self.phase = BufferPhase::Flushing;
        let batch = make_batch(taken, gains);
        Some(batch)
    }

    /// Reports the training on the batch last handed out as complete: the
    /// buffer accumulates again.
    pub fn finish_flush(&mut self)
        requires
            old(self).wf(),
        ensures
            final(self).wf(),
            final(self)@ == old(self)@,
            final(self).phase_of() == BufferPhase::Accumulating,
    {
        self.phase = BufferPhase::Accumulating;
    }
}

/// Pairs each entry with its reward-to-go, keeping the order.
fn make_batch<T>(entries: Vec<HistoryEntry<T>>, gains: Vec<i128>) -> (batch: Vec<
    TrainingSample<T>,
>)
    requires
        gains@.len() == entries@.len(),
        forall|i: int|
            0 <= i < entries@.len() ==> gains@[i] as int == return_at(trajectory(entries@), i),
    ensures
        samples(batch@) == batch_of(trajectory(entries@)),
{
    let ghost all = trajectory(entries@);
    let n: usize = entries.len();
    let mut rest = entries;
    let mut backwards: Vec<TrainingSample<T>> = Vec::new();
    while rest.len() > 0
        invariant
            n == all.len(),
            gains@.len() == n,
            forall|i: int| 0 <= i < n ==> gains@[i] as int == return_at(all, i),
            rest@.len() <= n,
            forall|i: int| 0 <= i < rest@.len() ==> rest@[i]@ == all[i],
            backwards@.len() == n - rest@.len(),
            forall|j: int|
                0 <= j < backwards@.len() ==> backwards@[j]@ == sample_at(all, n - 1 - j),
        decreases rest@.len(),
    {
        let i: usize = rest.len() - 1;
        let entry = rest.pop().unwrap();
        let sample = TrainingSample {
            observation: entry.observation,
            action: entry.action,
            reward_to_go: gains[i],
        };
        assert(entry@ == all[i as int]);
        assert(sample@ == sample_at(all, i as int));
        backwards.push(sample);
    }
    let mut batch: Vec<TrainingSample<T>> = Vec::new();
    while backwards.len() > 0
        invariant
            backwards@.len() <= n,
            n == all.len(),
            batch@.len() == n - backwards@.len(),
            forall|j: int|
                0 <= j < backwards@.len() ==> backwards@[j]@ == sample_at(all, n - 1 - j),
            forall|i: int| 0 <= i < batch@.len() ==> batch@[i]@ == sample_at(all, i),
        decreases backwards@.len(),
    {
        let sample = backwards.pop().unwrap();
        batch.push(sample);
    }
    assert(samples(batch@) =~= batch_of(all));
    batch
}

} // verus!
