//! Step, episode and epoch counters, and the rule that decides when the
//! collected experience is due for a training flush.

use vstd::prelude::*;

verus! {

/// Mathematical model of an [`EpisodeCounter`]: the same five numbers,
/// unbounded.
pub struct CounterModel {
    pub epoch: nat,
    pub epoch_max: nat,
    pub episode: nat,
    pub step: nat,
    pub step_max: nat,
}

impl CounterModel {
    /// The counter before any tick: nothing counted yet.
    pub open spec fn fresh(step_max: nat, epoch_max: nat) -> CounterModel {
        CounterModel { epoch: 0, epoch_max, episode: 0, step: 0, step_max }
    }

    /// The step count never passes the flush threshold.
    pub open spec fn wf(self) -> bool {
        self.step <= self.step_max
    }

    /// Whether counting one more tick crosses the flush threshold.
    pub open spec fn flush_due(self) -> bool {
        self.step + 1 > self.step_max
    }

    /// The counter after one more tick. A tick that crosses the threshold
    /// starts the next epoch with `step` and `episode` back at zero.
    pub open spec fn advance(self) -> CounterModel {
        if self.flush_due() {
            CounterModel { epoch: self.epoch + 1, episode: 0, step: 0, ..self }
        } else {
            CounterModel { step: self.step + 1, ..self }
        }
    }

    /// The counter after one more finished episode.
    pub open spec fn end_episode(self) -> CounterModel {
        CounterModel { episode: self.episode + 1, ..self }
    }

    /// Whether the configured number of epochs has been run.
    pub open spec fn finished(self) -> bool {
        self.epoch >= self.epoch_max
    }

    /// The counter after `n` more ticks.
    pub open spec fn advance_n(self, n: nat) -> CounterModel
        decreases n,
    {
        if n == 0 {
            self
        } else {
            self.advance_n((n - 1) as nat).advance()
        }
    }

    /// How many of the next `n` ticks signal a flush.
    pub open spec fn flushes_in(self, n: nat) -> nat
        decreases n,
    {
        if n == 0 {
            0
        } else {
            let before = self.advance_n((n - 1) as nat);
            self.flushes_in((n - 1) as nat) + if before.flush_due() { 1nat } else { 0nat }
        }
    }
}

/// Progress of a run: ticks and finished episodes within the current epoch,
/// and the number of epochs flushed so far, with the limits that bound them.
#[derive(Clone, Copy, Debug, PartialEq, Eq, Structural)]
pub struct EpisodeCounter {
    pub epoch: usize,
    pub epoch_max: usize,
    pub episode: usize,
    pub step: usize,
    pub step_max: usize,
}

impl View for EpisodeCounter {
    type V = CounterModel;

    open spec fn view(&self) -> CounterModel {
        CounterModel {
            epoch: self.epoch as nat,
            epoch_max: self.epoch_max as nat,
            episode: self.episode as nat,
            step: self.step as nat,
            step_max: self.step_max as nat,
        }
    }
}

impl EpisodeCounter {
    /// Well-formedness: see [`CounterModel::wf`].
    pub open spec fn wf(&self) -> bool {
        self@.wf()
    }

    /// A fresh counter with the given limits.
    pub fn new(step_max: usize, epoch_max: usize) -> (counter: EpisodeCounter)
        ensures
            counter.wf(),
            counter@ == CounterModel::fresh(step_max as nat, epoch_max as nat),
    {
        EpisodeCounter { epoch: 0, epoch_max, episode: 0, step: 0, step_max }
    }

    /// Counts one tick. Returns `true` exactly when this tick crosses the
    /// flush threshold; the counter then already stands at the start of the
    /// next epoch, so the following tick does not signal the same crossing
    /// again.
    pub fn advance_step(&mut self) -> (flush_due: bool)
        requires
            old(self).wf(),
            old(self)@.flush_due() ==> old(self).epoch < usize::MAX,
        ensures
            final(self).wf(),
            flush_due == old(self)@.flush_due(),
            final(self)@ == old(self)@.advance(),
    {
        if self.step >= self.step_max {
            self.step = 0;
            self.episode = 0;
            self.epoch = self.epoch + 1;
            true
        } else {
            self.step = self.step + 1;
            false
        }
    }

    /// Counts one finished episode.
    pub fn record_episode_end(&mut self)
        requires
            old(self).episode < usize::MAX,
        ensures
            final(self)@ == old(self)@.end_episode(),
            final(self).wf() == old(self).wf(),
    {
        self.episode = self.episode + 1;
    }

    /// Whether the configured number of epochs has been run, which is when
    /// the surrounding loop stops.
    pub fn is_finished(&self) -> (finished: bool)
        ensures
            finished == self@.finished(),
    {
        self.epoch >= self.epoch_max
    }
}

impl Default for EpisodeCounter {
    /// Fifty epochs of five thousand ticks each.
    fn default() -> (counter: EpisodeCounter)
        ensures
            counter.wf(),
            counter@ == CounterModel::fresh(5000, 50),
    {
        EpisodeCounter::new(5000, 50)
    }
}


/// One thing that can happen to a counter: a tick, or the end of an episode.
#[derive(Clone, Copy, Debug, PartialEq, Eq, Structural)]
pub enum CounterOp {
    Tick,
    EpisodeEnd,
}

impl CounterModel {
    /// The counter after one operation.
    pub open spec fn apply(self, op: CounterOp) -> CounterModel {
        match op {
            CounterOp::Tick => self.advance(),
            CounterOp::EpisodeEnd => self.end_episode(),
        }
    }

    /// The counter after a sequence of operations, first to last.
    pub open spec fn run(self, ops: Seq<CounterOp>) -> CounterModel
        decreases ops.len(),
    {
        if ops.len() == 0 {
            self
        } else {
            self.run(ops.drop_last()).apply(ops.last())
        }
    }

    /// Whether some tick among `ops` crosses the flush threshold.
    pub open spec fn crosses(self, ops: Seq<CounterOp>) -> bool
        decreases ops.len(),
    {
        if ops.len() == 0 {
            false
        } else {
            self.crosses(ops.drop_last()) || (ops.last() == CounterOp::Tick && self.run(
                ops.drop_last(),
            ).flush_due())
        }
    }

    /// How many episode ends `ops` holds.
    pub open spec fn episode_ends(ops: Seq<CounterOp>) -> nat
        decreases ops.len(),
    {
        if ops.len() == 0 {
            0
        } else {
            Self::episode_ends(ops.drop_last()) + if ops.last() == CounterOp::EpisodeEnd {
                1nat
            } else {
                0nat
            }
        }
    }
}

/// Below the threshold, ticks only count up: after `n <= step_max - step`
/// ticks the step count has grown by `n`, nothing else has changed and no
/// flush was signalled.
pub proof fn lemma_ticks_below_threshold(c: CounterModel, n: nat)
    requires
        c.step + n <= c.step_max,
    ensures
        c.advance_n(n) == (CounterModel { step: c.step + n, ..c }),
        c.flushes_in(n) == 0,
    decreases n,
{
    if n > 0 {
        lemma_ticks_below_threshold(c, (n - 1) as nat);
    }
}

/// A fresh counter ticked `step_max + 1` times signals exactly one flush, on
/// the last of these ticks, and then stands at the start of the second epoch:
/// `epoch` is one, `episode` and `step` are zero.
pub proof fn law_first_flush(step_max: nat, epoch_max: nat)
    ensures
        CounterModel::fresh(step_max, epoch_max).flushes_in(step_max + 1) == 1,
        CounterModel::fresh(step_max, epoch_max).flushes_in(step_max) == 0,
        CounterModel::fresh(step_max, epoch_max).advance_n(step_max + 1) == (CounterModel {
            epoch: 1,
            ..CounterModel::fresh(step_max, epoch_max)
        }),
{
    let c = CounterModel::fresh(step_max, epoch_max);
    lemma_ticks_below_threshold(c, step_max);
    assert(c.advance_n(step_max + 1) == c.advance_n(step_max).advance());
    assert(c.flushes_in(step_max + 1) == c.flushes_in(step_max) + if c.advance_n(
        step_max,
    ).flush_due() {
        1nat
    } else {
        0nat
    });
}

/// A tick that signals a flush is never followed at once by another, unless
/// the threshold is zero and every tick is a crossing.
pub proof fn law_flush_signalled_once(c: CounterModel)
    requires
        c.wf(),
        c.flush_due(),
        c.step_max > 0,
    ensures
        !c.advance().flush_due(),
{
}

/// Between two flush boundaries every episode end is counted once: while no
/// tick of `ops` crosses the threshold, `episode` has grown by the number of
/// episode ends in `ops`, and the tick that then crosses it sets `episode`
/// back to zero.
pub proof fn law_episodes_between_flushes(c: CounterModel, ops: Seq<CounterOp>)
    requires
        !c.crosses(ops),
    ensures
        c.run(ops).episode == c.episode + CounterModel::episode_ends(ops),
        c.run(ops).epoch == c.epoch,
        c.run(ops).flush_due() ==> c.run(ops).advance().episode == 0,
    decreases ops.len(),
{
    if ops.len() > 0 {
        law_episodes_between_flushes(c, ops.drop_last());
    }
}

} // verus!
