//! The tick protocol: what the harness does with an observation, with the
//! action an agent decided on, and with the end of a training update. The
//! caller performs the agent's work between these calls; the orchestrator
//! decides what is due next and never has two agent calls open at once.

use crate::buffer::{batch_of, samples, BufferPhase, ExperienceBuffer, TrainingSample};
use crate::counter::{CounterModel, EpisodeCounter};
use crate::environment::{ActionState, Environment, EnvironmentState};
use crate::error::GymError;
use crate::reset::{EntityScope, ResetEvent, ResetModel, ResetState, ResetStateMachine};
use crate::reward::{
    episodes_ended, lemma_episodes_at_most_entries, total_reward, EntryModel, EpochSummary,
    HistoryEntry,
};
use vstd::prelude::*;

verus! {

/// What the agent is doing on behalf of the orchestrator.
#[derive(Clone, Copy, Debug, PartialEq, Eq, Structural)]
pub enum AgentPhase {
    /// No call into the agent is open.
    Idle,
    /// A decision was asked for and has not come back.
    Deciding,
    /// A batch was handed out for training and the training has not ended.
    Training,
}

/// The start or the end of a call into the agent.
#[derive(Clone, Copy, Debug, PartialEq, Eq, Structural)]
pub enum AgentCall {
    DecideStarted,
    DecideReturned,
    TrainStarted,
    TrainReturned,
}

/// The phase after `call`, or `None` where the protocol does not allow the
/// call in `phase`.
pub open spec fn phase_after(phase: AgentPhase, call: AgentCall) -> Option<AgentPhase> {
    match (phase, call) {
        (AgentPhase::Idle, AgentCall::DecideStarted) => Some(AgentPhase::Deciding),
        (AgentPhase::Deciding, AgentCall::DecideReturned) => Some(AgentPhase::Idle),
        (AgentPhase::Idle, AgentCall::TrainStarted) => Some(AgentPhase::Training),
        (AgentPhase::Training, AgentCall::TrainReturned) => Some(AgentPhase::Idle),
        _ => None,
    }
}

/// The phase that a history of calls leads to from `Idle`, or `None` where
/// the protocol does not allow the history.
pub open spec fn phase_of_calls(calls: Seq<AgentCall>) -> Option<AgentPhase>
    decreases calls.len(),
{
    if calls.len() == 0 {
        Some(AgentPhase::Idle)
    } else {
        match phase_of_calls(calls.drop_last()) {
            Some(phase) => phase_after(phase, calls.last()),
            None => None,
        }
    }
}

/// Whether `call` opens a call into the agent.
pub open spec fn is_start(call: AgentCall) -> bool {
    call == AgentCall::DecideStarted || call == AgentCall::TrainStarted
}

/// The number of calls into the agent that a history leaves open.
pub open spec fn in_flight(calls: Seq<AgentCall>) -> int
    decreases calls.len(),
{
    if calls.len() == 0 {
        0
    } else if is_start(calls.last()) {
        in_flight(calls.drop_last()) + 1
    } else {
        in_flight(calls.drop_last()) - 1
    }
}

/// What a tick starts with.
#[derive(Clone, Copy, Debug, PartialEq, Eq, Structural)]
pub enum TickStart {
    /// The observation is recorded; the agent has to decide on an action.
    Decide,
    /// The configured number of epochs has been run: the loop stops.
    Finished,
    /// The environment is loading or resetting: no decision this tick.
    NotPlaying,
}

/// What a tick ends with.
#[derive(Debug)]
pub struct TickOutcome<T> {
    /// The episode ended on this tick and the environment has entered
    /// `Resetting`: its entities are due for destruction.
    pub reset_requested: bool,
    /// The batch to train the agent on, when this tick crossed the flush
    /// threshold.
    pub train: Option<Vec<TrainingSample<T>>>,
    /// What the epoch amounted to, when this tick ended it.
    pub summary: Option<EpochSummary>,
}

/// The harness around one environment and one agent.
pub struct Orchestrator<T> {
    pub env: Environment,
    pub state: EnvironmentState<T>,
    pub counter: EpisodeCounter,
    pub buffer: ExperienceBuffer<T>,
    pub reset: ResetStateMachine,
    pub phase: AgentPhase,
    /// Every start and end of a call into the agent so far.
    pub calls: Ghost<Seq<AgentCall>>,
}

impl<T> Orchestrator<T> {
    /// The parts agree with each other: the buffer holds one entry per step
    /// of the current epoch, the episodes counted are the entries that end
    /// one, the recorded calls follow the protocol and lead to the current
    /// phase, and the buffer is flushing exactly while the agent trains.
    pub open spec fn wf(&self) -> bool {
        &&& self.state.wf(&self.env)
        &&& self.counter.wf()
        &&& self.buffer.wf()
        &&& self.buffer@.len() == self.counter.step
        &&& episodes_ended(self.buffer@) == self.counter.episode
        &&& phase_of_calls(self.calls@) == Some(self.phase)
        &&& (self.phase == AgentPhase::Training <==> self.buffer.phase_of()
            == BufferPhase::Flushing)
        &&& (self.phase == AgentPhase::Deciding ==> !self.counter@.finished())
    }

    /// What a tick starts with, given the length of the new observation.
    pub open spec fn tick_start(&self, observed: nat) -> Result<TickStart, GymError> {
        if self.counter@.finished() {
            Ok(TickStart::Finished)
        } else if self.reset@.state != ResetState::Playing {
            Ok(TickStart::NotPlaying)
        } else if observed != self.env.observation_space {
            Err(GymError::InvalidObservationShape)
        } else {
            Ok(TickStart::Decide)
        }
    }

    /// The entry that a decision on `action` records.
    pub open spec fn entry_for(&self, action: usize) -> EntryModel<T> {
        EntryModel {
            observation: self.state.observation@,
            action,
            reward: self.state.reward as int,
            done: self.state.done,
        }
    }

    /// The counter once the tick's episode end, if any, is counted, and
    /// before the tick itself is.
    pub open spec fn counted(&self) -> CounterModel {
        if self.state.done {
            self.counter@.end_episode()
        } else {
            self.counter@
        }
    }

    /// The reset machine once the tick's episode end, if any, is reported.
    pub open spec fn reset_after_tick(&self) -> ResetModel {
        if self.state.done {
            self.reset@.report(ResetEvent::EpisodeEnded)
        } else {
            self.reset@
        }
    }
}

/// A copy of `source` with the same elements in the same order.
fn copy_of<T: Copy>(source: &Vec<T>) -> (copy: Vec<T>)
    ensures
        copy@ == source@,
{
    let mut copy: Vec<T> = Vec::new();
    let mut i: usize = 0;
    while i < source.len()
        invariant
            i <= source@.len(),
            copy@ == source@.subrange(0, i as int),
        decreases source@.len() - i,
    {
        copy.push(source[i]);
        assert(copy@ =~= source@.subrange(0, i + 1));
        i = i + 1;
    }
    assert(copy@ =~= source@);
    copy
}

impl<T: Copy> Orchestrator<T> {
    /// A harness before the first tick: a fresh counter, an empty buffer, an
    /// environment in `Loading` that owns one entity per element of `scopes`,
    /// and an observation filled with `fill`.
    pub fn new(
        env: Environment,
        scopes: &Vec<EntityScope>,
        step_max: usize,
        epoch_max: usize,
        fill: T,
    ) -> (harness: Orchestrator<T>)
        ensures
            harness.wf(),
            harness.env == env,
            harness.state.observation@ == Seq::new(env.observation_space as nat, |i: int| fill),
            harness.state.action == ActionState::Pending,
            harness.state.reward == 0,
            !harness.state.done,
            harness.counter@ == CounterModel::fresh(step_max as nat, epoch_max as nat),
            harness.buffer@ == Seq::<EntryModel<T>>::empty(),
            harness.reset@ == ResetModel::initial(scopes@),
            harness.phase == AgentPhase::Idle,
            harness.calls@ == Seq::<AgentCall>::empty(),
    {
        Orchestrator {
            env,
            state: env.initial_state(fill),
            counter: EpisodeCounter::new(step_max, epoch_max),
            buffer: ExperienceBuffer::new(),
            reset: ResetStateMachine::new(scopes),
            phase: AgentPhase::Idle,
            calls: Ghost(Seq::empty()),
        }
    }

    /// Starts a tick with what the environment wrote at the end of the last
    /// one. Where the result is `Decide`, the state holds the new
    /// observation and the agent is to be asked for an action; in every
    /// other case nothing has changed.
    pub fn begin_tick(&mut self, observation: Vec<T>, reward: i64, done: bool) -> (result: Result<
        TickStart,
        GymError,
    >)
        requires
            old(self).wf(),
            old(self).phase == AgentPhase::Idle,
        ensures
            final(self).wf(),
            result == old(self).tick_start(observation@.len()),
            result == Ok::<TickStart, GymError>(TickStart::Decide) ==> {
                &&& final(self).state == (EnvironmentState {
                    action: old(self).state.action,
                    observation,
                    reward,
                    done,
                })
                &&& final(self).phase == AgentPhase::Deciding
                &&& final(self).calls@ == old(self).calls@.push(AgentCall::DecideStarted)
                &&& final(self).env == old(self).env
                &&& final(self).counter == old(self).counter
                &&& final(self).buffer == old(self).buffer
                &&& final(self).reset == old(self).reset
            },
            result != Ok::<TickStart, GymError>(TickStart::Decide) ==> *final(self) == *old(self),
    {
        if self.counter.is_finished() {
            return Ok(TickStart::Finished);
        }
        if self.reset.state() != ResetState::Playing {
            return Ok(TickStart::NotPlaying);
        }
        match self.state.observe(&self.env, observation, reward, done) {
            Err(error) => Err(error),
            Ok(()) => {
                self.phase = AgentPhase::Deciding;
                self.calls = Ghost(self.calls@.push(AgentCall::DecideStarted));
                assert(self.calls@.drop_last() =~= old(self).calls@);
                Ok(TickStart::Decide)
            },
        }
    }

    /// Ends a tick with the action the agent decided on. The action is
    /// written for the environment to apply, the decision is recorded, an
    /// episode end is counted and reported before the tick itself is
    /// counted, and where the tick crosses the flush threshold everything
    /// recorded, this tick included, is handed out as a training batch. An
    /// action outside the action space is refused and changes nothing.
    pub fn complete_decision(&mut self, action: usize) -> (result: Result<TickOutcome<T>, GymError>)
        requires
            old(self).wf(),
            old(self).phase == AgentPhase::Deciding,
        ensures
            final(self).wf(),
            !old(self).env.admits(action) ==> result is Err && result->Err_0
                == GymError::InvalidAction && *final(self) == *old(self),
            old(self).env.admits(action) ==> result is Ok && {
                let outcome = result->Ok_0;
                let recorded = old(self).buffer@.push(old(self).entry_for(action));
                let flush = old(self).counted().flush_due();
                &&& final(self).env == old(self).env
                &&& final(self).state == (EnvironmentState {
                    action: ActionState::Decided(action),
                    ..old(self).state
                })
                &&& final(self).counter@ == old(self).counted().advance()
                &&& final(self).reset@ == old(self).reset_after_tick()
                &&& outcome.reset_requested == (old(self).state.done && old(self).reset@.state
                    == ResetState::Playing)
                &&& flush ==> {
                    &&& outcome.summary == Some(
                        EpochSummary {
                            epoch: old(self).counter.epoch,
                            episodes: old(self).counted().episode as usize,
                            total_reward: total_reward(recorded) as i128,
                        },
                    )
                    &&& outcome.summary->0.total_reward == total_reward(recorded)
                    &&& outcome.train is Some
                    &&& samples(outcome.train->0@) == batch_of(recorded)
                    &&& final(self).buffer@.len() == 0
                    &&& final(self).phase == AgentPhase::Training
                    &&& final(self).calls@ == old(self).calls@.push(
                        AgentCall::DecideReturned,
                    ).push(AgentCall::TrainStarted)
                }
                &&& !flush ==> {
                    &&& outcome.summary is None
                    &&& outcome.train is None
                    &&& final(self).buffer@ == recorded
                    &&& final(self).phase == AgentPhase::Idle
                    &&& final(self).calls@ == old(self).calls@.push(AgentCall::DecideReturned)
                }
            },
    {
        match self.state.decide(&self.env, action) {
            Err(error) => {
                return Err(error);
            },
            Ok(()) => {},
        }
        let entry = HistoryEntry {
            observation: copy_of(&self.state.observation),
            action,
            reward: self.state.reward,
            done: self.state.done,
        };
        assert(entry@ == old(self).entry_for(action));
        let ghost recorded = old(self).buffer@.push(entry@);
        proof {
            lemma_episodes_at_most_entries(old(self).buffer@);
            assert(recorded.drop_last() =~= old(self).buffer@);
        }
        self.buffer.append(entry);
        // One entry per counted step: the buffer's length is a machine word,
        // so counting this tick and its episode end cannot overflow.
        let _recorded: usize = self.buffer.len();
        let ghost returned = old(self).calls@.push(AgentCall::DecideReturned);
        assert(returned.drop_last() =~= old(self).calls@);
        assert(phase_of_calls(returned) == Some(AgentPhase::Idle));
        let mut reset_requested = false;
        if self.state.done {
            self.counter.record_episode_end();
            reset_requested = self.reset.request_reset();
        }
        let flush_due = self.counter.advance_step();
        if flush_due {
            let summary = self.buffer.summary(self.counter.epoch - 1);
            let train = self.buffer.flush();
            self.phase = AgentPhase::Training;
            self.calls = Ghost(returned.push(AgentCall::TrainStarted));
            assert(self.calls@.drop_last() =~= returned);
            Ok(TickOutcome { reset_requested, train, summary: Some(summary) })
        } else {
            self.phase = AgentPhase::Idle;
            self.calls = Ghost(returned);
            Ok(TickOutcome { reset_requested, train: None, summary: None })
        }
    }

    /// Reports the training on the batch last handed out as complete: the
    /// buffer accumulates again and the next tick may start.
    pub fn complete_training(&mut self)
        requires
            old(self).wf(),
            old(self).phase == AgentPhase::Training,
        ensures
            final(self).wf(),
            final(self).phase == AgentPhase::Idle,
            final(self).calls@ == old(self).calls@.push(AgentCall::TrainReturned),
            final(self).buffer@ == old(self).buffer@,
            final(self).buffer.phase_of() == BufferPhase::Accumulating,
            final(self).env == old(self).env,
            final(self).state == old(self).state,
            final(self).counter == old(self).counter,
            final(self).reset == old(self).reset,
    {
        self.buffer.finish_flush();
        self.phase = AgentPhase::Idle;
        self.calls = Ghost(self.calls@.push(AgentCall::TrainReturned));
        assert(self.calls@.drop_last() =~= old(self).calls@);
    }
}


/// A history that follows the protocol leaves no call open when it ends in
/// `Idle`, and exactly one otherwise.
pub proof fn lemma_in_flight_matches_phase(calls: Seq<AgentCall>)
    requires
        phase_of_calls(calls) is Some,
    ensures
        in_flight(calls) == if phase_of_calls(calls) == Some(AgentPhase::Idle) {
            0int
        } else {
            1int
        },
    decreases calls.len(),
{
    if calls.len() > 0 {
        lemma_in_flight_matches_phase(calls.drop_last());
    }
}

/// Every beginning of a history that follows the protocol follows it too.
pub proof fn lemma_prefix_follows_protocol(calls: Seq<AgentCall>, k: int)
    requires
        phase_of_calls(calls) is Some,
        0 <= k <= calls.len(),
    ensures
        phase_of_calls(calls.subrange(0, k)) is Some,
    decreases calls.len(),
{
    if k == calls.len() {
        assert(calls.subrange(0, k) =~= calls);
    } else {
        lemma_prefix_follows_protocol(calls.drop_last(), k);
        assert(calls.drop_last().subrange(0, k) =~= calls.subrange(0, k));
    }
}

/// Calls into the agent never overlap: at every point of a history that
/// follows the protocol at most one call is open, and a call starts only
/// when none is.
pub proof fn law_agent_calls_never_overlap(calls: Seq<AgentCall>, k: int)
    requires
        phase_of_calls(calls) is Some,
        0 <= k <= calls.len(),
    ensures
        0 <= in_flight(calls.subrange(0, k)) <= 1,
        k < calls.len() && is_start(calls[k]) ==> in_flight(calls.subrange(0, k)) == 0,
{
    lemma_prefix_follows_protocol(calls, k);
    lemma_in_flight_matches_phase(calls.subrange(0, k));
    if k < calls.len() {
        lemma_prefix_follows_protocol(calls, k + 1);
        let longer = calls.subrange(0, k + 1);
        assert(longer.drop_last() =~= calls.subrange(0, k));
        assert(longer.last() == calls[k]);
    }
}

/// The calls that a well-formed harness has made into its agent never
/// overlapped, whatever ticks led to it.
pub proof fn law_harness_calls_never_overlap<T>(harness: Orchestrator<T>, k: int)
    requires
        harness.wf(),
        0 <= k <= harness.calls@.len(),
    ensures
        0 <= in_flight(harness.calls@.subrange(0, k)) <= 1,
        k < harness.calls@.len() && is_start(harness.calls@[k]) ==> in_flight(
            harness.calls@.subrange(0, k),
        ) == 0,
        in_flight(harness.calls@) == if harness.phase == AgentPhase::Idle {
            0int
        } else {
            1int
        },
{
    law_agent_calls_never_overlap(harness.calls@, k);
    lemma_in_flight_matches_phase(harness.calls@);
}


/// A batch holds one whole epoch: the tick that crosses the flush threshold
/// hands out `step_max + 1` entries, the one it records included.
pub proof fn law_batch_holds_one_epoch<T>(harness: Orchestrator<T>, action: usize)
    requires
        harness.wf(),
        harness.counted().flush_due(),
    ensures
        harness.buffer@.push(harness.entry_for(action)).len() == harness.counter.step_max + 1,
        batch_of(harness.buffer@.push(harness.entry_for(action))).len()
            == harness.counter.step_max + 1,
{
}

} // verus!
