//! The record an environment shares with the harness: the latest
//! observation, reward and termination flag, and the action decided for the
//! next tick.

use crate::error::GymError;
use vstd::prelude::*;

verus! {

/// The dimensions of an environment.
#[derive(Clone, Copy, Debug, PartialEq, Eq, Structural)]
pub struct Environment {
    /// The number of discrete actions; valid indices are below it.
    pub action_space: usize,
    /// The length of every observation.
    pub observation_space: usize,
}

/// How an environment is run.
#[derive(Clone, Copy, Debug, PartialEq, Eq, Structural)]
pub struct EnvironmentConfig {
    pub render: bool,
}

/// The signal that an episode has ended and the environment has to be reset.
#[derive(Clone, Copy, Debug, PartialEq, Eq, Structural)]
pub struct EnvironmentResetEvent;

/// The action slot of an environment.
#[derive(Clone, Copy, Debug, PartialEq, Eq, Structural)]
pub enum ActionState {
    /// No action is waiting to be applied.
    Pending,
    /// The action decided for the next tick, not applied yet.
    Decided(usize),
}

/// The state an environment shares with the harness. The environment writes
/// observation, reward and termination flag; the harness writes the action;
/// the environment takes it.
#[derive(Debug)]
pub struct EnvironmentState<T> {
    pub action: ActionState,
    pub observation: Vec<T>,
    /// Reward of the tick completed last, as a fixed-point number.
    pub reward: i64,
    pub done: bool,
}

impl Environment {
    /// Whether `action` is an index into the action space.
    pub open spec fn admits(&self, action: usize) -> bool {
        action < self.action_space
    }

    /// Whether `action` is an index into the action space.
    pub fn is_valid_action(&self, action: usize) -> (valid: bool)
        ensures
            valid == self.admits(action),
    {
        action < self.action_space
    }

    /// The state before the first tick: an observation of the declared length
    /// with `fill` everywhere, no reward, no action, not done.
    pub fn initial_state<T: Copy>(&self, fill: T) -> (state: EnvironmentState<T>)
        ensures
            state.wf(self),
            state.observation@ == Seq::new(self.observation_space as nat, |i: int| fill),
            state.action == ActionState::Pending,
            state.reward == 0,
            !state.done,
    {
        let mut observation: Vec<T> = Vec::new();
        let mut i: usize = 0;
        while i < self.observation_space
            invariant
                i <= self.observation_space,
                observation@ == Seq::new(i as nat, |j: int| fill),
            decreases self.observation_space - i,
        {
            observation.push(fill);
            assert(observation@ =~= Seq::new((i + 1) as nat, |j: int| fill));
            i = i + 1;
        }
        EnvironmentState { action: ActionState::Pending, observation, reward: 0, done: false }
    }
}

impl<T> EnvironmentState<T> {
    /// The observation has the length the environment declares, and a decided
    /// action lies in its action space.
    pub open spec fn wf(&self, env: &Environment) -> bool {
        &&& self.observation@.len() == env.observation_space
        &&& self.action_admitted(env)
    }

    /// A decided action lies in the action space of the environment.
    pub open spec fn action_admitted(&self, env: &Environment) -> bool {
        match self.action {
            ActionState::Pending => true,
            ActionState::Decided(action) => env.admits(action),
        }
    }

    /// Whether the action slot holds nothing that lies outside the action
    /// space of the environment.
    pub fn is_action_admitted(&self, env: &Environment) -> (admitted: bool)
        ensures
            admitted == self.action_admitted(env),
    {
        match self.action {
            ActionState::Pending => true,
            ActionState::Decided(action) => action < env.action_space,
        }
    }

    /// Records what the environment saw at the end of a tick. An observation
    /// of the wrong length is refused and nothing changes.
    pub fn observe(&mut self, env: &Environment, observation: Vec<T>, reward: i64, done: bool) -> (result:
        Result<(), GymError>)
        ensures
            observation@.len() == env.observation_space ==> result is Ok && *final(self) == (
            EnvironmentState { action: old(self).action, observation, reward, done }),
            observation@.len() != env.observation_space ==> result == Err::<(), GymError>(
                GymError::InvalidObservationShape,
            ) && *final(self) == *old(self),
    {
        if observation.len() != env.observation_space {
            return Err(GymError::InvalidObservationShape);
        }
        self.observation = observation;
        self.reward = reward;
        self.done = done;
        Ok(())
    }

    /// Writes the action decided for the next tick. An index outside the
    /// action space is refused and nothing changes.
    pub fn decide(&mut self, env: &Environment, action: usize) -> (result: Result<(), GymError>)
        ensures
            env.admits(action) ==> result is Ok && *final(self) == (EnvironmentState {
                action: ActionState::Decided(action),
                ..*old(self)
            }),
            !env.admits(action) ==> result == Err::<(), GymError>(GymError::InvalidAction)
                && *final(self) == *old(self),
    {
        if action >= env.action_space {
            return Err(GymError::InvalidAction);
        }
        self.action = ActionState::Decided(action);
        Ok(())
    }

    /// Hands the decided action to the environment and clears the slot, so
    /// that no action is applied twice; `None` when nothing was decided. An
    /// action outside the action space must never get this far: the caller
    /// stops the run before it does.
    pub fn take_action(&mut self, env: &Environment) -> (action: Option<usize>)
        requires
            old(self).action_admitted(env),
        ensures
            *final(self) == (EnvironmentState { action: ActionState::Pending, ..*old(self) }),
            action == match old(self).action {
                ActionState::Pending => None::<usize>,
                ActionState::Decided(decided) => Some(decided),
            },
            action is Some ==> env.admits(action->0),
    {
        let taken = self.action;
        self.action = ActionState::Pending;
        match taken {
            ActionState::Pending => None,
            ActionState::Decided(decided) => Some(decided),
        }
    }
}

/// The two records every environment starts with: its dimensions, and the
/// state before the first tick, with an observation of `observation_space`
/// elements that are all `fill`.
pub fn env_resources<T: Copy>(action_space: usize, observation_space: usize, fill: T) -> (resources:
    (Environment, EnvironmentState<T>))
    ensures
        resources.0 == (Environment { action_space, observation_space }),
        resources.1.wf(&resources.0),
        resources.1.observation@ == Seq::new(observation_space as nat, |i: int| fill),
        resources.1.action == ActionState::Pending,
        resources.1.reward == 0,
        !resources.1.done,
{
    let env = Environment { action_space, observation_space };
    let state = env.initial_state(fill);
    (env, state)
}

} // verus!
