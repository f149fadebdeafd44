//! Orchestration core of a reinforcement-learning harness: the step, episode
//! and epoch counters, reward-to-go, the experience buffer, the reset state
//! machine of an environment, and the tick protocol that ties them to an agent.

pub mod config;
pub mod counter;
pub mod environment;
pub mod error;
pub mod generation;
pub mod helpers;
pub mod orchestrator;
pub mod buffer;
pub mod reset;
pub mod reward;
pub mod scoring;
pub mod selection;
