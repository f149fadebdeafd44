use gym_harness::environment::{env_resources, ActionState, Environment, EnvironmentState};
use gym_harness::error::GymError;

#[test]
fn resources_start_with_a_blank_state() {
    let (env, state): (Environment, EnvironmentState<f32>) = env_resources(2, 4, 0.0);
    assert_eq!(env.action_space, 2);
    assert_eq!(env.observation_space, 4);
    assert_eq!(state.observation, vec![0.0, 0.0, 0.0, 0.0]);
    assert_eq!(state.action, ActionState::Pending);
    assert_eq!(state.reward, 0);
    assert!(!state.done);
}

#[test]
fn observation_of_wrong_length_is_refused() {
    let (env, mut state): (Environment, EnvironmentState<f32>) = env_resources(2, 3, 0.0);
    assert_eq!(
        state.observe(&env, vec![1.0, 2.0], 5, true),
        Err(GymError::InvalidObservationShape)
    );
    assert_eq!(state.observation, vec![0.0, 0.0, 0.0]);
    assert_eq!(state.reward, 0);
    assert!(!state.done);
    assert_eq!(state.observe(&env, vec![1.0, 2.0, 3.0], 5, true), Ok(()));
    assert_eq!(state.observation, vec![1.0, 2.0, 3.0]);
    assert_eq!(state.reward, 5);
    assert!(state.done);
}

#[test]
fn action_outside_the_space_is_refused() {
    let (env, mut state): (Environment, EnvironmentState<f32>) = env_resources(2, 1, 0.0);
    assert!(env.is_valid_action(1));
    assert!(!env.is_valid_action(2));
    assert_eq!(state.decide(&env, 2), Err(GymError::InvalidAction));
    assert_eq!(state.action, ActionState::Pending);
    assert_eq!(state.decide(&env, 1), Ok(()));
    assert_eq!(state.action, ActionState::Decided(1));
}

#[test]
fn taking_an_action_clears_it() {
    let (env, mut state): (Environment, EnvironmentState<f32>) = env_resources(2, 1, 0.0);
    assert_eq!(state.take_action(&env), None);
    state.decide(&env, 0).unwrap();
    assert!(state.is_action_admitted(&env));
    assert_eq!(state.take_action(&env), Some(0));
    assert_eq!(state.action, ActionState::Pending);
    assert_eq!(state.take_action(&env), None);
    state.decide(&env, 1).unwrap();
    assert_eq!(state.take_action(&env), Some(1));
}

#[test]
fn stale_invalid_action_is_told_apart() {
    let (env, mut state): (Environment, EnvironmentState<f32>) = env_resources(2, 1, 0.0);
    assert!(state.is_action_admitted(&env));
    state.action = ActionState::Decided(7);
    assert!(!state.is_action_admitted(&env));
    state.action = ActionState::Decided(1);
    assert!(state.is_action_admitted(&env));
}

#[test]
fn every_error_has_its_message() {
    assert_eq!(GymError::InvalidAction.message(), "Invalid action");
    assert_eq!(GymError::InvalidConversion.message(), "Invalid conversion");
    assert_eq!(GymError::WrongType.message(), "Wrong type");
    assert_eq!(GymError::WrongStepResult.message(), "Unable to parse step result");
    assert_eq!(GymError::InvalidObservationShape.message(), "Invalid observation shape");
    assert_eq!(GymError::EmptyBatch.message(), "Empty batch");
}
