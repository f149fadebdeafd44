use gym_harness::config::{load_environment, AppState, Config, Controller, EnvironmentPlugin};
use gym_harness::helpers::V2;
use gym_harness::selection::{EnvironmentMode, EnvironmentType, ModelType};

#[test]
fn environments_are_selected_by_name() {
    assert_eq!(EnvironmentType::from_str("acrobot"), Ok(EnvironmentType::Acrobot));
    assert_eq!(EnvironmentType::from_str("cartpole"), Ok(EnvironmentType::CartPole));
    assert_eq!(EnvironmentType::from_str("mountaincar"), Ok(EnvironmentType::MountainCar));
    assert_eq!(EnvironmentType::from_str("pendulum"), Ok(EnvironmentType::Pendulum));
    assert_eq!(EnvironmentType::from_str("flappy"), Ok(EnvironmentType::Flappy));
    assert_eq!(EnvironmentType::from_str("breakout"), Ok(EnvironmentType::Breakout));
}

#[test]
fn environment_names_ignore_case() {
    assert_eq!(EnvironmentType::from_str("CartPole"), Ok(EnvironmentType::CartPole));
    assert_eq!(EnvironmentType::from_str("FLAPPY"), Ok(EnvironmentType::Flappy));
    assert_eq!(EnvironmentType::from_name("CartPole"), Err("No environment match!"));
}

#[test]
fn unknown_environment_is_refused() {
    assert_eq!(EnvironmentType::from_str("cart pole"), Err("No environment match!"));
    assert_eq!(EnvironmentType::from_str(""), Err("No environment match!"));
    assert_eq!(EnvironmentType::from_str("space_invaders"), Err("No environment match!"));
}

#[test]
fn models_are_selected_by_name() {
    assert_eq!(ModelType::from_str("pg"), Ok(ModelType::PolicyGradient));
    assert_eq!(ModelType::from_str("policy_gradient"), Ok(ModelType::PolicyGradient));
    assert_eq!(ModelType::from_str("Neat"), Ok(ModelType::Neat));
    assert_eq!(ModelType::from_name("Neat"), Err("no model match"));
    assert_eq!(ModelType::from_str("ppo"), Err("no model match"));
}

#[test]
fn environments_have_labels() {
    assert_eq!(EnvironmentType::Acrobot.label(), "Acrobot");
    assert_eq!(EnvironmentType::CartPole.label(), "Cart Pole");
    assert_eq!(EnvironmentType::MountainCar.label(), "Mountain Car");
    assert_eq!(EnvironmentType::Pendulum.label(), "Pendulum");
    assert_eq!(EnvironmentType::Flappy.label(), "Flappy");
    assert_eq!(EnvironmentType::Breakout.label(), "Breakout");
}

#[test]
fn each_environment_gets_its_options() {
    assert_eq!(
        load_environment(EnvironmentType::Acrobot, true, true),
        EnvironmentPlugin::Acrobot { render: true }
    );
    assert_eq!(
        load_environment(EnvironmentType::CartPole, false, true),
        EnvironmentPlugin::CartPole { human: true, render: false }
    );
    assert_eq!(
        load_environment(EnvironmentType::MountainCar, false, true),
        EnvironmentPlugin::MountainCar { render: false }
    );
    assert_eq!(
        load_environment(EnvironmentType::Pendulum, true, false),
        EnvironmentPlugin::Pendulum { render: true }
    );
    assert_eq!(
        load_environment(EnvironmentType::Flappy, true, false),
        EnvironmentPlugin::Flappy { render: true, human: false }
    );
    assert_eq!(
        load_environment(EnvironmentType::Breakout, false, true),
        EnvironmentPlugin::Breakout { render: false, human: true }
    );
    assert_eq!(
        load_environment(EnvironmentType::Breakout, false, true).kind(),
        EnvironmentType::Breakout
    );
}

#[test]
fn controllers_follow_the_options() {
    let cart = |human, render| EnvironmentPlugin::CartPole { human, render }.controller();
    assert_eq!(cart(true, true), Controller::Human);
    assert_eq!(cart(true, false), Controller::PolicyGradient);
    assert_eq!(cart(false, true), Controller::PolicyGradient);
    assert_eq!(
        EnvironmentPlugin::Breakout { render: false, human: true }.controller(),
        Controller::Human
    );
    assert_eq!(
        EnvironmentPlugin::Breakout { render: true, human: false }.controller(),
        Controller::Neat
    );
    assert_eq!(
        EnvironmentPlugin::Flappy { render: true, human: false }.controller(),
        Controller::NeatWithKeyboard
    );
    assert_eq!(
        EnvironmentPlugin::Flappy { render: false, human: true }.controller(),
        Controller::Neat
    );
    assert_eq!(EnvironmentPlugin::Acrobot { render: true }.controller(), Controller::Human);
    assert_eq!(EnvironmentPlugin::Pendulum { render: false }.controller(), Controller::Nobody);
    assert_eq!(EnvironmentPlugin::MountainCar { render: true }.controller(), Controller::Human);
}

#[test]
fn config_decides_what_starts() {
    let menu = Config {
        environment: None,
        model: ModelType::PolicyGradient,
        human: false,
        simulation: false,
    };
    assert!(menu.render());
    assert_eq!(menu.mode(), EnvironmentMode::Render);
    assert_eq!(menu.initial_state(), AppState::Menu);
    assert_eq!(menu.plugin(), None);
    assert_eq!(menu.window_title(), "Bevy Slyedoc Gym");
    let run = Config {
        environment: Some(EnvironmentType::CartPole),
        model: ModelType::PolicyGradient,
        human: true,
        simulation: true,
    };
    assert!(!run.render());
    assert_eq!(run.mode(), EnvironmentMode::Simulation);
    let person = Config { simulation: false, ..run };
    assert_eq!(person.mode(), EnvironmentMode::RenderHuman);
    assert_eq!(run.initial_state(), AppState::Environment(EnvironmentType::CartPole));
    assert_eq!(run.plugin(), Some(EnvironmentPlugin::CartPole { human: true, render: false }));
    assert_eq!(run.window_title(), "Cart Pole");
}

#[test]
fn grid_cells_are_counted() {
    assert_eq!(V2 { x: 6usize, y: 8usize }.cell_count(), Some(48));
    assert_eq!(V2 { x: 0usize, y: 8usize }.cell_count(), Some(0));
    assert_eq!(V2 { x: usize::MAX, y: 2usize }.cell_count(), None);
}

#[test]
fn names_parse_through_the_standard_trait() {
    assert_eq!("Breakout".parse::<EnvironmentType>(), Ok(EnvironmentType::Breakout));
    assert_eq!("PG".parse::<ModelType>(), Ok(ModelType::PolicyGradient));
    assert_eq!("nothing".parse::<EnvironmentType>(), Err("No environment match!"));
    assert_eq!("nothing".parse::<ModelType>(), Err("no model match"));
}

#[test]
fn cells_are_counted_column_by_column() {
    let grid = V2 { x: 6usize, y: 8usize };
    assert_eq!(grid.cell_of(0), (0, 0));
    assert_eq!(grid.cell_of(7), (0, 7));
    assert_eq!(grid.cell_of(8), (1, 0));
    assert_eq!(grid.cell_of(29), (3, 5));
    assert_eq!(grid.cell_of(47), (5, 7));
    assert_eq!(V2 { x: 1usize, y: 1usize }.cell_of(0), (0, 0));
}
