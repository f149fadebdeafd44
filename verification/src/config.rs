//! What a run is configured with, and what follows from it: which part of
//! the program starts, whether anything is drawn, and who drives each
//! environment.

use crate::selection::{EnvironmentMode, EnvironmentType, ModelType};
use vstd::prelude::*;

verus! {

/// The options of a run.
#[derive(Clone, Copy, Debug, PartialEq, Eq, Structural)]
pub struct Config {
    /// The environment to start; the menu where none is given.
    pub environment: Option<EnvironmentType>,
    /// The model that drives the environment.
    pub model: ModelType,
    /// A person drives the environment in place of the model.
    pub human: bool,
    /// Run without drawing anything.
    pub simulation: bool,
}

/// The part of the program that is running.
#[derive(Clone, Copy, Debug, PartialEq, Eq, Hash, Structural)]
pub enum AppState {
    Loading,
    Menu,
    Environment(EnvironmentType),
}

/// Who decides on the actions of an environment.
#[derive(Clone, Copy, Debug, PartialEq, Eq, Structural)]
pub enum Controller {
    /// Nobody: the environment only runs its physics.
    Nobody,
    /// A person at the keyboard.
    Human,
    /// The policy-gradient model.
    PolicyGradient,
    /// The pool of evolved networks.
    Neat,
    /// The pool of evolved networks, with the keyboard able to override it.
    NeatWithKeyboard,
}

/// An environment together with the options it is started with.
#[derive(Clone, Copy, Debug, PartialEq, Eq, Structural)]
pub enum EnvironmentPlugin {
    Acrobot { render: bool },
    CartPole { human: bool, render: bool },
    MountainCar { render: bool },
    Pendulum { render: bool },
    Flappy { render: bool, human: bool },
    Breakout { render: bool, human: bool },
}

/// The plugin that starts `env`: each environment is handed the options it
/// knows, `render` always and `human` where a person can drive it.
pub open spec fn plugin_for(env: EnvironmentType, render: bool, human: bool) -> EnvironmentPlugin {
    match env {
        EnvironmentType::Acrobot => EnvironmentPlugin::Acrobot { render },
        EnvironmentType::CartPole => EnvironmentPlugin::CartPole { human, render },
        EnvironmentType::MountainCar => EnvironmentPlugin::MountainCar { render },
        EnvironmentType::Pendulum => EnvironmentPlugin::Pendulum { render },
        EnvironmentType::Flappy => EnvironmentPlugin::Flappy { render, human },
        EnvironmentType::Breakout => EnvironmentPlugin::Breakout { render, human },
    }
}

/// Chooses the plugin that starts `env` with the given options.
pub fn load_environment(env: EnvironmentType, render: bool, human: bool) -> (plugin:
    EnvironmentPlugin)
    ensures
        plugin == plugin_for(env, render, human),
{
    match env {
        EnvironmentType::Acrobot => EnvironmentPlugin::Acrobot { render },
        EnvironmentType::CartPole => EnvironmentPlugin::CartPole { human, render },
        EnvironmentType::MountainCar => EnvironmentPlugin::MountainCar { render },
        EnvironmentType::Pendulum => EnvironmentPlugin::Pendulum { render },
        EnvironmentType::Flappy => EnvironmentPlugin::Flappy { render, human },
        EnvironmentType::Breakout => EnvironmentPlugin::Breakout { render, human },
    }
}

impl EnvironmentPlugin {
    /// The environment that the plugin starts.
    pub open spec fn kind_of(&self) -> EnvironmentType {
        match self {
            EnvironmentPlugin::Acrobot { .. } => EnvironmentType::Acrobot,
            EnvironmentPlugin::CartPole { .. } => EnvironmentType::CartPole,
            EnvironmentPlugin::MountainCar { .. } => EnvironmentType::MountainCar,
            EnvironmentPlugin::Pendulum { .. } => EnvironmentType::Pendulum,
            EnvironmentPlugin::Flappy { .. } => EnvironmentType::Flappy,
            EnvironmentPlugin::Breakout { .. } => EnvironmentType::Breakout,
        }
    }

    /// Who drives the environment. The cart and pole are driven by a person
    /// only when that is asked for and something is drawn; the breakout
    /// paddle whenever it is asked for; the swinging and rolling
    /// environments by the keyboard when something is drawn and by nobody
    /// otherwise; the bird always by the pool, which the keyboard can
    /// override when something is drawn.
    pub open spec fn controller_of(&self) -> Controller {
        match *self {
            EnvironmentPlugin::CartPole { human, render } => if human && render {
                Controller::Human
            } else {
                Controller::PolicyGradient
            },
            EnvironmentPlugin::Breakout { render, human } => if human {
                Controller::Human
            } else {
                Controller::Neat
            },
            EnvironmentPlugin::Flappy { render, human } => if render {
                Controller::NeatWithKeyboard
            } else {
                Controller::Neat
            },
            EnvironmentPlugin::Acrobot { render } => if render {
                Controller::Human
            } else {
                Controller::Nobody
            },
            EnvironmentPlugin::MountainCar { render } => if render {
                Controller::Human
            } else {
                Controller::Nobody
            },
            EnvironmentPlugin::Pendulum { render } => if render {
                Controller::Human
            } else {
                Controller::Nobody
            },
        }
    }

    /// The environment that the plugin starts.
    pub fn kind(&self) -> (kind: EnvironmentType)
        ensures
            kind == self.kind_of(),
    {
        match self {
            EnvironmentPlugin::Acrobot { .. } => EnvironmentType::Acrobot,
            EnvironmentPlugin::CartPole { .. } => EnvironmentType::CartPole,
            EnvironmentPlugin::MountainCar { .. } => EnvironmentType::MountainCar,
            EnvironmentPlugin::Pendulum { .. } => EnvironmentType::Pendulum,
            EnvironmentPlugin::Flappy { .. } => EnvironmentType::Flappy,
            EnvironmentPlugin::Breakout { .. } => EnvironmentType::Breakout,
        }
    }

    /// Who drives the environment.
    pub fn controller(&self) -> (controller: Controller)
        ensures
            controller == self.controller_of(),
    {
        match *self {
            EnvironmentPlugin::CartPole { human, render } => {
                if human && render {
                    Controller::Human
                } else {
                    Controller::PolicyGradient
                }
            },
            EnvironmentPlugin::Breakout { render: _, human } => {
                if human {
                    Controller::Human
                } else {
                    Controller::Neat
                }
            },
            EnvironmentPlugin::Flappy { render, human: _ } => {
                if render {
                    Controller::NeatWithKeyboard
                } else {
                    Controller::Neat
                }
            },
            EnvironmentPlugin::Acrobot { render }
            | EnvironmentPlugin::MountainCar { render }
            | EnvironmentPlugin::Pendulum { render } => {
                if render {
                    Controller::Human
                } else {
                    Controller::Nobody
                }
            },
        }
    }
}

impl Config {
    /// Whether anything is drawn.
    pub open spec fn renders(&self) -> bool {
        !self.simulation
    }

    /// Whether anything is drawn: always, unless the run is a simulation.
    pub fn render(&self) -> (render: bool)
        ensures
            render == self.renders(),
    {
        !self.simulation
    }

    /// How the environment is shown and driven: not shown at all in a
    /// simulation; otherwise shown, with a person driving where that was
    /// asked for.
    pub fn mode(&self) -> (mode: EnvironmentMode)
        ensures
            mode == if self.simulation {
                EnvironmentMode::Simulation
            } else if self.human {
                EnvironmentMode::RenderHuman
            } else {
                EnvironmentMode::Render
            },
    {
        if self.simulation {
            EnvironmentMode::Simulation
        } else if self.human {
            EnvironmentMode::RenderHuman
        } else {
            EnvironmentMode::Render
        }
    }

    /// The part of the program that starts: the chosen environment, or the
    /// menu where none was chosen.
    pub fn initial_state(&self) -> (state: AppState)
        ensures
            state == match self.environment {
                Some(env) => AppState::Environment(env),
                None => AppState::Menu,
            },
    {
        match self.environment {
            Some(env) => AppState::Environment(env),
            None => AppState::Menu,
        }
    }

    /// The plugin to start, where an environment was chosen.
    pub fn plugin(&self) -> (plugin: Option<EnvironmentPlugin>)
        ensures
            plugin == match self.environment {
                Some(env) => Some(plugin_for(env, self.renders(), self.human)),
                None => None,
            },
    {
        match self.environment {
            Some(env) => Some(load_environment(env, !self.simulation, self.human)),
            None => None,
        }
    }

    /// The title of the window: the label of the chosen environment, or the
    /// name of the program.
    pub fn window_title(&self) -> (title: &'static str)
        ensures
            title@ == match self.environment {
                Some(env) => env.label_of(),
                None => "Bevy Slyedoc Gym"@,
            },
    {
        match self.environment {
            Some(env) => env.label(),
            None => "Bevy Slyedoc Gym",
        }
    }
}

} // verus!
