//! The kinds of environment and of model that can be selected by name.

use vstd::prelude::*;

verus! {

/// The lower-case form of a text, as `str::to_lowercase` computes it.
pub uninterp spec fn lowercase_of(text: Seq<char>) -> Seq<char>;

/// Calls `str::to_lowercase`: the result is the lower-case form of `text`,
/// which depends on nothing but `text`.
#[verifier::external_body]
fn to_lowercase(text: &str) -> (lowered: String)
    ensures
        lowered@ == lowercase_of(text@),
{
    text.to_lowercase()
}

/// Whether two texts hold the same characters.
fn same_text(left: &str, right: &str) -> (same: bool)
    ensures
        same == (left@ == right@),
{
    left.to_owned() == right.to_owned()
}

/// The environments that can be run.
#[derive(Clone, Copy, Debug, PartialEq, Eq, Hash, Structural)]
pub enum EnvironmentType {
    Acrobot,
    CartPole,
    MountainCar,
    Pendulum,
    Flappy,
    Breakout,
}

/// How an environment is shown and driven.
#[derive(Clone, Copy, Debug, PartialEq, Eq, Structural)]
pub enum EnvironmentMode {
    RenderHuman,
    Render,
    Simulation,
}

/// The learning algorithms that can drive an environment.
#[derive(Clone, Copy, Debug, PartialEq, Eq, Structural)]
pub enum ModelType {
    PolicyGradient,
    Neat,
}

impl EnvironmentType {
    /// The environment that a lower-case name selects.
    pub open spec fn named(name: Seq<char>) -> Option<EnvironmentType> {
        if name == "acrobot"@ {
            Some(EnvironmentType::Acrobot)
        } else if name == "cartpole"@ {
            Some(EnvironmentType::CartPole)
        } else if name == "mountaincar"@ {
            Some(EnvironmentType::MountainCar)
        } else if name == "pendulum"@ {
            Some(EnvironmentType::Pendulum)
        } else if name == "flappy"@ {
            Some(EnvironmentType::Flappy)
        } else if name == "breakout"@ {
            Some(EnvironmentType::Breakout)
        } else {
            None
        }
    }

    /// Selects an environment by its lower-case name.
    pub fn from_name(name: &str) -> (result: Result<EnvironmentType, &'static str>)
        ensures
            result is Ok <==> Self::named(name@) is Some,
            result is Ok ==> Some(result->Ok_0) == Self::named(name@),
            result is Err ==> result->Err_0@ == "No environment match!"@,
    {
        if same_text(name, "acrobot") {
            Ok(EnvironmentType::Acrobot)
        } else if same_text(name, "cartpole") {
            Ok(EnvironmentType::CartPole)
        } else if same_text(name, "mountaincar") {
            Ok(EnvironmentType::MountainCar)
        } else if same_text(name, "pendulum") {
            Ok(EnvironmentType::Pendulum)
        } else if same_text(name, "flappy") {
            Ok(EnvironmentType::Flappy)
        } else if same_text(name, "breakout") {
            Ok(EnvironmentType::Breakout)
        } else {
            Err("No environment match!")
        }
    }

    /// Selects an environment by name, whatever the case of its letters.
    pub fn from_str(s: &str) -> (result: Result<EnvironmentType, &'static str>)
        ensures
            result is Ok <==> Self::named(lowercase_of(s@)) is Some,
            result is Ok ==> Some(result->Ok_0) == Self::named(lowercase_of(s@)),
            result is Err ==> result->Err_0@ == "No environment match!"@,
    {
        let lowered = to_lowercase(s);
        Self::from_name(lowered.as_str())
    }

    /// The name shown for the environment.
    pub open spec fn label_of(&self) -> Seq<char> {
        match self {
            EnvironmentType::Acrobot => "Acrobot"@,
            EnvironmentType::CartPole => "Cart Pole"@,
            EnvironmentType::MountainCar => "Mountain Car"@,
            EnvironmentType::Pendulum => "Pendulum"@,
            EnvironmentType::Flappy => "Flappy"@,
            EnvironmentType::Breakout => "Breakout"@,
        }
    }

    /// The name shown for the environment.
    pub fn label(&self) -> (text: &'static str)
        ensures
            text@ == self.label_of(),
    {
        match self {
            EnvironmentType::Acrobot => "Acrobot",
            EnvironmentType::CartPole => "Cart Pole",
            EnvironmentType::MountainCar => "Mountain Car",
            EnvironmentType::Pendulum => "Pendulum",
            EnvironmentType::Flappy => "Flappy",
            EnvironmentType::Breakout => "Breakout",
        }
    }
}

impl ModelType {
    /// The model that a lower-case name selects.
    pub open spec fn named(name: Seq<char>) -> Option<ModelType> {
        if name == "policy_gradient"@ || name == "pg"@ {
            Some(ModelType::PolicyGradient)
        } else if name == "neat"@ {
            Some(ModelType::Neat)
        } else {
            None
        }
    }

    /// Selects a model by its lower-case name.
    pub fn from_name(name: &str) -> (result: Result<ModelType, &'static str>)
        ensures
            result is Ok <==> Self::named(name@) is Some,
            result is Ok ==> Some(result->Ok_0) == Self::named(name@),
            result is Err ==> result->Err_0@ == "no model match"@,
    {
        if same_text(name, "policy_gradient") || same_text(name, "pg") {
            Ok(ModelType::PolicyGradient)
        } else if same_text(name, "neat") {
            Ok(ModelType::Neat)
        } else {
            Err("no model match")
        }
    }

    /// Selects a model by name, whatever the case of its letters.
    pub fn from_str(s: &str) -> (result: Result<ModelType, &'static str>)
        ensures
            result is Ok <==> Self::named(lowercase_of(s@)) is Some,
            result is Ok ==> Some(result->Ok_0) == Self::named(lowercase_of(s@)),
            result is Err ==> result->Err_0@ == "no model match"@,
    {
        let lowered = to_lowercase(s);
        Self::from_name(lowered.as_str())
    }
}


impl std::str::FromStr for EnvironmentType {
    type Err = &'static str;

    /// Selects an environment by name, whatever the case of its letters:
    /// what `parse` gives is what the inherent `from_str` gives.
    fn from_str(s: &str) -> (result: Result<EnvironmentType, &'static str>)
        ensures
            result is Ok <==> EnvironmentType::named(lowercase_of(s@)) is Some,
            result is Ok ==> Some(result->Ok_0) == EnvironmentType::named(lowercase_of(s@)),
            result is Err ==> result->Err_0@ == "No environment match!"@,
    {
        EnvironmentType::from_str(s)
    }
}

impl std::str::FromStr for ModelType {
    type Err = &'static str;

    /// Selects a model by name, whatever the case of its letters: what
    /// `parse` gives is what the inherent `from_str` gives.
    fn from_str(s: &str) -> (result: Result<ModelType, &'static str>)
        ensures
            result is Ok <==> ModelType::named(lowercase_of(s@)) is Some,
            result is Ok ==> Some(result->Ok_0) == ModelType::named(lowercase_of(s@)),
            result is Err ==> result->Err_0@ == "no model match"@,
    {
        ModelType::from_str(s)
    }
}

} // verus!
