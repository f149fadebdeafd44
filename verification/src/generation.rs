//! The record of one generation of an evolving population: which agents have
//! finished, how long each lasted, and the fitness list that the next
//! generation is bred from.

use vstd::prelude::*;

verus! {

/// An agent that has finished its run, with the time it lasted as its
/// fitness.
#[derive(Clone, Copy, Debug, PartialEq, Eq, Structural)]
pub struct CompleteAgent {
    pub index: usize,
    pub fitness: u64,
}

/// Whether the agents are ordered by index, smallest first.
pub open spec fn ordered(agents: Seq<CompleteAgent>) -> bool {
    forall|i: int, j: int| 0 <= i < j < agents.len() ==> agents[i].index <= agents[j].index
}

/// Where an agent with index `index` is placed among `agents`: behind the
/// last agent whose index is not larger, so that agents with equal indices
/// stay in the order in which they finished.
pub open spec fn place(agents: Seq<CompleteAgent>, index: usize) -> int
    decreases agents.len(),
{
    if agents.len() == 0 {
        0
    } else if agents.last().index <= index {
        agents.len() as int
    } else {
        place(agents.drop_last(), index)
    }
}

/// The agents with `agent` placed among them.
pub open spec fn placed(agents: Seq<CompleteAgent>, agent: CompleteAgent) -> Seq<CompleteAgent> {
    agents.insert(place(agents, agent.index), agent)
}

/// The fitness of each agent, in the agents' order.
pub open spec fn fitness_list(agents: Seq<CompleteAgent>) -> Seq<u64> {
    Seq::new(agents.len(), |i: int| agents[i].fitness)
}

/// A place is a position of the sequence or its end; every agent from it on
/// has a larger index, and the agent before it, if any, has not.
pub proof fn lemma_place_divides(agents: Seq<CompleteAgent>, index: usize)
    ensures
        0 <= place(agents, index) <= agents.len(),
        forall|i: int| place(agents, index) <= i < agents.len() ==> agents[i].index > index,
        place(agents, index) > 0 ==> agents[place(agents, index) - 1].index <= index,
    decreases agents.len(),
{
    if agents.len() > 0 && agents.last().index > index {
        let head = agents.drop_last();
        lemma_place_divides(head, index);
        assert forall|i: int| place(agents, index) <= i < agents.len() implies agents[i].index
            > index by {
            if i < head.len() {
                assert(head[i] == agents[i]);
            }
        }
        if place(agents, index) > 0 {
            assert(head[place(agents, index) - 1] == agents[place(agents, index) - 1]);
        }
    }
}

/// Placing an agent among ordered agents keeps them ordered, loses none and
/// adds exactly the new one.
pub proof fn law_placing_keeps_order(agents: Seq<CompleteAgent>, agent: CompleteAgent)
    requires
        ordered(agents),
    ensures
        ordered(placed(agents, agent)),
        placed(agents, agent).len() == agents.len() + 1,
        placed(agents, agent).to_multiset() == agents.to_multiset().insert(agent),
{
    let at = place(agents, agent.index);
    let more = placed(agents, agent);
    lemma_place_divides(agents, agent.index);
    assert forall|i: int, j: int| 0 <= i < j < more.len() implies more[i].index
        <= more[j].index by {
        if at > 0 {
            assert(agents[at - 1].index <= agent.index);
        }
        if i < at && j > at {
            assert(more[i] == agents[i]);
            assert(more[j] == agents[j - 1]);
        }
    }
    vstd::seq_lib::to_multiset_insert(agents, at, agent);
}

/// The agents ordered by index: each placed, in the order in which they
/// finished, among those that finished before it. Agents with equal indices
/// keep the order in which they finished.
pub open spec fn by_index(agents: Seq<CompleteAgent>) -> Seq<CompleteAgent>
    decreases agents.len(),
{
    if agents.len() == 0 {
        Seq::empty()
    } else {
        placed(by_index(agents.drop_last()), agents.last())
    }
}

/// Ordering by index gives the same agents, each as often as before, with
/// indices that never fall.
pub proof fn law_by_index_orders(agents: Seq<CompleteAgent>)
    ensures
        ordered(by_index(agents)),
        by_index(agents).len() == agents.len(),
        by_index(agents).to_multiset() == agents.to_multiset(),
    decreases agents.len(),
{
    if agents.len() > 0 {
        let head = agents.drop_last();
        law_by_index_orders(head);
        law_placing_keeps_order(by_index(head), agents.last());
        assert(head.push(agents.last()) =~= agents);
        vstd::seq_lib::to_multiset_build(head, agents.last());
        assert(by_index(agents).to_multiset() =~= agents.to_multiset());
    } else {
        assert(agents =~= Seq::<CompleteAgent>::empty());
    }
}

/// The agents of the current generation that have finished, in the order in
/// which they finished, and the time at which the generation started.
pub struct GenerationLog {
    generation_start: u64,
    complete_agents: Vec<CompleteAgent>,
}

/// Mathematical model of a [`GenerationLog`].
pub struct LogModel {
    pub generation_start: u64,
    pub complete_agents: Seq<CompleteAgent>,
}

impl View for GenerationLog {
    type V = LogModel;

    closed spec fn view(&self) -> LogModel {
        LogModel {
            generation_start: self.generation_start,
            complete_agents: self.complete_agents@,
        }
    }
}

/// Finds where an agent with index `index` is placed among `agents`.
fn place_in(agents: &Vec<CompleteAgent>, index: usize) -> (at: usize)
    ensures
        at == place(agents@, index),
        at <= agents@.len(),
{
    let mut at: usize = agents.len();
    assert(agents@.subrange(0, at as int) =~= agents@);
    while at > 0 && agents[at - 1].index > index
        invariant
            at <= agents@.len(),
            place(agents@, index) == place(agents@.subrange(0, at as int), index),
        decreases at,
    {
        proof {
            let head = agents@.subrange(0, at as int);
            assert(head.drop_last() =~= agents@.subrange(0, at - 1));
        }
        at = at - 1;
    }
    proof {
        lemma_place_divides(agents@.subrange(0, at as int), index);
    }
    at
}

/// Orders the agents by index, keeping agents with equal indices in the
/// order in which they finished.
pub fn sort_by_index(agents: &Vec<CompleteAgent>) -> (sorted: Vec<CompleteAgent>)
    ensures
        sorted@ == by_index(agents@),
{
    let mut sorted: Vec<CompleteAgent> = Vec::new();
    let mut i: usize = 0;
    assert(agents@.subrange(0, 0) =~= Seq::<CompleteAgent>::empty());
    while i < agents.len()
        invariant
            i <= agents@.len(),
            sorted@ == by_index(agents@.subrange(0, i as int)),
        decreases agents@.len() - i,
    {
        let agent = agents[i];
        let at = place_in(&sorted, agent.index);
        proof {
            let more = agents@.subrange(0, i + 1);
            assert(more.drop_last() =~= agents@.subrange(0, i as int));
            assert(more.last() == agent);
        }
        sorted.insert(at, agent);
        i = i + 1;
    }
    assert(agents@.subrange(0, agents@.len() as int) =~= agents@);
    sorted
}

impl GenerationLog {
    /// The log of a generation that starts at `start`, with no agent
    /// finished.
    pub fn new(start: u64) -> (log: GenerationLog)
        ensures
            log@ == (LogModel {
                generation_start: start,
                complete_agents: Seq::<CompleteAgent>::empty(),
            }),
    {
        GenerationLog { generation_start: start, complete_agents: Vec::new() }
    }

    /// The time at which the generation started.
    pub fn generation_start(&self) -> (start: u64)
        ensures
            start == self@.generation_start,
    {
        self.generation_start
    }

    /// The number of agents that have finished.
    pub fn complete_count(&self) -> (count: usize)
        ensures
            count == self@.complete_agents.len(),
    {
        self.complete_agents.len()
    }

    /// Records that agent `index` finished at `time`, behind the agents
    /// recorded before it: its fitness is the time it lasted since the
    /// generation started.
    pub fn record_complete_agent(&mut self, index: usize, time: u64)
        requires
            time >= old(self)@.generation_start,
        ensures
            final(self)@.generation_start == old(self)@.generation_start,
            final(self)@.complete_agents == old(self)@.complete_agents.push(
                CompleteAgent { index, fitness: (time - old(self)@.generation_start) as u64 },
            ),
    {
        self.complete_agents.push(CompleteAgent { index, fitness: time - self.generation_start });
    }

    /// Closes the generation at `time`. Where agents have finished, returns
    /// their fitnesses ordered by agent index, forgets the agents and starts
    /// the next generation at `time`. Where none has, nothing changes.
    pub fn next_generation(&mut self, time: u64) -> (fitnesses: Option<Vec<u64>>)
        ensures
            old(self)@.complete_agents.len() == 0 ==> fitnesses is None && final(self)@ == old(
                self,
            )@,
            old(self)@.complete_agents.len() > 0 ==> fitnesses is Some && fitnesses->0@
                == fitness_list(by_index(old(self)@.complete_agents)) && final(self)@ == (LogModel {
                generation_start: time,
                complete_agents: Seq::<CompleteAgent>::empty(),
            }),
    {
        if self.complete_agents.len() == 0 {
            return None;
        }
        let sorted = sort_by_index(&self.complete_agents);
        let n: usize = sorted.len();
        let mut fitnesses: Vec<u64> = Vec::new();
        let mut i: usize = 0;
        while i < n
            invariant
                i <= n,
                n == sorted@.len(),
                fitnesses@ == fitness_list(sorted@.subrange(0, i as int)),
            decreases n - i,
        {
            fitnesses.push(sorted[i].fitness);
            assert(fitnesses@ =~= fitness_list(sorted@.subrange(0, i + 1)));
            i = i + 1;
        }
        assert(sorted@.subrange(0, n as int) =~= sorted@);
        self.complete_agents.clear();
        self.generation_start = time;
        Some(fitnesses)
    }
}

} // verus!
