//! The reset state machine of one environment: `Loading`, `Playing`,
//! `Resetting`, and the entities that each entry action creates or destroys.

use vstd::prelude::*;

verus! {

/// The state of an environment instance between episodes.
#[derive(Clone, Copy, Debug, PartialEq, Eq, Hash, Structural)]
pub enum ResetState {
    /// Entities are being created; stepping has not resumed.
    Loading,
    /// An episode is running.
    Playing,
    /// The episode has ended; its entities are being destroyed.
    Resetting,
}

/// How long an entity lives.
#[derive(Clone, Copy, Debug, PartialEq, Eq, Hash, Structural)]
pub enum EntityScope {
    /// Destroyed at every reset and created again at the next load.
    Episode,
    /// Created once and kept across resets, as a camera is.
    Persistent,
}

/// One entity that the environment owns: its scope, and whether it exists.
#[derive(Clone, Copy, Debug, PartialEq, Eq, Structural)]
pub struct EntitySlot {
    pub scope: EntityScope,
    pub present: bool,
}

/// What can be reported to the machine.
#[derive(Clone, Copy, Debug, PartialEq, Eq, Structural)]
pub enum ResetEvent {
    /// Everything the environment owns has been created.
    SetupComplete,
    /// An episode-ending condition was seen: out of bounds, a terminal
    /// collision, the goal reached, or an explicit request.
    EpisodeEnded,
    /// Every episode-scoped entity has been destroyed.
    EntitiesDestroyed,
}

/// The state after `event` is reported in `state`. An event that does not
/// belong to the state changes nothing, so a repeated report is harmless.
pub open spec fn next_state(state: ResetState, event: ResetEvent) -> ResetState {
    match (state, event) {
        (ResetState::Loading, ResetEvent::SetupComplete) => ResetState::Playing,
        (ResetState::Playing, ResetEvent::EpisodeEnded) => ResetState::Resetting,
        (ResetState::Resetting, ResetEvent::EntitiesDestroyed) => ResetState::Loading,
        _ => state,
    }
}

/// The slots with every entity present.
pub open spec fn loaded(slots: Seq<EntitySlot>) -> Seq<EntitySlot> {
    Seq::new(slots.len(), |i: int| EntitySlot { scope: slots[i].scope, present: true })
}

/// The slots with no episode-scoped entity present.
pub open spec fn cleared(slots: Seq<EntitySlot>) -> Seq<EntitySlot> {
    Seq::new(
        slots.len(),
        |i: int|
            EntitySlot {
                scope: slots[i].scope,
                present: slots[i].present && slots[i].scope != EntityScope::Episode,
            },
    )
}

/// Whether loading has to create the entity of `slot`.
pub open spec fn is_missing(slot: EntitySlot) -> bool {
    !slot.present
}

/// Whether a reset has to destroy the entity of `slot`.
pub open spec fn is_doomed(slot: EntitySlot) -> bool {
    slot.present && slot.scope == EntityScope::Episode
}

/// The indices below `n` of the slots whose entity is missing, ascending.
pub open spec fn missing_below(slots: Seq<EntitySlot>, n: int) -> Seq<usize>
    decreases n,
{
    if n <= 0 {
        Seq::empty()
    } else if is_missing(slots[n - 1]) {
        missing_below(slots, n - 1).push((n - 1) as usize)
    } else {
        missing_below(slots, n - 1)
    }
}

/// The indices below `n` of the slots whose entity a reset destroys,
/// ascending.
pub open spec fn doomed_below(slots: Seq<EntitySlot>, n: int) -> Seq<usize>
    decreases n,
{
    if n <= 0 {
        Seq::empty()
    } else if is_doomed(slots[n - 1]) {
        doomed_below(slots, n - 1).push((n - 1) as usize)
    } else {
        doomed_below(slots, n - 1)
    }
}

/// The entities that exist, by index.
pub open spec fn entity_set(slots: Seq<EntitySlot>) -> Set<int> {
    Set::new(|i: int| 0 <= i < slots.len() && slots[i].present)
}

/// Mathematical model of a [`ResetStateMachine`].
pub struct ResetModel {
    pub state: ResetState,
    pub slots: Seq<EntitySlot>,
}

impl ResetModel {
    /// A machine that has just been made: `Loading`, nothing created yet.
    pub open spec fn initial(scopes: Seq<EntityScope>) -> ResetModel {
        ResetModel {
            state: ResetState::Loading,
            slots: Seq::new(
                scopes.len(),
                |i: int| EntitySlot { scope: scopes[i], present: false },
            ),
        }
    }

    /// What the entry action of `Loading` has to create.
    pub open spec fn to_create(self) -> Seq<usize> {
        if self.state == ResetState::Loading {
            missing_below(self.slots, self.slots.len() as int)
        } else {
            Seq::empty()
        }
    }

    /// The machine after the entry action of `Loading`.
    pub open spec fn load(self) -> ResetModel {
        if self.state == ResetState::Loading {
            ResetModel { slots: loaded(self.slots), ..self }
        } else {
            self
        }
    }

    /// What the entry action of `Resetting` has to destroy.
    pub open spec fn to_destroy(self) -> Seq<usize> {
        if self.state == ResetState::Resetting {
            doomed_below(self.slots, self.slots.len() as int)
        } else {
            Seq::empty()
        }
    }

    /// The machine after the entry action of `Resetting`.
    pub open spec fn destroy(self) -> ResetModel {
        if self.state == ResetState::Resetting {
            ResetModel { slots: cleared(self.slots), ..self }
        } else {
            self
        }
    }

    /// The machine after `event` is reported.
    pub open spec fn report(self, event: ResetEvent) -> ResetModel {
        ResetModel { state: next_state(self.state, event), ..self }
    }
}

/// The reset state machine of one environment, with the list of entities the
/// environment owns.
pub struct ResetStateMachine {
    state: ResetState,
    slots: Vec<EntitySlot>,
}

impl View for ResetStateMachine {
    type V = ResetModel;

    closed spec fn view(&self) -> ResetModel {
        ResetModel { state: self.state, slots: self.slots@ }
    }
}

impl ResetStateMachine {
    /// A machine in `Loading` for an environment that owns one entity per
    /// element of `scopes`; none exists yet.
    pub fn new(scopes: &Vec<EntityScope>) -> (machine: ResetStateMachine)
        ensures
            machine@ == ResetModel::initial(scopes@),
    {
        let mut slots: Vec<EntitySlot> = Vec::new();
        let mut i: usize = 0;
        while i < scopes.len()
            invariant
                i <= scopes@.len(),
                slots@.len() == i,
                forall|j: int|
                    0 <= j < i ==> slots@[j] == (EntitySlot { scope: scopes@[j], present: false }),
            decreases scopes@.len() - i,
        {
            slots.push(EntitySlot { scope: scopes[i], present: false });
            i = i + 1;
        }
        assert(slots@ =~= ResetModel::initial(scopes@).slots);
        ResetStateMachine { state: ResetState::Loading, slots }
    }

    /// The current state.
    pub fn state(&self) -> (state: ResetState)
        ensures
            state == self@.state,
    {
        self.state
    }

    /// The number of entities the environment owns.
    pub fn slot_count(&self) -> (count: usize)
        ensures
            count == self@.slots.len(),
    {
        self.slots.len()
    }

    /// Whether entity `index` exists; `false` for an index that names none.
    pub fn is_present(&self, index: usize) -> (present: bool)
        ensures
            present == (index < self@.slots.len() && self@.slots[index as int].present),
    {
        index < self.slots.len() && self.slots[index].present
    }

    /// Entry action of `Loading`: returns the entities that have to be
    /// created, in ascending order, and records them as existing. Run again
    /// before setup completes, it asks for nothing more. In any other state
    /// it asks for nothing and changes nothing.
    pub fn load(&mut self) -> (create: Vec<usize>)
        ensures
            create@ == old(self)@.to_create(),
            final(self)@ == old(self)@.load(),
    {
        let mut create: Vec<usize> = Vec::new();
        if self.state != ResetState::Loading {
            return create;
        }
        let n: usize = self.slots.len();
        let mut i: usize = 0;
        while i < n
            invariant
                i <= n,
                n == old(self).slots@.len(),
                self.slots@.len() == n,
                self.state == old(self).state,
                create@ == missing_below(old(self).slots@, i as int),
                forall|j: int| 0 <= j < i ==> self.slots@[j] == loaded(old(self).slots@)[j],
                forall|j: int| i <= j < n ==> self.slots@[j] == old(self).slots@[j],
            decreases n - i,
        {
            let slot = self.slots[i];
            if !slot.present {
                create.push(i);
                self.slots.set(i, EntitySlot { scope: slot.scope, present: true });
            }
            i = i + 1;
        }
        assert(self.slots@ =~= loaded(old(self).slots@));
        create
    }

    /// Entry action of `Resetting`: returns the episode-scoped entities that
    /// exist, in ascending order, and records them as destroyed. Entities of
    /// persistent scope are left alone. In any other state it asks for
    /// nothing and changes nothing.
    pub fn destroy(&mut self) -> (doomed: Vec<usize>)
        ensures
            doomed@ == old(self)@.to_destroy(),
            final(self)@ == old(self)@.destroy(),
    {
        let mut doomed: Vec<usize> = Vec::new();
        if self.state != ResetState::Resetting {
            return doomed;
        }
        let n: usize = self.slots.len();
        let mut i: usize = 0;
        while i < n
            invariant
                i <= n,
                n == old(self).slots@.len(),
                self.slots@.len() == n,
                self.state == old(self).state,
                doomed@ == doomed_below(old(self).slots@, i as int),
                forall|j: int| 0 <= j < i ==> self.slots@[j] == cleared(old(self).slots@)[j],
                forall|j: int| i <= j < n ==> self.slots@[j] == old(self).slots@[j],
            decreases n - i,
        {
            let slot = self.slots[i];
            if slot.present && slot.scope == EntityScope::Episode {
                doomed.push(i);
                self.slots.set(i, EntitySlot { scope: slot.scope, present: false });
            }
            i = i + 1;
        }
        assert(self.slots@ =~= cleared(old(self).slots@));
        doomed
    }

    /// Reports `event`. Returns `true` exactly when the state changed, which
    /// is when the entry action of the new state is owed; an event that does
    /// not belong to the current state is ignored.
    pub fn report(&mut self, event: ResetEvent) -> (entered: bool)
        ensures
            final(self)@ == old(self)@.report(event),
            entered == (final(self)@.state != old(self)@.state),
    {
        match (self.state, event) {
            (ResetState::Loading, ResetEvent::SetupComplete) => {
                self.state = ResetState::Playing;
                true
            },
            (ResetState::Playing, ResetEvent::EpisodeEnded) => {
                self.state = ResetState::Resetting;
                true
            },
            (ResetState::Resetting, ResetEvent::EntitiesDestroyed) => {
                self.state = ResetState::Loading;
                true
            },
            _ => false,
        }
    }

    /// Asks for a reset because an episode-ending condition was seen.
    /// Returns `true` for the first request of an episode, and `false` for
    /// any further one, which changes nothing.
    pub fn request_reset(&mut self) -> (entered: bool)
        ensures
            final(self)@ == old(self)@.report(ResetEvent::EpisodeEnded),
            entered == (old(self)@.state == ResetState::Playing),
    {
        self.report(ResetEvent::EpisodeEnded)
    }
}


/// Once everything is present, nothing is missing.
pub proof fn lemma_nothing_missing_after_load(slots: Seq<EntitySlot>, n: int)
    requires
        0 <= n <= slots.len(),
    ensures
        missing_below(loaded(slots), n) == Seq::<usize>::empty(),
    decreases n,
{
    if n > 0 {
        lemma_nothing_missing_after_load(slots, n - 1);
    }
}

/// Once the episode-scoped entities are gone, a reset has nothing to destroy.
pub proof fn lemma_nothing_doomed_after_destroy(slots: Seq<EntitySlot>, n: int)
    requires
        0 <= n <= slots.len(),
    ensures
        doomed_below(cleared(slots), n) == Seq::<usize>::empty(),
    decreases n,
{
    if n > 0 {
        lemma_nothing_doomed_after_destroy(slots, n - 1);
    }
}

/// One pass through the cycle: a new machine is `Loading`; once its entities
/// are created and setup is reported complete it is `Playing`; an
/// episode-ending condition takes it to `Resetting`; once the destruction is
/// reported it is `Loading` again, and loading then restores exactly the
/// entities of the first load.
pub proof fn law_reset_cycle(scopes: Seq<EntityScope>)
    ensures
        ({
            let start = ResetModel::initial(scopes);
            let playing = start.load().report(ResetEvent::SetupComplete);
            let resetting = playing.report(ResetEvent::EpisodeEnded);
            let reloading = resetting.destroy().report(ResetEvent::EntitiesDestroyed);
            &&& start.state == ResetState::Loading
            &&& playing.state == ResetState::Playing
            &&& resetting.state == ResetState::Resetting
            &&& reloading.state == ResetState::Loading
            &&& reloading.load().slots == start.load().slots
            &&& entity_set(reloading.load().slots) == Set::new(|i: int| 0 <= i < scopes.len())
        }),
{
    let start = ResetModel::initial(scopes);
    let reloading = start.load().report(ResetEvent::SetupComplete).report(
        ResetEvent::EpisodeEnded,
    ).destroy().report(ResetEvent::EntitiesDestroyed);
    assert(reloading.load().slots =~= start.load().slots);
    assert(entity_set(reloading.load().slots) =~= Set::new(|i: int| 0 <= i < scopes.len()));
}

/// Entering `Loading` twice in a row leaves what a single pass leaves: the
/// second pass creates nothing and the entities are the same.
pub proof fn law_load_is_idempotent(machine: ResetModel)
    ensures
        machine.load().load() == machine.load(),
        machine.load().to_create() == Seq::<usize>::empty(),
        entity_set(machine.load().load().slots) == entity_set(machine.load().slots),
{
    if machine.state == ResetState::Loading {
        lemma_nothing_missing_after_load(machine.slots, machine.slots.len() as int);
        assert(loaded(loaded(machine.slots)) =~= loaded(machine.slots));
    }
}

/// An episode-ending condition seen twice in a tick is one reset: the second
/// report changes nothing, and the destruction it would start has nothing
/// left to destroy.
pub proof fn law_reset_request_is_idempotent(machine: ResetModel)
    ensures
        machine.report(ResetEvent::EpisodeEnded).report(ResetEvent::EpisodeEnded)
            == machine.report(ResetEvent::EpisodeEnded),
        machine.destroy().destroy() == machine.destroy(),
        machine.destroy().to_destroy() == Seq::<usize>::empty(),
{
    if machine.state == ResetState::Resetting {
        lemma_nothing_doomed_after_destroy(machine.slots, machine.slots.len() as int);
        assert(cleared(cleared(machine.slots)) =~= cleared(machine.slots));
    }
}

/// A reset destroys exactly the episode-scoped entities: what exists
/// afterwards is what existed before and is of persistent scope.
pub proof fn law_destroy_spares_persistent(slots: Seq<EntitySlot>)
    ensures
        entity_set(cleared(slots)) == Set::new(
            |i: int|
                0 <= i < slots.len() && slots[i].present && slots[i].scope
                    == EntityScope::Persistent,
        ),
        forall|i: int| 0 <= i < slots.len() ==> (#[trigger] cleared(slots)[i]).scope == slots[i].scope,
{
    assert(entity_set(cleared(slots)) =~= Set::new(
        |i: int|
            0 <= i < slots.len() && slots[i].present && slots[i].scope == EntityScope::Persistent,
    ));
}

/// The entities that loading asks to create are exactly the missing ones,
/// each once, in ascending order.
pub proof fn law_missing_listed_once_ascending(slots: Seq<EntitySlot>, n: int)
    requires
        0 <= n <= slots.len(),
        slots.len() <= usize::MAX,
    ensures
        forall|k: int|
            0 <= k < missing_below(slots, n).len() ==> {
                let i = #[trigger] missing_below(slots, n)[k];
                &&& i < n
                &&& is_missing(slots[i as int])
            },
        forall|k: int, l: int|
            0 <= k < l < missing_below(slots, n).len() ==> missing_below(slots, n)[k]
                < missing_below(slots, n)[l],
        forall|i: int|
            0 <= i < n && is_missing(slots[i]) ==> missing_below(slots, n).contains(i as usize),
    decreases n,
{
    if n > 0 {
        law_missing_listed_once_ascending(slots, n - 1);
        let rest = missing_below(slots, n - 1);
        let all = missing_below(slots, n);
        if is_missing(slots[n - 1]) {
            assert(all[all.len() - 1] == (n - 1) as usize);
            assert forall|i: int| 0 <= i < n && is_missing(slots[i]) implies all.contains(
                i as usize,
            ) by {
                if i < n - 1 {
                    let k = choose|k: int| 0 <= k < rest.len() && rest[k] == i as usize;
                    assert(all[k] == i as usize);
                } else {
                    assert(all[all.len() - 1] == i as usize);
                }
            }
        }
    }
}

} // verus!
