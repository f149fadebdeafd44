//! Reward-to-go: for each recorded transition, the reward earned from that
//! transition to the end of its episode.

use vstd::prelude::*;

verus! {

/// One recorded decision: what was observed, which action was chosen, the
/// reward of the transition that followed and whether it ended an episode.
/// Rewards are fixed-point numbers; the unit is the caller's choice.
#[derive(Debug)]
pub struct HistoryEntry<T> {
    pub observation: Vec<T>,
    pub action: usize,
    pub reward: i64,
    pub done: bool,
}

/// Mathematical model of a [`HistoryEntry`]: the observation as a sequence
/// and the reward as an unbounded integer.
pub struct EntryModel<T> {
    pub observation: Seq<T>,
    pub action: usize,
    pub reward: int,
    pub done: bool,
}

impl<T> View for HistoryEntry<T> {
    type V = EntryModel<T>;

    open spec fn view(&self) -> EntryModel<T> {
        EntryModel {
            observation: self.observation@,
            action: self.action,
            reward: self.reward as int,
            done: self.done,
        }
    }
}

/// The trajectory that a sequence of entries records.
pub open spec fn trajectory<T>(entries: Seq<HistoryEntry<T>>) -> Seq<EntryModel<T>> {
    Seq::new(entries.len(), |i: int| entries[i]@)
}

/// Every reward of the trajectory fits a 64-bit signed integer.
pub open spec fn rewards_bounded<T>(entries: Seq<EntryModel<T>>) -> bool {
    forall|i: int|
        0 <= i < entries.len() ==> -reward_span() <= (#[trigger] entries[i]).reward
            < reward_span()
}

/// The return of entry `i`: its own reward plus, unless it ends an episode,
/// the return of the entry after it. Past the end there is nothing to earn.
pub open spec fn return_at<T>(entries: Seq<EntryModel<T>>, i: int) -> int
    decreases entries.len() - i,
{
    if i < 0 || i >= entries.len() {
        0
    } else if entries[i].done {
        entries[i].reward
    } else {
        entries[i].reward + return_at(entries, i + 1)
    }
}

/// The returns of all entries, in the entries' order.
pub open spec fn gains_of<T>(entries: Seq<EntryModel<T>>) -> Seq<int> {
    Seq::new(entries.len(), |i: int| return_at(entries, i))
}

/// The largest magnitude a single reward can have.
pub open spec fn reward_span() -> int {
    0x8000_0000_0000_0000
}

/// A return is bounded by the number of entries it sums over.
pub proof fn lemma_return_bounded<T>(entries: Seq<EntryModel<T>>, i: int)
    requires
        0 <= i <= entries.len(),
        rewards_bounded(entries),
    ensures
        -(entries.len() - i) * reward_span() <= return_at(entries, i) <= (entries.len() - i)
            * reward_span(),
    decreases entries.len() - i,
{
    if i < entries.len() {
        lemma_return_bounded(entries, i + 1);
        let rest = entries.len() - (i + 1);
        assert((rest + 1) * reward_span() == rest * reward_span() + reward_span())
            by (nonlinear_arith);
        assert(rest * reward_span() >= 0) by (nonlinear_arith)
            requires
                rest >= 0,
                reward_span() >= 0,
        ;
    }
}

/// Computes the return of every entry in one backward pass. The sum starts
/// again at each entry that ends an episode, so no reward is credited across
/// an episode boundary; an open last episode yields its partial returns.
pub fn reward_to_go<T>(entries: &Vec<HistoryEntry<T>>) -> (gains: Vec<i128>)
    ensures
        gains@.len() == entries@.len(),
        forall|i: int|
            0 <= i < entries@.len() ==> gains@[i] as int == return_at(trajectory(entries@), i),
        gains@.map_values(|r: i128| r as int) == gains_of(trajectory(entries@)),
{
    let ghost path = trajectory(entries@);
    let n: usize = entries.len();
    let mut gains: Vec<i128> = Vec::new();
    let mut k: usize = 0;
    while k < n
        invariant
            k <= n,
            gains@.len() == k,
        decreases n - k,
    {
        gains.push(0);
        k = k + 1;
    }
    let mut running: i128 = 0;
    assert(rewards_bounded(path));
    let mut i: usize = n;
    while i > 0
        invariant
            n == entries@.len(),
            i <= n,
            gains@.len() == n,
            path == trajectory(entries@),
            rewards_bounded(path),
            running as int == return_at(path, i as int),
            forall|j: int| i <= j < n ==> gains@[j] as int == return_at(path, j),
        decreases i,
    {
        i = i - 1;
        proof {
            lemma_return_bounded(path, i as int);
            lemma_return_bounded(path, i as int + 1);
            assert(path[i as int] == entries@[i as int]@);
            let left = n - i;
            assert(left * reward_span() <= 0xFFFF_FFFF_FFFF_FFFF * reward_span())
                by (nonlinear_arith)
                requires
                    0 <= left <= 0xFFFF_FFFF_FFFF_FFFF,
                    reward_span() >= 0,
            ;
        }
        if entries[i].done {
            running = 0;
        }
        running = running + entries[i].reward as i128;
        gains.set(i, running);
    }
    proof {
        assert(gains@.map_values(|r: i128| r as int) =~= gains_of(path));
    }
    gains
}


/// Each return is the entry's own reward plus, unless the entry ends an
/// episode, the return of the next entry; the last return is the last reward.
pub proof fn law_return_recurrence<T>(entries: Seq<EntryModel<T>>, i: int)
    requires
        0 <= i < entries.len(),
    ensures
        i == entries.len() - 1 ==> gains_of(entries)[i] == entries[i].reward,
        i < entries.len() - 1 ==> gains_of(entries)[i] == entries[i].reward + if entries[i].done {
            0
        } else {
            gains_of(entries)[i + 1]
        },
{
    if i == entries.len() - 1 {
        assert(return_at(entries, i + 1) == 0);
    }
}

/// What follows an entry has no part in that entry's return once an episode
/// has ended in between: the returns of `before` within `before + after`
/// are those of `before` alone.
pub proof fn lemma_return_stops_at_episode_end<T>(
    before: Seq<EntryModel<T>>,
    after: Seq<EntryModel<T>>,
    i: int,
)
    requires
        before.len() > 0,
        before.last().done,
        0 <= i < before.len(),
    ensures
        return_at(before + after, i) == return_at(before, i),
    decreases before.len() - i,
{
    let whole = before + after;
    assert(whole[i] == before[i]);
    if !before[i].done {
        lemma_return_stops_at_episode_end(before, after, i + 1);
    }
}

/// The returns of a suffix do not depend on what was recorded before it.
pub proof fn lemma_return_ignores_past<T>(
    before: Seq<EntryModel<T>>,
    after: Seq<EntryModel<T>>,
    j: int,
)
    requires
        0 <= j <= after.len(),
    ensures
        return_at(before + after, before.len() + j) == return_at(after, j),
    decreases after.len() - j,
{
    let whole = before + after;
    if j < after.len() {
        assert(whole[before.len() + j] == after[j]);
        lemma_return_ignores_past(before, after, j + 1);
    }
}

/// No reward leaks across an episode boundary: where `before` ends with the
/// end of an episode, the returns of `before` followed by `after` are the
/// returns of the two parts, each computed on its own.
pub proof fn law_episodes_are_independent<T>(
    before: Seq<EntryModel<T>>,
    after: Seq<EntryModel<T>>,
)
    requires
        before.len() > 0,
        before.last().done,
    ensures
        gains_of(before + after) == gains_of(before) + gains_of(after),
{
    let whole = gains_of(before + after);
    let parts = gains_of(before) + gains_of(after);
    assert forall|i: int| 0 <= i < whole.len() implies whole[i] == parts[i] by {
        if i < before.len() {
            lemma_return_stops_at_episode_end(before, after, i);
        } else {
            lemma_return_ignores_past(before, after, i - before.len());
        }
    }
    assert(whole =~= parts);
}


/// The sum of all rewards of a trajectory.
pub open spec fn total_reward<T>(entries: Seq<EntryModel<T>>) -> int
    decreases entries.len(),
{
    if entries.len() == 0 {
        0
    } else {
        total_reward(entries.drop_last()) + entries.last().reward
    }
}

/// The number of entries that end an episode.
pub open spec fn episodes_ended<T>(entries: Seq<EntryModel<T>>) -> nat
    decreases entries.len(),
{
    if entries.len() == 0 {
        0
    } else {
        episodes_ended(entries.drop_last()) + if entries.last().done {
            1nat
        } else {
            0nat
        }
    }
}

/// No more episodes end than entries were recorded.
pub proof fn lemma_episodes_at_most_entries<T>(entries: Seq<EntryModel<T>>)
    ensures
        episodes_ended(entries) <= entries.len(),
    decreases entries.len(),
{
    if entries.len() > 0 {
        lemma_episodes_at_most_entries(entries.drop_last());
    }
}

/// A sum of rewards is bounded by the number of entries it sums over.
pub proof fn lemma_total_bounded<T>(entries: Seq<EntryModel<T>>)
    requires
        rewards_bounded(entries),
    ensures
        -entries.len() * reward_span() <= total_reward(entries) <= entries.len() * reward_span(),
    decreases entries.len(),
{
    if entries.len() > 0 {
        let rest = entries.drop_last();
        assert(rewards_bounded(rest)) by {
            assert forall|i: int| 0 <= i < rest.len() implies -reward_span() <= (
            #[trigger] rest[i]).reward < reward_span() by {
                assert(rest[i] == entries[i]);
            }
        }
        lemma_total_bounded(rest);
        let n = rest.len() as int;
        assert((n + 1) * reward_span() == n * reward_span() + reward_span())
            by (nonlinear_arith);
    }
}

/// What one epoch amounted to: how many episodes ended in it and what they
/// earned in all.
#[derive(Clone, Copy, Debug, PartialEq, Eq, Structural)]
pub struct EpochSummary {
    pub epoch: usize,
    pub episodes: usize,
    pub total_reward: i128,
}

/// Sums up the entries recorded in epoch `epoch`.
pub fn summarize<T>(entries: &Vec<HistoryEntry<T>>, epoch: usize) -> (summary: EpochSummary)
    ensures
        summary.epoch == epoch,
        summary.episodes == episodes_ended(trajectory(entries@)),
        summary.total_reward == total_reward(trajectory(entries@)),
{
    let ghost path = trajectory(entries@);
    let n: usize = entries.len();
    let mut episodes: usize = 0;
    let mut total: i128 = 0;
    let mut i: usize = 0;
    assert(path.subrange(0, 0) =~= Seq::<EntryModel<T>>::empty());
    while i < n
        invariant
            n == entries@.len(),
            path == trajectory(entries@),
            i <= n,
            episodes == episodes_ended(path.subrange(0, i as int)),
            total == total_reward(path.subrange(0, i as int)),
        decreases n - i,
    {
        let ghost seen = path.subrange(0, i as int);
        let ghost more = path.subrange(0, i + 1);
        proof {
            assert(more.drop_last() =~= seen);
            assert(more.last() == entries@[i as int]@);
            lemma_episodes_at_most_entries(more);
            assert(rewards_bounded(more));
            lemma_total_bounded(more);
            let k = more.len() as int;
            assert(k * reward_span() <= 0xFFFF_FFFF_FFFF_FFFF * reward_span()) by (nonlinear_arith)
                requires
                    0 <= k <= 0xFFFF_FFFF_FFFF_FFFF,
                    reward_span() >= 0,
            ;
        }
        if entries[i].done {
            episodes = episodes + 1;
        }
        total = total + entries[i].reward as i128;
        i = i + 1;
    }
    assert(path.subrange(0, n as int) =~= path);
    EpochSummary { epoch, episodes, total_reward: total }
}

} // verus!
