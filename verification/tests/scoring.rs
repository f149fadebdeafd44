use gym_harness::generation::{sort_by_index, CompleteAgent, GenerationLog};
use gym_harness::reward::{summarize, EpochSummary, HistoryEntry};
use gym_harness::scoring::{BrickScore, ContactOutcome, RewardPolicy, RewardShaper};

#[test]
fn constant_policy_pays_the_same_every_tick() {
    let mut shaper = RewardShaper::new(RewardPolicy::Constant(1));
    assert_eq!(shaper.reward(40, false), 1);
    assert_eq!(shaper.reward(41, true), 1);
    assert_eq!(shaper.reward(42, false), 1);
}

#[test]
fn survival_policy_pays_the_ticks_survived() {
    let mut shaper = RewardShaper::new(RewardPolicy::Survival);
    assert_eq!(shaper.reward(0, false), 0);
    assert_eq!(shaper.reward(0, false), 1);
    assert_eq!(shaper.reward(0, true), 2);
    assert_eq!(shaper.survived, 0);
    assert_eq!(shaper.reward(0, false), 0);
    assert_eq!(shaper.reward(0, false), 1);
}

#[test]
fn measured_policy_pays_what_was_measured() {
    let mut shaper = RewardShaper::new(RewardPolicy::Measured);
    assert_eq!(shaper.reward(-250, false), -250);
    assert_eq!(shaper.reward(75, true), 75);
}

#[test]
fn brick_hits_are_scored() {
    let mut board = BrickScore::new(48);
    assert_eq!(
        board.record_contacts(2, false),
        ContactOutcome { destroyed: 2, reset: false, clear_marks: true }
    );
    assert_eq!(board.score, 2);
    assert_eq!(
        board.record_contacts(0, false),
        ContactOutcome { destroyed: 0, reset: false, clear_marks: true }
    );
    assert_eq!(board.score, 2);
}

#[test]
fn bottom_hit_ends_the_episode() {
    let mut board = BrickScore::new(48);
    assert_eq!(
        board.record_contacts(1, true),
        ContactOutcome { destroyed: 1, reset: true, clear_marks: false }
    );
    assert_eq!(board.score, 1);
    board.restart();
    assert_eq!(board, BrickScore { score: 0, bricks: 48 });
}

#[test]
fn clearing_the_board_ends_the_episode_at_once() {
    let mut board = BrickScore { score: 46, bricks: 48 };
    assert_eq!(
        board.record_contacts(3, false),
        ContactOutcome { destroyed: 2, reset: true, clear_marks: false }
    );
    assert_eq!(board.score, 48);
    let mut exact = BrickScore { score: 47, bricks: 48 };
    assert_eq!(
        exact.record_contacts(1, false),
        ContactOutcome { destroyed: 1, reset: true, clear_marks: false }
    );
}

#[test]
fn board_without_bricks_is_never_cleared() {
    let mut board = BrickScore::new(0);
    assert_eq!(
        board.record_contacts(0, false),
        ContactOutcome { destroyed: 0, reset: false, clear_marks: true }
    );
}

#[test]
fn fitness_list_is_ordered_by_agent_index() {
    let mut log = GenerationLog::new(1_000);
    log.record_complete_agent(2, 1_500);
    log.record_complete_agent(0, 1_200);
    log.record_complete_agent(1, 4_000);
    assert_eq!(log.complete_count(), 3);
    assert_eq!(log.next_generation(5_000), Some(vec![200, 3_000, 500]));
    assert_eq!(log.complete_count(), 0);
    assert_eq!(log.generation_start(), 5_000);
}

#[test]
fn agents_with_equal_index_keep_their_order() {
    let mut log = GenerationLog::new(0);
    log.record_complete_agent(1, 10);
    log.record_complete_agent(0, 20);
    log.record_complete_agent(1, 30);
    log.record_complete_agent(0, 40);
    assert_eq!(log.next_generation(50), Some(vec![20, 40, 10, 30]));
}

#[test]
fn generation_without_finished_agents_goes_on() {
    let mut log = GenerationLog::new(7);
    assert_eq!(log.next_generation(100), None);
    assert_eq!(log.generation_start(), 7);
    log.record_complete_agent(0, 7);
    assert_eq!(log.next_generation(100), Some(vec![0]));
    assert_eq!(log.generation_start(), 100);
}

#[test]
fn summary_counts_episodes_and_rewards() {
    let entry = |reward: i64, done: bool| HistoryEntry::<f32> {
        observation: Vec::new(),
        action: 0,
        reward,
        done,
    };
    let entries = vec![entry(1, false), entry(1, true), entry(5, false), entry(5, true), entry(-2, false)];
    assert_eq!(
        summarize(&entries, 3),
        EpochSummary { epoch: 3, episodes: 2, total_reward: 10 }
    );
    let nothing: Vec<HistoryEntry<f32>> = Vec::new();
    assert_eq!(summarize(&nothing, 0), EpochSummary { epoch: 0, episodes: 0, total_reward: 0 });
}

#[test]
fn sorting_by_index_is_stable() {
    let agent = |index: usize, fitness: u64| CompleteAgent { index, fitness };
    let finished = vec![agent(5, 1), agent(3, 2), agent(5, 3), agent(0, 4), agent(3, 5)];
    assert_eq!(
        sort_by_index(&finished),
        vec![agent(0, 4), agent(3, 2), agent(3, 5), agent(5, 1), agent(5, 3)]
    );
    assert_eq!(sort_by_index(&Vec::new()), Vec::<CompleteAgent>::new());
}

#[test]
fn agents_are_counted_as_they_finish() {
    let mut log = GenerationLog::new(10);
    log.record_complete_agent(5, 40);
    log.record_complete_agent(3, 20);
    assert_eq!(log.complete_count(), 2);
    assert_eq!(log.generation_start(), 10);
    assert_eq!(log.next_generation(60), Some(vec![10, 30]));
}
