use gym_harness::reward::{reward_to_go, HistoryEntry};

fn entry(reward: i64, done: bool) -> HistoryEntry<f32> {
    HistoryEntry { observation: vec![0.0], action: 0, reward, done }
}

#[test]
fn returns_do_not_leak_across_an_episode_boundary() {
    let entries = vec![entry(1, false), entry(1, true), entry(5, false), entry(5, true)];
    assert_eq!(reward_to_go(&entries), vec![2, 1, 10, 5]);
}

#[test]
fn empty_buffer_gives_empty_returns() {
    let entries: Vec<HistoryEntry<f32>> = Vec::new();
    assert_eq!(reward_to_go(&entries), Vec::<i128>::new());
}

#[test]
fn open_last_episode_gives_partial_returns() {
    let entries = vec![entry(3, true), entry(2, false), entry(4, false)];
    assert_eq!(reward_to_go(&entries), vec![3, 6, 4]);
}

#[test]
fn single_entry_returns_its_reward() {
    assert_eq!(reward_to_go(&vec![entry(-7, false)]), vec![-7]);
    assert_eq!(reward_to_go(&vec![entry(9, true)]), vec![9]);
}

#[test]
fn each_return_is_reward_plus_next_return_within_an_episode() {
    let entries = vec![
        entry(2, false),
        entry(-3, false),
        entry(10, true),
        entry(4, false),
        entry(1, false),
    ];
    let gains = reward_to_go(&entries);
    assert_eq!(gains.len(), entries.len());
    let last = entries.len() - 1;
    assert_eq!(gains[last], entries[last].reward as i128);
    for i in 0..last {
        let rest = if entries[i].done { 0 } else { gains[i + 1] };
        assert_eq!(gains[i], entries[i].reward as i128 + rest);
    }
    assert_eq!(gains, vec![9, 7, 10, 5, 1]);
}

#[test]
fn extreme_rewards_do_not_overflow() {
    let entries = vec![entry(i64::MAX, false), entry(i64::MAX, false), entry(i64::MIN, true)];
    let top = i64::MAX as i128;
    let bottom = i64::MIN as i128;
    assert_eq!(reward_to_go(&entries), vec![top + top + bottom, top + bottom, bottom]);
}
