use gym_harness::counter::EpisodeCounter;

#[test]
fn fresh_counter_counts_nothing() {
    let counter = EpisodeCounter::new(5, 3);
    assert_eq!(counter.step, 0);
    assert_eq!(counter.episode, 0);
    assert_eq!(counter.epoch, 0);
    assert_eq!(counter.step_max, 5);
    assert_eq!(counter.epoch_max, 3);
    assert!(!counter.is_finished());
}

#[test]
fn default_counter_has_fifty_epochs_of_five_thousand_steps() {
    let counter = EpisodeCounter::default();
    assert_eq!(counter.step_max, 5000);
    assert_eq!(counter.epoch_max, 50);
    assert_eq!(counter.step, 0);
    assert_eq!(counter.epoch, 0);
}

#[test]
fn one_flush_after_step_max_plus_one_ticks() {
    let step_max = 7;
    let mut counter = EpisodeCounter::new(step_max, 10);
    let mut flushes = 0;
    for tick in 0..step_max + 1 {
        let due = counter.advance_step();
        if due {
            flushes += 1;
            assert_eq!(tick, step_max);
        }
    }
    assert_eq!(flushes, 1);
    assert_eq!(counter.epoch, 1);
    assert_eq!(counter.episode, 0);
    assert_eq!(counter.step, 0);
}

#[test]
fn ticks_below_the_threshold_only_count_up() {
    let mut counter = EpisodeCounter::new(4, 10);
    for expected in 1..=4 {
        assert!(!counter.advance_step());
        assert_eq!(counter.step, expected);
        assert_eq!(counter.epoch, 0);
    }
}

#[test]
fn flush_is_not_signalled_twice_in_a_row() {
    let mut counter = EpisodeCounter::new(2, 10);
    assert!(!counter.advance_step());
    assert!(!counter.advance_step());
    assert!(counter.advance_step());
    assert!(!counter.advance_step());
    assert_eq!(counter.step, 1);
    assert_eq!(counter.epoch, 1);
}

#[test]
fn zero_threshold_flushes_on_every_tick() {
    let mut counter = EpisodeCounter::new(0, 10);
    assert!(counter.advance_step());
    assert!(counter.advance_step());
    assert_eq!(counter.epoch, 2);
    assert_eq!(counter.step, 0);
}

#[test]
fn episodes_are_counted_until_the_flush() {
    let mut counter = EpisodeCounter::new(5, 10);
    let ends = 4;
    for _ in 0..ends {
        assert!(!counter.advance_step());
        counter.record_episode_end();
    }
    assert!(!counter.advance_step());
    assert_eq!(counter.episode, ends);
    assert!(counter.advance_step());
    assert_eq!(counter.episode, 0);
}

#[test]
fn counter_finishes_at_epoch_max() {
    let mut counter = EpisodeCounter::new(0, 2);
    assert!(!counter.is_finished());
    counter.advance_step();
    assert!(!counter.is_finished());
    counter.advance_step();
    assert!(counter.is_finished());
}
