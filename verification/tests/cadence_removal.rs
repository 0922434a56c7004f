use arcade_core::cadence::FrameCycle;
use arcade_core::cadence::SpawnTimer;
use arcade_core::removal;

#[test]
fn spawn_cadence_fires_once_per_period() {
    // Spawn cadence: over exactly P ticks of a fresh timer, exactly one
    // tick fires.
    let period = 7;
    let mut timer = SpawnTimer::new(period);
    let mut fires = 0;
    for _ in 0..period {
        if timer.tick() {
            fires += 1;
        }
    }
    assert_eq!(fires, 1);
    assert_eq!(timer.count, 0);
}

#[test]
fn spawn_timer_fires_on_last_tick_only() {
    let mut timer = SpawnTimer::new(3);
    assert!(!timer.tick());
    assert!(!timer.tick());
    assert!(timer.tick());
    assert!(!timer.tick());
}

#[test]
fn spawn_timer_period_one_fires_every_tick() {
    let mut timer = SpawnTimer::new(1);
    assert!(timer.tick());
    assert!(timer.tick());
}

#[test]
fn frame_cycle_advances_and_wraps() {
    let mut f = FrameCycle::new(2, 1);
    assert_eq!(f.current, 0);
    f.tick();
    assert_eq!((f.count, f.current), (1, 0));
    f.tick();
    assert_eq!((f.count, f.current), (0, 1));
    f.tick();
    f.tick();
    assert_eq!((f.count, f.current), (0, 0));
}

#[test]
fn retain_unmarked_keeps_order() {
    let v: Vec<u32> = vec![10, 11, 12, 13];
    let marks = vec![false, true, false, true];
    let kept = removal::retain_unmarked(&v, &marks);
    assert_eq!(kept, vec![10, 12]);
}

#[test]
fn remove_at_indexes_drops_named_positions() {
    let v: Vec<u32> = vec![10, 11, 12, 13, 14];
    let indexes = vec![1usize, 3];
    let kept = removal::remove_at_indexes(&v, &indexes);
    assert_eq!(kept, vec![10, 12, 14]);
}

#[test]
fn removing_stale_indexes_changes_nothing() {
    // Removal idempotence: indices pointing at entities already removed
    // (beyond the shrunken list) remove nothing and cannot fault.
    let v: Vec<u32> = vec![10, 11, 12];
    let stale = vec![5usize, 7, 100];
    let kept = removal::remove_at_indexes(&v, &stale);
    assert_eq!(kept, vec![10, 11, 12]);
}

#[test]
fn remove_at_indexes_twice_with_empty_overlap() {
    let v: Vec<u32> = vec![10, 11, 12, 13];
    let indexes = vec![3usize];
    let once = removal::remove_at_indexes(&v, &indexes);
    assert_eq!(once, vec![10, 11, 12]);
    let twice = removal::remove_at_indexes(&once, &vec![3usize]);
    assert_eq!(twice, once);
}

#[test]
fn contains_index_reports_membership() {
    let indexes = vec![0usize, 2, 9];
    assert!(removal::contains_index(&indexes, 2));
    assert!(!removal::contains_index(&indexes, 3));
}
