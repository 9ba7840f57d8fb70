use timeline::history::History;

#[test]
fn recording_appends_in_order() {
    let mut h: History<u32> = History::new();
    h.record(10, 100);
    h.record(20, 250);
    h.record(30, 400);
    assert_eq!(h.len(), 3);
    assert_eq!(h.moments[0].timestamp, 100);
    assert_eq!(h.moments[0].data, 10);
    assert_eq!(h.moments[2].timestamp, 400);
    assert_eq!(h.moments[2].data, 30);
}

#[test]
fn replay_pops_once_rewound_past_the_tail() {
    let mut h: History<u32> = History::new();
    h.record(10, 100);
    h.record(20, 250);
    let active = h.replay_step(150).copied();
    assert_eq!(active, Some(10));
    assert_eq!(h.len(), 1);
}

#[test]
fn replay_keeps_the_tail_while_not_rewound_past_it() {
    let mut h: History<u32> = History::new();
    h.record(10, 100);
    h.record(20, 250);
    let active = h.replay_step(250).copied();
    assert_eq!(active, Some(20));
    assert_eq!(h.len(), 2);
}

#[test]
fn replay_on_empty_history_is_steady_state() {
    let mut h: History<u32> = History::new();
    assert_eq!(h.replay_step(0), None);
    assert_eq!(h.len(), 0);
}

#[test]
fn replay_can_drain_the_whole_log() {
    let mut h: History<u32> = History::new();
    h.record(1, 100);
    h.record(2, 200);
    let _ = h.replay_step(50);
    let active = h.replay_step(50).copied();
    assert_eq!(active, None);
    assert_eq!(h.len(), 0);
}

#[test]
fn length_is_monotone_along_each_play_direction() {
    // Forward play only records: the length never decreases. Backward play
    // only replays: the length never increases.
    let mut h: History<u32> = History::new();
    let mut previous = h.len();
    for i in 0..50 {
        h.record(i, (i as i64) * 100);
        assert!(h.len() >= previous);
        previous = h.len();
    }
    for step in 0..60 {
        h.replay_step(4_000 - step * 100);
        assert!(h.len() <= previous);
        previous = h.len();
    }
}

#[test]
fn clear_empties_the_log() {
    let mut h: History<u32> = History::new();
    h.record(1, 0);
    h.record(2, 10);
    h.clear();
    assert_eq!(h.len(), 0);
    assert!(h.is_empty());
}

#[test]
fn default_is_empty() {
    let h: History<u32> = History::default();
    assert!(h.is_empty());
}
