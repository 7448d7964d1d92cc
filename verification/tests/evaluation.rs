use kazeta_ra::evaluation::{EvaluationEngine, UnlockTracker};
use kazeta_ra::local_definitions::{LocalAchievement, LocalDefinitions};

fn achievement(id: u32, title: &str) -> LocalAchievement {
    LocalAchievement {
        id,
        title: title.to_string(),
        description: String::new(),
        points: 10,
        badge_name: id.to_string(),
        mem_addr: "0xH00801234=1".to_string(),
        achievement_type: "standard".to_string(),
        display_order: id,
    }
}

fn definitions() -> LocalDefinitions {
    LocalDefinitions {
        game_id: 7693,
        game_title: "Mario Kart: Double Dash".to_string(),
        console_id: 16,
        console_name: "Nintendo GameCube".to_string(),
        icon_url: None,
        rich_presence_patch: String::new(),
        achievements: vec![achievement(55001, "First Grand Prix"), achievement(55002, "Second"), achievement(55001, "Duplicate id")],
        leaderboards: vec![],
    }
}

#[test]
fn engine_lifecycle_and_memory() {
    let mut engine = EvaluationEngine::new(definitions(), "abc123".to_string());
    assert!(!engine.is_running());
    assert_eq!(engine.game_hash(), "abc123");
    assert_eq!(engine.definitions().game_id, 7693);
    engine.mark_running();
    assert!(engine.is_running());
    engine.receive_datagram(b"00801234\n1234ABCD\n");
    assert_eq!(engine.peek(0x00801234, 1), 0x12);
    assert_eq!(engine.peek(0x00801237, 1), 0xCD);
    assert_eq!(engine.peek(0x00801236, 2), 0xABCD);
    assert_eq!(engine.peek(0x00801234, 4), 0x1234ABCD);
    assert_eq!(engine.peek(0x00805678, 4), 0);
    engine.stop();
    assert!(!engine.is_running());
}

#[test]
fn tracker_announces_each_unlock_once() {
    let defs = definitions();
    let mut tracker = UnlockTracker::new(&[55002]);
    assert!(tracker.contains(55002));
    assert_eq!(tracker.pending_achievements(&defs), vec![0, 2]);
    // Nothing triggered.
    assert_eq!(tracker.on_trigger(&defs, 0), None);
    // Already unlocked.
    assert_eq!(tracker.on_trigger(&defs, 55002), None);
    // New unlock: the first definition with that id is announced.
    assert_eq!(tracker.on_trigger(&defs, 55001), Some((55001, "First Grand Prix".to_string())));
    assert!(tracker.contains(55001));
    assert_eq!(tracker.on_trigger(&defs, 55001), None);
    assert_eq!(tracker.pending_achievements(&defs), Vec::<usize>::new());
    // An id without a definition is recorded but not announced.
    assert_eq!(tracker.on_trigger(&defs, 99), None);
    assert!(tracker.contains(99));
}

#[test]
fn frame_with_several_triggers_announces_each_new_unlock() {
    let defs = definitions();
    let mut tracker = UnlockTracker::new(&[55002]);
    let announced = tracker.on_frame(&defs, &[55001, 55002, 55001, 77]);
    assert_eq!(announced, vec![(55001, "First Grand Prix".to_string())]);
    let mut fresh = UnlockTracker::new(&[]);
    let both = fresh.on_frame(&defs, &[55002, 55001]);
    assert_eq!(both, vec![(55002, "Second".to_string()), (55001, "First Grand Prix".to_string())]);
    // A later frame announces nothing already announced.
    assert_eq!(fresh.on_frame(&defs, &[55001, 55002]), vec![]);
}
