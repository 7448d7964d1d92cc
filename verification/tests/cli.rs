use kazeta_ra::cli::{
    default_achievement_title, display_title, local_game_start, local_marker,
    local_overlay_entries, online_enabled, online_marker, online_overlay_entries,
    progress_percent, progress_percent_u32, resolve_game_info_target, resolve_rom_target,
    stable_order_by_key, status_plan, unlock_toast_message, RomTarget, StatusPlan, TargetError,
};
use kazeta_ra::console::ConsoleId;
use kazeta_ra::evaluation::UnlockTracker;
use kazeta_ra::local_definitions::{LocalAchievement, LocalDefinitions};
use kazeta_ra::types::Achievement;

fn api_achievement(id: u32, order: u32, earned: bool, hardcore: bool) -> Achievement {
    Achievement {
        id,
        title: format!("A{}", id),
        description: "d".to_string(),
        points: 5,
        badge_name: "b".to_string(),
        display_order: order,
        mem_addr: None,
        achievement_type: "standard".to_string(),
        date_earned: if earned { Some("2024-01-01".to_string()) } else { None },
        date_earned_hardcore: if hardcore { Some("2024-01-02".to_string()) } else { None },
    }
}

#[test]
fn rom_target_resolution() {
    match resolve_rom_target(Some("abc"), false, Some("GC")) {
        Ok(RomTarget::Hash { hash, console }) => {
            assert_eq!(hash, "abc");
            assert_eq!(console, ConsoleId::GameCube);
        }
        other => panic!("unexpected {:?}", other),
    }
    assert_eq!(resolve_rom_target(Some("abc"), true, None).unwrap_err(), TargetError::ConsoleRequired);
    assert_eq!(
        resolve_rom_target(Some("abc"), true, Some("amiga")).unwrap_err(),
        TargetError::UnknownConsole("amiga".to_string())
    );
    assert_eq!(resolve_rom_target(None, false, Some("gc")).unwrap_err(), TargetError::MissingTarget);
    assert!(matches!(resolve_rom_target(None, true, None), Ok(RomTarget::Path { console: None })));
    assert!(matches!(
        resolve_rom_target(None, true, Some("wii")),
        Ok(RomTarget::Path { console: Some(ConsoleId::Wii) })
    ));
    match resolve_game_info_target(Some("abc"), false, Some("not a console")) {
        Ok(RomTarget::Hash { console, .. }) => assert_eq!(console, ConsoleId::GameBoyAdvance),
        other => panic!("unexpected {:?}", other),
    }
    assert_eq!(resolve_game_info_target(None, false, None).unwrap_err(), TargetError::MissingTarget);
}

#[test]
fn percentages() {
    assert_eq!(progress_percent(3, 4), 75);
    assert_eq!(progress_percent(1, 3), 33);
    assert_eq!(progress_percent(5, 0), 0);
    assert_eq!(progress_percent(usize::MAX, 1), 0);
    assert_eq!(progress_percent_u32(10, 20), 50);
    assert_eq!(progress_percent_u32(50_000_000, 50_000_000), 0);
}

#[test]
fn status_and_titles() {
    assert_eq!(status_plan(false, false), StatusPlan::Disabled);
    assert_eq!(status_plan(false, true), StatusPlan::LocalOnly);
    assert_eq!(status_plan(true, false), StatusPlan::CheckCredentials);
    assert_eq!(status_plan(true, true), StatusPlan::CheckCredentials);
    assert!(online_enabled(false, true));
    assert!(!online_enabled(false, false));
    assert_eq!(display_title(&Some("Custom".to_string()), "Real"), "Custom");
    assert_eq!(display_title(&None, "Real"), "Real");
    assert_eq!(default_achievement_title(0), "Achievement #0");
    assert_eq!(default_achievement_title(55001), "Achievement #55001");
    assert_eq!(default_achievement_title(u32::MAX), "Achievement #4294967295");
    assert_eq!(unlock_toast_message("First"), "🏆 Achievement Unlocked: First");
}

#[test]
fn markers() {
    assert_eq!(online_marker(&api_achievement(1, 1, true, true)), '★');
    assert_eq!(online_marker(&api_achievement(1, 1, false, true)), '★');
    assert_eq!(online_marker(&api_achievement(1, 1, true, false)), '✓');
    assert_eq!(online_marker(&api_achievement(1, 1, false, false)), ' ');
    assert_eq!(local_marker(true), '✓');
    assert_eq!(local_marker(false), ' ');
}

#[test]
fn overlay_lists() {
    let defs = LocalDefinitions {
        game_id: 7,
        game_title: "Game".to_string(),
        console_id: 16,
        console_name: "Nintendo GameCube".to_string(),
        icon_url: Some("icon".to_string()),
        rich_presence_patch: String::new(),
        achievements: vec![
            LocalAchievement {
                id: 2,
                title: "Two".to_string(),
                description: "second".to_string(),
                points: 10,
                badge_name: "2".to_string(),
                mem_addr: "0xH1=1".to_string(),
                achievement_type: "standard".to_string(),
                display_order: 1,
            },
            LocalAchievement {
                id: 1,
                title: "One".to_string(),
                description: "first".to_string(),
                points: 5,
                badge_name: "1".to_string(),
                mem_addr: "0xH2=1".to_string(),
                achievement_type: "standard".to_string(),
                display_order: 2,
            },
        ],
        leaderboards: vec![],
    };
    let unlocked = UnlockTracker::new(&[1]);
    let local = local_overlay_entries(&defs, &unlocked);
    assert_eq!(local.len(), 2);
    assert_eq!((local[0].id, local[0].earned, local[0].earned_hardcore), (2, false, false));
    assert_eq!((local[1].id, local[1].earned, local[1].title.as_str()), (1, true, "One"));

    let summary = local_game_start(&defs, &None, 1);
    assert_eq!((summary.game_id, summary.title.as_str(), summary.console.as_str()), (7, "Game", "Nintendo GameCube"));
    assert_eq!((summary.achievements_total, summary.achievements_earned, summary.local_mode), (2, 1, true));
    assert_eq!(summary.icon_url.as_deref(), Some("icon"));
    assert_eq!(local_game_start(&defs, &Some("Mine".to_string()), 0).title, "Mine");

    let online = online_overlay_entries(&vec![
        api_achievement(30, 1, false, false),
        api_achievement(10, 2, true, false),
        api_achievement(20, 3, true, true),
    ]);
    let ids: Vec<u32> = online.iter().map(|e| e.id).collect();
    assert_eq!(ids, vec![30, 10, 20]);
    assert_eq!((online[0].earned, online[0].earned_hardcore), (false, false));
    assert_eq!((online[1].earned, online[1].earned_hardcore), (true, false));
    assert_eq!((online[2].earned, online[2].earned_hardcore), (true, true));

    // Display order first, then ID.
    let tied = online_overlay_entries(&vec![
        api_achievement(2, 1, false, false),
        api_achievement(1, 2, false, false),
        api_achievement(9, 0, false, false),
        api_achievement(4, 1, false, false),
    ]);
    let ids: Vec<u32> = tied.iter().map(|e| e.id).collect();
    assert_eq!(ids, vec![9, 2, 4, 1]);
}

#[test]
fn stable_order() {
    assert_eq!(stable_order_by_key(&[3, 1, 2, 1, 3]), vec![1, 3, 2, 0, 4]);
    assert_eq!(stable_order_by_key(&[]), Vec::<usize>::new());
    assert_eq!(stable_order_by_key(&[5, 5, 5]), vec![0, 1, 2]);
}
