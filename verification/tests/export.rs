use kazeta_ra::export::{
    badge_download_url, badge_file_name, badge_summary, build_local_definitions, tally_badges,
    truncate, BadgeOutcome, ExportError,
    PatchAchievement, PatchData,
};

fn patch_achievement(id: u64, mem_addr: Option<&str>, kind: Option<&str>) -> PatchAchievement {
    PatchAchievement {
        id: Some(id),
        title: Some(format!("T{}", id)),
        description: Some("desc".to_string()),
        points: Some(10),
        badge_name: Some(format!("{}", id)),
        mem_addr: mem_addr.map(|m| m.to_string()),
        achievement_type: kind.map(|k| k.to_string()),
    }
}

fn patch(achievements: Option<Vec<PatchAchievement>>) -> PatchData {
    PatchData {
        id: Some(7693),
        console_id: Some(16),
        title: Some("Mario Kart: Double Dash".to_string()),
        rich_presence_patch: None,
        achievements,
    }
}

#[test]
fn export_drops_placeholder_and_keeps_positions() {
    let p = patch(Some(vec![
        patch_achievement(1, Some("1=1.300."), None),
        patch_achievement(55001, Some("0xH00801234=1"), Some("progression")),
        patch_achievement(55002, None, Some("win")),
        PatchAchievement {
            id: None,
            title: None,
            description: None,
            points: Some(u64::from(u32::MAX) + 2),
            badge_name: None,
            mem_addr: Some("0xX10=1".to_string()),
            achievement_type: Some("other".to_string()),
        },
    ]));
    let defs = build_local_definitions(&p).unwrap();
    assert_eq!(defs.game_id, 7693);
    assert_eq!(defs.console_id, 16);
    assert_eq!(defs.game_title, "Mario Kart: Double Dash");
    assert_eq!(defs.console_name, "Nintendo GameCube");
    assert_eq!(defs.rich_presence_patch, "");
    assert!(defs.icon_url.is_none());
    assert!(defs.leaderboards.is_empty());
    assert_eq!(defs.achievements.len(), 3);
    let a = &defs.achievements[0];
    assert_eq!((a.id, a.display_order, a.achievement_type.as_str()), (55001, 2, "progression"));
    assert_eq!(a.mem_addr, "0xH00801234=1");
    assert_eq!(a.title, "T55001");
    let b = &defs.achievements[1];
    assert_eq!((b.id, b.display_order, b.achievement_type.as_str(), b.mem_addr.as_str()), (55002, 3, "win", ""));
    let c = &defs.achievements[2];
    assert_eq!((c.id, c.points, c.display_order, c.achievement_type.as_str()), (0, 1, 4, "standard"));
    assert_eq!((c.title.as_str(), c.badge_name.as_str()), ("", ""));
}

#[test]
fn export_refuses_unknown_game_and_missing_list() {
    let mut p = patch(Some(vec![]));
    p.id = Some(0);
    assert_eq!(build_local_definitions(&p).unwrap_err(), ExportError::GameNotFound);
    p.id = None;
    assert_eq!(build_local_definitions(&p).unwrap_err(), ExportError::GameNotFound);
    p.id = Some(1u64 << 32);
    assert_eq!(build_local_definitions(&p).unwrap_err(), ExportError::GameNotFound);
    let q = patch(None);
    assert_eq!(build_local_definitions(&q).unwrap_err(), ExportError::NoAchievements);
    let mut r = patch(Some(vec![]));
    r.title = None;
    r.console_id = None;
    let defs = build_local_definitions(&r).unwrap();
    assert_eq!(defs.game_title, "Unknown");
    assert_eq!(defs.console_id, 0);
    assert!(defs.achievements.is_empty());
}

#[test]
fn truncate_fits_columns() {
    assert_eq!(truncate("short", 60), "short");
    assert_eq!(truncate("exactly10!", 10), "exactly10!");
    assert_eq!(truncate("The Legend of Zelda", 10), "The Leg...");
    assert_eq!(truncate("abcd", 3), "...");
    assert_eq!(truncate("Pokémon Colosseum", 9), "Pokém...");
    assert_eq!(truncate("Pokémon Colosseum", 9).len(), 9);
    assert!(truncate("The Legend of Zelda", 10).len() <= 10);
}

#[test]
fn badge_helpers() {
    assert_eq!(badge_file_name("55001"), "55001.png");
    assert_eq!(badge_summary(5, 2, 7), (3, 2, 2));
    assert_eq!(badge_download_url("55001"), "https://media.retroachievements.org/Badge/55001.png");
    let outcomes = [
        BadgeOutcome::AlreadyPresent,
        BadgeOutcome::Failed,
        BadgeOutcome::Downloaded,
        BadgeOutcome::Downloaded,
    ];
    assert_eq!(tally_badges(&outcomes), (3, 1));
    assert_eq!(tally_badges(&[]), (0, 0));
}
