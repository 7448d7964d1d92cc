use kazeta_ra::cache::{found_row, progress_from_row, row_exists, unlock_count, CachedAchievement, RowLookup};
use kazeta_ra::rcheevos::{achievement_type_name, frame_triggered_ids, ParsedAchievement};
use kazeta_ra::types::Achievement;

fn cached(earned: bool, hardcore: bool) -> CachedAchievement {
    CachedAchievement {
        id: 1,
        title: "t".to_string(),
        description: None,
        points: 1,
        badge_name: None,
        display_order: 0,
        date_earned: if earned { Some("d".to_string()) } else { None },
        date_earned_hardcore: if hardcore { Some("h".to_string()) } else { None },
    }
}

#[test]
fn cached_achievement_earned_flags() {
    assert!(cached(true, false).is_earned());
    assert!(!cached(true, false).is_earned_hardcore());
    assert!(cached(false, true).is_earned());
    assert!(cached(false, true).is_earned_hardcore());
    assert!(!cached(false, false).is_earned());
}

#[test]
fn api_achievement_flags_and_badge() {
    let a = Achievement {
        id: 55001,
        title: "t".to_string(),
        description: "d".to_string(),
        points: 10,
        badge_name: "55001".to_string(),
        display_order: 1,
        mem_addr: None,
        achievement_type: "standard".to_string(),
        date_earned: None,
        date_earned_hardcore: Some("x".to_string()),
    };
    assert!(a.is_earned());
    assert!(a.is_earned_hardcore());
    assert_eq!(a.badge_url(), "https://media.retroachievements.org/Badge/55001.png");
}

#[test]
fn store_lookups() {
    assert_eq!(found_row(RowLookup::Row(7u32)).unwrap(), Some(7));
    assert_eq!(found_row(RowLookup::<u32>::NoRows).unwrap(), None);
    assert_eq!(found_row(RowLookup::<u32>::Failed("boom".to_string())).unwrap_err().message, "boom");
    assert!(row_exists(RowLookup::Row(())).unwrap());
    assert!(!row_exists(RowLookup::NoRows).unwrap());
    assert!(row_exists(RowLookup::Failed("x".to_string())).is_err());
    assert_eq!(unlock_count(3), 3);
    assert_eq!(unlock_count((1i64 << 32) + 5), 5);
    assert_eq!(unlock_count(-1), u32::MAX);
    assert_eq!(progress_from_row(10, 4), (4, 10));
}

#[test]
fn rcheevos_records() {
    assert_eq!(achievement_type_name(0), "standard");
    assert_eq!(achievement_type_name(1), "progression");
    assert_eq!(achievement_type_name(2), "missable");
    assert_eq!(achievement_type_name(3), "win");
    assert_eq!(achievement_type_name(9), "standard");
    let p = ParsedAchievement::from_definition(
        5,
        "t".to_string(),
        "d".to_string(),
        10,
        "b".to_string(),
        "0xH1=1".to_string(),
        3,
    );
    assert_eq!((p.id, p.display_order, p.achievement_type.as_str(), p.definition.as_str()), (5, 0, "win", "0xH1=1"));
    assert_eq!(frame_triggered_ids(&[]), Vec::<u32>::new());
    assert_eq!(frame_triggered_ids(&[(1, 4), (5, 7), (2, 9)]), vec![7]);
    assert_eq!(frame_triggered_ids(&[(5, 7), (2, 3), (5, 8)]), vec![7, 8]);
}
