use kazeta_ra::condition::parse_addresses_from_condition;
use kazeta_ra::local_definitions::{default_achievement_type, LocalAchievement, LocalDefinitions};

fn achievement(id: u32, mem_addr: &str) -> LocalAchievement {
    LocalAchievement {
        id,
        title: "A".to_string(),
        description: "D".to_string(),
        points: 5,
        badge_name: id.to_string(),
        mem_addr: mem_addr.to_string(),
        achievement_type: "standard".to_string(),
        display_order: id,
    }
}

fn definitions(achievements: Vec<LocalAchievement>) -> LocalDefinitions {
    LocalDefinitions {
        game_id: 1,
        game_title: "T".to_string(),
        console_id: 16,
        console_name: "GC".to_string(),
        icon_url: None,
        rich_presence_patch: String::new(),
        achievements,
        leaderboards: vec![],
    }
}

#[test]
fn test_parse_simple_address() {
    let addrs = parse_addresses_from_condition("0xH00801234=1");
    assert_eq!(addrs, vec![0x00801234]);
}

#[test]
fn test_parse_multiple_addresses() {
    let addrs = parse_addresses_from_condition("0xH00801234=1.0.5.0=d0xH00805678");
    assert_eq!(addrs, vec![0x00801234, 0x00805678]);
}

#[test]
fn test_parse_32bit_address() {
    let addrs = parse_addresses_from_condition("0xX00801234=42");
    assert_eq!(addrs, vec![0x00801234]);
}

#[test]
fn test_parse_16bit_address() {
    let addrs = parse_addresses_from_condition("0x 00801234=1");
    assert_eq!(addrs, vec![0x00801234]);
}

#[test]
fn test_extract_memory_addresses_aligns_to_4() {
    let defs = LocalDefinitions {
        game_id: 1,
        game_title: "T".to_string(),
        console_id: 16,
        console_name: "GC".to_string(),
        icon_url: None,
        rich_presence_patch: String::new(),
        achievements: vec![
            LocalAchievement {
                id: 1,
                title: "A".to_string(),
                description: "D".to_string(),
                points: 5,
                badge_name: "1".to_string(),
                mem_addr: "0xH00801235=1".to_string(),
                achievement_type: "standard".to_string(),
                display_order: 1,
            },
            LocalAchievement {
                id: 2,
                title: "B".to_string(),
                description: "D".to_string(),
                points: 5,
                badge_name: "2".to_string(),
                mem_addr: "0xH00801237=1".to_string(),
                achievement_type: "standard".to_string(),
                display_order: 2,
            },
        ],
        leaderboards: vec![],
    };

    let addrs = defs.extract_memory_addresses();
    // Both 0x00801235 and 0x00801237 align down to 0x00801234
    assert_eq!(addrs, vec![0x00801234]);
}

#[test]
fn test_extract_memory_addresses_deduplicates() {
    let defs = LocalDefinitions {
        game_id: 1,
        game_title: "T".to_string(),
        console_id: 16,
        console_name: "GC".to_string(),
        icon_url: None,
        rich_presence_patch: String::new(),
        achievements: vec![LocalAchievement {
            id: 1,
            title: "A".to_string(),
            description: "D".to_string(),
            points: 5,
            badge_name: "1".to_string(),
            mem_addr: "0xH00801234=1.0.5.0=d0xH00801234".to_string(),
            achievement_type: "standard".to_string(),
            display_order: 1,
        }],
        leaderboards: vec![],
    };

    let addrs = defs.extract_memory_addresses();
    assert_eq!(addrs, vec![0x00801234]);
}

#[test]
fn parse_edge_cases() {
    // "0x" at the very end is no reference.
    assert_eq!(parse_addresses_from_condition("1=0x"), Vec::<u32>::new());
    // A modifier with no digits yields nothing.
    assert_eq!(parse_addresses_from_condition("0xH=1"), vec![1]);
    // The skip stops at '+' or '-', which read no digits.
    assert_eq!(parse_addresses_from_condition("0xH+12"), Vec::<u32>::new());
    assert_eq!(parse_addresses_from_condition("0xM-0xH12"), vec![0x12]);
    // Too many significant digits do not fit in u32.
    assert_eq!(parse_addresses_from_condition("0xX123456789=1"), Vec::<u32>::new());
    // Leading zeros are fine.
    assert_eq!(parse_addresses_from_condition("0x0000000001"), vec![1]);
    // Lower-case digits.
    assert_eq!(parse_addresses_from_condition("0xHabcdef"), vec![0xabcdef]);
    // Several references separated by other syntax.
    assert_eq!(
        parse_addresses_from_condition("0xH10=1_P:0xX20>d0xX20.0xL30"),
        vec![0x10, 0x20, 0x20, 0x30]
    );
    assert_eq!(parse_addresses_from_condition(""), Vec::<u32>::new());
}

#[test]
fn extract_orders_and_merges_all_achievements() {
    let defs = definitions(vec![
        achievement(1, "0xH00805679=1_0xH0080000A=2"),
        achievement(2, "0xX00400000=3"),
        achievement(3, "0xH00805678=d0xH00805678"),
    ]);
    assert_eq!(defs.extract_memory_addresses(), vec![0x00400000, 0x00800008, 0x00805678]);
    assert_eq!(definitions(vec![]).extract_memory_addresses(), Vec::<u32>::new());
}

#[test]
fn default_type_is_standard() {
    assert_eq!(default_achievement_type(), "standard");
}
