use kazeta_ra::console::ConsoleId;

#[test]
fn test_gamecube_from_str() {
    assert_eq!(ConsoleId::parse("gamecube"), Some(ConsoleId::GameCube));
    assert_eq!(ConsoleId::parse("gc"), Some(ConsoleId::GameCube));
    assert_eq!(ConsoleId::parse("ngc"), Some(ConsoleId::GameCube));
    assert_eq!(ConsoleId::parse("GAMECUBE"), Some(ConsoleId::GameCube));
}

#[test]
fn test_wii_from_str() {
    assert_eq!(ConsoleId::parse("wii"), Some(ConsoleId::Wii));
}

#[test]
fn test_gamecube_as_u32() {
    assert_eq!(ConsoleId::GameCube.as_u32(), 16);
}

#[test]
fn test_wii_as_u32() {
    assert_eq!(ConsoleId::Wii.as_u32(), 19);
}

#[test]
fn test_gamecube_to_string() {
    assert_eq!(ConsoleId::GameCube.to_string(), "gamecube");
}

#[test]
fn test_wii_to_string() {
    assert_eq!(ConsoleId::Wii.to_string(), "wii");
}

const ALL: [ConsoleId; 15] = [
    ConsoleId::MegaDrive,
    ConsoleId::Nintendo64,
    ConsoleId::SNES,
    ConsoleId::GameBoy,
    ConsoleId::GameBoyAdvance,
    ConsoleId::GameBoyColor,
    ConsoleId::NES,
    ConsoleId::MasterSystem,
    ConsoleId::PlayStation,
    ConsoleId::NintendoDS,
    ConsoleId::PlayStation2,
    ConsoleId::Atari2600,
    ConsoleId::VirtualBoy,
    ConsoleId::GameCube,
    ConsoleId::Wii,
];

#[test]
fn every_console_name_parses_back() {
    for c in ALL {
        assert_eq!(ConsoleId::parse(&c.to_string()), Some(c));
        assert_eq!(ConsoleId::parse(&c.to_string().to_uppercase()), Some(c));
    }
}

#[test]
fn console_numbers_match_retroachievements() {
    let expected = [1u32, 2, 3, 4, 5, 6, 7, 11, 12, 18, 21, 25, 28, 16, 19];
    for (c, n) in ALL.iter().zip(expected.iter()) {
        assert_eq!(c.as_u32(), *n);
    }
    let mut numbers: Vec<u32> = ALL.iter().map(|c| c.as_u32()).collect();
    numbers.sort();
    numbers.dedup();
    assert_eq!(numbers.len(), ALL.len());
}

#[test]
fn console_aliases_and_unknown_names() {
    assert_eq!(ConsoleId::parse("Game Boy Advance"), Some(ConsoleId::GameBoyAdvance));
    assert_eq!(ConsoleId::parse("Super Famicom"), Some(ConsoleId::SNES));
    assert_eq!(ConsoleId::parse("Nintendo 64"), Some(ConsoleId::Nintendo64));
    assert_eq!(ConsoleId::parse("PS1"), Some(ConsoleId::PlayStation));
    assert_eq!(ConsoleId::parse("playstation 2"), Some(ConsoleId::PlayStation2));
    assert_eq!(ConsoleId::parse("MegaDrive"), Some(ConsoleId::MegaDrive));
    assert_eq!(ConsoleId::parse("Master System"), Some(ConsoleId::MasterSystem));
    assert_eq!(ConsoleId::parse("ds"), Some(ConsoleId::NintendoDS));
    assert_eq!(ConsoleId::parse("2600"), Some(ConsoleId::Atari2600));
    assert_eq!(ConsoleId::parse("Virtual Boy"), Some(ConsoleId::VirtualBoy));
    assert_eq!(ConsoleId::parse("famicom"), Some(ConsoleId::NES));
    assert_eq!(ConsoleId::parse("dreamcast"), None);
    assert_eq!(ConsoleId::parse(""), None);
    assert_eq!(ConsoleId::parse(" gc"), None);
    assert_eq!(ConsoleId::parse("gamecubé"), None);
}
