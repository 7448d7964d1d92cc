//! RetroAchievements console identifiers.
use vstd::prelude::*;
use crate::text::{chars_equal, chars_of};

verus! {

/// Console IDs as defined by RetroAchievements.
#[derive(Debug, Clone, Copy, PartialEq, Eq, Structural)]
pub enum ConsoleId {
    /// Sega Mega Drive / Genesis (RetroAchievements console 1)
    MegaDrive,
    /// Nintendo 64 (RetroAchievements console 2)
    Nintendo64,
    /// Super Nintendo (RetroAchievements console 3)
    SNES,
    /// Game Boy (RetroAchievements console 4)
    GameBoy,
    /// Game Boy Advance (RetroAchievements console 5)
    GameBoyAdvance,
    /// Game Boy Color (RetroAchievements console 6)
    GameBoyColor,
    /// Nintendo Entertainment System (RetroAchievements console 7)
    NES,
    /// Sega Master System (RetroAchievements console 11)
    MasterSystem,
    /// PlayStation (RetroAchievements console 12)
    PlayStation,
    /// Nintendo DS (RetroAchievements console 18)
    NintendoDS,
    /// PlayStation 2 (RetroAchievements console 21)
    PlayStation2,
    /// Atari 2600 (RetroAchievements console 25)
    Atari2600,
    /// Virtual Boy (RetroAchievements console 28)
    VirtualBoy,
    /// Nintendo GameCube (RetroAchievements console 16)
    GameCube,
    /// Nintendo Wii (RetroAchievements console 19)
    Wii,
}

/// The RetroAchievements number of a console.
pub open spec fn console_number(c: ConsoleId) -> u32 {
    match c {
        ConsoleId::MegaDrive => 1,
        ConsoleId::Nintendo64 => 2,
        ConsoleId::SNES => 3,
        ConsoleId::GameBoy => 4,
        ConsoleId::GameBoyAdvance => 5,
        ConsoleId::GameBoyColor => 6,
        ConsoleId::NES => 7,
        ConsoleId::MasterSystem => 11,
        ConsoleId::PlayStation => 12,
        ConsoleId::NintendoDS => 18,
        ConsoleId::PlayStation2 => 21,
        ConsoleId::Atari2600 => 25,
        ConsoleId::VirtualBoy => 28,
        ConsoleId::GameCube => 16,
        ConsoleId::Wii => 19,
    }
}

/// The short name a console is written as.
pub open spec fn console_label(c: ConsoleId) -> Seq<char> {
    match c {
        ConsoleId::MegaDrive => "genesis"@,
        ConsoleId::Nintendo64 => "n64"@,
        ConsoleId::SNES => "snes"@,
        ConsoleId::GameBoy => "gb"@,
        ConsoleId::GameBoyAdvance => "gba"@,
        ConsoleId::GameBoyColor => "gbc"@,
        ConsoleId::NES => "nes"@,
        ConsoleId::MasterSystem => "sms"@,
        ConsoleId::PlayStation => "psx"@,
        ConsoleId::NintendoDS => "nds"@,
        ConsoleId::PlayStation2 => "ps2"@,
        ConsoleId::Atari2600 => "atari2600"@,
        ConsoleId::VirtualBoy => "vb"@,
        ConsoleId::GameCube => "gamecube"@,
        ConsoleId::Wii => "wii"@,
    }
}

/// ASCII upper-case letters lowered; every other character kept.
pub open spec fn ascii_lower(c: char) -> char {
    if 'A' <= c <= 'Z' {
        ((c as u32) + 32) as char
    } else {
        c
    }
}

pub open spec fn ascii_lowercase(s: Seq<char>) -> Seq<char> {
    Seq::new(s.len(), |i: int| ascii_lower(s[i]))
}

/// The console a lower-case name stands for.
pub open spec fn console_for_name(n: Seq<char>) -> Option<ConsoleId> {
    if n == "gba"@ || n == "gameboy advance"@ || n == "game boy advance"@ {
        Some(ConsoleId::GameBoyAdvance)
    } else if n == "gb"@ || n == "gameboy"@ || n == "game boy"@ {
        Some(ConsoleId::GameBoy)
    } else if n == "gbc"@ || n == "gameboy color"@ || n == "game boy color"@ {
        Some(ConsoleId::GameBoyColor)
    } else if n == "nes"@ || n == "famicom"@ {
        Some(ConsoleId::NES)
    } else if n == "snes"@ || n == "super nintendo"@ || n == "super famicom"@ {
        Some(ConsoleId::SNES)
    } else if n == "n64"@ || n == "nintendo 64"@ {
        Some(ConsoleId::Nintendo64)
    } else if n == "psx"@ || n == "ps1"@ || n == "playstation"@ {
        Some(ConsoleId::PlayStation)
    } else if n == "ps2"@ || n == "playstation 2"@ {
        Some(ConsoleId::PlayStation2)
    } else if n == "genesis"@ || n == "mega drive"@ || n == "megadrive"@ {
        Some(ConsoleId::MegaDrive)
    } else if n == "sms"@ || n == "master system"@ {
        Some(ConsoleId::MasterSystem)
    } else if n == "nds"@ || n == "ds"@ || n == "nintendo ds"@ {
        Some(ConsoleId::NintendoDS)
    } else if n == "atari2600"@ || n == "2600"@ {
        Some(ConsoleId::Atari2600)
    } else if n == "vb"@ || n == "virtual boy"@ {
        Some(ConsoleId::VirtualBoy)
    } else if n == "gamecube"@ || n == "gc"@ || n == "ngc"@ {
        Some(ConsoleId::GameCube)
    } else if n == "wii"@ {
        Some(ConsoleId::Wii)
    } else {
        None
    }
}

/// The console a name stands for, ignoring case.
///
/// `str::to_lowercase` also lowers non-ASCII characters, but the only one
/// it turns into an ASCII character is the Kelvin sign (into `k`), and no
/// console name contains `k`: lowering the ASCII letters alone accepts the
/// same names.
pub open spec fn parse_console(s: Seq<char>) -> Option<ConsoleId> {
    console_for_name(ascii_lowercase(s))
}

impl ConsoleId {
    /// Parses a console name (case-insensitive), e.g. `gamecube`, `gc` or
    /// `ngc` for the GameCube; `None` for an unknown name.
    pub fn parse(s: &str) -> (r: Option<ConsoleId>)
        ensures
            r == parse_console(s@),
    {
        let chars = chars_of(s);
        let mut lower: Vec<char> = Vec::new();
        let mut i: usize = 0;
        while i < chars.len()
            invariant
                i <= chars@.len(),
                lower@ =~= ascii_lowercase(chars@.take(i as int)),
            decreases chars@.len() - i,
        {
            let c = chars[i];
            let l = if 'A' <= c && c <= 'Z' {
                ((c as u8) + 32) as char
            } else {
                c
            };
            lower.push(l);
            i = i + 1;
        }
        assert(chars@.take(chars@.len() as int) =~= chars@);
        if chars_equal(&lower, "gba") || chars_equal(&lower, "gameboy advance") || chars_equal(&lower, "game boy advance") {
            Some(ConsoleId::GameBoyAdvance)
        } else if chars_equal(&lower, "gb") || chars_equal(&lower, "gameboy") || chars_equal(&lower, "game boy") {
            Some(ConsoleId::GameBoy)
        } else if chars_equal(&lower, "gbc") || chars_equal(&lower, "gameboy color") || chars_equal(&lower, "game boy color") {
            Some(ConsoleId::GameBoyColor)
        } else if chars_equal(&lower, "nes") || chars_equal(&lower, "famicom") {
            Some(ConsoleId::NES)
        } else if chars_equal(&lower, "snes") || chars_equal(&lower, "super nintendo") || chars_equal(&lower, "super famicom") {
            Some(ConsoleId::SNES)
        } else if chars_equal(&lower, "n64") || chars_equal(&lower, "nintendo 64") {
            Some(ConsoleId::Nintendo64)
        } else if chars_equal(&lower, "psx") || chars_equal(&lower, "ps1") || chars_equal(&lower, "playstation") {
            Some(ConsoleId::PlayStation)
        } else if chars_equal(&lower, "ps2") || chars_equal(&lower, "playstation 2") {
            Some(ConsoleId::PlayStation2)
        } else if chars_equal(&lower, "genesis") || chars_equal(&lower, "mega drive") || chars_equal(&lower, "megadrive") {
            Some(ConsoleId::MegaDrive)
        } else if chars_equal(&lower, "sms") || chars_equal(&lower, "master system") {
            Some(ConsoleId::MasterSystem)
        } else if chars_equal(&lower, "nds") || chars_equal(&lower, "ds") || chars_equal(&lower, "nintendo ds") {
            Some(ConsoleId::NintendoDS)
        } else if chars_equal(&lower, "atari2600") || chars_equal(&lower, "2600") {
            Some(ConsoleId::Atari2600)
        } else if chars_equal(&lower, "vb") || chars_equal(&lower, "virtual boy") {
            Some(ConsoleId::VirtualBoy)
        } else if chars_equal(&lower, "gamecube") || chars_equal(&lower, "gc") || chars_equal(&lower, "ngc") {
            Some(ConsoleId::GameCube)
        } else if chars_equal(&lower, "wii") {
            Some(ConsoleId::Wii)
        } else {
            None
        }
    }

    /// The RetroAchievements console number.
    pub fn as_u32(&self) -> (n: u32)
        ensures
            n == console_number(*self),
    {
        match self {
            ConsoleId::MegaDrive => 1,
            ConsoleId::Nintendo64 => 2,
            ConsoleId::SNES => 3,
            ConsoleId::GameBoy => 4,
            ConsoleId::GameBoyAdvance => 5,
            ConsoleId::GameBoyColor => 6,
            ConsoleId::NES => 7,
            ConsoleId::MasterSystem => 11,
            ConsoleId::PlayStation => 12,
            ConsoleId::NintendoDS => 18,
            ConsoleId::PlayStation2 => 21,
            ConsoleId::Atari2600 => 25,
            ConsoleId::VirtualBoy => 28,
            ConsoleId::GameCube => 16,
            ConsoleId::Wii => 19,
        }
    }

    /// The short name of the console, e.g. `gamecube`.
    pub fn to_string(&self) -> (s: String)
        ensures
            s@ == console_label(*self),
    {
        match self {
            ConsoleId::MegaDrive => "genesis".to_owned(),
            ConsoleId::Nintendo64 => "n64".to_owned(),
            ConsoleId::SNES => "snes".to_owned(),
            ConsoleId::GameBoy => "gb".to_owned(),
            ConsoleId::GameBoyAdvance => "gba".to_owned(),
            ConsoleId::GameBoyColor => "gbc".to_owned(),
            ConsoleId::NES => "nes".to_owned(),
            ConsoleId::MasterSystem => "sms".to_owned(),
            ConsoleId::PlayStation => "psx".to_owned(),
            ConsoleId::NintendoDS => "nds".to_owned(),
            ConsoleId::PlayStation2 => "ps2".to_owned(),
            ConsoleId::Atari2600 => "atari2600".to_owned(),
            ConsoleId::VirtualBoy => "vb".to_owned(),
            ConsoleId::GameCube => "gamecube".to_owned(),
            ConsoleId::Wii => "wii".to_owned(),
        }
    }
}

/// Every console's short name parses back to that console.
pub proof fn lemma_label_parses_back(c: ConsoleId)
    ensures
        parse_console(console_label(c)) == Some(c),
{
    reveal_strlit("2600");
    reveal_strlit("atari2600");
    reveal_strlit("ds");
    reveal_strlit("famicom");
    reveal_strlit("game boy");
    reveal_strlit("game boy advance");
    reveal_strlit("game boy color");
    reveal_strlit("gameboy");
    reveal_strlit("gameboy advance");
    reveal_strlit("gameboy color");
    reveal_strlit("gamecube");
    reveal_strlit("gb");
    reveal_strlit("gba");
    reveal_strlit("gbc");
    reveal_strlit("gc");
    reveal_strlit("genesis");
    reveal_strlit("master system");
    reveal_strlit("mega drive");
    reveal_strlit("megadrive");
    reveal_strlit("n64");
    reveal_strlit("nds");
    reveal_strlit("nes");
    reveal_strlit("ngc");
    reveal_strlit("nintendo 64");
    reveal_strlit("nintendo ds");
    reveal_strlit("playstation");
    reveal_strlit("playstation 2");
    reveal_strlit("ps1");
    reveal_strlit("ps2");
    reveal_strlit("psx");
    reveal_strlit("sms");
    reveal_strlit("snes");
    reveal_strlit("super famicom");
    reveal_strlit("super nintendo");
    reveal_strlit("vb");
    reveal_strlit("virtual boy");
    reveal_strlit("wii");
    match c {
        ConsoleId::GameBoyAdvance => {
            assert(ascii_lowercase("gba"@) =~= "gba"@);
        },
        ConsoleId::GameBoy => {
            assert(ascii_lowercase("gb"@) =~= "gb"@);
        },
        ConsoleId::GameBoyColor => {
            assert(ascii_lowercase("gbc"@) =~= "gbc"@);
            assert("gbc"@[2] != "gba"@[2]);
        },
        ConsoleId::NES => {
            assert(ascii_lowercase("nes"@) =~= "nes"@);
            assert("nes"@[0] != "gba"@[0]);
            assert("nes"@[0] != "gbc"@[0]);
        },
        ConsoleId::SNES => {
            assert(ascii_lowercase("snes"@) =~= "snes"@);
        },
        ConsoleId::Nintendo64 => {
            assert(ascii_lowercase("n64"@) =~= "n64"@);
            assert("n64"@[0] != "gba"@[0]);
            assert("n64"@[0] != "gbc"@[0]);
            assert("n64"@[1] != "nes"@[1]);
        },
        ConsoleId::PlayStation => {
            assert(ascii_lowercase("psx"@) =~= "psx"@);
            assert("psx"@[0] != "gba"@[0]);
            assert("psx"@[0] != "gbc"@[0]);
            assert("psx"@[0] != "nes"@[0]);
            assert("psx"@[0] != "n64"@[0]);
        },
        ConsoleId::PlayStation2 => {
            assert(ascii_lowercase("ps2"@) =~= "ps2"@);
            assert("ps2"@[0] != "gba"@[0]);
            assert("ps2"@[0] != "gbc"@[0]);
            assert("ps2"@[0] != "nes"@[0]);
            assert("ps2"@[0] != "n64"@[0]);
            assert("ps2"@[2] != "psx"@[2]);
            assert("ps2"@[2] != "ps1"@[2]);
        },
        ConsoleId::MegaDrive => {
            assert(ascii_lowercase("genesis"@) =~= "genesis"@);
            assert("genesis"@[1] != "gameboy"@[1]);
            assert("genesis"@[0] != "famicom"@[0]);
        },
        ConsoleId::MasterSystem => {
            assert(ascii_lowercase("sms"@) =~= "sms"@);
            assert("sms"@[0] != "gba"@[0]);
            assert("sms"@[0] != "gbc"@[0]);
            assert("sms"@[0] != "nes"@[0]);
            assert("sms"@[0] != "n64"@[0]);
            assert("sms"@[0] != "psx"@[0]);
            assert("sms"@[0] != "ps1"@[0]);
            assert("sms"@[0] != "ps2"@[0]);
        },
        ConsoleId::NintendoDS => {
            assert(ascii_lowercase("nds"@) =~= "nds"@);
            assert("nds"@[0] != "gba"@[0]);
            assert("nds"@[0] != "gbc"@[0]);
            assert("nds"@[1] != "nes"@[1]);
            assert("nds"@[1] != "n64"@[1]);
            assert("nds"@[0] != "psx"@[0]);
            assert("nds"@[0] != "ps1"@[0]);
            assert("nds"@[0] != "ps2"@[0]);
            assert("nds"@[0] != "sms"@[0]);
        },
        ConsoleId::Atari2600 => {
            assert(ascii_lowercase("atari2600"@) =~= "atari2600"@);
            assert("atari2600"@[0] != "megadrive"@[0]);
        },
        ConsoleId::VirtualBoy => {
            assert(ascii_lowercase("vb"@) =~= "vb"@);
            assert("vb"@[0] != "gb"@[0]);
            assert("vb"@[0] != "ds"@[0]);
        },
        ConsoleId::GameCube => {
            assert(ascii_lowercase("gamecube"@) =~= "gamecube"@);
            assert("gamecube"@[4] != "game boy"@[4]);
        },
        ConsoleId::Wii => {
            assert(ascii_lowercase("wii"@) =~= "wii"@);
            assert("wii"@[0] != "gba"@[0]);
            assert("wii"@[0] != "gbc"@[0]);
            assert("wii"@[0] != "nes"@[0]);
            assert("wii"@[0] != "n64"@[0]);
            assert("wii"@[0] != "psx"@[0]);
            assert("wii"@[0] != "ps1"@[0]);
            assert("wii"@[0] != "ps2"@[0]);
            assert("wii"@[0] != "sms"@[0]);
            assert("wii"@[0] != "nds"@[0]);
            assert("wii"@[0] != "ngc"@[0]);
        },
    }
}

/// The names of this console, lower-case, stand for it.
proof fn lemma_names_of_game_boy_advance()
    ensures
        console_for_name("gba"@) == Some(ConsoleId::GameBoyAdvance),
        console_for_name("gameboy advance"@) == Some(ConsoleId::GameBoyAdvance),
        console_for_name("game boy advance"@) == Some(ConsoleId::GameBoyAdvance),
{
    reveal_strlit("game boy advance");
    reveal_strlit("gameboy advance");
    reveal_strlit("gba");

}

/// The names of this console, lower-case, stand for it.
proof fn lemma_names_of_game_boy()
    ensures
        console_for_name("gb"@) == Some(ConsoleId::GameBoy),
        console_for_name("gameboy"@) == Some(ConsoleId::GameBoy),
        console_for_name("game boy"@) == Some(ConsoleId::GameBoy),
{
    reveal_strlit("game boy");
    reveal_strlit("game boy advance");
    reveal_strlit("gameboy");
    reveal_strlit("gameboy advance");
    reveal_strlit("gb");
    reveal_strlit("gba");
    assert("gb"@.len() != "gba"@.len()
        && "gb"@.len() != "gameboy advance"@.len()
        && "gb"@.len() != "game boy advance"@.len());
    assert("gameboy"@.len() != "gba"@.len()
        && "gameboy"@.len() != "gameboy advance"@.len()
        && "gameboy"@.len() != "game boy advance"@.len());
    assert("game boy"@.len() != "gba"@.len()
        && "game boy"@.len() != "gameboy advance"@.len()
        && "game boy"@.len() != "game boy advance"@.len());
}

/// The names of this console, lower-case, stand for it.
proof fn lemma_names_of_game_boy_color()
    ensures
        console_for_name("gbc"@) == Some(ConsoleId::GameBoyColor),
        console_for_name("gameboy color"@) == Some(ConsoleId::GameBoyColor),
        console_for_name("game boy color"@) == Some(ConsoleId::GameBoyColor),
{
    reveal_strlit("game boy");
    reveal_strlit("game boy advance");
    reveal_strlit("game boy color");
    reveal_strlit("gameboy");
    reveal_strlit("gameboy advance");
    reveal_strlit("gameboy color");
    reveal_strlit("gb");
    reveal_strlit("gba");
    reveal_strlit("gbc");
    assert("gbc"@[2] != "gba"@[2]
        && "gbc"@.len() != "gameboy advance"@.len()
        && "gbc"@.len() != "game boy advance"@.len()
        && "gbc"@.len() != "gb"@.len()
        && "gbc"@.len() != "gameboy"@.len()
        && "gbc"@.len() != "game boy"@.len());
    assert("gameboy color"@.len() != "gba"@.len()
        && "gameboy color"@.len() != "gameboy advance"@.len()
        && "gameboy color"@.len() != "game boy advance"@.len()
        && "gameboy color"@.len() != "gb"@.len()
        && "gameboy color"@.len() != "gameboy"@.len()
        && "gameboy color"@.len() != "game boy"@.len());
    assert("game boy color"@.len() != "gba"@.len()
        && "game boy color"@.len() != "gameboy advance"@.len()
        && "game boy color"@.len() != "game boy advance"@.len()
        && "game boy color"@.len() != "gb"@.len()
        && "game boy color"@.len() != "gameboy"@.len()
        && "game boy color"@.len() != "game boy"@.len());
}

/// The names of this console, lower-case, stand for it.
proof fn lemma_names_of_nes()
    ensures
        console_for_name("nes"@) == Some(ConsoleId::NES),
        console_for_name("famicom"@) == Some(ConsoleId::NES),
{
    reveal_strlit("famicom");
    reveal_strlit("game boy");
    reveal_strlit("game boy advance");
    reveal_strlit("game boy color");
    reveal_strlit("gameboy");
    reveal_strlit("gameboy advance");
    reveal_strlit("gameboy color");
    reveal_strlit("gb");
    reveal_strlit("gba");
    reveal_strlit("gbc");
    reveal_strlit("nes");
    assert("nes"@[0] != "gba"@[0]
        && "nes"@.len() != "gameboy advance"@.len()
        && "nes"@.len() != "game boy advance"@.len()
        && "nes"@.len() != "gb"@.len()
        && "nes"@.len() != "gameboy"@.len()
        && "nes"@.len() != "game boy"@.len()
        && "nes"@[0] != "gbc"@[0]
        && "nes"@.len() != "gameboy color"@.len()
        && "nes"@.len() != "game boy color"@.len());
    assert("famicom"@.len() != "gba"@.len()
        && "famicom"@.len() != "gameboy advance"@.len()
        && "famicom"@.len() != "game boy advance"@.len()
        && "famicom"@.len() != "gb"@.len()
        && "famicom"@[0] != "gameboy"@[0]
        && "famicom"@.len() != "game boy"@.len()
        && "famicom"@.len() != "gbc"@.len()
        && "famicom"@.len() != "gameboy color"@.len()
        && "famicom"@.len() != "game boy color"@.len());
}

/// The names of this console, lower-case, stand for it.
proof fn lemma_names_of_snes()
    ensures
        console_for_name("snes"@) == Some(ConsoleId::SNES),
        console_for_name("super nintendo"@) == Some(ConsoleId::SNES),
        console_for_name("super famicom"@) == Some(ConsoleId::SNES),
{
    reveal_strlit("famicom");
    reveal_strlit("game boy");
    reveal_strlit("game boy advance");
    reveal_strlit("game boy color");
    reveal_strlit("gameboy");
    reveal_strlit("gameboy advance");
    reveal_strlit("gameboy color");
    reveal_strlit("gb");
    reveal_strlit("gba");
    reveal_strlit("gbc");
    reveal_strlit("nes");
    reveal_strlit("snes");
    reveal_strlit("super famicom");
    reveal_strlit("super nintendo");
    assert("snes"@.len() != "gba"@.len()
        && "snes"@.len() != "gameboy advance"@.len()
        && "snes"@.len() != "game boy advance"@.len()
        && "snes"@.len() != "gb"@.len()
        && "snes"@.len() != "gameboy"@.len()
        && "snes"@.len() != "game boy"@.len()
        && "snes"@.len() != "gbc"@.len()
        && "snes"@.len() != "gameboy color"@.len()
        && "snes"@.len() != "game boy color"@.len()
        && "snes"@.len() != "nes"@.len()
        && "snes"@.len() != "famicom"@.len());
    assert("super nintendo"@.len() != "gba"@.len()
        && "super nintendo"@.len() != "gameboy advance"@.len()
        && "super nintendo"@.len() != "game boy advance"@.len()
        && "super nintendo"@.len() != "gb"@.len()
        && "super nintendo"@.len() != "gameboy"@.len()
        && "super nintendo"@.len() != "game boy"@.len()
        && "super nintendo"@.len() != "gbc"@.len()
        && "super nintendo"@.len() != "gameboy color"@.len()
        && "super nintendo"@[0] != "game boy color"@[0]
        && "super nintendo"@.len() != "nes"@.len()
        && "super nintendo"@.len() != "famicom"@.len());
    assert("super famicom"@.len() != "gba"@.len()
        && "super famicom"@.len() != "gameboy advance"@.len()
        && "super famicom"@.len() != "game boy advance"@.len()
        && "super famicom"@.len() != "gb"@.len()
        && "super famicom"@.len() != "gameboy"@.len()
        && "super famicom"@.len() != "game boy"@.len()
        && "super famicom"@.len() != "gbc"@.len()
        && "super famicom"@[0] != "gameboy color"@[0]
        && "super famicom"@.len() != "game boy color"@.len()
        && "super famicom"@.len() != "nes"@.len()
        && "super famicom"@.len() != "famicom"@.len());
}

/// The names of this console, lower-case, stand for it.
proof fn lemma_names_of_nintendo64()
    ensures
        console_for_name("n64"@) == Some(ConsoleId::Nintendo64),
        console_for_name("nintendo 64"@) == Some(ConsoleId::Nintendo64),
{
    reveal_strlit("famicom");
    reveal_strlit("game boy");
    reveal_strlit("game boy advance");
    reveal_strlit("game boy color");
    reveal_strlit("gameboy");
    reveal_strlit("gameboy advance");
    reveal_strlit("gameboy color");
    reveal_strlit("gb");
    reveal_strlit("gba");
    reveal_strlit("gbc");
    reveal_strlit("n64");
    reveal_strlit("nes");
    reveal_strlit("nintendo 64");
    reveal_strlit("snes");
    reveal_strlit("super famicom");
    reveal_strlit("super nintendo");
    assert("n64"@[0] != "gba"@[0]
        && "n64"@.len() != "gameboy advance"@.len()
        && "n64"@.len() != "game boy advance"@.len()
        && "n64"@.len() != "gb"@.len()
        && "n64"@.len() != "gameboy"@.len()
        && "n64"@.len() != "game boy"@.len()
        && "n64"@[0] != "gbc"@[0]
        && "n64"@.len() != "gameboy color"@.len()
        && "n64"@.len() != "game boy color"@.len()
        && "n64"@[1] != "nes"@[1]
        && "n64"@.len() != "famicom"@.len()
        && "n64"@.len() != "snes"@.len()
        && "n64"@.len() != "super nintendo"@.len()
        && "n64"@.len() != "super famicom"@.len());
    assert("nintendo 64"@.len() != "gba"@.len()
        && "nintendo 64"@.len() != "gameboy advance"@.len()
        && "nintendo 64"@.len() != "game boy advance"@.len()
        && "nintendo 64"@.len() != "gb"@.len()
        && "nintendo 64"@.len() != "gameboy"@.len()
        && "nintendo 64"@.len() != "game boy"@.len()
        && "nintendo 64"@.len() != "gbc"@.len()
        && "nintendo 64"@.len() != "gameboy color"@.len()
        && "nintendo 64"@.len() != "game boy color"@.len()
        && "nintendo 64"@.len() != "nes"@.len()
        && "nintendo 64"@.len() != "famicom"@.len()
        && "nintendo 64"@.len() != "snes"@.len()
        && "nintendo 64"@.len() != "super nintendo"@.len()
        && "nintendo 64"@.len() != "super famicom"@.len());
}

/// The names of this console, lower-case, stand for it.
proof fn lemma_names_of_play_station()
    ensures
        console_for_name("psx"@) == Some(ConsoleId::PlayStation),
        console_for_name("ps1"@) == Some(ConsoleId::PlayStation),
        console_for_name("playstation"@) == Some(ConsoleId::PlayStation),
{
    reveal_strlit("famicom");
    reveal_strlit("game boy");
    reveal_strlit("game boy advance");
    reveal_strlit("game boy color");
    reveal_strlit("gameboy");
    reveal_strlit("gameboy advance");
    reveal_strlit("gameboy color");
    reveal_strlit("gb");
    reveal_strlit("gba");
    reveal_strlit("gbc");
    reveal_strlit("n64");
    reveal_strlit("nes");
    reveal_strlit("nintendo 64");
    reveal_strlit("playstation");
    reveal_strlit("ps1");
    reveal_strlit("psx");
    reveal_strlit("snes");
    reveal_strlit("super famicom");
    reveal_strlit("super nintendo");
    assert("psx"@[0] != "gba"@[0]
        && "psx"@.len() != "gameboy advance"@.len()
        && "psx"@.len() != "game boy advance"@.len()
        && "psx"@.len() != "gb"@.len()
        && "psx"@.len() != "gameboy"@.len()
        && "psx"@.len() != "game boy"@.len()
        && "psx"@[0] != "gbc"@[0]
        && "psx"@.len() != "gameboy color"@.len()
        && "psx"@.len() != "game boy color"@.len()
        && "psx"@[0] != "nes"@[0]
        && "psx"@.len() != "famicom"@.len()
        && "psx"@.len() != "snes"@.len()
        && "psx"@.len() != "super nintendo"@.len()
        && "psx"@.len() != "super famicom"@.len()
        && "psx"@[0] != "n64"@[0]
        && "psx"@.len() != "nintendo 64"@.len());
    assert("ps1"@[0] != "gba"@[0]
        && "ps1"@.len() != "gameboy advance"@.len()
        && "ps1"@.len() != "game boy advance"@.len()
        && "ps1"@.len() != "gb"@.len()
        && "ps1"@.len() != "gameboy"@.len()
        && "ps1"@.len() != "game boy"@.len()
        && "ps1"@[0] != "gbc"@[0]
        && "ps1"@.len() != "gameboy color"@.len()
        && "ps1"@.len() != "game boy color"@.len()
        && "ps1"@[0] != "nes"@[0]
        && "ps1"@.len() != "famicom"@.len()
        && "ps1"@.len() != "snes"@.len()
        && "ps1"@.len() != "super nintendo"@.len()
        && "ps1"@.len() != "super famicom"@.len()
        && "ps1"@[0] != "n64"@[0]
        && "ps1"@.len() != "nintendo 64"@.len());
    assert("playstation"@.len() != "gba"@.len()
        && "playstation"@.len() != "gameboy advance"@.len()
        && "playstation"@.len() != "game boy advance"@.len()
        && "playstation"@.len() != "gb"@.len()
        && "playstation"@.len() != "gameboy"@.len()
        && "playstation"@.len() != "game boy"@.len()
        && "playstation"@.len() != "gbc"@.len()
        && "playstation"@.len() != "gameboy color"@.len()
        && "playstation"@.len() != "game boy color"@.len()
        && "playstation"@.len() != "nes"@.len()
        && "playstation"@.len() != "famicom"@.len()
        && "playstation"@.len() != "snes"@.len()
        && "playstation"@.len() != "super nintendo"@.len()
        && "playstation"@.len() != "super famicom"@.len()
        && "playstation"@.len() != "n64"@.len()
        && "playstation"@[0] != "nintendo 64"@[0]);
}

/// The names of this console, lower-case, stand for it.
proof fn lemma_names_of_play_station2()
    ensures
        console_for_name("ps2"@) == Some(ConsoleId::PlayStation2),
        console_for_name("playstation 2"@) == Some(ConsoleId::PlayStation2),
{
    reveal_strlit("famicom");
    reveal_strlit("game boy");
    reveal_strlit("game boy advance");
    reveal_strlit("game boy color");
    reveal_strlit("gameboy");
    reveal_strlit("gameboy advance");
    reveal_strlit("gameboy color");
    reveal_strlit("gb");
    reveal_strlit("gba");
    reveal_strlit("gbc");
    reveal_strlit("n64");
    reveal_strlit("nes");
    reveal_strlit("nintendo 64");
    reveal_strlit("playstation");
    reveal_strlit("playstation 2");
    reveal_strlit("ps1");
    reveal_strlit("ps2");
    reveal_strlit("psx");
    reveal_strlit("snes");
    reveal_strlit("super famicom");
    reveal_strlit("super nintendo");
    assert("ps2"@[0] != "gba"@[0]
        && "ps2"@.len() != "gameboy advance"@.len()
        && "ps2"@.len() != "game boy advance"@.len()
        && "ps2"@.len() != "gb"@.len()
        && "ps2"@.len() != "gameboy"@.len()
        && "ps2"@.len() != "game boy"@.len()
        && "ps2"@[0] != "gbc"@[0]
        && "ps2"@.len() != "gameboy color"@.len()
        && "ps2"@.len() != "game boy color"@.len()
        && "ps2"@[0] != "nes"@[0]
        && "ps2"@.len() != "famicom"@.len()
        && "ps2"@.len() != "snes"@.len()
        && "ps2"@.len() != "super nintendo"@.len()
        && "ps2"@.len() != "super famicom"@.len()
        && "ps2"@[0] != "n64"@[0]
        && "ps2"@.len() != "nintendo 64"@.len()
        && "ps2"@[2] != "psx"@[2]
        && "ps2"@[2] != "ps1"@[2]
        && "ps2"@.len() != "playstation"@.len());
    assert("playstation 2"@.len() != "gba"@.len()
        && "playstation 2"@.len() != "gameboy advance"@.len()
        && "playstation 2"@.len() != "game boy advance"@.len()
        && "playstation 2"@.len() != "gb"@.len()
        && "playstation 2"@.len() != "gameboy"@.len()
        && "playstation 2"@.len() != "game boy"@.len()
        && "playstation 2"@.len() != "gbc"@.len()
        && "playstation 2"@[0] != "gameboy color"@[0]
        && "playstation 2"@.len() != "game boy color"@.len()
        && "playstation 2"@.len() != "nes"@.len()
        && "playstation 2"@.len() != "famicom"@.len()
        && "playstation 2"@.len() != "snes"@.len()
        && "playstation 2"@.len() != "super nintendo"@.len()
        && "playstation 2"@[0] != "super famicom"@[0]
        && "playstation 2"@.len() != "n64"@.len()
        && "playstation 2"@.len() != "nintendo 64"@.len()
        && "playstation 2"@.len() != "psx"@.len()
        && "playstation 2"@.len() != "ps1"@.len()
        && "playstation 2"@.len() != "playstation"@.len());
}

/// The names of this console, lower-case, stand for it.
proof fn lemma_names_of_mega_drive()
    ensures
        console_for_name("genesis"@) == Some(ConsoleId::MegaDrive),
        console_for_name("mega drive"@) == Some(ConsoleId::MegaDrive),
        console_for_name("megadrive"@) == Some(ConsoleId::MegaDrive),
{
    reveal_strlit("famicom");
    reveal_strlit("game boy");
    reveal_strlit("game boy advance");
    reveal_strlit("game boy color");
    reveal_strlit("gameboy");
    reveal_strlit("gameboy advance");
    reveal_strlit("gameboy color");
    reveal_strlit("gb");
    reveal_strlit("gba");
    reveal_strlit("gbc");
    reveal_strlit("genesis");
    reveal_strlit("mega drive");
    reveal_strlit("megadrive");
    reveal_strlit("n64");
    reveal_strlit("nes");
    reveal_strlit("nintendo 64");
    reveal_strlit("playstation");
    reveal_strlit("playstation 2");
    reveal_strlit("ps1");
    reveal_strlit("ps2");
    reveal_strlit("psx");
    reveal_strlit("snes");
    reveal_strlit("super famicom");
    reveal_strlit("super nintendo");
    assert("genesis"@.len() != "gba"@.len()
        && "genesis"@.len() != "gameboy advance"@.len()
        && "genesis"@.len() != "game boy advance"@.len()
        && "genesis"@.len() != "gb"@.len()
        && "genesis"@[1] != "gameboy"@[1]
        && "genesis"@.len() != "game boy"@.len()
        && "genesis"@.len() != "gbc"@.len()
        && "genesis"@.len() != "gameboy color"@.len()
        && "genesis"@.len() != "game boy color"@.len()
        && "genesis"@.len() != "nes"@.len()
        && "genesis"@[0] != "famicom"@[0]
        && "genesis"@.len() != "snes"@.len()
        && "genesis"@.len() != "super nintendo"@.len()
        && "genesis"@.len() != "super famicom"@.len()
        && "genesis"@.len() != "n64"@.len()
        && "genesis"@.len() != "nintendo 64"@.len()
        && "genesis"@.len() != "psx"@.len()
        && "genesis"@.len() != "ps1"@.len()
        && "genesis"@.len() != "playstation"@.len()
        && "genesis"@.len() != "ps2"@.len()
        && "genesis"@.len() != "playstation 2"@.len());
    assert("mega drive"@.len() != "gba"@.len()
        && "mega drive"@.len() != "gameboy advance"@.len()
        && "mega drive"@.len() != "game boy advance"@.len()
        && "mega drive"@.len() != "gb"@.len()
        && "mega drive"@.len() != "gameboy"@.len()
        && "mega drive"@.len() != "game boy"@.len()
        && "mega drive"@.len() != "gbc"@.len()
        && "mega drive"@.len() != "gameboy color"@.len()
        && "mega drive"@.len() != "game boy color"@.len()
        && "mega drive"@.len() != "nes"@.len()
        && "mega drive"@.len() != "famicom"@.len()
        && "mega drive"@.len() != "snes"@.len()
        && "mega drive"@.len() != "super nintendo"@.len()
        && "mega drive"@.len() != "super famicom"@.len()
        && "mega drive"@.len() != "n64"@.len()
        && "mega drive"@.len() != "nintendo 64"@.len()
        && "mega drive"@.len() != "psx"@.len()
        && "mega drive"@.len() != "ps1"@.len()
        && "mega drive"@.len() != "playstation"@.len()
        && "mega drive"@.len() != "ps2"@.len()
        && "mega drive"@.len() != "playstation 2"@.len());
    assert("megadrive"@.len() != "gba"@.len()
        && "megadrive"@.len() != "gameboy advance"@.len()
        && "megadrive"@.len() != "game boy advance"@.len()
        && "megadrive"@.len() != "gb"@.len()
        && "megadrive"@.len() != "gameboy"@.len()
        && "megadrive"@.len() != "game boy"@.len()
        && "megadrive"@.len() != "gbc"@.len()
        && "megadrive"@.len() != "gameboy color"@.len()
        && "megadrive"@.len() != "game boy color"@.len()
        && "megadrive"@.len() != "nes"@.len()
        && "megadrive"@.len() != "famicom"@.len()
        && "megadrive"@.len() != "snes"@.len()
        && "megadrive"@.len() != "super nintendo"@.len()
        && "megadrive"@.len() != "super famicom"@.len()
        && "megadrive"@.len() != "n64"@.len()
        && "megadrive"@.len() != "nintendo 64"@.len()
        && "megadrive"@.len() != "psx"@.len()
        && "megadrive"@.len() != "ps1"@.len()
        && "megadrive"@.len() != "playstation"@.len()
        && "megadrive"@.len() != "ps2"@.len()
        && "megadrive"@.len() != "playstation 2"@.len());
}

/// The names of this console, lower-case, stand for it.
proof fn lemma_names_of_master_system()
    ensures
        console_for_name("sms"@) == Some(ConsoleId::MasterSystem),
        console_for_name("master system"@) == Some(ConsoleId::MasterSystem),
{
    reveal_strlit("famicom");
    reveal_strlit("game boy");
    reveal_strlit("game boy advance");
    reveal_strlit("game boy color");
    reveal_strlit("gameboy");
    reveal_strlit("gameboy advance");
    reveal_strlit("gameboy color");
    reveal_strlit("gb");
    reveal_strlit("gba");
    reveal_strlit("gbc");
    reveal_strlit("genesis");
    reveal_strlit("master system");
    reveal_strlit("mega drive");
    reveal_strlit("megadrive");
    reveal_strlit("n64");
    reveal_strlit("nes");
    reveal_strlit("nintendo 64");
    reveal_strlit("playstation");
    reveal_strlit("playstation 2");
    reveal_strlit("ps1");
    reveal_strlit("ps2");
    reveal_strlit("psx");
    reveal_strlit("sms");
    reveal_strlit("snes");
    reveal_strlit("super famicom");
    reveal_strlit("super nintendo");
    assert("sms"@[0] != "gba"@[0]
        && "sms"@.len() != "gameboy advance"@.len()
        && "sms"@.len() != "game boy advance"@.len()
        && "sms"@.len() != "gb"@.len()
        && "sms"@.len() != "gameboy"@.len()
        && "sms"@.len() != "game boy"@.len()
        && "sms"@[0] != "gbc"@[0]
        && "sms"@.len() != "gameboy color"@.len()
        && "sms"@.len() != "game boy color"@.len()
        && "sms"@[0] != "nes"@[0]
        && "sms"@.len() != "famicom"@.len()
        && "sms"@.len() != "snes"@.len()
        && "sms"@.len() != "super nintendo"@.len()
        && "sms"@.len() != "super famicom"@.len()
        && "sms"@[0] != "n64"@[0]
        && "sms"@.len() != "nintendo 64"@.len()
        && "sms"@[0] != "psx"@[0]
        && "sms"@[0] != "ps1"@[0]
        && "sms"@.len() != "playstation"@.len()
        && "sms"@[0] != "ps2"@[0]
        && "sms"@.len() != "playstation 2"@.len()
        && "sms"@.len() != "genesis"@.len()
        && "sms"@.len() != "mega drive"@.len()
        && "sms"@.len() != "megadrive"@.len());
    assert("master system"@.len() != "gba"@.len()
        && "master system"@.len() != "gameboy advance"@.len()
        && "master system"@.len() != "game boy advance"@.len()
        && "master system"@.len() != "gb"@.len()
        && "master system"@.len() != "gameboy"@.len()
        && "master system"@.len() != "game boy"@.len()
        && "master system"@.len() != "gbc"@.len()
        && "master system"@[0] != "gameboy color"@[0]
        && "master system"@.len() != "game boy color"@.len()
        && "master system"@.len() != "nes"@.len()
        && "master system"@.len() != "famicom"@.len()
        && "master system"@.len() != "snes"@.len()
        && "master system"@.len() != "super nintendo"@.len()
        && "master system"@[0] != "super famicom"@[0]
        && "master system"@.len() != "n64"@.len()
        && "master system"@.len() != "nintendo 64"@.len()
        && "master system"@.len() != "psx"@.len()
        && "master system"@.len() != "ps1"@.len()
        && "master system"@.len() != "playstation"@.len()
        && "master system"@.len() != "ps2"@.len()
        && "master system"@[0] != "playstation 2"@[0]
        && "master system"@.len() != "genesis"@.len()
        && "master system"@.len() != "mega drive"@.len()
        && "master system"@.len() != "megadrive"@.len());
}

/// The names of this console, lower-case, stand for it.
proof fn lemma_names_of_nintendo_ds()
    ensures
        console_for_name("nds"@) == Some(ConsoleId::NintendoDS),
        console_for_name("ds"@) == Some(ConsoleId::NintendoDS),
        console_for_name("nintendo ds"@) == Some(ConsoleId::NintendoDS),
{
    reveal_strlit("ds");
    reveal_strlit("famicom");
    reveal_strlit("game boy");
    reveal_strlit("game boy advance");
    reveal_strlit("game boy color");
    reveal_strlit("gameboy");
    reveal_strlit("gameboy advance");
    reveal_strlit("gameboy color");
    reveal_strlit("gb");
    reveal_strlit("gba");
    reveal_strlit("gbc");
    reveal_strlit("genesis");
    reveal_strlit("master system");
    reveal_strlit("mega drive");
    reveal_strlit("megadrive");
    reveal_strlit("n64");
    reveal_strlit("nds");
    reveal_strlit("nes");
    reveal_strlit("nintendo 64");
    reveal_strlit("nintendo ds");
    reveal_strlit("playstation");
    reveal_strlit("playstation 2");
    reveal_strlit("ps1");
    reveal_strlit("ps2");
    reveal_strlit("psx");
    reveal_strlit("sms");
    reveal_strlit("snes");
    reveal_strlit("super famicom");
    reveal_strlit("super nintendo");
    assert("nds"@[0] != "gba"@[0]
        && "nds"@.len() != "gameboy advance"@.len()
        && "nds"@.len() != "game boy advance"@.len()
        && "nds"@.len() != "gb"@.len()
        && "nds"@.len() != "gameboy"@.len()
        && "nds"@.len() != "game boy"@.len()
        && "nds"@[0] != "gbc"@[0]
        && "nds"@.len() != "gameboy color"@.len()
        && "nds"@.len() != "game boy color"@.len()
        && "nds"@[1] != "nes"@[1]
        && "nds"@.len() != "famicom"@.len()
        && "nds"@.len() != "snes"@.len()
        && "nds"@.len() != "super nintendo"@.len()
        && "nds"@.len() != "super famicom"@.len()
        && "nds"@[1] != "n64"@[1]
        && "nds"@.len() != "nintendo 64"@.len()
        && "nds"@[0] != "psx"@[0]
        && "nds"@[0] != "ps1"@[0]
        && "nds"@.len() != "playstation"@.len()
        && "nds"@[0] != "ps2"@[0]
        && "nds"@.len() != "playstation 2"@.len()
        && "nds"@.len() != "genesis"@.len()
        && "nds"@.len() != "mega drive"@.len()
        && "nds"@.len() != "megadrive"@.len()
        && "nds"@[0] != "sms"@[0]
        && "nds"@.len() != "master system"@.len());
    assert("ds"@.len() != "gba"@.len()
        && "ds"@.len() != "gameboy advance"@.len()
        && "ds"@.len() != "game boy advance"@.len()
        && "ds"@[0] != "gb"@[0]
        && "ds"@.len() != "gameboy"@.len()
        && "ds"@.len() != "game boy"@.len()
        && "ds"@.len() != "gbc"@.len()
        && "ds"@.len() != "gameboy color"@.len()
        && "ds"@.len() != "game boy color"@.len()
        && "ds"@.len() != "nes"@.len()
        && "ds"@.len() != "famicom"@.len()
        && "ds"@.len() != "snes"@.len()
        && "ds"@.len() != "super nintendo"@.len()
        && "ds"@.len() != "super famicom"@.len()
        && "ds"@.len() != "n64"@.len()
        && "ds"@.len() != "nintendo 64"@.len()
        && "ds"@.len() != "psx"@.len()
        && "ds"@.len() != "ps1"@.len()
        && "ds"@.len() != "playstation"@.len()
        && "ds"@.len() != "ps2"@.len()
        && "ds"@.len() != "playstation 2"@.len()
        && "ds"@.len() != "genesis"@.len()
        && "ds"@.len() != "mega drive"@.len()
        && "ds"@.len() != "megadrive"@.len()
        && "ds"@.len() != "sms"@.len()
        && "ds"@.len() != "master system"@.len());
    assert("nintendo ds"@.len() != "gba"@.len()
        && "nintendo ds"@.len() != "gameboy advance"@.len()
        && "nintendo ds"@.len() != "game boy advance"@.len()
        && "nintendo ds"@.len() != "gb"@.len()
        && "nintendo ds"@.len() != "gameboy"@.len()
        && "nintendo ds"@.len() != "game boy"@.len()
        && "nintendo ds"@.len() != "gbc"@.len()
        && "nintendo ds"@.len() != "gameboy color"@.len()
        && "nintendo ds"@.len() != "game boy color"@.len()
        && "nintendo ds"@.len() != "nes"@.len()
        && "nintendo ds"@.len() != "famicom"@.len()
        && "nintendo ds"@.len() != "snes"@.len()
        && "nintendo ds"@.len() != "super nintendo"@.len()
        && "nintendo ds"@.len() != "super famicom"@.len()
        && "nintendo ds"@.len() != "n64"@.len()
        && "nintendo ds"@[9] != "nintendo 64"@[9]
        && "nintendo ds"@.len() != "psx"@.len()
        && "nintendo ds"@.len() != "ps1"@.len()
        && "nintendo ds"@[0] != "playstation"@[0]
        && "nintendo ds"@.len() != "ps2"@.len()
        && "nintendo ds"@.len() != "playstation 2"@.len()
        && "nintendo ds"@.len() != "genesis"@.len()
        && "nintendo ds"@.len() != "mega drive"@.len()
        && "nintendo ds"@.len() != "megadrive"@.len()
        && "nintendo ds"@.len() != "sms"@.len()
        && "nintendo ds"@.len() != "master system"@.len());
}

/// The names of this console, lower-case, stand for it.
proof fn lemma_names_of_atari2600()
    ensures
        console_for_name("atari2600"@) == Some(ConsoleId::Atari2600),
        console_for_name("2600"@) == Some(ConsoleId::Atari2600),
{
    reveal_strlit("2600");
    reveal_strlit("atari2600");
    reveal_strlit("ds");
    reveal_strlit("famicom");
    reveal_strlit("game boy");
    reveal_strlit("game boy advance");
    reveal_strlit("game boy color");
    reveal_strlit("gameboy");
    reveal_strlit("gameboy advance");
    reveal_strlit("gameboy color");
    reveal_strlit("gb");
    reveal_strlit("gba");
    reveal_strlit("gbc");
    reveal_strlit("genesis");
    reveal_strlit("master system");
    reveal_strlit("mega drive");
    reveal_strlit("megadrive");
    reveal_strlit("n64");
    reveal_strlit("nds");
    reveal_strlit("nes");
    reveal_strlit("nintendo 64");
    reveal_strlit("nintendo ds");
    reveal_strlit("playstation");
    reveal_strlit("playstation 2");
    reveal_strlit("ps1");
    reveal_strlit("ps2");
    reveal_strlit("psx");
    reveal_strlit("sms");
    reveal_strlit("snes");
    reveal_strlit("super famicom");
    reveal_strlit("super nintendo");
    assert("atari2600"@.len() != "gba"@.len()
        && "atari2600"@.len() != "gameboy advance"@.len()
        && "atari2600"@.len() != "game boy advance"@.len()
        && "atari2600"@.len() != "gb"@.len()
        && "atari2600"@.len() != "gameboy"@.len()
        && "atari2600"@.len() != "game boy"@.len()
        && "atari2600"@.len() != "gbc"@.len()
        && "atari2600"@.len() != "gameboy color"@.len()
        && "atari2600"@.len() != "game boy color"@.len()
        && "atari2600"@.len() != "nes"@.len()
        && "atari2600"@.len() != "famicom"@.len()
        && "atari2600"@.len() != "snes"@.len()
        && "atari2600"@.len() != "super nintendo"@.len()
        && "atari2600"@.len() != "super famicom"@.len()
        && "atari2600"@.len() != "n64"@.len()
        && "atari2600"@.len() != "nintendo 64"@.len()
        && "atari2600"@.len() != "psx"@.len()
        && "atari2600"@.len() != "ps1"@.len()
        && "atari2600"@.len() != "playstation"@.len()
        && "atari2600"@.len() != "ps2"@.len()
        && "atari2600"@.len() != "playstation 2"@.len()
        && "atari2600"@.len() != "genesis"@.len()
        && "atari2600"@.len() != "mega drive"@.len()
        && "atari2600"@[0] != "megadrive"@[0]
        && "atari2600"@.len() != "sms"@.len()
        && "atari2600"@.len() != "master system"@.len()
        && "atari2600"@.len() != "nds"@.len()
        && "atari2600"@.len() != "ds"@.len()
        && "atari2600"@.len() != "nintendo ds"@.len());
    assert("2600"@.len() != "gba"@.len()
        && "2600"@.len() != "gameboy advance"@.len()
        && "2600"@.len() != "game boy advance"@.len()
        && "2600"@.len() != "gb"@.len()
        && "2600"@.len() != "gameboy"@.len()
        && "2600"@.len() != "game boy"@.len()
        && "2600"@.len() != "gbc"@.len()
        && "2600"@.len() != "gameboy color"@.len()
        && "2600"@.len() != "game boy color"@.len()
        && "2600"@.len() != "nes"@.len()
        && "2600"@.len() != "famicom"@.len()
        && "2600"@[0] != "snes"@[0]
        && "2600"@.len() != "super nintendo"@.len()
        && "2600"@.len() != "super famicom"@.len()
        && "2600"@.len() != "n64"@.len()
        && "2600"@.len() != "nintendo 64"@.len()
        && "2600"@.len() != "psx"@.len()
        && "2600"@.len() != "ps1"@.len()
        && "2600"@.len() != "playstation"@.len()
        && "2600"@.len() != "ps2"@.len()
        && "2600"@.len() != "playstation 2"@.len()
        && "2600"@.len() != "genesis"@.len()
        && "2600"@.len() != "mega drive"@.len()
        && "2600"@.len() != "megadrive"@.len()
        && "2600"@.len() != "sms"@.len()
        && "2600"@.len() != "master system"@.len()
        && "2600"@.len() != "nds"@.len()
        && "2600"@.len() != "ds"@.len()
        && "2600"@.len() != "nintendo ds"@.len());
}

/// The names of this console, lower-case, stand for it.
proof fn lemma_names_of_virtual_boy()
    ensures
        console_for_name("vb"@) == Some(ConsoleId::VirtualBoy),
        console_for_name("virtual boy"@) == Some(ConsoleId::VirtualBoy),
{
    reveal_strlit("2600");
    reveal_strlit("atari2600");
    reveal_strlit("ds");
    reveal_strlit("famicom");
    reveal_strlit("game boy");
    reveal_strlit("game boy advance");
    reveal_strlit("game boy color");
    reveal_strlit("gameboy");
    reveal_strlit("gameboy advance");
    reveal_strlit("gameboy color");
    reveal_strlit("gb");
    reveal_strlit("gba");
    reveal_strlit("gbc");
    reveal_strlit("genesis");
    reveal_strlit("master system");
    reveal_strlit("mega drive");
    reveal_strlit("megadrive");
    reveal_strlit("n64");
    reveal_strlit("nds");
    reveal_strlit("nes");
    reveal_strlit("nintendo 64");
    reveal_strlit("nintendo ds");
    reveal_strlit("playstation");
    reveal_strlit("playstation 2");
    reveal_strlit("ps1");
    reveal_strlit("ps2");
    reveal_strlit("psx");
    reveal_strlit("sms");
    reveal_strlit("snes");
    reveal_strlit("super famicom");
    reveal_strlit("super nintendo");
    reveal_strlit("vb");
    reveal_strlit("virtual boy");
    assert("vb"@.len() != "gba"@.len()
        && "vb"@.len() != "gameboy advance"@.len()
        && "vb"@.len() != "game boy advance"@.len()
        && "vb"@[0] != "gb"@[0]
        && "vb"@.len() != "gameboy"@.len()
        && "vb"@.len() != "game boy"@.len()
        && "vb"@.len() != "gbc"@.len()
        && "vb"@.len() != "gameboy color"@.len()
        && "vb"@.len() != "game boy color"@.len()
        && "vb"@.len() != "nes"@.len()
        && "vb"@.len() != "famicom"@.len()
        && "vb"@.len() != "snes"@.len()
        && "vb"@.len() != "super nintendo"@.len()
        && "vb"@.len() != "super famicom"@.len()
        && "vb"@.len() != "n64"@.len()
        && "vb"@.len() != "nintendo 64"@.len()
        && "vb"@.len() != "psx"@.len()
        && "vb"@.len() != "ps1"@.len()
        && "vb"@.len() != "playstation"@.len()
        && "vb"@.len() != "ps2"@.len()
        && "vb"@.len() != "playstation 2"@.len()
        && "vb"@.len() != "genesis"@.len()
        && "vb"@.len() != "mega drive"@.len()
        && "vb"@.len() != "megadrive"@.len()
        && "vb"@.len() != "sms"@.len()
        && "vb"@.len() != "master system"@.len()
        && "vb"@.len() != "nds"@.len()
        && "vb"@[0] != "ds"@[0]
        && "vb"@.len() != "nintendo ds"@.len()
        && "vb"@.len() != "atari2600"@.len()
        && "vb"@.len() != "2600"@.len());
    assert("virtual boy"@.len() != "gba"@.len()
        && "virtual boy"@.len() != "gameboy advance"@.len()
        && "virtual boy"@.len() != "game boy advance"@.len()
        && "virtual boy"@.len() != "gb"@.len()
        && "virtual boy"@.len() != "gameboy"@.len()
        && "virtual boy"@.len() != "game boy"@.len()
        && "virtual boy"@.len() != "gbc"@.len()
        && "virtual boy"@.len() != "gameboy color"@.len()
        && "virtual boy"@.len() != "game boy color"@.len()
        && "virtual boy"@.len() != "nes"@.len()
        && "virtual boy"@.len() != "famicom"@.len()
        && "virtual boy"@.len() != "snes"@.len()
        && "virtual boy"@.len() != "super nintendo"@.len()
        && "virtual boy"@.len() != "super famicom"@.len()
        && "virtual boy"@.len() != "n64"@.len()
        && "virtual boy"@[0] != "nintendo 64"@[0]
        && "virtual boy"@.len() != "psx"@.len()
        && "virtual boy"@.len() != "ps1"@.len()
        && "virtual boy"@[0] != "playstation"@[0]
        && "virtual boy"@.len() != "ps2"@.len()
        && "virtual boy"@.len() != "playstation 2"@.len()
        && "virtual boy"@.len() != "genesis"@.len()
        && "virtual boy"@.len() != "mega drive"@.len()
        && "virtual boy"@.len() != "megadrive"@.len()
        && "virtual boy"@.len() != "sms"@.len()
        && "virtual boy"@.len() != "master system"@.len()
        && "virtual boy"@.len() != "nds"@.len()
        && "virtual boy"@.len() != "ds"@.len()
        && "virtual boy"@[0] != "nintendo ds"@[0]
        && "virtual boy"@.len() != "atari2600"@.len()
        && "virtual boy"@.len() != "2600"@.len());
}

/// The names of this console, lower-case, stand for it.
proof fn lemma_names_of_game_cube()
    ensures
        console_for_name("gamecube"@) == Some(ConsoleId::GameCube),
        console_for_name("gc"@) == Some(ConsoleId::GameCube),
        console_for_name("ngc"@) == Some(ConsoleId::GameCube),
{
    reveal_strlit("2600");
    reveal_strlit("atari2600");
    reveal_strlit("ds");
    reveal_strlit("famicom");
    reveal_strlit("game boy");
    reveal_strlit("game boy advance");
    reveal_strlit("game boy color");
    reveal_strlit("gameboy");
    reveal_strlit("gameboy advance");
    reveal_strlit("gameboy color");
    reveal_strlit("gamecube");
    reveal_strlit("gb");
    reveal_strlit("gba");
    reveal_strlit("gbc");
    reveal_strlit("gc");
    reveal_strlit("genesis");
    reveal_strlit("master system");
    reveal_strlit("mega drive");
    reveal_strlit("megadrive");
    reveal_strlit("n64");
    reveal_strlit("nds");
    reveal_strlit("nes");
    reveal_strlit("ngc");
    reveal_strlit("nintendo 64");
    reveal_strlit("nintendo ds");
    reveal_strlit("playstation");
    reveal_strlit("playstation 2");
    reveal_strlit("ps1");
    reveal_strlit("ps2");
    reveal_strlit("psx");
    reveal_strlit("sms");
    reveal_strlit("snes");
    reveal_strlit("super famicom");
    reveal_strlit("super nintendo");
    reveal_strlit("vb");
    reveal_strlit("virtual boy");
    assert("gamecube"@.len() != "gba"@.len()
        && "gamecube"@.len() != "gameboy advance"@.len()
        && "gamecube"@.len() != "game boy advance"@.len()
        && "gamecube"@.len() != "gb"@.len()
        && "gamecube"@.len() != "gameboy"@.len()
        && "gamecube"@[4] != "game boy"@[4]
        && "gamecube"@.len() != "gbc"@.len()
        && "gamecube"@.len() != "gameboy color"@.len()
        && "gamecube"@.len() != "game boy color"@.len()
        && "gamecube"@.len() != "nes"@.len()
        && "gamecube"@.len() != "famicom"@.len()
        && "gamecube"@.len() != "snes"@.len()
        && "gamecube"@.len() != "super nintendo"@.len()
        && "gamecube"@.len() != "super famicom"@.len()
        && "gamecube"@.len() != "n64"@.len()
        && "gamecube"@.len() != "nintendo 64"@.len()
        && "gamecube"@.len() != "psx"@.len()
        && "gamecube"@.len() != "ps1"@.len()
        && "gamecube"@.len() != "playstation"@.len()
        && "gamecube"@.len() != "ps2"@.len()
        && "gamecube"@.len() != "playstation 2"@.len()
        && "gamecube"@.len() != "genesis"@.len()
        && "gamecube"@.len() != "mega drive"@.len()
        && "gamecube"@.len() != "megadrive"@.len()
        && "gamecube"@.len() != "sms"@.len()
        && "gamecube"@.len() != "master system"@.len()
        && "gamecube"@.len() != "nds"@.len()
        && "gamecube"@.len() != "ds"@.len()
        && "gamecube"@.len() != "nintendo ds"@.len()
        && "gamecube"@.len() != "atari2600"@.len()
        && "gamecube"@.len() != "2600"@.len()
        && "gamecube"@.len() != "vb"@.len()
        && "gamecube"@.len() != "virtual boy"@.len());
    assert("gc"@.len() != "gba"@.len()
        && "gc"@.len() != "gameboy advance"@.len()
        && "gc"@.len() != "game boy advance"@.len()
        && "gc"@[1] != "gb"@[1]
        && "gc"@.len() != "gameboy"@.len()
        && "gc"@.len() != "game boy"@.len()
        && "gc"@.len() != "gbc"@.len()
        && "gc"@.len() != "gameboy color"@.len()
        && "gc"@.len() != "game boy color"@.len()
        && "gc"@.len() != "nes"@.len()
        && "gc"@.len() != "famicom"@.len()
        && "gc"@.len() != "snes"@.len()
        && "gc"@.len() != "super nintendo"@.len()
        && "gc"@.len() != "super famicom"@.len()
        && "gc"@.len() != "n64"@.len()
        && "gc"@.len() != "nintendo 64"@.len()
        && "gc"@.len() != "psx"@.len()
        && "gc"@.len() != "ps1"@.len()
        && "gc"@.len() != "playstation"@.len()
        && "gc"@.len() != "ps2"@.len()
        && "gc"@.len() != "playstation 2"@.len()
        && "gc"@.len() != "genesis"@.len()
        && "gc"@.len() != "mega drive"@.len()
        && "gc"@.len() != "megadrive"@.len()
        && "gc"@.len() != "sms"@.len()
        && "gc"@.len() != "master system"@.len()
        && "gc"@.len() != "nds"@.len()
        && "gc"@[0] != "ds"@[0]
        && "gc"@.len() != "nintendo ds"@.len()
        && "gc"@.len() != "atari2600"@.len()
        && "gc"@.len() != "2600"@.len()
        && "gc"@[0] != "vb"@[0]
        && "gc"@.len() != "virtual boy"@.len());
    assert("ngc"@[0] != "gba"@[0]
        && "ngc"@.len() != "gameboy advance"@.len()
        && "ngc"@.len() != "game boy advance"@.len()
        && "ngc"@.len() != "gb"@.len()
        && "ngc"@.len() != "gameboy"@.len()
        && "ngc"@.len() != "game boy"@.len()
        && "ngc"@[0] != "gbc"@[0]
        && "ngc"@.len() != "gameboy color"@.len()
        && "ngc"@.len() != "game boy color"@.len()
        && "ngc"@[1] != "nes"@[1]
        && "ngc"@.len() != "famicom"@.len()
        && "ngc"@.len() != "snes"@.len()
        && "ngc"@.len() != "super nintendo"@.len()
        && "ngc"@.len() != "super famicom"@.len()
        && "ngc"@[1] != "n64"@[1]
        && "ngc"@.len() != "nintendo 64"@.len()
        && "ngc"@[0] != "psx"@[0]
        && "ngc"@[0] != "ps1"@[0]
        && "ngc"@.len() != "playstation"@.len()
        && "ngc"@[0] != "ps2"@[0]
        && "ngc"@.len() != "playstation 2"@.len()
        && "ngc"@.len() != "genesis"@.len()
        && "ngc"@.len() != "mega drive"@.len()
        && "ngc"@.len() != "megadrive"@.len()
        && "ngc"@[0] != "sms"@[0]
        && "ngc"@.len() != "master system"@.len()
        && "ngc"@[1] != "nds"@[1]
        && "ngc"@.len() != "ds"@.len()
        && "ngc"@.len() != "nintendo ds"@.len()
        && "ngc"@.len() != "atari2600"@.len()
        && "ngc"@.len() != "2600"@.len()
        && "ngc"@.len() != "vb"@.len()
        && "ngc"@.len() != "virtual boy"@.len());
}

/// The names of this console, lower-case, stand for it.
proof fn lemma_names_of_wii()
    ensures
        console_for_name("wii"@) == Some(ConsoleId::Wii),
{
    reveal_strlit("2600");
    reveal_strlit("atari2600");
    reveal_strlit("ds");
    reveal_strlit("famicom");
    reveal_strlit("game boy");
    reveal_strlit("game boy advance");
    reveal_strlit("game boy color");
    reveal_strlit("gameboy");
    reveal_strlit("gameboy advance");
    reveal_strlit("gameboy color");
    reveal_strlit("gamecube");
    reveal_strlit("gb");
    reveal_strlit("gba");
    reveal_strlit("gbc");
    reveal_strlit("gc");
    reveal_strlit("genesis");
    reveal_strlit("master system");
    reveal_strlit("mega drive");
    reveal_strlit("megadrive");
    reveal_strlit("n64");
    reveal_strlit("nds");
    reveal_strlit("nes");
    reveal_strlit("ngc");
    reveal_strlit("nintendo 64");
    reveal_strlit("nintendo ds");
    reveal_strlit("playstation");
    reveal_strlit("playstation 2");
    reveal_strlit("ps1");
    reveal_strlit("ps2");
    reveal_strlit("psx");
    reveal_strlit("sms");
    reveal_strlit("snes");
    reveal_strlit("super famicom");
    reveal_strlit("super nintendo");
    reveal_strlit("vb");
    reveal_strlit("virtual boy");
    reveal_strlit("wii");
    assert("wii"@[0] != "gba"@[0]
        && "wii"@.len() != "gameboy advance"@.len()
        && "wii"@.len() != "game boy advance"@.len()
        && "wii"@.len() != "gb"@.len()
        && "wii"@.len() != "gameboy"@.len()
        && "wii"@.len() != "game boy"@.len()
        && "wii"@[0] != "gbc"@[0]
        && "wii"@.len() != "gameboy color"@.len()
        && "wii"@.len() != "game boy color"@.len()
        && "wii"@[0] != "nes"@[0]
        && "wii"@.len() != "famicom"@.len()
        && "wii"@.len() != "snes"@.len()
        && "wii"@.len() != "super nintendo"@.len()
        && "wii"@.len() != "super famicom"@.len()
        && "wii"@[0] != "n64"@[0]
        && "wii"@.len() != "nintendo 64"@.len()
        && "wii"@[0] != "psx"@[0]
        && "wii"@[0] != "ps1"@[0]
        && "wii"@.len() != "playstation"@.len()
        && "wii"@[0] != "ps2"@[0]
        && "wii"@.len() != "playstation 2"@.len()
        && "wii"@.len() != "genesis"@.len()
        && "wii"@.len() != "mega drive"@.len()
        && "wii"@.len() != "megadrive"@.len()
        && "wii"@[0] != "sms"@[0]
        && "wii"@.len() != "master system"@.len()
        && "wii"@[0] != "nds"@[0]
        && "wii"@.len() != "ds"@.len()
        && "wii"@.len() != "nintendo ds"@.len()
        && "wii"@.len() != "atari2600"@.len()
        && "wii"@.len() != "2600"@.len()
        && "wii"@.len() != "vb"@.len()
        && "wii"@.len() != "virtual boy"@.len()
        && "wii"@.len() != "gamecube"@.len()
        && "wii"@.len() != "gc"@.len()
        && "wii"@[0] != "ngc"@[0]);
}

/// Every console name of the table parses to its console, whatever the
/// case of its ASCII letters; a name that is none of them parses to no
/// console.
pub proof fn lemma_console_aliases(s: Seq<char>)
    ensures
        ascii_lowercase(s) == "gba"@ ==> parse_console(s) == Some(ConsoleId::GameBoyAdvance),
        ascii_lowercase(s) == "gameboy advance"@ ==> parse_console(s) == Some(ConsoleId::GameBoyAdvance),
        ascii_lowercase(s) == "game boy advance"@ ==> parse_console(s) == Some(ConsoleId::GameBoyAdvance),
        ascii_lowercase(s) == "gb"@ ==> parse_console(s) == Some(ConsoleId::GameBoy),
        ascii_lowercase(s) == "gameboy"@ ==> parse_console(s) == Some(ConsoleId::GameBoy),
        ascii_lowercase(s) == "game boy"@ ==> parse_console(s) == Some(ConsoleId::GameBoy),
        ascii_lowercase(s) == "gbc"@ ==> parse_console(s) == Some(ConsoleId::GameBoyColor),
        ascii_lowercase(s) == "gameboy color"@ ==> parse_console(s) == Some(ConsoleId::GameBoyColor),
        ascii_lowercase(s) == "game boy color"@ ==> parse_console(s) == Some(ConsoleId::GameBoyColor),
        ascii_lowercase(s) == "nes"@ ==> parse_console(s) == Some(ConsoleId::NES),
        ascii_lowercase(s) == "famicom"@ ==> parse_console(s) == Some(ConsoleId::NES),
        ascii_lowercase(s) == "snes"@ ==> parse_console(s) == Some(ConsoleId::SNES),
        ascii_lowercase(s) == "super nintendo"@ ==> parse_console(s) == Some(ConsoleId::SNES),
        ascii_lowercase(s) == "super famicom"@ ==> parse_console(s) == Some(ConsoleId::SNES),
        ascii_lowercase(s) == "n64"@ ==> parse_console(s) == Some(ConsoleId::Nintendo64),
        ascii_lowercase(s) == "nintendo 64"@ ==> parse_console(s) == Some(ConsoleId::Nintendo64),
        ascii_lowercase(s) == "psx"@ ==> parse_console(s) == Some(ConsoleId::PlayStation),
        ascii_lowercase(s) == "ps1"@ ==> parse_console(s) == Some(ConsoleId::PlayStation),
        ascii_lowercase(s) == "playstation"@ ==> parse_console(s) == Some(ConsoleId::PlayStation),
        ascii_lowercase(s) == "ps2"@ ==> parse_console(s) == Some(ConsoleId::PlayStation2),
        ascii_lowercase(s) == "playstation 2"@ ==> parse_console(s) == Some(ConsoleId::PlayStation2),
        ascii_lowercase(s) == "genesis"@ ==> parse_console(s) == Some(ConsoleId::MegaDrive),
        ascii_lowercase(s) == "mega drive"@ ==> parse_console(s) == Some(ConsoleId::MegaDrive),
        ascii_lowercase(s) == "megadrive"@ ==> parse_console(s) == Some(ConsoleId::MegaDrive),
        ascii_lowercase(s) == "sms"@ ==> parse_console(s) == Some(ConsoleId::MasterSystem),
        ascii_lowercase(s) == "master system"@ ==> parse_console(s) == Some(ConsoleId::MasterSystem),
        ascii_lowercase(s) == "nds"@ ==> parse_console(s) == Some(ConsoleId::NintendoDS),
        ascii_lowercase(s) == "ds"@ ==> parse_console(s) == Some(ConsoleId::NintendoDS),
        ascii_lowercase(s) == "nintendo ds"@ ==> parse_console(s) == Some(ConsoleId::NintendoDS),
        ascii_lowercase(s) == "atari2600"@ ==> parse_console(s) == Some(ConsoleId::Atari2600),
        ascii_lowercase(s) == "2600"@ ==> parse_console(s) == Some(ConsoleId::Atari2600),
        ascii_lowercase(s) == "vb"@ ==> parse_console(s) == Some(ConsoleId::VirtualBoy),
        ascii_lowercase(s) == "virtual boy"@ ==> parse_console(s) == Some(ConsoleId::VirtualBoy),
        ascii_lowercase(s) == "gamecube"@ ==> parse_console(s) == Some(ConsoleId::GameCube),
        ascii_lowercase(s) == "gc"@ ==> parse_console(s) == Some(ConsoleId::GameCube),
        ascii_lowercase(s) == "ngc"@ ==> parse_console(s) == Some(ConsoleId::GameCube),
        ascii_lowercase(s) == "wii"@ ==> parse_console(s) == Some(ConsoleId::Wii),
        ({
            let n = ascii_lowercase(s);
            !(n == "gba"@ || n == "gameboy advance"@ || n == "game boy advance"@ || n == "gb"@ || n == "gameboy"@ || n == "game boy"@ || n == "gbc"@ || n == "gameboy color"@ || n == "game boy color"@ || n == "nes"@ || n == "famicom"@ || n == "snes"@ || n == "super nintendo"@ || n == "super famicom"@ || n == "n64"@ || n == "nintendo 64"@ || n == "psx"@ || n == "ps1"@ || n == "playstation"@ || n == "ps2"@ || n == "playstation 2"@ || n == "genesis"@ || n == "mega drive"@ || n == "megadrive"@ || n == "sms"@ || n == "master system"@ || n == "nds"@ || n == "ds"@ || n == "nintendo ds"@ || n == "atari2600"@ || n == "2600"@ || n == "vb"@ || n == "virtual boy"@ || n == "gamecube"@ || n == "gc"@ || n == "ngc"@ || n == "wii"@)
        }) ==> parse_console(s) is None,
{
    lemma_names_of_game_boy_advance();
    lemma_names_of_game_boy();
    lemma_names_of_game_boy_color();
    lemma_names_of_nes();
    lemma_names_of_snes();
    lemma_names_of_nintendo64();
    lemma_names_of_play_station();
    lemma_names_of_play_station2();
    lemma_names_of_mega_drive();
    lemma_names_of_master_system();
    lemma_names_of_nintendo_ds();
    lemma_names_of_atari2600();
    lemma_names_of_virtual_boy();
    lemma_names_of_game_cube();
    lemma_names_of_wii();
}

/// Parsing ignores the case of ASCII letters.
pub proof fn lemma_parse_ignores_case(s: Seq<char>, t: Seq<char>)
    requires
        ascii_lowercase(s) == ascii_lowercase(t),
    ensures
        parse_console(s) == parse_console(t),
{
}

/// Distinct consoles have distinct RetroAchievements numbers.
pub proof fn lemma_console_numbers_distinct(a: ConsoleId, b: ConsoleId)
    requires
        a != b,
    ensures
        console_number(a) != console_number(b),
{
}

} // verus!
