//! The decisions behind the `kazeta-ra` commands: which ROM a command is
//! about, what it reports, and in which order achievements are listed.
use vstd::prelude::*;
use crate::console::{parse_console, ConsoleId};
use crate::evaluation::UnlockTracker;
use crate::local_definitions::LocalDefinitions;
use crate::types::Achievement;

verus! {

/// Why a command's ROM arguments cannot be resolved.
#[derive(Debug, Clone, PartialEq, Eq)]
pub enum TargetError {
    /// `--hash` was given without `--console`.
    ConsoleRequired,
    /// The console name is not known.
    UnknownConsole(String),
    /// Neither `--hash` nor `--path` was given.
    MissingTarget,
}

/// The ROM a command is about.
#[derive(Debug, Clone)]
pub enum RomTarget {
    /// A hash given directly, with its console.
    Hash { hash: String, console: ConsoleId },
    /// A ROM file to hash; its console is detected from the file when
    /// none was named.
    Path { console: Option<ConsoleId> },
}

/// Resolves `--hash`, `--path` and `--console`: a hash needs a console; a
/// path uses the named console or detects one; a named console must be
/// known; one of hash and path is required (the hash wins when both are
/// given).
pub fn resolve_rom_target(hash: Option<&str>, has_path: bool, console: Option<&str>) -> (r: Result<
    RomTarget,
    TargetError,
>)
    ensures
        match (hash, console) {
            (Some(h), Some(c)) => match parse_console(c@) {
                Some(id) => r matches Ok(RomTarget::Hash { hash: rh, console: rc }) && rh@ == h@
                    && rc == id,
                None => r matches Err(TargetError::UnknownConsole(name)) && name@ == c@,
            },
            (Some(_), None) => r == Err::<RomTarget, TargetError>(TargetError::ConsoleRequired),
            (None, _) => if !has_path {
                r == Err::<RomTarget, TargetError>(TargetError::MissingTarget)
            } else {
                match console {
                    Some(c) => match parse_console(c@) {
                        Some(id) => r == Ok::<RomTarget, TargetError>(
                            RomTarget::Path { console: Some(id) },
                        ),
                        None => r matches Err(TargetError::UnknownConsole(name)) && name@ == c@,
                    },
                    None => r == Ok::<RomTarget, TargetError>(RomTarget::Path { console: None }),
                }
            },
        },
{
    match hash {
        Some(h) => match console {
            Some(c) => match ConsoleId::parse(c) {
                Some(id) => Ok(RomTarget::Hash { hash: h.to_owned(), console: id }),
                None => Err(TargetError::UnknownConsole(c.to_owned())),
            },
            None => Err(TargetError::ConsoleRequired),
        },
        None => {
            if !has_path {
                return Err(TargetError::MissingTarget);
            }
            match console {
                Some(c) => match ConsoleId::parse(c) {
                    Some(id) => Ok(RomTarget::Path { console: Some(id) }),
                    None => Err(TargetError::UnknownConsole(c.to_owned())),
                },
                None => Ok(RomTarget::Path { console: None }),
            }
        },
    }
}

/// Resolves the arguments of `game-info`, which takes a hash without a
/// console (the console then counts as Game Boy Advance and `--console` is
/// not read).
pub fn resolve_game_info_target(hash: Option<&str>, has_path: bool, console: Option<&str>) -> (r:
    Result<RomTarget, TargetError>)
    ensures
        match hash {
            Some(h) => r matches Ok(RomTarget::Hash { hash: rh, console: rc }) && rh@ == h@ && rc
                == ConsoleId::GameBoyAdvance,
            None => if !has_path {
                r == Err::<RomTarget, TargetError>(TargetError::MissingTarget)
            } else {
                match console {
                    Some(c) => match parse_console(c@) {
                        Some(id) => r == Ok::<RomTarget, TargetError>(
                            RomTarget::Path { console: Some(id) },
                        ),
                        None => r matches Err(TargetError::UnknownConsole(name)) && name@ == c@,
                    },
                    None => r == Ok::<RomTarget, TargetError>(RomTarget::Path { console: None }),
                }
            },
        },
{
    match hash {
        Some(h) => Ok(RomTarget::Hash { hash: h.to_owned(), console: ConsoleId::GameBoyAdvance }),
        None => resolve_rom_target(None, has_path, console),
    }
}

/// `earned * 100 / total`, or 0 when the product overflows `usize` or
/// the total is 0.
pub open spec fn percent_of(earned: int, total: int, limit: int) -> int {
    if earned * 100 > limit || total == 0 {
        0
    } else {
        earned * 100 / total
    }
}

/// Completion percentage as the local listing shows it.
pub fn progress_percent(earned: usize, total: usize) -> (p: usize)
    ensures
        p == percent_of(earned as int, total as int, usize::MAX as int),
        earned <= total ==> p <= 100,
{
    match earned.checked_mul(100) {
        Some(v) => {
            if total == 0 {
                0
            } else {
                proof {
                    if earned <= total {
                        assert(v / total <= 100) by (nonlinear_arith)
                            requires
                                v == earned * 100,
                                earned <= total,
                                total > 0,
                        ;
                    }
                }
                v / total
            }
        },
        None => 0,
    }
}

/// Completion percentage as the online listing shows it, in `u32`.
pub fn progress_percent_u32(earned: u32, total: u32) -> (p: u32)
    ensures
        p == percent_of(earned as int, total as int, u32::MAX as int),
        earned <= total ==> p <= 100,
{
    match earned.checked_mul(100) {
        Some(v) => {
            if total == 0 {
                0
            } else {
                proof {
                    if earned <= total {
                        assert(v / total <= 100) by (nonlinear_arith)
                            requires
                                v == earned * 100,
                                earned <= total,
                                total > 0,
                        ;
                    }
                }
                v / total
            }
        },
        None => 0,
    }
}

/// What `status` reports, before any credential check.
#[derive(Debug, Clone, Copy, PartialEq, Eq, Structural)]
pub enum StatusPlan {
    /// Neither credentials nor local definitions: disabled.
    Disabled,
    /// Local definitions only: enabled in local mode, no account.
    LocalOnly,
    /// Credentials are stored: check them online.
    CheckCredentials,
}

pub fn status_plan(has_credentials: bool, local_mode: bool) -> (p: StatusPlan)
    ensures
        p == (if !has_credentials && !local_mode {
            StatusPlan::Disabled
        } else if !has_credentials {
            StatusPlan::LocalOnly
        } else {
            StatusPlan::CheckCredentials
        }),
{
    if !has_credentials && !local_mode {
        StatusPlan::Disabled
    } else if local_mode && !has_credentials {
        StatusPlan::LocalOnly
    } else {
        StatusPlan::CheckCredentials
    }
}

/// With stored credentials, achievements are enabled when the credentials
/// are valid or local definitions exist.
pub fn online_enabled(valid_credentials: bool, local_mode: bool) -> (e: bool)
    ensures
        e == (valid_credentials || local_mode),
{
    valid_credentials || local_mode
}

/// The title shown for a game: the custom name when one is set.
pub fn display_title(custom_name: &Option<String>, title: &str) -> (t: String)
    ensures
        t@ == (match custom_name {
            Some(n) => n@,
            None => title@,
        }),
{
    match custom_name {
        Some(n) => n.clone(),
        None => title.to_owned(),
    }
}

/// Status mark of an achievement in the online listing.
pub fn online_marker(a: &Achievement) -> (c: char)
    ensures
        c == (if a.date_earned_hardcore.is_some() {
            '★'
        } else if a.date_earned.is_some() {
            '✓'
        } else {
            ' '
        }),
{
    if a.is_earned_hardcore() {
        '★'
    } else if a.is_earned() {
        '✓'
    } else {
        ' '
    }
}

/// Status mark of an achievement in the local listing.
pub fn local_marker(unlocked: bool) -> (c: char)
    ensures
        c == (if unlocked {
            '✓'
        } else {
            ' '
        }),
{
    if unlocked {
        '✓'
    } else {
        ' '
    }
}

/// What `game-start` reports about a game.
#[derive(Debug, Clone)]
pub struct GameStartSummary {
    pub game_id: u32,
    pub title: String,
    pub console: String,
    pub achievements_total: u32,
    pub achievements_earned: u32,
    pub local_mode: bool,
    pub icon_url: Option<String>,
}

/// The `game-start` report for local definitions.  The total is the
/// number of definitions cast to `u32`.
pub fn local_game_start(defs: &LocalDefinitions, custom_name: &Option<String>, earned: u32) -> (s:
    GameStartSummary)
    ensures
        s.game_id == defs.game_id,
        s.title@ == (match custom_name {
            Some(n) => n@,
            None => defs.game_title@,
        }),
        s.console@ == defs.console_name@,
        s.achievements_total == defs.achievements@.len() as u32,
        s.achievements_earned == earned,
        s.local_mode,
        s.icon_url == defs.icon_url,
{
    GameStartSummary {
        game_id: defs.game_id,
        title: display_title(custom_name, defs.game_title.as_str()),
        console: defs.console_name.clone(),
        achievements_total: defs.achievements.len() as u32,
        achievements_earned: earned,
        local_mode: true,
        icon_url: match &defs.icon_url {
            Some(u) => Some(u.clone()),
            None => None,
        },
    }
}

/// One entry of the achievement list sent to the overlay.
#[derive(Debug, Clone)]
pub struct OverlayAchievement {
    pub id: u32,
    pub title: String,
    pub description: String,
    pub points: u32,
    pub earned: bool,
    pub earned_hardcore: bool,
}

/// The overlay list for local definitions, in definition order: earned when
/// unlocked locally, never hardcore.
pub fn local_overlay_entries(defs: &LocalDefinitions, unlocked: &UnlockTracker) -> (v: Vec<
    OverlayAchievement,
>)
    ensures
        v@.len() == defs.achievements@.len(),
        forall|k: int|
            0 <= k < v@.len() ==> {
                let a = defs.achievements@[k];
                &&& (#[trigger] v@[k]).id == a.id
                &&& v@[k].title@ == a.title@
                &&& v@[k].description@ == a.description@
                &&& v@[k].points == a.points
                &&& v@[k].earned == unlocked@.contains(a.id)
                &&& !v@[k].earned_hardcore
            },
{
    let n = defs.achievements.len();
    let mut v: Vec<OverlayAchievement> = Vec::new();
    let mut i: usize = 0;
    while i < n
        invariant
            n == defs.achievements@.len(),
            i <= n,
            v@.len() == i,
            forall|k: int|
                0 <= k < i ==> {
                    let a = defs.achievements@[k];
                    &&& (#[trigger] v@[k]).id == a.id
                    &&& v@[k].title@ == a.title@
                    &&& v@[k].description@ == a.description@
                    &&& v@[k].points == a.points
                    &&& v@[k].earned == unlocked@.contains(a.id)
                    &&& !v@[k].earned_hardcore
                },
        decreases n - i,
    {
        let a = &defs.achievements[i];
        v.push(
            OverlayAchievement {
                id: a.id,
                title: a.title.clone(),
                description: a.description.clone(),
                points: a.points,
                earned: unlocked.contains(a.id),
                earned_hardcore: false,
            },
        );
        i = i + 1;
    }
    v
}

/// `p` lists each index below `n` exactly once.
pub open spec fn is_index_permutation(p: Seq<usize>, n: int) -> bool {
    &&& p.len() == n
    &&& p.no_duplicates()
    &&& forall|k: int| 0 <= k < p.len() ==> #[trigger] p[k] < n
    &&& forall|i: usize| i < n ==> p.contains(i)
}

/// `p` orders indices by key, keeping equal keys in index order.
pub open spec fn stably_sorted(p: Seq<usize>, keys: Seq<u64>) -> bool {
    forall|a: int, b: int|
        0 <= a < b < p.len() ==> keys[p[a] as int] < keys[p[b] as int] || (keys[p[a] as int]
            == keys[p[b] as int] && p[a] < p[b])
}

/// The stable sort order of `keys`: the indices `0..keys.len()` ordered by
/// key, equal keys in index order.
pub fn stable_order_by_key(keys: &[u64]) -> (p: Vec<usize>)
    ensures
        is_index_permutation(p@, keys@.len() as int),
        stably_sorted(p@, keys@),
{
    let n = keys.len();
    let mut out: Vec<usize> = Vec::new();
    let mut i: usize = 0;
    while i < n
        invariant
            n == keys@.len(),
            i <= n,
            out@.len() == i,
            out@.no_duplicates(),
            forall|k: int| 0 <= k < out@.len() ==> #[trigger] out@[k] < i,
            forall|j: usize| j < i ==> out@.contains(j),
            stably_sorted(out@, keys@),
        decreases n - i,
    {
        let ki = keys[i];
        let mut q: usize = 0;
        while q < out.len() && keys[out[q]] <= ki
            invariant
                n == keys@.len(),
                i < n,
                q <= out@.len(),
                forall|k: int| 0 <= k < out@.len() ==> #[trigger] out@[k] < i,
                forall|k: int| 0 <= k < q ==> keys@[#[trigger] out@[k] as int] <= ki,
            decreases out@.len() - q,
        {
            q = q + 1;
        }
        let ghost before = out@;
        out.insert(q, i);
        assert(out@ == before.insert(q as int, i));
        assert forall|a: int, b: int| 0 <= a < b < out@.len() implies keys@[out@[a] as int]
            < keys@[out@[b] as int] || (keys@[out@[a] as int] == keys@[out@[b] as int] && out@[a]
            < out@[b]) by {
            if b < q {
                assert(out@[a] == before[a] && out@[b] == before[b]);
            } else if b == q {
                assert(out@[a] == before[a]);
                assert(before[a] < i);
            } else if a < q {
                assert(out@[a] == before[a] && out@[b] == before[b - 1]);
            } else if a == q {
                assert(out@[b] == before[b - 1]);
                assert(keys@[before[q as int] as int] > ki);
                if b - 1 > q {
                    assert(keys@[before[q as int] as int] <= keys@[before[b - 1] as int]);
                }
            } else {
                assert(out@[a] == before[a - 1] && out@[b] == before[b - 1]);
            }
        }
        assert forall|k: int| 0 <= k < out@.len() implies #[trigger] out@[k] < i + 1 by {
            if k < q {
                assert(out@[k] == before[k]);
            } else if k > q {
                assert(out@[k] == before[k - 1]);
            }
        }
        assert forall|j: usize| j < i + 1 implies out@.contains(j) by {
            if j == i {
                assert(out@[q as int] == i);
            } else {
                assert(before.contains(j));
                let k = choose|k: int| 0 <= k < before.len() && before[k] == j;
                if k < q {
                    assert(out@[k] == j);
                } else {
                    assert(out@[k + 1] == j);
                }
            }
        }
        assert forall|a: int, b: int| 0 <= a < out@.len() && 0 <= b < out@.len() && a != b implies out@[a]
            != out@[b] by {
            let pa = if a < q {
                a
            } else {
                a - 1
            };
            let pb = if b < q {
                b
            } else {
                b - 1
            };
            if a != q && b != q {
                assert(out@[a] == before[pa] && out@[b] == before[pb]);
                assert(pa != pb);
            } else if a == q {
                assert(out@[b] == before[pb]);
            } else {
                assert(out@[a] == before[pa]);
            }
        }
        i = i + 1;
    }
    out
}

/// Achievement `x` goes before achievement `y` in the online overlay list:
/// by display order, then by ID.
pub open spec fn listed_before(x: Achievement, y: Achievement) -> bool {
    x.display_order < y.display_order || (x.display_order == y.display_order && x.id < y.id)
}

/// The sort key of an achievement: display order in the high 32 bits, ID
/// in the low 32 bits.
pub open spec fn overlay_key(a: Achievement) -> u64 {
    (a.display_order as int * 0x1_0000_0000 + a.id as int) as u64
}

/// Comparing sort keys compares display order, then ID.
proof fn lemma_overlay_key_order(x: Achievement, y: Achievement)
    ensures
        overlay_key(x) < overlay_key(y) <==> listed_before(x, y),
        overlay_key(x) == overlay_key(y) <==> (x.display_order == y.display_order && x.id == y.id),
{
    let dx = x.display_order as int;
    let dy = y.display_order as int;
    let ix = x.id as int;
    let iy = y.id as int;
    assert(0 <= dx * 0x1_0000_0000 + ix <= u64::MAX && 0 <= dy * 0x1_0000_0000 + iy <= u64::MAX)
        by (nonlinear_arith)
        requires
            0 <= dx < 0x1_0000_0000,
            0 <= dy < 0x1_0000_0000,
            0 <= ix < 0x1_0000_0000,
            0 <= iy < 0x1_0000_0000,
    ;
    assert((dx * 0x1_0000_0000 + ix < dy * 0x1_0000_0000 + iy) <==> (dx < dy || (dx == dy && ix
        < iy))) by (nonlinear_arith)
        requires
            0 <= ix < 0x1_0000_0000,
            0 <= iy < 0x1_0000_0000,
    ;
    assert((dx * 0x1_0000_0000 + ix == dy * 0x1_0000_0000 + iy) <==> (dx == dy && ix == iy))
        by (nonlinear_arith)
        requires
            0 <= ix < 0x1_0000_0000,
            0 <= iy < 0x1_0000_0000,
    ;
}

fn overlay_key_exec(a: &Achievement) -> (k: u64)
    ensures
        k == overlay_key(*a),
{
    let d = a.display_order as u64;
    let i = a.id as u64;
    assert(d * 0x1_0000_0000 + i <= u64::MAX) by (nonlinear_arith)
        requires
            d < 0x1_0000_0000,
            i < 0x1_0000_0000,
    ;
    d * 0x1_0000_0000 + i
}

/// The overlay list for achievements fetched online, ordered by display
/// order, then by ID (entries equal in both keep their order): earned in
/// either mode, and hardcore.
pub fn online_overlay_entries(achs: &Vec<Achievement>) -> (v: Vec<OverlayAchievement>)
    ensures
        v@.len() == achs@.len(),
        exists|p: Seq<usize>|
            {
                &&& is_index_permutation(p, achs@.len() as int)
                &&& forall|a: int, b: int|
                    0 <= a < b < p.len() ==> listed_before(
                        achs@[#[trigger] p[a] as int],
                        achs@[#[trigger] p[b] as int],
                    ) || (achs@[p[a] as int].display_order == achs@[p[b] as int].display_order
                        && achs@[p[a] as int].id == achs@[p[b] as int].id && p[a] < p[b])
                &&& forall|k: int|
                    0 <= k < v@.len() ==> {
                        let a = achs@[#[trigger] p[k] as int];
                        &&& v@[k].id == a.id
                        &&& v@[k].title@ == a.title@
                        &&& v@[k].description@ == a.description@
                        &&& v@[k].points == a.points
                        &&& v@[k].earned == (a.date_earned.is_some()
                            || a.date_earned_hardcore.is_some())
                        &&& v@[k].earned_hardcore == a.date_earned_hardcore.is_some()
                    }
            },
{
    let n = achs.len();
    let mut keys: Vec<u64> = Vec::new();
    let mut i: usize = 0;
    while i < n
        invariant
            n == achs@.len(),
            i <= n,
            keys@.len() == i,
            forall|k: int| 0 <= k < i ==> #[trigger] keys@[k] == overlay_key(achs@[k]),
        decreases n - i,
    {
        keys.push(overlay_key_exec(&achs[i]));
        i = i + 1;
    }
    let order = stable_order_by_key(keys.as_slice());
    let mut v: Vec<OverlayAchievement> = Vec::new();
    let mut k: usize = 0;
    while k < n
        invariant
            n == achs@.len(),
            n == keys@.len(),
            forall|j: int| 0 <= j < n ==> #[trigger] keys@[j] == overlay_key(achs@[j]),
            is_index_permutation(order@, n as int),
            k <= n,
            v@.len() == k,
            forall|j: int|
                0 <= j < k ==> {
                    let a = achs@[#[trigger] order@[j] as int];
                    &&& v@[j].id == a.id
                    &&& v@[j].title@ == a.title@
                    &&& v@[j].description@ == a.description@
                    &&& v@[j].points == a.points
                    &&& v@[j].earned == (a.date_earned.is_some()
                        || a.date_earned_hardcore.is_some())
                    &&& v@[j].earned_hardcore == a.date_earned_hardcore.is_some()
                },
        decreases n - k,
    {
        let a = &achs[order[k]];
        v.push(
            OverlayAchievement {
                id: a.id,
                title: a.title.clone(),
                description: a.description.clone(),
                points: a.points,
                earned: a.is_earned(),
                earned_hardcore: a.is_earned_hardcore(),
            },
        );
        k = k + 1;
    }
    let ghost p = order@;
    assert forall|a: int, b: int| 0 <= a < b < p.len() implies listed_before(
        achs@[#[trigger] p[a] as int],
        achs@[#[trigger] p[b] as int],
    ) || (achs@[p[a] as int].display_order == achs@[p[b] as int].display_order
        && achs@[p[a] as int].id == achs@[p[b] as int].id && p[a] < p[b]) by {
        lemma_overlay_key_order(achs@[p[a] as int], achs@[p[b] as int]);
        assert(keys@[p[a] as int] == overlay_key(achs@[p[a] as int]));
        assert(keys@[p[b] as int] == overlay_key(achs@[p[b] as int]));
    }
    v
}

pub open spec fn digit_char(d: nat) -> char {
    (48 + d) as char
}

/// `format!("{}", n)`: the decimal digits of `n`, without leading zeros.
pub open spec fn decimal(n: nat) -> Seq<char>
    decreases n,
{
    if n < 10 {
        seq![digit_char(n)]
    } else {
        decimal(n / 10).push(digit_char(n % 10))
    }
}

fn push_decimal(s: &mut String, n: u32)
    ensures
        final(s)@ == old(s)@ + decimal(n as nat),
    decreases n,
{
    if n >= 10 {
        push_decimal(s, n / 10);
    }
    let d = n % 10;
    s.push(((48 + d) as u8) as char);
    assert(old(s)@ + decimal(n as nat) =~= if n >= 10 {
        old(s)@ + decimal((n / 10) as nat) + seq![digit_char((n % 10) as nat)]
    } else {
        old(s)@ + seq![digit_char(n as nat)]
    });
}

/// The title used for an unlock notification that names none.
pub fn default_achievement_title(id: u32) -> (t: String)
    ensures
        t@ == "Achievement #"@ + decimal(id as nat),
{
    let mut t = "Achievement #".to_owned();
    push_decimal(&mut t, id);
    t
}

/// The overlay toast text announcing an unlock.
pub fn unlock_toast_message(title: &str) -> (m: String)
    ensures
        m@ == "🏆 Achievement Unlocked: "@ + title@,
{
    let mut m = "🏆 Achievement Unlocked: ".to_owned();
    m.append(title);
    m
}

} // verus!
