//! Turning a fetched achievement set into the local definitions format,
//! and the small text helpers of the export tool.
use vstd::prelude::*;
use vstd::string::StringSliceAdditionalSpecFns;
use vstd::utf8::{decode_utf8, encode_utf8, encode_utf8_decode_utf8, is_char_boundary};
use crate::local_definitions::{LocalAchievement, LocalDefinitions};
use crate::text::str_equal;
use crate::types::badge_url_of;

verus! {

/// One achievement of a fetched `PatchData` record, each field present only
/// when the response held a value of the expected JSON type.
#[derive(Debug, Clone)]
pub struct PatchAchievement {
    pub id: Option<u64>,
    pub title: Option<String>,
    pub description: Option<String>,
    pub points: Option<u64>,
    pub badge_name: Option<String>,
    pub mem_addr: Option<String>,
    pub achievement_type: Option<String>,
}

/// The `PatchData` record of a fetched achievement set.
#[derive(Debug, Clone)]
pub struct PatchData {
    pub id: Option<u64>,
    pub console_id: Option<u64>,
    pub title: Option<String>,
    pub rich_presence_patch: Option<String>,
    /// `None` when the record has no `Achievements` array.
    pub achievements: Option<Vec<PatchAchievement>>,
}

/// Why a fetched set cannot be exported.
#[derive(Debug, Clone, PartialEq, Eq, Structural)]
pub enum ExportError {
    /// The record names game 0: the requested game does not exist.
    GameNotFound,
    /// The record has no achievement list.
    NoAchievements,
}

/// The condition of the "Warning: Unknown Emulator" placeholder achievement.
pub open spec fn is_placeholder(a: PatchAchievement) -> bool {
    match a.mem_addr {
        Some(m) => m@ == "1=1.300."@,
        None => false,
    }
}

pub open spec fn text_or_empty(t: Option<String>) -> Seq<char> {
    match t {
        Some(s) => s@,
        None => Seq::empty(),
    }
}

/// The achievement type recorded for a fetched `Type` field.
pub open spec fn exported_type(t: Option<String>) -> Seq<char> {
    match t {
        Some(s) => if s@ == "progression"@ {
            "progression"@
        } else if s@ == "missable"@ {
            "missable"@
        } else if s@ == "win"@ {
            "win"@
        } else {
            "standard"@
        },
        None => "standard"@,
    }
}

/// Indices, among the first `n` fetched achievements, of those exported.
pub open spec fn kept_upto(achs: Seq<PatchAchievement>, n: int) -> Seq<int>
    decreases n,
{
    if n <= 0 {
        Seq::empty()
    } else if is_placeholder(achs[n - 1]) {
        kept_upto(achs, n - 1)
    } else {
        kept_upto(achs, n - 1).push(n - 1)
    }
}

/// `out` is the export of fetched achievement number `i`.
pub open spec fn exports_as(out: LocalAchievement, a: PatchAchievement, i: int) -> bool {
    &&& out.id == (match a.id { Some(v) => v, None => 0 }) as u32
    &&& out.title@ == text_or_empty(a.title)
    &&& out.description@ == text_or_empty(a.description)
    &&& out.points == (match a.points { Some(v) => v, None => 0 }) as u32
    &&& out.badge_name@ == text_or_empty(a.badge_name)
    &&& out.mem_addr@ == text_or_empty(a.mem_addr)
    &&& out.achievement_type@ == exported_type(a.achievement_type)
    &&& out.display_order == (i + 1) as u32
}

/// An exported achievement keeps a fetched `Type` of `progression`,
/// `missable` or `win` as it is; a missing `Type`, or any other, becomes
/// `standard`.
pub proof fn lemma_export_keeps_known_types(out: LocalAchievement, a: PatchAchievement, i: int)
    requires
        exports_as(out, a, i),
    ensures
        match a.achievement_type {
            Some(t) => (t@ == "progression"@ || t@ == "missable"@ || t@ == "win"@)
                ==> out.achievement_type@ == t@,
            None => true,
        },
        match a.achievement_type {
            Some(t) => !(t@ == "progression"@ || t@ == "missable"@ || t@ == "win"@)
                ==> out.achievement_type@ == "standard"@,
            None => out.achievement_type@ == "standard"@,
        },
{
}

/// The exported positions are exactly the fetched achievements that are
/// not the placeholder, in increasing order.
pub proof fn lemma_kept_are_the_non_placeholders(achs: Seq<PatchAchievement>, n: int)
    requires
        0 <= n <= achs.len(),
    ensures
        forall|a: int, b: int|
            0 <= a < b < kept_upto(achs, n).len() ==> kept_upto(achs, n)[a] < kept_upto(
                achs,
                n,
            )[b],
        forall|k: int|
            0 <= k < kept_upto(achs, n).len() ==> 0 <= #[trigger] kept_upto(achs, n)[k] < n
                && !is_placeholder(achs[kept_upto(achs, n)[k]]),
        forall|i: int| 0 <= i < n && !is_placeholder(achs[i]) ==> kept_upto(achs, n).contains(i),
    decreases n,
{
    if n > 0 {
        lemma_kept_are_the_non_placeholders(achs, n - 1);
        let prev = kept_upto(achs, n - 1);
        if !is_placeholder(achs[n - 1]) {
            assert(kept_upto(achs, n) == prev.push(n - 1));
            assert(kept_upto(achs, n)[prev.len() as int] == n - 1);
            assert forall|i: int| 0 <= i < n && !is_placeholder(achs[i]) implies kept_upto(
                achs,
                n,
            ).contains(i) by {
                if i < n - 1 {
                    assert(prev.contains(i));
                    let w = choose|w: int| 0 <= w < prev.len() && prev[w] == i;
                    assert(prev.push(n - 1)[w] == i);
                } else {
                    assert(prev.push(n - 1)[prev.len() as int] == i);
                }
            }
        }
    }
}

/// The game ID a record names (0 when absent).
pub open spec fn record_game_id(p: PatchData) -> u32 {
    (match p.id {
        Some(v) => v,
        None => 0,
    }) as u32
}

fn owned_or_empty(t: &Option<String>) -> (s: String)
    ensures
        s@ == text_or_empty(*t),
{
    match t {
        Some(v) => v.clone(),
        None => String::new(),
    }
}

fn exported_type_exec(t: &Option<String>) -> (s: String)
    ensures
        s@ == exported_type(*t),
{
    match t {
        Some(v) => {
            if str_equal(v.as_str(), "progression") {
                "progression".to_owned()
            } else if str_equal(v.as_str(), "missable") {
                "missable".to_owned()
            } else if str_equal(v.as_str(), "win") {
                "win".to_owned()
            } else {
                "standard".to_owned()
            }
        },
        None => "standard".to_owned(),
    }
}

fn is_placeholder_exec(a: &PatchAchievement) -> (r: bool)
    ensures
        r == is_placeholder(*a),
{
    match &a.mem_addr {
        Some(m) => str_equal(m.as_str(), "1=1.300."),
        None => false,
    }
}

/// Builds the local definitions for a fetched record.
///
/// Game ID, console ID and numbers are truncated to `u32` as the record's
/// `u64` values are cast; a missing title becomes `Unknown`.  A record
/// naming game 0 is refused with `GameNotFound`, then one without an
/// achievement list with `NoAchievements`.  The placeholder achievement
/// (condition `1=1.300.`) is dropped, and every other achievement keeps its
/// 1-based position in the fetched list as its display order.
pub fn build_local_definitions(patch: &PatchData) -> (r: Result<LocalDefinitions, ExportError>)
    ensures
        record_game_id(*patch) == 0 ==> r == Err::<LocalDefinitions, ExportError>(
            ExportError::GameNotFound,
        ),
        record_game_id(*patch) != 0 && patch.achievements is None ==> r == Err::<
            LocalDefinitions,
            ExportError,
        >(ExportError::NoAchievements),
        record_game_id(*patch) != 0 && patch.achievements is Some ==> r is Ok,
        r matches Ok(defs) ==> {
            let achs = patch.achievements->0@;
            let kept = kept_upto(achs, achs.len() as int);
            &&& defs.game_id == record_game_id(*patch)
            &&& defs.console_id == (match patch.console_id { Some(v) => v, None => 0 }) as u32
            &&& defs.game_title@ == (match patch.title { Some(t) => t@, None => "Unknown"@ })
            &&& defs.console_name@ == "Nintendo GameCube"@
            &&& defs.icon_url is None
            &&& defs.rich_presence_patch@ == text_or_empty(patch.rich_presence_patch)
            &&& defs.leaderboards@.len() == 0
            &&& defs.achievements@.len() == kept.len()
            &&& forall|k: int|
                0 <= k < kept.len() ==> exports_as(
                    #[trigger] defs.achievements@[k],
                    achs[kept[k]],
                    kept[k],
                )
        },
{
    let game_id: u32 = match patch.id {
        Some(v) => v as u32,
        None => 0,
    };
    if game_id == 0 {
        return Err(ExportError::GameNotFound);
    }
    let list = match &patch.achievements {
        Some(l) => l,
        None => {
            return Err(ExportError::NoAchievements);
        },
    };
    let console_id: u32 = match patch.console_id {
        Some(v) => v as u32,
        None => 0,
    };
    let game_title = match &patch.title {
        Some(t) => t.clone(),
        None => "Unknown".to_owned(),
    };
    let ghost achs = list@;
    let n = list.len();
    let mut out: Vec<LocalAchievement> = Vec::new();
    let mut i: usize = 0;
    while i < n
        invariant
            achs == list@,
            n == achs.len(),
            i <= n,
            out@.len() == kept_upto(achs, i as int).len(),
            forall|k: int|
                0 <= k < out@.len() ==> exports_as(
                    #[trigger] out@[k],
                    achs[kept_upto(achs, i as int)[k]],
                    kept_upto(achs, i as int)[k],
                ),
        decreases n - i,
    {
        let a = &list[i];
        if !is_placeholder_exec(a) {
            let id: u32 = match a.id {
                Some(v) => v as u32,
                None => 0,
            };
            let points: u32 = match a.points {
                Some(v) => v as u32,
                None => 0,
            };
            let entry = LocalAchievement {
                id,
                title: owned_or_empty(&a.title),
                description: owned_or_empty(&a.description),
                points,
                badge_name: owned_or_empty(&a.badge_name),
                mem_addr: owned_or_empty(&a.mem_addr),
                achievement_type: exported_type_exec(&a.achievement_type),
                display_order: (i + 1) as u32,
            };
            out.push(entry);
        }
        i = i + 1;
    }
    Ok(
        LocalDefinitions {
            game_id,
            game_title,
            console_id,
            console_name: "Nintendo GameCube".to_owned(),
            icon_url: None,
            rich_presence_patch: owned_or_empty(&patch.rich_presence_patch),
            achievements: out,
            leaderboards: Vec::new(),
        },
    )
}

/// The file name a badge image is stored under in the `badges` directory.
pub fn badge_file_name(badge_name: &str) -> (f: String)
    ensures
        f@ == badge_name@ + ".png"@,
{
    let mut f = badge_name.to_owned();
    f.append(".png");
    f
}

/// Where the badge image of a badge name is downloaded from.
pub fn badge_download_url(badge_name: &str) -> (u: String)
    ensures
        u@ == badge_url_of(badge_name@),
{
    let mut u = "https://media.retroachievements.org/Badge/".to_owned();
    u.append(badge_name);
    u.append(".png");
    u
}

/// What happened to one achievement's badge image.
#[derive(Debug, Clone, Copy, PartialEq, Eq, Structural)]
pub enum BadgeOutcome {
    /// The image was already in the badges directory.
    AlreadyPresent,
    /// The image was downloaded and written.
    Downloaded,
    /// The server answered with an error, or the request failed.
    Failed,
}

/// The number of badges present after the downloads (already there or
/// downloaded) among `outcomes`.
pub open spec fn badges_present(outcomes: Seq<BadgeOutcome>) -> nat
    decreases outcomes.len(),
{
    if outcomes.len() == 0 {
        0
    } else {
        badges_present(outcomes.drop_last()) + if outcomes.last() == BadgeOutcome::Failed {
            0nat
        } else {
            1nat
        }
    }
}

/// The number of failed downloads among `outcomes`.
pub open spec fn badges_failed(outcomes: Seq<BadgeOutcome>) -> nat
    decreases outcomes.len(),
{
    if outcomes.len() == 0 {
        0
    } else {
        badges_failed(outcomes.drop_last()) + if outcomes.last() == BadgeOutcome::Failed {
            1nat
        } else {
            0nat
        }
    }
}

/// Counts the outcomes of the badge downloads: `(present, failed)`, which
/// together are all of them.
pub fn tally_badges(outcomes: &[BadgeOutcome]) -> (r: (usize, usize))
    ensures
        r.0 == badges_present(outcomes@),
        r.1 == badges_failed(outcomes@),
        r.0 + r.1 == outcomes@.len(),
{
    let mut present: usize = 0;
    let mut failed: usize = 0;
    let mut i: usize = 0;
    while i < outcomes.len()
        invariant
            i <= outcomes@.len(),
            present == badges_present(outcomes@.take(i as int)),
            failed == badges_failed(outcomes@.take(i as int)),
            present + failed == i,
        decreases outcomes@.len() - i,
    {
        assert(outcomes@.take(i + 1).drop_last() =~= outcomes@.take(i as int));
        if outcomes[i] == BadgeOutcome::Failed {
            failed = failed + 1;
        } else {
            present = present + 1;
        }
        i = i + 1;
    }
    assert(outcomes@.take(outcomes@.len() as int) =~= outcomes@);
    (present, failed)
}

/// The download summary printed by the export tool: how many badges were
/// newly downloaded, how many failed, and how many were skipped.  The first
/// and last counts subtract without underflow only when `failed` does not
/// exceed `downloaded` and `downloaded` does not exceed `total`.
pub fn badge_summary(downloaded: usize, failed: usize, total: usize) -> (r: (usize, usize, usize))
    requires
        failed <= downloaded,
        downloaded <= total,
    ensures
        r == ((downloaded - failed) as usize, failed, (total - downloaded) as usize),
{
    (downloaded - failed, failed, total - downloaded)
}

/// Encoding a concatenation encodes each part.
pub proof fn lemma_encode_utf8_concat(a: Seq<char>, b: Seq<char>)
    ensures
        encode_utf8(a + b) == encode_utf8(a) + encode_utf8(b),
    decreases a.len(),
{
    if a.len() > 0 {
        lemma_encode_utf8_concat(a.drop_first(), b);
        assert((a + b).drop_first() =~= a.drop_first() + b);
        assert((a + b)[0] == a[0]);
    } else {
        assert(a + b =~= b);
    }
}

/// The `...` that marks a shortened string.
pub open spec fn three_dots() -> Seq<char> {
    Seq::empty().push('.').push('.').push('.')
}

/// Shortens `s` to at most `max` bytes for a fixed-width column: a string
/// that fits is kept, a longer one is cut to its first `max - 3` bytes and
/// given `...`.  The cut must fall on a character boundary and leave room
/// for the dots; elsewhere the cut would panic.
pub fn truncate(s: &str, max: usize) -> (r: String)
    requires
        s.spec_bytes().len() <= usize::MAX,
        s.spec_bytes().len() > max ==> max >= 3 && is_char_boundary(s.spec_bytes(), max - 3),
    ensures
        s.spec_bytes().len() <= max ==> r@ == s@,
        s.spec_bytes().len() > max ==> r@ == decode_utf8(s.spec_bytes().subrange(0, max - 3))
            + three_dots(),
        encode_utf8(r@).len() <= max,
{
    if s.len() <= max {
        s.to_owned()
    } else {
        let (head, _tail) = s.split_at(max - 3);
        let mut r = head.to_owned();
        r.push('.');
        r.push('.');
        r.push('.');
        proof {
            encode_utf8_decode_utf8(head@);
            assert(head.spec_bytes() == encode_utf8(head@));
            assert(head.spec_bytes() =~= s.spec_bytes().subrange(0, max - 3));
            assert(decode_utf8(s.spec_bytes().subrange(0, max - 3)) == head@);
            lemma_encode_utf8_concat(head@, three_dots());
            reveal_with_fuel(encode_utf8, 4);
            assert(r@ == head@ + three_dots());
        }
        r
    }
}

} // verus!
