//! The local achievement definitions format baked into each cartridge as
//! `achievements.json`, and the set of memory words its conditions watch.
use vstd::prelude::*;
use vstd::utf8::encode_utf8;
use std::collections::BTreeSet;
use vstd::std_specs::btree::{increasing_seq, spec_btree_keys_iter};
use vstd::std_specs::iter::IteratorSpec;
use vstd::std_specs::cmp::OrdSpec;
use vstd::laws_cmp::obeys_cmp;
use crate::condition::{condition_addresses, parse_addresses_from_condition};

verus! {

broadcast use {vstd::std_specs::btree::group_btree_axioms, vstd::laws_cmp::group_laws_cmp};

/// Local achievement definitions for one game.
#[derive(Debug, Clone)]
pub struct LocalDefinitions {
    pub game_id: u32,
    pub game_title: String,
    pub console_id: u32,
    pub console_name: String,
    pub icon_url: Option<String>,
    pub rich_presence_patch: String,
    pub achievements: Vec<LocalAchievement>,
    pub leaderboards: Vec<LocalLeaderboard>,
}

/// A single achievement definition in the local format.
#[derive(Debug, Clone)]
pub struct LocalAchievement {
    pub id: u32,
    pub title: String,
    pub description: String,
    pub points: u32,
    pub badge_name: String,
    /// The rcheevos condition string: the full achievement logic.
    pub mem_addr: String,
    pub achievement_type: String,
    pub display_order: u32,
}

/// A leaderboard definition; carried along but never evaluated.
#[derive(Debug, Clone)]
pub struct LocalLeaderboard {
    pub id: u32,
    pub title: String,
    pub description: String,
    pub format: String,
    pub mem_addr: String,
    pub lower_is_better: bool,
}

/// The achievement type used when a definition names none.
pub fn default_achievement_type() -> (t: String)
    ensures
        t@ == "standard"@,
{
    "standard".to_owned()
}

/// An address aligned down to its 4-byte word (the unit that Dolphin's
/// MemoryWatcher reads).
pub open spec fn align_down4(a: u32) -> u32 {
    a & 0xFFFF_FFFCu32
}

/// Addresses referenced by an achievement's condition string.
pub open spec fn achievement_addresses(a: LocalAchievement) -> Seq<u32> {
    condition_addresses(encode_utf8(a.mem_addr@))
}

/// `x` is the aligned word of an address referenced by one of the first `n`
/// achievements.
pub open spec fn watched_by_first(achs: Seq<LocalAchievement>, n: int, x: u32) -> bool {
    exists|i: int, k: int|
        #![trigger achievement_addresses(achs[i])[k]]
        0 <= i < n && i < achs.len() && 0 <= k < achievement_addresses(achs[i]).len()
            && x == align_down4(achievement_addresses(achs[i])[k])
}

/// `x` is the aligned word of an address referenced by some achievement.
pub open spec fn watched_word(achs: Seq<LocalAchievement>, x: u32) -> bool {
    watched_by_first(achs, achs.len() as int, x)
}

pub open spec fn strictly_increasing(s: Seq<u32>) -> bool {
    forall|i: int, j: int| 0 <= i < j < s.len() ==> s[i] < s[j]
}

/// The keys a `BTreeSet<u32>` iterator yields are strictly increasing.
proof fn lemma_btree_keys_increasing(keys: Seq<&u32>)
    requires
        increasing_seq(keys),
    ensures
        forall|i: int, j: int| 0 <= i < j < keys.len() ==> *keys[i] < *keys[j],
{
    assert(obeys_cmp::<u32>());
    assert(obeys_cmp::<&u32>());
    assert forall|i: int, j: int| 0 <= i < j < keys.len() implies *keys[i] < *keys[j] by {
        assert(OrdSpec::cmp_spec(&keys[i], &keys[j]) is Less);
    }
}

impl LocalDefinitions {
    /// All distinct memory words read by the achievement conditions, in
    /// increasing order.  Each referenced address is aligned down to its
    /// 4-byte word, because Dolphin's MemoryWatcher reports `u32` values.
    pub fn extract_memory_addresses(&self) -> (words: Vec<u32>)
        ensures
            strictly_increasing(words@),
            forall|x: u32| words@.contains(x) <==> watched_word(self.achievements@, x),
            forall|k: int| 0 <= k < words@.len() ==> #[trigger] words@[k] % 4 == 0,
    {
        let ghost achs = self.achievements@;
        let n = self.achievements.len();
        let mut set: BTreeSet<u32> = BTreeSet::new();
        let mut idx: usize = 0;
        while idx < n
            invariant
                achs == self.achievements@,
                n == achs.len(),
                idx <= n,
                forall|x: u32| set@.contains(x) <==> watched_by_first(achs, idx as int, x),
            decreases n - idx,
        {
            let list = parse_addresses_from_condition(self.achievements[idx].mem_addr.as_str());
            assert(list@ == achievement_addresses(achs[idx as int]));
            let mut k: usize = 0;
            while k < list.len()
                invariant
                    achs == self.achievements@,
                    n == achs.len(),
                    idx < n,
                    k <= list@.len(),
                    list@ == achievement_addresses(achs[idx as int]),
                    forall|x: u32|
                        set@.contains(x) <==> (watched_by_first(achs, idx as int, x) || exists|
                            m: int,
                        | 0 <= m < k && x == align_down4(#[trigger] list@[m])),
                decreases list@.len() - k,
            {
                let w = list[k] & 0xFFFF_FFFCu32;
                let ghost prev = set@;
                set.insert(w);
                assert forall|x: u32|
                    set@.contains(x) <==> (watched_by_first(achs, idx as int, x) || exists|
                        m: int,
                    | 0 <= m < k + 1 && x == align_down4(#[trigger] list@[m])) by {
                    if x == w {
                        assert(x == align_down4(list@[k as int]));
                    }
                    if exists|m: int| 0 <= m < k + 1 && x == align_down4(#[trigger] list@[m]) {
                        let m = choose|m: int| 0 <= m < k + 1 && x == align_down4(#[trigger] list@[m]);
                        if m < k {
                            assert(prev.contains(x));
                        }
                    }
                }
                k = k + 1;
            }
            assert forall|x: u32|
                set@.contains(x) <==> watched_by_first(achs, idx + 1, x) by {
                if set@.contains(x) {
                    if !watched_by_first(achs, idx as int, x) {
                        let m = choose|m: int| 0 <= m < list@.len() && x == align_down4(#[trigger] list@[m]);
                        assert(0 <= m < achievement_addresses(achs[idx as int]).len());
                    }
                }
                if watched_by_first(achs, idx + 1, x) {
                    let (i, m) = choose|i: int, m: int|
                        0 <= i < idx + 1 && i < achs.len() && 0 <= m < achievement_addresses(achs[i]).len()
                            && x == align_down4(#[trigger] achievement_addresses(achs[i])[m]);
                    if i == idx {
                        assert(x == align_down4(list@[m]));
                    } else {
                        assert(watched_by_first(achs, idx as int, x));
                    }
                }
            }
            idx = idx + 1;
        }
        let ghost keys = spec_btree_keys_iter(&set).remaining();
        let mut words: Vec<u32> = Vec::new();
        for x in it: set.iter()
            invariant
                it.seq() == keys,
                words@.len() == it.index(),
                forall|j: int| 0 <= j < it.index() ==> words@[j] == *keys[j],
        {
            words.push(*x);
        }
        assert(words@ =~= keys.unref());
        assert forall|x: u32| words@.contains(x) <==> set@.contains(x) by {
            assert(keys.unref().to_set() == set@);
        }
        proof {
            lemma_btree_keys_increasing(keys);
        }
        assert forall|k: int| 0 <= k < words@.len() implies #[trigger] words@[k] % 4 == 0 by {
            let x = words@[k];
            assert(words@.contains(x));
            let (i, m) = choose|i: int, m: int|
                0 <= i < n && i < achs.len() && 0 <= m < achievement_addresses(achs[i]).len()
                    && x == align_down4(#[trigger] achievement_addresses(achs[i])[m]);
            let a = achievement_addresses(achs[i])[m];
            assert((a & 0xFFFF_FFFCu32) % 4 == 0) by (bit_vector);
        }
        words
    }
}

} // verus!
