//! The state and decisions of the achievement evaluation loop.
//!
//! Each frame, rcheevos reads emulator memory through peeks answered from
//! the [`MemoryCache`] and may report one triggered achievement.  The
//! [`UnlockTracker`] decides which achievements are evaluated at all and
//! whether a trigger is a new unlock to record and announce.
use vstd::prelude::*;
use std::collections::HashSet;
use crate::local_definitions::{LocalAchievement, LocalDefinitions};
use vstd::utf8::{decode_utf8, valid_utf8};
use crate::memory::{
    apply_datagram, apply_pairs_from, lines_of, new_memory_cache, parse_memorywatcher_datagram, peek_bytes, peek_memory,
    word_at, MemoryCache,
};

verus! {

broadcast use vstd::std_specs::hash::group_hash_axioms;

/// The abstract state of an evaluation engine.
pub ghost struct EngineState {
    pub memory: Map<u32, u32>,
    pub defs: LocalDefinitions,
    pub game_hash: Seq<char>,
    pub running: bool,
}

/// Evaluation engine for one game: its definitions, the latest memory
/// snapshot, and whether the evaluation loop should keep running.
pub struct EvaluationEngine {
    cache: MemoryCache,
    defs: LocalDefinitions,
    game_hash: String,
    running: bool,
}

impl View for EvaluationEngine {
    type V = EngineState;

    closed spec fn view(&self) -> EngineState {
        EngineState {
            memory: self.cache@,
            defs: self.defs,
            game_hash: self.game_hash@,
            running: self.running,
        }
    }
}

impl EvaluationEngine {
    /// A stopped engine for the given game, with no memory reported yet.
    pub fn new(defs: LocalDefinitions, game_hash: String) -> (e: Self)
        ensures
            e@ == (EngineState {
                memory: Map::empty(),
                defs: defs,
                game_hash: game_hash@,
                running: false,
            }),
    {
        EvaluationEngine { cache: new_memory_cache(), defs, game_hash, running: false }
    }

    /// Marks the evaluation loop as running.
    pub fn mark_running(&mut self)
        ensures
            final(self)@ == (EngineState { running: true, ..old(self)@ }),
    {
        self.running = true;
    }

    /// Asks the evaluation loop to stop.
    pub fn stop(&mut self)
        ensures
            final(self)@ == (EngineState { running: false, ..old(self)@ }),
    {
        self.running = false;
    }

    pub fn is_running(&self) -> (r: bool)
        ensures
            r == self@.running,
    {
        self.running
    }

    pub fn definitions(&self) -> (d: &LocalDefinitions)
        ensures
            *d == self@.defs,
    {
        &self.defs
    }

    pub fn game_hash(&self) -> (h: &str)
        ensures
            h@ == self@.game_hash,
    {
        self.game_hash.as_str()
    }

    /// Applies a MemoryWatcher datagram to the memory snapshot.
    pub fn receive_datagram(&mut self, data: &[u8])
        ensures
            final(self)@ == (EngineState {
                memory: apply_datagram(old(self)@.memory, data@),
                ..old(self)@
            }),
            valid_utf8(data@) ==> final(self)@.memory == apply_pairs_from(
                old(self)@.memory,
                lines_of(decode_utf8(data@)),
                0,
            ),
    {
        parse_memorywatcher_datagram(data, &mut self.cache);
    }

    /// Answers an rcheevos memory peek from the snapshot.
    pub fn peek(&self, address: u32, num_bytes: u32) -> (r: u32)
        ensures
            r == peek_bytes(word_at(self@.memory, address), address, num_bytes),
    {
        peek_memory(&self.cache, address, num_bytes)
    }
}

/// Index of the first achievement at or after `i` with the given ID.
pub open spec fn first_with_id(achs: Seq<LocalAchievement>, id: u32, i: int) -> Option<int>
    decreases achs.len() - i,
{
    if i < 0 || i >= achs.len() {
        None
    } else if achs[i].id == id {
        Some(i)
    } else {
        first_with_id(achs, id, i + 1)
    }
}

/// What a reported trigger of achievement `id` does: `id` 0 means nothing
/// triggered; an ID already unlocked is ignored; otherwise
/// the ID joins the unlocked set, and if a definition has that ID the
/// unlock of that definition (its ID and title) is announced.
pub open spec fn trigger_outcome(unlocked: Set<u32>, achs: Seq<LocalAchievement>, id: u32) -> (
    Set<u32>,
    Option<(u32, Seq<char>)>,
) {
    if id == 0 || unlocked.contains(id) {
        (unlocked, None)
    } else {
        (
            unlocked.insert(id),
            match first_with_id(achs, id, 0) {
                Some(i) => Some((id, achs[i].title@)),
                None => None,
            },
        )
    }
}

/// The triggers `triggers`, handled in order from the unlocked set
/// `unlocked`: the unlocked set afterwards and the unlocks announced, in
/// order.
pub open spec fn run_outcome(unlocked: Set<u32>, achs: Seq<LocalAchievement>, triggers: Seq<u32>) -> (
    Set<u32>,
    Seq<(u32, Seq<char>)>,
)
    decreases triggers.len(),
{
    if triggers.len() == 0 {
        (unlocked, Seq::empty())
    } else {
        let before = run_outcome(unlocked, achs, triggers.drop_last());
        let step = trigger_outcome(before.0, achs, triggers.last());
        (
            step.0,
            match step.1 {
                Some(a) => before.1.push(a),
                None => before.1,
            },
        )
    }
}

/// The set of achievement IDs already unlocked for the running game.
pub struct UnlockTracker {
    unlocked: HashSet<u32>,
}

impl View for UnlockTracker {
    type V = Set<u32>;

    closed spec fn view(&self) -> Set<u32> {
        self.unlocked@
    }
}

impl UnlockTracker {
    /// A tracker that starts from the given unlocked IDs.
    pub fn new(ids: &[u32]) -> (t: Self)
        ensures
            t@ == ids@.to_set(),
    {
        let mut unlocked: HashSet<u32> = HashSet::new();
        let mut i: usize = 0;
        while i < ids.len()
            invariant
                i <= ids@.len(),
                unlocked@ == ids@.take(i as int).to_set(),
            decreases ids@.len() - i,
        {
            unlocked.insert(ids[i]);
            assert(ids@.take(i + 1) =~= ids@.take(i as int).push(ids@[i as int]));
            proof {
                ids@.take(i as int).lemma_push_to_set_commute(ids@[i as int]);
            }
            i = i + 1;
        }
        assert(ids@.take(ids@.len() as int) =~= ids@);
        UnlockTracker { unlocked }
    }

    pub fn contains(&self, id: u32) -> (r: bool)
        ensures
            r == self@.contains(id),
    {
        self.unlocked.contains(&id)
    }

    /// Indices of the definitions to activate: those not yet unlocked, in
    /// order.
    pub fn pending_achievements(&self, defs: &LocalDefinitions) -> (idx: Vec<usize>)
        ensures
            forall|a: int, b: int| 0 <= a < b < idx@.len() ==> idx@[a] < idx@[b],
            forall|i: usize|
                idx@.contains(i) <==> (i < defs.achievements@.len() && !self@.contains(
                    defs.achievements@[i as int].id,
                )),
    {
        let n = defs.achievements.len();
        let mut idx: Vec<usize> = Vec::new();
        let mut i: usize = 0;
        while i < n
            invariant
                n == defs.achievements@.len(),
                i <= n,
                forall|a: int| 0 <= a < idx@.len() ==> idx@[a] < i,
                forall|a: int, b: int| 0 <= a < b < idx@.len() ==> idx@[a] < idx@[b],
                forall|j: usize|
                    idx@.contains(j) <==> (j < i && !self@.contains(
                        defs.achievements@[j as int].id,
                    )),
            decreases n - i,
        {
            let id = defs.achievements[i].id;
            let ghost before = idx@;
            if !self.unlocked.contains(&id) {
                idx.push(i);
                assert forall|j: usize| idx@.contains(j) <==> (j < i + 1 && !self@.contains(
                    defs.achievements@[j as int].id,
                )) by {
                    if idx@.contains(j) && j != i {
                        let k = choose|k: int| 0 <= k < idx@.len() && idx@[k] == j;
                        assert(idx@[before.len() as int] == i);
                        assert(k < before.len());
                        assert(before[k] == j);
                        assert(before.contains(j));
                    }
                    if j == i {
                        assert(!self@.contains(id));
                    }
                    if j < i && !self@.contains(defs.achievements@[j as int].id) {
                        assert(before.contains(j));
                        let k = choose|k: int| 0 <= k < before.len() && before[k] == j;
                        assert(idx@[k] == j);
                    }
                    if j == i {
                        assert(idx@[before.len() as int] == j);
                    }
                }
            } else {
                assert forall|j: usize| idx@.contains(j) <==> (j < i + 1 && !self@.contains(
                    defs.achievements@[j as int].id,
                )) by {
                    if idx@.contains(j) {
                        let k = choose|k: int| 0 <= k < idx@.len() && idx@[k] == j;
                        assert(idx@[k] < i);
                    }
                }
            }
            i = i + 1;
        }
        idx
    }

    /// Handles the achievement ID a frame reported as triggered (0 for
    /// none).  Returns the ID and title to record and announce when this is
    /// a new unlock of a defined achievement.
    pub fn on_trigger(&mut self, defs: &LocalDefinitions, triggered: u32) -> (r: Option<
        (u32, String),
    >)
        ensures
            final(self)@ == trigger_outcome(old(self)@, defs.achievements@, triggered).0,
            match (r, trigger_outcome(old(self)@, defs.achievements@, triggered).1) {
                (Some((id, title)), Some((sid, stitle))) => id == sid && title@ == stitle,
                (None, None) => true,
                _ => false,
            },
    {
        if triggered == 0 || self.unlocked.contains(&triggered) {
            return None;
        }
        self.unlocked.insert(triggered);
        let n = defs.achievements.len();
        let ghost achs = defs.achievements@;
        let mut i: usize = 0;
        while i < n
            invariant
                achs == defs.achievements@,
                n == achs.len(),
                i <= n,
                first_with_id(achs, triggered, i as int) == first_with_id(achs, triggered, 0),
                triggered != 0,
                !old(self)@.contains(triggered),
                self@ == old(self)@.insert(triggered),
            decreases n - i,
        {
            if defs.achievements[i].id == triggered {
                return Some((triggered, defs.achievements[i].title.clone()));
            }
            i = i + 1;
        }
        None
    }

    /// Handles the achievements a frame reported as triggered, in order.
    /// Returns the IDs and titles to record and announce.
    pub fn on_frame(&mut self, defs: &LocalDefinitions, triggered: &[u32]) -> (r: Vec<
        (u32, String),
    >)
        ensures
            final(self)@ == run_outcome(old(self)@, defs.achievements@, triggered@).0,
            r@.len() == run_outcome(old(self)@, defs.achievements@, triggered@).1.len(),
            forall|k: int|
                0 <= k < r@.len() ==> (#[trigger] r@[k]).0 == run_outcome(
                    old(self)@,
                    defs.achievements@,
                    triggered@,
                ).1[k].0 && r@[k].1@ == run_outcome(old(self)@, defs.achievements@, triggered@).1[k].1,
    {
        let ghost u0 = self@;
        let mut r: Vec<(u32, String)> = Vec::new();
        let mut i: usize = 0;
        while i < triggered.len()
            invariant
                i <= triggered@.len(),
                self@ == run_outcome(u0, defs.achievements@, triggered@.take(i as int)).0,
                r@.len() == run_outcome(u0, defs.achievements@, triggered@.take(i as int)).1.len(),
                forall|k: int|
                    0 <= k < r@.len() ==> (#[trigger] r@[k]).0 == run_outcome(
                        u0,
                        defs.achievements@,
                        triggered@.take(i as int),
                    ).1[k].0 && r@[k].1@ == run_outcome(
                        u0,
                        defs.achievements@,
                        triggered@.take(i as int),
                    ).1[k].1,
            decreases triggered@.len() - i,
        {
            assert(triggered@.take(i + 1).drop_last() =~= triggered@.take(i as int));
            assert(triggered@.take(i + 1).last() == triggered@[i as int]);
            match self.on_trigger(defs, triggered[i]) {
                Some(a) => {
                    r.push(a);
                },
                None => {},
            }
            i = i + 1;
        }
        assert(triggered@.take(triggered@.len() as int) =~= triggered@);
        r
    }
}

/// Once a trigger of `id` has been handled, a later trigger of the same ID
/// is never announced again, and the unlocked set only grows.
pub proof fn lemma_unlock_announced_at_most_once(
    unlocked: Set<u32>,
    achs: Seq<LocalAchievement>,
    id: u32,
)
    ensures
        ({
            let s1 = trigger_outcome(unlocked, achs, id).0;
            &&& unlocked.subset_of(s1)
            &&& id != 0 ==> s1.contains(id)
            &&& trigger_outcome(s1, achs, id).1 is None
        }),
{
}

/// An ID that is already unlocked is never announced.
pub proof fn lemma_unlocked_never_announced(
    unlocked: Set<u32>,
    achs: Seq<LocalAchievement>,
    id: u32,
)
    requires
        unlocked.contains(id),
    ensures
        trigger_outcome(unlocked, achs, id) == (unlocked, None::<(u32, Seq<char>)>),
{
}

/// `first_with_id` finds the first achievement at or after `i` with the ID.
pub proof fn lemma_first_with_id(achs: Seq<LocalAchievement>, id: u32, i: int)
    requires
        0 <= i,
    ensures
        match first_with_id(achs, id, i) {
            Some(k) => i <= k < achs.len() && achs[k].id == id && forall|j: int|
                i <= j < k ==> achs[j].id != id,
            None => forall|j: int| i <= j < achs.len() ==> achs[j].id != id,
        },
    decreases achs.len() - i,
{
    if i < achs.len() && achs[i].id != id {
        lemma_first_with_id(achs, id, i + 1);
    }
}

/// Over any run of triggers from the unlocked set `unlocked`: no ID is
/// announced twice, no ID unlocked at the start is announced, every
/// announced ID is unlocked afterwards, the unlocked set only grows, and
/// each announcement is the ID with the title of the first definition
/// with that ID.
pub proof fn lemma_run_announces_each_new_unlock_once(
    unlocked: Set<u32>,
    achs: Seq<LocalAchievement>,
    triggers: Seq<u32>,
)
    ensures
        ({
            let (s, ann) = run_outcome(unlocked, achs, triggers);
            &&& unlocked.subset_of(s)
            &&& forall|a: int, b: int| 0 <= a < b < ann.len() ==> ann[a].0 != ann[b].0
            &&& forall|a: int|
                0 <= a < ann.len() ==> !unlocked.contains(#[trigger] ann[a].0) && s.contains(
                    ann[a].0,
                ) && triggers.contains(ann[a].0)
            &&& forall|a: int|
                0 <= a < ann.len() ==> {
                    let k = first_with_id(achs, (#[trigger] ann[a]).0, 0);
                    &&& k is Some
                    &&& ann[a].1 == achs[k->0].title@
                }
        }),
    decreases triggers.len(),
{
    if triggers.len() > 0 {
        let prev = triggers.drop_last();
        lemma_run_announces_each_new_unlock_once(unlocked, achs, prev);
        let (s0, ann0) = run_outcome(unlocked, achs, prev);
        let (s, ann) = run_outcome(unlocked, achs, triggers);
        let id = triggers.last();
        assert forall|a: int| 0 <= a < ann0.len() implies triggers.contains(#[trigger] ann0[a].0) by {
            let w = choose|w: int| 0 <= w < prev.len() && prev[w] == ann0[a].0;
            assert(triggers[w] == prev[w]);
        }
        if ann.len() > ann0.len() {
            assert(ann == ann0.push((id, achs[first_with_id(achs, id, 0)->0].title@)));
            assert(triggers[triggers.len() - 1] == id);
            assert forall|a: int| 0 <= a < ann0.len() implies ann0[a].0 != id by {
                assert(s0.contains(ann0[a].0));
            }
        }
    }
}

/// Handling two runs one after the other is handling their concatenation:
/// a run over many frames is one run over all their triggers.
pub proof fn lemma_run_outcome_concat(
    unlocked: Set<u32>,
    achs: Seq<LocalAchievement>,
    first: Seq<u32>,
    second: Seq<u32>,
)
    ensures
        ({
            let r1 = run_outcome(unlocked, achs, first);
            let r2 = run_outcome(r1.0, achs, second);
            run_outcome(unlocked, achs, first + second) == (r2.0, r1.1 + r2.1)
        }),
    decreases second.len(),
{
    let r1 = run_outcome(unlocked, achs, first);
    if second.len() == 0 {
        assert(first + second =~= first);
        assert(r1.1 + Seq::<(u32, Seq<char>)>::empty() =~= r1.1);
    } else {
        lemma_run_outcome_concat(unlocked, achs, first, second.drop_last());
        assert((first + second).drop_last() =~= first + second.drop_last());
        assert((first + second).last() == second.last());
        let r2p = run_outcome(r1.0, achs, second.drop_last());
        let step = trigger_outcome(r2p.0, achs, second.last());
        match step.1 {
            Some(x) => {
                assert(r1.1 + r2p.1.push(x) =~= (r1.1 + r2p.1).push(x));
            },
            None => {},
        }
    }
}

/// What one trigger decides, in terms of the definitions themselves: ID 0
/// or an ID already unlocked changes nothing and announces nothing; any
/// other ID joins the unlocked set, and is announced with the title of the
/// first definition carrying it, wherever that definition stands, or not at
/// all when no definition carries it.
pub proof fn lemma_trigger_announces_first_definition(
    unlocked: Set<u32>,
    achs: Seq<LocalAchievement>,
    id: u32,
    k: int,
)
    ensures
        id == 0 || unlocked.contains(id) ==> trigger_outcome(unlocked, achs, id) == (
            unlocked,
            None::<(u32, Seq<char>)>,
        ),
        id != 0 && !unlocked.contains(id) ==> trigger_outcome(unlocked, achs, id).0
            == unlocked.insert(id),
        id != 0 && !unlocked.contains(id) && 0 <= k < achs.len() && achs[k].id == id && (forall|
            j: int,
        | 0 <= j < k ==> #[trigger] achs[j].id != id) ==> trigger_outcome(unlocked, achs, id).1
            == Some((id, achs[k].title@)),
        (forall|j: int| 0 <= j < achs.len() ==> #[trigger] achs[j].id != id) ==> trigger_outcome(
            unlocked,
            achs,
            id,
        ).1 is None,
{
    lemma_first_with_id(achs, id, 0);
    if 0 <= k < achs.len() && achs[k].id == id && (forall|j: int|
        0 <= j < k ==> #[trigger] achs[j].id != id) {
        match first_with_id(achs, id, 0) {
            Some(f) => {
                if f < k {
                    assert(achs[f].id != id);
                }
                if f > k {
                    assert(achs[k].id != id);
                }
            },
            None => {
                assert(achs[k].id != id);
            },
        }
    }
    if forall|j: int| 0 <= j < achs.len() ==> #[trigger] achs[j].id != id {
        match first_with_id(achs, id, 0) {
            Some(f) => {
                assert(achs[f].id != id);
            },
            None => {},
        }
    }
}

} // verus!
