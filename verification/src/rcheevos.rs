//! Plain records exchanged with the rcheevos engine.
use vstd::prelude::*;

verus! {

/// The rcheevos runtime event type of a triggered achievement.
pub const RC_RUNTIME_EVENT_ACHIEVEMENT_TRIGGERED: u8 = 5;

/// An achievement definition read from an rcheevos game-data response.
#[derive(Debug, Clone)]
pub struct ParsedAchievement {
    pub id: u32,
    pub title: String,
    pub description: String,
    pub points: u32,
    pub badge_name: String,
    /// The rcheevos condition string.
    pub definition: String,
    pub display_order: u32,
    pub achievement_type: String,
}

/// The type name of an rcheevos achievement type code.
pub open spec fn type_name_for_code(code: u32) -> Seq<char> {
    if code == 1 {
        "progression"@
    } else if code == 2 {
        "missable"@
    } else if code == 3 {
        "win"@
    } else {
        "standard"@
    }
}

pub fn achievement_type_name(code: u32) -> (s: String)
    ensures
        s@ == type_name_for_code(code),
{
    if code == 1 {
        "progression".to_owned()
    } else if code == 2 {
        "missable".to_owned()
    } else if code == 3 {
        "win".to_owned()
    } else {
        "standard".to_owned()
    }
}

impl ParsedAchievement {
    /// The record of one definition of a response.  The response carries
    /// no display order, so it is 0.
    pub fn from_definition(
        id: u32,
        title: String,
        description: String,
        points: u32,
        badge_name: String,
        definition: String,
        type_code: u32,
    ) -> (p: Self)
        ensures
            p.id == id,
            p.title == title,
            p.description == description,
            p.points == points,
            p.badge_name == badge_name,
            p.definition == definition,
            p.display_order == 0,
            p.achievement_type@ == type_name_for_code(type_code),
    {
        ParsedAchievement {
            id,
            title,
            description,
            points,
            badge_name,
            definition,
            display_order: 0,
            achievement_type: achievement_type_name(type_code),
        }
    }
}

/// The achievements a frame reports as triggered, from the frame's events
/// in delivery order: the ID of every achievement-triggered event, in that
/// order; other events are left out.
pub open spec fn triggered_ids(events: Seq<(u8, u32)>) -> Seq<u32>
    decreases events.len(),
{
    if events.len() == 0 {
        Seq::empty()
    } else if events.last().0 == RC_RUNTIME_EVENT_ACHIEVEMENT_TRIGGERED {
        triggered_ids(events.drop_last()).push(events.last().1)
    } else {
        triggered_ids(events.drop_last())
    }
}

/// Reduces a frame's `(event type, id)` events to the triggered achievements,
/// in delivery order.
pub fn frame_triggered_ids(events: &[(u8, u32)]) -> (ids: Vec<u32>)
    ensures
        ids@ == triggered_ids(events@),
{
    let mut ids: Vec<u32> = Vec::new();
    let mut i: usize = 0;
    while i < events.len()
        invariant
            i <= events@.len(),
            ids@ == triggered_ids(events@.take(i as int)),
        decreases events@.len() - i,
    {
        assert(events@.take(i + 1).drop_last() =~= events@.take(i as int));
        if events[i].0 == RC_RUNTIME_EVENT_ACHIEVEMENT_TRIGGERED {
            ids.push(events[i].1);
        }
        i = i + 1;
    }
    assert(events@.take(events@.len() as int) =~= events@);
    ids
}

} // verus!
