//! Records of the RetroAchievements web API, as plain values.
use vstd::prelude::*;
use std::collections::HashMap;

verus! {

/// User summary from the RetroAchievements API.
#[derive(Debug, Clone)]
pub struct UserSummary {
    pub user: String,
    pub total_points: u32,
    pub total_softcore_points: u32,
    pub total_true_points: u32,
    pub rank: Option<u32>,
    pub recently_played: Option<Vec<RecentGame>>,
}

/// A recently played game in a user summary.
#[derive(Debug, Clone)]
pub struct RecentGame {
    pub game_id: u32,
    pub title: String,
    pub console_id: u32,
    pub console_name: String,
    pub image_icon: String,
}

/// Game info with the user's progress.
#[derive(Debug, Clone)]
pub struct GameInfoAndProgress {
    pub id: u32,
    pub title: String,
    pub console_id: u32,
    pub console_name: String,
    pub image_icon: String,
    pub image_title: Option<String>,
    pub image_ingame: Option<String>,
    pub image_boxart: Option<String>,
    pub num_achievements: u32,
    pub num_players_casual: u32,
    pub num_players_hardcore: u32,
    pub achievements: Option<HashMap<String, Achievement>>,
    pub num_awarded_to_user: Option<u32>,
    pub num_awarded_to_user_hardcore: Option<u32>,
    pub user_completion: Option<String>,
    pub user_completion_hardcore: Option<String>,
}

/// An individual achievement as the API reports it.
#[derive(Debug, Clone)]
pub struct Achievement {
    pub id: u32,
    pub title: String,
    pub description: String,
    pub points: u32,
    pub badge_name: String,
    pub display_order: u32,
    pub mem_addr: Option<String>,
    pub achievement_type: String,
    pub date_earned: Option<String>,
    pub date_earned_hardcore: Option<String>,
}

/// Where the badge image of a badge name is served.
pub open spec fn badge_url_of(badge_name: Seq<char>) -> Seq<char> {
    "https://media.retroachievements.org/Badge/"@ + badge_name + ".png"@
}

/// An achievement is earned when it has an unlock date in either mode.
pub open spec fn earned(a: Achievement) -> bool {
    a.date_earned.is_some() || a.date_earned_hardcore.is_some()
}

/// An achievement is earned in hardcore mode when it has a hardcore date.
pub open spec fn earned_hardcore(a: Achievement) -> bool {
    a.date_earned_hardcore.is_some()
}

/// An achievement earned in hardcore mode counts as earned.
pub proof fn lemma_hardcore_counts_as_earned(a: Achievement)
    ensures
        earned_hardcore(a) ==> earned(a),
{
}

impl Achievement {
    /// Earned in either mode.
    pub fn is_earned(&self) -> (r: bool)
        ensures
            r == earned(*self),
    {
        self.date_earned.is_some() || self.date_earned_hardcore.is_some()
    }

    /// Earned in hardcore mode.
    pub fn is_earned_hardcore(&self) -> (r: bool)
        ensures
            r == earned_hardcore(*self),
    {
        self.date_earned_hardcore.is_some()
    }

    /// The URL of this achievement's badge image.
    pub fn badge_url(&self) -> (u: String)
        ensures
            u@ == badge_url_of(self.badge_name@),
    {
        let mut u = "https://media.retroachievements.org/Badge/".to_owned();
        u.append(self.badge_name.as_str());
        u.append(".png");
        u
    }
}

/// Game ID lookup result.
#[derive(Debug, Clone)]
pub struct GameIdLookup {
    pub success: bool,
    pub game_id: u32,
}

/// Achievement unlock response.
#[derive(Debug, Clone)]
pub struct AwardAchievementResponse {
    pub success: bool,
    pub achievement_id: Option<u32>,
    pub achievements_remaining: Option<u32>,
    pub score: Option<u32>,
    pub softcore_score: Option<u32>,
}

/// Simple game info for listing.
#[derive(Debug, Clone)]
pub struct GameListEntry {
    pub id: u32,
    pub title: String,
    pub console_id: u32,
    pub console_name: String,
    pub num_achievements: u32,
    pub points: u32,
}

} // verus!
