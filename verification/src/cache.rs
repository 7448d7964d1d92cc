//! Records of the local achievement store, and how its query outcomes are
//! read.
use vstd::prelude::*;

verus! {

/// An achievement as the local store keeps it.
#[derive(Debug, Clone)]
pub struct CachedAchievement {
    pub id: u32,
    pub title: String,
    pub description: Option<String>,
    pub points: u32,
    pub badge_name: Option<String>,
    pub display_order: u32,
    pub date_earned: Option<String>,
    pub date_earned_hardcore: Option<String>,
}

impl CachedAchievement {
    /// Earned in either mode.
    pub fn is_earned(&self) -> (r: bool)
        ensures
            r == (self.date_earned.is_some() || self.date_earned_hardcore.is_some()),
    {
        self.date_earned.is_some() || self.date_earned_hardcore.is_some()
    }

    /// Earned in hardcore mode.
    pub fn is_earned_hardcore(&self) -> (r: bool)
        ensures
            r == self.date_earned_hardcore.is_some(),
    {
        self.date_earned_hardcore.is_some()
    }
}

/// The outcome of a query for a single row.
#[derive(Debug, Clone)]
pub enum RowLookup<T> {
    /// The query returned a row holding this value.
    Row(T),
    /// The query returned no row.
    NoRows,
    /// The query failed with this message.
    Failed(String),
}

/// A failed store operation, with the store's message.
#[derive(Debug, Clone)]
pub struct StoreError {
    pub message: String,
}

/// Reads a single-row lookup: a row gives its value, no row gives `None`,
/// and a failure is passed on.
pub fn found_row<T>(r: RowLookup<T>) -> (o: Result<Option<T>, StoreError>)
    ensures
        match r {
            RowLookup::Row(v) => o == Ok::<Option<T>, StoreError>(Some(v)),
            RowLookup::NoRows => o == Ok::<Option<T>, StoreError>(None),
            RowLookup::Failed(m) => o matches Err(e) && e.message@ == m@,
        },
{
    match r {
        RowLookup::Row(v) => Ok(Some(v)),
        RowLookup::NoRows => Ok(None),
        RowLookup::Failed(m) => Err(StoreError { message: m }),
    }
}

/// Whether a lookup of an unlock row found one.
pub fn row_exists(r: RowLookup<()>) -> (o: Result<bool, StoreError>)
    ensures
        match r {
            RowLookup::Row(_) => o == Ok::<bool, StoreError>(true),
            RowLookup::NoRows => o == Ok::<bool, StoreError>(false),
            RowLookup::Failed(m) => o matches Err(e) && e.message@ == m@,
        },
{
    match found_row(r) {
        Ok(Some(_)) => Ok(true),
        Ok(None) => Ok(false),
        Err(e) => Err(e),
    }
}

/// The unlock count as reported: the store's 64-bit count cast to `u32`
/// (keeping its low 32 bits).
pub fn unlock_count(count: i64) -> (n: u32)
    ensures
        n == count as u32,
{
    count as u32
}

/// The `(earned, total)` progress from a progress query row, which holds
/// the total first.
pub fn progress_from_row(total: u32, earned: u32) -> (p: (u32, u32))
    ensures
        p == (earned, total),
{
    (earned, total)
}

} // verus!
