use vstd::prelude::*;

verus! {

/// Where the processor's status row is looked up.
#[derive(Debug, PartialEq, Eq)]
pub enum StatusLookup {
    /// The status of the backfill with this alias.
    Backfill(String),
    /// The status of the processor with this name.
    Processor(String),
}

/// The first step in choosing the version to start from.
#[derive(Debug, PartialEq, Eq, Structural)]
pub enum StartingVersionPlan {
    /// Start from this version, which the configuration sets.
    Use(u64),
    /// Look up the last processed version in the database.
    ConsultDatabase,
}

/// A version set in the configuration wins; without one the database decides.
pub fn plan_starting_version(configured: Option<u64>) -> (plan: StartingVersionPlan)
    ensures
        plan == (match configured {
            Some(v) => StartingVersionPlan::Use(v),
            None => StartingVersionPlan::ConsultDatabase,
        }),
{
    match configured {
        Some(v) => StartingVersionPlan::Use(v),
        None => StartingVersionPlan::ConsultDatabase,
    }
}

/// The version to start from once the database has been asked: the one after
/// the last processed version, or 0 where none is recorded.
pub fn starting_version_after_lookup(latest_processed: Option<u64>) -> (start: u64)
    requires
        latest_processed != Some(u64::MAX),
    ensures
        start == (match latest_processed {
            Some(v) => v + 1,
            None => 0,
        }),
{
    match latest_processed {
        Some(v) => v + 1,
        None => 0,
    }
}

/// The version to start from: the configured one, else the one after the last
/// processed version, else 0.
pub open spec fn expected_starting_version(configured: Option<u64>, latest_processed: Option<u64>) -> int {
    match configured {
        Some(v) => v as int,
        None => match latest_processed {
            Some(v) => v + 1,
            None => 0,
        },
    }
}

/// The version to start from, given the configured version and the last
/// processed version that the database holds.
pub fn resolve_starting_version(configured: Option<u64>, latest_processed: Option<u64>) -> (start: u64)
    requires
        configured is None ==> latest_processed != Some(u64::MAX),
    ensures
        start == expected_starting_version(configured, latest_processed),
        configured matches Some(v) ==> start == v,
        configured is None ==> (latest_processed matches Some(l) ==> start == l + 1),
        configured is None && latest_processed is None ==> start == 0,
{
    match plan_starting_version(configured) {
        StartingVersionPlan::Use(v) => v,
        StartingVersionPlan::ConsultDatabase => starting_version_after_lookup(latest_processed),
    }
}

/// A backfill alias in the configuration sends the lookup to the backfill
/// status; else it goes to the status of the processor by its name.
pub fn status_lookup(backfill_alias: Option<String>, processor_name: String) -> (lookup: StatusLookup)
    ensures
        match backfill_alias {
            Some(alias) => lookup matches StatusLookup::Backfill(a) && a@ == alias@,
            None => lookup matches StatusLookup::Processor(n) && n@ == processor_name@,
        },
{
    match backfill_alias {
        Some(alias) => StatusLookup::Backfill(alias),
        None => StatusLookup::Processor(processor_name),
    }
}

/// The last processed version that a status row records, read as unsigned the
/// way a cast reads it.
pub fn version_from_status(last_success_version: Option<i64>) -> (version: Option<u64>)
    ensures
        version == (match last_success_version {
            Some(v) => Some(v as u64),
            None => None,
        }),
{
    match last_success_version {
        Some(v) => Some(v as u64),
        None => None,
    }
}

/// A configured starting version is the start, whatever the database records.
pub proof fn lemma_configured_version_wins(v: u64, latest_processed: Option<u64>)
    ensures
        expected_starting_version(Some(v), latest_processed) == v,
{
}

/// Without a configured version the processor resumes right after the last
/// processed version, so it never starts at or before a processed version, and
/// with no record it starts from 0.
pub proof fn lemma_resume_after_processed(latest: u64)
    ensures
        expected_starting_version(None, Some(latest)) == latest + 1,
        expected_starting_version(None, Some(latest)) > latest,
        expected_starting_version(None, None) == 0,
{
}

} // verus!
