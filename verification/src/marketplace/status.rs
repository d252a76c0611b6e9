use vstd::prelude::*;

verus! {

/// Lifecycle of a listing: it starts `Unstarted`, becomes `Running` once its
/// start time is reached and ends for good.
#[derive(PartialEq, Eq, Structural, Clone, Copy, Debug)]
pub enum ListingStatus {
    Unstarted,
    Running,
    Ended,
}

impl ListingStatus {
    /// The name of the status, as shown to users.
    pub fn as_str(&self) -> (s: &'static str)
        ensures
            *self == ListingStatus::Unstarted ==> s@ == "Unstarted"@,
            *self == ListingStatus::Running ==> s@ == "Running"@,
            *self == ListingStatus::Ended ==> s@ == "Ended"@,
    {
        match self {
            ListingStatus::Unstarted => "Unstarted",
            ListingStatus::Running => "Running",
            ListingStatus::Ended => "Ended",
        }
    }
}

/// Position of a status in the lifecycle.
pub open spec fn status_rank(s: ListingStatus) -> int {
    match s {
        ListingStatus::Unstarted => 0,
        ListingStatus::Running => 1,
        ListingStatus::Ended => 2,
    }
}

/// The status of a listing at time `now`: an ended listing stays ended; a
/// sold-out listing, or one whose end time has come, ends; a running listing
/// keeps running; an unstarted one starts once its start time (if any) has come.
pub open spec fn status_at(
    status: ListingStatus,
    sold_out: bool,
    start: Option<i64>,
    end: Option<i64>,
    now: i64,
) -> ListingStatus {
    if status == ListingStatus::Ended {
        ListingStatus::Ended
    } else if sold_out {
        ListingStatus::Ended
    } else if end matches Some(e) && now >= e {
        ListingStatus::Ended
    } else if status == ListingStatus::Running {
        ListingStatus::Running
    } else if start matches Some(s) && now < s {
        status
    } else {
        ListingStatus::Running
    }
}

/// Computes [`status_at`].
pub fn advance_status(
    status: ListingStatus,
    sold_out: bool,
    start: Option<i64>,
    end: Option<i64>,
    now: i64,
) -> (r: ListingStatus)
    ensures
        r == status_at(status, sold_out, start, end, now),
{
    if status == ListingStatus::Ended {
        return ListingStatus::Ended;
    }
    if sold_out {
        return ListingStatus::Ended;
    }
    if let Some(e) = end {
        if now >= e {
            return ListingStatus::Ended;
        }
    }
    if status == ListingStatus::Running {
        return ListingStatus::Running;
    }
    match start {
        Some(s) => {
            if now >= s {
                ListingStatus::Running
            } else {
                status
            }
        },
        None => ListingStatus::Running,
    }
}

/// A listing never moves back in its lifecycle, whatever the time.
pub proof fn lemma_status_never_goes_back(
    status: ListingStatus,
    sold_out: bool,
    start: Option<i64>,
    end: Option<i64>,
    now: i64,
)
    ensures
        status_rank(status_at(status, sold_out, start, end, now)) >= status_rank(status),
{
}

/// Once ended, a listing stays ended.
pub proof fn lemma_ended_is_final(sold_out: bool, start: Option<i64>, end: Option<i64>, now: i64)
    ensures
        status_at(ListingStatus::Ended, sold_out, start, end, now) == ListingStatus::Ended,
{
}

/// Updating the status twice at the same moment is the same as updating it once.
pub proof fn lemma_status_update_idempotent(
    status: ListingStatus,
    sold_out: bool,
    start: Option<i64>,
    end: Option<i64>,
    now: i64,
)
    ensures
        status_at(status_at(status, sold_out, start, end, now), sold_out, start, end, now)
            == status_at(status, sold_out, start, end, now),
{
}

/// A listing whose end time has passed is ended.
pub proof fn lemma_ended_after_end(
    status: ListingStatus,
    sold_out: bool,
    start: Option<i64>,
    e: i64,
    now: i64,
)
    requires
        now >= e,
    ensures
        status_at(status, sold_out, start, Some(e), now) == ListingStatus::Ended,
{
}

} // verus!
