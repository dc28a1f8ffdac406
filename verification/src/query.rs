//! The values that the repositories hand to their queries, derived from the
//! listing parameters, the names under which statuses are stored, and how
//! sent renewal reminders are recorded.
use vstd::prelude::*;
use vstd::string::*;
use crate::model::{MembersWithRolesParams, RolesWithStatsParams};
use crate::text::same_text;

verus! {

/// The sort direction: descending only where asked for.
pub open spec fn direction_spec(order_desc: Option<bool>) -> Seq<char> {
    if order_desc == Some(true) { "DESC"@ } else { "ASC"@ }
}

pub fn direction(order_desc: Option<bool>) -> (d: &'static str)
    ensures
        d@ == direction_spec(order_desc),
{
    match order_desc {
        Some(true) => "DESC",
        _ => "ASC",
    }
}

/// The page size sent to a listing query: the requested one, truncated to
/// 32 bits as the query's integer type takes it, or no limit at all.
pub open spec fn page_limit_spec(page_size: Option<u64>) -> i32 {
    match page_size {
        Some(x) => x as i32,
        None => i32::MAX,
    }
}

/// The page index sent to a listing query (the query skips `index * limit`
/// rows), reinterpreted as a signed 64-bit integer; the first page where
/// none is given.
pub open spec fn page_index_spec(offset: Option<u64>) -> i64 {
    match offset {
        Some(x) => x as i64,
        None => 0,
    }
}

/// The arguments of the role statistics query.
#[derive(Debug)]
pub struct RoleStatsQuery {
    pub limit: i32,
    pub page_index: i64,
    pub search: Option<String>,
    pub order_by: Option<String>,
    pub direction: &'static str,
}

pub fn role_stats_query(params: RolesWithStatsParams) -> (q: RoleStatsQuery)
    ensures
        q.limit == page_limit_spec(params.page_size),
        q.page_index == page_index_spec(params.offset),
        q.search == params.search,
        q.order_by == params.order_by,
        q.direction@ == direction_spec(params.order_desc),
{
    let limit: i32 = match params.page_size {
        Some(x) => x as i32,
        None => i32::MAX,
    };
    let page_index: i64 = match params.offset {
        Some(x) => x as i64,
        None => 0,
    };
    RoleStatsQuery {
        limit,
        page_index,
        search: params.search,
        order_by: params.order_by,
        direction: direction(params.order_desc),
    }
}

/// The arguments of the member listing query.
#[derive(Debug)]
pub struct MembersQuery {
    pub limit: i32,
    pub page_index: i64,
    pub roles: Option<Vec<String>>,
    pub search: Option<String>,
    pub order_by: Option<String>,
    pub direction: &'static str,
    pub valid_from: Option<chrono::NaiveDate>,
    pub valid_until: Option<chrono::NaiveDate>,
}

pub fn members_query(params: MembersWithRolesParams) -> (q: MembersQuery)
    ensures
        q.limit == page_limit_spec(params.page_size),
        q.page_index == page_index_spec(params.offset),
        q.roles == params.roles,
        q.search == params.search,
        q.order_by == params.order_by,
        q.direction@ == direction_spec(params.order_desc),
        q.valid_from == params.valid_from,
        q.valid_until == params.valid_until,
{
    let limit: i32 = match params.page_size {
        Some(x) => x as i32,
        None => i32::MAX,
    };
    let page_index: i64 = match params.offset {
        Some(x) => x as i64,
        None => 0,
    };
    MembersQuery {
        limit,
        page_index,
        roles: params.roles,
        search: params.search,
        order_by: params.order_by,
        direction: direction(params.order_desc),
        valid_from: params.valid_from,
        valid_until: params.valid_until,
    }
}

/// The page size of the audit log listing: 50 entries unless asked
/// otherwise.
pub const AUDIT_PAGE_SIZE: i64 = 50;

/// The limit and row offset of the audit log query.
pub fn audit_log_paging(page_size: Option<i32>, offset: Option<i32>) -> (r: (i64, i64))
    ensures
        r.0 == (match page_size { Some(p) => p as i64, None => AUDIT_PAGE_SIZE }),
        r.1 == (match offset { Some(o) => o as i64, None => 0i64 }),
{
    let limit: i64 = match page_size {
        Some(p) => p as i64,
        None => AUDIT_PAGE_SIZE,
    };
    let skip: i64 = match offset {
        Some(o) => o as i64,
        None => 0,
    };
    (limit, skip)
}

/// A filter text of the application listing: the empty text, which the
/// query reads as "no filter", where none is given.
pub fn filter_text(value: Option<String>) -> (r: String)
    ensures
        match value {
            Some(v) => r == v,
            None => r@ == Seq::<char>::empty(),
        },
{
    match value {
        Some(v) => v,
        None => String::new(),
    }
}

/// The member ids to fetch: none given means all members, which the query
/// reads from an empty list.
pub fn member_ids_filter(ids: Option<Vec<u128>>) -> (r: Vec<u128>)
    ensures
        match ids {
            Some(v) => r == v,
            None => r@.len() == 0,
        },
{
    match ids {
        Some(v) => v,
        None => Vec::new(),
    }
}

/// The status of a membership renewal.
#[derive(Debug, Clone, Copy, PartialEq, Eq, Structural)]
pub enum RenewalStatus {
    Pending,
    Paid,
    Expired,
}

impl RenewalStatus {
    pub open spec fn name_spec(self) -> Seq<char> {
        match self {
            RenewalStatus::Pending => "pending"@,
            RenewalStatus::Paid => "paid"@,
            RenewalStatus::Expired => "expired"@,
        }
    }

    /// The stored name of the status.
    pub fn as_str(&self) -> (s: &'static str)
        ensures
            s@ == self.name_spec(),
    {
        match self {
            RenewalStatus::Pending => "pending",
            RenewalStatus::Paid => "paid",
            RenewalStatus::Expired => "expired",
        }
    }

    /// Reads a stored status: `paid` and `expired` are themselves, anything
    /// else is pending.
    pub open spec fn from_stored_spec(s: Seq<char>) -> RenewalStatus {
        if s == "paid"@ {
            RenewalStatus::Paid
        } else if s == "expired"@ {
            RenewalStatus::Expired
        } else {
            RenewalStatus::Pending
        }
    }

    pub fn from_stored(s: &str) -> (r: RenewalStatus)
        ensures
            r == RenewalStatus::from_stored_spec(s@),
    {
        if same_text(s, "paid") {
            RenewalStatus::Paid
        } else if same_text(s, "expired") {
            RenewalStatus::Expired
        } else {
            RenewalStatus::Pending
        }
    }
}

/// Every status reads back as itself from its stored name.
pub proof fn law_renewal_status_round_trip(st: RenewalStatus)
    ensures
        RenewalStatus::from_stored_spec(st.name_spec()) == st,
{
    reveal_strlit("pending");
    reveal_strlit("paid");
    reveal_strlit("expired");
    assert("pending"@.len() != "paid"@.len());
    assert("pending"@[0] != "expired"@[0]);
}

/// The reminder offsets (days before expiry) that a renewal records after
/// a reminder `days` days before expiry was sent: any offset is recorded,
/// and each only once, in the order first sent.
pub open spec fn record_reminder_spec(notified: Seq<i32>, days: i32) -> Seq<i32> {
    if notified.contains(days) {
        notified
    } else {
        notified.push(days)
    }
}

/// Whether a reminder `days` days before expiry has already been sent.
pub fn already_reminded(notified: &Vec<i32>, days: i32) -> (b: bool)
    ensures
        b == notified@.contains(days),
{
    let mut i: usize = 0;
    while i < notified.len()
        invariant
            i <= notified@.len(),
            forall|j: int| 0 <= j < i ==> notified@[j] != days,
        decreases notified.len() - i,
    {
        if notified[i] == days {
            return true;
        }
        i += 1;
    }
    false
}

pub fn record_reminder(notified: &Vec<i32>, days: i32) -> (r: Vec<i32>)
    ensures
        r@ == record_reminder_spec(notified@, days),
{
    let mut r: Vec<i32> = Vec::new();
    let mut i: usize = 0;
    while i < notified.len()
        invariant
            i <= notified@.len(),
            r@ == notified@.take(i as int),
        decreases notified.len() - i,
    {
        r.push(notified[i]);
        i += 1;
        assert(r@ =~= notified@.take(i as int));
    }
    assert(notified@.take(notified@.len() as int) =~= notified@);
    if !already_reminded(notified, days) {
        r.push(days);
    }
    r
}

/// A reminder is recorded once: recording the same offset again changes
/// nothing, and a recorded offset stays recorded.
pub proof fn law_reminder_recorded_once(notified: Seq<i32>, days: i32, other: i32)
    ensures
        record_reminder_spec(record_reminder_spec(notified, days), days) == record_reminder_spec(notified, days),
        record_reminder_spec(notified, days).contains(days),
        notified.contains(other) ==> record_reminder_spec(notified, days).contains(other),
{
    if !notified.contains(days) {
        assert(notified.push(days)[notified.len() as int] == days);
    }
    if notified.contains(other) && !notified.contains(days) {
        let j = choose|j: int| 0 <= j < notified.len() && notified[j] == other;
        assert(notified.push(days)[j] == other);
    }
}

} // verus!
