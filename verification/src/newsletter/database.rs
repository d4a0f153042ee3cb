//! Subscribers and their approval status.
use vstd::prelude::*;
use crate::text::{lowercase, str_eq, to_lowercase};
use crate::time::{now, Timestamp};
use crate::newsletter::migration::{naive_datetime_parse, parse_naive_datetime};

verus! {

/// Where a subscriber stands in the approval workflow.
#[derive(Clone, Copy, PartialEq, Eq, Structural, Debug)]
pub enum SubscriberStatus {
    Pending,
    Approved,
    Declined,
}

/// The name of a status as it is shown and stored.
pub open spec fn status_name(s: SubscriberStatus) -> Seq<char> {
    match s {
        SubscriberStatus::Pending => "pending"@,
        SubscriberStatus::Approved => "approved"@,
        SubscriberStatus::Declined => "declined"@,
    }
}

/// The status with the given (already lower-cased) name.
pub open spec fn status_named(n: Seq<char>) -> Option<SubscriberStatus> {
    if n == "pending"@ {
        Some(SubscriberStatus::Pending)
    } else if n == "approved"@ {
        Some(SubscriberStatus::Approved)
    } else if n == "declined"@ {
        Some(SubscriberStatus::Declined)
    } else {
        None
    }
}

/// A status name that is not known.
#[derive(Debug)]
pub struct InvalidStatus {
    /// The text as it was given.
    pub given: String,
}

impl SubscriberStatus {
    /// The name of the status (`pending`, `approved` or `declined`).
    pub fn as_str(&self) -> (res: &'static str)
        ensures
            res@ == status_name(*self),
    {
        match self {
            SubscriberStatus::Pending => "pending",
            SubscriberStatus::Approved => "approved",
            SubscriberStatus::Declined => "declined",
        }
    }

    /// The status named by a lower-case name, if any.
    pub fn from_lowercase(name: &str) -> (res: Option<SubscriberStatus>)
        ensures
            res == status_named(name@),
    {
        if str_eq(name, "pending") {
            Some(SubscriberStatus::Pending)
        } else if str_eq(name, "approved") {
            Some(SubscriberStatus::Approved)
        } else if str_eq(name, "declined") {
            Some(SubscriberStatus::Declined)
        } else {
            None
        }
    }

    /// Parses a status name, ignoring case.
    pub fn from_str(s: &str) -> (res: Result<SubscriberStatus, InvalidStatus>)
        ensures
            match status_named(lowercase(s@)) {
                Some(st) => res == Ok::<SubscriberStatus, InvalidStatus>(st),
                None => res is Err && res->Err_0.given@ == s@,
            },
    {
        let lower = to_lowercase(s);
        match SubscriberStatus::from_lowercase(lower.as_str()) {
            Some(st) => Ok(st),
            None => Err(InvalidStatus { given: s.to_owned() }),
        }
    }
}

/// A newsletter subscriber.
pub struct Subscriber {
    pub id: Option<i64>,
    pub email: String,
    pub status: SubscriberStatus,
    pub subscribed_at: Timestamp,
    pub approved_at: Option<Timestamp>,
    pub source_email_id: Option<String>,
    pub notes: Option<String>,
}

impl Subscriber {
    /// A new pending subscriber, subscribed now.
    pub fn new(email: String, source_email_id: Option<String>) -> (res: Subscriber)
        ensures
            res.id is None,
            res.email == email,
            res.status == SubscriberStatus::Pending,
            res.approved_at is None,
            res.source_email_id == source_email_id,
            res.notes is None,
    {
        Subscriber {
            id: None,
            email,
            status: SubscriberStatus::Pending,
            subscribed_at: now(),
            approved_at: None,
            source_email_id,
            notes: None,
        }
    }

    /// Marks the subscriber approved, now.
    pub fn approve(&mut self)
        ensures
            final(self).status == SubscriberStatus::Approved,
            final(self).approved_at is Some,
            final(self).id == old(self).id,
            final(self).email == old(self).email,
            final(self).subscribed_at == old(self).subscribed_at,
            final(self).source_email_id == old(self).source_email_id,
            final(self).notes == old(self).notes,
    {
        self.status = SubscriberStatus::Approved;
        self.approved_at = Some(now());
    }

    /// Marks the subscriber declined, now.
    pub fn decline(&mut self)
        ensures
            final(self).status == SubscriberStatus::Declined,
            final(self).approved_at is Some,
            final(self).id == old(self).id,
            final(self).email == old(self).email,
            final(self).subscribed_at == old(self).subscribed_at,
            final(self).source_email_id == old(self).source_email_id,
            final(self).notes == old(self).notes,
    {
        self.status = SubscriberStatus::Declined;
        self.approved_at = Some(now());
    }
}

/// Every status is read back from its name.
pub proof fn law_status_name_round_trip(s: SubscriberStatus)
    ensures
        status_named(status_name(s)) == Some(s),
{
    reveal_strlit("pending");
    reveal_strlit("approved");
    reveal_strlit("declined");
    assert("pending"@.len() != "approved"@.len());
    assert("pending"@.len() != "declined"@.len());
    assert("approved"@[0] != "declined"@[0]);
}

/// A stored subscriber row, as the database gives its columns.
pub struct SubscriberRow {
    pub id: i64,
    pub email: String,
    pub status: String,
    pub subscribed_at: String,
    pub approved_at: Option<String>,
    pub source_email_id: Option<String>,
    pub notes: Option<String>,
}

/// The column of a stored row that does not read.
#[derive(Clone, Copy, PartialEq, Eq, Structural, Debug)]
pub enum RowError {
    /// Column 2, the status.
    Status,
    /// Column 3, the subscription time.
    SubscribedAt,
    /// Column 4, the approval time.
    ApprovedAt,
}

/// A stored time: `YYYY-MM-DD HH:MM:SS`, with or without milliseconds,
/// read as UTC.
pub open spec fn stored_time(s: Seq<char>) -> Option<Timestamp> {
    match naive_datetime_parse(s, "%Y-%m-%d %H:%M:%S"@) {
        Some(t) => Some(t),
        None => naive_datetime_parse(s, "%Y-%m-%d %H:%M:%S%.3f"@),
    }
}

fn read_stored_time(s: &str) -> (res: Option<Timestamp>)
    ensures
        res == stored_time(s@),
{
    match parse_naive_datetime(s, "%Y-%m-%d %H:%M:%S") {
        Some(t) => Some(t),
        None => parse_naive_datetime(s, "%Y-%m-%d %H:%M:%S%.3f"),
    }
}

/// The subscriber a stored row holds, or the first column (subscription
/// time, approval time, status) that does not read.
pub fn row_to_subscriber(row: SubscriberRow) -> (res: Result<Subscriber, RowError>)
    ensures
        match stored_time(row.subscribed_at@) {
            None => res == Err::<Subscriber, RowError>(RowError::SubscribedAt),
            Some(sub) => match row.approved_at {
                Some(a) if stored_time(a@) is None => res == Err::<Subscriber, RowError>(RowError::ApprovedAt),
                _ => match status_named(lowercase(row.status@)) {
                    None => res == Err::<Subscriber, RowError>(RowError::Status),
                    Some(st) => res matches Ok(s) && s.id == Some(row.id) && s.email == row.email
                        && s.status == st && s.subscribed_at == sub
                        && s.approved_at == match row.approved_at {
                            Some(a) => stored_time(a@),
                            None => None,
                        }
                        && s.source_email_id == row.source_email_id && s.notes == row.notes,
                },
            },
        },
{
    let subscribed_at = match read_stored_time(row.subscribed_at.as_str()) {
        Some(t) => t,
        None => return Err(RowError::SubscribedAt),
    };
    let approved_at = match &row.approved_at {
        Some(a) => match read_stored_time(a.as_str()) {
            Some(t) => Some(t),
            None => return Err(RowError::ApprovedAt),
        },
        None => None,
    };
    let status = match SubscriberStatus::from_str(row.status.as_str()) {
        Ok(st) => st,
        Err(_) => return Err(RowError::Status),
    };
    Ok(Subscriber {
        id: Some(row.id),
        email: row.email,
        status,
        subscribed_at,
        approved_at,
        source_email_id: row.source_email_id,
        notes: row.notes,
    })
}

} // verus!
