//! The newsletter HTTP API: its settings, request shapes and the
//! decisions of its endpoints. Serving HTTP and the database are outside
//! the library.
use vstd::prelude::*;
use crate::newsletter::approval::count_status;
use crate::newsletter::database::{status_named, Subscriber, SubscriberStatus};
use crate::text::{chars_of, contains_str, lowercase, occurs, to_lowercase};
use crate::time::now;

verus! {

/// API server configuration.
pub struct ApiConfig {
    pub host: String,
    pub port: u16,
    pub api_key: Option<String>,
    pub cors_enabled: bool,
    pub rate_limit: Option<u32>,
}

impl Default for ApiConfig {
    fn default() -> (res: ApiConfig)
        ensures
            res.host@ == "127.0.0.1"@,
            res.port == 3001,
            res.api_key is None,
            res.cors_enabled,
            res.rate_limit == Some(100u32),
    {
        ApiConfig {
            host: "127.0.0.1".to_owned(),
            port: 3001,
            api_key: None,
            cors_enabled: true,
            rate_limit: Some(100),
        }
    }
}

/// Subscriber list query parameters.
pub struct SubscriberQuery {
    pub status: Option<String>,
    pub limit: Option<usize>,
    pub offset: Option<usize>,
}

/// Subscriber creation request.
pub struct CreateSubscriberRequest {
    pub email: String,
    pub status: Option<SubscriberStatus>,
    pub notes: Option<String>,
}

/// Subscriber update request.
pub struct UpdateSubscriberRequest {
    pub status: Option<SubscriberStatus>,
    pub notes: Option<String>,
}

/// Newsletter sending request.
pub struct SendNewsletterRequest {
    pub subject: String,
    pub content: String,
    pub test_mode: Option<bool>,
    pub test_email: Option<String>,
}

/// Statistics response.
pub struct StatsResponse {
    pub total_subscribers: usize,
    pub approved_subscribers: usize,
    pub pending_subscribers: usize,
    pub declined_subscribers: usize,
}

/// The HTTP errors the endpoints answer with.
#[derive(Clone, Copy, PartialEq, Eq, Structural, Debug)]
pub enum ApiError {
    NotFound,
    Conflict,
    Internal,
}

impl ApiError {
    /// The HTTP status code.
    pub fn code(&self) -> (res: u16)
        ensures
            res == match *self {
                ApiError::NotFound => 404u16,
                ApiError::Conflict => 409u16,
                ApiError::Internal => 500u16,
            },
    {
        match self {
            ApiError::NotFound => 404,
            ApiError::Conflict => 409,
            ApiError::Internal => 500,
        }
    }
}

/// The status a list query asks for: a known name (any case) picks that
/// status, anything else lists all.
pub fn status_filter(query: &SubscriberQuery) -> (res: Option<SubscriberStatus>)
    ensures
        res == match query.status {
            Some(s) => status_named(lowercase(s@)),
            None => None,
        },
{
    match &query.status {
        Some(s) => {
            let lower = to_lowercase(s.as_str());
            SubscriberStatus::from_lowercase(lower.as_str())
        },
        None => None,
    }
}

/// A page of a list: from `offset` on (nothing when the offset is past
/// the end), at most `limit` items.
pub open spec fn page<T>(items: Seq<T>, offset: Option<usize>, limit: Option<usize>) -> Seq<T> {
    let after = match offset {
        Some(o) => if o < items.len() { items.skip(o as int) } else { Seq::empty() },
        None => items,
    };
    match limit {
        Some(l) => if l < after.len() { after.take(l as int) } else { after },
        None => after,
    }
}

/// Applies pagination to a list.
pub fn paginate<T>(items: Vec<T>, offset: Option<usize>, limit: Option<usize>) -> (res: Vec<T>)
    ensures
        res@ == page(items@, offset, limit),
{
    let start = match offset {
        Some(o) => if o < items.len() { o } else { items.len() },
        None => 0,
    };
    let ghost all = items@;
    let mut rest = items;
    let ghost after = all.skip(start as int);
    // keep the items from `start` on
    let mut tail = rest.split_off(start);
    assert(tail@ =~= after);
    if let Some(l) = limit {
        if l < tail.len() {
            tail.truncate(l);
        }
    }
    proof {
        match offset {
            Some(o) => {
                if o >= all.len() {
                    assert(after =~= Seq::<T>::empty());
                }
            },
            None => {
                assert(after =~= all);
            },
        }
    }
    tail
}

/// A subscriber created through the API: pending unless the request says
/// otherwise, with `api` as its source.
pub fn subscriber_from_request(request: CreateSubscriberRequest) -> (res: Subscriber)
    ensures
        res.id == Some(0i64),
        res.email == request.email,
        res.status == match request.status {
            Some(s) => s,
            None => SubscriberStatus::Pending,
        },
        res.approved_at is None,
        res.source_email_id matches Some(s) && s@ == "api"@,
        res.notes == request.notes,
{
    let status = match request.status {
        Some(s) => s,
        None => SubscriberStatus::Pending,
    };
    Subscriber {
        id: Some(0i64),
        email: request.email,
        status,
        subscribed_at: now(),
        approved_at: None,
        source_email_id: Some("api".to_owned()),
        notes: request.notes,
    }
}

/// The answer when storing a new subscriber failed: a conflict when the
/// address is already there, else an internal error.
pub fn create_failure(message: &str) -> (res: ApiError)
    ensures
        res == if occurs(message@, "UNIQUE constraint failed"@) { ApiError::Conflict } else { ApiError::Internal },
{
    let v = chars_of(message);
    if contains_str(&v, "UNIQUE constraint failed") {
        ApiError::Conflict
    } else {
        ApiError::Internal
    }
}

/// Applies an update request: a new status (approval time set now when a
/// subscriber first becomes approved) and new notes.
pub fn apply_update(subscriber: &mut Subscriber, request: UpdateSubscriberRequest)
    ensures
        final(subscriber).id == old(subscriber).id,
        final(subscriber).email == old(subscriber).email,
        final(subscriber).subscribed_at == old(subscriber).subscribed_at,
        final(subscriber).source_email_id == old(subscriber).source_email_id,
        final(subscriber).status == match request.status {
            Some(s) => s,
            None => old(subscriber).status,
        },
        match request.status {
            Some(SubscriberStatus::Approved) => old(subscriber).approved_at is None
                ==> final(subscriber).approved_at is Some,
            _ => true,
        },
        (old(subscriber).approved_at is Some || request.status != Some(SubscriberStatus::Approved))
            ==> final(subscriber).approved_at == old(subscriber).approved_at,
        final(subscriber).notes == match request.notes {
            Some(n) => Some(n),
            None => old(subscriber).notes,
        },
{
    if let Some(status) = request.status {
        subscriber.status = status;
        if status == SubscriberStatus::Approved && subscriber.approved_at.is_none() {
            subscriber.approved_at = Some(now());
        }
    }
    if let Some(notes) = request.notes {
        subscriber.notes = Some(notes);
    }
}

/// The statistics over all subscribers.
pub fn stats_of(subscribers: &Vec<Subscriber>) -> (res: StatsResponse)
    ensures
        res.total_subscribers == subscribers@.len(),
        res.approved_subscribers == count_status(subscribers@, SubscriberStatus::Approved),
        res.pending_subscribers == count_status(subscribers@, SubscriberStatus::Pending),
        res.declined_subscribers == count_status(subscribers@, SubscriberStatus::Declined),
{
    let mut a: usize = 0;
    let mut p: usize = 0;
    let mut d: usize = 0;
    let mut i: usize = 0;
    while i < subscribers.len()
        invariant
            i <= subscribers@.len(),
            a == count_status(subscribers@.take(i as int), SubscriberStatus::Approved),
            p == count_status(subscribers@.take(i as int), SubscriberStatus::Pending),
            d == count_status(subscribers@.take(i as int), SubscriberStatus::Declined),
            a <= i && p <= i && d <= i,
        decreases subscribers.len() - i,
    {
        assert(subscribers@.take(i + 1).drop_last() =~= subscribers@.take(i as int));
        match subscribers[i].status {
            SubscriberStatus::Approved => a += 1,
            SubscriberStatus::Pending => p += 1,
            SubscriberStatus::Declined => d += 1,
        }
        i += 1;
    }
    assert(subscribers@.take(subscribers@.len() as int) =~= subscribers@);
    StatsResponse {
        total_subscribers: subscribers.len(),
        approved_subscribers: a,
        pending_subscribers: p,
        declined_subscribers: d,
    }
}

/// Every subscriber has one of the three statuses, so the counts add up.
pub proof fn law_stats_add_up(subs: Seq<Subscriber>)
    ensures
        count_status(subs, SubscriberStatus::Approved) + count_status(subs, SubscriberStatus::Pending)
            + count_status(subs, SubscriberStatus::Declined) == subs.len(),
    decreases subs.len(),
{
    if subs.len() > 0 {
        law_stats_add_up(subs.drop_last());
    }
}

} // verus!
