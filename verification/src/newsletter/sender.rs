//! Send reports, rate limiting and per-subscriber personalisation for
//! newsletter delivery. Delivery itself (SMTP) happens outside the library;
//! the decisions around it are here.
use vstd::prelude::*;
use crate::newsletter::base64::{encode, encode_spec};
use crate::newsletter::composer::Newsletter;
use crate::newsletter::database::{Subscriber, SubscriberStatus};
use crate::text::{chars_of, push_all, push_str, replace_all, replace_str, string_of};
use crate::time::{now, Timestamp};
use vstd::string::StringSliceAdditionalSpecFns;

verus! {

/// A failed delivery.
pub struct SendError {
    pub subscriber_email: String,
    pub error_message: String,
    pub timestamp: Timestamp,
    pub retry_count: u32,
}

/// The tally of a sending run.
pub struct SendReport {
    pub total_subscribers: usize,
    pub successful_sends: usize,
    pub failed_sends: usize,
    pub started_at: Timestamp,
    pub completed_at: Option<Timestamp>,
    pub errors: Vec<SendError>,
}

impl SendReport {
    /// A report for a run over `total_subscribers`, started now.
    pub fn new(total_subscribers: usize) -> (res: SendReport)
        ensures
            res.total_subscribers == total_subscribers,
            res.successful_sends == 0,
            res.failed_sends == 0,
            res.completed_at is None,
            res.errors@.len() == 0,
    {
        SendReport {
            total_subscribers,
            successful_sends: 0,
            failed_sends: 0,
            started_at: now(),
            completed_at: None,
            errors: Vec::new(),
        }
    }

    /// Counts one successful delivery.
    pub fn add_success(&mut self)
        requires
            old(self).successful_sends < usize::MAX,
        ensures
            final(self).successful_sends == old(self).successful_sends + 1,
            final(self).failed_sends == old(self).failed_sends,
            final(self).total_subscribers == old(self).total_subscribers,
            final(self).started_at == old(self).started_at,
            final(self).completed_at == old(self).completed_at,
            final(self).errors@ == old(self).errors@,
    {
        self.successful_sends = self.successful_sends + 1;
    }

    /// Counts one failed delivery and records its error, with no retries.
    pub fn add_error(&mut self, subscriber_email: String, error_message: String)
        requires
            old(self).failed_sends < usize::MAX,
        ensures
            final(self).failed_sends == old(self).failed_sends + 1,
            final(self).successful_sends == old(self).successful_sends,
            final(self).total_subscribers == old(self).total_subscribers,
            final(self).started_at == old(self).started_at,
            final(self).completed_at == old(self).completed_at,
            final(self).errors@.len() == old(self).errors@.len() + 1,
            final(self).errors@.drop_last() == old(self).errors@,
            final(self).errors@.last().subscriber_email == subscriber_email,
            final(self).errors@.last().error_message == error_message,
            final(self).errors@.last().retry_count == 0,
    {
        self.failed_sends = self.failed_sends + 1;
        let e = SendError { subscriber_email, error_message, timestamp: now(), retry_count: 0 };
        self.errors.push(e);
        assert(self.errors@.drop_last() =~= old(self).errors@);
    }

    /// Marks the run finished, now.
    pub fn complete(&mut self)
        ensures
            final(self).completed_at is Some,
            final(self).successful_sends == old(self).successful_sends,
            final(self).failed_sends == old(self).failed_sends,
            final(self).total_subscribers == old(self).total_subscribers,
            final(self).started_at == old(self).started_at,
            final(self).errors@ == old(self).errors@,
    {
        self.completed_at = Some(now());
    }

    /// Whether every subscriber has been tried.
    pub fn is_complete(&self) -> (res: bool)
        ensures
            res == (self.successful_sends + self.failed_sends >= self.total_subscribers),
    {
        self.successful_sends >= self.total_subscribers
            || self.failed_sends >= self.total_subscribers - self.successful_sends
    }
}

/// The send times within the minute before `now` (all times in
/// milliseconds on one clock).
pub open spec fn recent_sends(times: Seq<u64>, now: u64) -> Seq<u64> {
    times.filter(|t: u64| t + 60000 > now)
}

/// How long to wait before sending at `now`: nothing while fewer than
/// `limit` sends fall in the last minute, else until the oldest of them is a
/// minute old.
pub open spec fn wait_before_send(times: Seq<u64>, now: u64, limit: u32) -> nat {
    let recent = recent_sends(times, now);
    if recent.len() >= limit {
        let elapsed: nat = if now >= recent[0] { (now - recent[0]) as nat } else { 0 };
        (60000 - elapsed) as nat
    } else {
        0
    }
}

/// Keeps deliveries under a number of emails per minute.
pub struct RateLimiter {
    pub emails_per_minute: u32,
    /// Times of the sends in the last minute, oldest first, in
    /// milliseconds on the caller's clock.
    pub last_send_times: Vec<u64>,
}

impl RateLimiter {
    /// A limiter allowing `emails_per_minute` sends a minute, with no sends
    /// yet.
    pub fn new(emails_per_minute: u32) -> (res: RateLimiter)
        ensures
            res.emails_per_minute == emails_per_minute,
            res.last_send_times@.len() == 0,
    {
        RateLimiter { emails_per_minute, last_send_times: Vec::new() }
    }

    /// Records a send at `now` and returns how many milliseconds the caller
    /// must wait before it: sends older than a minute are forgotten, and
    /// once the limit is reached the wait lasts until the oldest remaining
    /// send is a minute old.
    pub fn wait_if_needed(&mut self, now: u64) -> (wait: u64)
        requires
            old(self).emails_per_minute > 0
                || recent_sends(old(self).last_send_times@, now).len() > 0,
        ensures
            wait == wait_before_send(old(self).last_send_times@, now, old(self).emails_per_minute),
            wait <= 60000,
            final(self).last_send_times@ == recent_sends(old(self).last_send_times@, now).push(now),
            final(self).emails_per_minute == old(self).emails_per_minute,
    {
        let ghost times = self.last_send_times@;
        let mut kept: Vec<u64> = Vec::new();
        let n = self.last_send_times.len();
        let mut i: usize = 0;
        while i < n
            invariant
                n == times.len(),
                times == self.last_send_times@,
                i <= n,
                kept@ == recent_sends(times.take(i as int), now),
            decreases n - i,
        {
            let t = self.last_send_times[i];
            proof {
                reveal(Seq::filter);
                assert(times.take(i + 1).drop_last() =~= times.take(i as int));
                assert(times.take(i + 1).last() == t);
            }
            if t as u128 + 60000 > now as u128 {
                kept.push(t);
            }
            i += 1;
        }
        assert(times.take(n as int) =~= times);
        let mut wait: u64 = 0;
        if kept.len() >= self.emails_per_minute as usize {
            let oldest = kept[0];
            let elapsed: u64 = if now >= oldest { now - oldest } else { 0 };
            proof {
                let pred = |t: u64| t + 60000 > now;
                times.lemma_filter_pred(pred, 0);
            }
            wait = 60000 - elapsed;
        }
        kept.push(now);
        self.last_send_times = kept;
        wait
    }
}

/// The subscribers that are approved, in their order.
pub open spec fn approved(subs: Seq<Subscriber>) -> Seq<Subscriber> {
    subs.filter(|s: Subscriber| s.status == SubscriberStatus::Approved)
}

/// The positions of the approved subscribers, in order: a newsletter goes
/// to these and to no one else.
pub fn approved_positions(subscribers: &Vec<Subscriber>) -> (res: Vec<usize>)
    ensures
        res@.len() == approved(subscribers@).len(),
        forall|k: int| 0 <= k < res@.len() ==> #[trigger] res@[k] < subscribers@.len()
            && subscribers@[res@[k] as int] == approved(subscribers@)[k],
        forall|a: int, b: int| 0 <= a < b < res@.len() ==> res@[a] < res@[b],
{
    let ghost subs = subscribers@;
    let mut res: Vec<usize> = Vec::new();
    let n = subscribers.len();
    let mut i: usize = 0;
    while i < n
        invariant
            n == subs.len(),
            subs == subscribers@,
            i <= n,
            res@.len() == approved(subs.take(i as int)).len(),
            forall|k: int| 0 <= k < res@.len() ==> #[trigger] res@[k] < i
                && subs[res@[k] as int] == approved(subs.take(i as int))[k],
            forall|a: int, b: int| 0 <= a < b < res@.len() ==> res@[a] < res@[b],
        decreases n - i,
    {
        proof {
            reveal(Seq::filter);
            assert(subs.take(i + 1).drop_last() =~= subs.take(i as int));
            assert(subs.take(i + 1).last() == subs[i as int]);
        }
        let ghost ap = approved(subs.take(i as int));
        let ghost ap1 = approved(subs.take(i + 1));
        let ghost old_res = res@;
        if subscribers[i].status == SubscriberStatus::Approved {
            res.push(i);
            assert(ap1 == ap.push(subs[i as int]));
            assert forall|k: int| 0 <= k < res@.len() implies #[trigger] res@[k] < i + 1
                && subs[res@[k] as int] == ap1[k] by {
                if k < old_res.len() {
                    assert(res@[k] == old_res[k]);
                }
            }
        } else {
            assert(ap1 == ap);
        }
        i += 1;
    }
    assert(subs.take(n as int) =~= subs);
    res
}

/// The unsubscribe link put into a newsletter: a mail to the sending
/// account that carries the token.
pub open spec fn unsubscribe_url(username: Seq<char>, token: Seq<char>) -> Seq<char> {
    "mailto:"@ + username + "?subject=Unsubscribe&body=Please unsubscribe me from the newsletter. Token: "@ + token
}

/// One content part of a newsletter personalised with a token.
pub open spec fn personalize_text(s: Seq<char>, username: Seq<char>, token: Seq<char>) -> Seq<char> {
    replace_all(
        replace_all(s, "{{unsubscribe_token}}"@, token),
        "{{unsubscribe_url}}"@,
        unsubscribe_url(username, token),
    )
}

fn personalize_part(s: &String, username: &str, token: &str) -> (res: String)
    ensures
        res@ == personalize_text(s@, username@, token@),
{
    proof {
        reveal_strlit("{{unsubscribe_token}}");
        reveal_strlit("{{unsubscribe_url}}");
    }
    let v = chars_of(s.as_str());
    let step1 = replace_str(&v, "{{unsubscribe_token}}", token);
    let mut url = String::new();
    push_str(&mut url, "mailto:");
    push_str(&mut url, username);
    push_str(&mut url, "?subject=Unsubscribe&body=Please unsubscribe me from the newsletter. Token: ");
    push_str(&mut url, token);
    let step2 = replace_str(&step1, "{{unsubscribe_url}}", url.as_str());
    string_of(&step2)
}

fn clone_opt(o: &Option<String>) -> (res: Option<String>)
    ensures
        res == *o,
{
    match o {
        Some(s) => Some(s.clone()),
        None => None,
    }
}

/// The newsletter as sent to one subscriber: in both the HTML and the text
/// part the token placeholder is replaced by the token and the link
/// placeholder by the unsubscribe link of the sending account `username`.
pub fn personalize_newsletter(newsletter: &Newsletter, username: &str, unsubscribe_token: &str) -> (res: Newsletter)
    ensures
        res.subject == newsletter.subject,
        res.created_at == newsletter.created_at,
        res.unsubscribe_token == newsletter.unsubscribe_token,
        res.html_content@ == personalize_text(newsletter.html_content@, username@, unsubscribe_token@),
        res.text_content@ == personalize_text(newsletter.text_content@, username@, unsubscribe_token@),
{
    Newsletter {
        subject: newsletter.subject.clone(),
        html_content: personalize_part(&newsletter.html_content, username, unsubscribe_token),
        text_content: personalize_part(&newsletter.text_content, username, unsubscribe_token),
        created_at: newsletter.created_at,
        unsubscribe_token: clone_opt(&newsletter.unsubscribe_token),
    }
}

/// A lower-case hexadecimal digit.
pub open spec fn is_lower_hex(c: char) -> bool {
    ('0' <= c && c <= '9') || ('a' <= c && c <= 'f')
}

/// A fresh random (version 4) UUID in its hyphenated text form, made with
/// `uuid::Uuid::new_v4` and its `Display`: 36 characters, hyphens at
/// positions 8, 13, 18 and 23, lower-case hexadecimal digits elsewhere,
/// the version digit `4` at position 14 and the variant digit (`8`, `9`,
/// `a` or `b`) at 19. Which other digits come is left to chance.
#[verifier::external_body]
pub(crate) fn random_uuid_text() -> (res: String)
    ensures
        res@.len() == 36,
        forall|i: int| 0 <= i < 36 ==> (#[trigger] res@[i] == '-') == (i == 8 || i == 13 || i == 18 || i == 23),
        forall|i: int| 0 <= i < 36 && i != 8 && i != 13 && i != 18 && i != 23 ==> is_lower_hex(#[trigger] res@[i]),
        res@[14] == '4',
        res@[19] == '8' || res@[19] == '9' || res@[19] == 'a' || res@[19] == 'b',
{
    uuid::Uuid::new_v4().to_string()
}

/// An unsubscribe token for `email`: the Base64 of its bytes, a colon and
/// eight random lower-case hexadecimal digits.
pub fn generate_unsubscribe_token(email: &str) -> (res: String)
    ensures
        res@.len() == encode_spec(email.spec_bytes()).len() + 9,
        res@.take(encode_spec(email.spec_bytes()).len() as int) == encode_spec(email.spec_bytes()),
        res@[encode_spec(email.spec_bytes()).len() as int] == ':',
        forall|i: int| encode_spec(email.spec_bytes()).len() < i < res@.len() ==> is_lower_hex(#[trigger] res@[i]),
{
    let mut res = encode(email.as_bytes());
    let ghost e = res@;
    crate::text::push_char(&mut res, ':');
    let u = chars_of(random_uuid_text().as_str());
    let mut i: usize = 0;
    while i < 8
        invariant
            i <= 8,
            u@.len() == 36,
            forall|j: int| 0 <= j < 36 && j != 8 && j != 13 && j != 18 && j != 23 ==> is_lower_hex(#[trigger] u@[j]),
            res@ == e.push(':') + u@.take(i as int),
        decreases 8 - i,
    {
        crate::text::push_char(&mut res, u[i]);
        assert(u@.take(i + 1) =~= u@.take(i as int).push(u@[i as int]));
        i += 1;
    }
    assert forall|k: int| e.len() < k < res@.len() implies is_lower_hex(#[trigger] res@[k]) by {
        assert(res@[k] == u@[k - e.len() - 1]);
    }
    res
}

} // verus!
