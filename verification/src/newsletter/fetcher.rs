//! Recognising subscription requests among fetched emails. Fetching itself
//! (IMAP) and taking mails apart happen outside the library.
use vstd::prelude::*;
use crate::newsletter::database::Subscriber;
use crate::text::{
    chars_of, contains_char, contains_str, has_prefix, lowercase, occurs, push_dec, dec,
    string_of, string_of_range, to_lowercase, trim, trim_vec,
};
use crate::utils::{utf8_len, utf8_len_exceeds};

verus! {

/// An email as fetched from the mailbox.
pub struct FetchedEmail {
    pub id: u32,
    pub from: String,
    pub subject: String,
    pub body: String,
    pub date: Option<String>,
}

/// A `From` field that holds no address (the field as given).
#[derive(Debug)]
pub struct AddressError {
    pub from: String,
}

/// Finds subscription requests in fetched mail.
pub struct EmailFetcher {}

/// Index of the first `c` in `s`, or `-1`.
pub open spec fn first_index(s: Seq<char>, c: char) -> int
    decreases s.len(),
{
    if s.len() == 0 {
        -1
    } else if s[0] == c {
        0
    } else if first_index(s.skip(1), c) < 0 {
        -1
    } else {
        first_index(s.skip(1), c) + 1
    }
}

/// The address in a `From` field: the text between the first `<` and the
/// first `>` when the `>` comes later, else the whole field, which must
/// then hold an `@`; trimmed and lower-cased either way.
pub open spec fn address_of(from: Seq<char>) -> Option<Seq<char>> {
    let s = first_index(from, '<');
    let e = first_index(from, '>');
    if s >= 0 && e >= 0 && e > s {
        Some(lowercase(trim(from.subrange(s + 1, e))))
    } else if lowercase(trim(from)).contains('@') {
        Some(lowercase(trim(from)))
    } else {
        None
    }
}

fn find_char(v: &Vec<char>, c: char) -> (res: Option<usize>)
    ensures
        match res {
            Some(i) => i < v@.len() && first_index(v@, c) == i,
            None => first_index(v@, c) == -1,
        },
{
    let mut i: usize = 0;
    while i < v.len()
        invariant
            i <= v@.len(),
            forall|j: int| 0 <= j < i ==> v@[j] != c,
        decreases v.len() - i,
    {
        if v[i] == c {
            proof { lemma_first_index(v@, c, i as int); }
            return Some(i);
        }
        i += 1;
    }
    proof { lemma_first_index(v@, c, v@.len() as int); }
    None
}

proof fn lemma_first_index(s: Seq<char>, c: char, i: int)
    requires
        0 <= i <= s.len(),
        forall|j: int| 0 <= j < i ==> s[j] != c,
    ensures
        i < s.len() && s[i] == c ==> first_index(s, c) == i,
        i == s.len() ==> first_index(s, c) == -1,
    decreases i,
{
    if i > 0 {
        lemma_first_index(s.skip(1), c, i - 1);
    }
}

/// Basic email validation: an `@` and a `.`, not starting or ending with
/// `@`, and more than five bytes long.
pub open spec fn valid_email(e: Seq<char>) -> bool {
    &&& e.contains('@')
    &&& e.contains('.')
    &&& !(e.len() > 0 && e[0] == '@')
    &&& !(e.len() > 0 && e.last() == '@')
    &&& utf8_len(e) > 5
}

/// Words that mark a subscription request.
pub open spec fn subscribe_keywords() -> Seq<Seq<char>> {
    seq![
        "subscribe"@,
        "subscription"@,
        "newsletter"@,
        "sign up"@,
        "signup"@,
        "join"@,
        "mailing list"@,
        "updates"@,
        "notifications"@,
    ]
}

/// Words that mark a request to leave.
pub open spec fn unsubscribe_keywords() -> Seq<Seq<char>> {
    seq!["unsubscribe"@, "remove"@, "stop"@, "opt out"@, "opt-out"@]
}

/// Some keyword occurs in the subject or the body.
pub open spec fn mentions(keywords: Seq<Seq<char>>, subject: Seq<char>, body: Seq<char>) -> bool {
    exists|k: int| 0 <= k < keywords.len() && (occurs(subject, #[trigger] keywords[k]) || occurs(body, keywords[k]))
}

/// A subscription request mentions a subscription keyword and no
/// unsubscribe keyword (in the lower-cased subject and body).
pub open spec fn is_subscription(subject_lower: Seq<char>, body_lower: Seq<char>) -> bool {
    mentions(subscribe_keywords(), subject_lower, body_lower)
        && !mentions(unsubscribe_keywords(), subject_lower, body_lower)
}

/// A mail that asks to leave is never taken as a subscription request:
/// `unsubscribe`, `remove`, `stop`, `opt out` or `opt-out` in the
/// lower-cased subject or in the lower-cased body rules it out, whatever
/// else either says. A mail that names none of the subscription words
/// (`subscribe`, `subscription`, `newsletter`, `sign up`, `signup`, `join`,
/// `mailing list`, `updates`, `notifications`) is no request either, and
/// one that names one of them and none of the leaving words is one.
pub proof fn law_leaving_words_rule_out(subject: Seq<char>, body: Seq<char>, w: Seq<char>)
    ensures
        (w == "unsubscribe"@ || w == "remove"@ || w == "stop"@ || w == "opt out"@ || w == "opt-out"@)
            && (occurs(subject, w) || occurs(body, w)) ==> !is_subscription(subject, body),
        (w == "subscribe"@ || w == "subscription"@ || w == "newsletter"@ || w == "sign up"@ || w == "signup"@
            || w == "join"@ || w == "mailing list"@ || w == "updates"@ || w == "notifications"@)
            && (occurs(subject, w) || occurs(body, w))
            && !mentions(unsubscribe_keywords(), subject, body) ==> is_subscription(subject, body),
        !mentions(subscribe_keywords(), subject, body) ==> !is_subscription(subject, body),
        mentions(unsubscribe_keywords(), subject, body) <==> (
            occurs(subject, "unsubscribe"@) || occurs(body, "unsubscribe"@)
            || occurs(subject, "remove"@) || occurs(body, "remove"@)
            || occurs(subject, "stop"@) || occurs(body, "stop"@)
            || occurs(subject, "opt out"@) || occurs(body, "opt out"@)
            || occurs(subject, "opt-out"@) || occurs(body, "opt-out"@)),
{
    let u = unsubscribe_keywords();
    let k = subscribe_keywords();
    assert(u[0] == "unsubscribe"@ && u[1] == "remove"@ && u[2] == "stop"@ && u[3] == "opt out"@ && u[4] == "opt-out"@);
    assert(k[0] == "subscribe"@ && k[1] == "subscription"@ && k[2] == "newsletter"@ && k[3] == "sign up"@
        && k[4] == "signup"@ && k[5] == "join"@ && k[6] == "mailing list"@ && k[7] == "updates"@
        && k[8] == "notifications"@);
    if mentions(u, subject, body) {
        let i = choose|i: int| 0 <= i < u.len() && (occurs(subject, #[trigger] u[i]) || occurs(body, u[i]));
        assert(i == 0 || i == 1 || i == 2 || i == 3 || i == 4);
    }
}

fn mentions_any(keywords: &Vec<&str>, subject: &Vec<char>, body: &Vec<char>) -> (res: bool)
    ensures
        res == mentions(keywords@.map_values(|k: &str| k@), subject@, body@),
{
    let ghost kv = keywords@.map_values(|k: &str| k@);
    let mut i: usize = 0;
    while i < keywords.len()
        invariant
            i <= keywords@.len(),
            kv == keywords@.map_values(|k: &str| k@),
            forall|j: int| 0 <= j < i ==> !(occurs(subject@, #[trigger] kv[j]) || occurs(body@, kv[j])),
        decreases keywords.len() - i,
    {
        let k = keywords[i];
        if contains_str(subject, k) || contains_str(body, k) {
            assert(kv[i as int] == k@);
            return true;
        }
        i += 1;
    }
    false
}

impl EmailFetcher {
    /// A fetcher.
    pub fn new() -> (res: EmailFetcher) {
        EmailFetcher {}
    }

    /// Extract email address from a "From" field.
    pub fn extract_email_address(&self, from_field: &str) -> (res: Result<String, AddressError>)
        ensures
            match address_of(from_field@) {
                Some(a) => res matches Ok(r) && r@ == a,
                None => res matches Err(e) && e.from@ == from_field@,
            },
    {
        let v = chars_of(from_field);
        if let Some(start) = find_char(&v, '<') {
            if let Some(end) = find_char(&v, '>') {
                if end > start {
                    let inner = string_of_range(&v, start + 1, end);
                    let iv = chars_of(inner.as_str());
                    let t = trim_vec(&iv);
                    let ts = string_of(&t);
                    return Ok(to_lowercase(ts.as_str()));
                }
            }
        }
        let t = trim_vec(&v);
        let ts = string_of(&t);
        let email = to_lowercase(ts.as_str());
        let ev = chars_of(email.as_str());
        if contains_char(&ev, '@') {
            Ok(email)
        } else {
            Err(AddressError { from: from_field.to_owned() })
        }
    }

    /// Basic email validation.
    pub fn is_valid_email(&self, email: &str) -> (res: bool)
        ensures
            res == valid_email(email@),
    {
        let v = chars_of(email);
        let n = v.len();
        contains_char(&v, '@') && contains_char(&v, '.') && !(n > 0 && v[0] == '@')
            && !(n > 0 && v[n - 1] == '@') && utf8_len_exceeds(&v, 5)
    }

    /// Whether a lower-cased subject and body read as a subscription
    /// request.
    pub fn is_subscription_text(subject_lower: &str, body_lower: &str) -> (res: bool)
        ensures
            res == is_subscription(subject_lower@, body_lower@),
    {
        let sub: Vec<&str> = vec![
            "subscribe",
            "subscription",
            "newsletter",
            "sign up",
            "signup",
            "join",
            "mailing list",
            "updates",
            "notifications",
        ];
        let unsub: Vec<&str> = vec!["unsubscribe", "remove", "stop", "opt out", "opt-out"];
        assert(sub@.map_values(|k: &str| k@) =~= subscribe_keywords());
        assert(unsub@.map_values(|k: &str| k@) =~= unsubscribe_keywords());
        let s = chars_of(subject_lower);
        let b = chars_of(body_lower);
        mentions_any(&sub, &s, &b) && !mentions_any(&unsub, &s, &b)
    }

    /// Check if email looks like a subscription request.
    pub fn is_subscription_email(&self, email: &FetchedEmail) -> (res: bool)
        ensures
            res == is_subscription(lowercase(email.subject@), lowercase(email.body@)),
    {
        let s = to_lowercase(email.subject.as_str());
        let b = to_lowercase(email.body.as_str());
        EmailFetcher::is_subscription_text(s.as_str(), b.as_str())
    }
}

/// The subscription requests among `es`, as address and mail id, given
/// the addresses already seen: each address counts once (its first mail
/// decides), invalid addresses and mails that are no requests are passed
/// over. `None` when a `From` field holds no address.
pub open spec fn subscriptions(es: Seq<FetchedEmail>, seen: Set<Seq<char>>) -> Option<Seq<(Seq<char>, Seq<char>)>>
    decreases es.len(),
{
    if es.len() == 0 {
        Some(Seq::empty())
    } else {
        let e = es[0];
        match address_of(e.from@) {
            None => None,
            Some(a) => if seen.contains(a) {
                subscriptions(es.skip(1), seen)
            } else if !valid_email(a) || !is_subscription(lowercase(e.subject@), lowercase(e.body@)) {
                subscriptions(es.skip(1), seen.insert(a))
            } else {
                match subscriptions(es.skip(1), seen.insert(a)) {
                    Some(r) => Some(seq![(a, dec(e.id as nat))] + r),
                    None => None,
                }
            },
        }
    }
}

/// `acc` followed by the subscriptions in `r`, if any.
pub open spec fn after(acc: Seq<(Seq<char>, Seq<char>)>, r: Option<Seq<(Seq<char>, Seq<char>)>>) -> Option<Seq<(Seq<char>, Seq<char>)>> {
    match r {
        Some(x) => Some(acc + x),
        None => None,
    }
}

/// Address and source id of a subscriber.
pub open spec fn subscriber_key(s: Subscriber) -> (Seq<char>, Seq<char>) {
    (s.email@, match s.source_email_id { Some(i) => i@, None => Seq::empty() })
}

fn seen_contains(seen: &Vec<Vec<char>>, a: &Vec<char>) -> (res: bool)
    ensures
        res == crate::text::views(seen@).contains(a@),
{
    let mut i: usize = 0;
    while i < seen.len()
        invariant
            i <= seen@.len(),
            forall|j: int| 0 <= j < i ==> seen@[j]@ != a@,
        decreases seen.len() - i,
    {
        if crate::text::vec_eq(&seen[i], a) {
            assert(crate::text::views(seen@)[i as int] == a@);
            return true;
        }
        i += 1;
    }
    assert forall|j: int| 0 <= j < crate::text::views(seen@).len() implies crate::text::views(seen@)[j] != a@ by {
        assert(seen@[j]@ != a@);
    }
    false
}

impl EmailFetcher {
    /// Extract the subscription requests from fetched emails: one new
    /// pending subscriber per address (the first mail from an address
    /// decides), with the mail's id as its source.
    pub fn extract_subscriber_emails(&self, emails: &Vec<FetchedEmail>) -> (res: Result<Vec<Subscriber>, AddressError>)
        ensures
            match subscriptions(emails@, Set::empty()) {
                Some(r) => res matches Ok(v) && v@.map_values(|s: Subscriber| subscriber_key(s)) == r
                    && forall|k: int| 0 <= k < v@.len() ==> (#[trigger] v@[k]).status == crate::newsletter::database::SubscriberStatus::Pending
                        && v@[k].id is None && v@[k].approved_at is None && v@[k].notes is None,
                None => res is Err,
            },
    {
        let ghost all = emails@;
        let mut subscribers: Vec<Subscriber> = Vec::new();
        let mut seen: Vec<Vec<char>> = Vec::new();
        let ghost mut seen_set: Set<Seq<char>> = Set::empty();
        let mut i: usize = 0;
        assert(all.skip(0) =~= all);
        assert(subscribers@.map_values(|s: Subscriber| subscriber_key(s)) =~= Seq::<(Seq<char>, Seq<char>)>::empty());
        while i < emails.len()
            invariant
                i <= emails@.len(),
                all == emails@,
                forall|x: Seq<char>| seen_set.contains(x) <==> crate::text::views(seen@).contains(x),
                subscriptions(all, Set::empty()) == after(
                    subscribers@.map_values(|s: Subscriber| subscriber_key(s)),
                    subscriptions(all.skip(i as int), seen_set),
                ),
                forall|k: int| 0 <= k < subscribers@.len() ==> (#[trigger] subscribers@[k]).status == crate::newsletter::database::SubscriberStatus::Pending
                    && subscribers@[k].id is None && subscribers@[k].approved_at is None && subscribers@[k].notes is None,
            decreases emails.len() - i,
        {
            let e = &emails[i];
            let ghost rest = all.skip(i as int);
            assert(rest[0] == all[i as int]);
            assert(rest.skip(1) =~= all.skip(i + 1));
            let ghost acc = subscribers@.map_values(|s: Subscriber| subscriber_key(s));
            let a = match self.extract_email_address(e.from.as_str()) {
                Ok(a) => a,
                Err(err) => {
                    return Err(err);
                },
            };
            let av = chars_of(a.as_str());
            if seen_contains(&seen, &av) {
                i += 1;
                continue;
            }
            let ghost views_before = crate::text::views(seen@);
            seen.push(av);
            proof {
                assert(crate::text::views(seen@) =~= views_before.push(a@));
                seen_set = seen_set.insert(a@);
                assert forall|x: Seq<char>| seen_set.contains(x) <==> crate::text::views(seen@).contains(x) by {
                    if x == a@ {
                        assert(crate::text::views(seen@)[views_before.len() as int] == a@);
                    }
                    if crate::text::views(seen@).contains(x) && x != a@ {
                        let j = choose|j: int| 0 <= j < crate::text::views(seen@).len() && crate::text::views(seen@)[j] == x;
                        assert(j < views_before.len());
                        assert(views_before[j] == x);
                    }
                    if views_before.contains(x) {
                        let j = choose|j: int| 0 <= j < views_before.len() && views_before[j] == x;
                        assert(crate::text::views(seen@)[j] == x);
                    }
                }
            }
            if !self.is_valid_email(a.as_str()) || !self.is_subscription_email(e) {
                i += 1;
                continue;
            }
            let mut id_text = String::new();
            push_dec(&mut id_text, e.id as u128);
            let sub = Subscriber::new(a, Some(id_text));
            let ghost key = subscriber_key(sub);
            subscribers.push(sub);
            proof {
                assert(subscribers@.map_values(|s: Subscriber| subscriber_key(s)) =~= acc.push(key));
                match subscriptions(all.skip(i + 1), seen_set) {
                    Some(r) => {
                        assert(acc + (seq![key] + r) =~= acc.push(key) + r);
                    },
                    None => {},
                }
            }
            i += 1;
        }
        assert(all.skip(i as int) =~= Seq::<FetchedEmail>::empty());
        assert(subscribers@.map_values(|s: Subscriber| subscriber_key(s)) + Seq::<(Seq<char>, Seq<char>)>::empty() =~= subscribers@.map_values(|s: Subscriber| subscriber_key(s)));
        Ok(subscribers)
    }
}

} // verus!
