//! The subscriber approval screen as a state machine: keys move the
//! selection, change the filter and ask for confirmation; confirmed
//! actions are handed to the caller, which applies them to the database
//! and reports back with the fresh subscriber list.
use vstd::prelude::*;
use crate::newsletter::database::{Subscriber, SubscriberStatus};
use crate::text::{chars_of, contains_str, lowercase, occurs, push_dec, push_str, dec, to_lowercase};

verus! {

/// What the screen tells its caller after a key.
#[derive(PartialEq, Eq, Debug)]
pub enum ApprovalResult {
    Continue,
    Quit,
    Error(String),
}

/// Which view of the screen is shown.
#[derive(Clone, Copy, PartialEq, Eq, Structural, Debug)]
pub enum ApprovalMode {
    List,
    Help,
    Confirm,
}

/// An action on the chosen subscribers, waiting for confirmation.
#[derive(Clone, Copy, PartialEq, Eq, Structural, Debug)]
pub enum ConfirmAction {
    Approve,
    Decline,
    Delete,
}

/// Which subscribers are listed.
#[derive(Clone, Copy, PartialEq, Eq, Structural, Debug)]
pub enum SubscriberFilter {
    All,
    Pending,
    Approved,
    Declined,
}

/// The status a filter lists, if it lists one status.
pub open spec fn filter_status(f: SubscriberFilter) -> Option<SubscriberStatus> {
    match f {
        SubscriberFilter::All => None,
        SubscriberFilter::Pending => Some(SubscriberStatus::Pending),
        SubscriberFilter::Approved => Some(SubscriberStatus::Approved),
        SubscriberFilter::Declined => Some(SubscriberStatus::Declined),
    }
}

impl SubscriberFilter {
    /// The status this filter lists.
    pub fn to_status(&self) -> (res: Option<SubscriberStatus>)
        ensures
            res == filter_status(*self),
    {
        match self {
            SubscriberFilter::All => None,
            SubscriberFilter::Pending => Some(SubscriberStatus::Pending),
            SubscriberFilter::Approved => Some(SubscriberStatus::Approved),
            SubscriberFilter::Declined => Some(SubscriberStatus::Declined),
        }
    }

    /// The name shown for the filter.
    pub fn label(&self) -> (res: &'static str)
        ensures
            res@ == match *self {
                SubscriberFilter::All => "All"@,
                SubscriberFilter::Pending => "Pending"@,
                SubscriberFilter::Approved => "Approved"@,
                SubscriberFilter::Declined => "Declined"@,
            },
    {
        match self {
            SubscriberFilter::All => "All",
            SubscriberFilter::Pending => "Pending",
            SubscriberFilter::Approved => "Approved",
            SubscriberFilter::Declined => "Declined",
        }
    }
}

/// The keys the screen reacts to.
#[derive(Clone, Copy, PartialEq, Eq, Structural, Debug)]
pub enum ApprovalKey {
    Char(char),
    /// A function key by number.
    F(u8),
    Up,
    Down,
    Enter,
    Esc,
    Other,
}

/// What the caller must do after a key.
pub enum ApprovalCommand {
    /// Nothing.
    Nothing,
    /// Stop the screen.
    Quit,
    /// Reload the subscribers and hand them to `refresh`.
    Reload,
    /// Apply the action to the subscribers at these positions, then hand
    /// the reloaded subscribers to `action_done`.
    Apply(ConfirmAction, Vec<usize>),
}

/// The approval screen.
pub struct ApprovalApp {
    /// Whether the app should continue running
    pub running: bool,
    /// Current mode
    pub mode: ApprovalMode,
    /// Current filter
    pub filter: SubscriberFilter,
    /// All subscribers
    pub subscribers: Vec<Subscriber>,
    /// Positions of the listed subscribers
    pub filtered_subscribers: Vec<usize>,
    /// Row of the list that is highlighted
    pub selected_row: Option<usize>,
    /// Positions of the subscribers chosen for a bulk action, each once
    pub selected: Vec<usize>,
    /// Search query
    pub search_query: String,
    /// Status message
    pub status_message: Option<String>,
    /// Confirmation action
    pub confirm_action: Option<ConfirmAction>,
}

/// Whether subscriber `s` is listed under `f` and the (lower-cased) query.
pub open spec fn listed(s: Subscriber, f: SubscriberFilter, query: Seq<char>) -> bool {
    &&& match filter_status(f) {
        Some(st) => s.status == st,
        None => true,
    }
    &&& (query.len() == 0 || occurs(lowercase(s.email@), lowercase(query)))
}

/// The positions of the listed subscribers among the first `n`.
pub open spec fn listed_positions(subs: Seq<Subscriber>, f: SubscriberFilter, query: Seq<char>, n: int) -> Seq<usize>
    decreases n,
{
    if n <= 0 {
        Seq::empty()
    } else {
        let r = listed_positions(subs, f, query, n - 1);
        if listed(subs[n - 1], f, query) {
            r.push((n - 1) as usize)
        } else {
            r
        }
    }
}

impl ApprovalApp {
    /// The screen is consistent: listed positions name subscribers, the
    /// highlighted row is a listed one, and chosen positions are distinct
    /// subscribers.
    pub open spec fn wf(&self) -> bool {
        &&& forall|k: int| 0 <= k < self.filtered_subscribers@.len()
            ==> #[trigger] self.filtered_subscribers@[k] < self.subscribers@.len()
        &&& match self.selected_row {
            Some(r) => r < self.filtered_subscribers@.len(),
            None => true,
        }
        &&& self.selected@.no_duplicates()
        &&& forall|k: int| 0 <= k < self.selected@.len() ==> #[trigger] self.selected@[k] < self.subscribers@.len()
    }

    /// The listed positions for the current subscribers, filter and query.
    pub open spec fn expected_filtered(&self) -> Seq<usize> {
        listed_positions(self.subscribers@, self.filter, self.search_query@, self.subscribers@.len() as int)
    }

    /// The chosen subscribers as a set.
    pub open spec fn chosen(&self) -> Set<usize> {
        self.selected@.to_set()
    }

    /// The subscriber position under the highlighted row.
    pub open spec fn current(&self) -> Option<usize> {
        match self.selected_row {
            Some(r) => if r < self.filtered_subscribers@.len() {
                Some(self.filtered_subscribers@[r as int])
            } else {
                None
            },
            None => None,
        }
    }
}

proof fn lemma_listed_bounds(subs: Seq<Subscriber>, f: SubscriberFilter, q: Seq<char>, n: int)
    requires
        0 <= n <= subs.len(),
    ensures
        forall|k: int| 0 <= k < listed_positions(subs, f, q, n).len()
            ==> #[trigger] listed_positions(subs, f, q, n)[k] < n,
    decreases n,
{
    if n > 0 {
        lemma_listed_bounds(subs, f, q, n - 1);
        let r = listed_positions(subs, f, q, n - 1);
        assert forall|k: int| 0 <= k < listed_positions(subs, f, q, n).len()
            implies #[trigger] listed_positions(subs, f, q, n)[k] < n by {
            if k < r.len() {
                assert(listed_positions(subs, f, q, n)[k] == r[k]);
                assert(r[k] < n - 1);
            }
        }
    }
}

/// The first place of `x` in `v`, if any.
fn position_of(v: &Vec<usize>, x: usize) -> (res: Option<usize>)
    ensures
        match res {
            Some(k) => k < v@.len() && v@[k as int] == x,
            None => !v@.contains(x),
        },
{
    let mut k: usize = 0;
    while k < v.len()
        invariant
            k <= v@.len(),
            forall|j: int| 0 <= j < k ==> v@[j] != x,
        decreases v.len() - k,
    {
        if v[k] == x {
            return Some(k);
        }
        k += 1;
    }
    None
}

fn listed_exec(s: &Subscriber, f: SubscriberFilter, query_lower: &Vec<char>, query_empty: bool, ghost_query: Ghost<Seq<char>>) -> (res: bool)
    requires
        query_lower@ == lowercase(ghost_query@),
        query_empty == (ghost_query@.len() == 0),
    ensures
        res == listed(*s, f, ghost_query@),
{
    let status_ok = match f {
        SubscriberFilter::All => true,
        SubscriberFilter::Pending => s.status == SubscriberStatus::Pending,
        SubscriberFilter::Approved => s.status == SubscriberStatus::Approved,
        SubscriberFilter::Declined => s.status == SubscriberStatus::Declined,
    };
    if !status_ok {
        return false;
    }
    if query_empty {
        return true;
    }
    let e = to_lowercase(s.email.as_str());
    let ev = chars_of(e.as_str());
    let q = crate::text::string_of(query_lower);
    contains_str(&ev, q.as_str())
}

impl ApprovalApp {
    /// A screen over the given subscribers, listing the pending ones with
    /// the first highlighted.
    pub fn new(subscribers: Vec<Subscriber>) -> (res: ApprovalApp)
        ensures
            res.wf(),
            res.running,
            res.mode == ApprovalMode::List,
            res.filter == SubscriberFilter::Pending,
            res.subscribers@ == subscribers@,
            res.filtered_subscribers@ == res.expected_filtered(),
            res.selected_row == (if res.filtered_subscribers@.len() > 0 { Some(0usize) } else { None::<usize> }),
            res.selected@.len() == 0,
            res.search_query@.len() == 0,
            res.status_message is None,
            res.confirm_action is None,
    {
        let mut app = ApprovalApp {
            running: true,
            mode: ApprovalMode::List,
            filter: SubscriberFilter::Pending,
            subscribers,
            filtered_subscribers: Vec::new(),
            selected_row: None,
            selected: Vec::new(),
            search_query: String::new(),
            status_message: None,
            confirm_action: None,
        };
        app.apply_filter();
        if app.filtered_subscribers.len() > 0 {
            app.selected_row = Some(0);
        }
        app
    }

    /// Recomputes the listed subscribers; a highlighted row past the end
    /// goes back to the first, and with nothing listed nothing is
    /// highlighted.
    pub fn apply_filter(&mut self)
        requires
            forall|k: int| 0 <= k < old(self).selected@.len() ==> #[trigger] old(self).selected@[k] < old(self).subscribers@.len(),
            old(self).selected@.no_duplicates(),
        ensures
            final(self).wf(),
            final(self).filtered_subscribers@ == old(self).expected_filtered(),
            final(self).selected_row == if final(self).filtered_subscribers@.len() == 0 {
                None
            } else {
                match old(self).selected_row {
                    Some(r) => if r >= final(self).filtered_subscribers@.len() { Some(0usize) } else { Some(r) },
                    None => None,
                }
            },
            final(self).subscribers@ == old(self).subscribers@,
            final(self).selected@ == old(self).selected@,
            final(self).filter == old(self).filter,
            final(self).search_query@ == old(self).search_query@,
            final(self).mode == old(self).mode,
            final(self).running == old(self).running,
            final(self).confirm_action == old(self).confirm_action,
            final(self).status_message == old(self).status_message,
    {
        let ghost subs = self.subscribers@;
        let ghost q = self.search_query@;
        let lower = to_lowercase(self.search_query.as_str());
        let qv = chars_of(lower.as_str());
        let qempty = self.search_query.as_str().unicode_len() == 0;
        let mut out: Vec<usize> = Vec::new();
        let n = self.subscribers.len();
        let mut i: usize = 0;
        while i < n
            invariant
                i <= n,
                n == subs.len(),
                subs == self.subscribers@,
                q == self.search_query@,
                qv@ == lowercase(q),
                qempty == (q.len() == 0),
                out@ == listed_positions(subs, self.filter, q, i as int),
            decreases n - i,
        {
            if listed_exec(&self.subscribers[i], self.filter, &qv, qempty, Ghost(q)) {
                out.push(i);
            }
            i += 1;
        }
        proof { lemma_listed_bounds(subs, self.filter, q, n as int); }
        self.filtered_subscribers = out;
        if self.filtered_subscribers.len() == 0 {
            self.selected_row = None;
        } else {
            match self.selected_row {
                Some(r) => {
                    if r >= self.filtered_subscribers.len() {
                        self.selected_row = Some(0);
                    }
                },
                None => {},
            }
        }
    }

    /// Highlights the previous row, wrapping to the last.
    pub fn previous_subscriber(&mut self)
        requires
            old(self).wf(),
        ensures
            final(self).running == old(self).running,
            final(self).mode == old(self).mode,
            final(self).filter == old(self).filter,
            final(self).confirm_action == old(self).confirm_action,
            final(self).status_message == old(self).status_message,
            final(self).search_query@ == old(self).search_query@,
            final(self).wf(),
            final(self).selected_row == if old(self).filtered_subscribers@.len() == 0 {
                old(self).selected_row
            } else {
                match old(self).selected_row {
                    Some(r) => if r == 0 { Some((old(self).filtered_subscribers@.len() - 1) as usize) } else { Some((r - 1) as usize) },
                    None => Some(0usize),
                }
            },
            final(self).filtered_subscribers@ == old(self).filtered_subscribers@,
            final(self).subscribers@ == old(self).subscribers@,
            final(self).selected@ == old(self).selected@,
    {
        let n = self.filtered_subscribers.len();
        if n > 0 {
            let i = match self.selected_row {
                Some(r) => if r == 0 { n - 1 } else { r - 1 },
                None => 0,
            };
            self.selected_row = Some(i);
        }
    }

    /// Highlights the next row, wrapping to the first.
    pub fn next_subscriber(&mut self)
        requires
            old(self).wf(),
        ensures
            final(self).running == old(self).running,
            final(self).mode == old(self).mode,
            final(self).filter == old(self).filter,
            final(self).confirm_action == old(self).confirm_action,
            final(self).status_message == old(self).status_message,
            final(self).search_query@ == old(self).search_query@,
            final(self).wf(),
            final(self).selected_row == if old(self).filtered_subscribers@.len() == 0 {
                old(self).selected_row
            } else {
                match old(self).selected_row {
                    Some(r) => if r + 1 >= old(self).filtered_subscribers@.len() { Some(0usize) } else { Some((r + 1) as usize) },
                    None => Some(0usize),
                }
            },
            final(self).filtered_subscribers@ == old(self).filtered_subscribers@,
            final(self).subscribers@ == old(self).subscribers@,
            final(self).selected@ == old(self).selected@,
    {
        let n = self.filtered_subscribers.len();
        if n > 0 {
            let i = match self.selected_row {
                Some(r) => if r >= n - 1 { 0 } else { r + 1 },
                None => 0,
            };
            self.selected_row = Some(i);
        }
    }

    /// The subscriber position under the highlighted row.
    pub fn current_subscriber_index(&self) -> (res: Option<usize>)
        requires
            self.wf(),
        ensures
            res == self.current(),
    {
        match self.selected_row {
            Some(r) => if r < self.filtered_subscribers.len() {
                Some(self.filtered_subscribers[r])
            } else {
                None
            },
            None => None,
        }
    }

    fn choose_index(&mut self, index: usize)
        requires
            old(self).wf(),
            index < old(self).subscribers@.len(),
        ensures
            final(self).wf(),
            final(self).chosen() == old(self).chosen().insert(index),
            final(self).subscribers@ == old(self).subscribers@,
            final(self).filtered_subscribers@ == old(self).filtered_subscribers@,
            final(self).selected_row == old(self).selected_row,
            final(self).mode == old(self).mode,
            final(self).confirm_action == old(self).confirm_action,
            final(self).running == old(self).running,
            final(self).filter == old(self).filter,
            final(self).search_query@ == old(self).search_query@,
            final(self).status_message == old(self).status_message,
    {
        let ghost before = self.selected@;
        match position_of(&self.selected, index) {
            Some(k) => {
                assert(self.selected@.contains(index));
                assert(self.selected@.to_set() =~= self.selected@.to_set().insert(index));
            },
            None => {
                self.selected.push(index);
                proof { before.lemma_push_to_set_commute(index); }
                assert(self.selected@.to_set() =~= before.to_set().insert(index));
            },
        }
    }

    /// Chooses or unchooses the highlighted subscriber.
    pub fn toggle_selection(&mut self)
        requires
            old(self).wf(),
        ensures
            final(self).running == old(self).running,
            final(self).mode == old(self).mode,
            final(self).filter == old(self).filter,
            final(self).confirm_action == old(self).confirm_action,
            final(self).status_message == old(self).status_message,
            final(self).search_query@ == old(self).search_query@,
            final(self).wf(),
            final(self).chosen() == match old(self).current() {
                Some(i) => if old(self).chosen().contains(i) {
                    old(self).chosen().remove(i)
                } else {
                    old(self).chosen().insert(i)
                },
                None => old(self).chosen(),
            },
            final(self).subscribers@ == old(self).subscribers@,
            final(self).filtered_subscribers@ == old(self).filtered_subscribers@,
            final(self).selected_row == old(self).selected_row,
    {
        if let Some(index) = self.current_subscriber_index() {
            let ghost before = self.selected@;
            match position_of(&self.selected, index) {
                Some(k) => {
                    self.selected.remove(k);
                    assert(self.selected@ =~= before.remove(k as int));
                    proof {
                        assert forall|x: usize| #[trigger] self.selected@.to_set().contains(x) == before.to_set().remove(index).contains(x) by {
                            if x != index && before.contains(x) {
                                let j = choose|j: int| 0 <= j < before.len() && before[j] == x;
                                if j < k {
                                    assert(self.selected@[j] == x);
                                } else {
                                    assert(j != k);
                                    assert(self.selected@[j - 1] == x);
                                }
                            }
                            if self.selected@.contains(x) {
                                let j = choose|j: int| 0 <= j < self.selected@.len() && self.selected@[j] == x;
                                if j < k {
                                    assert(before[j] == x);
                                } else {
                                    assert(before[j + 1] == x);
                                }
                                assert(x != index);
                            }
                        }
                        assert(self.selected@.to_set() =~= before.to_set().remove(index));
                    }
                },
                None => {
                    self.selected.push(index);
                    proof { before.lemma_push_to_set_commute(index); }
                    assert(self.selected@.to_set() =~= before.to_set().insert(index));
                },
            }
        }
    }

    /// Chooses every listed subscriber.
    pub fn select_all(&mut self)
        requires
            old(self).wf(),
        ensures
            final(self).running == old(self).running,
            final(self).mode == old(self).mode,
            final(self).filter == old(self).filter,
            final(self).confirm_action == old(self).confirm_action,
            final(self).status_message == old(self).status_message,
            final(self).search_query@ == old(self).search_query@,
            final(self).wf(),
            final(self).chosen() == old(self).chosen() + old(self).filtered_subscribers@.to_set(),
            final(self).subscribers@ == old(self).subscribers@,
            final(self).filtered_subscribers@ == old(self).filtered_subscribers@,
            final(self).selected_row == old(self).selected_row,
    {
        let ghost start = self.chosen();
        let mut k: usize = 0;
        while k < self.filtered_subscribers.len()
            invariant
                k <= self.filtered_subscribers@.len(),
                self.wf(),
                self.chosen() == start + self.filtered_subscribers@.take(k as int).to_set(),
                self.filtered_subscribers@ == old(self).filtered_subscribers@,
                self.subscribers@ == old(self).subscribers@,
                self.selected_row == old(self).selected_row,
                self.running == old(self).running,
                self.mode == old(self).mode,
                self.filter == old(self).filter,
                self.confirm_action == old(self).confirm_action,
                self.status_message == old(self).status_message,
                self.search_query@ == old(self).search_query@,
                start == old(self).chosen(),
            decreases self.filtered_subscribers.len() - k,
        {
            let idx = self.filtered_subscribers[k];
            self.choose_index(idx);
            assert(self.filtered_subscribers@.take(k + 1).to_set() =~= self.filtered_subscribers@.take(k as int).to_set().insert(idx)) by {
                assert(self.filtered_subscribers@.take(k + 1) =~= self.filtered_subscribers@.take(k as int).push(idx));
                self.filtered_subscribers@.take(k as int).lemma_push_to_set_commute(idx);
            }
            assert(self.chosen() =~= start + self.filtered_subscribers@.take(k + 1).to_set());
            k += 1;
        }
        assert(self.filtered_subscribers@.take(self.filtered_subscribers@.len() as int) =~= self.filtered_subscribers@);
    }

    /// Unchooses everything.
    pub fn clear_selection(&mut self)
        requires
            old(self).wf(),
        ensures
            final(self).running == old(self).running,
            final(self).mode == old(self).mode,
            final(self).filter == old(self).filter,
            final(self).confirm_action == old(self).confirm_action,
            final(self).status_message == old(self).status_message,
            final(self).search_query@ == old(self).search_query@,
            final(self).wf(),
            final(self).chosen() == Set::<usize>::empty(),
            final(self).subscribers@ == old(self).subscribers@,
            final(self).filtered_subscribers@ == old(self).filtered_subscribers@,
            final(self).selected_row == old(self).selected_row,
    {
        self.selected = Vec::new();
        assert(self.selected@.to_set() =~= Set::<usize>::empty());
    }
}

/// What a key means in the list view.
pub enum ListIntent {
    Quit,
    ShowHelp,
    Reload,
    Previous,
    Next,
    Toggle,
    ChooseAll,
    ClearChoice,
    Ask(ConfirmAction),
    Show(SubscriberFilter),
    Ignore,
}

/// The meaning of a key in the list view.
pub open spec fn list_intent(key: ApprovalKey) -> ListIntent {
    match key {
        ApprovalKey::Char('q') | ApprovalKey::Esc => ListIntent::Quit,
        ApprovalKey::Char('h') | ApprovalKey::F(1) => ListIntent::ShowHelp,
        ApprovalKey::Char('r') => ListIntent::Reload,
        ApprovalKey::Up | ApprovalKey::Char('k') => ListIntent::Previous,
        ApprovalKey::Down | ApprovalKey::Char('j') => ListIntent::Next,
        ApprovalKey::Char(' ') => ListIntent::Toggle,
        ApprovalKey::Char('a') => ListIntent::ChooseAll,
        ApprovalKey::Char('n') => ListIntent::ClearChoice,
        ApprovalKey::Char('A') => ListIntent::Ask(ConfirmAction::Approve),
        ApprovalKey::Char('D') => ListIntent::Ask(ConfirmAction::Decline),
        ApprovalKey::Char('X') => ListIntent::Ask(ConfirmAction::Delete),
        ApprovalKey::Char('1') => ListIntent::Show(SubscriberFilter::All),
        ApprovalKey::Char('2') => ListIntent::Show(SubscriberFilter::Pending),
        ApprovalKey::Char('3') => ListIntent::Show(SubscriberFilter::Approved),
        ApprovalKey::Char('4') => ListIntent::Show(SubscriberFilter::Declined),
        _ => ListIntent::Ignore,
    }
}

/// The view and flags of the screen are those of `b` except as listed by
/// the caller; here: everything but the highlighted row and the choice.
pub open spec fn same_screen(a: &ApprovalApp, b: &ApprovalApp) -> bool {
    &&& a.running == b.running
    &&& a.mode == b.mode
    &&& a.filter == b.filter
    &&& a.subscribers@ == b.subscribers@
    &&& a.filtered_subscribers@ == b.filtered_subscribers@
    &&& a.search_query@ == b.search_query@
    &&& a.status_message == b.status_message
    &&& a.confirm_action == b.confirm_action
}

/// A key in the list view: what each intent does to the screen and what
/// it asks of the caller; the subscribers themselves stay as they are.
pub open spec fn list_step(before: &ApprovalApp, after: &ApprovalApp, key: ApprovalKey, res: ApprovalCommand) -> bool {
    &&& after.subscribers@ == before.subscribers@
    &&& after.search_query@ == before.search_query@
    &&& (!(list_intent(key) is Quit) ==> after.running == before.running)
    &&& (!(list_intent(key) is Show) ==> after.filter == before.filter)
    &&& (!(list_intent(key) is Ask) && !(list_intent(key) is ShowHelp) ==> after.mode == before.mode
        && after.confirm_action == before.confirm_action)
    &&& (!(list_intent(key) is Quit || list_intent(key) is ShowHelp) ==> after.status_message == before.status_message)
    &&& match list_intent(key) {
        ListIntent::Quit => res is Quit && !after.running,
        ListIntent::ShowHelp => res is Nothing && after.mode == ApprovalMode::Help,
        ListIntent::Reload => res is Reload && same_screen(after, before)
            && after.selected@ == before.selected@,
        ListIntent::Ask(a) => res is Nothing && after.selected_row == before.selected_row
            && after.filtered_subscribers@ == before.filtered_subscribers@
            && if before.selected@.len() > 0 {
                after.confirm_action == Some(a) && after.mode == ApprovalMode::Confirm
                    && after.selected@ == before.selected@
            } else if before.current() is Some {
                after.confirm_action == Some(a) && after.mode == ApprovalMode::Confirm
                    && after.chosen() == before.chosen().insert(before.current().unwrap())
            } else {
                after.confirm_action == before.confirm_action && after.mode == before.mode
                    && after.selected@ == before.selected@
            },
        ListIntent::Show(f) => res is Nothing && after.filter == f
            && after.filtered_subscribers@ == listed_positions(
                before.subscribers@, f, before.search_query@, before.subscribers@.len() as int),
        ListIntent::Toggle => res is Nothing && after.chosen() == match before.current() {
            Some(i) => if before.chosen().contains(i) {
                before.chosen().remove(i)
            } else {
                before.chosen().insert(i)
            },
            None => before.chosen(),
        },
        ListIntent::ChooseAll => res is Nothing
            && after.chosen() == before.chosen() + before.filtered_subscribers@.to_set(),
        ListIntent::ClearChoice => res is Nothing && after.chosen() == Set::<usize>::empty(),
        ListIntent::Previous => res is Nothing && after.filtered_subscribers@ == before.filtered_subscribers@
            && after.selected@ == before.selected@
            && after.selected_row == if before.filtered_subscribers@.len() == 0 {
                before.selected_row
            } else {
                match before.selected_row {
                    Some(r) => if r == 0 { Some((before.filtered_subscribers@.len() - 1) as usize) } else { Some((r - 1) as usize) },
                    None => Some(0usize),
                }
            },
        ListIntent::Next => res is Nothing && after.filtered_subscribers@ == before.filtered_subscribers@
            && after.selected@ == before.selected@
            && after.selected_row == if before.filtered_subscribers@.len() == 0 {
                before.selected_row
            } else {
                match before.selected_row {
                    Some(r) => if r + 1 >= before.filtered_subscribers@.len() { Some(0usize) } else { Some((r + 1) as usize) },
                    None => Some(0usize),
                }
            },
        ListIntent::Ignore => res is Nothing && *after == *before,
    }
}

/// A key on the help view: `q`, Esc, `h` or F1 go back to the list.
pub open spec fn help_step(before: &ApprovalApp, after: &ApprovalApp, key: ApprovalKey) -> bool {
    &&& same_screen(after, before) || after.mode == ApprovalMode::List
    &&& after.mode == if key == ApprovalKey::Char('q') || key == ApprovalKey::Esc
        || key == ApprovalKey::Char('h') || key == ApprovalKey::F(1) {
        ApprovalMode::List
    } else {
        before.mode
    }
    &&& after.subscribers@ == before.subscribers@
    &&& after.selected@ == before.selected@
}

/// A key in the confirmation view: yes hands the action on the chosen
/// subscribers to the caller, no drops the request.
pub open spec fn confirm_step(before: &ApprovalApp, after: &ApprovalApp, key: ApprovalKey, res: ApprovalCommand) -> bool {
    &&& after.subscribers@ == before.subscribers@
    &&& after.selected@ == before.selected@
    &&& if key == ApprovalKey::Char('y') || key == ApprovalKey::Enter {
        match before.confirm_action {
            Some(a) => res matches ApprovalCommand::Apply(b, v) && a == b && v@ == before.selected@
                && after.mode == before.mode && after.confirm_action == before.confirm_action,
            None => res is Nothing && after.mode == ApprovalMode::List,
        }
    } else if key == ApprovalKey::Char('n') || key == ApprovalKey::Esc {
        res is Nothing && after.confirm_action is None && after.mode == ApprovalMode::List
    } else {
        res is Nothing && after.mode == before.mode
            && after.confirm_action == before.confirm_action
    }
}

impl ApprovalApp {
    /// Asks to confirm `action` on the chosen subscribers, choosing the
    /// highlighted one when none is chosen; with neither nothing happens.
    pub fn request_action(&mut self, action: ConfirmAction)
        requires
            old(self).wf(),
        ensures
            final(self).search_query@ == old(self).search_query@,
            final(self).status_message == old(self).status_message,
            final(self).wf(),
            final(self).subscribers@ == old(self).subscribers@,
            final(self).filtered_subscribers@ == old(self).filtered_subscribers@,
            final(self).selected_row == old(self).selected_row,
            final(self).running == old(self).running,
            final(self).filter == old(self).filter,
            if old(self).selected@.len() > 0 {
                &&& final(self).confirm_action == Some(action)
                &&& final(self).mode == ApprovalMode::Confirm
                &&& final(self).selected@ == old(self).selected@
            } else if old(self).current() is Some {
                &&& final(self).confirm_action == Some(action)
                &&& final(self).mode == ApprovalMode::Confirm
                &&& final(self).chosen() == old(self).chosen().insert(old(self).current().unwrap())
            } else {
                &&& final(self).confirm_action == old(self).confirm_action
                &&& final(self).mode == old(self).mode
                &&& final(self).selected@ == old(self).selected@
            },
    {
        if self.selected.len() > 0 {
            self.confirm_action = Some(action);
            self.mode = ApprovalMode::Confirm;
        } else if let Some(current) = self.current_subscriber_index() {
            self.choose_index(current);
            self.confirm_action = Some(action);
            self.mode = ApprovalMode::Confirm;
        }
    }

    /// Shows the subscribers of another filter.
    pub fn set_filter(&mut self, filter: SubscriberFilter)
        requires
            old(self).wf(),
        ensures
            final(self).search_query@ == old(self).search_query@,
            final(self).confirm_action == old(self).confirm_action,
            final(self).status_message == old(self).status_message,
            final(self).wf(),
            final(self).filter == filter,
            final(self).filtered_subscribers@ == listed_positions(
                old(self).subscribers@, filter, old(self).search_query@, old(self).subscribers@.len() as int),
            final(self).subscribers@ == old(self).subscribers@,
            final(self).selected@ == old(self).selected@,
            final(self).mode == old(self).mode,
            final(self).running == old(self).running,
    {
        self.filter = filter;
        self.apply_filter();
    }

    /// Handles a key in the list view.
    pub fn handle_list_key_event(&mut self, key: ApprovalKey) -> (res: ApprovalCommand)
        requires
            old(self).wf(),
        ensures
            final(self).wf(),
            list_step(old(self), final(self), key, res),
    {
        match key {
            ApprovalKey::Char('q') | ApprovalKey::Esc => {
                self.running = false;
                ApprovalCommand::Quit
            },
            ApprovalKey::Char('h') | ApprovalKey::F(1) => {
                self.mode = ApprovalMode::Help;
                ApprovalCommand::Nothing
            },
            ApprovalKey::Char('r') => ApprovalCommand::Reload,
            ApprovalKey::Up | ApprovalKey::Char('k') => {
                self.previous_subscriber();
                ApprovalCommand::Nothing
            },
            ApprovalKey::Down | ApprovalKey::Char('j') => {
                self.next_subscriber();
                ApprovalCommand::Nothing
            },
            ApprovalKey::Char(' ') => {
                self.toggle_selection();
                ApprovalCommand::Nothing
            },
            ApprovalKey::Char('a') => {
                self.select_all();
                ApprovalCommand::Nothing
            },
            ApprovalKey::Char('n') => {
                self.clear_selection();
                ApprovalCommand::Nothing
            },
            ApprovalKey::Char('A') => {
                self.request_action(ConfirmAction::Approve);
                ApprovalCommand::Nothing
            },
            ApprovalKey::Char('D') => {
                self.request_action(ConfirmAction::Decline);
                ApprovalCommand::Nothing
            },
            ApprovalKey::Char('X') => {
                self.request_action(ConfirmAction::Delete);
                ApprovalCommand::Nothing
            },
            ApprovalKey::Char('1') => {
                self.set_filter(SubscriberFilter::All);
                ApprovalCommand::Nothing
            },
            ApprovalKey::Char('2') => {
                self.set_filter(SubscriberFilter::Pending);
                ApprovalCommand::Nothing
            },
            ApprovalKey::Char('3') => {
                self.set_filter(SubscriberFilter::Approved);
                ApprovalCommand::Nothing
            },
            ApprovalKey::Char('4') => {
                self.set_filter(SubscriberFilter::Declined);
                ApprovalCommand::Nothing
            },
            _ => ApprovalCommand::Nothing,
        }
    }

    /// Handles a key in the help view: `q`, Esc, `h` or F1 go back.
    pub fn handle_help_key_event(&mut self, key: ApprovalKey)
        requires
            old(self).wf(),
        ensures
            final(self).wf(),
            help_step(old(self), final(self), key),
    {
        match key {
            ApprovalKey::Char('q') | ApprovalKey::Esc | ApprovalKey::Char('h') | ApprovalKey::F(1) => {
                self.mode = ApprovalMode::List;
            },
            _ => {},
        }
    }

    /// Handles a key in the confirmation view: yes hands the action on
    /// the chosen subscribers to the caller (who then calls
    /// `action_done`), no drops the request.
    pub fn handle_confirm_key_event(&mut self, key: ApprovalKey) -> (res: ApprovalCommand)
        requires
            old(self).wf(),
        ensures
            final(self).wf(),
            confirm_step(old(self), final(self), key, res),
    {
        match key {
            ApprovalKey::Char('y') | ApprovalKey::Enter => {
                match self.confirm_action {
                    Some(a) => {
                        let v = self.selected.clone();
                        assert(v@ =~= self.selected@);
                        ApprovalCommand::Apply(a, v)
                    },
                    None => {
                        self.mode = ApprovalMode::List;
                        ApprovalCommand::Nothing
                    },
                }
            },
            ApprovalKey::Char('n') | ApprovalKey::Esc => {
                self.confirm_action = None;
                self.mode = ApprovalMode::List;
                ApprovalCommand::Nothing
            },
            _ => ApprovalCommand::Nothing,
        }
    }

    /// Handle key events by view.
    pub fn handle_key_event(&mut self, key: ApprovalKey) -> (res: ApprovalCommand)
        requires
            old(self).wf(),
        ensures
            final(self).wf(),
            final(self).subscribers@ == old(self).subscribers@,
            match old(self).mode {
                ApprovalMode::List => list_step(old(self), final(self), key, res),
                ApprovalMode::Help => help_step(old(self), final(self), key) && res is Nothing,
                ApprovalMode::Confirm => confirm_step(old(self), final(self), key, res),
            },
    {
        match self.mode {
            ApprovalMode::List => self.handle_list_key_event(key),
            ApprovalMode::Help => {
                self.handle_help_key_event(key);
                ApprovalCommand::Nothing
            },
            ApprovalMode::Confirm => self.handle_confirm_key_event(key),
        }
    }

    /// Takes the reloaded subscribers; the choice is dropped if it no
    /// longer names subscribers.
    pub fn refresh(&mut self, subscribers: Vec<Subscriber>)
        requires
            old(self).wf(),
        ensures
            final(self).wf(),
            final(self).subscribers@ == subscribers@,
            final(self).filtered_subscribers@ == listed_positions(
                subscribers@, old(self).filter, old(self).search_query@, subscribers@.len() as int),
            final(self).mode == old(self).mode,
            final(self).filter == old(self).filter,
            final(self).status_message == old(self).status_message,
            final(self).confirm_action == old(self).confirm_action,
            old(self).selected@.len() == 0 ==> final(self).selected@.len() == 0,
    {
        self.subscribers = subscribers;
        let mut ok = true;
        let mut k: usize = 0;
        while k < self.selected.len()
            invariant
                k <= self.selected@.len(),
                ok ==> forall|j: int| 0 <= j < k ==> #[trigger] self.selected@[j] < self.subscribers@.len(),
            decreases self.selected.len() - k,
        {
            if self.selected[k] >= self.subscribers.len() {
                ok = false;
            }
            k += 1;
        }
        if !ok {
            self.selected = Vec::new();
        }
        self.apply_filter();
    }

    /// Records that the confirmed action was applied to the chosen
    /// subscribers: a message with their number, the choice and the
    /// request cleared, the reloaded subscribers shown, back to the list.
    pub fn action_done(&mut self, subscribers: Vec<Subscriber>)
        requires
            old(self).wf(),
            old(self).confirm_action is Some,
        ensures
            final(self).wf(),
            opt_text(final(self).status_message) == Some(action_message(
                old(self).confirm_action.unwrap(), old(self).selected@.len() as nat)),
            final(self).selected@.len() == 0,
            final(self).confirm_action is None,
            final(self).mode == ApprovalMode::List,
            final(self).subscribers@ == subscribers@,
            final(self).filtered_subscribers@ == listed_positions(
                subscribers@, old(self).filter, old(self).search_query@, subscribers@.len() as int),
    {
        let count = self.selected.len();
        let mut msg = String::new();
        match self.confirm_action {
            Some(ConfirmAction::Approve) => push_str(&mut msg, "Approved "),
            Some(ConfirmAction::Decline) => push_str(&mut msg, "Declined "),
            _ => push_str(&mut msg, "Deleted "),
        }
        push_dec(&mut msg, count as u128);
        push_str(&mut msg, " subscriber(s)");
        self.status_message = Some(msg);
        self.selected = Vec::new();
        self.confirm_action = None;
        self.refresh(subscribers);
        self.mode = ApprovalMode::List;
    }

    /// The counts shown in the header: all, pending and approved
    /// subscribers.
    pub fn statistics(&self) -> (res: (usize, usize, usize))
        ensures
            res.0 == self.subscribers@.len(),
            res.1 == count_status(self.subscribers@, SubscriberStatus::Pending),
            res.2 == count_status(self.subscribers@, SubscriberStatus::Approved),
    {
        let mut pending: usize = 0;
        let mut approved: usize = 0;
        let mut i: usize = 0;
        while i < self.subscribers.len()
            invariant
                i <= self.subscribers@.len(),
                pending == count_status(self.subscribers@.take(i as int), SubscriberStatus::Pending),
                approved == count_status(self.subscribers@.take(i as int), SubscriberStatus::Approved),
                pending <= i,
                approved <= i,
            decreases self.subscribers.len() - i,
        {
            assert(self.subscribers@.take(i + 1).drop_last() =~= self.subscribers@.take(i as int));
            if self.subscribers[i].status == SubscriberStatus::Pending {
                pending += 1;
            } else if self.subscribers[i].status == SubscriberStatus::Approved {
                approved += 1;
            }
            i += 1;
        }
        assert(self.subscribers@.take(self.subscribers@.len() as int) =~= self.subscribers@);
        (self.subscribers.len(), pending, approved)
    }
}

/// The text of an optional string.
pub open spec fn opt_text(o: Option<String>) -> Option<Seq<char>> {
    match o {
        Some(s) => Some(s@),
        None => None,
    }
}

/// The message after an action on `n` subscribers.
pub open spec fn action_message(a: ConfirmAction, n: nat) -> Seq<char> {
    (match a {
        ConfirmAction::Approve => "Approved "@,
        ConfirmAction::Decline => "Declined "@,
        ConfirmAction::Delete => "Deleted "@,
    }) + dec(n) + " subscriber(s)"@
}

/// How many subscribers have status `st`.
pub open spec fn count_status(subs: Seq<Subscriber>, st: SubscriberStatus) -> nat
    decreases subs.len(),
{
    if subs.len() == 0 {
        0
    } else {
        count_status(subs.drop_last(), st) + if subs.last().status == st { 1nat } else { 0nat }
    }
}

/// Choosing the highlighted subscriber twice leaves the choice as it was.
pub proof fn law_toggle_twice(chosen: Set<usize>, i: usize)
    ensures
        ({
            let once = if chosen.contains(i) { chosen.remove(i) } else { chosen.insert(i) };
            let twice = if once.contains(i) { once.remove(i) } else { once.insert(i) };
            twice == chosen
        }),
{
    let once = if chosen.contains(i) { chosen.remove(i) } else { chosen.insert(i) };
    let twice = if once.contains(i) { once.remove(i) } else { once.insert(i) };
    assert(twice =~= chosen);
}

/// The listed subscribers are exactly those with the filter's status that
/// match the query, in their order.
pub proof fn law_filter_lists_matching(subs: Seq<Subscriber>, f: SubscriberFilter, q: Seq<char>, n: int, k: int)
    requires
        0 <= n <= subs.len(),
        subs.len() <= usize::MAX,
        0 <= k < listed_positions(subs, f, q, n).len(),
    ensures
        listed(subs[listed_positions(subs, f, q, n)[k] as int], f, q),
        listed_positions(subs, f, q, n)[k] < n,
    decreases n,
{
    lemma_listed_bounds(subs, f, q, n);
    let r = listed_positions(subs, f, q, n - 1);
    if k < r.len() {
        law_filter_lists_matching(subs, f, q, n - 1, k);
        if listed(subs[n - 1], f, q) {
            assert(listed_positions(subs, f, q, n)[k] == r[k]);
        }
    } else {
        assert(listed(subs[n - 1], f, q));
        assert(listed_positions(subs, f, q, n)[k] == n - 1);
    }
}

} // verus!
