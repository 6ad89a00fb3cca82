//! A capacity-bounded admission list: the first distinct callers, up to a
//! fixed number, are admitted; once the list is full every check is
//! rejected. Nothing ever leaves the list.

use vstd::hash_set::StringHashSet;
use vstd::prelude::*;

verus! {

/// The mathematical value of a limiter.
pub struct LimiterView {
    /// How many distinct identifiers the list can take.
    pub capacity: nat,
    /// The identifiers admitted so far.
    pub admitted: Set<Seq<char>>,
}

impl LimiterView {
    /// Whether the list has no room left.
    pub open spec fn is_full(self) -> bool {
        self.admitted.len() >= self.capacity
    }

    /// The outcome of a check of `identifier`: rejected when the list is
    /// full, whoever asks; admitted otherwise.
    pub open spec fn admits(self, identifier: Seq<char>) -> bool {
        !self.is_full()
    }

    /// The list after a check of `identifier`: unchanged when it was full,
    /// else with `identifier` in it.
    pub open spec fn after_check(self, identifier: Seq<char>) -> LimiterView {
        if self.is_full() {
            self
        } else {
            LimiterView { capacity: self.capacity, admitted: self.admitted.insert(identifier) }
        }
    }

    /// The list after the checks of `identifiers`, one after the other.
    pub open spec fn after_checks(self, identifiers: Seq<Seq<char>>) -> LimiterView
        decreases identifiers.len(),
    {
        if identifiers.len() == 0 {
            self
        } else {
            self.after_checks(identifiers.drop_last()).after_check(identifiers.last())
        }
    }

    /// The list is finite and holds no more than its capacity.
    pub open spec fn well_formed(self) -> bool {
        self.admitted.finite() && self.admitted.len() <= self.capacity
    }
}

/// The admission list: the identifiers admitted so far, and the number of
/// distinct identifiers that it takes.
pub struct RateLimiter {
    requests: StringHashSet,
    max_requests: usize,
}

impl View for RateLimiter {
    type V = LimiterView;

    closed spec fn view(&self) -> LimiterView {
        LimiterView { capacity: self.max_requests as nat, admitted: self.requests@ }
    }
}

impl RateLimiter {
    /// An empty list that admits up to `max_requests` distinct identifiers.
    pub fn new(max_requests: usize) -> (limiter: Self)
        ensures
            limiter@.capacity == max_requests,
            limiter@.admitted == Set::<Seq<char>>::empty(),
            limiter@.well_formed(),
    {
        RateLimiter { requests: StringHashSet::new(), max_requests }
    }

    /// Rejects the check when the list is full, whether or not `ip_address`
    /// is in it, and leaves the list as it was. Otherwise puts `ip_address`
    /// into the list, where it may already be, and admits it.
    pub fn check_rate_limit(&mut self, ip_address: &str) -> (admitted: bool)
        ensures
            admitted == old(self)@.admits(ip_address@),
            final(self)@ == old(self)@.after_check(ip_address@),
            old(self)@.well_formed() ==> final(self)@.well_formed(),
    {
        broadcast use vstd::hash_set::group_hash_set_axioms;

        if self.requests.len() >= self.max_requests {
            false
        } else {
            self.requests.insert(ip_address.to_owned());
            true
        }
    }
}

/// A check never removes an identifier, never changes the capacity, and
/// never lets the list outgrow it.
pub proof fn lemma_check_only_grows(before: LimiterView, identifier: Seq<char>)
    requires
        before.well_formed(),
    ensures
        before.after_check(identifier).well_formed(),
        before.after_check(identifier).capacity == before.capacity,
        before.admitted.subset_of(before.after_check(identifier).admitted),
        before.admitted.len() <= before.after_check(identifier).admitted.len(),
{
}

/// Once the list is full it stays as it is, and every later check is
/// rejected: that of an identifier in the list too.
pub proof fn lemma_full_is_final(before: LimiterView, identifiers: Seq<Seq<char>>)
    requires
        before.well_formed(),
        before.is_full(),
    ensures
        before.after_checks(identifiers) == before,
        forall|identifier: Seq<char>| !before.after_checks(identifiers).admits(identifier),
    decreases identifiers.len(),
{
    if identifiers.len() > 0 {
        lemma_full_is_final(before, identifiers.drop_last());
    }
}

/// The invariant of the list: whatever the checks, it is finite and holds
/// at most its capacity.
pub proof fn lemma_checks_keep_well_formed(before: LimiterView, identifiers: Seq<Seq<char>>)
    requires
        before.well_formed(),
    ensures
        before.after_checks(identifiers).well_formed(),
        before.after_checks(identifiers).capacity == before.capacity,
        before.admitted.subset_of(before.after_checks(identifiers).admitted),
    decreases identifiers.len(),
{
    if identifiers.len() > 0 {
        lemma_checks_keep_well_formed(before, identifiers.drop_last());
        lemma_check_only_grows(before.after_checks(identifiers.drop_last()), identifiers.last());
    }
}

} // verus!
