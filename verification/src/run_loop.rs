//! The decisions of the frame loop: which tracked submissions are dropped
//! after they retire, how new submissions are recorded, and when a batch of
//! window events ends the loop.

use vstd::prelude::*;

verus! {

/// The phases of a session: it is built, then loops, then ends when a close
/// event is seen.
#[derive(Clone, Copy, Debug, PartialEq, Eq, Structural)]
pub enum Phase {
    Uninitialized,
    Running,
    Terminated,
}

/// One window event, as far as the loop reads them: a close request, or
/// anything else, which is ignored.
#[derive(Clone, Copy, Debug, PartialEq, Eq, Structural)]
pub enum LoopEvent {
    Closed,
    Other,
}

/// Whether a batch of events contains a close request.
pub open spec fn any_closed(events: Seq<LoopEvent>) -> bool {
    exists|i: int| 0 <= i < events.len() && events[i] is Closed
}

/// Drains one batch of window events, checking only for a close request.
pub fn poll_close(events: &Vec<LoopEvent>) -> (close: bool)
    ensures
        close == any_closed(events@),
{
    let mut k: usize = 0;
    while k < events.len()
        invariant
            k <= events@.len(),
            forall|i: int| 0 <= i < k ==> !(events@[i] is Closed),
        decreases events@.len() - k,
    {
        match events[k] {
            LoopEvent::Closed => {
                proof {
                    assert(events@[k as int] is Closed);
                }
                return true;
            },
            LoopEvent::Other => {},
        }
        k = k + 1;
    }
    false
}

/// What one pruning pass keeps: the tracked handles whose retirement flag is
/// false, in their original order. Handle `i` is checked against flag `i`.
pub open spec fn prune_spec(s: Seq<u64>, r: Seq<bool>) -> Seq<u64>
    recommends
        s.len() == r.len(),
    decreases s.len(),
{
    if s.len() == 0 {
        Seq::empty()
    } else {
        let rest = prune_spec(s.drop_last(), r.drop_last());
        if r.last() {
            rest
        } else {
            rest.push(s.last())
        }
    }
}

/// Everything a pruning pass keeps was already tracked.
pub proof fn lemma_prune_subset(s: Seq<u64>, r: Seq<bool>)
    requires
        s.len() == r.len(),
    ensures
        forall|x: u64| prune_spec(s, r).contains(x) ==> s.contains(x),
    decreases s.len(),
{
    if s.len() > 0 {
        lemma_prune_subset(s.drop_last(), r.drop_last());
        assert forall|x: u64| prune_spec(s, r).contains(x) implies s.contains(x) by {
            let rest = prune_spec(s.drop_last(), r.drop_last());
            let j = choose|j: int| 0 <= j < prune_spec(s, r).len() && prune_spec(s, r)[j] == x;
            if r.last() || j < rest.len() {
                assert(rest[j] == x);
                assert(rest.contains(x));
                assert(s.drop_last().contains(x));
                let i = choose|i: int| 0 <= i < s.drop_last().len() && s.drop_last()[i] == x;
                assert(s.drop_last()[i] == s.subrange(0, s.len() - 1)[i]);
                assert(s[i] == x);
            } else {
                assert(prune_spec(s, r)[j] == s.last());
                assert(s[s.len() - 1] == x);
            }
        }
    }
}

/// A handle reported retired is removed by one pruning pass: it does not
/// survive into the kept list.
pub proof fn lemma_prune_removes_retired(s: Seq<u64>, r: Seq<bool>, i: int)
    requires
        s.len() == r.len(),
        0 <= i < s.len(),
        r[i],
        forall|a: int, b: int| 0 <= a < b < s.len() ==> s[a] != s[b],
    ensures
        !prune_spec(s, r).contains(s[i]),
    decreases s.len(),
{
    let x = s[i];
    if i == s.len() - 1 {
        lemma_prune_subset(s.drop_last(), r.drop_last());
        if prune_spec(s, r).contains(x) {
            assert(prune_spec(s, r) == prune_spec(s.drop_last(), r.drop_last()));
            assert(s.drop_last().contains(x));
            let j = choose|j: int| 0 <= j < s.drop_last().len() && s.drop_last()[j] == x;
            assert(s.drop_last()[j] == s.subrange(0, s.len() - 1)[j]);
            assert(s[j] == x);
            assert(s[j] != s[i]);
            assert(false);
        }
    } else {
        lemma_prune_removes_retired(s.drop_last(), r.drop_last(), i);
        assert(s.drop_last()[i] == s.subrange(0, s.len() - 1)[i]);
        assert(s.drop_last()[i] == x);
        if prune_spec(s, r).contains(x) {
            let rest = prune_spec(s.drop_last(), r.drop_last());
            let j = choose|j: int| 0 <= j < prune_spec(s, r).len() && prune_spec(s, r)[j] == x;
            if r.last() || j < rest.len() {
                assert(rest[j] == x);
                assert(rest.contains(x));
                assert(false);
            } else {
                assert(prune_spec(s, r)[j] == s.last());
                assert(s[i] != s[s.len() - 1]);
                assert(false);
            }
        }
    }
}

/// A handle not reported retired is kept by the pruning pass.
pub proof fn lemma_prune_keeps_unretired(s: Seq<u64>, r: Seq<bool>, i: int)
    requires
        s.len() == r.len(),
        0 <= i < s.len(),
        !r[i],
    ensures
        prune_spec(s, r).contains(s[i]),
    decreases s.len(),
{
    let x = s[i];
    if i == s.len() - 1 {
        let rest = prune_spec(s.drop_last(), r.drop_last());
        assert(prune_spec(s, r) == rest.push(s.last()));
        assert(rest.push(s.last())[rest.len() as int] == s.last());
        assert(prune_spec(s, r).contains(x));
    } else {
        lemma_prune_keeps_unretired(s.drop_last(), r.drop_last(), i);
        assert(s.drop_last()[i] == s.subrange(0, s.len() - 1)[i]);
        assert(s.drop_last()[i] == x);
        let rest = prune_spec(s.drop_last(), r.drop_last());
        let j = choose|j: int| 0 <= j < rest.len() && rest[j] == x;
        if r.last() {
            assert(prune_spec(s, r)[j] == x);
        } else {
            assert(rest.push(s.last())[j] == x);
            assert(prune_spec(s, r)[j] == x);
        }
        assert(prune_spec(s, r).contains(x));
    }
}

/// A retired handle of a well-formed tracker is gone after one pruning pass:
/// it is never retained past the pass that saw it retired.
pub proof fn lemma_retired_not_tracked(s: SubmissionSet, retired: Seq<bool>, i: int)
    requires
        s.wf(),
        retired.len() == s@.len(),
        0 <= i < s@.len(),
        retired[i],
    ensures
        !prune_spec(s@, retired).contains(s@[i]),
{
    s.lemma_wf_distinct();
    lemma_prune_removes_retired(s@, retired, i);
}

/// The in-flight submissions the session tracks. Handles are handed out in
/// strictly increasing order, so every tracked handle is unique.
pub struct SubmissionSet {
    ids: Vec<u64>,
    next: u64,
}

impl View for SubmissionSet {
    type V = Seq<u64>;

    closed spec fn view(&self) -> Seq<u64> {
        self.ids@
    }
}

impl SubmissionSet {
    /// Tracked handles are strictly increasing and below the next handle.
    pub closed spec fn wf(&self) -> bool {
        &&& forall|i: int, j: int| 0 <= i < j < self.ids@.len() ==> self.ids@[i] < self.ids@[j]
        &&& forall|i: int| 0 <= i < self.ids@.len() ==> self.ids@[i] < self.next
    }

    /// How many more handles can be handed out.
    pub closed spec fn headroom(&self) -> int {
        u64::MAX - self.next
    }

    /// Whether another submission can be recorded.
    pub open spec fn can_record(&self) -> bool {
        self.headroom() > 0
    }

    /// Distinctness of the tracked handles, as pruning needs it.
    pub open spec fn distinct(&self) -> bool {
        forall|a: int, b: int| 0 <= a < b < self@.len() ==> self@[a] != self@[b]
    }

    /// A well-formed set tracks distinct handles.
    pub proof fn lemma_wf_distinct(&self)
        requires
            self.wf(),
        ensures
            self.distinct(),
    {
    }

    /// An empty set, tracking nothing.
    pub fn new() -> (s: SubmissionSet)
        ensures
            s@.len() == 0,
            s.wf(),
            s.headroom() == u64::MAX,
    {
        SubmissionSet { ids: Vec::new(), next: 0 }
    }

    /// The number of tracked submissions.
    pub fn len(&self) -> (n: usize)
        ensures
            n == self@.len(),
    {
        self.ids.len()
    }

    /// Whether another submission can be recorded now.
    pub fn can_record_now(&self) -> (b: bool)
        ensures
            b == self.can_record(),
    {
        self.next < u64::MAX
    }

    /// Records one new submission: a fresh handle, never tracked before, is
    /// appended to the tracked list and returned.
    pub fn record(&mut self) -> (id: u64)
        requires
            old(self).wf(),
            old(self).can_record(),
        ensures
            final(self).wf(),
            final(self)@ == old(self)@.push(id),
            !old(self)@.contains(id),
            final(self).headroom() == old(self).headroom() - 1,
    {
        let id = self.next;
        self.ids.push(id);
        self.next = self.next + 1;
        proof {
            if old(self)@.contains(id) {
                let j = choose|j: int| 0 <= j < old(self)@.len() && old(self)@[j] == id;
                assert(false);
            }
        }
        id
    }

    /// Removes every tracked submission the batch marks as retired; flag `i`
    /// answers for handle `i`, in order. Nothing else changes.
    pub fn prune(&mut self, retired: &Vec<bool>)
        requires
            old(self).wf(),
            retired@.len() == old(self)@.len(),
        ensures
            final(self).wf(),
            final(self)@ == prune_spec(old(self)@, retired@),
            final(self).headroom() == old(self).headroom(),
    {
        let ghost s = self.ids@;
        let ghost r = retired@;
        let n = self.ids.len();
        let mut kept: Vec<u64> = Vec::new();
        let mut k: usize = 0;
        while k < n
            invariant
                k <= n,
                n == s.len(),
                r.len() == s.len(),
                retired@ == r,
                self.ids@ == s,
                kept@ == prune_spec(s.take(k as int), r.take(k as int)),
                forall|i: int, j: int| 0 <= i < j < kept@.len() ==> kept@[i] < kept@[j],
                forall|i: int, j: int|
                    0 <= i < kept@.len() && k <= j < s.len() ==> kept@[i] < s[j],
                forall|i: int| 0 <= i < kept@.len() ==> kept@[i] < self.next,
                forall|i: int, j: int| 0 <= i < j < s.len() ==> s[i] < s[j],
                forall|i: int| 0 <= i < s.len() ==> s[i] < self.next,
            decreases n - k,
        {
            proof {
                assert(s.take(k + 1).drop_last() =~= s.take(k as int));
                assert(r.take(k + 1).drop_last() =~= r.take(k as int));
                assert(s.take(k + 1).last() == s[k as int]);
                assert(r.take(k + 1).last() == r[k as int]);
            }
            if !retired[k] {
                kept.push(self.ids[k]);
            }
            k = k + 1;
        }
        proof {
            assert(s.take(n as int) =~= s);
            assert(r.take(n as int) =~= r);
        }
        self.ids = kept;
    }
}

} // verus!
