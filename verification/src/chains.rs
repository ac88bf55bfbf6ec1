use std::collections::VecDeque;
use vstd::prelude::*;

use crate::models::Transaction;

verus! {

/// The index of the first transaction whose time is the smallest in `s`
/// (0 for an empty sequence).
pub open spec fn earliest(s: Seq<Transaction>) -> int
    decreases s.len(),
{
    if s.len() <= 1 {
        0
    } else {
        let k = earliest(s.drop_last());
        if s.last().time < s[k].time {
            s.len() - 1
        } else {
            k
        }
    }
}

/// `i` is the first position in `s` that holds a transaction of smallest time.
pub open spec fn is_first_earliest(s: Seq<Transaction>, i: int) -> bool {
    &&& 0 <= i < s.len()
    &&& forall|j: int| 0 <= j < s.len() ==> s[i].time <= #[trigger] s[j].time
    &&& forall|j: int| 0 <= j < i ==> s[i].time < #[trigger] s[j].time
}

/// `earliest` picks the first transaction of smallest time.
pub proof fn lemma_earliest(s: Seq<Transaction>)
    requires
        s.len() > 0,
    ensures
        is_first_earliest(s, earliest(s)),
    decreases s.len(),
{
    if s.len() > 1 {
        let p = s.drop_last();
        lemma_earliest(p);
        let k = earliest(p);
        assert forall|j: int| 0 <= j < p.len() implies #[trigger] s[j] == p[j] by {}
        assert(p[k] == s[k]);
    }
}

/// The future event chain: transactions waiting for a future moment,
/// handed out earliest first (among equal times, first added first).
pub struct FEC {
    pub events: Vec<Transaction>,
}

impl View for FEC {
    type V = Seq<Transaction>;

    open spec fn view(&self) -> Seq<Transaction> {
        self.events@
    }
}

impl FEC {
    pub fn new() -> (f: FEC)
        ensures
            f@ == Seq::<Transaction>::empty(),
    {
        FEC { events: Vec::new() }
    }

    pub fn add(&mut self, transaction: Transaction)
        ensures
            final(self)@ == old(self)@.push(transaction),
    {
        self.events.push(transaction);
    }

    /// Position of the earliest transaction.
    fn earliest_index(&self) -> (i: usize)
        requires
            self@.len() > 0,
        ensures
            i == earliest(self@),
            is_first_earliest(self@, i as int),
    {
        let n = self.events.len();
        let mut best: usize = 0;
        let mut i: usize = 1;
        while i < n
            invariant
                1 <= i <= n,
                n == self@.len(),
                best == earliest(self@.take(i as int)),
                best < i,
            decreases n - i,
        {
            assert(self@.take(i as int + 1).drop_last() =~= self@.take(i as int));
            if self.events[i].time < self.events[best].time {
                best = i;
            }
            i = i + 1;
        }
        assert(self@.take(n as int) =~= self@);
        proof {
            lemma_earliest(self@);
        }
        best
    }

    /// Removes and returns the earliest transaction.
    pub fn pop(&mut self) -> (r: Option<Transaction>)
        ensures
            old(self)@.len() == 0 ==> r is None && final(self)@ == old(self)@,
            old(self)@.len() > 0 ==> {
                &&& r == Some(old(self)@[earliest(old(self)@)])
                &&& final(self)@ == old(self)@.remove(earliest(old(self)@))
            },
    {
        if self.events.len() == 0 {
            return None;
        }
        let i = self.earliest_index();
        let t = self.events.remove(i);
        Some(t)
    }

    /// The earliest transaction, left in place.
    pub fn peek(&self) -> (r: Option<&Transaction>)
        ensures
            self@.len() == 0 ==> r is None,
            self@.len() > 0 ==> r == Some(&self@[earliest(self@)]),
    {
        if self.events.len() == 0 {
            return None;
        }
        let i = self.earliest_index();
        Some(&self.events[i])
    }

    pub fn is_empty(&self) -> (r: bool)
        ensures
            r == (self@.len() == 0),
    {
        self.events.len() == 0
    }
}

/// The current event chain: transactions ready to move now, in order.
pub struct CEC {
    pub queue: VecDeque<Transaction>,
}

impl View for CEC {
    type V = Seq<Transaction>;

    open spec fn view(&self) -> Seq<Transaction> {
        self.queue@
    }
}

impl CEC {
    pub fn new() -> (c: CEC)
        ensures
            c@ == Seq::<Transaction>::empty(),
    {
        CEC { queue: VecDeque::new() }
    }

    pub fn add_to_back(&mut self, t: Transaction)
        ensures
            final(self)@ == old(self)@.push(t),
    {
        self.queue.push_back(t);
    }

    pub fn add_to_front(&mut self, t: Transaction)
        ensures
            final(self)@ == seq![t] + old(self)@,
    {
        self.queue.push_front(t);
    }

    pub fn is_empty(&self) -> (r: bool)
        ensures
            r == (self@.len() == 0),
    {
        self.queue.len() == 0
    }

    pub fn pop_front(&mut self) -> (r: Option<Transaction>)
        ensures
            old(self)@.len() == 0 ==> r is None && final(self)@ == old(self)@,
            old(self)@.len() > 0 ==> r == Some(old(self)@[0]) && final(self)@ == old(self)@.drop_first(),
    {
        let elem = self.queue.pop_front();
        return elem;
    }
}

} // verus!
