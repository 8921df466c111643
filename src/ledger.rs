use vstd::prelude::*;
use crate::account::{AccountId, copy_ids};

verus! {

/// What the DAO keeps for one account: its member id (0 when it was never
/// admitted), its accumulated points, the tasks assigned to it, the proposals
/// it created and the proposals it has voted on.
#[derive(Debug)]
pub struct AccountRecord {
    pub account: AccountId,
    pub member_id: u32,
    pub points: u32,
    pub task_ids: Vec<u32>,
    pub proposal_ids: Vec<u32>,
    pub voted: Vec<u32>,
}

impl AccountRecord {
    /// The record of an account of which nothing is known yet.
    pub fn empty(account: AccountId) -> (r: AccountRecord)
        ensures
            r.account == account,
            r.member_id == 0,
            r.points == 0,
            r.task_ids@ == Seq::<u32>::empty(),
            r.proposal_ids@ == Seq::<u32>::empty(),
            r.voted@ == Seq::<u32>::empty(),
    {
        AccountRecord {
            account,
            member_id: 0,
            points: 0,
            task_ids: Vec::new(),
            proposal_ids: Vec::new(),
            voted: Vec::new(),
        }
    }
}

/// Index of the last record of account `a` in `s`, or -1 when there is none.
pub open spec fn index_of(s: Seq<AccountRecord>, a: Seq<u8>) -> int
    decreases s.len(),
{
    if s.len() == 0 {
        -1
    } else if s.last().account@ == a {
        s.len() - 1
    } else {
        index_of(s.drop_last(), a)
    }
}

pub proof fn lemma_index_of(s: Seq<AccountRecord>, a: Seq<u8>)
    ensures
        -1 <= index_of(s, a) < s.len(),
        index_of(s, a) >= 0 ==> s[index_of(s, a)].account@ == a,
        forall|j: int| index_of(s, a) < j < s.len() ==> s[j].account@ != a,
    decreases s.len(),
{
    if s.len() > 0 && s.last().account@ != a {
        let t = s.drop_last();
        lemma_index_of(t, a);
        assert forall|j: int| index_of(s, a) < j < s.len() implies s[j].account@ != a by {
            if j < s.len() - 1 {
                assert(s[j] == t[j]);
            }
        }
    }
}

proof fn lemma_index_of_last_match(s: Seq<AccountRecord>, a: Seq<u8>, k: int)
    requires
        0 <= k < s.len(),
        s[k].account@ == a,
        forall|j: int| k < j < s.len() ==> s[j].account@ != a,
    ensures
        index_of(s, a) == k,
{
    lemma_index_of(s, a);
}

proof fn lemma_index_of_push(s: Seq<AccountRecord>, r: AccountRecord, b: Seq<u8>)
    ensures
        index_of(s.push(r), b) == if r.account@ == b { s.len() as int } else { index_of(s, b) },
{
    assert(s.push(r).drop_last() =~= s);
}

proof fn lemma_index_of_update(s: Seq<AccountRecord>, i: int, r: AccountRecord, b: Seq<u8>)
    requires
        0 <= i < s.len(),
        r.account@ == s[i].account@,
    ensures
        index_of(s.update(i, r), b) == index_of(s, b),
    decreases s.len(),
{
    if i == s.len() - 1 {
        assert(s.update(i, r).drop_last() =~= s.drop_last());
    } else {
        assert(s.update(i, r).drop_last() =~= s.drop_last().update(i, r));
        lemma_index_of_update(s.drop_last(), i, r, b);
    }
}

/// The per-account table of a DAO. An account without a record reads as
/// the empty record: member id 0, no points, no tasks, no proposals, no votes.
#[derive(Debug)]
pub struct Ledger {
    pub records: Vec<AccountRecord>,
}

impl Ledger {
    pub open spec fn has(&self, a: Seq<u8>) -> bool {
        index_of(self.records@, a) >= 0
    }

    pub open spec fn rec(&self, a: Seq<u8>) -> AccountRecord {
        self.records@[index_of(self.records@, a)]
    }

    pub open spec fn member_id(&self, a: Seq<u8>) -> u32 {
        if self.has(a) { self.rec(a).member_id } else { 0 }
    }

    pub open spec fn points(&self, a: Seq<u8>) -> u32 {
        if self.has(a) { self.rec(a).points } else { 0 }
    }

    pub open spec fn task_ids(&self, a: Seq<u8>) -> Seq<u32> {
        if self.has(a) { self.rec(a).task_ids@ } else { Seq::empty() }
    }

    pub open spec fn proposal_ids(&self, a: Seq<u8>) -> Seq<u32> {
        if self.has(a) { self.rec(a).proposal_ids@ } else { Seq::empty() }
    }

    pub open spec fn voted(&self, a: Seq<u8>) -> Seq<u32> {
        if self.has(a) { self.rec(a).voted@ } else { Seq::empty() }
    }

    /// Nothing is known of `a`.
    pub open spec fn is_blank(&self, a: Seq<u8>) -> bool {
        &&& self.member_id(a) == 0
        &&& self.points(a) == 0
        &&& self.task_ids(a) == Seq::<u32>::empty()
        &&& self.proposal_ids(a) == Seq::<u32>::empty()
        &&& self.voted(a) == Seq::<u32>::empty()
    }

    /// `other` reads as `self` for every account but `a`.
    pub open spec fn same_except(&self, other: &Ledger, a: Seq<u8>) -> bool {
        &&& forall|b: Seq<u8>| b != a ==> #[trigger] other.member_id(b) == self.member_id(b)
        &&& forall|b: Seq<u8>| b != a ==> #[trigger] other.points(b) == self.points(b)
        &&& forall|b: Seq<u8>| b != a ==> #[trigger] other.task_ids(b) == self.task_ids(b)
        &&& forall|b: Seq<u8>| b != a ==> #[trigger] other.proposal_ids(b) == self.proposal_ids(b)
        &&& forall|b: Seq<u8>| b != a ==> #[trigger] other.voted(b) == self.voted(b)
    }

    proof fn lemma_same_records(l1: Ledger, l2: Ledger, a: Seq<u8>)
        requires
            forall|b: Seq<u8>|
                b != a ==> #[trigger] index_of(l2.records@, b) == index_of(l1.records@, b) && (index_of(
                    l1.records@,
                    b,
                ) >= 0 ==> l2.records@[index_of(l1.records@, b)] == l1.records@[index_of(
                    l1.records@,
                    b,
                )]),
        ensures
            l1.same_except(&l2, a),
    {
    }

    pub fn new() -> (r: Ledger)
        ensures
            forall|a: Seq<u8>| !#[trigger] r.has(a),
            forall|a: Seq<u8>| #[trigger] r.is_blank(a),
    {
        Ledger { records: Vec::new() }
    }

    /// Position of the record of `a`, if it has one.
    pub fn find(&self, a: &AccountId) -> (r: Option<usize>)
        ensures
            match r {
                Some(i) => {
                    &&& self.has(a@)
                    &&& i as int == index_of(self.records@, a@)
                    &&& i < self.records@.len()
                },
                None => !self.has(a@),
            },
    {
        let mut i: usize = self.records.len();
        while i > 0
            invariant
                i <= self.records.len(),
                forall|j: int| i <= j < self.records@.len() ==> self.records@[j].account@ != a@,
            decreases i,
        {
            if self.records[i - 1].account == *a {
                proof {
                    lemma_index_of_last_match(self.records@, a@, i - 1);
                }
                return Some(i - 1);
            }
            i = i - 1;
        }
        proof {
            lemma_index_of(self.records@, a@);
        }
        None
    }

    /// Position of the record of `a`, made if it had none; nothing reads
    /// otherwise than before.
    fn slot(&mut self, a: &AccountId) -> (r: usize)
        ensures
            final(self).has(a@),
            r as int == index_of(final(self).records@, a@),
            r < final(self).records@.len(),
            final(self).member_id(a@) == old(self).member_id(a@),
            final(self).points(a@) == old(self).points(a@),
            final(self).task_ids(a@) == old(self).task_ids(a@),
            final(self).proposal_ids(a@) == old(self).proposal_ids(a@),
            final(self).voted(a@) == old(self).voted(a@),
            old(self).same_except(&*final(self), a@),
    {
        match self.find(a) {
            Some(i) => {
                proof {
                    lemma_index_of(self.records@, a@);
                }
                i
            },
            None => {
                let ghost s = self.records@;
                let i = self.records.len();
                let rec = AccountRecord::empty(*a);
                self.records.push(rec);
                proof {
                    assert(self.records@ == s.push(rec));
                    lemma_index_of_push(s, rec, a@);
                    lemma_index_of(s, a@);
                    assert forall|b: Seq<u8>| b != a@ implies #[trigger] index_of(self.records@, b) == index_of(s, b)
                        && (index_of(s, b) >= 0 ==> self.records@[index_of(s, b)] == s[index_of(s, b)]) by {
                        lemma_index_of_push(s, rec, b);
                        lemma_index_of(s, b);
                    }
                    Self::lemma_same_records(*old(self), *self, a@);
                }
                i
            },
        }
    }

    /// Putting a record of the same account in place of the last record of
    /// `a` moves no other account's last record.
    proof fn lemma_replace(s: Seq<AccountRecord>, i: int, r: AccountRecord, a: Seq<u8>)
        requires
            0 <= i < s.len(),
            i == index_of(s, a),
            r.account@ == a,
        ensures
            index_of(s.update(i, r), a) == i,
            forall|b: Seq<u8>|
                b != a ==> #[trigger] index_of(s.update(i, r), b) == index_of(s, b) && index_of(
                    s,
                    b,
                ) != i,
    {
        lemma_index_of(s, a);
        lemma_index_of_update(s, i, r, a);
        assert forall|b: Seq<u8>|
            b != a implies #[trigger] index_of(s.update(i, r), b) == index_of(s, b) && index_of(
                s,
                b,
            ) != i by {
            lemma_index_of_update(s, i, r, b);
            lemma_index_of(s, b);
        }
    }

    /// Takes out the record of `a`, which stands at `i`, leaving an empty one.
    fn take(&mut self, a: &AccountId, i: usize) -> (r: AccountRecord)
        requires
            i as int == index_of(old(self).records@, a@),
            i < old(self).records@.len(),
        ensures
            r == old(self).rec(a@),
            r.account@ == a@,
            i as int == index_of(final(self).records@, a@),
            i < final(self).records@.len(),
            old(self).same_except(&*final(self), a@),
    {
        let ghost s = self.records@;
        proof {
            lemma_index_of(s, a@);
        }
        let mut rec = AccountRecord::empty(*a);
        let ghost placeholder = rec;
        self.records.set_and_swap(i, &mut rec);
        proof {
            Self::lemma_replace(s, i as int, placeholder, a@);
            assert(self.records@ == s.update(i as int, placeholder));
            assert forall|b: Seq<u8>| b != a@ implies #[trigger] index_of(self.records@, b) == index_of(s, b)
                && (index_of(s, b) >= 0 ==> self.records@[index_of(s, b)] == s[index_of(s, b)]) by {
                assert(index_of(s.update(i as int, placeholder), b) == index_of(s, b));
                lemma_index_of(s, b);
            }
            Self::lemma_same_records(*old(self), *self, a@);
        }
        rec
    }

    /// Puts `rec` back as the record of `a`, at `i`.
    fn put(&mut self, a: &AccountId, i: usize, rec: AccountRecord)
        requires
            i as int == index_of(old(self).records@, a@),
            i < old(self).records@.len(),
            rec.account@ == a@,
        ensures
            final(self).has(a@),
            final(self).rec(a@) == rec,
            old(self).same_except(&*final(self), a@),
    {
        let ghost s = self.records@;
        proof {
            Self::lemma_replace(s, i as int, rec, a@);
        }
        self.records.set(i, rec);
        proof {
            assert(self.records@ == s.update(i as int, rec));
            assert forall|b: Seq<u8>| b != a@ implies #[trigger] index_of(self.records@, b) == index_of(s, b)
                && (index_of(s, b) >= 0 ==> self.records@[index_of(s, b)] == s[index_of(s, b)]) by {
                assert(index_of(s.update(i as int, rec), b) == index_of(s, b));
                lemma_index_of(s, b);
            }
            Self::lemma_same_records(*old(self), *self, a@);
        }
    }

    pub fn get_member_id(&self, a: &AccountId) -> (r: u32)
        ensures
            r == self.member_id(a@),
    {
        match self.find(a) {
            Some(i) => self.records[i].member_id,
            None => 0,
        }
    }

    pub fn get_points(&self, a: &AccountId) -> (r: u32)
        ensures
            r == self.points(a@),
    {
        match self.find(a) {
            Some(i) => self.records[i].points,
            None => 0,
        }
    }

    pub fn get_task_ids(&self, a: &AccountId) -> (r: Vec<u32>)
        ensures
            r@ == self.task_ids(a@),
    {
        match self.find(a) {
            Some(i) => copy_ids(&self.records[i].task_ids),
            None => Vec::new(),
        }
    }

    pub fn get_proposal_ids(&self, a: &AccountId) -> (r: Vec<u32>)
        ensures
            r@ == self.proposal_ids(a@),
    {
        match self.find(a) {
            Some(i) => copy_ids(&self.records[i].proposal_ids),
            None => Vec::new(),
        }
    }

    /// Whether `a` has voted on proposal `proposal_id`.
    pub fn has_voted(&self, a: &AccountId, proposal_id: u32) -> (r: bool)
        ensures
            r == self.voted(a@).contains(proposal_id),
    {
        match self.find(a) {
            Some(i) => contains_id(&self.records[i].voted, proposal_id),
            None => false,
        }
    }

    pub fn set_member_id(&mut self, a: &AccountId, id: u32)
        ensures
            final(self).member_id(a@) == id,
            final(self).points(a@) == old(self).points(a@),
            final(self).task_ids(a@) == old(self).task_ids(a@),
            final(self).proposal_ids(a@) == old(self).proposal_ids(a@),
            final(self).voted(a@) == old(self).voted(a@),
            old(self).same_except(&*final(self), a@),
    {
        let i = self.slot(a);
        let mut rec = self.take(a, i);
        rec.member_id = id;
        self.put(a, i, rec);
    }

    /// Adds `p` to the points of `a`, saturating at `u32::MAX`.
    pub fn add_points(&mut self, a: &AccountId, p: u32)
        ensures
            final(self).member_id(a@) == old(self).member_id(a@),
            final(self).points(a@) == old(self).points(a@).saturating_add(p),
            final(self).task_ids(a@) == old(self).task_ids(a@),
            final(self).proposal_ids(a@) == old(self).proposal_ids(a@),
            final(self).voted(a@) == old(self).voted(a@),
            old(self).same_except(&*final(self), a@),
    {
        let i = self.slot(a);
        let mut rec = self.take(a, i);
        rec.points = rec.points.saturating_add(p);
        self.put(a, i, rec);
    }

    pub fn push_task_id(&mut self, a: &AccountId, id: u32)
        ensures
            final(self).member_id(a@) == old(self).member_id(a@),
            final(self).points(a@) == old(self).points(a@),
            final(self).task_ids(a@) == old(self).task_ids(a@).push(id),
            final(self).proposal_ids(a@) == old(self).proposal_ids(a@),
            final(self).voted(a@) == old(self).voted(a@),
            old(self).same_except(&*final(self), a@),
    {
        let i = self.slot(a);
        let mut rec = self.take(a, i);
        rec.task_ids.push(id);
        self.put(a, i, rec);
    }

    pub fn push_proposal_id(&mut self, a: &AccountId, id: u32)
        ensures
            final(self).member_id(a@) == old(self).member_id(a@),
            final(self).points(a@) == old(self).points(a@),
            final(self).task_ids(a@) == old(self).task_ids(a@),
            final(self).proposal_ids(a@) == old(self).proposal_ids(a@).push(id),
            final(self).voted(a@) == old(self).voted(a@),
            old(self).same_except(&*final(self), a@),
    {
        let i = self.slot(a);
        let mut rec = self.take(a, i);
        rec.proposal_ids.push(id);
        self.put(a, i, rec);
    }

    /// Records that `a` voted on proposal `proposal_id`.
    pub fn push_vote(&mut self, a: &AccountId, proposal_id: u32)
        ensures
            final(self).member_id(a@) == old(self).member_id(a@),
            final(self).points(a@) == old(self).points(a@),
            final(self).task_ids(a@) == old(self).task_ids(a@),
            final(self).proposal_ids(a@) == old(self).proposal_ids(a@),
            final(self).voted(a@) == old(self).voted(a@).push(proposal_id),
            old(self).same_except(&*final(self), a@),
    {
        let i = self.slot(a);
        let mut rec = self.take(a, i);
        rec.voted.push(proposal_id);
        self.put(a, i, rec);
    }
}

/// Whether `id` occurs in `v`.
pub fn contains_id(v: &Vec<u32>, id: u32) -> (r: bool)
    ensures
        r == v@.contains(id),
{
    let mut i: usize = 0;
    while i < v.len()
        invariant
            0 <= i <= v.len(),
            forall|j: int| 0 <= j < i ==> v@[j] != id,
        decreases v.len() - i,
    {
        if v[i] == id {
            return true;
        }
        i = i + 1;
    }
    false
}

} // verus!
