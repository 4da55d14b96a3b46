use vstd::prelude::*;

use crate::key::Pubkey;
use crate::merchant::MerchantRecord;

verus! {

/// No two of `records` share a wallet.
pub open spec fn wallets_distinct(records: Seq<MerchantRecord>) -> bool {
    forall|i: int, j: int|
        0 <= i < records.len() && 0 <= j < records.len() && i != j ==> records[i].wallet@
            != records[j].wallet@
}

/// The merchant records, at most one for each wallet, found by the wallet.
#[derive(Debug, Clone)]
pub struct MerchantDirectory {
    records: Vec<MerchantRecord>,
}

impl MerchantDirectory {
    /// Whether slot `i` holds the record of wallet `k`.
    spec fn holds_at(&self, i: int, k: Seq<u8>) -> bool {
        0 <= i < self.records.len() && self.records@[i].wallet@ == k
    }

    /// No wallet has two records.
    pub closed spec fn wf(&self) -> bool {
        forall|i: int, j: int|
            0 <= i < self.records.len() && 0 <= j < self.records.len() && i != j
                ==> self.records@[i].wallet@ != self.records@[j].wallet@
    }

    /// The directory as a map from a wallet's bytes to its record.
    pub closed spec fn view(&self) -> Map<Seq<u8>, MerchantRecord> {
        Map::new(
            |k: Seq<u8>| exists|i: int| self.holds_at(i, k),
            |k: Seq<u8>| self.records@[choose|i: int| self.holds_at(i, k)],
        )
    }

    proof fn lemma_view_at(&self, i: int)
        requires
            self.wf(),
            0 <= i < self.records.len(),
        ensures
            self.view().contains_key(self.records@[i].wallet@),
            self.view()[self.records@[i].wallet@] == self.records@[i],
    {
        let k = self.records@[i].wallet@;
        assert(self.holds_at(i, k));
        let j = choose|j: int| self.holds_at(j, k);
        assert(j == i);
    }

    /// Each record is filed under its own wallet.
    pub proof fn lemma_keyed_by_wallet(&self, k: Seq<u8>)
        requires
            self.wf(),
            self.view().contains_key(k),
        ensures
            self.view()[k].wallet@ == k,
    {
        let i = choose|i: int| self.holds_at(i, k);
        self.lemma_view_at(i);
    }

    /// An empty directory.
    pub fn new() -> (r: MerchantDirectory)
        ensures
            r.wf(),
            r.view() == Map::<Seq<u8>, MerchantRecord>::empty(),
    {
        let r = MerchantDirectory { records: Vec::new() };
        assert(r.view() =~= Map::<Seq<u8>, MerchantRecord>::empty());
        r
    }

    fn position(&self, wallet: &Pubkey) -> (r: Option<usize>)
        requires
            self.wf(),
        ensures
            r matches Some(i) ==> self.holds_at(i as int, wallet@),
            r is None ==> !self.view().contains_key(wallet@),
    {
        let mut i: usize = 0;
        while i < self.records.len()
            invariant
                i <= self.records.len(),
                forall|j: int| 0 <= j < i ==> self.records@[j].wallet@ != wallet@,
            decreases self.records.len() - i,
        {
            if self.records[i].wallet == *wallet {
                return Some(i);
            }
            i = i + 1;
        }
        None
    }

    /// The record of `wallet`, if it has one.
    pub fn get(&self, wallet: &Pubkey) -> (r: Option<MerchantRecord>)
        requires
            self.wf(),
        ensures
            r is Some <==> self.view().contains_key(wallet@),
            r matches Some(m) ==> m == self.view()[wallet@],
    {
        match self.position(wallet) {
            Some(i) => {
                proof {
                    self.lemma_view_at(i as int);
                }
                Some(self.records[i])
            },
            None => None,
        }
    }

    /// Files a record for a wallet that has none yet.
    pub fn insert_new(&mut self, record: MerchantRecord)
        requires
            old(self).wf(),
            !old(self).view().contains_key(record.wallet@),
        ensures
            final(self).wf(),
            final(self).view() == old(self).view().insert(record.wallet@, record),
    {
        let ghost before = *self;
        self.records.push(record);
        proof {
            let k = record.wallet@;
            let n = before.records.len() as int;
            assert forall|i: int| #![trigger self.records@[i]]
                0 <= i < n implies self.records@[i] == before.records@[i] by {}
            assert forall|j: int| 0 <= j < n implies before.records@[j].wallet@ != k by {
                if before.records@[j].wallet@ == k {
                    assert(before.holds_at(j, k));
                }
            }
            assert(self.wf());
            assert forall|q: Seq<u8>| #[trigger]
                self.view().contains_key(q) == before.view().insert(k, record).contains_key(q) by {
                if q != k {
                    if self.view().contains_key(q) {
                        let i = choose|i: int| self.holds_at(i, q);
                        assert(before.holds_at(i, q));
                    }
                    if before.view().contains_key(q) {
                        let i = choose|i: int| before.holds_at(i, q);
                        assert(self.holds_at(i, q));
                    }
                } else {
                    assert(self.holds_at(n, k));
                }
            }
            assert forall|q: Seq<u8>| #[trigger] self.view().contains_key(q) implies self.view()[q]
                == before.view().insert(k, record)[q] by {
                let i = choose|i: int| self.holds_at(i, q);
                self.lemma_view_at(i);
                if q != k {
                    assert(before.holds_at(i, q));
                    before.lemma_view_at(i);
                }
            }
            assert(self.view() =~= before.view().insert(k, record));
        }
    }

    /// Replaces the record of a wallet that has one.
    pub fn update(&mut self, record: MerchantRecord)
        requires
            old(self).wf(),
            old(self).view().contains_key(record.wallet@),
        ensures
            final(self).wf(),
            final(self).view() == old(self).view().insert(record.wallet@, record),
    {
        let ghost before = *self;
        let k = record.wallet;
        let i = match self.position(&k) {
            Some(i) => i,
            None => {
                return;
            },
        };
        self.records.set(i, record);
        proof {
            let k = record.wallet@;
            assert forall|q: Seq<u8>, j: int| #[trigger]
                self.holds_at(j, q) == before.holds_at(j, q) by {}
            assert forall|q: Seq<u8>| #[trigger]
                self.view().contains_key(q) == before.view().insert(k, record).contains_key(q) by {
                if q == k {
                    assert(self.holds_at(i as int, k));
                } else if self.view().contains_key(q) {
                    let j = choose|j: int| self.holds_at(j, q);
                    assert(before.holds_at(j, q));
                } else if before.view().contains_key(q) {
                    let j = choose|j: int| before.holds_at(j, q);
                    assert(self.holds_at(j, q));
                }
            }
            assert forall|q: Seq<u8>| #[trigger] self.view().contains_key(q) implies self.view()[q]
                == before.view().insert(k, record)[q] by {
                let j = choose|j: int| self.holds_at(j, q);
                self.lemma_view_at(j);
                if q != k {
                    assert(before.holds_at(j, q));
                    before.lemma_view_at(j);
                }
            }
            assert(self.view() =~= before.view().insert(k, record));
        }
    }
    /// A directory holding exactly `records`, or `None` where two of them
    /// share a wallet.
    pub fn from_records(records: Vec<MerchantRecord>) -> (r: Option<MerchantDirectory>)
        ensures
            r is Some <==> wallets_distinct(records@),
            r matches Some(d) ==> {
                &&& d.wf()
                &&& forall|k: Seq<u8>| #[trigger]
                    d.view().contains_key(k) <==> exists|i: int|
                        0 <= i < records@.len() && records@[i].wallet@ == k
                &&& forall|i: int| #![trigger records@[i]]
                    0 <= i < records@.len() ==> d.view()[records@[i].wallet@] == records@[i]
            },
    {
        let n = records.len();
        let mut i: usize = 0;
        while i < n
            invariant
                n == records@.len(),
                i <= n,
                forall|a: int, b: int|
                    0 <= a < i && a < b < n ==> records@[a].wallet@ != records@[b].wallet@,
            decreases n - i,
        {
            let mut j: usize = i + 1;
            while j < n
                invariant
                    n == records@.len(),
                    i < n,
                    i + 1 <= j <= n,
                    forall|a: int, b: int|
                        0 <= a < i && a < b < n ==> records@[a].wallet@ != records@[b].wallet@,
                    forall|b: int| i < b < j ==> records@[i as int].wallet@ != records@[b].wallet@,
                decreases n - j,
            {
                if records[i].wallet == records[j].wallet {
                    return None;
                }
                j = j + 1;
            }
            i = i + 1;
        }
        let d = MerchantDirectory { records };
        proof {
            assert forall|a: int, b: int|
                0 <= a < n && 0 <= b < n && a != b implies d.records@[a].wallet@
                != d.records@[b].wallet@ by {
                if a > b {
                    assert(d.records@[b].wallet@ != d.records@[a].wallet@);
                }
            }
            assert(d.wf());
            assert forall|k: Seq<u8>| #[trigger]
                d.view().contains_key(k) <==> exists|i: int|
                    0 <= i < d.records@.len() && d.records@[i].wallet@ == k by {
                if exists|i: int| 0 <= i < d.records@.len() && d.records@[i].wallet@ == k {
                    let i = choose|i: int| 0 <= i < d.records@.len() && d.records@[i].wallet@ == k;
                    assert(d.holds_at(i, k));
                }
            }
            assert forall|i: int| #![trigger d.records@[i]]
                0 <= i < d.records@.len() implies d.view()[d.records@[i].wallet@] == d.records@[i] by {
                d.lemma_view_at(i);
            }
        }
        Some(d)
    }

}

} // verus!
