use vstd::prelude::*;

use crate::key::{bytes_equal, Pubkey};

verus! {

/// How a purchase was paid.
#[derive(Debug, Clone, Copy, PartialEq, Eq, Structural)]
pub enum PaymentType {
    /// Paid in the native currency; earns points.
    Currency,
    /// Paid by burning points; earns none.
    Points,
}

/// One purchase, written once and never changed. The customer, the product
/// hash and the nonce together identify it.
#[derive(Debug, Clone, Copy, PartialEq, Eq)]
pub struct PurchaseRecord {
    pub customer: Pubkey,
    pub merchant: Pubkey,
    pub product_id_hash: [u8; 32],
    pub nonce: u64,
    pub payment_type: PaymentType,
    pub amount_paid: u64,
    pub points_earned: u64,
    pub purchased_at: i64,
}

/// The identity of a purchase: customer, product hash and nonce.
pub type PurchaseKey = (Seq<u8>, Seq<u8>, u64);

/// The key under which a purchase record is filed.
pub open spec fn key_of(r: PurchaseRecord) -> PurchaseKey {
    (r.customer@, r.product_id_hash@, r.nonce)
}

/// No two of `records` share a key.
pub open spec fn keys_distinct(records: Seq<PurchaseRecord>) -> bool {
    forall|i: int, j: int|
        0 <= i < records.len() && 0 <= j < records.len() && i != j ==> key_of(records[i])
            != key_of(records[j])
}

/// Whether two purchase records share a key.
fn same_key(a: &PurchaseRecord, b: &PurchaseRecord) -> (r: bool)
    ensures
        r == (key_of(*a) == key_of(*b)),
{
    a.nonce == b.nonce && a.customer == b.customer && bytes_equal(
        &a.product_id_hash,
        &b.product_id_hash,
    )
}

/// The purchase records, at most one for each key.
#[derive(Debug, Clone)]
pub struct PurchaseLedger {
    records: Vec<PurchaseRecord>,
}

impl PurchaseLedger {
    spec fn holds_at(&self, i: int, k: PurchaseKey) -> bool {
        0 <= i < self.records.len() && key_of(self.records@[i]) == k
    }

    /// No key has two records.
    pub closed spec fn wf(&self) -> bool {
        forall|i: int, j: int|
            0 <= i < self.records.len() && 0 <= j < self.records.len() && i != j ==> key_of(
                self.records@[i],
            ) != key_of(self.records@[j])
    }

    /// The ledger as a map from a purchase's key to its record.
    pub closed spec fn view(&self) -> Map<PurchaseKey, PurchaseRecord> {
        Map::new(
            |k: PurchaseKey| exists|i: int| self.holds_at(i, k),
            |k: PurchaseKey| self.records@[choose|i: int| self.holds_at(i, k)],
        )
    }

    proof fn lemma_view_at(&self, i: int)
        requires
            self.wf(),
            0 <= i < self.records.len(),
        ensures
            self.view().contains_key(key_of(self.records@[i])),
            self.view()[key_of(self.records@[i])] == self.records@[i],
    {
        let k = key_of(self.records@[i]);
        assert(self.holds_at(i, k));
        let j = choose|j: int| self.holds_at(j, k);
        assert(j == i);
    }

    /// An empty ledger.
    pub fn new() -> (r: PurchaseLedger)
        ensures
            r.wf(),
            r.view() == Map::<PurchaseKey, PurchaseRecord>::empty(),
    {
        let r = PurchaseLedger { records: Vec::new() };
        assert(r.view() =~= Map::<PurchaseKey, PurchaseRecord>::empty());
        r
    }

    /// The record filed under (customer, product hash, nonce), if any.
    pub fn get(&self, customer: &Pubkey, product_id_hash: &[u8; 32], nonce: u64) -> (r: Option<
        PurchaseRecord,
    >)
        requires
            self.wf(),
        ensures
            r is Some <==> self.view().contains_key((customer@, product_id_hash@, nonce)),
            r matches Some(p) ==> p == self.view()[(customer@, product_id_hash@, nonce)],
    {
        let ghost k = (customer@, product_id_hash@, nonce);
        let mut i: usize = 0;
        while i < self.records.len()
            invariant
                i <= self.records.len(),
                self.wf(),
                k == (customer@, product_id_hash@, nonce),
                forall|j: int| 0 <= j < i ==> key_of(self.records@[j]) != k,
            decreases self.records.len() - i,
        {
            let p = self.records[i];
            let same_customer = p.customer == *customer;
            let same_product = bytes_equal(&p.product_id_hash, product_id_hash);
            if p.nonce == nonce && same_customer && same_product {
                proof {
                    self.lemma_view_at(i as int);
                }
                return Some(p);
            }
            i = i + 1;
        }
        proof {
            if self.view().contains_key(k) {
                let j = choose|j: int| self.holds_at(j, k);
                assert(key_of(self.records@[j]) == k);
            }
        }
        None
    }

    /// Files a record under a key that has none yet.
    pub fn insert_new(&mut self, record: PurchaseRecord)
        requires
            old(self).wf(),
            !old(self).view().contains_key(key_of(record)),
        ensures
            final(self).wf(),
            final(self).view() == old(self).view().insert(key_of(record), record),
    {
        let ghost before = *self;
        self.records.push(record);
        proof {
            let k = key_of(record);
            let n = before.records.len() as int;
            assert forall|i: int| #![trigger self.records@[i]]
                0 <= i < n implies self.records@[i] == before.records@[i] by {}
            assert forall|j: int| 0 <= j < n implies key_of(before.records@[j]) != k by {
                if key_of(before.records@[j]) == k {
                    assert(before.holds_at(j, k));
                }
            }
            assert(self.wf());
            assert forall|q: PurchaseKey| #[trigger]
                self.view().contains_key(q) == before.view().insert(k, record).contains_key(q) by {
                if q != k {
                    if self.view().contains_key(q) {
                        let i = choose|i: int| self.holds_at(i, q);
                        assert(before.holds_at(i, q));
                    }
                    if before.view().contains_key(q) {
                        let i = choose|i: int| before.holds_at(i, q);
                        assert(self.holds_at(i, q));
                    }
                } else {
                    assert(self.holds_at(n, k));
                }
            }
            assert forall|q: PurchaseKey| #[trigger] self.view().contains_key(q) implies self.view()[q]
                == before.view().insert(k, record)[q] by {
                let i = choose|i: int| self.holds_at(i, q);
                self.lemma_view_at(i);
                if q != k {
                    assert(before.holds_at(i, q));
                    before.lemma_view_at(i);
                }
            }
            assert(self.view() =~= before.view().insert(k, record));
        }
    }
    /// A ledger holding exactly `records`, or `None` where two of them share
    /// a key.
    pub fn from_records(records: Vec<PurchaseRecord>) -> (r: Option<PurchaseLedger>)
        ensures
            r is Some <==> keys_distinct(records@),
            r matches Some(l) ==> {
                &&& l.wf()
                &&& forall|k: PurchaseKey| #[trigger]
                    l.view().contains_key(k) <==> exists|i: int|
                        0 <= i < records@.len() && key_of(records@[i]) == k
                &&& forall|i: int| #![trigger records@[i]]
                    0 <= i < records@.len() ==> l.view()[key_of(records@[i])] == records@[i]
            },
    {
        let n = records.len();
        let mut i: usize = 0;
        while i < n
            invariant
                n == records@.len(),
                i <= n,
                forall|a: int, b: int|
                    0 <= a < i && a < b < n ==> key_of(records@[a]) != key_of(records@[b]),
            decreases n - i,
        {
            let mut j: usize = i + 1;
            while j < n
                invariant
                    n == records@.len(),
                    i < n,
                    i + 1 <= j <= n,
                    forall|a: int, b: int|
                        0 <= a < i && a < b < n ==> key_of(records@[a]) != key_of(records@[b]),
                    forall|b: int| i < b < j ==> key_of(records@[i as int]) != key_of(records@[b]),
                decreases n - j,
            {
                if same_key(&records[i], &records[j]) {
                    return None;
                }
                j = j + 1;
            }
            i = i + 1;
        }
        let l = PurchaseLedger { records };
        proof {
            assert forall|a: int, b: int|
                0 <= a < n && 0 <= b < n && a != b implies key_of(l.records@[a]) != key_of(
                l.records@[b],
            ) by {
                if a > b {
                    assert(key_of(l.records@[b]) != key_of(l.records@[a]));
                }
            }
            assert(l.wf());
            assert forall|k: PurchaseKey| #[trigger]
                l.view().contains_key(k) <==> exists|i: int|
                    0 <= i < l.records@.len() && key_of(l.records@[i]) == k by {
                if exists|i: int| 0 <= i < l.records@.len() && key_of(l.records@[i]) == k {
                    let i = choose|i: int| 0 <= i < l.records@.len() && key_of(l.records@[i]) == k;
                    assert(l.holds_at(i, k));
                }
            }
            assert forall|i: int| #![trigger l.records@[i]]
                0 <= i < l.records@.len() implies l.view()[key_of(l.records@[i])] == l.records@[i] by {
                l.lemma_view_at(i);
            }
        }
        Some(l)
    }

}

} // verus!
