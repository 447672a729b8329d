use vstd::prelude::*;
use crate::payment::{Payment, PaymentView, not_found_view};

verus! {

/// The count that a stored counter stands for: an absent counter counts as zero.
pub open spec fn stored_count(stored: Option<u64>) -> nat {
    match stored {
        Some(c) => c as nat,
        None => 0,
    }
}

/// The id that the next payment gets, given the counter as read from storage.
pub fn next_payment_id(stored: Option<u64>) -> (r: u64)
    requires
        stored_count(stored) < u64::MAX,
    ensures
        r == stored_count(stored) + 1,
{
    match stored {
        Some(c) => c + 1,
        None => 1,
    }
}

/// `post` is the ledger `pre` after recording one payment with these inputs,
/// which got the id `id`.
pub open spec fn recorded(
    pre: Seq<PaymentView>,
    post: Seq<PaymentView>,
    id: u64,
    user: Seq<char>,
    creator: Seq<char>,
    amount: u64,
    timestamp: u64,
) -> bool {
    &&& id == pre.len() + 1
    &&& post == pre.push(PaymentView { payment_id: id, user, creator, amount, timestamp })
}

/// What a lookup of `id` in the ledger `l` returns.
pub open spec fn lookup(l: Seq<PaymentView>, id: u64) -> PaymentView {
    if 1 <= id && id <= l.len() {
        l[id - 1]
    } else {
        not_found_view()
    }
}

/// The payment store: the counter of payments made and the records, the
/// payment with id `n` standing at position `n - 1`.
pub struct ARVRMicropayments {
    count: u64,
    payments: Vec<Payment>,
}

impl View for ARVRMicropayments {
    type V = Seq<PaymentView>;

    closed spec fn view(&self) -> Seq<PaymentView> {
        self.payments@.map_values(|p: Payment| p@)
    }
}

impl ARVRMicropayments {
    /// The counter equals the number of records, and each record's id is its
    /// 1-based position.
    pub closed spec fn wf(&self) -> bool {
        &&& self.count as nat == self.payments@.len()
        &&& forall|i: int| 0 <= i < self.payments@.len() ==> #[trigger] self.payments@[i].payment_id == i + 1
    }

    /// An empty ledger: no payments, counter at zero.
    pub fn new() -> (r: ARVRMicropayments)
        ensures
            r.wf(),
            r@ == Seq::<PaymentView>::empty(),
    {
        let r = ARVRMicropayments { count: 0, payments: Vec::new() };
        assert(r@ =~= Seq::<PaymentView>::empty());
        r
    }

    /// Records a payment made at `timestamp` under the next id, and returns that id.
    pub fn make_payment(&mut self, user: String, creator: String, amount: u64, timestamp: u64) -> (r: u64)
        requires
            old(self).wf(),
            old(self)@.len() < u64::MAX,
        ensures
            final(self).wf(),
            recorded(old(self)@, final(self)@, r, user@, creator@, amount, timestamp),
    {
        let id = next_payment_id(Some(self.count));
        let payment = Payment::new(id, user, creator, amount, timestamp);
        self.payments.push(payment);
        self.count = id;
        proof {
            let pre = old(self)@;
            let post = self@;
            let p = PaymentView { payment_id: id, user: user@, creator: creator@, amount, timestamp };
            assert(post =~= pre.push(p));
        }
        id
    }

    /// The payment recorded under `payment_id`, or the "not found" marker when
    /// no payment has that id.
    pub fn view_payment(&self, payment_id: u64) -> (r: Payment)
        requires
            self.wf(),
        ensures
            r@ == lookup(self@, payment_id),
    {
        assert(self@.len() == self.payments@.len());
        let n: usize = self.payments.len();
        let found = if 1 <= payment_id && payment_id <= self.count {
            assert(payment_id - 1 < n);
            let i: usize = (payment_id - 1) as usize;
            assert(self@[i as int] == self.payments@[i as int]@);
            Some(self.payments[i].duplicate())
        } else {
            None
        };
        let r = crate::payment::payment_or_not_found(found);
        r
    }

    /// The number of payments recorded so far.
    pub fn view_total_payments(&self) -> (r: u64)
        requires
            self.wf(),
        ensures
            r == self@.len(),
    {
        self.count
    }
}

} // verus!
