use vstd::prelude::*;
use vstd::string::StringExecFns;

verus! {

/// The text that fills both parties of the "not found" marker.
pub const NOT_FOUND: &'static str = "Not Found";

/// What a payment record holds, as plain mathematical values.
pub struct PaymentView {
    pub payment_id: u64,
    pub user: Seq<char>,
    pub creator: Seq<char>,
    pub amount: u64,
    pub timestamp: u64,
}

/// One recorded payment. Once stored it is never changed.
pub struct Payment {
    pub payment_id: u64,
    pub user: String,
    pub creator: String,
    pub amount: u64,
    pub timestamp: u64,
}

impl View for Payment {
    type V = PaymentView;

    open spec fn view(&self) -> PaymentView {
        PaymentView {
            payment_id: self.payment_id,
            user: self.user@,
            creator: self.creator@,
            amount: self.amount,
            timestamp: self.timestamp,
        }
    }
}

/// The record handed out for an id that was never assigned.
pub open spec fn not_found_view() -> PaymentView {
    PaymentView {
        payment_id: 0,
        user: NOT_FOUND@,
        creator: NOT_FOUND@,
        amount: 0,
        timestamp: 0,
    }
}

impl Payment {
    pub fn new(payment_id: u64, user: String, creator: String, amount: u64, timestamp: u64) -> (r: Payment)
        ensures
            r@ == (PaymentView { payment_id, user: user@, creator: creator@, amount, timestamp }),
    {
        Payment { payment_id, user, creator, amount, timestamp }
    }

    /// The "not found" marker: id 0, both parties "Not Found", zero amount and time.
    pub fn not_found() -> (r: Payment)
        ensures
            r@ == not_found_view(),
    {
        Payment {
            payment_id: 0,
            user: String::from_str(NOT_FOUND),
            creator: String::from_str(NOT_FOUND),
            amount: 0,
            timestamp: 0,
        }
    }

    /// Whether this record is the "not found" marker, judged by its id.
    pub fn is_not_found(&self) -> (r: bool)
        ensures
            r == (self.payment_id == 0),
    {
        self.payment_id == 0
    }

    /// A field-by-field copy.
    pub fn duplicate(&self) -> (r: Payment)
        ensures
            r@ == self@,
    {
        Payment {
            payment_id: self.payment_id,
            user: self.user.clone(),
            creator: self.creator.clone(),
            amount: self.amount,
            timestamp: self.timestamp,
        }
    }
}

/// Picks the stored record when a lookup found one, else the "not found" marker.
pub fn payment_or_not_found(found: Option<Payment>) -> (r: Payment)
    ensures
        r@ == (match found {
            Some(p) => p@,
            None => not_found_view(),
        }),
{
    match found {
        Some(p) => p,
        None => Payment::not_found(),
    }
}

} // verus!
