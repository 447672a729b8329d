use vstd::prelude::*;
use crate::payment::{PaymentView, not_found_view};
use crate::ledger::{recorded, lookup};

verus! {

/// The inputs of one recorded payment: payer, payee, amount and the clock reading.
pub type PaymentInput = (Seq<char>, Seq<char>, u64, u64);

/// The record that the `i`-th call (counting from 0) of a run stores.
pub open spec fn expected_record(inputs: Seq<PaymentInput>, i: int) -> PaymentView {
    PaymentView {
        payment_id: (i + 1) as u64,
        user: inputs[i].0,
        creator: inputs[i].1,
        amount: inputs[i].2,
        timestamp: inputs[i].3,
    }
}

/// `states` is a run of the ledger from empty: `states[i + 1]` is `states[i]`
/// after recording `inputs[i]`, which was given the id `ids[i]`.
pub open spec fn run_from_empty(
    states: Seq<Seq<PaymentView>>,
    ids: Seq<u64>,
    inputs: Seq<PaymentInput>,
) -> bool {
    &&& states.len() == ids.len() + 1
    &&& inputs.len() == ids.len()
    &&& states[0].len() == 0
    &&& forall|i: int|
        0 <= i < ids.len() ==> #[trigger] recorded(
            states[i],
            states[i + 1],
            ids[i],
            inputs[i].0,
            inputs[i].1,
            inputs[i].2,
            inputs[i].3,
        )
}

proof fn lemma_run_prefix(states: Seq<Seq<PaymentView>>, ids: Seq<u64>, inputs: Seq<PaymentInput>, k: int)
    requires
        run_from_empty(states, ids, inputs),
        0 <= k <= ids.len(),
    ensures
        states[k].len() == k,
        forall|i: int| 0 <= i < k ==> ids[i] == i + 1,
        forall|i: int| 0 <= i < k ==> #[trigger] states[k][i] == expected_record(inputs, i),
    decreases k,
{
    if k > 0 {
        lemma_run_prefix(states, ids, inputs, k - 1);
        assert(recorded(
            states[k - 1],
            states[k],
            ids[k - 1],
            inputs[k - 1].0,
            inputs[k - 1].1,
            inputs[k - 1].2,
            inputs[k - 1].3,
        ));
        assert forall|i: int| 0 <= i < k implies #[trigger] states[k][i] == expected_record(inputs, i) by {
            if i < k - 1 {
                assert(states[k][i] == states[k - 1][i]);
            }
        }
    }
}

/// After N payments recorded on an empty ledger, it holds exactly N records,
/// and the ids handed out were 1, 2, ..., N in call order.
pub proof fn lemma_ids_follow_call_order(states: Seq<Seq<PaymentView>>, ids: Seq<u64>, inputs: Seq<PaymentInput>)
    requires
        run_from_empty(states, ids, inputs),
    ensures
        states.last().len() == ids.len(),
        forall|i: int| 0 <= i < ids.len() ==> #[trigger] ids[i] == i + 1,
{
    lemma_run_prefix(states, ids, inputs, ids.len() as int);
}

/// After N payments recorded on an empty ledger, looking up any id from 1 to N
/// gives that id with exactly the inputs of the call that created it.
pub proof fn lemma_records_kept(states: Seq<Seq<PaymentView>>, ids: Seq<u64>, inputs: Seq<PaymentInput>)
    requires
        run_from_empty(states, ids, inputs),
    ensures
        forall|id: u64|
            1 <= id <= ids.len() ==> #[trigger] lookup(states.last(), id) == expected_record(inputs, id - 1),
{
    lemma_run_prefix(states, ids, inputs, ids.len() as int);
}

/// After N payments recorded on an empty ledger, looking up 0 or any id above
/// N gives the "not found" marker.
pub proof fn lemma_unassigned_ids_not_found(
    states: Seq<Seq<PaymentView>>,
    ids: Seq<u64>,
    inputs: Seq<PaymentInput>,
)
    requires
        run_from_empty(states, ids, inputs),
    ensures
        forall|id: u64| (id == 0 || id > ids.len()) ==> #[trigger] lookup(states.last(), id) == not_found_view(),
{
    lemma_run_prefix(states, ids, inputs, ids.len() as int);
}

/// Reading a payment back by the id that recording it returned gives that id
/// with exactly the payer, payee, amount and clock reading of the call.
pub proof fn lemma_record_then_view(
    pre: Seq<PaymentView>,
    post: Seq<PaymentView>,
    id: u64,
    user: Seq<char>,
    creator: Seq<char>,
    amount: u64,
    timestamp: u64,
)
    requires
        recorded(pre, post, id, user, creator, amount, timestamp),
    ensures
        lookup(post, id) == (PaymentView { payment_id: id, user, creator, amount, timestamp }),
{
}

/// Recording a payment leaves the lookup of every other id as it was.
pub proof fn lemma_record_keeps_others(
    pre: Seq<PaymentView>,
    post: Seq<PaymentView>,
    id: u64,
    user: Seq<char>,
    creator: Seq<char>,
    amount: u64,
    timestamp: u64,
    other: u64,
)
    requires
        recorded(pre, post, id, user, creator, amount, timestamp),
        other != id,
    ensures
        lookup(post, other) == lookup(pre, other),
{
}

} // verus!
