use vstd::prelude::*;

use crate::collection::url_chars;
use crate::date::{lemma_date_order_total, lemma_date_order_transitive};
use crate::manager::TrophyResourceManager;
use crate::repository::{spec_all_live, spec_min_created};

verus! {

/// The donated total a record shows after a run of donations paying the
/// listed amounts: the mint accounts the first, every update one more, and
/// each step adds the paid amount plus the royalty.
pub open spec fn spec_donated_after(payments: Seq<u128>, royalty: u128) -> int
    decreases payments.len(),
{
    if payments.len() == 0 {
        0
    } else {
        spec_donated_after(payments.drop_last(), royalty) + payments.last() + royalty
    }
}

/// The plain sum of the paid amounts.
pub open spec fn spec_sum_payments(payments: Seq<u128>) -> int
    decreases payments.len(),
{
    if payments.len() == 0 {
        0
    } else {
        spec_sum_payments(payments.drop_last()) + payments.last()
    }
}

/// One more donation grows the running total by the paid amount plus the
/// royalty: exactly the step `donate_mint` takes for the first payment and
/// `donate_update` for every later one, by their contracts.
pub proof fn lemma_donated_after_step(payments: Seq<u128>, royalty: u128, amount: u128)
    ensures
        spec_donated_after(payments.push(amount), royalty) == spec_donated_after(
            payments,
            royalty,
        ) + amount + royalty,
{
    assert(payments.push(amount).drop_last() =~= payments);
    assert(payments.push(amount).last() == amount);
}

/// After any run of donations into one record, the donated total equals
/// the sum of all paid amounts plus the royalty taken once per donation.
pub proof fn lemma_donated_after_sequence(payments: Seq<u128>, royalty: u128)
    ensures
        spec_donated_after(payments, royalty) == spec_sum_payments(payments) + royalty
            * payments.len(),
    decreases payments.len(),
{
    if payments.len() > 0 {
        lemma_donated_after_sequence(payments.drop_last(), royalty);
        let n = payments.len() as int;
        assert(royalty * n == royalty * (n - 1) + royalty) by (nonlinear_arith);
    }
}

/// The merge's running minimum is a true minimum: it is the creation date
/// of one of the inputs, and no input's creation date is chronologically
/// earlier.
pub proof fn lemma_min_created_is_earliest(rm: TrophyResourceManager, ids: Seq<u64>)
    requires
        ids.len() > 0,
        spec_all_live(rm, ids),
    ensures
        exists|i: int|
            0 <= i < ids.len() && spec_min_created(rm, ids) == rm.spec_trophy(
                #[trigger] ids[i],
            ).created,
        forall|i: int|
            0 <= i < ids.len() ==> spec_min_created(rm, ids).spec_le(
                rm.spec_trophy(#[trigger] ids[i]).created,
            ),
    decreases ids.len(),
{
    let m = spec_min_created(rm, ids);
    if ids.len() == 1 {
        assert(m == rm.spec_trophy(ids[0]).created);
    } else {
        let rest = ids.drop_last();
        assert(spec_all_live(rm, rest));
        lemma_min_created_is_earliest(rm, rest);
        let prev = spec_min_created(rm, rest);
        let d = rm.spec_trophy(ids.last()).created;
        let k = choose|k: int|
            0 <= k < rest.len() && prev == rm.spec_trophy(#[trigger] rest[k]).created;
        if d.spec_lt(prev) {
            assert(m == rm.spec_trophy(ids[ids.len() - 1]).created);
        } else {
            assert(rest[k] == ids[k]);
            assert(m == rm.spec_trophy(ids[k]).created);
        }
        assert forall|i: int| 0 <= i < ids.len() implies m.spec_le(
            rm.spec_trophy(#[trigger] ids[i]).created,
        ) by {
            lemma_date_order_total(d, prev);
            if i < ids.len() - 1 {
                assert(rest[i] == ids[i]);
                assert(prev.spec_le(rm.spec_trophy(ids[i]).created));
                if d.spec_lt(prev) {
                    lemma_date_order_transitive(d, prev, rm.spec_trophy(ids[i]).created);
                }
            }
        }
    }
}

/// Url derivation is a pure function of its four inputs: two derivations
/// from identical inputs yield identical text. `generate_url`'s contract
/// pins its result to exactly this function, so repeated calls agree.
pub proof fn lemma_url_derivation_pure(
    r1: Seq<char>,
    r2: Seq<char>,
    base_path: Seq<char>,
    donated: int,
    created: Seq<char>,
    collection_id: Seq<char>,
)
    requires
        r1 == url_chars(base_path, donated, created, collection_id),
        r2 == url_chars(base_path, donated, created, collection_id),
    ensures
        r1 == r2,
{
}

} // verus!
