use vstd::prelude::*;

verus! {

/// The pending-load tracker's transition for one finished sub-load:
/// from `pending` outstanding sub-loads and accumulated failure
/// `any_failed`, yields the new count, the new failure flag and the
/// report handed out, exactly as `load_finished` ensures it.
pub open spec fn finish_step(pending: u32, any_failed: bool, succeeded: bool) -> (
    u32,
    bool,
    Option<bool>,
)
    recommends
        pending > 0,
{
    let p2 = (pending - 1) as u32;
    if p2 > 0 {
        (p2, any_failed || !succeeded, None)
    } else {
        (p2, false, Some(any_failed || !succeeded))
    }
}

/// Some sub-load among `outcomes` failed.
pub open spec fn any_failure(outcomes: Seq<bool>) -> bool {
    exists|i: int| 0 <= i < outcomes.len() && !(#[trigger] outcomes[i])
}

/// The reports produced by feeding the sub-load outcomes one by one
/// into the tracker, starting from `pending` outstanding sub-loads and
/// accumulated failure `any_failed`.
pub open spec fn batch_reports(pending: u32, any_failed: bool, outcomes: Seq<bool>) -> Seq<
    Option<bool>,
>
    decreases outcomes.len(),
{
    if outcomes.len() == 0 {
        Seq::empty()
    } else {
        let step = finish_step(pending, any_failed, outcomes[0]);
        seq![step.2] + batch_reports(step.0, step.1, outcomes.drop_first())
    }
}

proof fn lemma_any_failure_unfold(outcomes: Seq<bool>)
    requires
        outcomes.len() > 0,
    ensures
        any_failure(outcomes) == (!outcomes[0] || any_failure(outcomes.drop_first())),
{
    let rest = outcomes.drop_first();
    if !outcomes[0] {
        assert(any_failure(outcomes));
    }
    if any_failure(rest) {
        let i = choose|i: int| 0 <= i < rest.len() && !(#[trigger] rest[i]);
        assert(!outcomes[i + 1]);
        assert(any_failure(outcomes));
    }
    if any_failure(outcomes) && outcomes[0] {
        let i = choose|i: int| 0 <= i < outcomes.len() && !(#[trigger] outcomes[i]);
        assert(!rest[i - 1]);
        assert(any_failure(rest));
    }
}

/// Law: the aggregate batch outcome is produced exactly once. Feeding
/// a batch of `pending` sub-load completions into the tracker, in any
/// order of successes and failures, hands out no report on any but the
/// last completion, and on the last exactly one, whose value says
/// whether any sub-load of the batch failed, on top of any failure
/// already accumulated.
pub proof fn lemma_aggregate_reported_exactly_once(
    pending: u32,
    any_failed: bool,
    outcomes: Seq<bool>,
)
    requires
        pending > 0,
        outcomes.len() == pending,
    ensures
        batch_reports(pending, any_failed, outcomes).len() == pending,
        forall|i: int|
            0 <= i < pending - 1 ==> #[trigger] batch_reports(pending, any_failed, outcomes)[i]
                is None,
        batch_reports(pending, any_failed, outcomes)[pending - 1] == Some(
            any_failed || any_failure(outcomes),
        ),
    decreases pending,
{
    let reports = batch_reports(pending, any_failed, outcomes);
    let step = finish_step(pending, any_failed, outcomes[0]);
    let rest = outcomes.drop_first();
    lemma_any_failure_unfold(outcomes);
    if pending == 1 {
        assert(rest.len() == 0);
        assert(!any_failure(rest));
        assert(reports =~= seq![Some(any_failed || !outcomes[0])]);
    } else {
        lemma_aggregate_reported_exactly_once(step.0, step.1, rest);
        let sub = batch_reports(step.0, step.1, rest);
        assert(reports =~= seq![step.2] + sub);
        assert(reports[pending - 1] == sub[pending - 2]);
        assert forall|i: int| 0 <= i < pending - 1 implies #[trigger] reports[i] is None by {
            if i > 0 {
                assert(reports[i] == sub[i - 1]);
            }
        }
    }
}

proof fn lemma_generation_prefix(gens: Seq<u32>, i: int)
    requires
        0 <= i < gens.len(),
        gens[0] == 0,
        forall|k: int| 1 <= k < gens.len() ==> #[trigger] gens[k] == gens[k - 1] + 1,
    ensures
        gens[i] == i,
    decreases i,
{
    if i > 0 {
        lemma_generation_prefix(gens, i - 1);
    }
}

/// Law: the generation counter is strictly monotonic and counts the
/// stylesheet-load initiations. Along any run whose generation ids
/// start at zero and rise by exactly one per initiation — which is
/// what every initiation ensures — the id after the n-th initiation
/// equals n, and no two initiations share an id.
pub proof fn lemma_generation_counts_initiations(gens: Seq<u32>)
    requires
        gens.len() > 0,
        gens[0] == 0,
        forall|k: int| 1 <= k < gens.len() ==> #[trigger] gens[k] == gens[k - 1] + 1,
    ensures
        forall|i: int| 0 <= i < gens.len() ==> #[trigger] gens[i] == i,
        forall|i: int, j: int|
            0 <= i < j < gens.len() ==> #[trigger] gens[i] < #[trigger] gens[j],
{
    assert forall|i: int| 0 <= i < gens.len() implies #[trigger] gens[i] == i by {
        lemma_generation_prefix(gens, i);
    }
}

} // verus!
