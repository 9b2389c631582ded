//! Per-record decisions of a reconciliation pass and the pass's success count.
use vstd::prelude::*;
use crate::patcher::{patch_ok, PatchError};
use crate::records::{PatchResponse, RecordResponse, TypeSpecificData};
use crate::resolver::AddressPair;

verus! {

/// What the pass does with one listed record.
#[derive(Debug, Clone)]
pub enum Decision {
    /// Not an A or AAAA record.
    NotIpRecord,
    /// IP-bearing, but no address of its family was resolved.
    NoAddress,
    /// Already carries the resolved address.
    Unchanged,
    /// Update the record's content to this address.
    Patch(String),
}

/// A decision with its address as a character sequence.
pub enum DecisionView {
    NotIpRecord,
    NoAddress,
    Unchanged,
    Patch(Seq<char>),
}

impl View for Decision {
    type V = DecisionView;

    open spec fn view(&self) -> DecisionView {
        match self {
            Decision::NotIpRecord => DecisionView::NotIpRecord,
            Decision::NoAddress => DecisionView::NoAddress,
            Decision::Unchanged => DecisionView::Unchanged,
            Decision::Patch(c) => DecisionView::Patch(c@),
        }
    }
}

/// The resolved address that a record of this kind would carry, if any.
pub open spec fn family_address(t: TypeSpecificData, a: AddressPair) -> Option<String> {
    match t {
        TypeSpecificData::A { .. } => a.ipv4,
        TypeSpecificData::AAAA { .. } => a.ipv6,
        _ => None,
    }
}

/// A and AAAA records carry an address that follows the machine's.
pub open spec fn is_ip_record(t: TypeSpecificData) -> bool {
    t is A || t is AAAA
}

/// The current content of an IP-bearing record.
pub open spec fn ip_content(t: TypeSpecificData) -> Seq<char> {
    match t {
        TypeSpecificData::A { content, .. } => content@,
        TypeSpecificData::AAAA { content, .. } => content@,
        _ => Seq::empty(),
    }
}

/// The decision for a record: skip what is not IP-bearing, skip what has no
/// address of its family, skip what already carries it, and update the rest.
pub open spec fn decision_of(t: TypeSpecificData, a: AddressPair) -> DecisionView {
    if !is_ip_record(t) {
        DecisionView::NotIpRecord
    } else {
        match family_address(t, a) {
            None => DecisionView::NoAddress,
            Some(v) => if ip_content(t) == v@ {
                DecisionView::Unchanged
            } else {
                DecisionView::Patch(v@)
            },
        }
    }
}

fn decide(current: &String, address: &Option<String>) -> (d: Decision)
    ensures
        match *address {
            None => d@ == DecisionView::NoAddress,
            Some(v) => if current@ == v@ {
                d@ == DecisionView::Unchanged
            } else {
                d@ == DecisionView::Patch(v@)
            },
        },
{
    match address {
        None => Decision::NoAddress,
        Some(v) => if *current == *v {
            Decision::Unchanged
        } else {
            Decision::Patch(v.clone())
        },
    }
}

/// Decides what to do with one listed record, comparing its content with the
/// address of its family as text. No request is ever needed to decide.
pub fn decide_record(record: &RecordResponse, addresses: &AddressPair) -> (d: Decision)
    ensures
        d@ == decision_of(record.type_data, *addresses),
{
    match &record.type_data {
        TypeSpecificData::A { content, .. } => decide(content, &addresses.ipv4),
        TypeSpecificData::AAAA { content, .. } => decide(content, &addresses.ipv6),
        _ => Decision::NotIpRecord,
    }
}

/// The decisions for a zone's listed records, one per record, in order.
pub fn plan_zone(records: &Vec<RecordResponse>, addresses: &AddressPair) -> (r: Vec<Decision>)
    ensures
        r@.len() == records@.len(),
        forall|i: int|
            0 <= i < records@.len() ==> #[trigger] r@[i]@ == decision_of(
                records@[i].type_data,
                *addresses,
            ),
{
    let mut r: Vec<Decision> = Vec::new();
    let mut i: usize = 0;
    while i < records.len()
        invariant
            i <= records@.len(),
            r@.len() == i,
            forall|k: int|
                0 <= k < i ==> #[trigger] r@[k]@ == decision_of(records@[k].type_data, *addresses),
        decreases records@.len() - i,
    {
        r.push(decide_record(&records[i], addresses));
        i = i + 1;
    }
    r
}

/// Number of updates that went through.
pub open spec fn successes(outcomes: Seq<Result<PatchResponse, PatchError>>) -> nat
    decreases outcomes.len(),
{
    if outcomes.len() == 0 {
        0
    } else {
        successes(outcomes.drop_last()) + if patch_ok(outcomes.last()) {
            1nat
        } else {
            0nat
        }
    }
}

/// Counts the updates of a pass that went through; each outcome counts on its own.
pub fn count_successes(outcomes: &Vec<Result<PatchResponse, PatchError>>) -> (n: usize)
    ensures
        n == successes(outcomes@),
{
    let mut n: usize = 0;
    let mut i: usize = 0;
    while i < outcomes.len()
        invariant
            i <= outcomes@.len(),
            n == successes(outcomes@.take(i as int)),
            n <= i,
        decreases outcomes@.len() - i,
    {
        assert(outcomes@.take(i as int + 1).drop_last() =~= outcomes@.take(i as int));
        match &outcomes[i] {
            Ok(p) => if p.success {
                n = n + 1;
            },
            Err(_) => {},
        }
        i = i + 1;
    }
    assert(outcomes@.take(i as int) =~= outcomes@);
    n
}


/// `after` is `before` once a pass has run with addresses `a`: the record kept
/// its kind, and its content is the address it was updated to, or else unchanged.
pub open spec fn after_pass(before: TypeSpecificData, after: TypeSpecificData, a: AddressPair) -> bool {
    &&& (after is A <==> before is A)
    &&& (after is AAAA <==> before is AAAA)
    &&& match decision_of(before, a) {
        DecisionView::Patch(c) => ip_content(after) == c,
        _ => ip_content(after) == ip_content(before),
    }
}

/// Reconciling is idempotent: a record whose content already equals the resolved
/// address of its family is left alone, and once the updates of one pass have
/// landed, a second pass with the same addresses updates nothing.
pub proof fn lemma_second_pass_is_noop(
    first: Seq<RecordResponse>,
    second: Seq<RecordResponse>,
    a: AddressPair,
)
    requires
        second.len() == first.len(),
        forall|i: int|
            0 <= i < first.len() ==> #[trigger] after_pass(
                first[i].type_data,
                second[i].type_data,
                a,
            ),
    ensures
        forall|i: int|
            0 <= i < first.len() && is_ip_record(first[i].type_data) && (#[trigger] family_address(
                first[i].type_data,
                a,
            )) is Some && ip_content(first[i].type_data) == family_address(
                first[i].type_data,
                a,
            )->Some_0@ ==> decision_of(first[i].type_data, a) == DecisionView::Unchanged,
        forall|i: int|
            0 <= i < second.len() ==> !(#[trigger] decision_of(second[i].type_data, a) is Patch),
{
    assert forall|i: int| 0 <= i < second.len() implies !(#[trigger] decision_of(
        second[i].type_data,
        a,
    ) is Patch) by {
        assert(after_pass(first[i].type_data, second[i].type_data, a));
    }
}

/// Only A and AAAA records are ever updated: any other record is skipped as not
/// IP-bearing, whatever addresses were resolved.
pub proof fn lemma_non_ip_record_is_skipped(t: TypeSpecificData, a: AddressPair)
    requires
        !(t is A || t is AAAA),
    ensures
        decision_of(t, a) == DecisionView::NotIpRecord,
{
}

proof fn lemma_successes_concat(
    x: Seq<Result<PatchResponse, PatchError>>,
    y: Seq<Result<PatchResponse, PatchError>>,
)
    ensures
        successes(x + y) == successes(x) + successes(y),
    decreases y.len(),
{
    if y.len() == 0 {
        assert(x + y =~= x);
    } else {
        assert((x + y).drop_last() =~= x + y.drop_last());
        lemma_successes_concat(x, y.drop_last());
    }
}

/// Updates fail in isolation: when the update of record `i` fails instead, the
/// count drops by one if that update had gone through, and the outcomes of all
/// other records count exactly as before.
pub proof fn lemma_failure_is_isolated(
    outcomes: Seq<Result<PatchResponse, PatchError>>,
    i: int,
    failure: PatchError,
)
    requires
        0 <= i < outcomes.len(),
    ensures
        successes(outcomes.update(i, Err(failure))) + (if patch_ok(outcomes[i]) {
            1int
        } else {
            0int
        }) == successes(outcomes),
{
    let failed = outcomes.update(i, Err(failure));
    let pre = outcomes.take(i);
    let post = outcomes.skip(i + 1);
    assert(outcomes =~= pre + seq![outcomes[i]] + post);
    assert(failed =~= pre + seq![Err::<PatchResponse, PatchError>(failure)] + post);
    lemma_successes_concat(pre + seq![outcomes[i]], post);
    lemma_successes_concat(pre, seq![outcomes[i]]);
    lemma_successes_concat(pre + seq![Err::<PatchResponse, PatchError>(failure)], post);
    lemma_successes_concat(pre, seq![Err::<PatchResponse, PatchError>(failure)]);
    assert(seq![outcomes[i]].drop_last() =~= Seq::<Result<PatchResponse, PatchError>>::empty());
    assert(seq![Err::<PatchResponse, PatchError>(failure)].drop_last()
        =~= Seq::<Result<PatchResponse, PatchError>>::empty());
}

} // verus!
