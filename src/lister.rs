//! A zone's records across its search rules, merged on the provider's identifier.
use vstd::prelude::*;
use crate::bounded::MaxLenString;
use crate::patcher::{api_zones_base, is_success_status};
use crate::records::{ListResponse, RecordResponse};

verus! {

/// Why one search rule contributed no records.
#[derive(Debug, Clone)]
pub enum ListError {
    /// The rule could not be written as a query string.
    Query(String),
    Transport(String),
    /// A status other than 2xx, with the raw body.
    Status { code: u16, body: String },
    /// The body is not a listing envelope.
    Decode(String),
    /// The rule matched no record; usually a misconfigured rule.
    Empty,
}

pub open spec fn rule_url_of(zone_id: Seq<char>, query: Seq<char>) -> Seq<char> {
    api_zones_base() + zone_id + "/dns_records?"@ + query
}

/// The listing endpoint of a zone with a rule's query string.
pub fn rule_url(zone_id: &MaxLenString<32>, query: &str) -> (r: String)
    ensures
        r@ == rule_url_of(zone_id.0@, query@),
{
    let mut url = String::from_str("https://api.cloudflare.com/client/v4/zones/");
    url.append(zone_id.0.as_str());
    url.append("/dns_records?");
    url.append(query);
    url
}

/// Reads the provider's answer to one rule's query. `decoded` is `body` read as
/// a listing envelope, or why that failed. Only a 2xx answer whose envelope holds
/// at least one record yields records.
pub fn check_rule_response(status: u16, body: String, decoded: Result<ListResponse, String>) -> (r:
    Result<Vec<RecordResponse>, ListError>)
    ensures
        !is_success_status(status) ==> (r matches Err(ListError::Status { code, body: b })
            && code == status && b@ == body@),
        is_success_status(status) ==> match decoded {
            Err(e) => r == Err::<Vec<RecordResponse>, ListError>(ListError::Decode(e)),
            Ok(l) => if l.result@.len() == 0 {
                r == Err::<Vec<RecordResponse>, ListError>(ListError::Empty)
            } else {
                r matches Ok(v) && v@ == l.result@
            },
        },
{
    if status < 200 || status > 299 {
        return Err(ListError::Status { code: status, body });
    }
    match decoded {
        Err(e) => Err(ListError::Decode(e)),
        Ok(l) => if l.result.len() == 0 {
            Err(ListError::Empty)
        } else {
            Ok(l.result)
        },
    }
}

/// A record's identity: the provider's identifier.
pub open spec fn key(r: RecordResponse) -> Seq<char> {
    r.id.0@
}

pub open spec fn keys(s: Seq<RecordResponse>) -> Seq<Seq<char>> {
    s.map_values(|r: RecordResponse| key(r))
}

/// The records of the rules that succeeded, rule after rule.
pub open spec fn listed(results: Seq<Result<Vec<RecordResponse>, ListError>>) -> Seq<RecordResponse>
    decreases results.len(),
{
    if results.len() == 0 {
        Seq::empty()
    } else {
        listed(results.drop_last()) + match results.last() {
            Ok(v) => v@,
            Err(_) => Seq::empty(),
        }
    }
}

/// `s` with every record whose identifier was seen earlier left out.
pub open spec fn first_seen(s: Seq<RecordResponse>) -> Seq<RecordResponse>
    decreases s.len(),
{
    if s.len() == 0 {
        Seq::empty()
    } else {
        let d = first_seen(s.drop_last());
        if keys(d).contains(key(s.last())) {
            d
        } else {
            d.push(s.last())
        }
    }
}

fn contains_key(merged: &Vec<RecordResponse>, id: &String) -> (b: bool)
    ensures
        b == keys(merged@).contains(id@),
{
    let mut i: usize = 0;
    while i < merged.len()
        invariant
            i <= merged@.len(),
            forall|k: int| 0 <= k < i ==> key(#[trigger] merged@[k]) != id@,
        decreases merged@.len() - i,
    {
        if merged[i].id.0 == *id {
            assert(keys(merged@)[i as int] == id@);
            return true;
        }
        i = i + 1;
    }
    assert forall|k: int| 0 <= k < keys(merged@).len() implies keys(merged@)[k] != id@ by {
        assert(key(merged@[k]) != id@);
    }
    false
}

/// Merges the outcomes of a zone's rules into one record set. Failed rules add
/// nothing and stop nothing; every record of a successful rule is kept unless a
/// record with its identifier was kept before it.
pub fn merge_rule_results(results: Vec<Result<Vec<RecordResponse>, ListError>>) -> (r: Vec<
    RecordResponse,
>)
    ensures
        r@ == first_seen(listed(results@)),
        keys(r@).no_duplicates(),
{
    let ghost all = results@;
    let mut rest = results;
    let mut merged: Vec<RecordResponse> = Vec::new();
    let ghost done: int = 0;
    while rest.len() > 0
        invariant
            0 <= done <= all.len(),
            rest@ == all.skip(done),
            merged@ == first_seen(listed(all.take(done))),
        decreases rest@.len(),
    {
        let outcome = rest.remove(0);
        proof {
            assert(all.take(done + 1).drop_last() =~= all.take(done));
            assert(all.take(done + 1).last() == outcome);
        }
        match outcome {
            Err(_) => {},
            Ok(mut found) => {
                let ghost batch = found@;
                let ghost before = listed(all.take(done));
                let ghost taken: int = 0;
                while found.len() > 0
                    invariant
                        0 <= taken <= batch.len(),
                        found@ == batch.skip(taken),
                        merged@ == first_seen(before + batch.take(taken)),
                    decreases found@.len(),
                {
                    let rec = found.remove(0);
                    proof {
                        assert((before + batch.take(taken + 1)).drop_last() =~= before
                            + batch.take(taken));
                        assert((before + batch.take(taken + 1)).last() == rec);
                    }
                    if !contains_key(&merged, &rec.id.0) {
                        merged.push(rec);
                    }
                    proof {
                        taken = taken + 1;
                    }
                }
                proof {
                    assert(batch.take(taken) =~= batch);
                }
            },
        }
        proof {
            done = done + 1;
        }
    }
    proof {
        assert(all.take(done) =~= all);
        lemma_first_seen_keys(listed(all));
    }
    merged
}


proof fn lemma_keys_push(s: Seq<RecordResponse>, x: RecordResponse)
    ensures
        keys(s.push(x)) == keys(s).push(key(x)),
{
    assert(keys(s.push(x)) =~= keys(s).push(key(x)));
}

/// The kept records carry each identifier of `s` exactly once.
proof fn lemma_first_seen_keys(s: Seq<RecordResponse>)
    ensures
        keys(first_seen(s)).no_duplicates(),
        keys(first_seen(s)).to_set() == keys(s).to_set(),
    decreases s.len(),
{
    if s.len() == 0 {
        assert(keys(s).to_set() =~= Set::<Seq<char>>::empty());
        assert(keys(first_seen(s)).to_set() =~= Set::<Seq<char>>::empty());
    } else {
        let p = s.drop_last();
        let x = s.last();
        let d = first_seen(p);
        lemma_first_seen_keys(p);
        assert(s =~= p.push(x));
        lemma_keys_push(p, x);
        keys(p).lemma_push_to_set_commute(key(x));
        if keys(d).contains(key(x)) {
            assert(keys(d).to_set().contains(key(x)));
            assert(keys(s).to_set() =~= keys(p).to_set());
        } else {
            lemma_keys_push(d, x);
            keys(d).lemma_push_to_set_commute(key(x));
            let kd = keys(d).push(key(x));
            assert forall|i: int, j: int|
                0 <= i < kd.len() && 0 <= j < kd.len() && i != j implies kd[i] != kd[j] by {
                if i == kd.len() - 1 {
                    assert(keys(d)[j] == kd[j]);
                } else if j == kd.len() - 1 {
                    assert(keys(d)[i] == kd[i]);
                }
            }
        }
    }
}

/// Every record that a successful rule returned is in `listed`.
proof fn lemma_listed_holds(results: Seq<Result<Vec<RecordResponse>, ListError>>, j: int, k: int)
    requires
        0 <= j < results.len(),
        results[j] is Ok,
        0 <= k < results[j]->Ok_0@.len(),
    ensures
        listed(results).contains(results[j]->Ok_0@[k]),
    decreases results.len(),
{
    let prev = results.drop_last();
    if j == results.len() - 1 {
        let tail = results.last()->Ok_0@;
        assert(listed(results)[listed(prev).len() + k] == tail[k]);
    } else {
        lemma_listed_holds(prev, j, k);
        let i = choose|i: int| 0 <= i < listed(prev).len() && listed(prev)[i] == results[j]->Ok_0@[k];
        assert(listed(results)[i] == listed(prev)[i]);
    }
}

/// Deduplication: the merged set has exactly one record per distinct identifier
/// that the successful rules returned, however much their results overlap.
pub proof fn lemma_merge_size_is_distinct_ids(results: Seq<Result<Vec<RecordResponse>, ListError>>)
    ensures
        keys(first_seen(listed(results))).no_duplicates(),
        first_seen(listed(results)).len() == keys(listed(results)).to_set().len(),
{
    let m = first_seen(listed(results));
    lemma_first_seen_keys(listed(results));
    keys(m).unique_seq_to_set();
}

/// Isolation: every record returned by a rule that succeeded has its identifier
/// in the merged set, whatever the other rules did.
pub proof fn lemma_rule_failure_is_isolated(
    results: Seq<Result<Vec<RecordResponse>, ListError>>,
    j: int,
    k: int,
)
    requires
        0 <= j < results.len(),
        results[j] is Ok,
        0 <= k < results[j]->Ok_0@.len(),
    ensures
        keys(first_seen(listed(results))).contains(key(results[j]->Ok_0@[k])),
{
    let rec = results[j]->Ok_0@[k];
    lemma_listed_holds(results, j, k);
    lemma_first_seen_keys(listed(results));
    let i = choose|i: int| 0 <= i < listed(results).len() && listed(results)[i] == rec;
    assert(keys(listed(results))[i] == key(rec));
    assert(keys(listed(results)).to_set().contains(key(rec)));
    assert(keys(first_seen(listed(results))).to_set().contains(key(rec)));
}

} // verus!
