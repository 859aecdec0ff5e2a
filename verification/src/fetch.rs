use vstd::prelude::*;
use crate::error::WikiError;

verus! {

/// The aggregate of independent per-id results, in input order: every value
/// when all succeeded, else the first error.
pub open spec fn spec_join(results: Seq<Result<String, WikiError>>) -> Result<
    Seq<String>,
    WikiError,
>
    decreases results.len(),
{
    if results.len() == 0 {
        Ok(Seq::empty())
    } else {
        match results[0] {
            Err(e) => Err(e),
            Ok(v) => match spec_join(results.drop_first()) {
                Err(e) => Err(e),
                Ok(rest) => Ok(seq![v] + rest),
            },
        }
    }
}

/// `pre` prepended to an aggregate tail result.
pub open spec fn prepend_join(pre: Seq<String>, r: Result<Seq<String>, WikiError>) -> Result<
    Seq<String>,
    WikiError,
> {
    match r {
        Ok(rest) => Ok(pre + rest),
        Err(e) => Err(e),
    }
}

/// Law: when every result succeeded, the aggregate holds exactly the
/// successes, one per input and in input order — position `i` of the output
/// always answers position `i` of the input, never completion order.
pub proof fn lemma_join_preserves_order(results: Seq<Result<String, WikiError>>)
    requires
        forall|i: int| 0 <= i < results.len() ==> results[i] is Ok,
    ensures
        spec_join(results) matches Ok(vals) && vals.len() == results.len() && (forall|i: int|
            0 <= i < results.len() ==> #[trigger] vals[i] == results[i]->Ok_0),
    decreases results.len(),
{
    if results.len() > 0 {
        lemma_join_preserves_order(results.drop_first());
    }
}

/// Law: one failed task fails the whole fan-out — there is no partial
/// success.  The aggregate succeeds exactly when every result did.
pub proof fn lemma_join_no_partial_success(results: Seq<Result<String, WikiError>>)
    ensures
        spec_join(results) is Ok <==> (forall|i: int| 0 <= i < results.len() ==> results[i] is Ok),
    decreases results.len(),
{
    if results.len() > 0 {
        lemma_join_no_partial_success(results.drop_first());
        assert(forall|i: int| 1 <= i < results.len() ==> results[i] == results.drop_first()[i - 1]);
    }
}

/// Aggregates the collected outcomes of a concurrent fan-out.
///
/// The caller dispatches one independent task per id and collects each
/// task's result in the ids' input order; this function decides the single
/// aggregate outcome: all the values, positionally matching the ids, when
/// every task succeeded, otherwise the first failure found during
/// collection, wrapped as `AggregateFetch` with its cause kept.
pub fn join_results(results: &Vec<Result<String, WikiError>>) -> (r: Result<Vec<String>, WikiError>)
    ensures
        match r {
            Ok(vals) => spec_join(results@) matches Ok(svals) && vals@ == svals,
            Err(e) => {
                &&& spec_join(results@) is Err
                &&& e matches WikiError::AggregateFetch(cause) && *cause == spec_join(
                    results@,
                )->Err_0
            },
        },
{
    let ghost all = results@;
    let n = results.len();
    let mut out: Vec<String> = Vec::new();
    let mut i: usize = 0;
    proof {
        assert(all.skip(0) =~= all);
        match spec_join(all) {
            Ok(rest) => {
                assert(Seq::<String>::empty() + rest =~= rest);
            },
            Err(_) => {},
        }
    }
    while i < n
        invariant
            i <= n,
            n == all.len(),
            results@ == all,
            out@.len() == i,
            spec_join(all) == prepend_join(out@, spec_join(all.skip(i as int))),
        decreases n - i,
    {
        proof {
            assert(all.skip(i as int).drop_first() =~= all.skip(i as int + 1));
            assert(all.skip(i as int)[0] == all[i as int]);
        }
        let ghost pre = out@;
        match &results[i] {
            Ok(s) => {
                let ghost sv = *s;
                proof {
                    match spec_join(all.skip(i as int + 1)) {
                        Ok(rest) => {
                            assert(pre + (seq![sv] + rest) =~= (pre + seq![sv]) + rest);
                        },
                        Err(_) => {},
                    }
                }
                out.push(s.clone());
                proof {
                    assert(out@ =~= pre + seq![sv]);
                }
            },
            Err(e) => {
                return Err(WikiError::AggregateFetch(Box::new(e.duplicate())));
            },
        }
        i = i + 1;
    }
    proof {
        assert(all.skip(n as int) =~= Seq::<Result<String, WikiError>>::empty());
        assert(out@ + Seq::<String>::empty() =~= out@);
    }
    Ok(out)
}

} // verus!

