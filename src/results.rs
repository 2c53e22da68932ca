//! Collecting a sequence of results in order: all successes, or the first failure.
use vstd::prelude::*;

verus! {

/// The successes of `s` in order if there are only successes, else the first failure.
pub open spec fn collect<A, E>(s: Seq<Result<A, E>>) -> Result<Seq<A>, E>
    decreases s.len(),
{
    if s.len() == 0 {
        Ok(Seq::empty())
    } else {
        match collect(s.subrange(0, s.len() - 1)) {
            Ok(v) => match s[s.len() - 1] {
                Ok(x) => Ok(v.push(x)),
                Err(e) => Err(e),
            },
            Err(e) => Err(e),
        }
    }
}

/// One more success extends the collected prefix.
pub proof fn lemma_collect_step<A, E>(s: Seq<Result<A, E>>, i: int, v: Seq<A>, x: A)
    requires
        0 <= i < s.len(),
        collect(s.subrange(0, i)) == Ok::<Seq<A>, E>(v),
        s[i] == Ok::<A, E>(x),
    ensures
        collect(s.subrange(0, i + 1)) == Ok::<Seq<A>, E>(v.push(x)),
{
    assert(s.subrange(0, i + 1).subrange(0, i) =~= s.subrange(0, i));
}

/// A failure at `i` after a successful prefix is the failure of the whole sequence.
pub proof fn lemma_collect_failure<A, E>(s: Seq<Result<A, E>>, i: int, v: Seq<A>, e: E)
    requires
        0 <= i < s.len(),
        collect(s.subrange(0, i)) == Ok::<Seq<A>, E>(v),
        s[i] == Err::<A, E>(e),
    ensures
        collect(s) == Err::<Seq<A>, E>(e),
{
    assert(s.subrange(0, i + 1).subrange(0, i) =~= s.subrange(0, i));
    lemma_failure_extends(s, i + 1);
}

proof fn lemma_failure_extends<A, E>(s: Seq<Result<A, E>>, k: int)
    requires
        0 <= k <= s.len(),
        collect(s.subrange(0, k)) is Err,
    ensures
        collect(s) == collect(s.subrange(0, k)),
    decreases s.len() - k,
{
    if k == s.len() {
        assert(s.subrange(0, k) =~= s);
    } else {
        assert(s.subrange(0, k + 1).subrange(0, k) =~= s.subrange(0, k));
        assert(collect(s.subrange(0, k + 1)) == collect(s.subrange(0, k)));
        lemma_failure_extends(s, k + 1);
    }
}

/// A collected success has one element for each input, in order.
pub proof fn lemma_collect_ok<A, E>(s: Seq<Result<A, E>>)
    requires
        collect(s) is Ok,
    ensures
        collect(s)->Ok_0.len() == s.len(),
        forall|i: int| 0 <= i < s.len() ==> s[i] == Ok::<A, E>(#[trigger] collect(s)->Ok_0[i]),
    decreases s.len(),
{
    if s.len() > 0 {
        lemma_collect_ok(s.subrange(0, s.len() - 1));
    }
}

/// Only successes collect to a success.
pub proof fn lemma_collect_all_ok<A, E>(s: Seq<Result<A, E>>)
    requires
        forall|i: int| 0 <= i < s.len() ==> #[trigger] s[i] is Ok,
    ensures
        collect(s) is Ok,
    decreases s.len(),
{
    if s.len() > 0 {
        let p = s.subrange(0, s.len() - 1);
        assert forall|i: int| 0 <= i < p.len() implies #[trigger] p[i] is Ok by {
            assert(p[i] == s[i]);
        }
        lemma_collect_all_ok(p);
        assert(s[s.len() - 1] is Ok);
    }
}

/// Any failure makes the collection fail.
pub proof fn lemma_collect_any_err<A, E>(s: Seq<Result<A, E>>, k: int)
    requires
        0 <= k < s.len(),
        s[k] is Err,
    ensures
        collect(s) is Err,
    decreases s.len(),
{
    let p = s.subrange(0, s.len() - 1);
    if k < s.len() - 1 {
        assert(p[k] == s[k]);
        lemma_collect_any_err(p, k);
    }
}

/// The successes of `s`, in order.
pub open spec fn oks<A, E>(s: Seq<Result<A, E>>) -> Seq<A>
    decreases s.len(),
{
    if s.len() == 0 {
        Seq::empty()
    } else {
        match s[s.len() - 1] {
            Ok(x) => oks(s.subrange(0, s.len() - 1)).push(x),
            Err(_) => oks(s.subrange(0, s.len() - 1)),
        }
    }
}

/// The failures of `s`, in order.
pub open spec fn errs<A, E>(s: Seq<Result<A, E>>) -> Seq<E>
    decreases s.len(),
{
    if s.len() == 0 {
        Seq::empty()
    } else {
        match s[s.len() - 1] {
            Ok(_) => errs(s.subrange(0, s.len() - 1)),
            Err(e) => errs(s.subrange(0, s.len() - 1)).push(e),
        }
    }
}

/// The sequences of `s` one after the other.
pub open spec fn concat<E>(s: Seq<Seq<E>>) -> Seq<E>
    decreases s.len(),
{
    if s.len() == 0 {
        Seq::empty()
    } else {
        concat(s.subrange(0, s.len() - 1)) + s[s.len() - 1]
    }
}

/// No failure means every element succeeded, and the successes are the
/// elements themselves, in order.
pub proof fn lemma_no_errs<A, E>(s: Seq<Result<A, E>>)
    ensures
        errs(s).len() == 0 <==> forall|i: int| 0 <= i < s.len() ==> #[trigger] s[i] is Ok,
        errs(s).len() == 0 ==> oks(s).len() == s.len(),
        errs(s).len() == 0 ==> forall|i: int| 0 <= i < s.len() ==> s[i] == Ok::<A, E>(#[trigger] oks(s)[i]),
    decreases s.len(),
{
    if s.len() > 0 {
        let p = s.subrange(0, s.len() - 1);
        lemma_no_errs(p);
        assert forall|i: int| 0 <= i < p.len() implies #[trigger] p[i] == s[i] by {}
        if errs(s).len() == 0 {
            assert(s[s.len() - 1] is Ok);
            assert forall|i: int| 0 <= i < s.len() implies #[trigger] s[i] is Ok by {
                if i < s.len() - 1 {
                    assert(p[i] == s[i]);
                }
            }
        }
        if forall|i: int| 0 <= i < s.len() ==> #[trigger] s[i] is Ok {
            assert forall|i: int| 0 <= i < p.len() implies #[trigger] p[i] is Ok by {
                assert(p[i] == s[i]);
            }
            assert(s[s.len() - 1] is Ok);
        }
    }
}

/// Every failure of `s` is among its failures.
pub proof fn lemma_errs_contains<A, E>(s: Seq<Result<A, E>>, k: int)
    requires
        0 <= k < s.len(),
        s[k] is Err,
    ensures
        errs(s).contains(s[k]->Err_0),
    decreases s.len(),
{
    let p = s.subrange(0, s.len() - 1);
    if k < s.len() - 1 {
        assert(p[k] == s[k]);
        lemma_errs_contains(p, k);
        let j = choose|j: int| 0 <= j < errs(p).len() && errs(p)[j] == s[k]->Err_0;
        assert(errs(s)[j] == s[k]->Err_0);
    } else {
        assert(errs(s)[errs(s).len() - 1] == s[k]->Err_0);
    }
}

/// Every element of one of the sequences is in their concatenation.
pub proof fn lemma_concat_contains<E>(s: Seq<Seq<E>>, k: int, j: int)
    requires
        0 <= k < s.len(),
        0 <= j < s[k].len(),
    ensures
        concat(s).contains(s[k][j]),
    decreases s.len(),
{
    let p = s.subrange(0, s.len() - 1);
    if k < s.len() - 1 {
        assert(p[k] == s[k]);
        lemma_concat_contains(p, k, j);
        let w = choose|w: int| 0 <= w < concat(p).len() && concat(p)[w] == s[k][j];
        assert(concat(s)[w] == s[k][j]);
    } else {
        assert(concat(s)[concat(p).len() + j] == s[k][j]);
    }
}

} // verus!
