use vstd::prelude::*;

verus! {

/// The count of failed attempts of one operation, against its budget.
///
/// The first attempt is not counted against the budget: an operation is tried
/// once, then tried again after each failure while fewer than `max_attempts`
/// failures have been seen, so it is tried at most `max_attempts + 1` times.
/// Each failure that is followed by another try is reported as a warning.
#[derive(Clone, Copy, Debug, PartialEq, Eq, Structural)]
pub struct Attempts {
    pub max_attempts: usize,
    pub failed: usize,
}

/// What follows a failed attempt: another try, with a warning for the attempt
/// of the given index, or `None` when the budget is spent.
pub open spec fn next_attempt(a: Attempts) -> (Option<usize>, Attempts) {
    if a.failed < a.max_attempts {
        (Some(a.failed), Attempts { failed: (a.failed + 1) as usize, ..a })
    } else {
        (None, a)
    }
}

/// The warnings sent while an operation whose attempts fail until attempt `k`
/// (counted from 0) is retried, and whether it ends in success.
pub open spec fn retry_outcome(a: Attempts, k: nat) -> (Seq<usize>, bool)
    decreases k - a.failed,
{
    if a.failed >= k {
        (seq![], true)
    } else {
        match next_attempt(a).0 {
            None => (seq![], false),
            Some(i) => {
                let rest = retry_outcome(next_attempt(a).1, k);
                (seq![i].add(rest.0), rest.1)
            },
        }
    }
}

impl Attempts {
    /// A budget of `max_attempts` tries after the first.
    pub fn new(max_attempts: usize) -> (r: Attempts)
        requires
            max_attempts > 0,
        ensures
            r == (Attempts { max_attempts, failed: 0 }),
    {
        Attempts { max_attempts, failed: 0 }
    }

    /// Counts a failed attempt and tells whether to try again; `Some(i)` means
    /// that attempt `i` failed and another follows.
    pub fn fail(&mut self) -> (r: Option<usize>)
        ensures
            (r, *final(self)) == next_attempt(*old(self)),
    {
        if self.failed < self.max_attempts {
            let attempt = self.failed;
            self.failed = self.failed + 1;
            Some(attempt)
        } else {
            None
        }
    }
}

/// The indices `0, 1, ..., n - 1`.
pub open spec fn indices(n: nat) -> Seq<usize> {
    Seq::new(n, |i: int| i as usize)
}

/// An operation that fails `k` times and then succeeds: the retry loop
/// returns its success exactly when `k <= max_attempts`, and sends one warning
/// for each failure that it tries again after, with the attempt indices
/// `0, 1, ...` in order: `k` of them on success, `max_attempts` otherwise.
pub proof fn lemma_retry_outcome(max_attempts: usize, k: nat)
    requires
        max_attempts > 0,
    ensures
        retry_outcome(Attempts { max_attempts, failed: 0 }, k) == (
            indices(if k <= max_attempts { k } else { max_attempts as nat }),
            k <= max_attempts,
        ),
{
    lemma_retry_outcome_from(Attempts { max_attempts, failed: 0 }, k);
    assert(indices(if k <= max_attempts { k } else { max_attempts as nat }).subrange(0, if k
        <= max_attempts { k as int } else { max_attempts as int }) =~= indices(
        if k <= max_attempts { k } else { max_attempts as nat },
    ));
}

proof fn lemma_retry_outcome_from(a: Attempts, k: nat)
    requires
        a.failed <= a.max_attempts,
    ensures
        ({
            let end = if k <= a.max_attempts { k } else { a.max_attempts as nat };
            let start = if a.failed <= end { a.failed as int } else { end as int };
            &&& retry_outcome(a, k).1 == (k <= a.max_attempts)
            &&& retry_outcome(a, k).0 == indices(end).subrange(start, end as int)
        }),
    decreases k - a.failed,
{
    let end = if k <= a.max_attempts { k } else { a.max_attempts as nat };
    if a.failed >= k {
        assert(indices(end).subrange(end as int, end as int) =~= seq![]);
        if a.failed > end {
        } else {
            assert(indices(end).subrange(a.failed as int, end as int) =~= seq![]);
        }
    } else if a.failed >= a.max_attempts {
        assert(indices(end).subrange(end as int, end as int) =~= seq![]);
    } else {
        let b = next_attempt(a).1;
        lemma_retry_outcome_from(b, k);
        assert(seq![a.failed].add(indices(end).subrange(a.failed + 1, end as int)) =~= indices(
            end,
        ).subrange(a.failed as int, end as int));
    }
}

} // verus!
