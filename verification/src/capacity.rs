//! How a GPU buffer's capacity follows the element counts that are asked of
//! it: it grows to the request plus a fixed slack when the request exceeds it,
//! and never shrinks.

use vstd::prelude::*;

verus! {

/// The capacity after `requested` elements are asked of a buffer that holds
/// `capacity`, with `slack` extra elements on each growth.
pub open spec fn capacity_after(capacity: nat, requested: nat, slack: nat) -> nat {
    if capacity >= requested {
        capacity
    } else {
        requested + slack
    }
}

/// The capacity after each of `requests` has been asked in turn.
pub open spec fn capacity_after_all(capacity: nat, requests: Seq<nat>, slack: nat) -> nat
    decreases requests.len(),
{
    if requests.len() == 0 {
        capacity
    } else {
        capacity_after(
            capacity_after_all(capacity, requests.drop_last(), slack),
            requests.last(),
            slack,
        )
    }
}

/// The largest of `requests`, and 0 if there is none.
pub open spec fn max_request(requests: Seq<nat>) -> nat
    decreases requests.len(),
{
    if requests.len() == 0 {
        0
    } else if requests.last() >= max_request(requests.drop_last()) {
        requests.last()
    } else {
        max_request(requests.drop_last())
    }
}

/// The last of `requests` made the buffer grow.
pub open spec fn grew_at_last(capacity: nat, requests: Seq<nat>, slack: nat) -> bool {
    requests.len() > 0 && capacity_after_all(capacity, requests.drop_last(), slack)
        < requests.last()
}

/// Capacity never decreases: after more requests it is at least what it was
/// after fewer.
pub proof fn lemma_capacity_monotonic(capacity: nat, requests: Seq<nat>, slack: nat, i: int, j: int)
    requires
        0 <= i <= j <= requests.len(),
    ensures
        capacity_after_all(capacity, requests.take(i), slack) <= capacity_after_all(
            capacity,
            requests.take(j),
            slack,
        ),
    decreases j - i,
{
    if i < j {
        lemma_capacity_monotonic(capacity, requests, slack, i, j - 1);
        assert(requests.take(j).drop_last() =~= requests.take(j - 1));
    }
}

/// Capacity is at least the initial capacity and at least the largest request
/// seen so far.
pub proof fn lemma_capacity_covers_requests(capacity: nat, requests: Seq<nat>, slack: nat)
    ensures
        capacity_after_all(capacity, requests, slack) >= capacity,
        capacity_after_all(capacity, requests, slack) >= max_request(requests),
    decreases requests.len(),
{
    if requests.len() > 0 {
        lemma_capacity_covers_requests(capacity, requests.drop_last(), slack);
    }
}

/// Right after a growth the capacity is exactly the largest request seen so
/// far plus the slack.
pub proof fn lemma_capacity_after_growth(capacity: nat, requests: Seq<nat>, slack: nat)
    requires
        grew_at_last(capacity, requests, slack),
    ensures
        capacity_after_all(capacity, requests, slack) == max_request(requests) + slack,
        max_request(requests) == requests.last(),
{
    lemma_capacity_covers_requests(capacity, requests.drop_last(), slack);
}

} // verus!
