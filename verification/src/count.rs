//! Counting the versions of a resource: the objects of the bucket whose
//! key begins with the resource's name and a slash.
//!
//! The store hands out its listing page by page. The caller fetches the
//! page that a [`Counting`] asks for and hands the outcome to
//! [`count_page`], until that says that the count is done or has failed.
//! Nothing is fetched twice.

use vstd::prelude::*;
use vstd::string::StringExecFns;

verus! {

/// One page of a listing, as far as counting needs it.
pub struct Page {
    /// The number of objects that the page lists.
    pub entries: usize,
    /// The marker under which the rest of the listing is to be had;
    /// `None` on the last page.
    pub next_continuation_token: Option<String>,
}

/// A failure of the store or of the way to it, with its reason.
pub struct StoreError {
    pub reason: String,
}

/// Why a count gave no number.
pub enum CountError {
    /// The listing failed.
    Store(StoreError),
}

/// A count under way: which page to fetch next, and how many objects the
/// pages before it listed.
pub struct Counting {
    /// The key prefix that is listed.
    pub prefix: String,
    /// The marker of the page to fetch; `None` for the first page.
    pub continuation_token: Option<String>,
    /// The objects counted so far.
    pub total: u64,
}

/// Where a count stands after a page.
pub enum CountStep {
    /// There is more: fetch the page that this asks for.
    Next(Counting),
    /// The listing is exhausted; this is the number of objects.
    Done(u64),
    /// The listing failed. It is not tried again.
    Failed(CountError),
}

/// The key prefix under which the versions of a resource are stored.
pub open spec fn prefix_of(name: Seq<char>) -> Seq<char> {
    name + "/"@
}

/// Where a count stands after the outcome of the fetch that it asked for.
/// A page adds its entries to the total; its marker, if it has one, is
/// where the count goes on, and without one the count is done. A failure
/// ends the count.
pub open spec fn step_of(counting: Counting, outcome: Result<Page, StoreError>) -> CountStep {
    match outcome {
        Err(error) => CountStep::Failed(CountError::Store(error)),
        Ok(page) => match page.next_continuation_token {
            Some(token) => CountStep::Next(
                Counting {
                    prefix: counting.prefix,
                    continuation_token: Some(token),
                    total: (counting.total + page.entries) as u64,
                },
            ),
            None => CountStep::Done((counting.total + page.entries) as u64),
        },
    }
}

/// Where a count stands after a run of outcomes, taken in order for as
/// long as the count asks for another page.
pub open spec fn run_of(counting: Counting, outcomes: Seq<Result<Page, StoreError>>) -> CountStep
    decreases outcomes.len(),
{
    if outcomes.len() == 0 {
        CountStep::Next(counting)
    } else {
        match step_of(counting, outcomes[0]) {
            CountStep::Next(next) => run_of(next, outcomes.drop_first()),
            step => step,
        }
    }
}

/// The number of objects that a run of pages lists.
pub open spec fn entries_of(outcomes: Seq<Result<Page, StoreError>>) -> nat
    decreases outcomes.len(),
{
    if outcomes.len() == 0 {
        0
    } else {
        (match outcomes[0] {
            Ok(page) => page.entries as nat,
            Err(_) => 0,
        }) + entries_of(outcomes.drop_first())
    }
}

/// A complete listing: every fetch succeeded, and the last page is the
/// only one without a marker.
pub open spec fn complete_listing(outcomes: Seq<Result<Page, StoreError>>) -> bool {
    &&& outcomes.len() > 0
    &&& forall|i: int| 0 <= i < outcomes.len() ==> (#[trigger] outcomes[i]) is Ok
    &&& forall|i: int|
        0 <= i < outcomes.len() ==> ((#[trigger] outcomes[i])->Ok_0.next_continuation_token is None
            <==> i == outcomes.len() - 1)
}

/// Starts the count for a resource: the first page of the listing under
/// the resource's prefix, with nothing counted yet.
///
/// The name is taken as it is. Whoever calls has validated it.
pub fn begin_count(name: &str) -> (counting: Counting)
    ensures
        counting.prefix@ == prefix_of(name@),
        counting.continuation_token is None,
        counting.total == 0,
{
    Counting { prefix: name.to_owned().concat("/"), continuation_token: None, total: 0 }
}

/// Takes the outcome of the fetch that the count asked for.
///
/// The total must stay within `u64`.
pub fn count_page(counting: Counting, outcome: Result<Page, StoreError>) -> (step: CountStep)
    requires
        outcome matches Ok(page) ==> counting.total + page.entries <= u64::MAX,
    ensures
        step == step_of(counting, outcome),
{
    match outcome {
        Err(error) => CountStep::Failed(CountError::Store(error)),
        Ok(page) => {
            let total: u64 = counting.total + page.entries as u64;
            match page.next_continuation_token {
                Some(token) => CountStep::Next(
                    Counting { prefix: counting.prefix, continuation_token: Some(token), total },
                ),
                None => CountStep::Done(total),
            }
        },
    }
}

/// Over a complete listing the count is the number of objects on all of
/// its pages together, however many pages there are, as long as that
/// number fits `u64`.
pub proof fn count_is_sum_of_pages(counting: Counting, outcomes: Seq<Result<Page, StoreError>>)
    requires
        complete_listing(outcomes),
        counting.total + entries_of(outcomes) <= u64::MAX,
    ensures
        run_of(counting, outcomes) == CountStep::Done(
            (counting.total + entries_of(outcomes)) as u64,
        ),
    decreases outcomes.len(),
{
    let rest = outcomes.drop_first();
    if outcomes.len() == 1 {
        assert(rest.len() == 0);
        assert(entries_of(rest) == 0);
    } else {
        assert(outcomes[0]->Ok_0.next_continuation_token is Some);
        let next = step_of(counting, outcomes[0])->Next_0;
        assert forall|i: int| 0 <= i < rest.len() implies (#[trigger] rest[i]) is Ok && (
        rest[i]->Ok_0.next_continuation_token is None <==> i == rest.len() - 1) by {
            assert(rest[i] == outcomes[i + 1]);
        }
        count_is_sum_of_pages(next, rest);
    }
}

} // verus!
