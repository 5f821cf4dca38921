use vstd::prelude::*;
use crate::channel::DeliverySender;
use crate::lift::Lift;

verus! {

/// Why a request to the remote service produced no usable result.
#[derive(Clone, Copy, Debug, PartialEq, Eq, Structural)]
pub enum FetchError {
    /// The service could not be reached (connection refused, timeout, DNS).
    Transport,
    /// The service answered with a status code other than success.
    Status(u16),
    /// The body did not have the shape of a list of lift records.
    Decode,
}

/// The path, under the service's base address, where lifts are read and
/// created.
pub const LIFTS_PATH: &'static str = "/api/workout/lifts";

/// The address of the lifts endpoint under `base`.
pub fn lifts_url(base: &str) -> (r: String)
    ensures
        r@ == base@ + LIFTS_PATH@,
{
    base.to_owned().concat(LIFTS_PATH)
}

/// What a fetch outcome hands to the UI thread: the lifts of a successful
/// fetch, nothing for a failed one.
pub open spec fn delivery_of(outcome: Result<Vec<Lift>, FetchError>) -> Option<Vec<Lift>> {
    match outcome {
        Ok(lifts) => Some(lifts),
        Err(_) => None,
    }
}

/// Decides what a finished fetch delivers: a failure of any kind is
/// contained here and delivers nothing.
pub fn fetch_delivery(outcome: Result<Vec<Lift>, FetchError>) -> (r: Option<Vec<Lift>>)
    ensures
        r == delivery_of(outcome),
{
    match outcome {
        Ok(lifts) => Some(lifts),
        Err(_) => None,
    }
}

/// The results that a run of fetch outcomes sends, in order: the lifts of
/// each success, nothing for a failure.
pub open spec fn delivered_by(outcomes: Seq<Result<Vec<Lift>, FetchError>>) -> Seq<Vec<Lift>>
    decreases outcomes.len(),
{
    if outcomes.len() == 0 {
        Seq::empty()
    } else {
        let earlier = delivered_by(outcomes.drop_last());
        match delivery_of(outcomes.last()) {
            Some(lifts) => earlier.push(lifts),
            None => earlier,
        }
    }
}

/// Finishes a background fetch: sends its lifts to the UI thread, once, when
/// it succeeded, and nothing when it failed. Returns whether it sent, so
/// that the caller asks for a redraw only then.
pub fn complete_fetch(tx: &mut DeliverySender, outcome: Result<Vec<Lift>, FetchError>) -> (r: bool)
    ensures
        r == outcome is Ok,
        final(tx).sent() == match delivery_of(outcome) {
            Some(lifts) => old(tx).sent().push(lifts),
            None => old(tx).sent(),
        },
{
    match fetch_delivery(outcome) {
        Some(lifts) => {
            tx.deliver(lifts);
            true
        },
        None => false,
    }
}

/// Completing one more fetch extends what a run of fetches sent by exactly
/// what `complete_fetch` sends for it: a sending half that has sent
/// `delivered_by(outcomes)` has sent `delivered_by(outcomes.push(outcome))`
/// once it completes `outcome`.
pub proof fn lemma_delivered_by_step(
    outcomes: Seq<Result<Vec<Lift>, FetchError>>,
    outcome: Result<Vec<Lift>, FetchError>,
)
    ensures
        delivered_by(outcomes.push(outcome)) == match delivery_of(outcome) {
            Some(lifts) => delivered_by(outcomes).push(lifts),
            None => delivered_by(outcomes),
        },
{
    assert(outcomes.push(outcome).drop_last() =~= outcomes);
}

/// Fetches that all failed send nothing.
pub proof fn lemma_failures_deliver_nothing(outcomes: Seq<Result<Vec<Lift>, FetchError>>)
    requires
        forall|i: int| 0 <= i < outcomes.len() ==> (#[trigger] outcomes[i]) is Err,
    ensures
        delivered_by(outcomes).len() == 0,
    decreases outcomes.len(),
{
    if outcomes.len() > 0 {
        lemma_failures_deliver_nothing(outcomes.drop_last());
    }
}

} // verus!
