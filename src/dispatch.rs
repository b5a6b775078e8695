use vstd::prelude::*;
use crate::error::ClientError;
use crate::registry::Client;

verus! {

/// What the caller of a dispatch does next: send the request to the endpoint
/// at an index of the registry, or stop with the call's result.
#[derive(Debug)]
pub enum CallStep<R> {
    Send(usize),
    Done(Result<R, ClientError>),
}

/// The first step of a call over `n` endpoints.
pub open spec fn first_step<R>(n: nat) -> CallStep<R> {
    if n == 0 {
        CallStep::Done(Err(ClientError::NoNodesAvailable))
    } else {
        CallStep::Send(0)
    }
}

/// The step after the endpoint at `index` of `n` gave `outcome`: the first
/// success ends the call, a failure moves on, and the last failure ends it.
pub open spec fn next_step<R>(n: nat, index: nat, outcome: Result<R, ClientError>) -> CallStep<R> {
    match outcome {
        Ok(v) => CallStep::Done(Ok(v)),
        Err(e) => if index + 1 < n {
            CallStep::Send((index + 1) as usize)
        } else {
            CallStep::Done(Err(e))
        },
    }
}

/// Runs the steps from `step`, where the endpoint at index `j` gives
/// `outcomes[j]`: the call's result and how many endpoints were contacted.
pub open spec fn drive<R>(outcomes: Seq<Result<R, ClientError>>, step: CallStep<R>, sent: nat) -> (
    Result<R, ClientError>,
    nat,
)
    decreases outcomes.len() - sent,
{
    match step {
        CallStep::Done(r) => (r, sent),
        CallStep::Send(i) => if sent < outcomes.len() && i < outcomes.len() {
            drive(outcomes, next_step(outcomes.len(), i as nat, outcomes[i as int]), sent + 1)
        } else {
            (Err(ClientError::NoNodesAvailable), sent)
        },
    }
}

/// The result and the number of endpoints contacted for a whole call.
pub open spec fn dispatch<R>(outcomes: Seq<Result<R, ClientError>>) -> (Result<R, ClientError>, nat) {
    drive(outcomes, first_step(outcomes.len()), 0)
}

impl Client {
    /// The first step of a call over the active endpoints. Reads nothing but the
    /// registry and changes nothing.
    pub fn begin_call<R>(&self) -> (r: CallStep<R>)
        ensures
            r == first_step::<R>(self.nodes@.len()),
    {
        if self.nodes.len() == 0 {
            CallStep::Done(Err(ClientError::NoNodesAvailable))
        } else {
            CallStep::Send(0)
        }
    }

    /// The step after the endpoint at `index` gave `outcome`.
    pub fn after_attempt<R>(&self, index: usize, outcome: Result<R, ClientError>) -> (r: CallStep<R>)
        requires
            index < self.nodes@.len(),
        ensures
            r == next_step(self.nodes@.len(), index as nat, outcome),
    {
        match outcome {
            Ok(v) => CallStep::Done(Ok(v)),
            Err(e) => if index < self.nodes.len() - 1 {
                CallStep::Send(index + 1)
            } else {
                CallStep::Done(Err(e))
            },
        }
    }
}

proof fn lemma_drive_to_success<R>(outcomes: Seq<Result<R, ClientError>>, i: int, k: int)
    requires
        0 <= i <= k < outcomes.len() <= usize::MAX,
        outcomes[k] is Ok,
        forall|j: int| 0 <= j < k ==> outcomes[j] is Err,
    ensures
        drive(outcomes, CallStep::Send(i as usize), i as nat) == (outcomes[k], (k + 1) as nat),
    decreases k - i,
{
    let n = outcomes.len();
    assert(((i as usize) as nat) == i);
    if i < k {
        assert(next_step(n, i as nat, outcomes[i]) == CallStep::<R>::Send((i + 1) as usize));
        lemma_drive_to_success(outcomes, i + 1, k);
    } else {
        assert(next_step(n, i as nat, outcomes[i]) == CallStep::Done(outcomes[k]));
        assert(drive(outcomes, CallStep::Done(outcomes[k]), (i + 1) as nat) == (outcomes[k], (k + 1) as nat));
    }
}

proof fn lemma_drive_all_fail<R>(outcomes: Seq<Result<R, ClientError>>, i: int)
    requires
        0 <= i < outcomes.len() <= usize::MAX,
        forall|j: int| 0 <= j < outcomes.len() ==> outcomes[j] is Err,
    ensures
        drive(outcomes, CallStep::Send(i as usize), i as nat) == (
            outcomes.last(),
            outcomes.len(),
        ),
    decreases outcomes.len() - i,
{
    let n = outcomes.len();
    assert(((i as usize) as nat) == i);
    if i + 1 < n {
        assert(next_step(n, i as nat, outcomes[i]) == CallStep::<R>::Send((i + 1) as usize));
        lemma_drive_all_fail(outcomes, i + 1);
    } else {
        assert(next_step(n, i as nat, outcomes[i]) == CallStep::Done(outcomes.last()));
        assert(drive(outcomes, CallStep::Done(outcomes.last()), (i + 1) as nat) == (outcomes.last(), n));
    }
}

/// A call stops at the first endpoint that gives a result: it returns that
/// result, and no endpoint after it is contacted.
pub proof fn lemma_first_success_wins<R>(outcomes: Seq<Result<R, ClientError>>, k: int)
    requires
        0 <= k < outcomes.len() <= usize::MAX,
        outcomes[k] is Ok,
        forall|j: int| 0 <= j < k ==> outcomes[j] is Err,
    ensures
        dispatch(outcomes) == (outcomes[k], (k + 1) as nat),
{
    lemma_drive_to_success(outcomes, 0, k);
}

/// When every endpoint fails, each is contacted once, in order, and the call
/// fails with the last endpoint's error.
pub proof fn lemma_last_failure_wins<R>(outcomes: Seq<Result<R, ClientError>>)
    requires
        0 < outcomes.len() <= usize::MAX,
        forall|j: int| 0 <= j < outcomes.len() ==> outcomes[j] is Err,
    ensures
        dispatch(outcomes) == (outcomes.last(), outcomes.len()),
{
    lemma_drive_all_fail(outcomes, 0);
}

/// A call over no endpoints fails with `NoNodesAvailable` and contacts none.
pub proof fn lemma_no_nodes<R>(outcomes: Seq<Result<R, ClientError>>)
    requires
        outcomes.len() == 0,
    ensures
        dispatch(outcomes) == (Err::<R, ClientError>(ClientError::NoNodesAvailable), 0nat),
{
}

} // verus!
