use vstd::prelude::*;
use vstd::utf8::encode_utf8;

use crate::interpret::{allocation_of_bytes, extract_allocation_amount, interpret_eligibility,
    response_verdict, Verdict};
use crate::schemas::LinkWalletResponse;

verus! {

// ---------------------------------------------------------------------------
// The per-credential session workflow as an explicit state machine.
//
// One execution walks the fixed sequence: open session, verify it with an
// ephemeral identity, re-open it, link the real wallet, and — only when the
// link response says eligible — fetch the allocation. The caller performs
// the remote calls and feeds each result back as an event; every decision
// between the calls is made here.
// ---------------------------------------------------------------------------

/// A failure that ends one execution. It is local to that execution: the
/// scheduler goes on with the other credentials.
#[derive(Clone, Copy, Debug, PartialEq, Eq, Structural)]
pub enum WorkflowError {
    /// Network or proxy failure, or a non-success status.
    Transport,
    /// A response body that does not match the expected shape.
    Decode,
    /// A credential that is not a well-formed encoded secret key.
    InvalidCredential,
    /// Session verification answered with an explicit rejection.
    ProtocolRejected,
}

/// How one execution ended.
#[derive(Clone, Debug)]
pub enum ExecutionOutcome {
    /// The wallet is eligible; it leaves a record with this allocation
    /// amount (`None` when the amount could not be obtained).
    Recorded(Option<u64>),
    /// A normal end with no output: not eligible, or indeterminate.
    NoRecord(Verdict),
    /// The execution failed; it leaves no record.
    Failed(WorkflowError),
}

/// Where one execution stands.
#[derive(Clone, Debug)]
pub enum WorkflowState {
    /// Waiting for the first session-open call.
    AwaitFirstAuth,
    /// Waiting for the session-verification call.
    AwaitVerify,
    /// Waiting for the second session-open call.
    AwaitSecondAuth,
    /// Waiting for the wallet-link call.
    AwaitLink,
    /// The response said eligible; waiting for the wallets fetch.
    AwaitFetch,
    /// The execution is over.
    Finished(ExecutionOutcome),
}

/// The remote call that a state is waiting for.
#[derive(Clone, Copy, Debug, PartialEq, Eq, Structural)]
pub enum ProtocolCall {
    OpenSession,
    VerifySession,
    ReopenSession,
    LinkWallet,
    FetchWallets,
}

/// The result of one remote call, fed back into the workflow.
pub enum WorkflowEvent {
    /// A session-open call came back (`Err`: transport or decode failure).
    AuthCompleted(Result<(), WorkflowError>),
    /// The verification call came back with its success flag.
    VerifyCompleted(Result<bool, WorkflowError>),
    /// The link call came back with its decoded response.
    LinkCompleted(Result<LinkWalletResponse, WorkflowError>),
    /// The wallets fetch came back with its raw text payload.
    FetchCompleted(Result<String, WorkflowError>),
}

/// The call that `state` is waiting for, if it is not finished.
pub open spec fn call_of_state(state: WorkflowState) -> Option<ProtocolCall> {
    match state {
        WorkflowState::AwaitFirstAuth => Some(ProtocolCall::OpenSession),
        WorkflowState::AwaitVerify => Some(ProtocolCall::VerifySession),
        WorkflowState::AwaitSecondAuth => Some(ProtocolCall::ReopenSession),
        WorkflowState::AwaitLink => Some(ProtocolCall::LinkWallet),
        WorkflowState::AwaitFetch => Some(ProtocolCall::FetchWallets),
        WorkflowState::Finished(_) => None,
    }
}

/// The whole transition relation of the workflow. An event that does not
/// answer the call the state is waiting for changes nothing. No step is
/// retried here: any failure finishes the execution, and a fetch failure
/// still leaves a record with an unknown amount.
pub open spec fn step_spec(state: WorkflowState, event: WorkflowEvent) -> WorkflowState {
    match (state, event) {
        (WorkflowState::AwaitFirstAuth, WorkflowEvent::AuthCompleted(r)) => match r {
            Ok(_) => WorkflowState::AwaitVerify,
            Err(e) => WorkflowState::Finished(ExecutionOutcome::Failed(e)),
        },
        (WorkflowState::AwaitVerify, WorkflowEvent::VerifyCompleted(r)) => match r {
            Ok(success) => if success {
                WorkflowState::AwaitSecondAuth
            } else {
                WorkflowState::Finished(ExecutionOutcome::Failed(WorkflowError::ProtocolRejected))
            },
            Err(e) => WorkflowState::Finished(ExecutionOutcome::Failed(e)),
        },
        (WorkflowState::AwaitSecondAuth, WorkflowEvent::AuthCompleted(r)) => match r {
            Ok(_) => WorkflowState::AwaitLink,
            Err(e) => WorkflowState::Finished(ExecutionOutcome::Failed(e)),
        },
        (WorkflowState::AwaitLink, WorkflowEvent::LinkCompleted(r)) => match r {
            Ok(items) => {
                let verdict = response_verdict(items@);
                if verdict is Eligible {
                    WorkflowState::AwaitFetch
                } else {
                    WorkflowState::Finished(ExecutionOutcome::NoRecord(verdict))
                }
            },
            Err(e) => WorkflowState::Finished(ExecutionOutcome::Failed(e)),
        },
        (WorkflowState::AwaitFetch, WorkflowEvent::FetchCompleted(r)) => match r {
            Ok(text) => WorkflowState::Finished(
                ExecutionOutcome::Recorded(allocation_of_bytes(encode_utf8(text.view()))),
            ),
            Err(_) => WorkflowState::Finished(ExecutionOutcome::Recorded(None)),
        },
        (s, _) => s,
    }
}

/// The call that `state` waits for, or `None` once it is finished.
pub fn next_call(state: &WorkflowState) -> (r: Option<ProtocolCall>)
    ensures
        r == call_of_state(*state),
{
    match state {
        WorkflowState::AwaitFirstAuth => Some(ProtocolCall::OpenSession),
        WorkflowState::AwaitVerify => Some(ProtocolCall::VerifySession),
        WorkflowState::AwaitSecondAuth => Some(ProtocolCall::ReopenSession),
        WorkflowState::AwaitLink => Some(ProtocolCall::LinkWallet),
        WorkflowState::AwaitFetch => Some(ProtocolCall::FetchWallets),
        WorkflowState::Finished(_) => None,
    }
}

/// Advances the workflow by one event.
pub fn step(state: WorkflowState, event: WorkflowEvent) -> (next: WorkflowState)
    ensures
        next == step_spec(state, event),
{
    match (state, event) {
        (WorkflowState::AwaitFirstAuth, WorkflowEvent::AuthCompleted(r)) => match r {
            Ok(_) => WorkflowState::AwaitVerify,
            Err(e) => WorkflowState::Finished(ExecutionOutcome::Failed(e)),
        },
        (WorkflowState::AwaitVerify, WorkflowEvent::VerifyCompleted(r)) => match r {
            Ok(success) => if success {
                WorkflowState::AwaitSecondAuth
            } else {
                WorkflowState::Finished(ExecutionOutcome::Failed(WorkflowError::ProtocolRejected))
            },
            Err(e) => WorkflowState::Finished(ExecutionOutcome::Failed(e)),
        },
        (WorkflowState::AwaitSecondAuth, WorkflowEvent::AuthCompleted(r)) => match r {
            Ok(_) => WorkflowState::AwaitLink,
            Err(e) => WorkflowState::Finished(ExecutionOutcome::Failed(e)),
        },
        (WorkflowState::AwaitLink, WorkflowEvent::LinkCompleted(r)) => match r {
            Ok(items) => {
                let verdict = interpret_eligibility(&items);
                if matches!(verdict, Verdict::Eligible) {
                    WorkflowState::AwaitFetch
                } else {
                    WorkflowState::Finished(ExecutionOutcome::NoRecord(verdict))
                }
            },
            Err(e) => WorkflowState::Finished(ExecutionOutcome::Failed(e)),
        },
        (WorkflowState::AwaitFetch, WorkflowEvent::FetchCompleted(r)) => match r {
            Ok(text) => {
                let amount = extract_allocation_amount(text.as_str());
                WorkflowState::Finished(ExecutionOutcome::Recorded(amount))
            },
            Err(_) => WorkflowState::Finished(ExecutionOutcome::Recorded(None)),
        },
        (s, _) => s,
    }
}

/// A finished execution stays finished: no event moves it anywhere else.
pub proof fn lemma_finished_is_absorbing(outcome: ExecutionOutcome, event: WorkflowEvent)
    ensures
        step_spec(WorkflowState::Finished(outcome), event) == WorkflowState::Finished(outcome),
{
}

/// An execution reaches the fetch only when the service said eligible: a
/// step out of the link state lands in the fetch state only if the
/// response reads as eligible.
pub proof fn lemma_fetch_needs_eligible(event: WorkflowEvent)
    ensures
        step_spec(WorkflowState::AwaitLink, event) is AwaitFetch ==> (event matches
            WorkflowEvent::LinkCompleted(Ok(items)) && response_verdict(items@)
                is Eligible),
{
}

} // verus!
