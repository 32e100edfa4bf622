use wallet_linker::interpret::Verdict;
use wallet_linker::schemas::{Eligibility, JsonData, JsonEligibility, ResponseItem, ResultData};
use wallet_linker::workflow::{next_call, step, ExecutionOutcome, ProtocolCall, WorkflowError,
    WorkflowEvent, WorkflowState};

fn eligible_response(word: &str) -> Vec<Option<ResponseItem>> {
    vec![Some(ResponseItem {
        result: Some(ResultData {
            data: Some(JsonData {
                json: Some(JsonEligibility {
                    eligibility: Some(Eligibility { eligibility: Some(word.to_string()) }),
                }),
            }),
        }),
    })]
}

#[test]
fn happy_path_records_the_allocation() {
    let s = WorkflowState::AwaitFirstAuth;
    assert_eq!(next_call(&s), Some(ProtocolCall::OpenSession));
    let s = step(s, WorkflowEvent::AuthCompleted(Ok(())));
    assert_eq!(next_call(&s), Some(ProtocolCall::VerifySession));
    let s = step(s, WorkflowEvent::VerifyCompleted(Ok(true)));
    assert_eq!(next_call(&s), Some(ProtocolCall::ReopenSession));
    let s = step(s, WorkflowEvent::AuthCompleted(Ok(())));
    assert_eq!(next_call(&s), Some(ProtocolCall::LinkWallet));
    let s = step(s, WorkflowEvent::LinkCompleted(Ok(eligible_response("eligible"))));
    assert_eq!(next_call(&s), Some(ProtocolCall::FetchWallets));
    let s = step(
        s,
        WorkflowEvent::FetchCompleted(Ok("2:{\"allocationAmount\":1500000}".to_string())),
    );
    assert_eq!(next_call(&s), None);
    match s {
        WorkflowState::Finished(ExecutionOutcome::Recorded(amount)) => {
            assert_eq!(amount, Some(1500000));
        },
        _ => panic!("expected a recorded outcome"),
    }
}

#[test]
fn verification_rejection_fails_the_execution() {
    let s = step(WorkflowState::AwaitVerify, WorkflowEvent::VerifyCompleted(Ok(false)));
    match s {
        WorkflowState::Finished(ExecutionOutcome::Failed(e)) => {
            assert_eq!(e, WorkflowError::ProtocolRejected);
        },
        _ => panic!("expected a failure"),
    }
}

#[test]
fn transport_failure_fails_the_execution() {
    let s = step(
        WorkflowState::AwaitFirstAuth,
        WorkflowEvent::AuthCompleted(Err(WorkflowError::Transport)),
    );
    assert!(matches!(s, WorkflowState::Finished(ExecutionOutcome::Failed(WorkflowError::Transport))));
    let s = step(
        WorkflowState::AwaitVerify,
        WorkflowEvent::VerifyCompleted(Err(WorkflowError::Decode)),
    );
    assert!(matches!(s, WorkflowState::Finished(ExecutionOutcome::Failed(WorkflowError::Decode))));
    let s = step(
        WorkflowState::AwaitLink,
        WorkflowEvent::LinkCompleted(Err(WorkflowError::Transport)),
    );
    assert!(matches!(s, WorkflowState::Finished(ExecutionOutcome::Failed(WorkflowError::Transport))));
}

#[test]
fn not_eligible_ends_with_no_record() {
    let s = step(
        WorkflowState::AwaitLink,
        WorkflowEvent::LinkCompleted(Ok(eligible_response("not-eligible"))),
    );
    match s {
        WorkflowState::Finished(ExecutionOutcome::NoRecord(v)) => {
            assert_eq!(v, Verdict::NotEligible);
        },
        _ => panic!("expected no record"),
    }
}

#[test]
fn indeterminate_ends_with_no_record() {
    let s = step(WorkflowState::AwaitLink, WorkflowEvent::LinkCompleted(Ok(Vec::new())));
    match s {
        WorkflowState::Finished(ExecutionOutcome::NoRecord(v)) => {
            assert_eq!(v, Verdict::Indeterminate);
        },
        _ => panic!("expected no record"),
    }
}

#[test]
fn fetch_failure_still_records_without_amount() {
    let s = step(
        WorkflowState::AwaitFetch,
        WorkflowEvent::FetchCompleted(Err(WorkflowError::Transport)),
    );
    match s {
        WorkflowState::Finished(ExecutionOutcome::Recorded(amount)) => {
            assert_eq!(amount, None);
        },
        _ => panic!("expected a recorded outcome"),
    }
}

#[test]
fn finished_state_ignores_further_events() {
    let s = WorkflowState::Finished(ExecutionOutcome::NoRecord(Verdict::Indeterminate));
    let s = step(s, WorkflowEvent::AuthCompleted(Ok(())));
    assert!(matches!(
        s,
        WorkflowState::Finished(ExecutionOutcome::NoRecord(Verdict::Indeterminate))
    ));
}

#[test]
fn mismatched_event_changes_nothing() {
    let s = step(WorkflowState::AwaitFirstAuth, WorkflowEvent::VerifyCompleted(Ok(true)));
    assert!(matches!(s, WorkflowState::AwaitFirstAuth));
}
