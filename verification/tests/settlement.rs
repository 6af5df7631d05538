use af_transaction_api::error::SettlementError;
use af_transaction_api::gas_info::GasInfo;
use af_transaction_api::ids::SuiAddress;
use af_transaction_api::response::ExecutionResult;
use af_transaction_api::settlement::{
    ensure_confirmed, is_confirmed, Intent, PreparedTransaction, RequestType, ResponseOptions,
    SettlerAction, SettlerConfig, SettlerEvent, SettlerPhase, SettlerState, SignedTransaction,
    TransactionSettler,
};

fn sender() -> SuiAddress {
    SuiAddress::new(0, 0xa11ce)
}

fn prepared() -> PreparedTransaction {
    PreparedTransaction {
        tx_bytes: vec![1, 2, 3, 4],
        sender: sender(),
        gas: GasInfo { object: None, budget: 1000 },
    }
}

fn config(require_confirmation: bool) -> SettlerConfig {
    SettlerConfig {
        signer: sender(),
        intent: Intent::sui_transaction(),
        options: ResponseOptions::new().with_effects(),
        require_confirmation,
    }
}

fn result(confirmed: Option<bool>) -> ExecutionResult {
    ExecutionResult {
        digest: String::from("digest-3"),
        confirmed_local_execution: confirmed,
        effects: None,
        object_changes: None,
    }
}

/// A signer and a ledger with fixed answers, which count what they are asked.
struct Collaborators {
    signature: Result<Vec<u8>, String>,
    submission: Result<ExecutionResult, String>,
    signings: usize,
    submissions: usize,
}

fn settle(
    mut settler: TransactionSettler,
    with: &mut Collaborators,
) -> Result<ExecutionResult, SettlementError> {
    loop {
        let event = match settler.action() {
            SettlerAction::Sign { address, tx_bytes, intent } => {
                assert_eq!(address, sender());
                assert_eq!(tx_bytes, &vec![1, 2, 3, 4]);
                assert_eq!(intent, Intent { scope: 0, version: 0, app_id: 0 });
                with.signings += 1;
                match with.signature.clone() {
                    Ok(signature) => SettlerEvent::Signed { signature },
                    Err(message) => SettlerEvent::SigningFailed { message },
                }
            }
            SettlerAction::Submit { transaction, options: _, request_type } => {
                assert_eq!(request_type, RequestType::WaitForLocalExecution);
                assert_eq!(transaction.transaction, prepared());
                with.submissions += 1;
                match with.submission.clone() {
                    Ok(result) => SettlerEvent::Submitted { result },
                    Err(message) => SettlerEvent::SubmissionFailed { message },
                }
            }
            SettlerAction::Return => break,
        };
        settler = settler.step(event);
    }
    settler.into_result().unwrap()
}

#[test]
fn intent_of_a_user_transaction_is_all_zero() {
    assert_eq!(Intent::sui_transaction(), Intent { scope: 0, version: 0, app_id: 0 });
}

#[test]
fn response_options_builders_set_one_flag_each() {
    let none = ResponseOptions::new();
    assert_eq!(
        none,
        ResponseOptions {
            show_input: false,
            show_raw_input: false,
            show_effects: false,
            show_events: false,
            show_object_changes: false,
            show_balance_changes: false,
        }
    );
    assert_eq!(none.with_effects(), ResponseOptions { show_effects: true, ..none });
    assert_eq!(none.with_object_changes(), ResponseOptions { show_object_changes: true, ..none });
    assert_eq!(
        none.with_effects().with_object_changes(),
        ResponseOptions { show_effects: true, show_object_changes: true, ..none }
    );
}

#[test]
fn settlement_signs_then_submits_once() {
    let mut with = Collaborators {
        signature: Ok(vec![9, 9]),
        submission: Ok(result(Some(true))),
        signings: 0,
        submissions: 0,
    };
    let outcome = settle(TransactionSettler::new(config(false), prepared()), &mut with);
    assert_eq!(outcome, Ok(result(Some(true))));
    assert_eq!(with.signings, 1);
    assert_eq!(with.submissions, 1);
}

#[test]
fn submit_action_carries_signature_and_options() {
    let settler = TransactionSettler::new(config(false), prepared());
    let settler = settler.step(SettlerEvent::Signed { signature: vec![7, 8] });
    assert_eq!(
        settler.action(),
        SettlerAction::Submit {
            transaction: &SignedTransaction { transaction: prepared(), signature: vec![7, 8] },
            options: ResponseOptions::new().with_effects(),
            request_type: RequestType::WaitForLocalExecution,
        }
    );
    assert!(!settler.is_done());
}

#[test]
fn signing_failure_is_final_and_submits_nothing() {
    let mut with = Collaborators {
        signature: Err(String::from("no key for address")),
        submission: Ok(result(Some(true))),
        signings: 0,
        submissions: 0,
    };
    let outcome = settle(TransactionSettler::new(config(false), prepared()), &mut with);
    assert_eq!(
        outcome,
        Err(SettlementError::SigningFailed { message: String::from("no key for address") })
    );
    assert_eq!(with.signings, 1);
    assert_eq!(with.submissions, 0);
}

#[test]
fn submission_failure_is_passed_on_without_retry() {
    let mut with = Collaborators {
        signature: Ok(vec![9]),
        submission: Err(String::from("connection reset")),
        signings: 0,
        submissions: 0,
    };
    let outcome = settle(TransactionSettler::new(config(true), prepared()), &mut with);
    assert_eq!(
        outcome,
        Err(SettlementError::SubmissionFailed { message: String::from("connection reset") })
    );
    assert_eq!(with.submissions, 1);
}

#[test]
fn unconfirmed_result_is_handed_back_when_confirmation_is_not_required() {
    let mut with = Collaborators {
        signature: Ok(vec![9]),
        submission: Ok(result(Some(false))),
        signings: 0,
        submissions: 0,
    };
    let outcome = settle(TransactionSettler::new(config(false), prepared()), &mut with);
    assert_eq!(outcome, Ok(result(Some(false))));
}

#[test]
fn unconfirmed_result_fails_when_confirmation_is_required() {
    for confirmed in [Some(false), None] {
        let mut with = Collaborators {
            signature: Ok(vec![9]),
            submission: Ok(result(confirmed)),
            signings: 0,
            submissions: 0,
        };
        let outcome = settle(TransactionSettler::new(config(true), prepared()), &mut with);
        assert_eq!(outcome, Err(SettlementError::NotConfirmed));
        assert_eq!(with.submissions, 1);
    }
}

#[test]
fn confirmed_result_passes_when_confirmation_is_required() {
    let mut with = Collaborators {
        signature: Ok(vec![9]),
        submission: Ok(result(Some(true))),
        signings: 0,
        submissions: 0,
    };
    let outcome = settle(TransactionSettler::new(config(true), prepared()), &mut with);
    assert_eq!(outcome, Ok(result(Some(true))));
}

#[test]
fn confirmation_test_tells_the_three_values_apart() {
    assert!(is_confirmed(&result(Some(true))));
    assert!(!is_confirmed(&result(Some(false))));
    assert!(!is_confirmed(&result(None)));
    assert_eq!(ensure_confirmed(&result(Some(true))), Ok(()));
    assert_eq!(ensure_confirmed(&result(Some(false))), Err(SettlementError::NotConfirmed));
    assert_eq!(ensure_confirmed(&result(None)), Err(SettlementError::NotConfirmed));
}

#[test]
fn settlement_event_that_is_not_waited_for_changes_nothing() {
    let settler = TransactionSettler::new(config(false), prepared());
    let settler = settler.step(SettlerEvent::Submitted { result: result(Some(true)) });
    assert_eq!(settler, TransactionSettler::new(config(false), prepared()));
    let settler = settler.step(SettlerEvent::SubmissionFailed { message: String::from("x") });
    assert_eq!(settler, TransactionSettler::new(config(false), prepared()));
    let submitting = settler.step(SettlerEvent::Signed { signature: vec![1] });
    let same = submitting.step(SettlerEvent::Signed { signature: vec![2] });
    assert_eq!(
        same.state,
        SettlerState::Pending(SettlerPhase::Submitting(SignedTransaction {
            transaction: prepared(),
            signature: vec![1],
        }))
    );
    let same = same.step(SettlerEvent::SigningFailed { message: String::from("late") });
    assert!(!same.is_done());
}

#[test]
fn finished_settlement_stays_finished() {
    let settler = TransactionSettler::new(config(false), prepared());
    let done = settler.step(SettlerEvent::SigningFailed { message: String::from("no key") });
    assert!(done.is_done());
    assert_eq!(done.action(), SettlerAction::Return);
    let still = done.step(SettlerEvent::Signed { signature: vec![1] });
    assert_eq!(still.action(), SettlerAction::Return);
    assert_eq!(
        still.into_result(),
        Some(Err(SettlementError::SigningFailed { message: String::from("no key") }))
    );
}

#[test]
fn unfinished_settlement_has_no_result() {
    let settler = TransactionSettler::new(config(false), prepared());
    assert!(!settler.is_done());
    assert_eq!(settler.into_result(), None);
}
