use af_transaction_api::coin::Coin;
use af_transaction_api::error::{ResponseError, SelectionError, SettlementError};
use af_transaction_api::gas_info::GasInfo;
use af_transaction_api::ids::{ObjectId, SuiAddress};
use af_transaction_api::response::{ExecutionResult, ObjectChange, StructTag};
use af_transaction_api::selection::{
    find_split_candidates, CoinSelector, PaymentRequest, SelectorAction, SelectorEvent,
    SelectorState,
};
use af_transaction_api::settlement::{
    Intent, PreparedTransaction, RequestType, ResponseOptions, SettlerAction, SettlerEvent,
};
use af_transaction_api::signed_transaction_api::SignedTransactionApi;

const SUI: &str = "0x2::sui::SUI";

fn sender() -> SuiAddress {
    SuiAddress::new(0, 0xa11ce)
}

fn id(n: u128) -> ObjectId {
    ObjectId::new(0, n)
}

fn coin(n: u128, balance: u64) -> Coin {
    Coin { coin_type: String::from(SUI), coin_object_id: id(n), balance }
}

fn coin_tag(token: &str) -> StructTag {
    StructTag {
        address: id(2),
        module: String::from("coin"),
        name: String::from("Coin"),
        type_params: vec![String::from(token)],
    }
}

fn gas() -> GasInfo {
    GasInfo { object: Some(id(0x6a5)), budget: 5000 }
}

fn selector(amount: u64) -> CoinSelector {
    SignedTransactionApi::new(sender()).get_coin_amount(amount, String::from(SUI), gas())
}

/// A ledger that holds coins, splits them, and refuses a coin that was
/// already used up. It counts every submission that reaches it.
struct MockLedger {
    coins: Vec<Coin>,
    consumed: Vec<ObjectId>,
    created: Vec<(ObjectId, u64)>,
    next_id: u128,
    submissions: usize,
    lists: usize,
    confirm: Option<bool>,
    report_changes: bool,
    hide_new_coins: bool,
    fail_list: bool,
    fail_build: bool,
    fail_sign: bool,
    fail_read: bool,
}

fn ledger(coins: Vec<Coin>) -> MockLedger {
    MockLedger {
        coins,
        consumed: Vec::new(),
        created: Vec::new(),
        next_id: 0x1000,
        submissions: 0,
        lists: 0,
        confirm: Some(true),
        report_changes: true,
        hide_new_coins: false,
        fail_list: false,
        fail_build: false,
        fail_sign: false,
        fail_read: false,
    }
}

fn encode(coin: ObjectId, amounts: &[u64]) -> Vec<u8> {
    let mut bytes = coin.lo.to_be_bytes().to_vec();
    for amount in amounts {
        bytes.extend_from_slice(&amount.to_be_bytes());
    }
    bytes
}

fn decode(bytes: &[u8]) -> (ObjectId, Vec<u64>) {
    let mut lo = [0u8; 16];
    lo.copy_from_slice(&bytes[..16]);
    let mut amounts = Vec::new();
    let mut at = 16;
    while at < bytes.len() {
        let mut word = [0u8; 8];
        word.copy_from_slice(&bytes[at..at + 8]);
        amounts.push(u64::from_be_bytes(word));
        at += 8;
    }
    (ObjectId::new(0, u128::from_be_bytes(lo)), amounts)
}

impl MockLedger {
    fn submit(&mut self, tx_bytes: &[u8], options: ResponseOptions) -> Result<ExecutionResult, String> {
        self.submissions += 1;
        let (coin, amounts) = decode(tx_bytes);
        if self.consumed.contains(&coin) {
            return Err(String::from("input object is no longer available"));
        }
        self.consumed.push(coin);
        let mut changes = vec![ObjectChange::Other];
        for amount in amounts {
            let fresh = id(self.next_id);
            self.next_id += 1;
            self.created.push((fresh, amount));
            if !self.hide_new_coins {
                changes.push(ObjectChange::Created {
                    object_id: fresh,
                    object_type: coin_tag(SUI),
                });
            }
        }
        Ok(ExecutionResult {
            digest: String::from("split-digest"),
            confirmed_local_execution: self.confirm,
            effects: None,
            object_changes: if self.report_changes && options.show_object_changes {
                Some(changes)
            } else {
                None
            },
        })
    }

    fn answer(&mut self, action: SelectorAction<'_>) -> Option<SelectorEvent> {
        Some(match action {
            SelectorAction::ListCoins { owner, coin_type } => {
                assert_eq!(owner, sender());
                assert_eq!(coin_type, SUI);
                self.lists += 1;
                if self.fail_list {
                    SelectorEvent::LedgerFailed { message: String::from("list failed") }
                } else {
                    SelectorEvent::Coins { coins: self.coins.clone() }
                }
            }
            SelectorAction::BuildSplit { signer, coin_object_id, split_amounts, gas, gas_budget } => {
                assert_eq!(signer, sender());
                assert_eq!(gas, Some(id(0x6a5)));
                assert_eq!(gas_budget, 5000);
                if self.fail_build {
                    SelectorEvent::LedgerFailed { message: String::from("build failed") }
                } else {
                    SelectorEvent::SplitBuilt {
                        transaction: PreparedTransaction {
                            tx_bytes: encode(coin_object_id, &split_amounts),
                            sender: signer,
                            gas: GasInfo { object: gas, budget: gas_budget },
                        },
                    }
                }
            }
            SelectorAction::Settle(SettlerAction::Sign { address, tx_bytes, intent }) => {
                assert_eq!(address, sender());
                assert_eq!(intent, Intent::sui_transaction());
                SelectorEvent::Settlement(if self.fail_sign {
                    SettlerEvent::SigningFailed { message: String::from("no key") }
                } else {
                    SettlerEvent::Signed { signature: tx_bytes.iter().rev().cloned().collect() }
                })
            }
            SelectorAction::Settle(SettlerAction::Submit { transaction, options, request_type }) => {
                assert_eq!(request_type, RequestType::WaitForLocalExecution);
                assert!(options.show_effects);
                assert!(options.show_object_changes);
                SelectorEvent::Settlement(
                    match self.submit(&transaction.transaction.tx_bytes, options) {
                        Ok(result) => SettlerEvent::Submitted { result },
                        Err(message) => SettlerEvent::SubmissionFailed { message },
                    },
                )
            }
            SelectorAction::Settle(SettlerAction::Return) => unreachable!(),
            SelectorAction::ReadCoin { object_id } => {
                if self.fail_read {
                    SelectorEvent::LedgerFailed { message: String::from("read failed") }
                } else {
                    let found = self.created.iter().find(|(id, _)| *id == object_id).unwrap();
                    SelectorEvent::CoinRead { balance: found.1 }
                }
            }
            SelectorAction::Return => return None,
        })
    }
}

/// Does what the selector asks for once; `Err` hands the selector back when
/// it is over.
fn advance(selector: CoinSelector, ledger: &mut MockLedger) -> Result<CoinSelector, CoinSelector> {
    let event = ledger.answer(selector.action());
    match event {
        Some(event) => Ok(selector.step(event)),
        None => Err(selector),
    }
}

fn run(mut selector: CoinSelector, ledger: &mut MockLedger) -> Result<ObjectId, SelectionError> {
    loop {
        selector = match advance(selector, ledger) {
            Ok(next) => next,
            Err(done) => return done.into_result().unwrap(),
        };
    }
}

#[test]
fn exact_match_is_returned_and_nothing_is_submitted() {
    let mut l = ledger(vec![coin(1, 30), coin(2, 50), coin(3, 80), coin(4, 50)]);
    assert_eq!(run(selector(50), &mut l), Ok(id(2)));
    assert_eq!(l.submissions, 0);
    assert_eq!(l.lists, 1);
}

#[test]
fn exact_match_after_a_greater_coin_still_wins() {
    let mut l = ledger(vec![coin(1, 90), coin(2, 50)]);
    assert_eq!(run(selector(50), &mut l), Ok(id(2)));
    assert_eq!(l.submissions, 0);
}

#[test]
fn greater_coin_is_split_by_one_submission() {
    let mut l = ledger(vec![coin(1, 30), coin(2, 80), coin(3, 10)]);
    let chosen = run(selector(50), &mut l).unwrap();
    assert_eq!(l.submissions, 1);
    assert_eq!(l.consumed, vec![id(2)]);
    assert_eq!(l.created, vec![(id(0x1000), 50), (id(0x1001), 30)]);
    assert_eq!(chosen, id(0x1000));
}

#[test]
fn last_greater_coin_is_the_one_that_is_split() {
    let mut l = ledger(vec![coin(1, 70), coin(2, 20), coin(3, 90), coin(4, 60), coin(5, 5)]);
    let chosen = run(selector(50), &mut l).unwrap();
    assert_eq!(l.consumed, vec![id(4)]);
    assert_eq!(l.created, vec![(id(0x1000), 50), (id(0x1001), 10)]);
    assert_eq!(chosen, id(0x1000));
    assert_eq!(l.submissions, 1);
}

#[test]
fn split_asks_for_the_amount_and_the_remainder() {
    let s = selector(50).step(SelectorEvent::Coins { coins: vec![coin(1, 30), coin(2, 80)] });
    assert_eq!(
        s.action(),
        SelectorAction::BuildSplit {
            signer: sender(),
            coin_object_id: id(2),
            split_amounts: vec![50, 30],
            gas: Some(id(0x6a5)),
            gas_budget: 5000,
        }
    );
}

#[test]
fn split_of_the_largest_balance_does_not_overflow() {
    let s = selector(1).step(SelectorEvent::Coins { coins: vec![coin(1, u64::MAX)] });
    assert_eq!(
        s.state,
        SelectorState::BuildingSplit { coin_object_id: id(1), remainder: u64::MAX - 1 }
    );
}

#[test]
fn second_new_coin_is_found_when_the_first_holds_another_amount() {
    let mut l = ledger(vec![coin(1, 80)]);
    let chosen = run(selector(30), &mut l).unwrap();
    assert_eq!(l.created, vec![(id(0x1000), 30), (id(0x1001), 50)]);
    assert_eq!(chosen, id(0x1000));
    let s = selector(50);
    let s = s.step(SelectorEvent::Coins { coins: vec![coin(1, 80)] });
    let s = s.step(SelectorEvent::SplitBuilt {
        transaction: PreparedTransaction { tx_bytes: vec![1], sender: sender(), gas: gas() },
    });
    let s = s.step(SelectorEvent::Settlement(SettlerEvent::Signed { signature: vec![2] }));
    let s = s.step(SelectorEvent::Settlement(SettlerEvent::Submitted {
        result: ExecutionResult {
            digest: String::from("d"),
            confirmed_local_execution: Some(true),
            effects: None,
            object_changes: Some(vec![
                ObjectChange::Created { object_id: id(7), object_type: coin_tag(SUI) },
                ObjectChange::Created { object_id: id(8), object_type: coin_tag(SUI) },
            ]),
        },
    }));
    assert_eq!(s.action(), SelectorAction::ReadCoin { object_id: id(7) });
    let s = s.step(SelectorEvent::CoinRead { balance: 30 });
    assert_eq!(s.action(), SelectorAction::ReadCoin { object_id: id(8) });
    let s = s.step(SelectorEvent::CoinRead { balance: 50 });
    assert_eq!(s.into_result(), Some(Ok(id(8))));
}

#[test]
fn insufficient_balance_fails_and_nothing_is_submitted() {
    let mut l = ledger(vec![coin(1, 30), coin(2, 49), coin(3, 0)]);
    assert_eq!(
        run(selector(50), &mut l),
        Err(SelectionError::InsufficientBalance {
            address: sender(),
            coin_type: String::from(SUI),
            amount: 50,
        })
    );
    assert_eq!(l.submissions, 0);
}

#[test]
fn no_coins_at_all_is_insufficient_balance() {
    let mut l = ledger(Vec::new());
    assert_eq!(
        run(selector(1), &mut l),
        Err(SelectionError::InsufficientBalance {
            address: sender(),
            coin_type: String::from(SUI),
            amount: 1,
        })
    );
    assert_eq!(l.submissions, 0);
}

#[test]
fn second_of_two_concurrent_splits_fails_at_submission() {
    let mut l = ledger(vec![coin(1, 30), coin(2, 80)]);
    let mut first = selector(50);
    let mut second = selector(50);
    // Both list, build and sign before either submits.
    for _ in 0..3 {
        first = advance(first, &mut l).unwrap();
        second = advance(second, &mut l).unwrap();
    }
    assert!(matches!(first.action(), SelectorAction::Settle(SettlerAction::Submit { .. })));
    assert!(matches!(second.action(), SelectorAction::Settle(SettlerAction::Submit { .. })));
    let first = run(first, &mut l);
    assert_eq!(first, Ok(id(0x1000)));
    assert_eq!(l.submissions, 1);
    let second = run(second, &mut l);
    assert_eq!(
        second,
        Err(SelectionError::Settlement(SettlementError::SubmissionFailed {
            message: String::from("input object is no longer available"),
        }))
    );
    assert_eq!(l.submissions, 2);
    assert_eq!(l.lists, 2);
    assert_eq!(l.consumed, vec![id(2)]);
}

#[test]
fn every_selection_lists_the_coins_anew() {
    let mut l = ledger(vec![coin(1, 80)]);
    let chosen = run(selector(50), &mut l).unwrap();
    l.coins = vec![coin(chosen.lo, 50), coin(0x1001, 30)];
    assert_eq!(run(selector(50), &mut l), Ok(chosen));
    assert_eq!(l.lists, 2);
    assert_eq!(l.submissions, 1);
}

#[test]
fn split_without_a_new_coin_is_split_result_not_found() {
    let mut l = ledger(vec![coin(1, 80)]);
    l.hide_new_coins = true;
    assert_eq!(
        run(selector(50), &mut l),
        Err(SelectionError::SplitResultNotFound {
            amount: 50,
            coin_type: String::from(SUI),
            digest: String::from("split-digest"),
        })
    );
    assert_eq!(l.submissions, 1);
}

#[test]
fn new_coins_of_other_amounts_are_split_result_not_found() {
    let s = selector(50);
    let s = s.step(SelectorEvent::Coins { coins: vec![coin(1, 80)] });
    let s = s.step(SelectorEvent::SplitBuilt {
        transaction: PreparedTransaction { tx_bytes: vec![1], sender: sender(), gas: gas() },
    });
    let s = s.step(SelectorEvent::Settlement(SettlerEvent::Signed { signature: vec![2] }));
    let s = s.step(SelectorEvent::Settlement(SettlerEvent::Submitted {
        result: ExecutionResult {
            digest: String::from("d9"),
            confirmed_local_execution: Some(true),
            effects: None,
            object_changes: Some(vec![ObjectChange::Created {
                object_id: id(7),
                object_type: coin_tag(SUI),
            }]),
        },
    }));
    let s = s.step(SelectorEvent::CoinRead { balance: 49 });
    assert_eq!(
        s.into_result(),
        Some(Err(SelectionError::SplitResultNotFound {
            amount: 50,
            coin_type: String::from(SUI),
            digest: String::from("d9"),
        }))
    );
}

#[test]
fn split_result_without_object_changes_is_a_response_error() {
    let mut l = ledger(vec![coin(1, 80)]);
    l.report_changes = false;
    assert_eq!(
        run(selector(50), &mut l),
        Err(SelectionError::Response(ResponseError::MissingObjectChanges))
    );
    assert_eq!(l.submissions, 1);
}

#[test]
fn unconfirmed_split_is_not_scanned() {
    for confirm in [Some(false), None] {
        let mut l = ledger(vec![coin(1, 80)]);
        l.confirm = confirm;
        assert_eq!(
            run(selector(50), &mut l),
            Err(SelectionError::Settlement(SettlementError::NotConfirmed))
        );
        assert_eq!(l.submissions, 1);
    }
}

#[test]
fn signing_failure_ends_the_selection_before_submission() {
    let mut l = ledger(vec![coin(1, 80)]);
    l.fail_sign = true;
    assert_eq!(
        run(selector(50), &mut l),
        Err(SelectionError::Settlement(SettlementError::SigningFailed {
            message: String::from("no key"),
        }))
    );
    assert_eq!(l.submissions, 0);
}

#[test]
fn ledger_failures_are_passed_on() {
    let mut l = ledger(vec![coin(1, 80)]);
    l.fail_list = true;
    assert_eq!(
        run(selector(50), &mut l),
        Err(SelectionError::Ledger { message: String::from("list failed") })
    );
    let mut l = ledger(vec![coin(1, 80)]);
    l.fail_build = true;
    assert_eq!(
        run(selector(50), &mut l),
        Err(SelectionError::Ledger { message: String::from("build failed") })
    );
    assert_eq!(l.submissions, 0);
    let mut l = ledger(vec![coin(1, 80)]);
    l.fail_read = true;
    assert_eq!(
        run(selector(50), &mut l),
        Err(SelectionError::Ledger { message: String::from("read failed") })
    );
    assert_eq!(l.submissions, 1);
}

#[test]
fn selection_event_that_is_not_waited_for_changes_nothing() {
    let s = selector(50);
    let s = s.step(SelectorEvent::CoinRead { balance: 50 });
    assert_eq!(s, selector(50));
    let s = s.step(SelectorEvent::Settlement(SettlerEvent::Signed { signature: vec![1] }));
    assert_eq!(s, selector(50));
    let s = s.step(SelectorEvent::Coins { coins: vec![coin(1, 80)] });
    let same = s.step(SelectorEvent::Coins { coins: vec![coin(2, 50)] });
    assert_eq!(
        same.state,
        SelectorState::BuildingSplit { coin_object_id: id(1), remainder: 30 }
    );
    let settling = same.step(SelectorEvent::SplitBuilt {
        transaction: PreparedTransaction { tx_bytes: vec![1], sender: sender(), gas: gas() },
    });
    let still = settling.step(SelectorEvent::LedgerFailed { message: String::from("late") });
    assert!(!still.is_done());
    assert!(matches!(still.action(), SelectorAction::Settle(SettlerAction::Sign { .. })));
}

#[test]
fn finished_selection_stays_finished() {
    let s = selector(50).step(SelectorEvent::Coins { coins: vec![coin(1, 50)] });
    assert!(s.is_done());
    assert_eq!(s.action(), SelectorAction::Return);
    let s = s.step(SelectorEvent::Coins { coins: vec![coin(2, 50)] });
    assert_eq!(s.into_result(), Some(Ok(id(1))));
    assert_eq!(selector(50).into_result(), None);
}

#[test]
fn first_action_lists_the_senders_coins() {
    let s = selector(50);
    let token = String::from(SUI);
    assert_eq!(s.action(), SelectorAction::ListCoins { owner: sender(), coin_type: &token });
    assert_eq!(
        s.request,
        PaymentRequest { sender: sender(), coin_type: String::from(SUI), amount: 50 }
    );
}

#[test]
fn candidates_are_the_new_coins_of_the_token_in_order() {
    let other = StructTag {
        address: id(2),
        module: String::from("bag"),
        name: String::from("Bag"),
        type_params: vec![String::from(SUI)],
    };
    let bare = StructTag {
        address: id(2),
        module: String::from("coin"),
        name: String::from("Coin"),
        type_params: Vec::new(),
    };
    let changes = vec![
        ObjectChange::Created { object_id: id(1), object_type: coin_tag(SUI) },
        ObjectChange::Published { package_id: id(2) },
        ObjectChange::Created { object_id: id(3), object_type: coin_tag("0xabc::usdc::USDC") },
        ObjectChange::Created { object_id: id(4), object_type: other },
        ObjectChange::Other,
        ObjectChange::Created { object_id: id(5), object_type: bare },
        ObjectChange::Created { object_id: id(6), object_type: coin_tag(SUI) },
    ];
    assert_eq!(find_split_candidates(&changes, &String::from(SUI)), vec![id(1), id(6)]);
    assert_eq!(find_split_candidates(&Vec::new(), &String::from(SUI)), Vec::<ObjectId>::new());
}
