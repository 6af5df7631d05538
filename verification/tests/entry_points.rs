use af_transaction_api::gas_info::{GasInfo, DEFAULT_GAS_BUDGET};
use af_transaction_api::ids::{ObjectId, SuiAddress};
use af_transaction_api::move_call_args::{ArgsError, MoveCallArgs, TryIntoMoveCallArgs};
use af_transaction_api::settlement::{
    Intent, PreparedTransaction, ResponseOptions, SettlerAction, SettlerConfig, TransactionSettler,
};
use af_transaction_api::signed_transaction_api::{
    MoveCallRequest, SignedTransactionApi, SignedTransactionBuilder, SignedTransactionCaller,
};

fn sender() -> SuiAddress {
    SuiAddress::new(7, 8)
}

fn prepared() -> PreparedTransaction {
    PreparedTransaction { tx_bytes: vec![5, 6], sender: sender(), gas: GasInfo::default() }
}

struct Config {
    package: ObjectId,
}

struct Deposit {
    amount: u64,
}

impl TryIntoMoveCallArgs<Config> for Deposit {
    fn try_into_args(self, config: &Config) -> Result<MoveCallArgs, ArgsError> {
        if self.amount == 0 {
            return Err(ArgsError { message: String::from("nothing to deposit") });
        }
        Ok(MoveCallArgs {
            package: config.package,
            module: "vault",
            function: "deposit",
            type_args: vec![String::from("0x2::sui::SUI")],
            call_args: vec![format!("\"{}\"", self.amount)],
        })
    }
}

fn deposit_args(amount: u64) -> MoveCallArgs {
    MoveCallArgs {
        package: ObjectId::new(0, 0xfeed),
        module: "vault",
        function: "deposit",
        type_args: vec![String::from("0x2::sui::SUI")],
        call_args: vec![format!("\"{}\"", amount)],
    }
}

#[test]
fn gas_info_needs_a_budget() {
    assert_eq!(GasInfo::new(None, 0), None);
    assert_eq!(GasInfo::new(None, 1), Some(GasInfo { object: None, budget: 1 }));
    let object = Some(ObjectId::new(0, 9));
    assert_eq!(GasInfo::new(object, 77), Some(GasInfo { object, budget: 77 }));
    assert!(!GasInfo { object: None, budget: 0 }.is_well_formed());
    assert!(GasInfo { object: None, budget: u64::MAX }.is_well_formed());
}

#[test]
fn default_gas_info_has_the_default_budget_and_no_object() {
    assert_eq!(DEFAULT_GAS_BUDGET, 1_000_000_000);
    assert_eq!(GasInfo::default(), GasInfo { object: None, budget: 1_000_000_000 });
}

#[test]
fn api_signs_for_user_transactions_unless_told_otherwise() {
    assert_eq!(
        SignedTransactionApi::new(sender()),
        SignedTransactionApi { sender: sender(), intent: Intent { scope: 0, version: 0, app_id: 0 } }
    );
    let personal = Intent { scope: 3, version: 0, app_id: 0 };
    assert_eq!(
        SignedTransactionApi::with_intent(sender(), personal),
        SignedTransactionApi { sender: sender(), intent: personal }
    );
}

#[test]
fn configured_intent_reaches_the_signer() {
    let personal = Intent { scope: 3, version: 0, app_id: 0 };
    let api = SignedTransactionApi::with_intent(sender(), personal);
    let settler = api.sign_and_execute(prepared(), ResponseOptions::new());
    assert_eq!(
        settler.action(),
        SettlerAction::Sign { address: sender(), tx_bytes: &vec![5, 6], intent: personal }
    );
    let selector = api.get_coin_amount(5, String::from("0x2::sui::SUI"), GasInfo::default());
    assert_eq!(selector.settler_config().intent, personal);
    assert_eq!(selector.settler_config().signer, sender());
}

#[test]
fn sign_and_execute_keeps_the_options() {
    let api = SignedTransactionApi::new(sender());
    let options = ResponseOptions::new().with_object_changes();
    assert_eq!(
        api.sign_and_execute(prepared(), options),
        TransactionSettler::new(
            SettlerConfig {
                signer: sender(),
                intent: Intent::sui_transaction(),
                options,
                require_confirmation: false,
            },
            prepared()
        )
    );
}

#[test]
fn with_effects_asks_for_effects_only() {
    let api = SignedTransactionApi::new(sender());
    let settler = api.sign_and_execute_with_effects(prepared());
    assert_eq!(settler.config.options, ResponseOptions::new().with_effects());
    assert!(!settler.config.options.show_object_changes);
    assert!(!settler.config.require_confirmation);
}

#[test]
fn assert_success_requires_confirmation() {
    let api = SignedTransactionApi::new(sender());
    let settler = api.sign_and_assert_success(prepared());
    assert_eq!(settler.config.options, ResponseOptions::new().with_effects());
    assert!(settler.config.require_confirmation);
}

#[test]
fn coin_selection_settles_with_effects_and_object_changes() {
    let api = SignedTransactionApi::new(sender());
    let selector = api.get_coin_amount(5, String::from("0x2::sui::SUI"), GasInfo::default());
    assert_eq!(
        selector.settler_config(),
        SettlerConfig {
            signer: sender(),
            intent: Intent::sui_transaction(),
            options: ResponseOptions::new().with_effects().with_object_changes(),
            require_confirmation: true,
        }
    );
}

#[test]
fn builder_forms_the_request_from_converted_arguments() {
    let config = Config { package: ObjectId::new(0, 0xfeed) };
    let gas = GasInfo { object: Some(ObjectId::new(0, 3)), budget: 900 };
    let builder = SignedTransactionBuilder { config: &config, sender: sender(), gas };
    assert_eq!(
        builder.call(Deposit { amount: 12 }),
        Ok(MoveCallRequest {
            signer: sender(),
            args: deposit_args(12),
            gas: Some(ObjectId::new(0, 3)),
            gas_budget: 900,
        })
    );
    assert_eq!(
        builder.request(deposit_args(1)),
        MoveCallRequest {
            signer: sender(),
            args: deposit_args(1),
            gas: Some(ObjectId::new(0, 3)),
            gas_budget: 900,
        }
    );
}

#[test]
fn builder_passes_a_failed_conversion_on() {
    let config = Config { package: ObjectId::new(0, 0xfeed) };
    let builder =
        SignedTransactionBuilder { config: &config, sender: sender(), gas: GasInfo::default() };
    assert_eq!(
        builder.call(Deposit { amount: 0 }),
        Err(ArgsError { message: String::from("nothing to deposit") })
    );
}

#[test]
fn caller_prepares_a_call_and_settles_what_was_built() {
    let caller = SignedTransactionCaller {
        api: SignedTransactionApi::new(sender()),
        config: Config { package: ObjectId::new(0, 0xfeed) },
    };
    let gas = GasInfo { object: None, budget: 42 };
    let request = caller.tx_data(Deposit { amount: 3 }, gas).unwrap();
    assert_eq!(
        request,
        MoveCallRequest { signer: sender(), args: deposit_args(3), gas: None, gas_budget: 42 }
    );
    let options = ResponseOptions::new().with_effects().with_object_changes();
    let pending = caller.call(Deposit { amount: 3 }, gas, options).unwrap();
    assert_eq!(pending.request, request);
    assert_eq!(pending.settlement.options, options);
    assert_eq!(pending.settlement.signer, sender());
    assert!(!pending.settlement.require_confirmation);
    let settler = pending.built(prepared());
    assert_eq!(settler, SignedTransactionApi::new(sender()).sign_and_execute(prepared(), options));
}

#[test]
fn caller_with_effects_asks_for_effects_only() {
    let caller = SignedTransactionCaller {
        api: SignedTransactionApi::new(sender()),
        config: Config { package: ObjectId::new(0, 0xfeed) },
    };
    let pending = caller.call_with_effects(Deposit { amount: 3 }, GasInfo::default()).unwrap();
    assert_eq!(pending.settlement.options, ResponseOptions::new().with_effects());
    assert_eq!(pending.request.gas_budget, 1_000_000_000);
    assert_eq!(
        caller.call_with_effects(Deposit { amount: 0 }, GasInfo::default()),
        Err(ArgsError { message: String::from("nothing to deposit") })
    );
}
