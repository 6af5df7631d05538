//! The entry points: what a sender can ask for, each as a state machine that
//! the caller drives with the ledger client and the signer.

use vstd::prelude::*;
use crate::gas_info::GasInfo;
use crate::ids::{ObjectId, SuiAddress};
use crate::move_call_args::{ArgsError, MoveCallArgs, MoveCallArgsView, TryIntoMoveCallArgs};
use crate::selection::{CoinSelector, CoinSelectorView, PaymentRequest, PaymentRequestView};
use crate::settlement::{
    Intent, PreparedTransaction, ResponseOptions, SettlerConfig, TransactionSettler,
    TransactionSettlerView,
};

verus! {

/// A sender of transactions, and the intent that its signatures are made for.
#[derive(Clone, Copy, Debug, PartialEq, Eq, Structural)]
pub struct SignedTransactionApi {
    pub sender: SuiAddress,
    pub intent: Intent,
}

impl SignedTransactionApi {
    /// The api of `sender`, signing for the intent of a user transaction.
    pub fn new(sender: SuiAddress) -> (api: SignedTransactionApi)
        ensures
            api == (SignedTransactionApi {
                sender,
                intent: Intent { scope: 0, version: 0, app_id: 0 },
            }),
    {
        SignedTransactionApi { sender, intent: Intent::sui_transaction() }
    }

    /// The api of `sender`, signing for `intent`.
    pub fn with_intent(sender: SuiAddress, intent: Intent) -> (api: SignedTransactionApi)
        ensures
            api == (SignedTransactionApi { sender, intent }),
    {
        SignedTransactionApi { sender, intent }
    }

    /// How this api settles a transaction that is to come back with `options`.
    pub open spec fn settler_config(
        self,
        options: ResponseOptions,
        require_confirmation: bool,
    ) -> SettlerConfig {
        SettlerConfig { signer: self.sender, intent: self.intent, options, require_confirmation }
    }

    /// Begins the settlement of `tx_data`: signed by the sender, submitted
    /// once, with `options` saying what the result is to carry. The result is
    /// handed back as it came; whether it was confirmed is for the caller to
    /// test.
    pub fn sign_and_execute(
        &self,
        tx_data: PreparedTransaction,
        options: ResponseOptions,
    ) -> (settler: TransactionSettler)
        ensures
            settler@ == TransactionSettlerView::start(
                self.settler_config(options, false),
                tx_data@,
            ),
    {
        TransactionSettler::new(
            SettlerConfig {
                signer: self.sender,
                intent: self.intent,
                options,
                require_confirmation: false,
            },
            tx_data,
        )
    }

    /// Begins the settlement of `tx_data` with the effects section asked for
    /// and nothing else.
    pub fn sign_and_execute_with_effects(&self, tx_data: PreparedTransaction) -> (settler:
        TransactionSettler)
        ensures
            settler@ == TransactionSettlerView::start(
                self.settler_config(ResponseOptions::effects_only(), false),
                tx_data@,
            ),
    {
        self.sign_and_execute(tx_data, ResponseOptions::new().with_effects())
    }

    /// Begins the settlement of `tx_data` with the effects section asked for,
    /// which fails with `NotConfirmed` unless the submitting node confirms that
    /// it executed the transaction.
    pub fn sign_and_assert_success(&self, tx_data: PreparedTransaction) -> (settler:
        TransactionSettler)
        ensures
            settler@ == TransactionSettlerView::start(
                self.settler_config(ResponseOptions::effects_only(), true),
                tx_data@,
            ),
    {
        TransactionSettler::new(
            SettlerConfig {
                signer: self.sender,
                intent: self.intent,
                options: ResponseOptions::new().with_effects(),
                require_confirmation: true,
            },
            tx_data,
        )
    }

    /// Begins the selection of a coin of the sender that holds exactly
    /// `amount` of the token `coin_type`; `gas` pays for the split, should one
    /// be needed.
    pub fn get_coin_amount(&self, amount: u64, coin_type: String, gas: GasInfo) -> (selector:
        CoinSelector)
        requires
            gas.well_formed(),
        ensures
            selector@ == CoinSelectorView::start(
                PaymentRequestView { sender: self.sender, coin_type: coin_type@, amount },
                gas,
                self.intent,
            ),
    {
        CoinSelector::new(
            PaymentRequest { sender: self.sender, coin_type, amount },
            gas,
            self.intent,
        )
    }
}

/// What the transaction builder is asked for: a call by `signer`, paid with
/// `gas` and `gas_budget`.
#[derive(Debug, PartialEq, Eq)]
pub struct MoveCallRequest {
    pub signer: SuiAddress,
    pub args: MoveCallArgs,
    pub gas: Option<ObjectId>,
    pub gas_budget: u64,
}

/// The mathematical value of a [`MoveCallRequest`].
pub struct MoveCallRequestView {
    pub signer: SuiAddress,
    pub args: MoveCallArgsView,
    pub gas: Option<ObjectId>,
    pub gas_budget: u64,
}

impl View for MoveCallRequest {
    type V = MoveCallRequestView;

    open spec fn view(&self) -> MoveCallRequestView {
        MoveCallRequestView {
            signer: self.signer,
            args: self.args@,
            gas: self.gas,
            gas_budget: self.gas_budget,
        }
    }
}

impl DeepView for MoveCallRequest {
    type V = MoveCallRequestView;

    open spec fn deep_view(&self) -> MoveCallRequestView {
        self@
    }
}

/// The request for the call that `args` names, made by `sender` and paid with
/// `gas`.
pub open spec fn call_request(
    sender: SuiAddress,
    gas: GasInfo,
    args: MoveCallArgsView,
) -> MoveCallRequestView {
    MoveCallRequestView { signer: sender, args, gas: gas.object, gas_budget: gas.budget }
}

/// `res` is what forming a request yields when `converted` is what the
/// conversion of the caller's value gave: the request for the converted
/// arguments, or the conversion's failure as it came.
pub open spec fn is_request_from(
    res: Result<MoveCallRequest, ArgsError>,
    converted: Result<MoveCallArgs, ArgsError>,
    sender: SuiAddress,
    gas: GasInfo,
) -> bool {
    match (res, converted) {
        (Ok(request), Ok(args)) => request@ == call_request(sender, gas, args@),
        (Err(error), Err(failure)) => error == failure,
        _ => false,
    }
}

/// Forms the requests for calls by one sender with one gas payment, from
/// values that need the configuration to say what they call.
#[derive(Debug)]
pub struct SignedTransactionBuilder<'a, C> {
    pub config: &'a C,
    pub sender: SuiAddress,
    pub gas: GasInfo,
}

impl<'a, C> SignedTransactionBuilder<'a, C> {
    /// The request for the call that `args` names: by the sender, with the
    /// builder's gas payment.
    pub fn request(&self, args: MoveCallArgs) -> (request: MoveCallRequest)
        ensures
            request@ == call_request(self.sender, self.gas, args@),
    {
        MoveCallRequest {
            signer: self.sender,
            args,
            gas: self.gas.object,
            gas_budget: self.gas.budget,
        }
    }

    /// Turns `args` into call arguments with the configuration, and forms the
    /// request for that call. The failure of the conversion is passed on.
    pub fn call<T: TryIntoMoveCallArgs<C>>(&self, args: T) -> (res: Result<
        MoveCallRequest,
        ArgsError,
    >)
        ensures
            exists|converted: Result<MoveCallArgs, ArgsError>|
                {
                    &&& call_ensures(T::try_into_args, (args, self.config), converted)
                    &&& is_request_from(res, converted, self.sender, self.gas)
                },
    {
        let converted = args.try_into_args(self.config);
        let ghost given = converted;
        let res = match converted {
            Ok(converted) => Ok(self.request(converted)),
            Err(error) => Err(error),
        };
        assert(is_request_from(res, given, self.sender, self.gas));
        res
    }
}

/// A call whose transaction is still to be built: the request for the
/// builder, and how the built transaction will be settled.
#[derive(Debug, PartialEq, Eq)]
pub struct PendingCall {
    pub request: MoveCallRequest,
    pub settlement: SettlerConfig,
}

impl PendingCall {
    /// Begins the settlement of the transaction that was built for the
    /// request.
    pub fn built(self, tx_data: PreparedTransaction) -> (settler: TransactionSettler)
        ensures
            settler@ == TransactionSettlerView::start(self.settlement, tx_data@),
    {
        TransactionSettler::new(self.settlement, tx_data)
    }
}

/// `res` is what preparing a call yields when `request` is what forming the
/// request gave: the request with the settlement `settlement`, or the failure
/// as it came.
pub open spec fn is_pending_from(
    res: Result<PendingCall, ArgsError>,
    request: Result<MoveCallRequest, ArgsError>,
    settlement: SettlerConfig,
) -> bool {
    match (res, request) {
        (Ok(pending), Ok(request)) => pending.request == request && pending.settlement
            == settlement,
        (Err(error), Err(failure)) => error == failure,
        _ => false,
    }
}

/// A sender together with the configuration that its calls are made with.
#[derive(Clone, Debug, PartialEq, Eq)]
pub struct SignedTransactionCaller<C> {
    pub api: SignedTransactionApi,
    pub config: C,
}

impl<C> SignedTransactionCaller<C> {
    /// The request for the call that `args` names under the caller's
    /// configuration, paid with `gas`. The failure of the conversion is passed
    /// on.
    pub fn tx_data<T: TryIntoMoveCallArgs<C>>(&self, args: T, gas: GasInfo) -> (res: Result<
        MoveCallRequest,
        ArgsError,
    >)
        requires
            gas.well_formed(),
        ensures
            exists|converted: Result<MoveCallArgs, ArgsError>|
                {
                    &&& call_ensures(T::try_into_args, (args, &self.config), converted)
                    &&& is_request_from(res, converted, self.api.sender, gas)
                },
            res matches Ok(request) ==> request.gas_budget > 0,
    {
        let builder = SignedTransactionBuilder {
            config: &self.config,
            sender: self.api.sender,
            gas,
        };
        builder.call(args)
    }

    /// Prepares the call that `args` names, to be settled with `options`: the
    /// result is handed back as it comes, confirmed or not.
    pub fn call<T: TryIntoMoveCallArgs<C>>(
        &self,
        args: T,
        gas: GasInfo,
        options: ResponseOptions,
    ) -> (res: Result<PendingCall, ArgsError>)
        requires
            gas.well_formed(),
        ensures
            exists|
                converted: Result<MoveCallArgs, ArgsError>,
                request: Result<MoveCallRequest, ArgsError>,
            |
                {
                    &&& call_ensures(T::try_into_args, (args, &self.config), converted)
                    &&& is_request_from(request, converted, self.api.sender, gas)
                    &&& is_pending_from(res, request, self.api.settler_config(options, false))
                },
    {
        let request = self.tx_data(args, gas);
        let ghost formed = request;
        let settlement = SettlerConfig {
            signer: self.api.sender,
            intent: self.api.intent,
            options,
            require_confirmation: false,
        };
        let res = match request {
            Ok(request) => Ok(PendingCall { request, settlement }),
            Err(error) => Err(error),
        };
        assert(is_pending_from(res, formed, settlement));
        res
    }

    /// Prepares the call that `args` names, to be settled with the effects
    /// section asked for and nothing else.
    pub fn call_with_effects<T: TryIntoMoveCallArgs<C>>(&self, args: T, gas: GasInfo) -> (res:
        Result<PendingCall, ArgsError>)
        requires
            gas.well_formed(),
        ensures
            exists|
                converted: Result<MoveCallArgs, ArgsError>,
                request: Result<MoveCallRequest, ArgsError>,
            |
                {
                    &&& call_ensures(T::try_into_args, (args, &self.config), converted)
                    &&& is_request_from(request, converted, self.api.sender, gas)
                    &&& is_pending_from(
                        res,
                        request,
                        self.api.settler_config(ResponseOptions::effects_only(), false),
                    )
                },
    {
        self.call(args, gas, ResponseOptions::new().with_effects())
    }
}

} // verus!
