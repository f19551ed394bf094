//! Error taxonomy of the orchestrator. Every rejected command reports the
//! specific violated rule; a rejection never mutates state.
use vstd::prelude::*;

verus! {

#[derive(Clone, Debug, PartialEq, Eq)]
pub enum ContractError {
    /// A stored entity was not found or a host-level lookup failed.
    Std { msg: String },
    /// An arithmetic step would overflow its working width.
    Overflow {},
    /// The attached payment does not match the expected deposit denom.
    Payment { denom: String },
    /// More than one denom was attached where one was expected.
    MultipleDenoms {},
    /// The caller is not allowed to perform the command, or a state guard
    /// of the addressed launch does not hold.
    Unauthorized {},
    /// Terms and conditions must be accepted before creating a launch.
    TermsConditionsAccepted {},
    /// Token information already exists.
    TokenAlreadyExists {},
    /// Token information must be created before tokenomics.
    TokenDoesNotExist {},
    /// Decimals are defaulted for created tokens and must not be given.
    DecimalsDefaulted {},
    /// The denom is determined automatically and must not be given.
    DenomNotAllowed {},
    /// The named denom has no verifiable non-zero supply.
    InvalidDenom { denom: String },
    /// A launch already exists for this owner.
    SaleAlreadyExistsOwner { owner: String },
    /// The launch is in a status that does not allow this action.
    InvalidStatus {},
    /// The attached funds are missing, duplicated or of a wrong amount.
    InvalidFunds {},
    /// The deposited amount differs from the expected amount.
    InvalidDeposit { expected: u128, actual: u128 },
    /// The input combination of the message is not valid.
    InvalidInput {},
    /// The chosen raise denom is not in the configured allow-list.
    InvalidBidDenom {},
    /// The computed minimum raise does not exceed the configured floor.
    InvalidRaiseAmount { computed: u128, minimum: u128 },
    /// The plan must hold exactly one sale category.
    OneSaleCategory {},
    /// The sale category must hold exactly one recipient.
    OneSaleCategoryRecipient {},
    /// The plan must hold exactly one liquidity category.
    OneLiquidityCategory {},
    /// The liquidity category must hold exactly one recipient.
    OneLiquidityCategoryRecipient {},
    /// The liquidity amount exceeds the fee-adjusted sale amount.
    LiquidityAmountSaleAmount {},
    /// No liquidity-pool receipt tokens were attached to the callback.
    LPTokensNotReceived {},
    /// The liquidity amount is below the configured share of the sale amount.
    LiquidityAmountBelowRequired { minimum_ratio: u128 },
    /// A sale or liquidity recipient must not name an address or flows.
    RecipientNotRequired { label: String },
    /// A standard recipient requires an address or flows.
    RecipientAddressOrFlowRequired { label: String },
    /// A standard recipient must not name both an address and flows.
    RecipientAddressAndFlow { label: String },
    /// The flow schedule amounts do not sum to the recipient amount.
    FlowsInvalidAmount { label: String, flows_sum: u128, amount: u128 },
    /// The completion tag is not recognised.
    UnknownReplyId { id: u64 },
    /// The external sale does not report an executed status.
    SaleNotExecuted {},
    /// Settlement was already performed for this launch.
    SettlementAlreadyDone {},
}

} // verus!
