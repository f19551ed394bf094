//! Plain-data model of the command surface, configuration and launch
//! metadata. Chain-native wrappers (addresses, coins, decimals) are held as
//! plain values: addresses as strings, amounts as `u128`, decimal fractions
//! as atomics scaled by `10^18`.
use vstd::prelude::*;

verus! {

/// Number of atomic units in one whole unit of a decimal fraction.
pub const DECIMAL_FRACTIONAL: u128 = 1_000_000_000_000_000_000;

/// An amount of a native asset.
#[derive(Debug, PartialEq, Eq)]
pub struct Coin {
    pub denom: String,
    pub amount: u128,
}

/// Lifecycle states of a launch, in forward order.
#[derive(Clone, Copy, Debug, PartialEq, Eq, Structural)]
pub enum LaunchStatus {
    Created,
    Planned,
    InProgress,
    Completed,
}

impl LaunchStatus {
    /// Position of the status in the forward progression.
    pub open spec fn rank(self) -> int {
        match self {
            LaunchStatus::Created => 1,
            LaunchStatus::Planned => 2,
            LaunchStatus::InProgress => 3,
            LaunchStatus::Completed => 4,
        }
    }
}

/// One command moves a launch's status at most one step forward.
pub open spec fn status_step_ok(a: LaunchStatus, b: LaunchStatus) -> bool {
    b.rank() == a.rank() || b.rank() == a.rank() + 1
}

/// Kinds of distribution categories in a tokenomics plan.
#[derive(Clone, Copy, Debug, PartialEq, Eq, Structural)]
pub enum CategoryTypes {
    Sale,
    Liquidity,
    Standard,
}

/// Kinds of in-flight external steps awaiting a completion notification.
#[derive(Clone, Copy, Debug, PartialEq, Eq, Structural)]
pub enum ReplyTypes {
    Create,
    Execute,
    PostExecute,
    Retract,
}

impl ReplyTypes {
    /// Numeric tag used on the completion channel for this step kind.
    pub open spec fn spec_id(self) -> u64 {
        match self {
            ReplyTypes::Create => 1,
            ReplyTypes::Execute => 2,
            ReplyTypes::PostExecute => 3,
            ReplyTypes::Retract => 4,
        }
    }

    pub fn id(self) -> (r: u64)
        ensures
            r == self.spec_id(),
    {
        match self {
            ReplyTypes::Create => 1,
            ReplyTypes::Execute => 2,
            ReplyTypes::PostExecute => 3,
            ReplyTypes::Retract => 4,
        }
    }
}

/// The continuation record linking an in-flight external step to a launch.
#[derive(Debug, PartialEq, Eq)]
pub struct ReplyInfo {
    pub reply_type: ReplyTypes,
    pub idx: u128,
}

/// One time slice of a vesting flow.
#[derive(Debug, PartialEq, Eq)]
pub struct FlowSchedule {
    pub start_time: u64,
    pub end_time: u64,
    pub cliff_end_time: u64,
    pub amount: u128,
}

/// A vesting flow to be created with the flow engine.
#[derive(Debug, PartialEq, Eq)]
pub struct FlowCreate {
    pub taker: String,
    pub denom: String,
    pub identifier: Option<String>,
    pub genesis_time: u64,
    pub schedules: Vec<FlowSchedule>,
}

/// Two flows carry the same data; schedule lists are compared by view.
pub open spec fn flow_eqv(a: FlowCreate, b: FlowCreate) -> bool {
    &&& a.taker == b.taker
    &&& a.denom == b.denom
    &&& a.identifier == b.identifier
    &&& a.genesis_time == b.genesis_time
    &&& a.schedules@ == b.schedules@
}

/// Token descriptor of a launch.
#[derive(Debug, PartialEq, Eq)]
pub struct Token {
    pub denom: String,
    pub symbol: String,
    pub decimals: u8,
    pub is_managed: bool,
    pub denom_admin: Option<String>,
    pub png_url: Option<String>,
    pub svg_url: Option<String>,
}

/// A single amount-holder inside a tokenomics category.
#[derive(Debug, PartialEq, Eq)]
pub struct TokenomicsRecipient {
    pub amount: u128,
    pub address: Option<String>,
    pub flows: Option<Vec<FlowCreate>>,
}

/// One labelled category of a tokenomics plan.
#[derive(Debug, PartialEq, Eq)]
pub struct TokenomicsCategories {
    pub label: String,
    pub category_type: CategoryTypes,
    pub recipients: Vec<TokenomicsRecipient>,
}

/// The full distribution plan of a launch.
#[derive(Debug, PartialEq, Eq)]
pub struct Tokenomics {
    pub categories: Vec<TokenomicsCategories>,
}

/// Parameters of the sale to be created with the sale engine.
/// `price` is a decimal fraction in atomics; `opens` and `closes` are
/// timestamps in nanoseconds.
#[derive(Debug, PartialEq, Eq)]
pub struct CreateSale {
    pub title: String,
    pub description: String,
    pub url: String,
    pub beneficiary: String,
    pub price: u128,
    pub opens: u64,
    pub closes: u64,
}

/// Parameters of the bid queue to be created with the sale engine.
/// `premium_rate_per_slot` is a decimal fraction in atomics.
#[derive(Debug, PartialEq, Eq)]
pub struct CreateOrca {
    pub bid_denom: String,
    pub bid_threshold: u128,
    pub max_slot: u8,
    pub premium_rate_per_slot: u128,
    pub waiting_period: u64,
}

/// The sale plan of a launch; `idx` is the external sale identifier,
/// populated by the continuation path after the sale is created.
#[derive(Debug, PartialEq, Eq)]
pub struct Pilot {
    pub idx: Option<u128>,
    pub beneficiary: String,
    pub sale: CreateSale,
    pub orca: CreateOrca,
}

/// Address of the trading-pair contract created at settlement.
#[derive(Debug, PartialEq, Eq)]
pub struct Fin {
    pub contract_address: Option<String>,
}

/// Address of the market-maker contract created at settlement.
#[derive(Debug, PartialEq, Eq)]
pub struct Bow {
    pub contract_address: Option<String>,
}

/// Tagged payload carried back by a callback from a collaborator.
#[derive(Clone, Debug, PartialEq, Eq)]
pub enum CallbackType {
    BowCallback { idx: u128 },
}

/// Configuration of token creation: the creation fee and default admin.
#[derive(Debug, PartialEq, Eq)]
pub struct TokenConfig {
    pub denom_fee: Coin,
    pub default_admin: String,
    pub utilities_contract: String,
}

/// Configuration of tokenomics validation; the minimum one-side liquidity
/// ratio is a decimal fraction in atomics, at most one.
#[derive(Debug, PartialEq, Eq)]
pub struct TokenomicsConfig {
    pub minimum_liquidity_one_side: u128,
    pub default_lp_vest_cliff: u64,
    pub default_lp_vest_duration: u64,
}

/// An asset allowed as the raise denomination of a sale.
#[derive(Debug, PartialEq, Eq)]
pub struct BidDenoms {
    pub denom: String,
    pub symbol: String,
    pub decimals: u8,
}

/// Configuration of the sale engine integration.
#[derive(Debug, PartialEq, Eq)]
pub struct PilotConfig {
    pub pilot_contract: String,
    pub allowed_bid_denoms: Vec<BidDenoms>,
    pub min_raise_amount: u128,
}

/// Configuration of the vesting-flow engine integration.
#[derive(Debug, PartialEq, Eq)]
pub struct FlowsConfig {
    pub flows_contract: String,
}

/// Configuration of the trading-pair contract to create at settlement.
/// The maker and taker fees are decimal fractions in atomics.
#[derive(Debug, PartialEq, Eq)]
pub struct FinConfig {
    pub code_id: u64,
    pub owner: String,
    pub admin: String,
    pub fee_maker: u128,
    pub fee_taker: u128,
    pub fee_address: String,
}

/// Configuration of the market-maker contract to create at settlement.
/// `intervals`, `fee` and `amp` are decimal fractions in atomics.
#[derive(Debug, PartialEq, Eq)]
pub struct BowConfig {
    pub code_id: u64,
    pub owner: String,
    pub admin: String,
    pub intervals: Vec<u128>,
    pub fee: u128,
    pub amp: u128,
}

/// The full tunable configuration, mutated only by the configured owner.
#[derive(Debug, PartialEq, Eq)]
pub struct Config {
    pub owner: String,
    pub token: TokenConfig,
    pub tokenomics: TokenomicsConfig,
    pub pilot: PilotConfig,
    pub flows: FlowsConfig,
    pub fin: FinConfig,
    pub bow: BowConfig,
}

/// Initial configuration handed over when the orchestrator is set up.
#[derive(Debug, PartialEq, Eq)]
pub struct InstantiateMsg {
    pub owner: String,
    pub token: TokenConfig,
    pub tokenomics: TokenomicsConfig,
    pub pilot: PilotConfig,
    pub flows: FlowsConfig,
    pub fin: FinConfig,
    pub bow: BowConfig,
}

/// Carried by a migration; holds nothing.
#[derive(Clone, Copy, Debug, PartialEq, Eq, Structural)]
pub struct MigrateMsg {}

/// Inbound commands accepted by the orchestrator.
#[derive(Debug, PartialEq, Eq)]
pub enum ExecuteMsg {
    /// Updates the configuration; only the configured owner may.
    UpdateConfig {
        owner: Option<String>,
        token: Option<TokenConfig>,
        tokenomics: Option<TokenomicsConfig>,
        pilot: Option<PilotConfig>,
        flows: Option<FlowsConfig>,
        fin: Option<FinConfig>,
        bow: Option<BowConfig>,
    },
    /// Registers a new launch; requires the deposit to be paid.
    Create { terms_conditions_accepted: bool },
    /// Creates or stores the token information of a launch.
    Token {
        idx: u128,
        create: bool,
        symbol: Option<String>,
        denom: Option<String>,
        decimals: Option<u8>,
        denom_admin: Option<String>,
        png_url: Option<String>,
        svg_url: Option<String>,
    },
    /// Sets the distribution plan of a launch.
    Tokenomics { idx: u128, categories: Vec<TokenomicsCategories> },
    /// Schedules the sale, storing its parameters without creating it yet.
    PilotSchedule { idx: u128, sale: CreateSale, orca: CreateOrca },
    /// Starts the sale on the sale engine.
    PilotStart { idx: u128 },
    /// Executes the sale on the sale engine.
    PilotExecute { idx: u128 },
    /// Retracts a started sale and refunds the owner.
    PilotRetract { idx: u128 },
    /// Performs post-sale settlement.
    PostLaunch { idx: u128 },
    /// Opens trading on the pair created at settlement.
    LaunchFin { idx: u128 },
    /// Administrative passthrough: change a contract's admin.
    SetContractAdmin { contract: String, admin: String },
    /// Administrative passthrough: forward an arbitrary message.
    ExecuteContract { contract: String, msg: Vec<u8> },
    /// Replaces the sale description of an in-progress launch.
    UpdateDescription { idx: u128, description: String },
    /// Inbound completion callback from a collaborator.
    Callback(CallbackType),
}

/// Queries answered by the orchestrator; none mutates any state.
#[derive(Debug, PartialEq, Eq)]
pub enum QueryMsg {
    Config {},
    Launch { idx: u128 },
    LaunchByPilotIdx { idx: u128 },
    Launches { start_after: Option<u128>, limit: Option<u8> },
    LaunchesByOwner { owner: String, start_after: Option<u128>, limit: Option<u8> },
    LaunchesByStatus { status: LaunchStatus, start_after: Option<u128>, limit: Option<u8> },
}

/// Copies a list of schedule lists, element for element.
#[verifier::loop_isolation(false)]
pub fn clone_schedules(v: &Vec<FlowSchedule>) -> (r: Vec<FlowSchedule>)
    ensures
        r@ == v@,
{
    let mut r: Vec<FlowSchedule> = Vec::new();
    let mut i: usize = 0;
    while i < v.len()
        invariant
            0 <= i <= v@.len(),
            r@ == v@.take(i as int),
        decreases v@.len() - i,
    {
        r.push(v[i].clone());
        proof {
            assert(v@.take(i + 1).drop_last() =~= v@.take(i as int));
            assert(v@.take(i + 1) =~= r@);
        }
        i += 1;
    }
    proof {
        assert(v@.take(v@.len() as int) =~= v@);
    }
    r
}

/// Copies a list of interval lists, element for element.
#[verifier::loop_isolation(false)]
pub fn clone_intervals(v: &Vec<u128>) -> (r: Vec<u128>)
    ensures
        r@ == v@,
{
    let mut r: Vec<u128> = Vec::new();
    let mut i: usize = 0;
    while i < v.len()
        invariant
            0 <= i <= v@.len(),
            r@ == v@.take(i as int),
        decreases v@.len() - i,
    {
        r.push(v[i]);
        proof {
            assert(v@.take(i + 1).drop_last() =~= v@.take(i as int));
            assert(v@.take(i + 1) =~= r@);
        }
        i += 1;
    }
    proof {
        assert(v@.take(v@.len() as int) =~= v@);
    }
    r
}

impl Clone for Coin {
    fn clone(&self) -> (res: Self)
        ensures
            res == *self,
    {
        Coin {
            denom: self.denom.clone(),
            amount: self.amount,
        }
    }
}

impl Clone for FlowSchedule {
    fn clone(&self) -> (res: Self)
        ensures
            res == *self,
    {
        FlowSchedule {
            start_time: self.start_time,
            end_time: self.end_time,
            cliff_end_time: self.cliff_end_time,
            amount: self.amount,
        }
    }
}

impl Clone for FlowCreate {
    fn clone(&self) -> (res: Self)
        ensures
            flow_eqv(*self, res),
    {
        FlowCreate {
            taker: self.taker.clone(),
            denom: self.denom.clone(),
            identifier: (match &self.identifier { Some(v) => Some(v.clone()), None => None }),
            genesis_time: self.genesis_time,
            schedules: clone_schedules(&self.schedules),
        }
    }
}

impl Clone for Token {
    fn clone(&self) -> (res: Self)
        ensures
            res == *self,
    {
        Token {
            denom: self.denom.clone(),
            symbol: self.symbol.clone(),
            decimals: self.decimals,
            is_managed: self.is_managed,
            denom_admin: (match &self.denom_admin { Some(v) => Some(v.clone()), None => None }),
            png_url: (match &self.png_url { Some(v) => Some(v.clone()), None => None }),
            svg_url: (match &self.svg_url { Some(v) => Some(v.clone()), None => None }),
        }
    }
}

impl Clone for CreateSale {
    fn clone(&self) -> (res: Self)
        ensures
            res == *self,
    {
        CreateSale {
            title: self.title.clone(),
            description: self.description.clone(),
            url: self.url.clone(),
            beneficiary: self.beneficiary.clone(),
            price: self.price,
            opens: self.opens,
            closes: self.closes,
        }
    }
}

impl Clone for CreateOrca {
    fn clone(&self) -> (res: Self)
        ensures
            res == *self,
    {
        CreateOrca {
            bid_denom: self.bid_denom.clone(),
            bid_threshold: self.bid_threshold,
            max_slot: self.max_slot,
            premium_rate_per_slot: self.premium_rate_per_slot,
            waiting_period: self.waiting_period,
        }
    }
}

impl Clone for Pilot {
    fn clone(&self) -> (res: Self)
        ensures
            res == *self,
    {
        Pilot {
            idx: self.idx,
            beneficiary: self.beneficiary.clone(),
            sale: self.sale.clone(),
            orca: self.orca.clone(),
        }
    }
}

impl Clone for Fin {
    fn clone(&self) -> (res: Self)
        ensures
            res == *self,
    {
        Fin {
            contract_address: (match &self.contract_address { Some(v) => Some(v.clone()), None => None }),
        }
    }
}

impl Clone for Bow {
    fn clone(&self) -> (res: Self)
        ensures
            res == *self,
    {
        Bow {
            contract_address: (match &self.contract_address { Some(v) => Some(v.clone()), None => None }),
        }
    }
}

impl Clone for TokenConfig {
    fn clone(&self) -> (res: Self)
        ensures
            res == *self,
    {
        TokenConfig {
            denom_fee: self.denom_fee.clone(),
            default_admin: self.default_admin.clone(),
            utilities_contract: self.utilities_contract.clone(),
        }
    }
}

impl Clone for TokenomicsConfig {
    fn clone(&self) -> (res: Self)
        ensures
            res == *self,
    {
        TokenomicsConfig {
            minimum_liquidity_one_side: self.minimum_liquidity_one_side,
            default_lp_vest_cliff: self.default_lp_vest_cliff,
            default_lp_vest_duration: self.default_lp_vest_duration,
        }
    }
}

impl Clone for BidDenoms {
    fn clone(&self) -> (res: Self)
        ensures
            res == *self,
    {
        BidDenoms {
            denom: self.denom.clone(),
            symbol: self.symbol.clone(),
            decimals: self.decimals,
        }
    }
}

impl Clone for FlowsConfig {
    fn clone(&self) -> (res: Self)
        ensures
            res == *self,
    {
        FlowsConfig {
            flows_contract: self.flows_contract.clone(),
        }
    }
}

impl Clone for FinConfig {
    fn clone(&self) -> (res: Self)
        ensures
            res == *self,
    {
        FinConfig {
            code_id: self.code_id,
            owner: self.owner.clone(),
            admin: self.admin.clone(),
            fee_maker: self.fee_maker,
            fee_taker: self.fee_taker,
            fee_address: self.fee_address.clone(),
        }
    }
}

impl Clone for ReplyInfo {
    fn clone(&self) -> (res: Self)
        ensures
            res == *self,
    {
        ReplyInfo {
            reply_type: self.reply_type,
            idx: self.idx,
        }
    }
}

} // verus!
