//! What the hosting environment hands the orchestrator with each command —
//! the caller, attached funds, block time, and snapshots of external
//! collaborator state — and the outgoing commands the orchestrator returns
//! for the host to deliver.
use vstd::prelude::*;
use crate::msg::{flow_eqv, Coin, CreateOrca, CreateSale, FlowCreate, ReplyTypes};

verus! {

/// The execution environment of one inbound command.
#[derive(Debug, PartialEq, Eq)]
pub struct Env {
    pub contract_address: String,
    pub block_time_nanos: u64,
}

impl Env {
    /// The block time in whole seconds.
    pub open spec fn spec_block_seconds(self) -> u64 {
        self.block_time_nanos / 1_000_000_000u64
    }

    pub fn block_seconds(&self) -> (r: u64)
        ensures
            r == self.spec_block_seconds(),
    {
        self.block_time_nanos / 1_000_000_000
    }
}

/// The authenticated sender of a command and the funds attached to it.
#[derive(Debug, PartialEq, Eq)]
pub struct MessageInfo {
    pub sender: String,
    pub funds: Vec<Coin>,
}

/// A snapshot of the sale engine's published configuration, read before the
/// command is processed.
#[derive(Debug, PartialEq, Eq)]
pub struct PilotEngineView {
    pub deposit: Coin,
    pub sale_fee: u128,
}

/// The status an external sale reports.
#[derive(Clone, Copy, Debug, PartialEq, Eq, Structural)]
pub enum SaleStatus {
    Live { closes_at: u64 },
    Retracted { at: u64 },
    Executed { at: u64, raise_total: u128, raise_fee: u128, raise_amount: u128 },
}

/// Everything external a command's processing may read, queried by the host
/// before the command is handed in.
#[derive(Debug, PartialEq, Eq)]
pub struct ExternalView {
    /// The sale engine's configuration.
    pub pilot: PilotEngineView,
    /// The on-chain supply of the denom named in a token command, where the
    /// host could determine one.
    pub denom_supply: Option<u128>,
    /// The status of this launch's external sale, where one exists.
    pub sale_status: Option<SaleStatus>,
    /// The deterministic address the trading pair will be created under.
    pub fin_address: String,
    /// The deterministic address the market maker will be created under.
    pub bow_address: String,
}

/// One outgoing command to an external collaborator. The host translates
/// each into the collaborator's wire format and delivers it; the `idx`
/// fields of the instantiate commands name the launch whose deterministic
/// salt the host derives.
#[derive(Debug, PartialEq, Eq)]
pub enum Command {
    /// Create a new managed denom under the orchestrator's authority.
    DenomCreate { subdenom: String },
    /// Mint managed tokens to a recipient.
    DenomMint { denom: String, amount: u128, recipient: String },
    /// Hand the mint authority of a managed denom over.
    DenomChangeAdmin { denom: String, address: String },
    /// Pay one coin out of the orchestrator's balance.
    Send { to_address: String, amount: Coin },
    /// Create the sale with the sale engine, funded with the engine's
    /// deposit and the sale amount, asking for a completion notification
    /// under the given tag.
    PilotCreate { sale: CreateSale, orca: CreateOrca, deposit: Coin, sale_funds: Coin, reply: ReplyTypes },
    /// Execute the sale on the sale engine.
    PilotExecuteSale { idx: u128 },
    /// Retract the sale on the sale engine.
    PilotRetractSale { idx: u128 },
    /// Replace the sale's description on the sale engine.
    PilotUpdateDescription { idx: u128, description: String },
    /// Create one vesting flow, funded with the flow's total.
    CreateFlow { flow: FlowCreate, funds: Coin },
    /// Create the trading pair at its deterministic address.
    FinInstantiate {
        idx: u128,
        admin: String,
        code_id: u64,
        owner: String,
        denom: String,
        bid_denom: String,
        decimal_delta: i8,
        price_precision_decimals: u8,
        fee_maker: u128,
        fee_taker: u128,
        fee_address: String,
    },
    /// Create the market maker at its deterministic address, funded with the
    /// configured creation fee.
    BowInstantiate {
        idx: u128,
        admin: String,
        code_id: u64,
        owner: String,
        fin_contract: String,
        intervals: Vec<u128>,
        fee: u128,
        amp: u128,
        funds: Coin,
    },
    /// Deposit both liquidity sides with the market maker, tagging the
    /// callback with the launch's sequence number.
    BowDeposit { contract: String, callback_idx: u128, token_funds: Coin, stable_funds: Coin },
    /// Register display metadata for an asset with the token registry; the
    /// registry's display form is the lower-cased symbol.
    RegisterAsset {
        base_denom: String,
        symbol: String,
        exponent: u8,
        png_url: Option<String>,
        svg_url: Option<String>,
    },
    /// Register display metadata for a pool-receipt asset with the token
    /// registry, named after the pair it belongs to.
    RegisterLpAsset {
        base_denom: String,
        symbol: String,
        bid_symbol: String,
        png_url: Option<String>,
        svg_url: Option<String>,
    },
    /// Register an asset's supply record with the token registry.
    RegisterSupply { denom: String },
    /// Register an asset as curated with the token registry.
    RegisterCurated { denom: String },
    /// Open trading on the pair.
    FinLaunchPair { contract: String },
    /// Hand the pair's ownership over.
    FinSetOwner { contract: String, owner: String },
    /// Administrative passthrough: change a contract's admin.
    WasmUpdateAdmin { contract: String, admin: String },
    /// Administrative passthrough: forward a raw message.
    WasmExecuteRaw { contract: String, msg: Vec<u8> },
}

/// Two commands carry the same data; list-valued fields are compared by
/// view.
pub open spec fn cmd_eqv(a: Command, b: Command) -> bool {
    match (a, b) {
        (
            Command::CreateFlow { flow: f1, funds: d1 },
            Command::CreateFlow { flow: f2, funds: d2 },
        ) => flow_eqv(f1, f2) && d1 == d2,
        (
            Command::BowInstantiate {
                idx: i1,
                admin: a1,
                code_id: c1,
                owner: o1,
                fin_contract: f1,
                intervals: v1,
                fee: e1,
                amp: m1,
                funds: u1,
            },
            Command::BowInstantiate {
                idx: i2,
                admin: a2,
                code_id: c2,
                owner: o2,
                fin_contract: f2,
                intervals: v2,
                fee: e2,
                amp: m2,
                funds: u2,
            },
        ) => i1 == i2 && a1 == a2 && c1 == c2 && o1 == o2 && f1 == f2 && v1@ == v2@ && e1 == e2
            && m1 == m2 && u1 == u2,
        (
            Command::WasmExecuteRaw { contract: c1, msg: m1 },
            Command::WasmExecuteRaw { contract: c2, msg: m2 },
        ) => c1 == c2 && m1@ == m2@,
        _ => a == b,
    }
}

/// Equivalent commands appended to equivalent lists leave them equivalent.
pub proof fn lemma_cmds_eqv_push(a: Seq<Command>, b: Seq<Command>, x: Command, y: Command)
    requires
        cmds_eqv(a, b),
        cmd_eqv(x, y),
    ensures
        cmds_eqv(a.push(x), b.push(y)),
{
    assert forall|i: int| 0 <= i < a.push(x).len() implies cmd_eqv(
        #[trigger] a.push(x)[i],
        b.push(y)[i],
    ) by {
        if i < a.len() {
            assert(a.push(x)[i] == a[i]);
            assert(b.push(y)[i] == b[i]);
        }
    }
}

/// Two command lists carry the same commands in the same order.
pub open spec fn cmds_eqv(a: Seq<Command>, b: Seq<Command>) -> bool {
    a.len() == b.len() && forall|i: int| 0 <= i < a.len() ==> cmd_eqv(#[trigger] a[i], b[i])
}

/// Equivalent lists concatenated with equivalent lists stay equivalent.
pub proof fn lemma_cmds_eqv_concat(a: Seq<Command>, b: Seq<Command>, s: Seq<Command>, t: Seq<Command>)
    requires
        cmds_eqv(a, b),
        cmds_eqv(s, t),
    ensures
        cmds_eqv(a + s, b + t),
{
    assert forall|i: int| 0 <= i < (a + s).len() implies cmd_eqv(#[trigger] (a + s)[i], (b + t)[i]) by {
        if i < a.len() {
            assert((a + s)[i] == a[i]);
            assert((b + t)[i] == b[i]);
        } else {
            assert((a + s)[i] == s[i - a.len()]);
            assert((b + t)[i] == t[i - b.len()]);
        }
    }
}

/// What one accepted command hands back to the host: the ordered list of
/// outgoing commands to deliver.
#[derive(Debug, PartialEq, Eq)]
pub struct Response {
    pub commands: Vec<Command>,
}

} // verus!
