//! The lifecycle orchestrator: one inbound command at a time is checked
//! against authorization and state guards, the pure validator and
//! calculator are consulted, and either the whole effect is applied — state
//! mutation plus an ordered list of outgoing commands — or nothing is.
use vstd::prelude::*;
use crate::error::ContractError;
use crate::host::{cmds_eqv, Command, Env, ExternalView, MessageInfo, Response};
use crate::launch::{launch_wf, Launch};
use crate::msg::{
    status_step_ok, Bow, BowConfig, Coin, Config, CreateOrca, CreateSale, ExecuteMsg, Fin,
    FinConfig, FlowsConfig, InstantiateMsg, LaunchStatus, Pilot, PilotConfig, QueryMsg, ReplyInfo,
    ReplyTypes, Token, TokenConfig, Tokenomics, TokenomicsConfig,
};
use crate::state::State;
use crate::validate::{
    liquidity_amount, liquidity_recipient_amount, plan_wf, sale_amount, sale_recipient_amount,
    validate_spec, validate_tokenomics,
};
use crate::arith::{checked_add_u128, checked_mul_ratio, checked_mul_u128, mul_div_floor};
use crate::host::SaleStatus;
use crate::settle::{build_settlement_cmds, lp_settlement_amount, precision_spec, price_precision, settlement_cmds};
use crate::msg::{BidDenoms, CategoryTypes};
use crate::addr::{lower_of, lowercase};
use crate::msg::DECIMAL_FRACTIONAL;
use vstd::string::StringExecFns;

verus! {

/// Sets the orchestrator up with its initial configuration; no launches
/// exist yet and no continuation is outstanding.
pub fn instantiate(msg: InstantiateMsg) -> (r: State)
    ensures
        r.config == (Config {
            owner: msg.owner,
            token: msg.token,
            tokenomics: msg.tokenomics,
            pilot: msg.pilot,
            flows: msg.flows,
            fin: msg.fin,
            bow: msg.bow,
        }),
        r.launches@ =~= Seq::<Launch>::empty(),
        r.reply is None,
        r.wf(),
{
    State::new_state(
        Config {
            owner: msg.owner,
            token: msg.token,
            tokenomics: msg.tokenomics,
            pilot: msg.pilot,
            flows: msg.flows,
            fin: msg.fin,
            bow: msg.bow,
        },
    )
}

/// Replaces the configured values that are given; only the configured owner
/// may. Never touches the launches or the continuation slot.
pub fn handle_update_config(
    state: &mut State,
    info: &MessageInfo,
    owner: Option<String>,
    token: Option<TokenConfig>,
    tokenomics: Option<TokenomicsConfig>,
    pilot: Option<PilotConfig>,
    flows: Option<FlowsConfig>,
    fin: Option<FinConfig>,
    bow: Option<BowConfig>,
) -> (r: Result<Response, ContractError>)
    requires
        old(state).wf(),
    ensures
        final(state).wf(),
        final(state).launches@ == old(state).launches@,
        final(state).reply == old(state).reply,
        r is Err ==> *final(state) == *old(state),
        r is Ok <==> info.sender@ == old(state).config.owner@,
        r is Err ==> r->Err_0 == (ContractError::Unauthorized {}),
        r is Ok ==> ({
            &&& final(state).config.owner == (match owner {
                Some(o) => o,
                None => old(state).config.owner,
            })
            &&& final(state).config.token == (match token {
                Some(v) => v,
                None => old(state).config.token,
            })
            &&& final(state).config.tokenomics == (match tokenomics {
                Some(v) => v,
                None => old(state).config.tokenomics,
            })
            &&& final(state).config.pilot == (match pilot {
                Some(v) => v,
                None => old(state).config.pilot,
            })
            &&& final(state).config.flows == (match flows {
                Some(v) => v,
                None => old(state).config.flows,
            })
            &&& final(state).config.fin == (match fin {
                Some(v) => v,
                None => old(state).config.fin,
            })
            &&& final(state).config.bow == (match bow {
                Some(v) => v,
                None => old(state).config.bow,
            })
            &&& r->Ok_0.commands@.len() == 0
        }),
{
    if !(info.sender == state.config.owner) {
        return Err(ContractError::Unauthorized {});
    }
    match owner {
        Some(o) => {
            state.config.owner = o;
        },
        None => {},
    }
    match token {
        Some(v) => {
            state.config.token = v;
        },
        None => {},
    }
    match tokenomics {
        Some(v) => {
            state.config.tokenomics = v;
        },
        None => {},
    }
    match pilot {
        Some(v) => {
            state.config.pilot = v;
        },
        None => {},
    }
    match flows {
        Some(v) => {
            state.config.flows = v;
        },
        None => {},
    }
    match fin {
        Some(v) => {
            state.config.fin = v;
        },
        None => {},
    }
    match bow {
        Some(v) => {
            state.config.bow = v;
        },
        None => {},
    }
    Ok(Response { commands: Vec::new() })
}

/// The attached funds are exactly the sale engine's configured deposit.
pub open spec fn deposit_paid(funds: Seq<Coin>, deposit: Coin) -> bool {
    &&& funds.len() == 1
    &&& funds[0].denom@ == deposit.denom@
    &&& funds[0].amount == deposit.amount
}

/// Registers a new launch for the caller: the configured deposit must be
/// attached, the terms accepted, and no launch of this owner may exist yet.
/// The new launch takes the next sequence number and starts in `Created`.
pub fn handle_create(
    state: &mut State,
    info: &MessageInfo,
    ext: &ExternalView,
    terms_conditions_accepted: bool,
) -> (r: Result<Response, ContractError>)
    requires
        old(state).wf(),
    ensures
        final(state).wf(),
        final(state).config == old(state).config,
        final(state).reply == old(state).reply,
        r is Err ==> *final(state) == *old(state),
        r is Ok <==> (deposit_paid(info.funds@, ext.pilot.deposit) && terms_conditions_accepted
            && !(exists|i: int|
            0 <= i < old(state).launches@.len() && (#[trigger] old(
                state,
            ).launches@[i]).owner@ == info.sender@)),
        !deposit_paid(info.funds@, ext.pilot.deposit) ==> r == Err::<Response, ContractError>(
            ContractError::Payment { denom: ext.pilot.deposit.denom },
        ),
        deposit_paid(info.funds@, ext.pilot.deposit) && !terms_conditions_accepted ==> r == Err::<
            Response,
            ContractError,
        >(ContractError::TermsConditionsAccepted {}),
        (deposit_paid(info.funds@, ext.pilot.deposit) && terms_conditions_accepted && (exists|i: int|
            0 <= i < old(state).launches@.len() && (#[trigger] old(
                state,
            ).launches@[i]).owner@ == info.sender@)) ==> r == Err::<Response, ContractError>(
            ContractError::SaleAlreadyExistsOwner { owner: info.sender },
        ),
        r is Ok ==> ({
            &&& final(state).launches@ == old(state).launches@.push(
                Launch {
                    idx: old(state).launches@.len() as u128,
                    owner: info.sender,
                    deposit: info.funds@[0],
                    status: LaunchStatus::Created,
                    token: None,
                    tokenomics: None,
                    pilot: None,
                    fin: None,
                    bow: None,
                },
            )
            &&& r->Ok_0.commands@.len() == 0
        }),
{
    let funds_ok = info.funds.len() == 1 && info.funds[0].denom == ext.pilot.deposit.denom
        && info.funds[0].amount == ext.pilot.deposit.amount;
    if !funds_ok {
        return Err(ContractError::Payment { denom: ext.pilot.deposit.denom.clone() });
    }
    if !terms_conditions_accepted {
        return Err(ContractError::TermsConditionsAccepted {});
    }
    if state.owner_exists(&info.sender) {
        return Err(ContractError::SaleAlreadyExistsOwner { owner: info.sender.clone() });
    }
    let idx = state.launches.len() as u128;
    let launch = Launch::new(idx, info.sender.clone(), info.funds[0].clone());
    let ghost pre = state.launches@;
    state.launches.push(launch);
    proof {
        assert forall|i: int|
            0 <= i < state.launches@.len() implies (#[trigger] state.launches@[i]).idx == i
            && launch_wf(state.launches@[i]) by {
            if i < pre.len() {
                assert(state.launches@[i] == pre[i]);
            }
        }
    }
    Ok(Response { commands: Vec::new() })
}

/// Executes the sale on the sale engine and moves the launch to
/// `Completed`; accepted only while the sale is in progress and its
/// external identifier has been recorded.
pub fn handle_pilot_execute(state: &mut State, idx: u128) -> (r: Result<Response, ContractError>)
    requires
        old(state).wf(),
    ensures
        final(state).wf(),
        final(state).config == old(state).config,
        final(state).reply == old(state).reply,
        r is Err ==> *final(state) == *old(state),
        idx >= old(state).launches@.len() ==> r is Err && r->Err_0 is Std,
        idx < old(state).launches@.len() && old(state).launches@[idx as int].status
            != LaunchStatus::InProgress ==> r == Err::<Response, ContractError>(
            ContractError::Unauthorized {},
        ),
        r is Ok <==> (idx < old(state).launches@.len() && old(
            state,
        ).launches@[idx as int].status == LaunchStatus::InProgress && old(
            state,
        ).launches@[idx as int].pilot is Some && old(
            state,
        ).launches@[idx as int].pilot->Some_0.idx is Some),
        r is Ok ==> ({
            &&& final(state).launches@ == old(state).launches@.update(
                idx as int,
                Launch { status: LaunchStatus::Completed, ..old(state).launches@[idx as int] },
            )
            &&& r->Ok_0.commands@ == seq![
                Command::PilotExecuteSale {
                    idx: old(state).launches@[idx as int].pilot->Some_0.idx->Some_0,
                },
            ]
        }),
{
    if idx >= state.launches.len() as u128 {
        return Err(ContractError::Std { msg: "launch not found".to_owned() });
    }
    let i = idx as usize;
    if !(match state.launches[i].status {
        LaunchStatus::InProgress => true,
        _ => false,
    }) {
        return Err(ContractError::Unauthorized {});
    }
    let pilot_idx: u128 = match &state.launches[i].pilot {
        Some(p) => match p.idx {
            Some(v) => v,
            None => {
                return Err(ContractError::InvalidStatus {});
            },
        },
        None => {
            return Err(ContractError::InvalidStatus {});
        },
    };
    let mut l = state.launches.remove(i);
    l.status = LaunchStatus::Completed;
    state.launches.insert(i, l);
    proof {
        assert(state.launches@ =~= old(state).launches@.update(
            idx as int,
            Launch { status: LaunchStatus::Completed, ..old(state).launches@[idx as int] },
        ));
    }
    let mut commands: Vec<Command> = Vec::new();
    commands.push(Command::PilotExecuteSale { idx: pilot_idx });
    Ok(Response { commands })
}

/// Administrative passthrough: points a contract's admin somewhere new;
/// only the configured owner may.
pub fn handle_set_contract_admin(
    state: &State,
    info: &MessageInfo,
    contract: String,
    admin: String,
) -> (r: Result<Response, ContractError>)
    ensures
        r is Ok <==> info.sender@ == state.config.owner@,
        r is Err ==> r->Err_0 == (ContractError::Unauthorized {}),
        r is Ok ==> r->Ok_0.commands@ == seq![Command::WasmUpdateAdmin { contract, admin }],
{
    if !(info.sender == state.config.owner) {
        return Err(ContractError::Unauthorized {});
    }
    let mut commands: Vec<Command> = Vec::new();
    commands.push(Command::WasmUpdateAdmin { contract, admin });
    Ok(Response { commands })
}

/// Administrative passthrough: forwards a raw message to a contract; only
/// the configured owner may.
pub fn handle_execute_contract(
    state: &State,
    info: &MessageInfo,
    contract: String,
    msg: Vec<u8>,
) -> (r: Result<Response, ContractError>)
    ensures
        r is Ok <==> info.sender@ == state.config.owner@,
        r is Err ==> r->Err_0 == (ContractError::Unauthorized {}),
        r is Ok ==> cmds_eqv(
            r->Ok_0.commands@,
            seq![Command::WasmExecuteRaw { contract, msg }],
        ),
{
    if !(info.sender == state.config.owner) {
        return Err(ContractError::Unauthorized {});
    }
    let mut commands: Vec<Command> = Vec::new();
    commands.push(Command::WasmExecuteRaw { contract, msg });
    Ok(Response { commands })
}

/// Opens trading on a settled launch's pair and hands the pair's ownership
/// to the configured pair owner. Accepted from the configured owner, the
/// pair owner or the launch's owner, once settlement has populated both
/// pool addresses. Mutates nothing.
pub fn handle_launch_fin(state: &State, info: &MessageInfo, idx: u128) -> (r: Result<
    Response,
    ContractError,
>)
    requires
        state.wf(),
    ensures
        idx >= state.launches@.len() ==> r is Err && r->Err_0 is Std,
        r is Ok <==> (idx < state.launches@.len() && {
            let l = state.launches@[idx as int];
            &&& (info.sender@ == state.config.owner@ || info.sender@ == state.config.fin.owner@
                || info.sender@ == l.owner@)
            &&& l.status == LaunchStatus::Completed
            &&& l.fin is Some
            &&& l.fin->Some_0.contract_address is Some
            &&& l.bow is Some
        }),
        r is Ok ==> r->Ok_0.commands@ == seq![
            Command::FinLaunchPair {
                contract: state.launches@[idx as int].fin->Some_0.contract_address->Some_0,
            },
            Command::FinSetOwner {
                contract: state.launches@[idx as int].fin->Some_0.contract_address->Some_0,
                owner: state.config.fin.owner,
            },
        ],
{
    if idx >= state.launches.len() as u128 {
        return Err(ContractError::Std { msg: "launch not found".to_owned() });
    }
    let i = idx as usize;
    let l = &state.launches[i];
    let sender_ok = info.sender == state.config.owner || info.sender == state.config.fin.owner
        || info.sender == l.owner;
    if !sender_ok {
        return Err(ContractError::Unauthorized {});
    }
    let status_ok = match l.status {
        LaunchStatus::Completed => true,
        _ => false,
    };
    let fin_addr: &String = match &l.fin {
        Some(f) => match &f.contract_address {
            Some(a) => a,
            None => {
                return Err(ContractError::Unauthorized {});
            },
        },
        None => {
            return Err(ContractError::Unauthorized {});
        },
    };
    if !(status_ok && l.bow.is_some()) {
        return Err(ContractError::Unauthorized {});
    }
    let mut commands: Vec<Command> = Vec::new();
    commands.push(Command::FinLaunchPair { contract: fin_addr.clone() });
    commands.push(
        Command::FinSetOwner { contract: fin_addr.clone(), owner: state.config.fin.owner.clone() },
    );
    Ok(Response { commands })
}

/// Replaces the sale description of an in-progress launch, on the launch
/// and on the sale engine. Accepted from the configured owner or the
/// launch's owner.
pub fn handle_update_description(
    state: &mut State,
    info: &MessageInfo,
    idx: u128,
    description: String,
) -> (r: Result<Response, ContractError>)
    requires
        old(state).wf(),
    ensures
        final(state).wf(),
        final(state).config == old(state).config,
        final(state).reply == old(state).reply,
        r is Err ==> *final(state) == *old(state),
        idx >= old(state).launches@.len() ==> r is Err && r->Err_0 is Std,
        r is Ok <==> (idx < old(state).launches@.len() && {
            let l = old(state).launches@[idx as int];
            &&& (info.sender@ == old(state).config.owner@ || info.sender@ == l.owner@)
            &&& l.status == LaunchStatus::InProgress
            &&& l.pilot is Some
            &&& l.pilot->Some_0.idx is Some
        }),
        r is Ok ==> ({
            let l = old(state).launches@[idx as int];
            &&& final(state).launches@ == old(state).launches@.update(
                idx as int,
                Launch {
                    pilot: Some(
                        Pilot {
                            sale: CreateSale { description: description, ..l.pilot->Some_0.sale },
                            ..l.pilot->Some_0
                        },
                    ),
                    ..l
                },
            )
            &&& r->Ok_0.commands@ == seq![
                Command::PilotUpdateDescription {
                    idx: l.pilot->Some_0.idx->Some_0,
                    description: description,
                },
            ]
        }),
{
    if idx >= state.launches.len() as u128 {
        return Err(ContractError::Std { msg: "launch not found".to_owned() });
    }
    let i = idx as usize;
    let sender_ok = info.sender == state.config.owner || info.sender == state.launches[i].owner;
    let status_ok = match state.launches[i].status {
        LaunchStatus::InProgress => true,
        _ => false,
    };
    if !(sender_ok && status_ok) {
        return Err(ContractError::Unauthorized {});
    }
    let pilot_idx: u128 = match &state.launches[i].pilot {
        Some(p) => match p.idx {
            Some(v) => v,
            None => {
                return Err(ContractError::Unauthorized {});
            },
        },
        None => {
            return Err(ContractError::Unauthorized {});
        },
    };
    let mut l = state.launches.remove(i);
    let mut pilot = match l.pilot {
        Some(p) => p,
        None => unreached(),
    };
    pilot.sale.description = description.clone();
    l.pilot = Some(pilot);
    state.launches.insert(i, l);
    proof {
        let lo = old(state).launches@[idx as int];
        assert(state.launches@ =~= old(state).launches@.update(
            idx as int,
            Launch {
                pilot: Some(
                    Pilot {
                        sale: CreateSale { description: description, ..lo.pilot->Some_0.sale },
                        ..lo.pilot->Some_0
                    },
                ),
                ..lo
            },
        ));
    }
    let mut commands: Vec<Command> = Vec::new();
    commands.push(Command::PilotUpdateDescription { idx: pilot_idx, description });
    Ok(Response { commands })
}

/// Resumes after the sale engine reports the sale created: consumes the
/// outstanding continuation record, stores the external sale identifier on
/// the launch it names, and frees the slot. Unknown completion tags are
/// rejected.
pub fn handle_reply(state: &mut State, id: u64, sale_idx: Option<u128>) -> (r: Result<
    Response,
    ContractError,
>)
    requires
        old(state).wf(),
    ensures
        final(state).wf(),
        final(state).config == old(state).config,
        r is Err ==> *final(state) == *old(state),
        old(state).reply is None ==> r is Err && r->Err_0 is Std,
        old(state).reply is Some && id != 1 ==> r == Err::<Response, ContractError>(
            ContractError::UnknownReplyId { id },
        ),
        r is Ok <==> (old(state).reply is Some && id == 1 && old(state).reply->Some_0.idx < old(
            state,
        ).launches@.len() && old(
            state,
        ).launches@[old(state).reply->Some_0.idx as int].pilot is Some && sale_idx is Some),
        r is Ok ==> ({
            let ri = old(state).reply->Some_0.idx;
            let l = old(state).launches@[ri as int];
            &&& final(state).launches@ == old(state).launches@.update(
                ri as int,
                Launch {
                    pilot: Some(Pilot { idx: Some(sale_idx->Some_0), ..l.pilot->Some_0 }),
                    ..l
                },
            )
            &&& final(state).reply is None
            &&& r->Ok_0.commands@.len() == 0
        }),
{
    let reply_info = match &state.reply {
        Some(ri) => ReplyInfo { reply_type: ri.reply_type, idx: ri.idx },
        None => {
            return Err(ContractError::Std { msg: "no continuation outstanding".to_owned() });
        },
    };
    if id != 1 {
        return Err(ContractError::UnknownReplyId { id });
    }
    if reply_info.idx >= state.launches.len() as u128 {
        return Err(ContractError::Std { msg: "launch not found".to_owned() });
    }
    let v: u128 = match sale_idx {
        Some(v) => v,
        None => {
            return Err(ContractError::Std { msg: "sale identifier missing".to_owned() });
        },
    };
    let i = reply_info.idx as usize;
    if state.launches[i].pilot.is_none() {
        return Err(ContractError::Std { msg: "sale plan missing".to_owned() });
    }
    let mut l = state.launches.remove(i);
    let mut pilot = match l.pilot {
        Some(p) => p,
        None => unreached(),
    };
    pilot.idx = Some(v);
    l.pilot = Some(pilot);
    state.launches.insert(i, l);
    state.reply = None;
    proof {
        let ri = old(state).reply->Some_0.idx;
        let lo = old(state).launches@[ri as int];
        assert(state.launches@ =~= old(state).launches@.update(
            ri as int,
            Launch { pilot: Some(Pilot { idx: Some(v), ..lo.pilot->Some_0 }), ..lo },
        ));
    }
    Ok(Response { commands: Vec::new() })
}


/// The shape a token command must have: when creating a managed token, the
/// denom and decimals are determined by the orchestrator and must not be
/// given, while the symbol and both logo forms must; when storing an
/// external token, every descriptor field must be given.
pub open spec fn token_shape_ok(
    create: bool,
    symbol: Option<String>,
    denom: Option<String>,
    decimals: Option<u8>,
    png_url: Option<String>,
    svg_url: Option<String>,
) -> bool {
    if create {
        denom is None && symbol is Some && png_url is Some && svg_url is Some
    } else {
        denom is Some && symbol is Some && decimals is Some && png_url is Some && svg_url is Some
    }
}

/// Creates or stores the token information of a launch in `Created` status.
/// Creating mints a fresh managed denom under the orchestrator (six
/// decimals, a factory denom derived from the lower-cased symbol) for the
/// configured fee; storing records an existing denom, whose on-chain supply
/// must be verifiably non-zero. A managed token, once set, cannot be
/// overridden.
pub fn handle_token(
    state: &mut State,
    env: &Env,
    info: &MessageInfo,
    ext: &ExternalView,
    idx: u128,
    create: bool,
    symbol: Option<String>,
    denom: Option<String>,
    decimals: Option<u8>,
    denom_admin: Option<String>,
    png_url: Option<String>,
    svg_url: Option<String>,
) -> (r: Result<Response, ContractError>)
    requires
        old(state).wf(),
    ensures
        final(state).wf(),
        final(state).config == old(state).config,
        final(state).reply == old(state).reply,
        r is Err ==> *final(state) == *old(state),
        idx >= old(state).launches@.len() ==> r is Err && (r->Err_0 is Std),
        r is Ok <==> (idx < old(state).launches@.len() && ({
            let l = old(state).launches@[idx as int];
            &&& info.sender@ == l.owner@
            &&& l.status == LaunchStatus::Created
            &&& token_shape_ok(create, symbol, denom, decimals, png_url, svg_url)
            &&& (create ==> deposit_paid(info.funds@, old(state).config.token.denom_fee)
                && l.token is None)
            &&& (denom is Some ==> ext.denom_supply is Some && ext.denom_supply->Some_0 > 0)
            &&& ((l.token is Some && l.token->Some_0.is_managed) ==> denom is None
                && symbol is None && decimals is None)
        })),
        r is Ok && create ==> ({
            let l = old(state).launches@[idx as int];
            let tok = final(state).launches@[idx as int].token->Some_0;
            &&& final(state).launches@ == old(state).launches@.update(
                idx as int,
                Launch { token: Some(tok), ..l },
            )
            &&& tok.denom@ == "factory/"@ + env.contract_address@ + "/u"@ + lower_of(
                symbol->Some_0@,
            )
            &&& tok.symbol == symbol->Some_0
            &&& tok.decimals == 6
            &&& tok.is_managed
            &&& tok.denom_admin == denom_admin
            &&& tok.png_url == png_url
            &&& tok.svg_url == svg_url
            &&& r->Ok_0.commands@.len() == 1
            &&& r->Ok_0.commands@[0] matches Command::DenomCreate { subdenom }
                && subdenom@ == "u"@ + lower_of(symbol->Some_0@)
        }),
        r is Ok && !create ==> ({
            let l = old(state).launches@[idx as int];
            &&& final(state).launches@ == old(state).launches@.update(
                idx as int,
                Launch {
                    token: Some(
                        Token {
                            denom: denom->Some_0,
                            symbol: symbol->Some_0,
                            decimals: decimals->Some_0,
                            is_managed: false,
                            denom_admin: denom_admin,
                            png_url: png_url,
                            svg_url: svg_url,
                        },
                    ),
                    ..l
                },
            )
            &&& r->Ok_0.commands@.len() == 0
        }),
{
    if idx >= state.launches.len() as u128 {
        return Err(ContractError::Std { msg: "launch not found".to_owned() });
    }
    let i = idx as usize;
    if !(info.sender == state.launches[i].owner) {
        return Err(ContractError::Unauthorized {});
    }
    if !(match state.launches[i].status {
        LaunchStatus::Created => true,
        _ => false,
    }) {
        return Err(ContractError::InvalidStatus {});
    }
    if create {
        let fee = &state.config.token.denom_fee;
        if !(info.funds.len() == 1 && info.funds[0].denom == fee.denom && info.funds[0].amount
            == fee.amount) {
            return Err(ContractError::InvalidFunds {});
        }
        if state.launches[i].token.is_some() {
            return Err(ContractError::TokenAlreadyExists {});
        }
        if !(denom.is_none() && symbol.is_some() && png_url.is_some() && svg_url.is_some()) {
            return Err(ContractError::InvalidInput {});
        }
    } else {
        if !(denom.is_some() && symbol.is_some() && decimals.is_some() && png_url.is_some()
            && svg_url.is_some()) {
            return Err(ContractError::InvalidInput {});
        }
    }
    match &denom {
        Some(d) => {
            let supply_ok = match ext.denom_supply {
                Some(s) => s > 0,
                None => false,
            };
            if !supply_ok {
                return Err(ContractError::InvalidDenom { denom: d.clone() });
            }
        },
        None => {},
    }
    match &state.launches[i].token {
        Some(tok) => {
            if tok.is_managed {
                if !(denom.is_none() && symbol.is_none() && decimals.is_none()) {
                    return Err(ContractError::Unauthorized {});
                }
            }
        },
        None => {},
    }
    let mut commands: Vec<Command> = Vec::new();
    let launch_token: Token = if create {
        let sym = match &symbol {
            Some(s) => s,
            None => unreached(),
        };
        let lower = lowercase(sym.as_str());
        let mut subdenom = String::from_str("u");
        subdenom.append(lower.as_str());
        let mut denom_s = String::from_str("factory/");
        denom_s.append(env.contract_address.as_str());
        denom_s.append("/u");
        denom_s.append(lower.as_str());
        proof {
            assert(subdenom@ =~= "u"@ + lower_of(sym@));
            assert(denom_s@ =~= "factory/"@ + env.contract_address@ + "/u"@ + lower_of(sym@));
        }
        commands.push(Command::DenomCreate { subdenom });
        Token {
            denom: denom_s,
            symbol: sym.clone(),
            decimals: 6,
            is_managed: true,
            denom_admin: denom_admin,
            png_url: png_url,
            svg_url: svg_url,
        }
    } else {
        let d = match denom {
            Some(d) => d,
            None => unreached(),
        };
        let sym = match symbol {
            Some(s) => s,
            None => unreached(),
        };
        let dec = match decimals {
            Some(v) => v,
            None => unreached(),
        };
        Token {
            denom: d,
            symbol: sym,
            decimals: dec,
            is_managed: false,
            denom_admin: denom_admin,
            png_url: png_url,
            svg_url: svg_url,
        }
    };
    let mut l = state.launches.remove(i);
    l.token = Some(launch_token);
    state.launches.insert(i, l);
    proof {
        assert(state.launches@ =~= old(state).launches@.update(
            idx as int,
            Launch {
                token: state.launches@[idx as int].token,
                ..old(state).launches@[idx as int]
            },
        ));
    }
    Ok(Response { commands })
}

/// Sets the distribution plan of a launch: the caller must own it, token
/// information must exist, no sale plan may exist yet, and the plan must
/// pass the validator against the sale engine's fee and the configured
/// minimum liquidity share. Accepted exactly once per launch.
pub fn handle_tokenomics(
    state: &mut State,
    info: &MessageInfo,
    ext: &ExternalView,
    idx: u128,
    categories: Vec<crate::msg::TokenomicsCategories>,
) -> (r: Result<Response, ContractError>)
    requires
        old(state).wf(),
    ensures
        final(state).wf(),
        final(state).config == old(state).config,
        final(state).reply == old(state).reply,
        r is Err ==> *final(state) == *old(state),
        idx >= old(state).launches@.len() ==> r is Err && (r->Err_0 is Std),
        r is Ok <==> (idx < old(state).launches@.len() && ({
            let l = old(state).launches@[idx as int];
            &&& info.sender@ == l.owner@
            &&& l.token is Some
            &&& l.pilot is None
            &&& validate_spec(
                categories@,
                ext.pilot.sale_fee,
                old(state).config.tokenomics.minimum_liquidity_one_side,
            ) is Ok
        })),
        (idx < old(state).launches@.len() && validate_spec(
            categories@,
            ext.pilot.sale_fee,
            old(state).config.tokenomics.minimum_liquidity_one_side,
        ) is Err && ({
            let l = old(state).launches@[idx as int];
            &&& info.sender@ == l.owner@
            &&& l.token is Some
            &&& l.pilot is None
        })) ==> r == Err::<Response, ContractError>(
            validate_spec(
                categories@,
                ext.pilot.sale_fee,
                old(state).config.tokenomics.minimum_liquidity_one_side,
            )->Err_0,
        ),
        r is Ok ==> ({
            let l = old(state).launches@[idx as int];
            &&& final(state).launches@ == old(state).launches@.update(
                idx as int,
                Launch { tokenomics: Some(Tokenomics { categories }), ..l },
            )
            &&& r->Ok_0.commands@.len() == 0
        }),
{
    if idx >= state.launches.len() as u128 {
        return Err(ContractError::Std { msg: "launch not found".to_owned() });
    }
    let i = idx as usize;
    if !(info.sender == state.launches[i].owner) {
        return Err(ContractError::Unauthorized {});
    }
    if !(state.launches[i].token.is_some() && state.launches[i].pilot.is_none()) {
        return Err(ContractError::Unauthorized {});
    }
    match validate_tokenomics(
        &categories,
        ext.pilot.sale_fee,
        state.config.tokenomics.minimum_liquidity_one_side,
    ) {
        Ok(_) => {},
        Err(e) => {
            return Err(e);
        },
    }
    let mut l = state.launches.remove(i);
    l.tokenomics = Some(Tokenomics { categories });
    state.launches.insert(i, l);
    proof {
        assert(state.launches@ =~= old(state).launches@.update(
            idx as int,
            Launch {
                tokenomics: state.launches@[idx as int].tokenomics,
                ..old(state).launches@[idx as int]
            },
        ));
    }
    Ok(Response { commands: Vec::new() })
}


/// The chosen raise denom appears in the configured allow-list.
pub open spec fn bid_denom_allowed(pc: PilotConfig, bd: String) -> bool {
    exists|i: int|
        0 <= i < pc.allowed_bid_denoms@.len() && (#[trigger] pc.allowed_bid_denoms@[i]).denom@
            == bd@
}

/// Whether the allow-list carries the denom.
#[verifier::loop_isolation(false)]
fn bid_denom_allowed_exec(list: &Vec<crate::msg::BidDenoms>, bd: &String) -> (r: bool)
    ensures
        r == exists|i: int|
            0 <= i < list@.len() && (#[trigger] list@[i]).denom@ == bd@,
{
    let mut i: usize = 0;
    while i < list.len()
        invariant
            0 <= i <= list@.len(),
            forall|m: int| 0 <= m < i ==> (#[trigger] list@[m]).denom@ != bd@,
        decreases list@.len() - i,
    {
        if list[i].denom == *bd {
            return true;
        }
        i += 1;
    }
    false
}

/// The minimum raise a scheduled sale can produce: the sale amount priced at
/// the base price, scaled by the bid queue's maximum premium factor, every
/// product over a widened intermediate; `None` where a step leaves the
/// working width.
pub open spec fn min_raise_spec(s_amt: int, price: int, max_slot: int, premium: int) -> Option<
    int,
> {
    let d = DECIMAL_FRACTIONAL as int;
    let a = mul_div_floor(s_amt, price, d);
    if a > u128::MAX {
        None
    } else {
        let sp = max_slot * premium;
        if sp > u128::MAX {
            None
        } else {
            let r = mul_div_floor(a, sp, d);
            if r > u128::MAX {
                None
            } else {
                Some(r)
            }
        }
    }
}

/// A positive minimum raise forces a positive sale amount.
proof fn lemma_min_raise_positive(s_amt: int, price: int, max_slot: int, premium: int)
    requires
        s_amt >= 0,
        price >= 0,
        max_slot >= 0,
        premium >= 0,
        min_raise_spec(s_amt, price, max_slot, premium) is Some,
        min_raise_spec(s_amt, price, max_slot, premium)->Some_0 >= 1,
    ensures
        s_amt >= 1,
{
    let d = DECIMAL_FRACTIONAL as int;
    if s_amt == 0 {
        assert(s_amt * price == 0) by (nonlinear_arith)
            requires
                s_amt == 0,
        ;
        let a = mul_div_floor(s_amt, price, d);
        assert(a == 0);
        let sp = max_slot * premium;
        assert(a * sp == 0) by (nonlinear_arith)
            requires
                a == 0,
        ;
        assert(mul_div_floor(a, sp, d) == 0);
    }
}

/// Schedules the sale: stores its parameters and the bid-queue parameters
/// on the launch without creating anything with the sale engine yet. The
/// raise denom must be allowed, the projected minimum raise must exceed the
/// configured floor, and the beneficiary is rewritten to the orchestrator's
/// own address so settlement funds first land under orchestrator control.
/// Reschedulable while still `Planned`.
pub fn handle_pilot_schedule(
    state: &mut State,
    env: &Env,
    info: &MessageInfo,
    idx: u128,
    sale: CreateSale,
    orca: CreateOrca,
) -> (r: Result<Response, ContractError>)
    requires
        old(state).wf(),
    ensures
        final(state).wf(),
        final(state).config == old(state).config,
        final(state).reply == old(state).reply,
        r is Err ==> *final(state) == *old(state),
        idx >= old(state).launches@.len() ==> r is Err && (r->Err_0 is Std),
        r is Ok <==> (idx < old(state).launches@.len() && ({
            let l = old(state).launches@[idx as int];
            let mr = min_raise_spec(
                sale_amount(l.tokenomics->Some_0.categories@) as int,
                sale.price as int,
                orca.max_slot as int,
                orca.premium_rate_per_slot as int,
            );
            &&& info.sender@ == l.owner@
            &&& l.token is Some
            &&& l.tokenomics is Some
            &&& (l.pilot is None || l.status == LaunchStatus::Planned)
            &&& bid_denom_allowed(old(state).config.pilot, orca.bid_denom)
            &&& mr is Some
            &&& mr->Some_0 > old(state).config.pilot.min_raise_amount
        })),
        (idx < old(state).launches@.len() && ({
            let l = old(state).launches@[idx as int];
            &&& info.sender@ == l.owner@
            &&& l.token is Some
            &&& l.tokenomics is Some
            &&& (l.pilot is None || l.status == LaunchStatus::Planned)
            &&& !bid_denom_allowed(old(state).config.pilot, orca.bid_denom)
        })) ==> r == Err::<Response, ContractError>(ContractError::InvalidBidDenom {}),
        (idx < old(state).launches@.len() && ({
            let l = old(state).launches@[idx as int];
            &&& info.sender@ == l.owner@
            &&& l.token is Some
            &&& l.tokenomics is Some
            &&& (l.pilot is None || l.status == LaunchStatus::Planned)
            &&& bid_denom_allowed(old(state).config.pilot, orca.bid_denom)
            &&& min_raise_spec(
                sale_amount(l.tokenomics->Some_0.categories@) as int,
                sale.price as int,
                orca.max_slot as int,
                orca.premium_rate_per_slot as int,
            ) is None
        })) ==> r == Err::<Response, ContractError>(ContractError::Overflow {}),
        (idx < old(state).launches@.len() && ({
            let l = old(state).launches@[idx as int];
            let mr = min_raise_spec(
                sale_amount(l.tokenomics->Some_0.categories@) as int,
                sale.price as int,
                orca.max_slot as int,
                orca.premium_rate_per_slot as int,
            );
            &&& info.sender@ == l.owner@
            &&& l.token is Some
            &&& l.tokenomics is Some
            &&& (l.pilot is None || l.status == LaunchStatus::Planned)
            &&& bid_denom_allowed(old(state).config.pilot, orca.bid_denom)
            &&& mr is Some
            &&& mr->Some_0 <= old(state).config.pilot.min_raise_amount
        })) ==> r == Err::<Response, ContractError>(
            ContractError::InvalidRaiseAmount {
                computed: min_raise_spec(
                    sale_amount(
                        old(state).launches@[idx as int].tokenomics->Some_0.categories@,
                    ) as int,
                    sale.price as int,
                    orca.max_slot as int,
                    orca.premium_rate_per_slot as int,
                )->Some_0 as u128,
                minimum: old(state).config.pilot.min_raise_amount,
            },
        ),
        r is Ok ==> ({
            let l = old(state).launches@[idx as int];
            &&& final(state).launches@ == old(state).launches@.update(
                idx as int,
                Launch {
                    pilot: Some(
                        Pilot {
                            idx: None,
                            beneficiary: sale.beneficiary,
                            sale: (CreateSale { beneficiary: env.contract_address, ..sale }),
                            orca: orca,
                        },
                    ),
                    status: LaunchStatus::Planned,
                    ..l
                },
            )
            &&& r->Ok_0.commands@.len() == 0
        }),
{
    if idx >= state.launches.len() as u128 {
        return Err(ContractError::Std { msg: "launch not found".to_owned() });
    }
    let i = idx as usize;
    if !(info.sender == state.launches[i].owner) {
        return Err(ContractError::Unauthorized {});
    }
    let planned = match state.launches[i].status {
        LaunchStatus::Planned => true,
        _ => false,
    };
    if !(state.launches[i].token.is_some() && state.launches[i].tokenomics.is_some() && (
    state.launches[i].pilot.is_none() || planned)) {
        return Err(ContractError::Unauthorized {});
    }
    if !bid_denom_allowed_exec(&state.config.pilot.allowed_bid_denoms, &orca.bid_denom) {
        return Err(ContractError::InvalidBidDenom {});
    }
    let s_amt = match &state.launches[i].tokenomics {
        Some(t) => sale_recipient_amount(&t.categories),
        None => unreached(),
    };
    let a = match checked_mul_ratio(s_amt, sale.price, DECIMAL_FRACTIONAL) {
        Some(v) => v,
        None => {
            return Err(ContractError::Overflow {});
        },
    };
    let sp = match checked_mul_u128(orca.max_slot as u128, orca.premium_rate_per_slot) {
        Some(v) => v,
        None => {
            return Err(ContractError::Overflow {});
        },
    };
    let min_raise = match checked_mul_ratio(a, sp, DECIMAL_FRACTIONAL) {
        Some(v) => v,
        None => {
            return Err(ContractError::Overflow {});
        },
    };
    if !(min_raise > state.config.pilot.min_raise_amount) {
        return Err(
            ContractError::InvalidRaiseAmount {
                computed: min_raise,
                minimum: state.config.pilot.min_raise_amount,
            },
        );
    }
    proof {
        lemma_min_raise_positive(
            s_amt as int,
            sale.price as int,
            orca.max_slot as int,
            orca.premium_rate_per_slot as int,
        );
    }
    let beneficiary = sale.beneficiary.clone();
    let new_sale = CreateSale { beneficiary: env.contract_address.clone(), ..sale };
    let mut l = state.launches.remove(i);
    l.pilot = Some(Pilot { idx: None, beneficiary, sale: new_sale, orca });
    l.status = LaunchStatus::Planned;
    state.launches.insert(i, l);
    proof {
        assert(state.launches@ =~= old(state).launches@.update(
            idx as int,
            Launch {
                pilot: state.launches@[idx as int].pilot,
                status: LaunchStatus::Planned,
                ..old(state).launches@[idx as int]
            },
        ));
    }
    Ok(Response { commands: Vec::new() })
}

/// Starts the scheduled sale: at or after the configured open time, mints
/// the sale amount to itself (managed tokens) or requires it attached
/// (external tokens), asks the sale engine to create the sale with a
/// completion notification, records the continuation, and moves the launch
/// to `InProgress`. Only one continuation may be outstanding at a time.
pub fn handle_pilot_start(
    state: &mut State,
    env: &Env,
    info: &MessageInfo,
    ext: &ExternalView,
    idx: u128,
) -> (r: Result<Response, ContractError>)
    requires
        old(state).wf(),
    ensures
        final(state).wf(),
        final(state).config == old(state).config,
        r is Err ==> *final(state) == *old(state),
        idx >= old(state).launches@.len() ==> r is Err && (r->Err_0 is Std),
        r is Ok <==> (idx < old(state).launches@.len() && ({
            let l = old(state).launches@[idx as int];
            &&& info.sender@ == l.owner@
            &&& l.token is Some
            &&& l.tokenomics is Some
            &&& l.pilot is Some
            &&& l.status == LaunchStatus::Planned
            &&& l.pilot->Some_0.idx is None
            &&& l.pilot->Some_0.sale.opens / 1_000_000_000 <= env.spec_block_seconds()
            &&& old(state).reply is None
            &&& (l.token->Some_0.is_managed || (info.funds@.len() == 1 && info.funds@[0].amount
                == sale_amount(l.tokenomics->Some_0.categories@)))
        })),
        r is Ok ==> ({
            let l = old(state).launches@[idx as int];
            let s_amt = sale_amount(l.tokenomics->Some_0.categories@);
            let create_cmd = Command::PilotCreate {
                sale: l.pilot->Some_0.sale,
                orca: l.pilot->Some_0.orca,
                deposit: ext.pilot.deposit,
                sale_funds: (if l.token->Some_0.is_managed {
                    Coin { denom: l.token->Some_0.denom, amount: s_amt }
                } else {
                    info.funds@[0]
                }),
                reply: ReplyTypes::Create,
            };
            &&& final(state).launches@ == old(state).launches@.update(
                idx as int,
                Launch { status: LaunchStatus::InProgress, ..l },
            )
            &&& final(state).reply == Some(ReplyInfo { reply_type: ReplyTypes::Create, idx })
            &&& r->Ok_0.commands@ == (if l.token->Some_0.is_managed {
                seq![
                    Command::DenomMint {
                        denom: l.token->Some_0.denom,
                        amount: s_amt,
                        recipient: env.contract_address,
                    },
                    create_cmd,
                ]
            } else {
                seq![create_cmd]
            })
        }),
{
    if idx >= state.launches.len() as u128 {
        return Err(ContractError::Std { msg: "launch not found".to_owned() });
    }
    let i = idx as usize;
    if !(info.sender == state.launches[i].owner) {
        return Err(ContractError::Unauthorized {});
    }
    let planned = match state.launches[i].status {
        LaunchStatus::Planned => true,
        _ => false,
    };
    let pilot_ready = match &state.launches[i].pilot {
        Some(p) => p.idx.is_none() && p.sale.opens / 1_000_000_000 <= env.block_seconds(),
        None => false,
    };
    if !(state.launches[i].token.is_some() && state.launches[i].tokenomics.is_some()
        && state.launches[i].pilot.is_some() && planned && pilot_ready) {
        return Err(ContractError::Unauthorized {});
    }
    if state.reply.is_some() {
        return Err(ContractError::InvalidStatus {});
    }
    let s_amt = match &state.launches[i].tokenomics {
        Some(t) => sale_recipient_amount(&t.categories),
        None => unreached(),
    };
    let (is_managed, token_denom) = match &state.launches[i].token {
        Some(t) => (t.is_managed, t.denom.clone()),
        None => unreached(),
    };
    let mut commands: Vec<Command> = Vec::new();
    let sale_funds: Coin = if is_managed {
        commands.push(
            Command::DenomMint {
                denom: token_denom.clone(),
                amount: s_amt,
                recipient: env.contract_address.clone(),
            },
        );
        Coin { denom: token_denom, amount: s_amt }
    } else {
        if info.funds.len() != 1 {
            return Err(ContractError::MultipleDenoms {});
        }
        if info.funds[0].amount != s_amt {
            return Err(ContractError::InvalidFunds {});
        }
        info.funds[0].clone()
    };
    let (sale_cmd, orca_cmd) = match &state.launches[i].pilot {
        Some(p) => (p.sale.clone(), p.orca.clone()),
        None => unreached(),
    };
    commands.push(
        Command::PilotCreate {
            sale: sale_cmd,
            orca: orca_cmd,
            deposit: ext.pilot.deposit.clone(),
            sale_funds,
            reply: ReplyTypes::Create,
        },
    );
    state.reply = Some(ReplyInfo { reply_type: ReplyTypes::Create, idx });
    let mut l = state.launches.remove(i);
    l.status = LaunchStatus::InProgress;
    state.launches.insert(i, l);
    proof {
        assert(state.launches@ =~= old(state).launches@.update(
            idx as int,
            Launch { status: LaunchStatus::InProgress, ..old(state).launches@[idx as int] },
        ));
    }
    Ok(Response { commands })
}

/// Retracts a started sale: asks the sale engine to retract it, hands the
/// mint authority back to the owner (managed tokens), refunds the deposit
/// and the unsold sale amount to the owner, and moves the launch to
/// `Completed`.
pub fn handle_pilot_retract(
    state: &mut State,
    info: &MessageInfo,
    ext: &ExternalView,
    idx: u128,
) -> (r: Result<Response, ContractError>)
    requires
        old(state).wf(),
    ensures
        final(state).wf(),
        final(state).config == old(state).config,
        final(state).reply == old(state).reply,
        r is Err ==> *final(state) == *old(state),
        idx >= old(state).launches@.len() ==> r is Err && (r->Err_0 is Std),
        r is Ok <==> (idx < old(state).launches@.len() && ({
            let l = old(state).launches@[idx as int];
            &&& info.sender@ == l.owner@
            &&& l.status == LaunchStatus::InProgress
            &&& l.pilot->Some_0.idx is Some
        })),
        r is Ok ==> ({
            let l = old(state).launches@[idx as int];
            let s_amt = sale_amount(l.tokenomics->Some_0.categories@);
            let denom = l.token->Some_0.denom;
            let refund_sale = Command::Send {
                to_address: l.owner,
                amount: Coin { denom: denom, amount: s_amt },
            };
            let refund_deposit = Command::Send { to_address: l.owner, amount: ext.pilot.deposit };
            let retract = Command::PilotRetractSale { idx: l.pilot->Some_0.idx->Some_0 };
            &&& final(state).launches@ == old(state).launches@.update(
                idx as int,
                Launch { status: LaunchStatus::Completed, ..l },
            )
            &&& r->Ok_0.commands@ == (if l.token->Some_0.is_managed {
                seq![
                    retract,
                    Command::DenomChangeAdmin { denom: denom, address: l.owner },
                    refund_sale,
                    refund_deposit,
                ]
            } else {
                seq![retract, refund_sale, refund_deposit]
            })
        }),
{
    if idx >= state.launches.len() as u128 {
        return Err(ContractError::Std { msg: "launch not found".to_owned() });
    }
    let i = idx as usize;
    if !(info.sender == state.launches[i].owner) {
        return Err(ContractError::Unauthorized {});
    }
    if !(match state.launches[i].status {
        LaunchStatus::InProgress => true,
        _ => false,
    }) {
        return Err(ContractError::Unauthorized {});
    }
    let pilot_idx: u128 = match &state.launches[i].pilot {
        Some(p) => match p.idx {
            Some(v) => v,
            None => {
                return Err(ContractError::InvalidStatus {});
            },
        },
        None => unreached(),
    };
    let s_amt = match &state.launches[i].tokenomics {
        Some(t) => sale_recipient_amount(&t.categories),
        None => unreached(),
    };
    let (is_managed, token_denom) = match &state.launches[i].token {
        Some(t) => (t.is_managed, t.denom.clone()),
        None => unreached(),
    };
    let owner = state.launches[i].owner.clone();
    let mut commands: Vec<Command> = Vec::new();
    commands.push(Command::PilotRetractSale { idx: pilot_idx });
    if is_managed {
        commands.push(
            Command::DenomChangeAdmin { denom: token_denom.clone(), address: owner.clone() },
        );
    }
    commands.push(
        Command::Send {
            to_address: owner.clone(),
            amount: Coin { denom: token_denom, amount: s_amt },
        },
    );
    commands.push(Command::Send { to_address: owner, amount: ext.pilot.deposit.clone() });
    let mut l = state.launches.remove(i);
    l.status = LaunchStatus::Completed;
    state.launches.insert(i, l);
    proof {
        assert(state.launches@ =~= old(state).launches@.update(
            idx as int,
            Launch { status: LaunchStatus::Completed, ..old(state).launches@[idx as int] },
        ));
    }
    Ok(Response { commands })
}


/// The sum of the declared recipient amounts of a list of recipients.
pub open spec fn rcpt_amounts_sum(rs: Seq<crate::msg::TokenomicsRecipient>) -> int
    decreases rs.len(),
{
    if rs.len() == 0 {
        0
    } else {
        rcpt_amounts_sum(rs.drop_last()) + rs.last().amount
    }
}

/// The total declared outside the sale category: what the owner must attach
/// when settling an externally supplied token.
pub open spec fn non_sale_total(cats: Seq<crate::msg::TokenomicsCategories>) -> int
    decreases cats.len(),
{
    if cats.len() == 0 {
        0
    } else {
        non_sale_total(cats.drop_last()) + (if cats.last().category_type != CategoryTypes::Sale {
            rcpt_amounts_sum(cats.last().recipients@)
        } else {
            0
        })
    }
}

/// Sums the recipient amounts of one list, or `None` on overflow.
#[verifier::loop_isolation(false)]
fn sum_rcpt_amounts(rs: &Vec<crate::msg::TokenomicsRecipient>) -> (r: Option<u128>)
    ensures
        r == (if 0 <= rcpt_amounts_sum(rs@) <= u128::MAX {
            Some(rcpt_amounts_sum(rs@) as u128)
        } else {
            None::<u128>
        }),
{
    let mut acc: u128 = 0;
    let mut i: usize = 0;
    while i < rs.len()
        invariant
            0 <= i <= rs@.len(),
            acc == rcpt_amounts_sum(rs@.take(i as int)),
        decreases rs@.len() - i,
    {
        proof {
            assert(rs@.take(i + 1).drop_last() =~= rs@.take(i as int));
            assert(rs@.take(i + 1).last() == rs@[i as int]);
            lemma_rcpt_sum_prefix(rs@, i + 1);
        }
        match checked_add_u128(acc, rs[i].amount) {
            Some(v) => {
                acc = v;
            },
            None => {
                return None;
            },
        }
        i += 1;
    }
    proof {
        assert(rs@.take(rs@.len() as int) =~= rs@);
    }
    Some(acc)
}

/// Recipient-amount sums are never negative, and prefixes never exceed the
/// whole.
proof fn lemma_rcpt_sum_prefix(rs: Seq<crate::msg::TokenomicsRecipient>, i: int)
    requires
        0 <= i <= rs.len(),
    ensures
        0 <= rcpt_amounts_sum(rs.take(i)) <= rcpt_amounts_sum(rs),
    decreases rs.len(),
{
    if rs.len() == 0 {
    } else if i == rs.len() {
        assert(rs.take(i) =~= rs);
        lemma_rcpt_sum_prefix(rs.drop_last(), rs.len() - 1);
        assert(rs.drop_last().take(rs.len() - 1) =~= rs.drop_last());
    } else {
        assert(rs.take(i) =~= rs.drop_last().take(i));
        lemma_rcpt_sum_prefix(rs.drop_last(), i);
    }
}

/// Non-sale totals of prefixes never exceed the whole, and are never
/// negative.
proof fn lemma_non_sale_prefix(cats: Seq<crate::msg::TokenomicsCategories>, i: int)
    requires
        0 <= i <= cats.len(),
    ensures
        0 <= non_sale_total(cats.take(i)) <= non_sale_total(cats),
    decreases cats.len(),
{
    if cats.len() == 0 {
    } else if i == cats.len() {
        assert(cats.take(i) =~= cats);
        lemma_non_sale_prefix(cats.drop_last(), cats.len() - 1);
        assert(cats.drop_last().take(cats.len() - 1) =~= cats.drop_last());
        lemma_rcpt_sum_prefix(cats.last().recipients@, cats.last().recipients@.len() as int);
        assert(cats.last().recipients@.take(cats.last().recipients@.len() as int)
            =~= cats.last().recipients@);
    } else {
        assert(cats.take(i) =~= cats.drop_last().take(i));
        lemma_non_sale_prefix(cats.drop_last(), i);
        lemma_rcpt_sum_prefix(cats.last().recipients@, 0);
    }
}

/// Sums the declared amounts of every non-sale recipient, or `None` on
/// overflow.
#[verifier::loop_isolation(false)]
fn sum_non_sale(cats: &Vec<crate::msg::TokenomicsCategories>) -> (r: Option<u128>)
    ensures
        r == (if 0 <= non_sale_total(cats@) <= u128::MAX {
            Some(non_sale_total(cats@) as u128)
        } else {
            None::<u128>
        }),
{
    let mut acc: u128 = 0;
    let mut i: usize = 0;
    while i < cats.len()
        invariant
            0 <= i <= cats@.len(),
            acc == non_sale_total(cats@.take(i as int)),
        decreases cats@.len() - i,
    {
        proof {
            assert(cats@.take(i + 1).drop_last() =~= cats@.take(i as int));
            assert(cats@.take(i + 1).last() == cats@[i as int]);
            lemma_non_sale_prefix(cats@, i + 1);
            lemma_non_sale_prefix(cats@, i as int);
            lemma_rcpt_sum_prefix(cats@[i as int].recipients@, 0);
            lemma_rcpt_sum_prefix(
                cats@[i as int].recipients@,
                cats@[i as int].recipients@.len() as int,
            );
            assert(cats@[i as int].recipients@.take(cats@[i as int].recipients@.len() as int)
                =~= cats@[i as int].recipients@);
        }
        let is_sale = match cats[i].category_type {
            CategoryTypes::Sale => true,
            _ => false,
        };
        if !is_sale {
            let part = match sum_rcpt_amounts(&cats[i].recipients) {
                Some(v) => v,
                None => {
                    return None;
                },
            };
            match checked_add_u128(acc, part) {
                Some(v) => {
                    acc = v;
                },
                None => {
                    return None;
                },
            }
        }
        i += 1;
    }
    proof {
        assert(cats@.take(cats@.len() as int) =~= cats@);
    }
    Some(acc)
}

/// The position of the first coin of the given denom, or a negative number.
pub open spec fn find_denom(s: Seq<Coin>, d: Seq<char>) -> int
    decreases s.len(),
{
    if s.len() == 0 {
        -1
    } else if s[0].denom@ == d {
        0
    } else {
        let r = find_denom(s.drop_first(), d);
        if r < 0 {
            -1
        } else {
            1 + r
        }
    }
}

/// What subtracting one coin from an attached fund list leaves: the first
/// coin of that denom loses the amount, disappearing when nothing remains;
/// `None` when the denom is absent or holds too little.
pub open spec fn sub_coin_spec(funds: Seq<Coin>, fee: Coin) -> Option<Seq<Coin>> {
    let i = find_denom(funds, fee.denom@);
    if i < 0 {
        None
    } else if funds[i].amount < fee.amount {
        None
    } else if funds[i].amount == fee.amount {
        Some(funds.remove(i))
    } else {
        Some(
            funds.update(
                i,
                Coin { denom: funds[i].denom, amount: (funds[i].amount - fee.amount) as u128 },
            ),
        )
    }
}

/// The first coin of a denom found by a forward scan is the one the
/// specification names.
proof fn lemma_find_denom_at(s: Seq<Coin>, d: Seq<char>, j: int)
    requires
        0 <= j < s.len(),
        s[j].denom@ == d,
        forall|m: int| 0 <= m < j ==> (#[trigger] s[m]).denom@ != d,
    ensures
        find_denom(s, d) == j,
    decreases j,
{
    if j > 0 {
        lemma_find_denom_at(s.drop_first(), d, j - 1);
    }
}

/// A scan finding no coin of the denom means the specification finds none.
proof fn lemma_find_denom_none(s: Seq<Coin>, d: Seq<char>)
    requires
        forall|m: int| 0 <= m < s.len() ==> (#[trigger] s[m]).denom@ != d,
    ensures
        find_denom(s, d) < 0,
    decreases s.len(),
{
    if s.len() > 0 {
        lemma_find_denom_none(s.drop_first(), d);
    }
}

/// Subtracts one coin from an attached fund list, exactly as
/// [`sub_coin_spec`] states.
#[verifier::loop_isolation(false)]
fn sub_coin(funds: &Vec<Coin>, fee: &Coin) -> (r: Result<Vec<Coin>, ContractError>)
    ensures
        r is Ok <==> sub_coin_spec(funds@, *fee) is Some,
        r is Ok ==> r->Ok_0@ == sub_coin_spec(funds@, *fee)->Some_0,
        r is Err ==> r->Err_0 == (ContractError::Overflow {}),
{
    let mut j: usize = 0;
    while j < funds.len()
        invariant
            0 <= j <= funds@.len(),
            forall|m: int| 0 <= m < j ==> (#[trigger] funds@[m]).denom@ != fee.denom@,
        decreases funds@.len() - j,
    {
        if funds[j].denom == fee.denom {
            break ;
        }
        j += 1;
    }
    if j == funds.len() {
        proof {
            lemma_find_denom_none(funds@, fee.denom@);
        }
        return Err(ContractError::Overflow {});
    }
    proof {
        lemma_find_denom_at(funds@, fee.denom@, j as int);
    }
    if funds[j].amount < fee.amount {
        return Err(ContractError::Overflow {});
    }
    let remainder = funds[j].amount - fee.amount;
    let ghost target = sub_coin_spec(funds@, *fee)->Some_0;
    let mut out: Vec<Coin> = Vec::new();
    let mut m: usize = 0;
    while m < j
        invariant
            0 <= m <= j,
            out@ == funds@.take(m as int),
        decreases j - m,
    {
        out.push(funds[m].clone());
        proof {
            assert(funds@.take(m + 1).drop_last() =~= funds@.take(m as int));
            assert(out@ =~= funds@.take(m + 1));
        }
        m += 1;
    }
    if remainder > 0 {
        out.push(Coin { denom: funds[j].denom.clone(), amount: remainder });
    }
    let mut m: usize = j + 1;
    while m < funds.len()
        invariant
            j + 1 <= m <= funds@.len(),
            out@ == (if remainder > 0 {
                funds@.take(j as int).push(
                    Coin { denom: funds@[j as int].denom, amount: remainder },
                )
            } else {
                funds@.take(j as int)
            }) + funds@.subrange(j + 1, m as int),
        decreases funds@.len() - m,
    {
        out.push(funds[m].clone());
        proof {
            assert(funds@.subrange(j + 1, m + 1).drop_last() =~= funds@.subrange(
                j + 1,
                m as int,
            ));
            assert(out@ =~= (if remainder > 0 {
                funds@.take(j as int).push(
                    Coin { denom: funds@[j as int].denom, amount: remainder },
                )
            } else {
                funds@.take(j as int)
            }) + funds@.subrange(j + 1, m + 1));
        }
        m += 1;
    }
    proof {
        if remainder > 0 {
            assert(out@ =~= funds@.update(
                j as int,
                Coin { denom: funds@[j as int].denom, amount: remainder },
            ));
        } else {
            assert(out@ =~= funds@.remove(j as int));
        }
    }
    Ok(out)
}


/// The position of the first allowed bid denom matching the given one, or a
/// negative number.
pub open spec fn find_bid_denom(s: Seq<BidDenoms>, d: Seq<char>) -> int
    decreases s.len(),
{
    if s.len() == 0 {
        -1
    } else if s[0].denom@ == d {
        0
    } else {
        let r = find_bid_denom(s.drop_first(), d);
        if r < 0 {
            -1
        } else {
            1 + r
        }
    }
}

/// The first allowed entry found by a forward scan is the one the
/// specification names.
proof fn lemma_find_bid_denom_at(s: Seq<BidDenoms>, d: Seq<char>, j: int)
    requires
        0 <= j < s.len(),
        s[j].denom@ == d,
        forall|m: int| 0 <= m < j ==> (#[trigger] s[m]).denom@ != d,
    ensures
        find_bid_denom(s, d) == j,
    decreases j,
{
    if j > 0 {
        lemma_find_bid_denom_at(s.drop_first(), d, j - 1);
    }
}

/// A scan finding no allowed entry means the specification finds none.
proof fn lemma_find_bid_denom_none(s: Seq<BidDenoms>, d: Seq<char>)
    requires
        forall|m: int| 0 <= m < s.len() ==> (#[trigger] s[m]).denom@ != d,
    ensures
        find_bid_denom(s, d) < 0,
    decreases s.len(),
{
    if s.len() > 0 {
        lemma_find_bid_denom_none(s.drop_first(), d);
    }
}

/// Looks the first allowed entry of a denom up.
#[verifier::loop_isolation(false)]
fn find_bid_denom_exec(list: &Vec<BidDenoms>, d: &String) -> (r: Option<usize>)
    ensures
        r is Some <==> find_bid_denom(list@, d@) >= 0,
        r is Some ==> r->Some_0 == find_bid_denom(list@, d@) && r->Some_0 < list@.len(),
{
    let mut j: usize = 0;
    while j < list.len()
        invariant
            0 <= j <= list@.len(),
            forall|m: int| 0 <= m < j ==> (#[trigger] list@[m]).denom@ != d@,
        decreases list@.len() - j,
    {
        if list[j].denom == *d {
            proof {
                lemma_find_bid_denom_at(list@, d@, j as int);
            }
            return Some(j);
        }
        j += 1;
    }
    proof {
        lemma_find_bid_denom_none(list@, d@);
    }
    None
}

/// The funds a settlement command must attach: for a managed token exactly
/// the configured creation fee; for an external token the creation fee plus
/// one position holding exactly the non-sale total.
pub open spec fn settlement_funds_ok(
    is_managed: bool,
    funds: Seq<Coin>,
    fee: Coin,
    cats: Seq<crate::msg::TokenomicsCategories>,
) -> bool {
    if is_managed {
        funds.len() == 1 && funds[0].denom@ == fee.denom@ && funds[0].amount == fee.amount
    } else {
        &&& non_sale_total(cats) <= u128::MAX
        &&& sub_coin_spec(funds, fee) is Some
        &&& sub_coin_spec(funds, fee)->Some_0.len() == 1
        &&& sub_coin_spec(funds, fee)->Some_0[0].amount == non_sale_total(cats)
    }
}

/// Performs post-sale settlement once the external sale reports an executed
/// status: distributes every standard category, creates the trading pair
/// and market maker at their deterministic addresses, deposits both
/// liquidity sides in proportion to the raise, hands authority over and
/// registers the asset (managed tokens), refunds the deposit and pays the
/// residual net raise to the original beneficiary. Terminal: the launch
/// ends `Completed` with both pool addresses populated, and a settled
/// launch is never settled twice.
#[verifier::rlimit(80)]
pub fn handle_post_launch(
    state: &mut State,
    env: &Env,
    info: &MessageInfo,
    ext: &ExternalView,
    idx: u128,
) -> (r: Result<Response, ContractError>)
    requires
        old(state).wf(),
    ensures
        final(state).wf(),
        final(state).config == old(state).config,
        final(state).reply == old(state).reply,
        r is Err ==> *final(state) == *old(state),
        idx >= old(state).launches@.len() ==> r is Err && (r->Err_0 is Std),
        r is Ok <==> (idx < old(state).launches@.len() && ({
            let l = old(state).launches@[idx as int];
            let cats = l.tokenomics->Some_0.categories@;
            let tok = l.token->Some_0;
            let bid = find_bid_denom(
                old(state).config.pilot.allowed_bid_denoms@,
                l.pilot->Some_0.orca.bid_denom@,
            );
            &&& info.sender@ == l.owner@
            &&& (l.status == LaunchStatus::InProgress || l.status == LaunchStatus::Completed)
            &&& l.fin is None
            &&& l.bow is None
            &&& settlement_funds_ok(
                tok.is_managed,
                info.funds@,
                old(state).config.token.denom_fee,
                cats,
            )
            &&& ext.sale_status matches Some(SaleStatus::Executed { .. })
            &&& bid >= 0
            &&& tok.decimals >= old(state).config.pilot.allowed_bid_denoms@[bid].decimals
            &&& tok.decimals - old(state).config.pilot.allowed_bid_denoms@[bid].decimals <= 127
            &&& precision_spec(
                ext.sale_status->Some_0->Executed_raise_amount,
                sale_amount(cats),
            ) is Ok
            &&& mul_div_floor(
                ext.sale_status->Some_0->Executed_raise_total as int,
                liquidity_amount(cats) as int,
                sale_amount(cats) as int,
            ) <= ext.sale_status->Some_0->Executed_raise_amount
        })),
        r is Ok ==> ({
            let l = old(state).launches@[idx as int];
            let cats = l.tokenomics->Some_0.categories@;
            let raise_total = ext.sale_status->Some_0->Executed_raise_total;
            let raise_amount = ext.sale_status->Some_0->Executed_raise_amount;
            let bid = find_bid_denom(
                old(state).config.pilot.allowed_bid_denoms@,
                l.pilot->Some_0.orca.bid_denom@,
            );
            let delta = (l.token->Some_0.decimals - old(
                state,
            ).config.pilot.allowed_bid_denoms@[bid].decimals) as i8;
            let lp_stable = mul_div_floor(
                raise_total as int,
                liquidity_amount(cats) as int,
                sale_amount(cats) as int,
            ) as u128;
            &&& final(state).launches@ == old(state).launches@.update(
                idx as int,
                Launch {
                    fin: Some(Fin { contract_address: Some(ext.fin_address) }),
                    bow: Some(Bow { contract_address: Some(ext.bow_address) }),
                    status: LaunchStatus::Completed,
                    ..l
                },
            )
            &&& cmds_eqv(
                r->Ok_0.commands@,
                settlement_cmds(
                    l,
                    old(state).config,
                    env.contract_address,
                    *ext,
                    precision_spec(raise_amount, sale_amount(cats))->Ok_0,
                    delta,
                    lp_stable,
                    raise_amount,
                ),
            )
        }),
{
    if idx >= state.launches.len() as u128 {
        return Err(ContractError::Std { msg: "launch not found".to_owned() });
    }
    let i = idx as usize;
    if !(info.sender == state.launches[i].owner) {
        return Err(ContractError::Unauthorized {});
    }
    let status_ok = match state.launches[i].status {
        LaunchStatus::InProgress => true,
        LaunchStatus::Completed => true,
        _ => false,
    };
    if !status_ok {
        return Err(ContractError::Unauthorized {});
    }
    if !(state.launches[i].fin.is_none() && state.launches[i].bow.is_none()) {
        return Err(ContractError::SettlementAlreadyDone {});
    }
    let is_managed = match &state.launches[i].token {
        Some(t) => t.is_managed,
        None => unreached(),
    };
    let fee = &state.config.token.denom_fee;
    if is_managed {
        if info.funds.len() != 1 {
            return Err(ContractError::InvalidFunds {});
        }
        if !(info.funds[0].denom == fee.denom && info.funds[0].amount == fee.amount) {
            return Err(
                ContractError::InvalidDeposit { expected: fee.amount, actual: info.funds[0].amount },
            );
        }
    } else {
        let non_sale = match &state.launches[i].tokenomics {
            Some(t) => match sum_non_sale(&t.categories) {
                Some(v) => v,
                None => {
                    return Err(ContractError::Overflow {});
                },
            },
            None => unreached(),
        };
        let balances = match sub_coin(&info.funds, fee) {
            Ok(b) => b,
            Err(e) => {
                return Err(e);
            },
        };
        if balances.len() != 1 {
            return Err(ContractError::InvalidFunds {});
        }
        if balances[0].amount != non_sale {
            return Err(
                ContractError::InvalidDeposit { expected: non_sale, actual: balances[0].amount },
            );
        }
    }
    let (raise_total, raise_amount) = match &ext.sale_status {
        Some(SaleStatus::Executed { raise_total, raise_amount, .. }) => (*raise_total, *raise_amount),
        _ => {
            return Err(ContractError::SaleNotExecuted {});
        },
    };
    let bid_denom_pos = match &state.launches[i].pilot {
        Some(p) => match find_bid_denom_exec(
            &state.config.pilot.allowed_bid_denoms,
            &p.orca.bid_denom,
        ) {
            Some(j) => j,
            None => {
                return Err(ContractError::InvalidBidDenom {});
            },
        },
        None => unreached(),
    };
    let bid_decimals = state.config.pilot.allowed_bid_denoms[bid_denom_pos].decimals;
    let token_decimals = match &state.launches[i].token {
        Some(t) => t.decimals,
        None => unreached(),
    };
    if token_decimals < bid_decimals {
        return Err(ContractError::Overflow {});
    }
    if token_decimals - bid_decimals > 127 {
        return Err(ContractError::Overflow {});
    }
    let decimal_delta = (token_decimals - bid_decimals) as i8;
    let (s_amt, lp_amt) = match &state.launches[i].tokenomics {
        Some(t) => (sale_recipient_amount(&t.categories), liquidity_recipient_amount(&t.categories)),
        None => unreached(),
    };
    let precision = match price_precision(raise_amount, s_amt) {
        Ok(p) => p,
        Err(e) => {
            return Err(e);
        },
    };
    let lp_stable = lp_settlement_amount(raise_total, lp_amt, s_amt);
    if lp_stable > raise_amount {
        return Err(ContractError::Overflow {});
    }
    let commands = build_settlement_cmds(
        &state.launches[i],
        &state.config,
        &env.contract_address,
        ext,
        precision,
        decimal_delta,
        lp_stable,
        raise_amount,
    );
    let mut l = state.launches.remove(i);
    l.fin = Some(Fin { contract_address: Some(ext.fin_address.clone()) });
    l.bow = Some(Bow { contract_address: Some(ext.bow_address.clone()) });
    l.status = LaunchStatus::Completed;
    state.launches.insert(i, l);
    proof {
        assert(state.launches@ =~= old(state).launches@.update(
            idx as int,
            Launch {
                fin: Some(Fin { contract_address: Some(ext.fin_address) }),
                bow: Some(Bow { contract_address: Some(ext.bow_address) }),
                status: LaunchStatus::Completed,
                ..old(state).launches@[idx as int]
            },
        ));
    }
    Ok(Response { commands })
}


/// Handles the liquidity-deposit completion callback from the market maker:
/// verifies the caller is the launch's market maker, takes the attached
/// pool-receipt tokens, locks them in a vesting flow for the sale's original
/// beneficiary under the configured cliff and duration, and registers the
/// receipt asset. Mutates nothing.
pub fn handle_callback(
    state: &State,
    env: &Env,
    info: &MessageInfo,
    idx: u128,
) -> (r: Result<Response, ContractError>)
    requires
        state.wf(),
    ensures
        idx >= state.launches@.len() ==> r is Err && (r->Err_0 is Std),
        r is Ok <==> (idx < state.launches@.len() && ({
            let l = state.launches@[idx as int];
            &&& l.bow is Some
            &&& l.bow->Some_0.contract_address is Some
            &&& info.sender@ == l.bow->Some_0.contract_address->Some_0@
            &&& info.funds@.len() == 1
            &&& env.spec_block_seconds() + state.config.tokenomics.default_lp_vest_duration
                <= u64::MAX
            &&& env.spec_block_seconds() + state.config.tokenomics.default_lp_vest_cliff
                <= u64::MAX
            &&& find_bid_denom(
                state.config.pilot.allowed_bid_denoms@,
                l.pilot->Some_0.orca.bid_denom@,
            ) >= 0
        })),
        r is Ok ==> (idx < state.launches@.len() && ({
            let l = state.launches@[idx as int];
            let now = env.spec_block_seconds();
            let lp = info.funds@[0];
            let bid = find_bid_denom(
                state.config.pilot.allowed_bid_denoms@,
                l.pilot->Some_0.orca.bid_denom@,
            );
            &&& r->Ok_0.commands@.len() == 4
            &&& (r->Ok_0.commands@[0] matches Command::CreateFlow { flow, funds } && ({
                &&& flow.taker@ == l.pilot->Some_0.beneficiary@
                &&& flow.denom@ == lp.denom@
                &&& flow.identifier is None
                &&& flow.genesis_time == now
                &&& flow.schedules@ == seq![
                    crate::msg::FlowSchedule {
                        start_time: now,
                        end_time: (now
                            + state.config.tokenomics.default_lp_vest_duration) as u64,
                        cliff_end_time: (now
                            + state.config.tokenomics.default_lp_vest_cliff) as u64,
                        amount: lp.amount,
                    },
                ]
                &&& funds == lp
            }))
            &&& r->Ok_0.commands@[1] == (Command::RegisterLpAsset {
                base_denom: lp.denom,
                symbol: l.token->Some_0.symbol,
                bid_symbol: state.config.pilot.allowed_bid_denoms@[bid].symbol,
                png_url: l.token->Some_0.png_url,
                svg_url: l.token->Some_0.svg_url,
            })
            &&& r->Ok_0.commands@[2] == (Command::RegisterSupply { denom: lp.denom })
            &&& r->Ok_0.commands@[3] == (Command::RegisterCurated { denom: lp.denom })
        })),
{
    if idx >= state.launches.len() as u128 {
        return Err(ContractError::Std { msg: "launch not found".to_owned() });
    }
    let i = idx as usize;
    let l = &state.launches[i];
    let bow_addr = match &l.bow {
        Some(b) => match &b.contract_address {
            Some(a) => a,
            None => {
                return Err(ContractError::Unauthorized {});
            },
        },
        None => {
            return Err(ContractError::Unauthorized {});
        },
    };
    if !(info.sender == *bow_addr) {
        return Err(ContractError::Unauthorized {});
    }
    if info.funds.len() != 1 {
        return Err(ContractError::LPTokensNotReceived {});
    }
    let now = env.block_seconds();
    let duration = state.config.tokenomics.default_lp_vest_duration;
    let cliff = state.config.tokenomics.default_lp_vest_cliff;
    if now > u64::MAX - duration {
        return Err(ContractError::Overflow {});
    }
    if now > u64::MAX - cliff {
        return Err(ContractError::Overflow {});
    }
    let beneficiary = match &l.pilot {
        Some(p) => p.beneficiary.clone(),
        None => unreached(),
    };
    let token = match &l.token {
        Some(t) => t,
        None => unreached(),
    };
    let bid_pos = match &l.pilot {
        Some(p) => match find_bid_denom_exec(
            &state.config.pilot.allowed_bid_denoms,
            &p.orca.bid_denom,
        ) {
            Some(j) => j,
            None => {
                return Err(ContractError::InvalidBidDenom {});
            },
        },
        None => unreached(),
    };
    let lp_coin = &info.funds[0];
    let mut schedules: Vec<crate::msg::FlowSchedule> = Vec::new();
    schedules.push(
        crate::msg::FlowSchedule {
            start_time: now,
            end_time: now + duration,
            cliff_end_time: now + cliff,
            amount: lp_coin.amount,
        },
    );
    let lp_flow = crate::msg::FlowCreate {
        taker: beneficiary,
        denom: lp_coin.denom.clone(),
        identifier: None,
        genesis_time: now,
        schedules,
    };
    proof {
        assert(lp_flow.schedules@ =~= seq![
            crate::msg::FlowSchedule {
                start_time: env.spec_block_seconds(),
                end_time: (env.spec_block_seconds()
                    + state.config.tokenomics.default_lp_vest_duration) as u64,
                cliff_end_time: (env.spec_block_seconds()
                    + state.config.tokenomics.default_lp_vest_cliff) as u64,
                amount: info.funds@[0].amount,
            },
        ]);
    }
    let mut commands: Vec<Command> = Vec::new();
    commands.push(Command::CreateFlow { flow: lp_flow, funds: lp_coin.clone() });
    commands.push(
        Command::RegisterLpAsset {
            base_denom: lp_coin.denom.clone(),
            symbol: token.symbol.clone(),
            bid_symbol: state.config.pilot.allowed_bid_denoms[bid_pos].symbol.clone(),
            png_url: (match &token.png_url {
                Some(u) => Some(u.clone()),
                None => None,
            }),
            svg_url: (match &token.svg_url {
                Some(u) => Some(u.clone()),
                None => None,
            }),
        },
    );
    commands.push(Command::RegisterSupply { denom: lp_coin.denom.clone() });
    commands.push(Command::RegisterCurated { denom: lp_coin.denom.clone() });
    Ok(Response { commands })
}


/// What one query answers with; queries borrow, and so can mutate nothing.
pub enum QueryAnswer<'a> {
    ConfigView(&'a Config),
    LaunchView(&'a Launch),
    LaunchList(Vec<&'a Launch>),
}

/// Answers one query from the current state. Takes the state immutably:
/// no query can mutate anything.
pub fn query<'a>(state: &'a State, msg: &QueryMsg) -> (r: Result<QueryAnswer<'a>, ContractError>)
    ensures
        (msg matches QueryMsg::Config { .. }) ==> (r matches Ok(QueryAnswer::ConfigView(c))
            && *c == state.config),
        (msg matches QueryMsg::Launch { idx } ==> ({
            &&& r is Ok <==> *idx < state.launches@.len()
            &&& (r matches Ok(QueryAnswer::LaunchView(l)) ==> *l == state.launches@[*idx as int])
            &&& (r is Err ==> r->Err_0 is Std)
        })),
        (msg matches QueryMsg::LaunchByPilotIdx { idx } ==> ({
            &&& r is Ok <==> crate::state::find_by_pilot_idx(
                state.launches@,
                *idx,
                state.launches@.len() as int,
            ) >= 0
            &&& (r matches Ok(QueryAnswer::LaunchView(l)) ==> *l == state.launches@[
                crate::state::find_by_pilot_idx(
                    state.launches@,
                    *idx,
                    state.launches@.len() as int,
                )])
            &&& (r is Ok ==> r->Ok_0 is LaunchView)
            &&& (r is Err ==> r->Err_0 is Std)
        })),
        (msg matches QueryMsg::Launches { start_after, limit } ==> (r matches Ok(
            QueryAnswer::LaunchList(v),
        ) && crate::state::deref_seq(v@) == crate::state::page_desc(
            state.launches@,
            (|l: Launch| true),
            crate::state::page_from(state.launches@.len() as int, *start_after),
            crate::state::page_limit(*limit),
        ))),
        (msg matches QueryMsg::LaunchesByOwner { owner, start_after, limit } ==> (r matches Ok(
            QueryAnswer::LaunchList(v),
        ) && crate::state::deref_seq(v@) == crate::state::page_desc(
            state.launches@,
            (|l: Launch| l.owner@ == owner@),
            crate::state::page_from(state.launches@.len() as int, *start_after),
            crate::state::page_limit(*limit),
        ))),
        (msg matches QueryMsg::LaunchesByStatus { status, start_after, limit } ==> (r matches Ok(
            QueryAnswer::LaunchList(v),
        ) && crate::state::deref_seq(v@) == crate::state::page_desc(
            state.launches@,
            (|l: Launch| l.status == *status),
            crate::state::page_from(state.launches@.len() as int, *start_after),
            crate::state::page_limit(*limit),
        ))),
{
    match msg {
        QueryMsg::Config {  } => Ok(QueryAnswer::ConfigView(&state.config)),
        QueryMsg::Launch { idx } => {
            match state.load(*idx) {
                Ok(l) => Ok(QueryAnswer::LaunchView(l)),
                Err(e) => Err(e),
            }
        },
        QueryMsg::LaunchByPilotIdx { idx } => {
            match state.query_launch_by_pilot_idx(*idx) {
                Ok(l) => Ok(QueryAnswer::LaunchView(l)),
                Err(e) => Err(e),
            }
        },
        QueryMsg::Launches { start_after, limit } => Ok(
            QueryAnswer::LaunchList(state.query_launches(*start_after, *limit)),
        ),
        QueryMsg::LaunchesByOwner { owner, start_after, limit } => Ok(
            QueryAnswer::LaunchList(state.query_launches_by_owner(owner, *start_after, *limit)),
        ),
        QueryMsg::LaunchesByStatus { status, start_after, limit } => Ok(
            QueryAnswer::LaunchList(state.query_launches_by_status(*status, *start_after, *limit)),
        ),
    }
}

/// Dispatches one inbound command. Whatever the command: a rejection leaves
/// the state untouched; well-formedness is preserved; no launch loses its
/// identity, owner or deposit; and no launch's status moves backward or
/// skips a stage — one command advances a status by at most one step.
pub fn execute(
    state: &mut State,
    env: &Env,
    info: &MessageInfo,
    ext: &ExternalView,
    msg: ExecuteMsg,
) -> (r: Result<Response, ContractError>)
    requires
        old(state).wf(),
    ensures
        final(state).wf(),
        r is Err ==> *final(state) == *old(state),
        final(state).launches@.len() >= old(state).launches@.len(),
        forall|i: int|
            0 <= i < old(state).launches@.len() ==> ({
                &&& status_step_ok(
                    (#[trigger] old(state).launches@[i]).status,
                    final(state).launches@[i].status,
                )
                &&& final(state).launches@[i].idx == old(state).launches@[i].idx
                &&& final(state).launches@[i].owner == old(state).launches@[i].owner
                &&& final(state).launches@[i].deposit == old(state).launches@[i].deposit
            }),
{
    match msg {
        ExecuteMsg::UpdateConfig { owner, token, tokenomics, pilot, flows, fin, bow } => {
            handle_update_config(state, info, owner, token, tokenomics, pilot, flows, fin, bow)
        },
        ExecuteMsg::Create { terms_conditions_accepted } => {
            handle_create(state, info, ext, terms_conditions_accepted)
        },
        ExecuteMsg::Token { idx, create, symbol, denom, decimals, denom_admin, png_url, svg_url } => {
            handle_token(
                state,
                env,
                info,
                ext,
                idx,
                create,
                symbol,
                denom,
                decimals,
                denom_admin,
                png_url,
                svg_url,
            )
        },
        ExecuteMsg::Tokenomics { idx, categories } => {
            handle_tokenomics(state, info, ext, idx, categories)
        },
        ExecuteMsg::PilotSchedule { idx, sale, orca } => {
            handle_pilot_schedule(state, env, info, idx, sale, orca)
        },
        ExecuteMsg::PilotStart { idx } => handle_pilot_start(state, env, info, ext, idx),
        ExecuteMsg::PilotExecute { idx } => handle_pilot_execute(state, idx),
        ExecuteMsg::PilotRetract { idx } => handle_pilot_retract(state, info, ext, idx),
        ExecuteMsg::PostLaunch { idx } => handle_post_launch(state, env, info, ext, idx),
        ExecuteMsg::LaunchFin { idx } => handle_launch_fin(state, info, idx),
        ExecuteMsg::SetContractAdmin { contract, admin } => {
            handle_set_contract_admin(state, info, contract, admin)
        },
        ExecuteMsg::ExecuteContract { contract, msg } => {
            handle_execute_contract(state, info, contract, msg)
        },
        ExecuteMsg::UpdateDescription { idx, description } => {
            handle_update_description(state, info, idx, description)
        },
        ExecuteMsg::Callback(cb) => {
            match cb {
                crate::msg::CallbackType::BowCallback { idx } => {
                    handle_callback(state, env, info, idx)
                },
            }
        },
    }
}

} // verus!
