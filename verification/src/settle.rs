//! Pure post-sale settlement arithmetic: the adaptive price precision
//! derived from the average sale price, and the proportional liquidity
//! split. All of it is exact unsigned fixed-point arithmetic over a widened
//! intermediate; nothing rounds except the final truncation toward zero.
use vstd::prelude::*;
use crate::arith::{checked_mul_ratio, lemma_le_div_iff, lemma_mul_ratio_le, mul_div_floor};
use crate::error::ContractError;
use crate::host::{cmd_eqv, cmds_eqv, lemma_cmds_eqv_push, Command, ExternalView};
use crate::launch::Launch;
use crate::msg::{
    CategoryTypes, Coin, Config, FlowCreate, TokenomicsCategories, TokenomicsRecipient,
    DECIMAL_FRACTIONAL,
};
use crate::validate::{
    cat_err, cats_err, lemma_cats_err_none_all, lemma_flow_le_total, lemma_flows_total_nonneg,
    lemma_recipient_err_ok, lemma_rcpts_err_none_all, lemma_schedules_sum_nonneg, liquidity_amount,
    liquidity_recipient_amount, plan_wf, recipient_ok, schedules_sum, sum_schedules,
};

verus! {

/// The average price of the sale in decimal atomics: the net raise divided
/// by the sale amount, truncated to atomics.
pub open spec fn avg_atomics(raise_amount: int, sale_amount: int) -> int {
    mul_div_floor(raise_amount, DECIMAL_FRACTIONAL as int, sale_amount)
}

/// How many zero digits the decimal fraction of an average price below one
/// begins with; the price is given in atomics, between one atomic and one
/// whole.
pub open spec fn frac_leading_zeros(at: int) -> int {
    if at >= 100_000_000_000_000_000 {
        0
    } else if at >= 10_000_000_000_000_000 {
        1
    } else if at >= 1_000_000_000_000_000 {
        2
    } else if at >= 100_000_000_000_000 {
        3
    } else if at >= 10_000_000_000_000 {
        4
    } else if at >= 1_000_000_000_000 {
        5
    } else if at >= 100_000_000_000 {
        6
    } else if at >= 10_000_000_000 {
        7
    } else if at >= 1_000_000_000 {
        8
    } else if at >= 100_000_000 {
        9
    } else if at >= 10_000_000 {
        10
    } else if at >= 1_000_000 {
        11
    } else if at >= 100_000 {
        12
    } else if at >= 10_000 {
        13
    } else if at >= 1_000 {
        14
    } else if at >= 100 {
        15
    } else if at >= 10 {
        16
    } else {
        17
    }
}

/// The quoted-price precision settlement derives from the sale result: for
/// an average price below one, four digits past its leading fractional
/// zeros; three decimal places up to a thousand; two above. An average
/// price that truncates to zero atomics is rejected.
pub open spec fn precision_spec(raise_amount: u128, sale_amount: u128) -> Result<
    u8,
    ContractError,
> {
    let at = avg_atomics(raise_amount as int, sale_amount as int);
    if at < DECIMAL_FRACTIONAL {
        if at == 0 {
            Err(ContractError::Overflow {})
        } else {
            Ok((frac_leading_zeros(at) + 4) as u8)
        }
    } else if at < 1000 * DECIMAL_FRACTIONAL {
        Ok(3)
    } else {
        Ok(2)
    }
}

/// Scaling both sides of an average-price threshold by the atomic scale
/// does not change the comparison.
proof fn lemma_avg_threshold(ra: int, sa: int, k: int)
    requires
        sa >= 1,
        k >= 1,
        ra >= 0,
    ensures
        (avg_atomics(ra, sa) < k * DECIMAL_FRACTIONAL) <==> (ra < k * sa),
{
    let d = DECIMAL_FRACTIONAL as int;
    lemma_le_div_iff(k * d, ra * d, sa);
    assert((k * d * sa <= ra * d) <==> (k * sa <= ra)) by (nonlinear_arith)
        requires
            d >= 1,
            sa >= 1,
    ;
}

/// Derives the quoted-price precision from the sale's net raise and the
/// sale amount, exactly as [`precision_spec`] states.
pub fn price_precision(raise_amount: u128, sale_amount: u128) -> (r: Result<u8, ContractError>)
    requires
        sale_amount >= 1,
    ensures
        r == precision_spec(raise_amount, sale_amount),
{
    proof {
        lemma_avg_threshold(raise_amount as int, sale_amount as int, 1);
        lemma_avg_threshold(raise_amount as int, sale_amount as int, 1000);
    }
    if raise_amount < sale_amount {
        proof {
            assert(avg_atomics(raise_amount as int, sale_amount as int) <= u128::MAX as int);
        }
        let at = match checked_mul_ratio(raise_amount, DECIMAL_FRACTIONAL, sale_amount) {
            Some(v) => v,
            None => unreached(),
        };
        if at == 0 {
            Err(ContractError::Overflow {})
        } else if at >= 100_000_000_000_000_000 {
            Ok(4)
        } else if at >= 10_000_000_000_000_000 {
            Ok(5)
        } else if at >= 1_000_000_000_000_000 {
            Ok(6)
        } else if at >= 100_000_000_000_000 {
            Ok(7)
        } else if at >= 10_000_000_000_000 {
            Ok(8)
        } else if at >= 1_000_000_000_000 {
            Ok(9)
        } else if at >= 100_000_000_000 {
            Ok(10)
        } else if at >= 10_000_000_000 {
            Ok(11)
        } else if at >= 1_000_000_000 {
            Ok(12)
        } else if at >= 100_000_000 {
            Ok(13)
        } else if at >= 10_000_000 {
            Ok(14)
        } else if at >= 1_000_000 {
            Ok(15)
        } else if at >= 100_000 {
            Ok(16)
        } else if at >= 10_000 {
            Ok(17)
        } else if at >= 1_000 {
            Ok(18)
        } else if at >= 100 {
            Ok(19)
        } else if at >= 10 {
            Ok(20)
        } else {
            Ok(21)
        }
    } else if raise_amount / 1000 < sale_amount {
        proof {
            lemma_le_div_iff(sale_amount as int, raise_amount as int, 1000);
        }
        Ok(3)
    } else {
        proof {
            lemma_le_div_iff(sale_amount as int, raise_amount as int, 1000);
        }
        Ok(2)
    }
}

/// The stable-asset side of the liquidity deposit: the raise total scaled by
/// the share the liquidity allocation takes of the sale amount, truncated
/// toward zero. Never exceeds the raise total.
pub fn lp_settlement_amount(raise_total: u128, lp_amount: u128, sale_amount: u128) -> (r: u128)
    requires
        sale_amount >= 1,
        lp_amount <= sale_amount,
    ensures
        r == mul_div_floor(raise_total as int, lp_amount as int, sale_amount as int),
        r <= raise_total,
{
    proof {
        lemma_mul_ratio_le(raise_total as int, lp_amount as int, sale_amount as int);
    }
    checked_mul_ratio(raise_total, lp_amount, sale_amount).unwrap()
}


/// The vesting-flow creation commands of one recipient, one per flow, each
/// funded with its schedule total.
pub open spec fn flow_funds_cmds(denom: String, fs: Seq<FlowCreate>) -> Seq<Command>
    decreases fs.len(),
{
    if fs.len() == 0 {
        Seq::empty()
    } else {
        flow_funds_cmds(denom, fs.drop_last()) + seq![
            Command::CreateFlow {
                flow: fs.last(),
                funds: Coin { denom: denom, amount: schedules_sum(fs.last().schedules@) as u128 },
            },
        ]
    }
}

/// The distribution commands of one standard recipient: with declared
/// vesting flows, the whole amount is first minted to the orchestrator
/// (managed tokens) and one flow-creation command follows per flow;
/// otherwise the amount is minted (managed) or paid directly to the
/// recipient's address.
pub open spec fn recipient_cmds(
    is_managed: bool,
    denom: String,
    contract: String,
    r: TokenomicsRecipient,
) -> Seq<Command> {
    if r.flows is Some {
        (if is_managed {
            seq![Command::DenomMint { denom: denom, amount: r.amount, recipient: contract }]
        } else {
            Seq::empty()
        }) + flow_funds_cmds(denom, r.flows->Some_0@)
    } else if is_managed {
        seq![Command::DenomMint { denom: denom, amount: r.amount, recipient: r.address->Some_0 }]
    } else {
        seq![
            Command::Send {
                to_address: r.address->Some_0,
                amount: Coin { denom: denom, amount: r.amount },
            },
        ]
    }
}

/// The distribution commands of a recipient list, in order.
pub open spec fn rcpts_cmds(
    is_managed: bool,
    denom: String,
    contract: String,
    rs: Seq<TokenomicsRecipient>,
) -> Seq<Command>
    decreases rs.len(),
{
    if rs.len() == 0 {
        Seq::empty()
    } else {
        rcpts_cmds(is_managed, denom, contract, rs.drop_last()) + recipient_cmds(
            is_managed,
            denom,
            contract,
            rs.last(),
        )
    }
}

/// The distribution commands of every standard category of the plan, in
/// plan order.
pub open spec fn standard_cmds(
    is_managed: bool,
    denom: String,
    contract: String,
    cats: Seq<TokenomicsCategories>,
) -> Seq<Command>
    decreases cats.len(),
{
    if cats.len() == 0 {
        Seq::empty()
    } else {
        standard_cmds(is_managed, denom, contract, cats.drop_last()) + (if cats.last().category_type
            == CategoryTypes::Standard {
            rcpts_cmds(is_managed, denom, contract, cats.last().recipients@)
        } else {
            Seq::empty()
        })
    }
}

/// Appends the distribution commands of one standard recipient.
#[verifier::loop_isolation(false)]
fn push_recipient_cmds(
    commands: &mut Vec<Command>,
    is_managed: bool,
    denom: &String,
    contract: &String,
    rct: &TokenomicsRecipient,
)
    requires
        recipient_ok(CategoryTypes::Standard, *rct),
    ensures
        final(commands)@.len() == old(commands)@.len() + recipient_cmds(
            is_managed,
            *denom,
            *contract,
            *rct,
        ).len(),
        forall|k: int|
            0 <= k < old(commands)@.len() ==> final(commands)@[k] == old(commands)@[k],
        cmds_eqv(
            final(commands)@.skip(old(commands)@.len() as int),
            recipient_cmds(is_managed, *denom, *contract, *rct),
        ),
{
    let ghost base = commands@.len() as int;
    match &rct.flows {
        Some(fv) => {
            let ghost mint_part: Seq<Command> = if is_managed {
                seq![
                    Command::DenomMint {
                        denom: *denom,
                        amount: rct.amount,
                        recipient: *contract,
                    },
                ]
            } else {
                Seq::empty()
            };
            if is_managed {
                commands.push(
                    Command::DenomMint {
                        denom: denom.clone(),
                        amount: rct.amount,
                        recipient: contract.clone(),
                    },
                );
            }
            proof {
                assert(cmds_eqv(commands@.skip(base), mint_part));
            }
            let mut f: usize = 0;
            while f < fv.len()
                invariant
                    0 <= f <= fv@.len(),
                    commands@.len() == base + mint_part.len() + flow_funds_cmds(
                        *denom,
                        fv@.take(f as int),
                    ).len(),
                    forall|k: int| 0 <= k < base ==> commands@[k] == old(commands)@[k],
                    cmds_eqv(
                        commands@.skip(base),
                        mint_part + flow_funds_cmds(*denom, fv@.take(f as int)),
                    ),
                decreases fv@.len() - f,
            {
                proof {
                    assert(fv@.take(f + 1).drop_last() =~= fv@.take(f as int));
                    assert(fv@.take(f + 1).last() == fv@[f as int]);
                    lemma_flow_le_total(fv@, f as int);
                    lemma_schedules_sum_nonneg(fv@[f as int].schedules@);
                }
                let total = sum_schedules(&fv[f].schedules).unwrap();
                let ghost pre = commands@;
                commands.push(
                    Command::CreateFlow {
                        flow: fv[f].clone(),
                        funds: Coin { denom: denom.clone(), amount: total },
                    },
                );
                proof {
                    let y = Command::CreateFlow {
                        flow: fv@[f as int],
                        funds: Coin {
                            denom: *denom,
                            amount: schedules_sum(fv@[f as int].schedules@) as u128,
                        },
                    };
                    assert(cmd_eqv(commands@.last(), y));
                    lemma_cmds_eqv_push(
                        pre.skip(base),
                        mint_part + flow_funds_cmds(*denom, fv@.take(f as int)),
                        commands@.last(),
                        y,
                    );
                    assert(commands@.skip(base) =~= pre.skip(base).push(commands@.last()));
                    assert((mint_part + flow_funds_cmds(*denom, fv@.take(f as int))).push(y)
                        =~= mint_part + flow_funds_cmds(*denom, fv@.take(f + 1)));
                }
                f += 1;
            }
            proof {
                assert(fv@.take(fv@.len() as int) =~= fv@);
            }
        },
        None => {
            let addr = match &rct.address {
                Some(a) => a,
                None => unreached(),
            };
            if is_managed {
                commands.push(
                    Command::DenomMint {
                        denom: denom.clone(),
                        amount: rct.amount,
                        recipient: addr.clone(),
                    },
                );
            } else {
                commands.push(
                    Command::Send {
                        to_address: addr.clone(),
                        amount: Coin { denom: denom.clone(), amount: rct.amount },
                    },
                );
            }
            proof {
                assert(cmds_eqv(
                    commands@.skip(base),
                    recipient_cmds(is_managed, *denom, *contract, *rct),
                ));
            }
        },
    }
}

/// Appends the distribution commands of every standard category.
#[verifier::loop_isolation(false)]
fn push_standard_cmds(
    commands: &mut Vec<Command>,
    is_managed: bool,
    denom: &String,
    contract: &String,
    cats: &Vec<TokenomicsCategories>,
)
    requires
        cats_err(cats@) is None,
    ensures
        final(commands)@.len() == old(commands)@.len() + standard_cmds(
            is_managed,
            *denom,
            *contract,
            cats@,
        ).len(),
        forall|k: int|
            0 <= k < old(commands)@.len() ==> final(commands)@[k] == old(commands)@[k],
        cmds_eqv(
            final(commands)@.skip(old(commands)@.len() as int),
            standard_cmds(is_managed, *denom, *contract, cats@),
        ),
{
    let ghost base = commands@.len() as int;
    proof {
        lemma_cats_err_none_all(cats@);
    }
    let mut i: usize = 0;
    while i < cats.len()
        invariant
            0 <= i <= cats@.len(),
            commands@.len() == base + standard_cmds(
                is_managed,
                *denom,
                *contract,
                cats@.take(i as int),
            ).len(),
            forall|k: int| 0 <= k < base ==> commands@[k] == old(commands)@[k],
            cmds_eqv(
                commands@.skip(base),
                standard_cmds(is_managed, *denom, *contract, cats@.take(i as int)),
            ),
        decreases cats@.len() - i,
    {
        proof {
            assert(cats@.take(i + 1).drop_last() =~= cats@.take(i as int));
            assert(cats@.take(i + 1).last() == cats@[i as int]);
        }
        let c = &cats[i];
        let is_standard = match c.category_type {
            CategoryTypes::Standard => true,
            _ => false,
        };
        if is_standard {
            proof {
                lemma_rcpts_err_none_all(c.category_type, c.label, c.recipients@);
            }
            let ghost cat_base = standard_cmds(is_managed, *denom, *contract, cats@.take(i as int));
            let mut j: usize = 0;
            while j < c.recipients.len()
                invariant
                    0 <= j <= c.recipients@.len(),
                    commands@.len() == base + cat_base.len() + rcpts_cmds(
                        is_managed,
                        *denom,
                        *contract,
                        c.recipients@.take(j as int),
                    ).len(),
                    forall|k: int| 0 <= k < base ==> commands@[k] == old(commands)@[k],
                    cmds_eqv(
                        commands@.skip(base),
                        cat_base + rcpts_cmds(
                            is_managed,
                            *denom,
                            *contract,
                            c.recipients@.take(j as int),
                        ),
                    ),
                decreases c.recipients@.len() - j,
            {
                proof {
                    assert(c.recipients@.take(j + 1).drop_last() =~= c.recipients@.take(j as int));
                    assert(c.recipients@.take(j + 1).last() == c.recipients@[j as int]);
                    lemma_recipient_err_ok(
                        c.category_type,
                        c.label,
                        c.recipients@[j as int],
                    );
                }
                let ghost pre = commands@;
                push_recipient_cmds(commands, is_managed, denom, contract, &c.recipients[j]);
                proof {
                    let rc = recipient_cmds(
                        is_managed,
                        *denom,
                        *contract,
                        c.recipients@[j as int],
                    );
                    assert(commands@.skip(base) =~= pre.skip(base) + commands@.skip(
                        pre.len() as int,
                    ));
                    crate::host::lemma_cmds_eqv_concat(
                        pre.skip(base),
                        cat_base + rcpts_cmds(
                            is_managed,
                            *denom,
                            *contract,
                            c.recipients@.take(j as int),
                        ),
                        commands@.skip(pre.len() as int),
                        rc,
                    );
                    assert((cat_base + rcpts_cmds(
                        is_managed,
                        *denom,
                        *contract,
                        c.recipients@.take(j as int),
                    )) + rc =~= cat_base + rcpts_cmds(
                        is_managed,
                        *denom,
                        *contract,
                        c.recipients@.take(j + 1),
                    ));
                }
                j += 1;
            }
            proof {
                assert(c.recipients@.take(c.recipients@.len() as int) =~= c.recipients@);
                assert(cat_base + rcpts_cmds(is_managed, *denom, *contract, c.recipients@)
                    =~= standard_cmds(is_managed, *denom, *contract, cats@.take(i + 1)));
            }
        } else {
            proof {
                assert(standard_cmds(is_managed, *denom, *contract, cats@.take(i + 1))
                    =~= standard_cmds(is_managed, *denom, *contract, cats@.take(i as int))
                    + Seq::<Command>::empty());
                assert(standard_cmds(is_managed, *denom, *contract, cats@.take(i + 1))
                    =~= standard_cmds(is_managed, *denom, *contract, cats@.take(i as int)));
            }
        }
        i += 1;
    }
    proof {
        assert(cats@.take(cats@.len() as int) =~= cats@);
    }
}


/// The full ordered command list of post-sale settlement: standard-category
/// distributions, pair creation, market-maker creation, the liquidity-side
/// mint (managed tokens), the two-sided liquidity deposit tagged with the
/// launch, authority handover and registry entries (managed tokens), the
/// deposit refund when one was taken, and the residual net raise to the
/// sale's original beneficiary when any remains.
pub open spec fn settlement_cmds(
    l: Launch,
    cfg: Config,
    env_addr: String,
    ext: ExternalView,
    precision: u8,
    decimal_delta: i8,
    lp_stable: u128,
    raise_amount: u128,
) -> Seq<Command> {
    let cats = l.tokenomics->Some_0.categories@;
    let tok = l.token->Some_0;
    let bid_denom = l.pilot->Some_0.orca.bid_denom;
    let lp_amt = liquidity_amount(cats);
    let fin_cmd = Command::FinInstantiate {
        idx: l.idx,
        admin: cfg.fin.admin,
        code_id: cfg.fin.code_id,
        owner: env_addr,
        denom: tok.denom,
        bid_denom: bid_denom,
        decimal_delta: decimal_delta,
        price_precision_decimals: precision,
        fee_maker: cfg.fin.fee_maker,
        fee_taker: cfg.fin.fee_taker,
        fee_address: cfg.fin.fee_address,
    };
    let bow_cmd = Command::BowInstantiate {
        idx: l.idx,
        admin: cfg.bow.admin,
        code_id: cfg.bow.code_id,
        owner: cfg.bow.owner,
        fin_contract: ext.fin_address,
        intervals: cfg.bow.intervals,
        fee: cfg.bow.fee,
        amp: cfg.bow.amp,
        funds: cfg.token.denom_fee,
    };
    let mint_lp: Seq<Command> = if tok.is_managed {
        seq![Command::DenomMint { denom: tok.denom, amount: lp_amt, recipient: env_addr }]
    } else {
        Seq::empty()
    };
    let deposit_cmd = Command::BowDeposit {
        contract: ext.bow_address,
        callback_idx: l.idx,
        token_funds: Coin { denom: tok.denom, amount: lp_amt },
        stable_funds: Coin { denom: bid_denom, amount: lp_stable },
    };
    let admin_part: Seq<Command> = if tok.is_managed {
        seq![
            Command::DenomChangeAdmin {
                denom: tok.denom,
                address: (match tok.denom_admin {
                    Some(a) => a,
                    None => cfg.token.default_admin,
                }),
            },
            Command::RegisterAsset {
                base_denom: tok.denom,
                symbol: tok.symbol,
                exponent: tok.decimals,
                png_url: tok.png_url,
                svg_url: tok.svg_url,
            },
            Command::RegisterSupply { denom: tok.denom },
            Command::RegisterCurated { denom: tok.denom },
        ]
    } else {
        Seq::empty()
    };
    let refund: Seq<Command> = if ext.pilot.deposit.amount > 0 {
        seq![Command::Send { to_address: l.owner, amount: ext.pilot.deposit }]
    } else {
        Seq::empty()
    };
    let payout: Seq<Command> = if raise_amount - lp_stable > 0 {
        seq![
            Command::Send {
                to_address: l.pilot->Some_0.beneficiary,
                amount: Coin { denom: bid_denom, amount: (raise_amount - lp_stable) as u128 },
            },
        ]
    } else {
        Seq::empty()
    };
    standard_cmds(tok.is_managed, tok.denom, env_addr, cats) + seq![fin_cmd, bow_cmd] + mint_lp
        + seq![deposit_cmd] + admin_part + refund + payout
}

/// Builds the settlement command list of a launch whose sale reported the
/// given net raise, with the precision, decimal delta and liquidity split
/// already derived.
#[verifier::loop_isolation(false)]
#[verifier::rlimit(60)]
pub fn build_settlement_cmds(
    l: &Launch,
    cfg: &Config,
    env_addr: &String,
    ext: &ExternalView,
    precision: u8,
    decimal_delta: i8,
    lp_stable: u128,
    raise_amount: u128,
) -> (r: Vec<Command>)
    requires
        l.tokenomics is Some,
        plan_wf(l.tokenomics->Some_0.categories@),
        l.token is Some,
        l.pilot is Some,
        lp_stable <= raise_amount,
    ensures
        cmds_eqv(
            r@,
            settlement_cmds(
                *l,
                *cfg,
                *env_addr,
                *ext,
                precision,
                decimal_delta,
                lp_stable,
                raise_amount,
            ),
        ),
{
    let tok = match &l.token {
        Some(t) => t,
        None => unreached(),
    };
    let cats = match &l.tokenomics {
        Some(t) => &t.categories,
        None => unreached(),
    };
    let pilot = match &l.pilot {
        Some(p) => p,
        None => unreached(),
    };
    let bid_denom = &pilot.orca.bid_denom;
    let lp_amt = liquidity_recipient_amount(cats);
    let ghost gspec = settlement_cmds(
        *l,
        *cfg,
        *env_addr,
        *ext,
        precision,
        decimal_delta,
        lp_stable,
        raise_amount,
    );
    let ghost std_spec = standard_cmds(tok.is_managed, tok.denom, *env_addr, cats@);
    let mut commands: Vec<Command> = Vec::new();
    push_standard_cmds(&mut commands, tok.is_managed, &tok.denom, env_addr, cats);
    let ghost mut acc = std_spec;
    proof {
        assert(commands@.skip(0) =~= commands@);
        assert(cmds_eqv(commands@, acc));
    }
    let ghost pre1 = commands@;
    commands.push(
        Command::FinInstantiate {
            idx: l.idx,
            admin: cfg.fin.admin.clone(),
            code_id: cfg.fin.code_id,
            owner: env_addr.clone(),
            denom: tok.denom.clone(),
            bid_denom: bid_denom.clone(),
            decimal_delta,
            price_precision_decimals: precision,
            fee_maker: cfg.fin.fee_maker,
            fee_taker: cfg.fin.fee_taker,
            fee_address: cfg.fin.fee_address.clone(),
        },
    );
    proof {
        lemma_cmds_eqv_push(pre1, acc, commands@.last(), commands@.last());
        acc = acc.push(commands@.last());
        assert(cmds_eqv(commands@, acc));
    }
    let ghost pre2 = commands@;
    commands.push(
        Command::BowInstantiate {
            idx: l.idx,
            admin: cfg.bow.admin.clone(),
            code_id: cfg.bow.code_id,
            owner: cfg.bow.owner.clone(),
            fin_contract: ext.fin_address.clone(),
            intervals: crate::msg::clone_intervals(&cfg.bow.intervals),
            fee: cfg.bow.fee,
            amp: cfg.bow.amp,
            funds: cfg.token.denom_fee.clone(),
        },
    );
    proof {
        let y = Command::BowInstantiate {
            idx: l.idx,
            admin: cfg.bow.admin,
            code_id: cfg.bow.code_id,
            owner: cfg.bow.owner,
            fin_contract: ext.fin_address,
            intervals: cfg.bow.intervals,
            fee: cfg.bow.fee,
            amp: cfg.bow.amp,
            funds: cfg.token.denom_fee,
        };
        assert(cmd_eqv(commands@.last(), y));
        lemma_cmds_eqv_push(pre2, acc, commands@.last(), y);
        acc = acc.push(y);
        assert(cmds_eqv(commands@, acc));
    }
    if tok.is_managed {
        let ghost pre = commands@;
        commands.push(
            Command::DenomMint {
                denom: tok.denom.clone(),
                amount: lp_amt,
                recipient: env_addr.clone(),
            },
        );
        proof {
            lemma_cmds_eqv_push(pre, acc, commands@.last(), commands@.last());
            acc = acc.push(commands@.last());
        }
    }
    let ghost pre3 = commands@;
    commands.push(
        Command::BowDeposit {
            contract: ext.bow_address.clone(),
            callback_idx: l.idx,
            token_funds: Coin { denom: tok.denom.clone(), amount: lp_amt },
            stable_funds: Coin { denom: bid_denom.clone(), amount: lp_stable },
        },
    );
    proof {
        lemma_cmds_eqv_push(pre3, acc, commands@.last(), commands@.last());
        acc = acc.push(commands@.last());
    }
    if tok.is_managed {
        let admin_addr = match &tok.denom_admin {
            Some(a) => a.clone(),
            None => cfg.token.default_admin.clone(),
        };
        let ghost pre = commands@;
        commands.push(Command::DenomChangeAdmin { denom: tok.denom.clone(), address: admin_addr });
        proof {
            lemma_cmds_eqv_push(pre, acc, commands@.last(), commands@.last());
            acc = acc.push(commands@.last());
        }
        let ghost pre = commands@;
        commands.push(
            Command::RegisterAsset {
                base_denom: tok.denom.clone(),
                symbol: tok.symbol.clone(),
                exponent: tok.decimals,
                png_url: (match &tok.png_url {
                    Some(u) => Some(u.clone()),
                    None => None,
                }),
                svg_url: (match &tok.svg_url {
                    Some(u) => Some(u.clone()),
                    None => None,
                }),
            },
        );
        proof {
            lemma_cmds_eqv_push(pre, acc, commands@.last(), commands@.last());
            acc = acc.push(commands@.last());
        }
        let ghost pre = commands@;
        commands.push(Command::RegisterSupply { denom: tok.denom.clone() });
        proof {
            lemma_cmds_eqv_push(pre, acc, commands@.last(), commands@.last());
            acc = acc.push(commands@.last());
        }
        let ghost pre = commands@;
        commands.push(Command::RegisterCurated { denom: tok.denom.clone() });
        proof {
            lemma_cmds_eqv_push(pre, acc, commands@.last(), commands@.last());
            acc = acc.push(commands@.last());
        }
    }
    if ext.pilot.deposit.amount > 0 {
        let ghost pre = commands@;
        commands.push(
            Command::Send { to_address: l.owner.clone(), amount: ext.pilot.deposit.clone() },
        );
        proof {
            lemma_cmds_eqv_push(pre, acc, commands@.last(), commands@.last());
            acc = acc.push(commands@.last());
        }
    }
    let residual = raise_amount - lp_stable;
    if residual > 0 {
        let ghost pre = commands@;
        commands.push(
            Command::Send {
                to_address: pilot.beneficiary.clone(),
                amount: Coin { denom: bid_denom.clone(), amount: residual },
            },
        );
        proof {
            lemma_cmds_eqv_push(pre, acc, commands@.last(), commands@.last());
            acc = acc.push(commands@.last());
        }
    }
    proof {
        assert(acc =~= gspec);
        assert(cmds_eqv(commands@, gspec));
    }
    commands
}

} // verus!
