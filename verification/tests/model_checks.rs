use keiko::addr::{derive_pair_addresses, fin_salt, to_dec};
use keiko::contract::{execute, handle_callback, handle_reply, instantiate, query, QueryAnswer};
use keiko::error::ContractError;
use keiko::host::{Command, Env, ExternalView, MessageInfo, PilotEngineView, SaleStatus};
use keiko::msg::{
    BidDenoms, BowConfig, CategoryTypes, Coin, CreateOrca, CreateSale, ExecuteMsg, FinConfig,
    FlowCreate, FlowSchedule, FlowsConfig, InstantiateMsg, LaunchStatus, PilotConfig, QueryMsg,
    TokenConfig, TokenomicsCategories, TokenomicsConfig, TokenomicsRecipient,
};
use keiko::settle::lp_settlement_amount;
use keiko::validate::validate_tokenomics;

const MOCK_TIME_NANOS: u64 = 1_571_797_419_879_305_533;
const ATOMICS_ONE: u128 = 1_000_000_000_000_000_000;
const FEE_5PCT: u128 = 50_000_000_000_000_000;
const RATIO_10PCT: u128 = 100_000_000_000_000_000;

fn coin(amount: u128, denom: &str) -> Coin {
    Coin { denom: denom.to_string(), amount }
}

fn cat(label: &str, kind: CategoryTypes, recipients: Vec<TokenomicsRecipient>) -> TokenomicsCategories {
    TokenomicsCategories { label: label.to_string(), category_type: kind, recipients }
}

fn plain(amount: u128) -> TokenomicsRecipient {
    TokenomicsRecipient { amount, address: None, flows: None }
}

fn to_addr(amount: u128, addr: &str) -> TokenomicsRecipient {
    TokenomicsRecipient { amount, address: Some(addr.to_string()), flows: None }
}

fn with_flows(amount: u128, flows: Vec<FlowCreate>) -> TokenomicsRecipient {
    TokenomicsRecipient { amount, address: None, flows: Some(flows) }
}

fn flow(taker: &str, schedules: Vec<FlowSchedule>) -> FlowCreate {
    FlowCreate {
        taker: taker.to_string(),
        denom: "tok".to_string(),
        identifier: None,
        genesis_time: 0,
        schedules,
    }
}

fn sched(amount: u128) -> FlowSchedule {
    FlowSchedule { start_time: 0, end_time: 100, cliff_end_time: 0, amount }
}

fn good_plan() -> Vec<TokenomicsCategories> {
    vec![
        cat("Sale", CategoryTypes::Sale, vec![plain(1000)]),
        cat("Liquidity", CategoryTypes::Liquidity, vec![plain(500)]),
    ]
}

#[test]
fn validator_accepts_well_formed_plan() {
    assert_eq!(validate_tokenomics(&good_plan(), FEE_5PCT, RATIO_10PCT), Ok(()));
}

#[test]
fn validator_requires_one_sale_category() {
    let plan = vec![cat("Liquidity", CategoryTypes::Liquidity, vec![plain(500)])];
    assert_eq!(
        validate_tokenomics(&plan, FEE_5PCT, RATIO_10PCT),
        Err(ContractError::OneSaleCategory {})
    );
    let plan = vec![
        cat("A", CategoryTypes::Sale, vec![plain(1000)]),
        cat("B", CategoryTypes::Sale, vec![plain(1000)]),
        cat("Liquidity", CategoryTypes::Liquidity, vec![plain(500)]),
    ];
    assert_eq!(
        validate_tokenomics(&plan, FEE_5PCT, RATIO_10PCT),
        Err(ContractError::OneSaleCategory {})
    );
}

#[test]
fn validator_requires_one_sale_recipient() {
    let plan = vec![
        cat("Sale", CategoryTypes::Sale, vec![plain(500), plain(500)]),
        cat("Liquidity", CategoryTypes::Liquidity, vec![plain(500)]),
    ];
    assert_eq!(
        validate_tokenomics(&plan, FEE_5PCT, RATIO_10PCT),
        Err(ContractError::OneSaleCategoryRecipient {})
    );
}

#[test]
fn validator_requires_one_liquidity_category() {
    let plan = vec![cat("Sale", CategoryTypes::Sale, vec![plain(1000)])];
    assert_eq!(
        validate_tokenomics(&plan, FEE_5PCT, RATIO_10PCT),
        Err(ContractError::OneLiquidityCategory {})
    );
}

#[test]
fn validator_requires_one_liquidity_recipient() {
    let plan = vec![
        cat("Sale", CategoryTypes::Sale, vec![plain(1000)]),
        cat("Liquidity", CategoryTypes::Liquidity, vec![plain(250), plain(250)]),
    ];
    assert_eq!(
        validate_tokenomics(&plan, FEE_5PCT, RATIO_10PCT),
        Err(ContractError::OneLiquidityCategoryRecipient {})
    );
}

#[test]
fn validator_caps_liquidity_by_fee_adjusted_sale_amount() {
    // At a five percent sale fee the cap is 950 of a 1000 sale.
    let plan = vec![
        cat("Sale", CategoryTypes::Sale, vec![plain(1000)]),
        cat("Liquidity", CategoryTypes::Liquidity, vec![plain(951)]),
    ];
    assert_eq!(
        validate_tokenomics(&plan, FEE_5PCT, RATIO_10PCT),
        Err(ContractError::LiquidityAmountSaleAmount {})
    );
    let plan = vec![
        cat("Sale", CategoryTypes::Sale, vec![plain(1000)]),
        cat("Liquidity", CategoryTypes::Liquidity, vec![plain(950)]),
    ];
    assert_eq!(validate_tokenomics(&plan, FEE_5PCT, RATIO_10PCT), Ok(()));
}

#[test]
fn validator_requires_minimum_liquidity_share() {
    // At a ten percent minimum share the floor is 100 of a 1000 sale.
    let plan = vec![
        cat("Sale", CategoryTypes::Sale, vec![plain(1000)]),
        cat("Liquidity", CategoryTypes::Liquidity, vec![plain(99)]),
    ];
    assert_eq!(
        validate_tokenomics(&plan, FEE_5PCT, RATIO_10PCT),
        Err(ContractError::LiquidityAmountBelowRequired { minimum_ratio: RATIO_10PCT })
    );
    let plan = vec![
        cat("Sale", CategoryTypes::Sale, vec![plain(1000)]),
        cat("Liquidity", CategoryTypes::Liquidity, vec![plain(100)]),
    ];
    assert_eq!(validate_tokenomics(&plan, FEE_5PCT, RATIO_10PCT), Ok(()));
}

#[test]
fn validator_rejects_addressed_sale_recipient() {
    let plan = vec![
        cat("Sale", CategoryTypes::Sale, vec![to_addr(1000, "someone")]),
        cat("Liquidity", CategoryTypes::Liquidity, vec![plain(500)]),
    ];
    assert_eq!(
        validate_tokenomics(&plan, FEE_5PCT, RATIO_10PCT),
        Err(ContractError::RecipientNotRequired { label: "Sale".to_string() })
    );
}

#[test]
fn validator_requires_address_or_flows_for_standard() {
    let plan = vec![
        cat("Sale", CategoryTypes::Sale, vec![plain(1000)]),
        cat("Liquidity", CategoryTypes::Liquidity, vec![plain(500)]),
        cat("Team", CategoryTypes::Standard, vec![plain(10)]),
    ];
    assert_eq!(
        validate_tokenomics(&plan, FEE_5PCT, RATIO_10PCT),
        Err(ContractError::RecipientAddressOrFlowRequired { label: "Team".to_string() })
    );
}

#[test]
fn validator_rejects_address_and_flows_together() {
    let both = TokenomicsRecipient {
        amount: 10,
        address: Some("someone".to_string()),
        flows: Some(vec![flow("someone", vec![sched(10)])]),
    };
    let plan = vec![
        cat("Sale", CategoryTypes::Sale, vec![plain(1000)]),
        cat("Liquidity", CategoryTypes::Liquidity, vec![plain(500)]),
        cat("Team", CategoryTypes::Standard, vec![both]),
    ];
    assert_eq!(
        validate_tokenomics(&plan, FEE_5PCT, RATIO_10PCT),
        Err(ContractError::RecipientAddressAndFlow { label: "Team".to_string() })
    );
}

#[test]
fn validator_requires_exact_flow_sums() {
    // 4 + 5 != 10: rejected with the mismatching sum.
    let plan = vec![
        cat("Sale", CategoryTypes::Sale, vec![plain(1000)]),
        cat("Liquidity", CategoryTypes::Liquidity, vec![plain(500)]),
        cat(
            "Team",
            CategoryTypes::Standard,
            vec![with_flows(10, vec![flow("a", vec![sched(4), sched(5)])])],
        ),
    ];
    assert_eq!(
        validate_tokenomics(&plan, FEE_5PCT, RATIO_10PCT),
        Err(ContractError::FlowsInvalidAmount {
            label: "Team".to_string(),
            flows_sum: 9,
            amount: 10,
        })
    );
    // 4 + 6 == 10, split over two flows: accepted.
    let plan = vec![
        cat("Sale", CategoryTypes::Sale, vec![plain(1000)]),
        cat("Liquidity", CategoryTypes::Liquidity, vec![plain(500)]),
        cat(
            "Team",
            CategoryTypes::Standard,
            vec![with_flows(10, vec![flow("a", vec![sched(4)]), flow("b", vec![sched(6)])])],
        ),
    ];
    assert_eq!(validate_tokenomics(&plan, FEE_5PCT, RATIO_10PCT), Ok(()));
}

#[test]
fn validator_rejects_overflowing_flow_sums() {
    let plan = vec![
        cat("Sale", CategoryTypes::Sale, vec![plain(1000)]),
        cat("Liquidity", CategoryTypes::Liquidity, vec![plain(500)]),
        cat(
            "Team",
            CategoryTypes::Standard,
            vec![with_flows(10, vec![flow("a", vec![sched(u128::MAX), sched(2)])])],
        ),
    ];
    assert_eq!(
        validate_tokenomics(&plan, FEE_5PCT, RATIO_10PCT),
        Err(ContractError::Overflow {})
    );
}

#[test]
fn validator_rejects_fee_above_one() {
    assert_eq!(
        validate_tokenomics(&good_plan(), ATOMICS_ONE + 1, RATIO_10PCT),
        Err(ContractError::Overflow {})
    );
}

#[test]
fn liquidity_split_is_proportional() {
    // The scenario split: 550e9 raised against a 1e12 sale with 1e11 set
    // aside for liquidity pays 55e9 of the raise into the pool.
    assert_eq!(
        lp_settlement_amount(550_000_000_000, 100_000_000_000, 1_000_000_000_000),
        55_000_000_000
    );
    // Truncation is toward zero.
    assert_eq!(lp_settlement_amount(10, 1, 3), 3);
    // The whole allocation never pays more than the raise total.
    assert_eq!(lp_settlement_amount(u128::MAX, 7, 7), u128::MAX);
}

#[test]
fn decimal_digits_write_the_number() {
    assert_eq!(to_dec(0), b"0".to_vec());
    assert_eq!(to_dec(1234), b"1234".to_vec());
    assert_eq!(to_dec(u128::MAX), u128::MAX.to_string().into_bytes());
    assert_eq!(fin_salt(42), b"keiko_fin_42".to_vec());
}

#[test]
fn child_addresses_are_derived_from_checksum_and_salt() {
    let checksum: Vec<u8> = (0u8..32).collect();
    let creator: Vec<u8> = vec![7u8; 20];
    let (fin, bow) = derive_pair_addresses(&checksum, &creator, 3).unwrap();
    assert_eq!(fin.len(), 32);
    assert_eq!(bow.len(), 32);
    assert_ne!(fin, bow);
    assert_ne!(fin, checksum);
    // A checksum of the wrong length cannot derive anything.
    let short: Vec<u8> = vec![1u8; 31];
    assert!(derive_pair_addresses(&short, &creator, 3).is_err());
}

fn base_instantiate() -> InstantiateMsg {
    InstantiateMsg {
        owner: "owner".to_string(),
        token: TokenConfig {
            denom_fee: Coin { denom: "usk".to_string(), amount: 10_000_000 },
            default_admin: "governance".to_string(),
            utilities_contract: "utilities".to_string(),
        },
        tokenomics: TokenomicsConfig {
            minimum_liquidity_one_side: RATIO_10PCT,
            default_lp_vest_cliff: 0,
            default_lp_vest_duration: 60000,
        },
        pilot: PilotConfig {
            pilot_contract: "pilot".to_string(),
            allowed_bid_denoms: vec![BidDenoms {
                denom: "bid".to_string(),
                symbol: "bid".to_string(),
                decimals: 6,
            }],
            min_raise_amount: 100_000_000_000,
        },
        flows: FlowsConfig { flows_contract: "flows".to_string() },
        fin: FinConfig {
            code_id: 4,
            owner: "owner".to_string(),
            admin: "admin".to_string(),
            fee_maker: 750_000_000_000_000,
            fee_taker: 1_500_000_000_000_000,
            fee_address: "fee_address".to_string(),
        },
        bow: BowConfig {
            code_id: 5,
            owner: "owner".to_string(),
            admin: "admin".to_string(),
            intervals: vec![1_000_000_000_000_000],
            fee: 1_000_000_000_000_000,
            amp: ATOMICS_ONE,
        },
    }
}

fn mock_env(nanos: u64) -> Env {
    Env { contract_address: "keiko".to_string(), block_time_nanos: nanos }
}

fn info(sender: &str, funds: Vec<Coin>) -> MessageInfo {
    MessageInfo { sender: sender.to_string(), funds }
}

fn ext_view() -> ExternalView {
    ExternalView {
        pilot: PilotEngineView {
            deposit: Coin { denom: "usk".to_string(), amount: 1_000_000_000 },
            sale_fee: FEE_5PCT,
        },
        denom_supply: None,
        sale_status: None,
        fin_address: "fin_pair".to_string(),
        bow_address: "bow_mm".to_string(),
    }
}

/// Drives one launch with an external token up to `InProgress`, with the
/// sale-created continuation already delivered.
fn setup_started_launch(plan: Vec<TokenomicsCategories>, sale_amount: u128) -> keiko::state::State {
    let mut state = setup_started_launch_pending(plan, sale_amount);
    handle_reply(&mut state, 1, Some(9)).unwrap();
    state
}

/// Drives one launch with an external token up to `InProgress`, leaving the
/// continuation record outstanding.
fn setup_started_launch_pending(
    plan: Vec<TokenomicsCategories>,
    sale_amount: u128,
) -> keiko::state::State {
    let mut state = instantiate(base_instantiate());
    let env = mock_env(MOCK_TIME_NANOS);
    let mut ext = ext_view();
    execute(
        &mut state,
        &env,
        &info("launcher", vec![coin(1_000_000_000, "usk")]),
        &ext,
        ExecuteMsg::Create { terms_conditions_accepted: true },
    )
    .unwrap();
    ext.denom_supply = Some(1_000_000);
    execute(
        &mut state,
        &env,
        &info("launcher", vec![]),
        &ext,
        ExecuteMsg::Token {
            idx: 0,
            create: false,
            symbol: Some("TOK".to_string()),
            denom: Some("tok".to_string()),
            decimals: Some(6),
            denom_admin: None,
            png_url: Some("png".to_string()),
            svg_url: Some("svg".to_string()),
        },
    )
    .unwrap();
    execute(
        &mut state,
        &env,
        &info("launcher", vec![]),
        &ext,
        ExecuteMsg::Tokenomics { idx: 0, categories: plan },
    )
    .unwrap();
    let now_secs = MOCK_TIME_NANOS / 1_000_000_000;
    execute(
        &mut state,
        &env,
        &info("launcher", vec![]),
        &ext,
        ExecuteMsg::PilotSchedule {
            idx: 0,
            sale: CreateSale {
                title: "TOK".to_string(),
                description: "TOK Launch".to_string(),
                url: "https://example.com/tok".to_string(),
                beneficiary: "beneficiary".to_string(),
                price: ATOMICS_ONE,
                opens: now_secs * 1_000_000_000,
                closes: (now_secs + 1000) * 1_000_000_000,
            },
            orca: CreateOrca {
                bid_denom: "bid".to_string(),
                bid_threshold: 1_000_000_000,
                max_slot: 10,
                premium_rate_per_slot: FEE_5PCT,
                waiting_period: 600,
            },
        },
    )
    .unwrap();
    execute(
        &mut state,
        &env,
        &info("launcher", vec![coin(sale_amount, "tok")]),
        &ext,
        ExecuteMsg::PilotStart { idx: 0 },
    )
    .unwrap();
    state
}

fn standard_plan() -> Vec<TokenomicsCategories> {
    vec![
        cat("Sale", CategoryTypes::Sale, vec![plain(1_000_000_000_000)]),
        cat("Liquidity", CategoryTypes::Liquidity, vec![plain(100_000_000_000)]),
        cat(
            "Team",
            CategoryTypes::Standard,
            vec![
                with_flows(
                    60_000_000_000,
                    vec![
                        flow("team_a", vec![sched(25_000_000_000)]),
                        flow("team_b", vec![sched(15_000_000_000), sched(20_000_000_000)]),
                    ],
                ),
                to_addr(40_000_000_000, "advisor"),
            ],
        ),
    ]
}

#[test]
fn settlement_distributes_standard_categories() {
    let mut state = setup_started_launch(standard_plan(), 1_000_000_000_000);
    let env = mock_env(MOCK_TIME_NANOS);
    execute(&mut state, &env, &info("launcher", vec![]), &ext_view(), ExecuteMsg::PilotExecute {
        idx: 0,
    })
    .unwrap();
    let mut post_ext = ext_view();
    post_ext.sale_status = Some(SaleStatus::Executed {
        at: 1571798420000000000,
        raise_total: 550_000_000_000,
        raise_fee: 27_499_999_999,
        raise_amount: 522_500_000_000,
    });
    // External token: the non-sale total (liquidity + team) plus the fee.
    let resp = execute(
        &mut state,
        &env,
        &info("launcher", vec![coin(200_000_000_000, "tok"), coin(10_000_000, "usk")]),
        &post_ext,
        ExecuteMsg::PostLaunch { idx: 0 },
    )
    .unwrap();

    // Two flow creations, one direct transfer, pair, market maker,
    // liquidity deposit, deposit refund, residual payout.
    assert_eq!(resp.commands.len(), 8);
    match &resp.commands[0] {
        Command::CreateFlow { flow, funds } => {
            assert_eq!(flow.taker, "team_a");
            assert_eq!(*funds, coin(25_000_000_000, "tok"));
        }
        other => panic!("unexpected command {other:?}"),
    }
    match &resp.commands[1] {
        Command::CreateFlow { flow, funds } => {
            assert_eq!(flow.taker, "team_b");
            assert_eq!(*funds, coin(35_000_000_000, "tok"));
        }
        other => panic!("unexpected command {other:?}"),
    }
    assert_eq!(
        resp.commands[2],
        Command::Send { to_address: "advisor".to_string(), amount: coin(40_000_000_000, "tok") }
    );
    assert!(matches!(&resp.commands[3], Command::FinInstantiate { .. }));
    assert!(matches!(&resp.commands[4], Command::BowInstantiate { .. }));
    assert!(matches!(&resp.commands[5], Command::BowDeposit { .. }));
}

#[test]
fn settlement_requires_exact_external_deposit() {
    let mut state = setup_started_launch(standard_plan(), 1_000_000_000_000);
    let env = mock_env(MOCK_TIME_NANOS);
    let mut post_ext = ext_view();
    post_ext.sale_status = Some(SaleStatus::Executed {
        at: 1571798420000000000,
        raise_total: 550_000_000_000,
        raise_fee: 27_499_999_999,
        raise_amount: 522_500_000_000,
    });
    let err = execute(
        &mut state,
        &env,
        &info("launcher", vec![coin(123, "tok"), coin(10_000_000, "usk")]),
        &post_ext,
        ExecuteMsg::PostLaunch { idx: 0 },
    )
    .unwrap_err();
    assert_eq!(err, ContractError::InvalidDeposit { expected: 200_000_000_000, actual: 123 });
}

#[test]
fn settlement_requires_executed_sale() {
    let mut state = setup_started_launch(standard_plan(), 1_000_000_000_000);
    let env = mock_env(MOCK_TIME_NANOS);
    let mut post_ext = ext_view();
    post_ext.sale_status = Some(SaleStatus::Live { closes_at: 0 });
    let err = execute(
        &mut state,
        &env,
        &info("launcher", vec![coin(200_000_000_000, "tok"), coin(10_000_000, "usk")]),
        &post_ext,
        ExecuteMsg::PostLaunch { idx: 0 },
    )
    .unwrap_err();
    assert_eq!(err, ContractError::SaleNotExecuted {});
}

#[test]
fn retract_refunds_owner_and_completes() {
    let mut state = setup_started_launch(standard_plan(), 1_000_000_000_000);
    let env = mock_env(MOCK_TIME_NANOS);
    let resp = execute(
        &mut state,
        &env,
        &info("launcher", vec![]),
        &ext_view(),
        ExecuteMsg::PilotRetract { idx: 0 },
    )
    .unwrap();
    assert_eq!(
        resp.commands,
        vec![
            Command::PilotRetractSale { idx: 9 },
            Command::Send {
                to_address: "launcher".to_string(),
                amount: coin(1_000_000_000_000, "tok"),
            },
            Command::Send { to_address: "launcher".to_string(), amount: coin(1_000_000_000, "usk") },
        ]
    );
    match query(&state, &QueryMsg::Launch { idx: 0 }).unwrap() {
        QueryAnswer::LaunchView(l) => assert_eq!(l.status, LaunchStatus::Completed),
        _ => panic!("expected a launch"),
    }
}

#[test]
fn callback_locks_pool_receipts_for_beneficiary() {
    let mut state = setup_started_launch(standard_plan(), 1_000_000_000_000);
    let env = mock_env(MOCK_TIME_NANOS);
    execute(&mut state, &env, &info("launcher", vec![]), &ext_view(), ExecuteMsg::PilotExecute {
        idx: 0,
    })
    .unwrap();
    let mut post_ext = ext_view();
    post_ext.sale_status = Some(SaleStatus::Executed {
        at: 1571798420000000000,
        raise_total: 550_000_000_000,
        raise_fee: 27_499_999_999,
        raise_amount: 522_500_000_000,
    });
    execute(
        &mut state,
        &env,
        &info("launcher", vec![coin(200_000_000_000, "tok"), coin(10_000_000, "usk")]),
        &post_ext,
        ExecuteMsg::PostLaunch { idx: 0 },
    )
    .unwrap();

    // Only the market maker itself may deliver the callback.
    let err =
        handle_callback(&state, &env, &info("intruder", vec![coin(77, "lp_token")]), 0).unwrap_err();
    assert_eq!(err, ContractError::Unauthorized {});
    // Without attached receipt tokens the callback is rejected.
    let err = handle_callback(&state, &env, &info("bow_mm", vec![]), 0).unwrap_err();
    assert_eq!(err, ContractError::LPTokensNotReceived {});

    let resp = handle_callback(&state, &env, &info("bow_mm", vec![coin(77, "lp_token")]), 0).unwrap();
    assert_eq!(resp.commands.len(), 4);
    let now = MOCK_TIME_NANOS / 1_000_000_000;
    match &resp.commands[0] {
        Command::CreateFlow { flow, funds } => {
            assert_eq!(flow.taker, "beneficiary");
            assert_eq!(flow.denom, "lp_token");
            assert_eq!(flow.genesis_time, now);
            assert_eq!(
                flow.schedules,
                vec![FlowSchedule {
                    start_time: now,
                    end_time: now + 60000,
                    cliff_end_time: now,
                    amount: 77,
                }]
            );
            assert_eq!(*funds, coin(77, "lp_token"));
        }
        other => panic!("unexpected command {other:?}"),
    }
    match &resp.commands[1] {
        Command::RegisterLpAsset { base_denom, symbol, bid_symbol, .. } => {
            assert_eq!(base_denom, "lp_token");
            assert_eq!(symbol, "TOK");
            assert_eq!(bid_symbol, "bid");
        }
        other => panic!("unexpected command {other:?}"),
    }
    assert_eq!(resp.commands[2], Command::RegisterSupply { denom: "lp_token".to_string() });
    assert_eq!(resp.commands[3], Command::RegisterCurated { denom: "lp_token".to_string() });
}

#[test]
fn statuses_never_move_backward() {
    let mut state = setup_started_launch(standard_plan(), 1_000_000_000_000);
    let env = mock_env(MOCK_TIME_NANOS);
    let ext = ext_view();
    // A started launch cannot take token information again.
    let err = execute(
        &mut state,
        &env,
        &info("launcher", vec![]),
        &ext,
        ExecuteMsg::Token {
            idx: 0,
            create: false,
            symbol: Some("TOK".to_string()),
            denom: Some("tok".to_string()),
            decimals: Some(6),
            denom_admin: None,
            png_url: Some("png".to_string()),
            svg_url: Some("svg".to_string()),
        },
    )
    .unwrap_err();
    assert_eq!(err, ContractError::InvalidStatus {});
    // Nor be rescheduled once in progress.
    let now_secs = MOCK_TIME_NANOS / 1_000_000_000;
    let err = execute(
        &mut state,
        &env,
        &info("launcher", vec![]),
        &ext,
        ExecuteMsg::PilotSchedule {
            idx: 0,
            sale: CreateSale {
                title: "TOK".to_string(),
                description: "again".to_string(),
                url: "u".to_string(),
                beneficiary: "beneficiary".to_string(),
                price: ATOMICS_ONE,
                opens: now_secs * 1_000_000_000,
                closes: (now_secs + 1000) * 1_000_000_000,
            },
            orca: CreateOrca {
                bid_denom: "bid".to_string(),
                bid_threshold: 1,
                max_slot: 10,
                premium_rate_per_slot: FEE_5PCT,
                waiting_period: 600,
            },
        },
    )
    .unwrap_err();
    assert_eq!(err, ContractError::Unauthorized {});
    // A completed launch cannot be started.
    execute(&mut state, &env, &info("launcher", vec![]), &ext, ExecuteMsg::PilotExecute { idx: 0 })
        .unwrap();
    let err = execute(&mut state, &env, &info("launcher", vec![]), &ext, ExecuteMsg::PilotStart {
        idx: 0,
    })
    .unwrap_err();
    assert_eq!(err, ContractError::Unauthorized {});
}

#[test]
fn queries_page_descending_and_mutate_nothing() {
    let mut state = instantiate(base_instantiate());
    let env = mock_env(MOCK_TIME_NANOS);
    let ext = ext_view();
    for owner in ["alice", "bob", "carol"] {
        execute(
            &mut state,
            &env,
            &info(owner, vec![coin(1_000_000_000, "usk")]),
            &ext,
            ExecuteMsg::Create { terms_conditions_accepted: true },
        )
        .unwrap();
    }
    // A second launch per owner is rejected.
    let err = execute(
        &mut state,
        &env,
        &info("alice", vec![coin(1_000_000_000, "usk")]),
        &ext,
        ExecuteMsg::Create { terms_conditions_accepted: true },
    )
    .unwrap_err();
    assert_eq!(err, ContractError::SaleAlreadyExistsOwner { owner: "alice".to_string() });

    match query(&state, &QueryMsg::Launches { start_after: None, limit: None }).unwrap() {
        QueryAnswer::LaunchList(v) => {
            let idxs: Vec<u128> = v.iter().map(|l| l.idx).collect();
            assert_eq!(idxs, vec![2, 1, 0]);
        }
        _ => panic!("expected a list"),
    }
    match query(&state, &QueryMsg::Launches { start_after: Some(2), limit: Some(1) }).unwrap() {
        QueryAnswer::LaunchList(v) => {
            let idxs: Vec<u128> = v.iter().map(|l| l.idx).collect();
            assert_eq!(idxs, vec![1]);
        }
        _ => panic!("expected a list"),
    }
    match query(
        &state,
        &QueryMsg::LaunchesByOwner { owner: "bob".to_string(), start_after: None, limit: None },
    )
    .unwrap()
    {
        QueryAnswer::LaunchList(v) => {
            let idxs: Vec<u128> = v.iter().map(|l| l.idx).collect();
            assert_eq!(idxs, vec![1]);
        }
        _ => panic!("expected a list"),
    }
    match query(
        &state,
        &QueryMsg::LaunchesByStatus {
            status: LaunchStatus::Created,
            start_after: None,
            limit: None,
        },
    )
    .unwrap()
    {
        QueryAnswer::LaunchList(v) => assert_eq!(v.len(), 3),
        _ => panic!("expected a list"),
    }
    // Asking twice answers the same: queries mutate nothing.
    match query(&state, &QueryMsg::Launches { start_after: None, limit: None }).unwrap() {
        QueryAnswer::LaunchList(v) => assert_eq!(v.len(), 3),
        _ => panic!("expected a list"),
    }
    // Launches without a recorded sale identifier are indexed under zero.
    match query(&state, &QueryMsg::LaunchByPilotIdx { idx: 0 }).unwrap() {
        QueryAnswer::LaunchView(l) => assert_eq!(l.idx, 2),
        _ => panic!("expected a launch"),
    }
    assert!(query(&state, &QueryMsg::LaunchByPilotIdx { idx: 5 }).is_err());
    assert!(query(&state, &QueryMsg::Launch { idx: 3 }).is_err());
}

#[test]
fn unknown_continuation_tags_are_rejected() {
    let mut state = setup_started_launch_pending(good_plan_scaled(), 1_000_000_000_000);
    let err = handle_reply(&mut state, 7, Some(1)).unwrap_err();
    assert_eq!(err, ContractError::UnknownReplyId { id: 7 });
    // The completion consumes the record; a second one has nothing to resume.
    handle_reply(&mut state, 1, Some(1)).unwrap();
    assert!(handle_reply(&mut state, 1, Some(1)).is_err());
}

fn good_plan_scaled() -> Vec<TokenomicsCategories> {
    vec![
        cat("Sale", CategoryTypes::Sale, vec![plain(1_000_000_000_000)]),
        cat("Liquidity", CategoryTypes::Liquidity, vec![plain(100_000_000_000)]),
    ]
}

#[test]
fn config_updates_require_the_configured_owner() {
    let mut state = instantiate(base_instantiate());
    let env = mock_env(MOCK_TIME_NANOS);
    let ext = ext_view();
    let err = execute(
        &mut state,
        &env,
        &info("stranger", vec![]),
        &ext,
        ExecuteMsg::UpdateConfig {
            owner: Some("stranger".to_string()),
            token: None,
            tokenomics: None,
            pilot: None,
            flows: None,
            fin: None,
            bow: None,
        },
    )
    .unwrap_err();
    assert_eq!(err, ContractError::Unauthorized {});
    execute(
        &mut state,
        &env,
        &info("owner", vec![]),
        &ext,
        ExecuteMsg::UpdateConfig {
            owner: Some("new_owner".to_string()),
            token: None,
            tokenomics: None,
            pilot: None,
            flows: None,
            fin: None,
            bow: None,
        },
    )
    .unwrap();
    match query(&state, &QueryMsg::Config {}).unwrap() {
        QueryAnswer::ConfigView(c) => assert_eq!(c.owner, "new_owner"),
        _ => panic!("expected the config"),
    }
}

#[test]
fn tokenomics_requires_token_first() {
    let mut state = instantiate(base_instantiate());
    let env = mock_env(MOCK_TIME_NANOS);
    let ext = ext_view();
    execute(
        &mut state,
        &env,
        &info("launcher", vec![coin(1_000_000_000, "usk")]),
        &ext,
        ExecuteMsg::Create { terms_conditions_accepted: true },
    )
    .unwrap();
    let err = execute(
        &mut state,
        &env,
        &info("launcher", vec![]),
        &ext,
        ExecuteMsg::Tokenomics { idx: 0, categories: good_plan_scaled() },
    )
    .unwrap_err();
    assert_eq!(err, ContractError::Unauthorized {});
}

#[test]
fn external_token_requires_nonzero_supply() {
    let mut state = instantiate(base_instantiate());
    let env = mock_env(MOCK_TIME_NANOS);
    let mut ext = ext_view();
    execute(
        &mut state,
        &env,
        &info("launcher", vec![coin(1_000_000_000, "usk")]),
        &ext,
        ExecuteMsg::Create { terms_conditions_accepted: true },
    )
    .unwrap();
    ext.denom_supply = Some(0);
    let err = execute(
        &mut state,
        &env,
        &info("launcher", vec![]),
        &ext,
        ExecuteMsg::Token {
            idx: 0,
            create: false,
            symbol: Some("TOK".to_string()),
            denom: Some("tok".to_string()),
            decimals: Some(6),
            denom_admin: None,
            png_url: Some("png".to_string()),
            svg_url: Some("svg".to_string()),
        },
    )
    .unwrap_err();
    assert_eq!(err, ContractError::InvalidDenom { denom: "tok".to_string() });
}

#[test]
fn token_cannot_be_created_twice() {
    let mut state = instantiate(base_instantiate());
    let env = mock_env(MOCK_TIME_NANOS);
    let ext = ext_view();
    execute(
        &mut state,
        &env,
        &info("launcher", vec![coin(1_000_000_000, "usk")]),
        &ext,
        ExecuteMsg::Create { terms_conditions_accepted: true },
    )
    .unwrap();
    let token_msg = || ExecuteMsg::Token {
        idx: 0,
        create: true,
        symbol: Some("TOK".to_string()),
        denom: None,
        decimals: None,
        denom_admin: None,
        png_url: Some("png".to_string()),
        svg_url: Some("svg".to_string()),
    };
    execute(&mut state, &env, &info("launcher", vec![coin(10_000_000, "usk")]), &ext, token_msg())
        .unwrap();
    let err = execute(
        &mut state,
        &env,
        &info("launcher", vec![coin(10_000_000, "usk")]),
        &ext,
        token_msg(),
    )
    .unwrap_err();
    assert_eq!(err, ContractError::TokenAlreadyExists {});
    // Creating demands the symbol and both logo forms and no denom.
    let err = execute(
        &mut state,
        &env,
        &info("stranger", vec![coin(10_000_000, "usk")]),
        &ext,
        token_msg(),
    )
    .unwrap_err();
    assert_eq!(err, ContractError::Unauthorized {});
}

#[test]
fn admin_passthroughs_require_owner() {
    let state_msg = ExecuteMsg::SetContractAdmin {
        contract: "some_contract".to_string(),
        admin: "new_admin".to_string(),
    };
    let mut state = instantiate(base_instantiate());
    let env = mock_env(MOCK_TIME_NANOS);
    let ext = ext_view();
    let err = execute(&mut state, &env, &info("stranger", vec![]), &ext, state_msg).unwrap_err();
    assert_eq!(err, ContractError::Unauthorized {});
    let resp = execute(
        &mut state,
        &env,
        &info("owner", vec![]),
        &ext,
        ExecuteMsg::SetContractAdmin {
            contract: "some_contract".to_string(),
            admin: "new_admin".to_string(),
        },
    )
    .unwrap();
    assert_eq!(
        resp.commands,
        vec![Command::WasmUpdateAdmin {
            contract: "some_contract".to_string(),
            admin: "new_admin".to_string(),
        }]
    );
    let resp = execute(
        &mut state,
        &env,
        &info("owner", vec![]),
        &ext,
        ExecuteMsg::ExecuteContract { contract: "some_contract".to_string(), msg: vec![1, 2, 3] },
    )
    .unwrap();
    assert_eq!(
        resp.commands,
        vec![Command::WasmExecuteRaw { contract: "some_contract".to_string(), msg: vec![1, 2, 3] }]
    );
}

#[test]
fn description_updates_only_while_in_progress() {
    let mut state = setup_started_launch(good_plan_scaled(), 1_000_000_000_000);
    let env = mock_env(MOCK_TIME_NANOS);
    let ext = ext_view();
    let resp = execute(
        &mut state,
        &env,
        &info("launcher", vec![]),
        &ext,
        ExecuteMsg::UpdateDescription { idx: 0, description: "new words".to_string() },
    )
    .unwrap();
    assert_eq!(
        resp.commands,
        vec![Command::PilotUpdateDescription { idx: 9, description: "new words".to_string() }]
    );
    execute(&mut state, &env, &info("launcher", vec![]), &ext, ExecuteMsg::PilotExecute { idx: 0 })
        .unwrap();
    let err = execute(
        &mut state,
        &env,
        &info("launcher", vec![]),
        &ext,
        ExecuteMsg::UpdateDescription { idx: 0, description: "too late".to_string() },
    )
    .unwrap_err();
    assert_eq!(err, ContractError::Unauthorized {});
}

#[test]
fn start_requires_exact_external_funds() {
    let mut state = instantiate(base_instantiate());
    let env = mock_env(MOCK_TIME_NANOS);
    let mut ext = ext_view();
    execute(
        &mut state,
        &env,
        &info("launcher", vec![coin(1_000_000_000, "usk")]),
        &ext,
        ExecuteMsg::Create { terms_conditions_accepted: true },
    )
    .unwrap();
    ext.denom_supply = Some(1_000_000);
    execute(
        &mut state,
        &env,
        &info("launcher", vec![]),
        &ext,
        ExecuteMsg::Token {
            idx: 0,
            create: false,
            symbol: Some("TOK".to_string()),
            denom: Some("tok".to_string()),
            decimals: Some(6),
            denom_admin: None,
            png_url: Some("png".to_string()),
            svg_url: Some("svg".to_string()),
        },
    )
    .unwrap();
    execute(
        &mut state,
        &env,
        &info("launcher", vec![]),
        &ext,
        ExecuteMsg::Tokenomics { idx: 0, categories: good_plan_scaled() },
    )
    .unwrap();
    let now_secs = MOCK_TIME_NANOS / 1_000_000_000;
    execute(
        &mut state,
        &env,
        &info("launcher", vec![]),
        &ext,
        ExecuteMsg::PilotSchedule {
            idx: 0,
            sale: CreateSale {
                title: "TOK".to_string(),
                description: "TOK Launch".to_string(),
                url: "u".to_string(),
                beneficiary: "beneficiary".to_string(),
                price: ATOMICS_ONE,
                opens: now_secs * 1_000_000_000,
                closes: (now_secs + 1000) * 1_000_000_000,
            },
            orca: CreateOrca {
                bid_denom: "bid".to_string(),
                bid_threshold: 1,
                max_slot: 10,
                premium_rate_per_slot: FEE_5PCT,
                waiting_period: 600,
            },
        },
    )
    .unwrap();
    let err = execute(
        &mut state,
        &env,
        &info("launcher", vec![coin(1, "tok"), coin(2, "usk")]),
        &ext,
        ExecuteMsg::PilotStart { idx: 0 },
    )
    .unwrap_err();
    assert_eq!(err, ContractError::MultipleDenoms {});
    let err = execute(
        &mut state,
        &env,
        &info("launcher", vec![coin(1, "tok")]),
        &ext,
        ExecuteMsg::PilotStart { idx: 0 },
    )
    .unwrap_err();
    assert_eq!(err, ContractError::InvalidFunds {});
}
