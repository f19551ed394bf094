use keiko::contract::{
    execute, handle_reply, instantiate, query, QueryAnswer,
};
use keiko::error::ContractError;
use keiko::host::{Command, Env, ExternalView, MessageInfo, PilotEngineView, SaleStatus};
use keiko::msg::{
    BidDenoms, BowConfig, CategoryTypes, Coin, CreateOrca, CreateSale, ExecuteMsg, FinConfig,
    FlowsConfig, InstantiateMsg, LaunchStatus, PilotConfig, QueryMsg, TokenConfig,
    TokenomicsCategories, TokenomicsConfig, TokenomicsRecipient,
};

const MOCK_TIME_NANOS: u64 = 1_571_797_419_879_305_533;
const ATOMICS_ONE: u128 = 1_000_000_000_000_000_000;

fn base_instantiate(default_admin: &str) -> InstantiateMsg {
    InstantiateMsg {
        owner: "owner".to_string(),
        token: TokenConfig {
            denom_fee: Coin { denom: "usk".to_string(), amount: 10_000_000 },
            default_admin: default_admin.to_string(),
            utilities_contract: "utilities".to_string(),
        },
        tokenomics: TokenomicsConfig {
            minimum_liquidity_one_side: 100_000_000_000_000_000,
            default_lp_vest_cliff: 0,
            default_lp_vest_duration: 60000,
        },
        pilot: PilotConfig {
            pilot_contract: "pilot".to_string(),
            allowed_bid_denoms: vec![BidDenoms {
                denom: "bid".to_string(),
                symbol: "bid".to_string(),
                decimals: 6,
            }],
            min_raise_amount: 100_000_000_000,
        },
        flows: FlowsConfig { flows_contract: "flows".to_string() },
        fin: FinConfig {
            code_id: 4,
            owner: "owner".to_string(),
            admin: "admin".to_string(),
            fee_maker: 750_000_000_000_000,
            fee_taker: 1_500_000_000_000_000,
            fee_address: "fee_address".to_string(),
        },
        bow: BowConfig {
            code_id: 5,
            owner: "owner".to_string(),
            admin: "admin".to_string(),
            intervals: vec![
                1_000_000_000_000_000,
                5_000_000_000_000_000,
                5_000_000_000_000_000,
                10_000_000_000_000_000,
                10_000_000_000_000_000,
                10_000_000_000_000_000,
                100_000_000_000_000_000,
                200_000_000_000_000_000,
            ],
            fee: 1_000_000_000_000_000,
            amp: ATOMICS_ONE,
        },
    }
}

fn mock_env(nanos: u64) -> Env {
    Env { contract_address: "keiko".to_string(), block_time_nanos: nanos }
}

fn info(sender: &str, funds: Vec<Coin>) -> MessageInfo {
    MessageInfo { sender: sender.to_string(), funds }
}

fn ext_view() -> ExternalView {
    ExternalView {
        pilot: PilotEngineView {
            deposit: Coin { denom: "usk".to_string(), amount: 1_000_000_000 },
            sale_fee: 50_000_000_000_000_000,
        },
        denom_supply: None,
        sale_status: None,
        fin_address: "fin_pair".to_string(),
        bow_address: "bow_mm".to_string(),
    }
}

fn coin(amount: u128, denom: &str) -> Coin {
    Coin { denom: denom.to_string(), amount }
}

fn sale_liquidity_plan() -> Vec<TokenomicsCategories> {
    vec![
        TokenomicsCategories {
            label: "Sale".to_string(),
            category_type: CategoryTypes::Sale,
            recipients: vec![TokenomicsRecipient {
                address: None,
                amount: 1_000_000_000_000,
                flows: None,
            }],
        },
        TokenomicsCategories {
            label: "Liquidity".to_string(),
            category_type: CategoryTypes::Liquidity,
            recipients: vec![TokenomicsRecipient {
                address: None,
                amount: 100_000_000_000,
                flows: None,
            }],
        },
    ]
}

fn get_launch<'a>(state: &'a keiko::state::State, idx: u128) -> &'a keiko::launch::Launch {
    match query(state, &QueryMsg::Launch { idx }).unwrap() {
        QueryAnswer::LaunchView(l) => l,
        _ => panic!("expected a launch"),
    }
}

#[test]
fn launch_new_token() {
    let mut state = instantiate(base_instantiate("kujira10d07y265gmmuvt4z0w9aw880jnsr700jt23ame"));
    let env = mock_env(MOCK_TIME_NANOS);
    let ext = ext_view();

    let err = execute(
        &mut state,
        &env,
        &info("launcher", vec![coin(1_000_000_000, "usk")]),
        &ext,
        ExecuteMsg::Create { terms_conditions_accepted: false },
    )
    .unwrap_err();
    assert_eq!(err, ContractError::TermsConditionsAccepted {});

    let err = execute(
        &mut state,
        &env,
        &info("launcher", vec![coin(100_000_000, "usk")]),
        &ext,
        ExecuteMsg::Create { terms_conditions_accepted: true },
    )
    .unwrap_err();
    assert_eq!(err, ContractError::Payment { denom: "usk".to_string() });

    execute(
        &mut state,
        &env,
        &info("launcher", vec![coin(1_000_000_000, "usk")]),
        &ext,
        ExecuteMsg::Create { terms_conditions_accepted: true },
    )
    .unwrap();

    let launch = get_launch(&state, 0);
    assert_eq!(launch.idx, 0);
    assert_eq!(launch.status, LaunchStatus::Created);
    assert_eq!(launch.deposit, coin(1_000_000_000, "usk"));

    let err = execute(
        &mut state,
        &env,
        &info("launcher", vec![coin(100_000_000, "usk")]),
        &ext,
        ExecuteMsg::Token {
            idx: 0,
            create: true,
            symbol: Some("SNED".to_string()),
            denom: None,
            decimals: None,
            denom_admin: None,
            png_url: Some("https://example.com/sned.png".to_string()),
            svg_url: Some("https://example.com/sned.svg".to_string()),
        },
    )
    .unwrap_err();
    assert_eq!(err, ContractError::InvalidFunds {});

    let resp = execute(
        &mut state,
        &env,
        &info("launcher", vec![coin(10_000_000, "usk")]),
        &ext,
        ExecuteMsg::Token {
            idx: 0,
            create: true,
            symbol: Some("SNED".to_string()),
            denom: None,
            decimals: None,
            denom_admin: None,
            png_url: Some("https://example.com/sned.png".to_string()),
            svg_url: Some("https://example.com/sned.svg".to_string()),
        },
    )
    .unwrap();
    assert_eq!(
        resp.commands,
        vec![Command::DenomCreate { subdenom: "usned".to_string() }]
    );

    let launch = get_launch(&state, 0);
    let token_response = launch.token.as_ref().unwrap();
    assert!(token_response.is_managed);
    assert_eq!(token_response.symbol, "SNED");
    assert_eq!(token_response.decimals, 6);
    assert_eq!(token_response.denom_admin, None);
    assert_eq!(token_response.denom, "factory/keiko/usned");
    assert_eq!(token_response.png_url, Some("https://example.com/sned.png".to_string()));
    assert_eq!(token_response.svg_url, Some("https://example.com/sned.svg".to_string()));
    assert_eq!(launch.status, LaunchStatus::Created);

    execute(
        &mut state,
        &env,
        &info("launcher", vec![]),
        &ext,
        ExecuteMsg::Tokenomics { idx: 0, categories: sale_liquidity_plan() },
    )
    .unwrap();

    let launch = get_launch(&state, 0);
    assert_eq!(launch.tokenomics.as_ref().unwrap().categories, sale_liquidity_plan());
    assert_eq!(launch.status, LaunchStatus::Created);

    let now_secs = MOCK_TIME_NANOS / 1_000_000_000;
    let opens = (now_secs + 100) * 1_000_000_000;
    let closes = (now_secs + 1000) * 1_000_000_000;
    let sale = |price: u128| CreateSale {
        title: "SNED".to_string(),
        description: "SNED Launch".to_string(),
        url: "https://example.com/sned".to_string(),
        beneficiary: "beneficiary".to_string(),
        price,
        opens,
        closes,
    };
    let orca = |max_slot: u8, premium: u128| CreateOrca {
        bid_denom: "bid".to_string(),
        bid_threshold: 1_000_000_000,
        max_slot,
        premium_rate_per_slot: premium,
        waiting_period: 600,
    };

    let err = execute(
        &mut state,
        &env,
        &info("launcher", vec![]),
        &ext,
        ExecuteMsg::PilotSchedule {
            idx: 0,
            sale: sale(100_000_000_000_000_000),
            orca: orca(10, 50_000_000_000_000_000),
        },
    )
    .unwrap_err();
    assert_eq!(
        err,
        ContractError::InvalidRaiseAmount { computed: 50_000_000_000, minimum: 100_000_000_000 }
    );

    execute(
        &mut state,
        &env,
        &info("launcher", vec![]),
        &ext,
        ExecuteMsg::PilotSchedule {
            idx: 0,
            sale: sale(ATOMICS_ONE),
            orca: orca(9, 100_000_000_000_000_000),
        },
    )
    .unwrap();

    let launch = get_launch(&state, 0);
    let pilot = launch.pilot.as_ref().unwrap();
    let mut expected_sale = sale(ATOMICS_ONE);
    expected_sale.beneficiary = "keiko".to_string();
    assert_eq!(pilot.sale, expected_sale);
    assert_eq!(pilot.orca, orca(9, 100_000_000_000_000_000));
    assert_eq!(pilot.beneficiary, "beneficiary");
    assert_eq!(launch.status, LaunchStatus::Planned);

    // Before the configured open time the start is rejected.
    let err = execute(
        &mut state,
        &env,
        &info("launcher", vec![]),
        &ext,
        ExecuteMsg::PilotStart { idx: 0 },
    )
    .unwrap_err();
    assert_eq!(err, ContractError::Unauthorized {});

    // Exactly at the open time it is accepted.
    let env_open = mock_env(MOCK_TIME_NANOS + 100 * 1_000_000_000);
    let resp = execute(
        &mut state,
        &env_open,
        &info("launcher", vec![]),
        &ext,
        ExecuteMsg::PilotStart { idx: 0 },
    )
    .unwrap();
    assert_eq!(resp.commands.len(), 2);
    assert_eq!(
        resp.commands[0],
        Command::DenomMint {
            denom: "factory/keiko/usned".to_string(),
            amount: 1_000_000_000_000,
            recipient: "keiko".to_string(),
        }
    );
    match &resp.commands[1] {
        Command::PilotCreate { sale_funds, deposit, .. } => {
            assert_eq!(*sale_funds, coin(1_000_000_000_000, "factory/keiko/usned"));
            assert_eq!(*deposit, coin(1_000_000_000, "usk"));
        }
        other => panic!("unexpected command {other:?}"),
    }

    // The sale engine reports the created sale via the continuation path.
    handle_reply(&mut state, 1, Some(0)).unwrap();
    let launch = get_launch(&state, 0);
    assert_eq!(launch.pilot.as_ref().unwrap().idx, Some(0));
    assert_eq!(launch.status, LaunchStatus::InProgress);

    let resp = execute(
        &mut state,
        &env_open,
        &info("launcher", vec![]),
        &ext,
        ExecuteMsg::PilotExecute { idx: 0 },
    )
    .unwrap();
    assert_eq!(resp.commands, vec![Command::PilotExecuteSale { idx: 0 }]);

    let launch = get_launch(&state, 0);
    assert_eq!(launch.status, LaunchStatus::Completed);

    let mut post_ext = ext_view();
    post_ext.sale_status = Some(SaleStatus::Executed {
        at: 1571798420000000000,
        raise_total: 100_000_000_000,
        raise_fee: 4_999_999_999,
        raise_amount: 95_000_000_000,
    });
    let resp = execute(
        &mut state,
        &env_open,
        &info("launcher", vec![coin(10_000_000, "usk")]),
        &post_ext,
        ExecuteMsg::PostLaunch { idx: 0 },
    )
    .unwrap();

    let launch = get_launch(&state, 0);
    assert_eq!(launch.status, LaunchStatus::Completed);
    assert_eq!(launch.fin.as_ref().unwrap().contract_address, Some("fin_pair".to_string()));
    assert_eq!(launch.bow.as_ref().unwrap().contract_address, Some("bow_mm".to_string()));

    // No standard categories: pair, market maker, liquidity mint, deposit,
    // authority handover, three registry entries, deposit refund, residual.
    assert_eq!(resp.commands.len(), 10);
    match &resp.commands[0] {
        Command::FinInstantiate { price_precision_decimals, decimal_delta, denom, bid_denom, .. } => {
            // average price 0.095: one leading fractional zero plus four digits
            assert_eq!(*price_precision_decimals, 5);
            assert_eq!(*decimal_delta, 0);
            assert_eq!(denom, "factory/keiko/usned");
            assert_eq!(bid_denom, "bid");
        }
        other => panic!("unexpected command {other:?}"),
    }
    assert!(matches!(&resp.commands[1], Command::BowInstantiate { .. }));
    assert_eq!(
        resp.commands[2],
        Command::DenomMint {
            denom: "factory/keiko/usned".to_string(),
            amount: 100_000_000_000,
            recipient: "keiko".to_string(),
        }
    );
    assert_eq!(
        resp.commands[3],
        Command::BowDeposit {
            contract: "bow_mm".to_string(),
            callback_idx: 0,
            token_funds: coin(100_000_000_000, "factory/keiko/usned"),
            stable_funds: coin(10_000_000_000, "bid"),
        }
    );
    assert_eq!(
        resp.commands[4],
        Command::DenomChangeAdmin {
            denom: "factory/keiko/usned".to_string(),
            address: "kujira10d07y265gmmuvt4z0w9aw880jnsr700jt23ame".to_string(),
        }
    );
    assert_eq!(
        resp.commands[8],
        Command::Send { to_address: "launcher".to_string(), amount: coin(1_000_000_000, "usk") }
    );
    assert_eq!(
        resp.commands[9],
        Command::Send {
            to_address: "beneficiary".to_string(),
            amount: coin(85_000_000_000, "bid"),
        }
    );

    // Settlement is not re-executed once populated.
    let err = execute(
        &mut state,
        &env_open,
        &info("launcher", vec![coin(10_000_000, "usk")]),
        &post_ext,
        ExecuteMsg::PostLaunch { idx: 0 },
    )
    .unwrap_err();
    assert_eq!(err, ContractError::SettlementAlreadyDone {});
}

#[test]
fn launch_own_token() {
    let mut state = instantiate(base_instantiate("governance"));
    let env = mock_env(MOCK_TIME_NANOS);
    let mut ext = ext_view();

    execute(
        &mut state,
        &env,
        &info("launcher", vec![coin(1_000_000_000, "usk")]),
        &ext,
        ExecuteMsg::Create { terms_conditions_accepted: true },
    )
    .unwrap();

    let launch = get_launch(&state, 0);
    assert_eq!(launch.idx, 0);
    assert_eq!(launch.status, LaunchStatus::Created);
    assert_eq!(launch.deposit, coin(1_000_000_000, "usk"));

    ext.denom_supply = Some(1_000_000_000_000_000);
    execute(
        &mut state,
        &env,
        &info("launcher", vec![]),
        &ext,
        ExecuteMsg::Token {
            idx: 0,
            create: false,
            symbol: Some("SNED".to_string()),
            denom: Some("snedown".to_string()),
            decimals: Some(6),
            denom_admin: Some("kujira10d07y265gmmuvt4z0w9aw880jnsr700jt23ame".to_string()),
            png_url: Some("https://example.com/sned.png".to_string()),
            svg_url: Some("https://example.com/sned.svg".to_string()),
        },
    )
    .unwrap();

    let launch = get_launch(&state, 0);
    let token_response = launch.token.as_ref().unwrap();
    assert!(!token_response.is_managed);
    assert_eq!(token_response.symbol, "SNED");
    assert_eq!(token_response.decimals, 6);
    assert_eq!(
        token_response.denom_admin,
        Some("kujira10d07y265gmmuvt4z0w9aw880jnsr700jt23ame".to_string())
    );
    assert_eq!(token_response.png_url, Some("https://example.com/sned.png".to_string()));
    assert_eq!(token_response.svg_url, Some("https://example.com/sned.svg".to_string()));
    assert_eq!(launch.status, LaunchStatus::Created);

    execute(
        &mut state,
        &env,
        &info("launcher", vec![]),
        &ext,
        ExecuteMsg::Tokenomics { idx: 0, categories: sale_liquidity_plan() },
    )
    .unwrap();

    let launch = get_launch(&state, 0);
    assert_eq!(launch.tokenomics.as_ref().unwrap().categories, sale_liquidity_plan());
    assert_eq!(launch.status, LaunchStatus::Created);

    let now_secs = MOCK_TIME_NANOS / 1_000_000_000;
    let sale = CreateSale {
        title: "SNED".to_string(),
        description: "SNED Launch".to_string(),
        url: "https://example.com/sned".to_string(),
        beneficiary: "beneficiary".to_string(),
        price: ATOMICS_ONE,
        opens: (now_secs + 100) * 1_000_000_000,
        closes: (now_secs + 1000) * 1_000_000_000,
    };
    let orca = CreateOrca {
        bid_denom: "bid".to_string(),
        bid_threshold: 1_000_000_000,
        max_slot: 10,
        premium_rate_per_slot: 50_000_000_000_000_000,
        waiting_period: 600,
    };

    execute(
        &mut state,
        &env,
        &info("launcher", vec![]),
        &ext,
        ExecuteMsg::PilotSchedule { idx: 0, sale: sale.clone(), orca: orca.clone() },
    )
    .unwrap();

    let launch = get_launch(&state, 0);
    let pilot = launch.pilot.as_ref().unwrap();
    let mut expected_sale = sale.clone();
    expected_sale.beneficiary = "keiko".to_string();
    assert_eq!(pilot.sale, expected_sale);
    assert_eq!(pilot.orca, orca);
    assert_eq!(pilot.beneficiary, "beneficiary");
    assert_eq!(launch.status, LaunchStatus::Planned);

    let env_open = mock_env(MOCK_TIME_NANOS + 100 * 1_000_000_000);
    let resp = execute(
        &mut state,
        &env_open,
        &info("launcher", vec![coin(1_000_000_000_000, "snedown")]),
        &ext,
        ExecuteMsg::PilotStart { idx: 0 },
    )
    .unwrap();
    assert_eq!(resp.commands.len(), 1);
    match &resp.commands[0] {
        Command::PilotCreate { sale_funds, .. } => {
            assert_eq!(*sale_funds, coin(1_000_000_000_000, "snedown"));
        }
        other => panic!("unexpected command {other:?}"),
    }

    handle_reply(&mut state, 1, Some(0)).unwrap();
    let launch = get_launch(&state, 0);
    assert_eq!(launch.pilot.as_ref().unwrap().idx, Some(0));
    assert_eq!(launch.status, LaunchStatus::InProgress);

    execute(&mut state, &env_open, &info("launcher", vec![]), &ext, ExecuteMsg::PilotExecute {
        idx: 0,
    })
    .unwrap();
    let launch = get_launch(&state, 0);
    assert_eq!(launch.status, LaunchStatus::Completed);

    let mut post_ext = ext_view();
    post_ext.sale_status = Some(SaleStatus::Executed {
        at: 1571798420000000000,
        raise_total: 550_000_000_000,
        raise_fee: 27_499_999_999,
        raise_amount: 522_500_000_000,
    });
    let resp = execute(
        &mut state,
        &env_open,
        &info("launcher", vec![coin(100_000_000_000, "snedown"), coin(10_000_000, "usk")]),
        &post_ext,
        ExecuteMsg::PostLaunch { idx: 0 },
    )
    .unwrap();

    let launch = get_launch(&state, 0);
    assert_eq!(launch.status, LaunchStatus::Completed);
    assert!(launch.fin.is_some());
    assert!(launch.bow.is_some());

    // Pair, market maker, liquidity deposit, deposit refund, residual payout.
    assert_eq!(resp.commands.len(), 5);
    match &resp.commands[0] {
        Command::FinInstantiate { price_precision_decimals, decimal_delta, .. } => {
            // average price 0.5225: no leading fractional zero, four digits
            assert_eq!(*price_precision_decimals, 4);
            assert_eq!(*decimal_delta, 0);
        }
        other => panic!("unexpected command {other:?}"),
    }
    assert!(matches!(&resp.commands[1], Command::BowInstantiate { .. }));
    assert_eq!(
        resp.commands[2],
        Command::BowDeposit {
            contract: "bow_mm".to_string(),
            callback_idx: 0,
            token_funds: coin(100_000_000_000, "snedown"),
            stable_funds: coin(55_000_000_000, "bid"),
        }
    );
    assert_eq!(
        resp.commands[3],
        Command::Send { to_address: "launcher".to_string(), amount: coin(1_000_000_000, "usk") }
    );
    assert_eq!(
        resp.commands[4],
        Command::Send {
            to_address: "beneficiary".to_string(),
            amount: coin(467_500_000_000, "bid"),
        }
    );
}
