use mordexel::domain::{Asset, Side, Symbol, Timeframe};
use mordexel::execution::{
    decimals_from_step_text, price_rounding, resolve_tp_targets, take_profit_count, validate_instant_inputs,
    validate_margin_sizing, validate_plan_inputs, PriceRounding,
    validate_scheduled_entry,
    ExchangeError, ExecutionError, ScheduledEntryError, TpStrategy,
};

#[test]
fn tp2_adjusted_keeps_second_target() {
    let tf = Timeframe::M30;
    assert_eq!(resolve_tp_targets(TpStrategy::Tp2Adjusted, &[1.0, 2.0, 3.0], tf), vec![2.0]);
    assert_eq!(resolve_tp_targets(TpStrategy::Tp2Adjusted, &[1.0, 2.0], tf), vec![2.0]);
    assert_eq!(resolve_tp_targets(TpStrategy::Tp2Adjusted, &[1.0], tf), vec![1.0]);
    assert_eq!(resolve_tp_targets::<f64>(TpStrategy::Tp2Adjusted, &[], tf), Vec::<f64>::new());
}

#[test]
fn tp2_tp3_split_cases() {
    let tf = Timeframe::H1;
    assert_eq!(
        resolve_tp_targets(TpStrategy::Tp2Tp3Split, &[1.0, 2.0, 3.0, 4.0], tf),
        vec![2.0, 3.0]
    );
    assert_eq!(resolve_tp_targets(TpStrategy::Tp2Tp3Split, &[1.0, 2.0, 3.0], tf), vec![2.0, 3.0]);
    assert_eq!(resolve_tp_targets(TpStrategy::Tp2Tp3Split, &[1.0, 2.0], tf), vec![1.0, 2.0]);
    assert_eq!(resolve_tp_targets(TpStrategy::Tp2Tp3Split, &[1.0], tf), vec![1.0]);
    assert!(resolve_tp_targets::<f64>(TpStrategy::Tp2Tp3Split, &[], tf).is_empty());
}

#[test]
fn copied_returns_targets_unchanged() {
    let t = [5.0, 4.0, 3.0, 2.0];
    assert_eq!(resolve_tp_targets(TpStrategy::Copied, &t, Timeframe::H4), t.to_vec());
}

#[test]
fn exchange_error_texts() {
    let m = || "boom".to_string();
    assert_eq!(ExchangeError::Network { message: m() }.to_string(), "network error: boom");
    assert_eq!(
        ExchangeError::Authentication { message: m() }.to_string(),
        "authentication error: boom"
    );
    assert_eq!(ExchangeError::InvalidRequest { message: m() }.to_string(), "invalid request: boom");
    assert_eq!(
        ExchangeError::Rejected { message: m() }.to_string(),
        "exchange rejected request: boom"
    );
    assert_eq!(ExchangeError::RateLimited { message: m() }.to_string(), "rate limited: boom");
    assert_eq!(
        ExchangeError::Internal { message: m() }.to_string(),
        "internal exchange error: boom"
    );
}

#[test]
fn execution_error_texts_and_from() {
    let e: ExecutionError = ExchangeError::RateLimited { message: "slow".into() }.into();
    assert_eq!(e, ExecutionError::Exchange(ExchangeError::RateLimited { message: "slow".into() }));
    assert_eq!(e.to_string(), "exchange error: rate limited: slow");
    assert_eq!(
        ExecutionError::UnsupportedSymbol(Symbol::new(Asset::TRX, Asset::USDT)).to_string(),
        "unsupported symbol: TRXUSDT"
    );
    assert_eq!(
        ExecutionError::InvalidScheduledEntry { message: "x".into() }.to_string(),
        "invalid scheduled entry: x"
    );
    assert_eq!(
        ExecutionError::Internal { message: "y".into() }.to_string(),
        "internal execution error: y"
    );
}

#[test]
fn scheduled_entry_rules() {
    assert_eq!(validate_scheduled_entry(0, true, None), Err(ScheduledEntryError::ZeroChunks));
    assert_eq!(
        validate_scheduled_entry(3, true, None),
        Err(ScheduledEntryError::ZeroDurationWithMultipleChunks)
    );
    assert_eq!(
        validate_scheduled_entry(1, false, None),
        Err(ScheduledEntryError::NonZeroDurationWithSingleChunk)
    );
    assert_eq!(
        validate_scheduled_entry(1, true, Some(false)),
        Err(ScheduledEntryError::InvalidStopLossPrice)
    );
    assert_eq!(validate_scheduled_entry(1, true, Some(true)), Ok(()));
    assert_eq!(validate_scheduled_entry(4, false, None), Ok(()));
    assert_eq!(validate_scheduled_entry(0, false, Some(false)), Err(ScheduledEntryError::ZeroChunks));
}

#[test]
fn margin_sizing_rules() {
    assert_eq!(validate_margin_sizing(true, true, 120), Ok(()));
    assert_eq!(
        validate_margin_sizing(false, false, 0),
        Err(ExecutionError::Internal { message: "margin_pct must be > 0".into() })
    );
    assert_eq!(
        validate_margin_sizing(true, false, 0),
        Err(ExecutionError::Internal { message: "leverage_safety must be in (0, 1]".into() })
    );
    assert_eq!(
        validate_margin_sizing(true, true, 0),
        Err(ExecutionError::Internal { message: "max_leverage must be > 0".into() })
    );
}

#[test]
fn decimals_of_step_texts() {
    assert_eq!(decimals_from_step_text("0.001"), 3);
    assert_eq!(decimals_from_step_text("0.1"), 1);
    assert_eq!(decimals_from_step_text("1"), 0);
    assert_eq!(decimals_from_step_text("0.00001"), 5);
    assert_eq!(decimals_from_step_text("1.2.345"), 1);
    assert_eq!(decimals_from_step_text(""), 0);
    assert_eq!(decimals_from_step_text(&0.0001f64.to_string()), 4);
}

#[test]
fn plan_inputs_report_first_broken_rule() {
    let sol = Symbol::new(Asset::SOL, Asset::USDT);
    assert_eq!(validate_plan_inputs(&sol, true, true, true, true), Ok(()));
    let internal = |m: &str| Err(ExecutionError::Internal { message: m.to_string() });
    assert_eq!(
        validate_plan_inputs(&sol, false, false, false, false),
        internal("entry must be > 0 for SOLUSDT")
    );
    assert_eq!(
        validate_plan_inputs(&sol, true, false, false, false),
        internal("stop_loss must be > 0 for SOLUSDT")
    );
    assert_eq!(
        validate_plan_inputs(&sol, true, true, false, false),
        internal("portfolio_equity must be > 0")
    );
    assert_eq!(
        validate_plan_inputs(&sol, true, true, true, false),
        internal("leverage_safety must be in (0, 1]")
    );
}

#[test]
fn instant_inputs_report_first_broken_rule() {
    let ada = Symbol::new(Asset::ADA, Asset::USDT);
    let internal = |m: &str| Err(ExecutionError::Internal { message: m.to_string() });
    assert_eq!(validate_instant_inputs(&ada, true, true, 3), Ok(()));
    assert_eq!(
        validate_instant_inputs(&ada, false, false, 0),
        internal("quantity rounded to zero for ADAUSDT")
    );
    assert_eq!(
        validate_instant_inputs(&ada, true, false, 0),
        internal("no take profit targets for ADAUSDT")
    );
    assert_eq!(
        validate_instant_inputs(&ada, true, true, 0),
        internal("quantity too small to place take profits for ADAUSDT")
    );
}

#[test]
fn take_profit_count_is_bounded_by_quantity() {
    let xrp = Symbol::new(Asset::XRP, Asset::USDT);
    assert_eq!(take_profit_count(&xrp, 3, 5), Ok(3));
    assert_eq!(take_profit_count(&xrp, 3, 2), Ok(2));
    assert_eq!(
        take_profit_count(&xrp, 0, 2),
        Err(ExecutionError::Internal { message: "no usable take profit targets for XRPUSDT".to_string() })
    );
}

#[test]
fn prices_round_toward_the_safe_side() {
    assert_eq!(price_rounding(Side::Long), PriceRounding::Down);
    assert_eq!(price_rounding(Side::Short), PriceRounding::Up);
}
