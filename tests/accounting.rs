use barter_core::error::PortfolioError;
use barter_core::event::{Decision, Fees, FillEvent, MarketEvent, MarketMeta, Bar, Timestamp};
use barter_core::fixed::Fixed;
use barter_core::position::{
    Direction, EquityPoint, Position, PositionBuilder, PositionEnterer, PositionExiter,
    PositionMeta, PositionUpdater,
};
use uuid::Uuid;

fn fx(v: f64) -> Fixed {
    Fixed::from_raw((v * 1e8).round() as i64)
}

fn fill(decision: Decision, quantity: f64, value: f64, fee: f64) -> FillEvent {
    FillEvent {
        trace_id: Uuid::new_v4(),
        timestamp: Timestamp { micros: 2_000 },
        exchange: String::from("BINANCE"),
        symbol: String::from("BTC-USD"),
        market_meta: MarketMeta { close: fx(100.0), timestamp: Timestamp { micros: 1_000 } },
        decision,
        quantity: fx(quantity),
        fill_value_gross: fx(value),
        fees: Fees { exchange: fx(fee), slippage: fx(fee), network: fx(fee) },
    }
}

fn market(close: f64) -> MarketEvent {
    let at = Timestamp { micros: 5_000 };
    MarketEvent {
        trace_id: Uuid::new_v4(),
        timestamp: at,
        exchange: String::from("BINANCE"),
        symbol: String::from("BTC-USD"),
        bar: Bar {
            timestamp: at,
            open: fx(close),
            high: fx(close),
            low: fx(close),
            close: fx(close),
            volume: fx(1.0),
        },
    }
}

#[test]
fn enter_with_zero_quantity_is_ambiguous() {
    for decision in [Decision::Long, Decision::Short] {
        let result = Position::enter(&fill(decision, 0.0, 100.0, 1.0));
        assert_eq!(result.err(), Some(PortfolioError::ParseEntryDirectionError));
    }
}

#[test]
fn enter_reports_each_error_kind() {
    let close_long = Position::enter(&fill(Decision::CloseLong, -1.0, 100.0, 1.0));
    assert_eq!(close_long.err(), Some(PortfolioError::CannotEnterPositionWithExitFill));
    let close_short = Position::enter(&fill(Decision::CloseShort, 1.0, 100.0, 1.0));
    assert_eq!(close_short.err(), Some(PortfolioError::CannotEnterPositionWithExitFill));
    let long = Position::enter(&fill(Decision::Long, -2.0, 100.0, 1.0));
    assert_eq!(long.err(), Some(PortfolioError::ParseEntryDirectionError));
    let short = Position::enter(&fill(Decision::Short, 2.0, 100.0, 1.0));
    assert_eq!(short.err(), Some(PortfolioError::ParseEntryDirectionError));
}

#[test]
fn enter_copies_identity_and_times_from_the_fill() {
    let input = fill(Decision::Long, 1.0, 100.0, 1.0);
    let position = Position::enter(&input).unwrap();
    assert_eq!(position.meta.enter_trace_id, input.trace_id);
    assert_eq!(position.meta.last_update_trace_id, input.trace_id);
    assert_ne!(position.meta.enter_trace_id, Uuid::nil());
    assert_eq!(position.meta.enter_bar_timestamp, Timestamp { micros: 1_000 });
    assert_eq!(position.meta.last_update_timestamp, Timestamp { micros: 2_000 });
    assert_eq!(position.meta.exit_trace_id, None);
    assert_eq!(position.meta.exit_bar_timestamp, None);
    assert_eq!(position.exchange, "BINANCE");
    assert_eq!(position.symbol, "BTC-USD");
    assert_eq!(position.exit_fees, Fees::default());
}

#[test]
fn enter_price_rounds_toward_zero_at_eight_places() {
    let position = Position::enter(&fill(Decision::Short, -3.0, 100.0, 0.0)).unwrap();
    assert_eq!(position.enter_avg_price_gross, Fixed::from_raw(3_333_333_333));
    assert_eq!(position.current_symbol_price, Fixed::from_raw(3_333_333_333));
    assert_eq!(position.unreal_profit_loss, fx(0.0));
}

#[test]
fn update_scales_close_by_quantity() {
    let mut position = Position::enter(&fill(Decision::Long, 2.5, 250.0, 0.5)).unwrap();
    let tick = market(120.0);
    position.update(&tick);
    assert_eq!(position.current_value_gross, fx(300.0));
    assert_eq!(position.unreal_profit_loss, fx(300.0 - 250.0 - 3.0));
    assert_eq!(position.meta.last_update_trace_id, tick.trace_id);
    assert_eq!(position.meta.last_update_timestamp, Timestamp { micros: 5_000 });
}

#[test]
fn exit_records_exit_time_and_freezes_unrealised() {
    let mut position = Position::enter(&fill(Decision::Long, 1.0, 100.0, 1.0)).unwrap();
    position.update(&market(150.0));
    let exit = fill(Decision::CloseLong, -1.0, 200.0, 1.0);
    position.exit(fx(10000.0), &exit).unwrap();
    assert_eq!(position.result_profit_loss, fx(94.0));
    assert_eq!(position.unreal_profit_loss, position.result_profit_loss);
    assert_eq!(position.meta.exit_trace_id, Some(exit.trace_id));
    assert_eq!(position.meta.exit_bar_timestamp, Some(Timestamp { micros: 1_000 }));
    let point = position.meta.exit_equity_point.unwrap();
    assert_eq!(point.equity, fx(10094.0));
    assert_eq!(point.timestamp, Timestamp { micros: 1_000 });
}

#[test]
fn exit_with_entry_fill_changes_nothing() {
    let mut position = Position::enter(&fill(Decision::Long, 1.0, 100.0, 1.0)).unwrap();
    let before = position.clone();
    let result = position.exit(fx(10000.0), &fill(Decision::Long, 1.0, 200.0, 1.0));
    assert_eq!(result, Err(PortfolioError::CannotExitPositionWithEntryFill));
    assert_eq!(position.unreal_profit_loss, before.unreal_profit_loss);
    assert_eq!(position.exit_value_gross, fx(0.0));
    assert_eq!(position.meta.exit_bar_timestamp, None);
}

#[test]
fn short_exit_uses_exact_fees() {
    let mut position = Position::enter(&fill(Decision::Short, -2.0, 200.0, 1.0)).unwrap();
    position.exit(fx(500.0), &fill(Decision::CloseShort, 2.0, 150.0, 0.5)).unwrap();
    assert_eq!(position.exit_fees_total, fx(1.5));
    assert_eq!(position.exit_avg_price_gross, fx(75.0));
    assert_eq!(position.result_profit_loss, fx(200.0 - 150.0 - 4.5));
    assert_eq!(position.meta.exit_equity_point.unwrap().equity, fx(545.5));
}

#[test]
fn short_unrealised_scenario() {
    let mut position = Position::default();
    position.direction = Direction::Short;
    position.enter_value_gross = fx(100.0);
    position.enter_fees_total = fx(1.0);
    position.current_value_gross = fx(90.0);
    assert_eq!(position.calculate_unreal_profit_loss(), fx(8.0));
}

#[test]
fn equity_adds_unrealised_then_realised() {
    let mut position = Position::enter(&fill(Decision::Long, 1.0, 100.0, 1.0)).unwrap();
    let mut equity = EquityPoint { equity: fx(1000.0), timestamp: Timestamp { micros: 0 } };
    equity.update(&position);
    assert_eq!(equity.equity, fx(994.0));
    assert_eq!(equity.timestamp, Timestamp { micros: 2_000 });
    position.exit(fx(1000.0), &fill(Decision::CloseLong, -1.0, 110.0, 1.0)).unwrap();
    equity.update(&position);
    assert_eq!(equity.equity, fx(994.0 + 4.0));
    assert_eq!(equity.timestamp, Timestamp { micros: 1_000 });
}

#[test]
fn profit_loss_return_truncates_toward_zero() {
    let mut position = Position::default();
    position.enter_value_gross = fx(3.0);
    position.result_profit_loss = fx(-1.0);
    assert_eq!(position.calculate_profit_loss_return(), Fixed::from_raw(-33_333_333));
}

#[test]
fn fees_total_sums_every_item() {
    let fees = Fees { exchange: fx(0.25), slippage: fx(-0.05), network: fx(1.0) };
    assert_eq!(fees.calculate_total_fees(), fx(1.2));
}

#[test]
fn fixed_division_and_whole_numbers() {
    assert_eq!(Fixed::from_int(-7), Fixed::from_raw(-700_000_000));
    assert_eq!(Fixed::zero(), Fixed::from_raw(0));
    assert_eq!(fx(1.0).div(fx(-3.0)), Fixed::from_raw(-33_333_333));
    assert_eq!(fx(10.0).div(fx(4.0)), fx(2.5));
}

#[test]
fn decision_entry_kinds() {
    assert!(Decision::Long.is_entry());
    assert!(Decision::Short.is_entry());
    assert!(!Decision::CloseLong.is_entry());
    assert!(!Decision::CloseShort.is_entry());
}

fn complete_builder() -> PositionBuilder {
    let meta = PositionMeta {
        enter_trace_id: Uuid::nil(),
        enter_bar_timestamp: Timestamp { micros: 1 },
        last_update_trace_id: Uuid::nil(),
        last_update_timestamp: Timestamp { micros: 2 },
        exit_trace_id: None,
        exit_bar_timestamp: None,
        exit_equity_point: None,
    };
    Position::builder()
        .meta(meta)
        .exchange(String::from("BINANCE"))
        .symbol(String::from("ETH-USD"))
        .direction(Direction::Short)
        .quantity(fx(-1.0))
        .enter_fees(Fees::default())
        .enter_fees_total(fx(0.0))
        .enter_avg_price_gross(fx(100.0))
        .enter_value_gross(fx(100.0))
        .exit_fees(Fees::default())
        .exit_fees_total(fx(0.0))
        .exit_avg_price_gross(fx(0.0))
        .exit_value_gross(fx(0.0))
        .current_symbol_price(fx(90.0))
        .current_value_gross(fx(90.0))
        .unreal_profit_loss(fx(10.0))
}

#[test]
fn builder_incomplete_without_every_field() {
    assert_eq!(complete_builder().build().err(), Some(PortfolioError::BuilderIncomplete));
    assert_eq!(PositionBuilder::new().build().err(), Some(PortfolioError::BuilderIncomplete));
}

#[test]
fn builder_builds_with_every_field() {
    let position = complete_builder().result_profit_loss(fx(0.0)).build().unwrap();
    assert_eq!(position.direction, Direction::Short);
    assert_eq!(position.quantity, fx(-1.0));
    assert_eq!(position.current_value_gross, fx(90.0));
    assert_eq!(position.unreal_profit_loss, fx(10.0));
    assert_eq!(position.symbol, "ETH-USD");
}

#[test]
fn default_position_is_an_open_long() {
    let position = Position::default();
    assert_eq!(position.direction, Direction::Long);
    assert_eq!(position.quantity, fx(1.0));
    assert_eq!(position.enter_value_gross, fx(100.0));
    assert_eq!(position.exchange, "BINANCE");
    assert_eq!(position.meta.exit_bar_timestamp, None);
    assert_eq!(Direction::default(), Direction::Long);
    assert_eq!(EquityPoint::default().equity, fx(0.0));
}

#[test]
fn error_messages() {
    assert_eq!(
        PortfolioError::BuilderIncomplete.message(),
        "Failed to build struct due to incomplete attributes provided"
    );
    assert_eq!(
        PortfolioError::CannotExitPositionWithEntryFill.message(),
        "Cannot exit Position with an entry decision FillEvent."
    );
    assert_eq!(
        PortfolioError::CannotEnterPositionWithExitFill.message(),
        "Cannot enter Position with an exit decision FillEvent."
    );
}
