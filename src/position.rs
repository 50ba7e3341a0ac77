//! Positions: entering one from a fill, marking it to market, exiting it, and
//! the equity curve that their profit and loss moves.
use crate::error::PortfolioError;
use crate::event::{Decision, FeeAmount, Fees, FillEvent, MarketEvent, Timestamp};
use crate::fixed::{abs, div_raw, fits, mul_div_trunc, mul_raw, Fixed, SCALE};
use crate::foreign::now;
use uuid::Uuid;
use vstd::prelude::*;

verus! {

/// Direction of a position when it was opened.
#[derive(Clone, Copy, Debug, PartialEq, Eq, Structural, Hash)]
pub enum Direction {
    Long,
    Short,
}

impl Default for Direction {
    fn default() -> (r: Direction)
        ensures
            r == Direction::Long,
    {
        Direction::Long
    }
}

/// Raw average price of a fill: `|fill_value_gross / quantity|`.
pub open spec fn avg_price_of(fill: FillEvent) -> int {
    abs(div_raw(fill.fill_value_gross@, fill.quantity@))
}

/// The direction that a fill opens, or why it opens none.
pub open spec fn entry_direction(fill: FillEvent) -> Result<Direction, PortfolioError> {
    match fill.decision {
        Decision::Long => if fill.quantity@ > 0 {
            Ok(Direction::Long)
        } else {
            Err(PortfolioError::ParseEntryDirectionError)
        },
        Decision::Short => if fill.quantity@ < 0 {
            Ok(Direction::Short)
        } else {
            Err(PortfolioError::ParseEntryDirectionError)
        },
        _ => Err(PortfolioError::CannotEnterPositionWithExitFill),
    }
}

/// Unrealised profit and loss, the exit fees taken to equal the entry fees.
pub open spec fn unreal_raw(direction: Direction, current: int, enter: int, enter_fees: int) -> int {
    match direction {
        Direction::Long => current - enter - 2 * enter_fees,
        Direction::Short => enter - current - 2 * enter_fees,
    }
}

/// Realised profit and loss, with the exact fees of both fills.
pub open spec fn result_raw(
    direction: Direction,
    exit: int,
    enter: int,
    enter_fees: int,
    exit_fees: int,
) -> int {
    match direction {
        Direction::Long => exit - enter - (enter_fees + exit_fees),
        Direction::Short => enter - exit - (enter_fees + exit_fees),
    }
}

/// Whether every amount that entering with `fill` computes can be held.
pub open spec fn entry_in_range(fill: FillEvent) -> bool {
    &&& fits(-2 * fill.fees.total())
    &&& fill.quantity@ != 0 ==> fits(avg_price_of(fill))
}

/// Equity at a point in time.
#[derive(Clone, Copy, Debug, PartialEq, Eq, Structural)]
pub struct EquityPoint {
    pub equity: Fixed,
    pub timestamp: Timestamp,
}

impl Default for EquityPoint {
    /// Zero equity at the time of the call.
    fn default() -> (r: EquityPoint)
        ensures
            r.equity@ == 0,
    {
        EquityPoint { equity: Fixed::zero(), timestamp: now() }
    }
}

impl EquityPoint {
    /// What `position` adds to the equity: its realised profit and loss once
    /// it is closed, its unrealised one while it is open.
    pub open spec fn contribution(position: Position) -> int {
        if position.is_open() {
            position.unreal_profit_loss@
        } else {
            position.result_profit_loss@
        }
    }

    /// Adds the profit and loss of `position` to the equity, and moves the
    /// time to the position's exit bar, or to its last update while it is
    /// open.
    pub fn update(&mut self, position: &Position)
        requires
            fits(old(self).equity@ + EquityPoint::contribution(*position)),
        ensures
            final(self).equity@ == old(self).equity@ + EquityPoint::contribution(*position),
            final(self).timestamp == match position.meta.exit_bar_timestamp {
                Some(exit_timestamp) => exit_timestamp,
                None => position.meta.last_update_timestamp,
            },
    {
        match position.meta.exit_bar_timestamp {
            None => {
                self.equity = Fixed { raw: self.equity.raw + position.unreal_profit_loss.raw };
                self.timestamp = position.meta.last_update_timestamp;
            },
            Some(exit_timestamp) => {
                self.equity = Fixed { raw: self.equity.raw + position.result_profit_loss.raw };
                self.timestamp = exit_timestamp;
            },
        }
    }
}

/// Trace identifiers, timestamps and equity of the entry, the last update and
/// the exit of a position.
#[derive(Clone, Copy, Debug)]
pub struct PositionMeta {
    /// Trace identifier of the fill that entered the position.
    pub enter_trace_id: Uuid,
    /// Time of the bar that prompted the entry.
    pub enter_bar_timestamp: Timestamp,
    /// Trace identifier of the last event that updated the position.
    pub last_update_trace_id: Uuid,
    /// Time of the last event that updated the position.
    pub last_update_timestamp: Timestamp,
    /// Trace identifier of the fill that exited the position.
    pub exit_trace_id: Option<Uuid>,
    /// Time of the bar that prompted the exit.
    pub exit_bar_timestamp: Option<Timestamp>,
    /// Portfolio equity right after the exit.
    pub exit_equity_point: Option<EquityPoint>,
}

impl Default for PositionMeta {
    /// Nil trace identifiers, both timestamps the time of the call, no exit.
    fn default() -> (r: PositionMeta)
        ensures
            r.exit_trace_id is None,
            r.exit_bar_timestamp is None,
            r.exit_equity_point is None,
    {
        PositionMeta {
            enter_trace_id: Uuid::nil(),
            enter_bar_timestamp: now(),
            last_update_trace_id: Uuid::nil(),
            last_update_timestamp: now(),
            exit_trace_id: None,
            exit_bar_timestamp: None,
            exit_equity_point: None,
        }
    }
}

/// Opens a new [`Position`].
pub trait PositionEnterer {
    /// The position that an entry fill opens.
    fn enter(fill: &FillEvent) -> (r: Result<Position, PortfolioError>)
        requires
            entry_in_range(*fill),
    ;
}

/// Marks an open position to the market.
pub trait PositionUpdater {
    /// Whether every amount that updating with `market` computes can be held.
    spec fn can_update(&self, market: &MarketEvent) -> bool;

    /// Updates an open position with the latest market event.
    fn update(&mut self, market: &MarketEvent)
        requires
            old(self).can_update(market),
    ;
}

/// Closes an open position.
pub trait PositionExiter {
    /// Whether every amount that exiting with `fill` from a portfolio worth
    /// `portfolio_value` computes can be held.
    spec fn can_exit(&self, portfolio_value: Fixed, fill: &FillEvent) -> bool;

    /// Exits an open position with the fill of a closing order, given the
    /// portfolio's equity before the exit.
    fn exit(&mut self, portfolio_value: Fixed, fill: &FillEvent) -> (r: Result<(), PortfolioError>)
        requires
            old(self).can_exit(portfolio_value, fill),
    ;
}

/// An open or closed exposure to one instrument.
#[derive(Clone, Debug)]
pub struct Position {
    pub meta: PositionMeta,
    pub exchange: String,
    pub symbol: String,
    /// Long or Short.
    pub direction: Direction,
    /// Signed number of contracts: positive when Long, negative when Short.
    pub quantity: Fixed,
    /// Fees incurred by the entry, item by item.
    pub enter_fees: Fees,
    /// Sum of `enter_fees`.
    pub enter_fees_total: FeeAmount,
    /// Entry price, fees excluded.
    pub enter_avg_price_gross: Fixed,
    /// `|quantity| * enter_avg_price_gross`.
    pub enter_value_gross: Fixed,
    /// Fees incurred by the exit, item by item.
    pub exit_fees: Fees,
    /// Sum of `exit_fees`.
    pub exit_fees_total: FeeAmount,
    /// Exit price, fees excluded.
    pub exit_avg_price_gross: Fixed,
    /// `|quantity| * exit_avg_price_gross`.
    pub exit_value_gross: Fixed,
    /// Latest close price of the symbol.
    pub current_symbol_price: Fixed,
    /// `|quantity| * current_symbol_price`.
    pub current_value_gross: Fixed,
    /// Profit and loss while the position is open.
    pub unreal_profit_loss: Fixed,
    /// Profit and loss once the position is closed.
    pub result_profit_loss: Fixed,
}

impl Default for Position {
    /// An open Long position of one ETH-USD contract on BINANCE, entered at
    /// 100 without fees and not yet moved.
    fn default() -> (r: Position)
        ensures
            r.exchange@ == "BINANCE"@,
            r.symbol@ == "ETH-USD"@,
            r.direction == Direction::Long,
            r.quantity@ == SCALE,
            r.enter_fees.is_zero(),
            r.enter_fees_total@ == 0,
            r.enter_avg_price_gross@ == 100 * SCALE,
            r.enter_value_gross@ == 100 * SCALE,
            r.exit_fees.is_zero(),
            r.exit_fees_total@ == 0,
            r.exit_avg_price_gross@ == 0,
            r.exit_value_gross@ == 0,
            r.current_symbol_price@ == 100 * SCALE,
            r.current_value_gross@ == 100 * SCALE,
            r.unreal_profit_loss@ == 0,
            r.result_profit_loss@ == 0,
            r.is_open(),
            r.well_formed(),
    {
        proof {
            reveal_strlit("BINANCE");
            reveal_strlit("ETH-USD");
        }
        Position {
            meta: PositionMeta::default(),
            exchange: "BINANCE".to_string(),
            symbol: "ETH-USD".to_string(),
            direction: Direction::default(),
            quantity: Fixed::from_int(1),
            enter_fees: Fees::default(),
            enter_fees_total: Fixed::zero(),
            enter_avg_price_gross: Fixed::from_int(100),
            enter_value_gross: Fixed::from_int(100),
            exit_fees: Fees::default(),
            exit_fees_total: Fixed::zero(),
            exit_avg_price_gross: Fixed::zero(),
            exit_value_gross: Fixed::zero(),
            current_symbol_price: Fixed::from_int(100),
            current_value_gross: Fixed::from_int(100),
            unreal_profit_loss: Fixed::zero(),
            result_profit_loss: Fixed::zero(),
        }
    }
}

impl Position {
    pub open spec fn unreal_spec(self) -> int {
        unreal_raw(
            self.direction,
            self.current_value_gross@,
            self.enter_value_gross@,
            self.enter_fees_total@,
        )
    }

    pub open spec fn result_spec(self) -> int {
        result_raw(
            self.direction,
            self.exit_value_gross@,
            self.enter_value_gross@,
            self.enter_fees_total@,
            self.exit_fees_total@,
        )
    }

    pub open spec fn is_open(self) -> bool {
        self.meta.exit_bar_timestamp is None
    }

    /// Long positions hold a positive quantity, Short ones a negative one.
    pub open spec fn direction_matches_quantity(self) -> bool {
        match self.direction {
            Direction::Long => self.quantity@ > 0,
            Direction::Short => self.quantity@ < 0,
        }
    }

    /// Exit fields are zero while the position is open; once it is closed,
    /// its unrealised profit and loss is frozen at the realised one.
    pub open spec fn well_formed(self) -> bool {
        &&& self.direction_matches_quantity()
        &&& if self.is_open() {
            &&& self.exit_fees.is_zero()
            &&& self.exit_fees_total@ == 0
            &&& self.exit_avg_price_gross@ == 0
            &&& self.exit_value_gross@ == 0
            &&& self.result_profit_loss@ == 0
            &&& self.meta.exit_trace_id is None
            &&& self.meta.exit_equity_point is None
        } else {
            &&& self.unreal_profit_loss == self.result_profit_loss
            &&& self.meta.exit_trace_id is Some
            &&& self.meta.exit_equity_point is Some
        }
    }

    /// The position that `fill` opens in `direction`.
    pub open spec fn entered_from(self, fill: FillEvent, direction: Direction) -> bool {
        &&& self.meta.enter_trace_id == fill.trace_id
        &&& self.meta.enter_bar_timestamp == fill.market_meta.timestamp
        &&& self.meta.last_update_trace_id == fill.trace_id
        &&& self.meta.last_update_timestamp == fill.timestamp
        &&& self.meta.exit_trace_id is None
        &&& self.meta.exit_bar_timestamp is None
        &&& self.meta.exit_equity_point is None
        &&& self.exchange == fill.exchange
        &&& self.symbol == fill.symbol
        &&& self.direction == direction
        &&& self.quantity == fill.quantity
        &&& self.enter_fees == fill.fees
        &&& self.enter_fees_total@ == fill.fees.total()
        &&& self.enter_avg_price_gross@ == avg_price_of(fill)
        &&& self.enter_value_gross == fill.fill_value_gross
        &&& self.exit_fees.is_zero()
        &&& self.exit_fees_total@ == 0
        &&& self.exit_avg_price_gross@ == 0
        &&& self.exit_value_gross@ == 0
        &&& self.current_symbol_price == self.enter_avg_price_gross
        &&& self.current_value_gross == fill.fill_value_gross
        &&& self.unreal_profit_loss@ == -2 * fill.fees.total()
        &&& self.result_profit_loss@ == 0
    }

    /// Raw value of `|quantity| * close`, the position's worth at `close`.
    pub open spec fn value_at(self, close: Fixed) -> int {
        mul_raw(close@, abs(self.quantity@))
    }

    /// Whether every amount that updating with a close of `close` computes
    /// can be held.
    pub open spec fn update_in_range(self, close: Fixed) -> bool {
        &&& fits(self.value_at(close))
        &&& fits(
            unreal_raw(
                self.direction,
                self.value_at(close),
                self.enter_value_gross@,
                self.enter_fees_total@,
            ),
        )
    }

    /// Whether every amount that exiting with `fill` from a portfolio worth
    /// `portfolio_value` computes can be held.
    pub open spec fn exit_in_range(self, portfolio_value: Fixed, fill: FillEvent) -> bool {
        let result = result_raw(
            self.direction,
            fill.fill_value_gross@,
            self.enter_value_gross@,
            self.enter_fees_total@,
            fill.fees.total(),
        );
        &&& fill.quantity@ != 0
        &&& fits(avg_price_of(fill))
        &&& fits(fill.fees.total())
        &&& fits(result)
        &&& fits(portfolio_value@ + result)
    }

    /// Approximate unrealised profit and loss: the exit fees are taken to
    /// equal the entry fees.
    pub fn calculate_unreal_profit_loss(&self) -> (r: Fixed)
        requires
            fits(self.unreal_spec()),
        ensures
            r@ == self.unreal_spec(),
    {
        let current = self.current_value_gross.raw as i128;
        let enter = self.enter_value_gross.raw as i128;
        let approx_total_fees = 2 * self.enter_fees_total.raw as i128;
        let pnl = match self.direction {
            Direction::Long => current - enter - approx_total_fees,
            Direction::Short => enter - current - approx_total_fees,
        };
        Fixed { raw: pnl as i64 }
    }

    /// Exact realised profit and loss, with the fees of both fills.
    pub fn calculate_result_profit_loss(&self) -> (r: Fixed)
        requires
            fits(self.result_spec()),
        ensures
            r@ == self.result_spec(),
    {
        let exit = self.exit_value_gross.raw as i128;
        let enter = self.enter_value_gross.raw as i128;
        let total_fees = self.enter_fees_total.raw as i128 + self.exit_fees_total.raw as i128;
        let pnl = match self.direction {
            Direction::Long => exit - enter - total_fees,
            Direction::Short => enter - exit - total_fees,
        };
        Fixed { raw: pnl as i64 }
    }

    /// Return of a closed position: `result_profit_loss / enter_value_gross`.
    pub fn calculate_profit_loss_return(&self) -> (r: Fixed)
        requires
            self.enter_value_gross@ != 0,
            fits(div_raw(self.result_profit_loss@, self.enter_value_gross@)),
        ensures
            r@ == div_raw(self.result_profit_loss@, self.enter_value_gross@),
    {
        self.result_profit_loss.div(self.enter_value_gross)
    }

    /// A builder with no field set.
    pub fn builder() -> (r: PositionBuilder)
        ensures
            r.is_empty(),
    {
        PositionBuilder::new()
    }

    /// Average price of a fill, fees excluded: `|fill_value_gross / quantity|`.
    pub fn calculate_avg_price_gross(fill: &FillEvent) -> (r: Fixed)
        requires
            fill.quantity@ != 0,
            fits(avg_price_of(*fill)),
        ensures
            r@ == avg_price_of(*fill),
    {
        let q = mul_div_trunc(fill.fill_value_gross.raw as i128, SCALE as i128, fill.quantity.raw as i128);
        Fixed { raw: if q < 0 { -q } else { q } }
    }

    /// The direction that an entry fill opens.
    pub fn parse_entry_direction(fill: &FillEvent) -> (r: Result<Direction, PortfolioError>)
        ensures
            r == entry_direction(*fill),
    {
        match fill.decision {
            Decision::Long => if fill.quantity.raw > 0 {
                Ok(Direction::Long)
            } else {
                Err(PortfolioError::ParseEntryDirectionError)
            },
            Decision::Short => if fill.quantity.raw < 0 {
                Ok(Direction::Short)
            } else {
                Err(PortfolioError::ParseEntryDirectionError)
            },
            Decision::CloseLong | Decision::CloseShort => Err(
                PortfolioError::CannotEnterPositionWithExitFill,
            ),
        }
    }
}

impl PositionEnterer for Position {
    /// Opens a position from an entry fill.
    ///
    /// Long with a positive quantity opens a Long position, Short with a
    /// negative quantity a Short one. A closing decision is refused with
    /// `CannotEnterPositionWithExitFill`, any other quantity with
    /// `ParseEntryDirectionError`.
    fn enter(fill: &FillEvent) -> (r: Result<Position, PortfolioError>)
        ensures
            match entry_direction(*fill) {
                Ok(d) => r matches Ok(p) && p.entered_from(*fill, d) && p.well_formed(),
                Err(e) => r == Err::<Position, PortfolioError>(e),
            },
            fill.decision is Long && fill.quantity@ > 0 ==> (r matches Ok(p) && p.direction
                == Direction::Long),
            fill.decision is Short && fill.quantity@ < 0 ==> (r matches Ok(p) && p.direction
                == Direction::Short),
            fill.decision is CloseLong || fill.decision is CloseShort ==> r == Err::<
                Position,
                PortfolioError,
            >(PortfolioError::CannotEnterPositionWithExitFill),
            (fill.decision is Long && fill.quantity@ <= 0) || (fill.decision is Short
                && fill.quantity@ >= 0) ==> r == Err::<Position, PortfolioError>(
                PortfolioError::ParseEntryDirectionError,
            ),
    {
        let direction = match Position::parse_entry_direction(fill) {
            Ok(d) => d,
            Err(e) => {
                return Err(e);
            },
        };
        let meta = PositionMeta {
            enter_trace_id: fill.trace_id,
            enter_bar_timestamp: fill.market_meta.timestamp,
            last_update_trace_id: fill.trace_id,
            last_update_timestamp: fill.timestamp,
            exit_trace_id: None,
            exit_bar_timestamp: None,
            exit_equity_point: None,
        };
        let enter_fees_total = fill.fees.calculate_total_fees();
        let enter_avg_price_gross = Position::calculate_avg_price_gross(fill);
        let unreal_profit_loss = Fixed { raw: -2 * enter_fees_total.raw };
        Ok(Position {
            meta,
            exchange: fill.exchange.clone(),
            symbol: fill.symbol.clone(),
            direction,
            quantity: fill.quantity,
            enter_fees: fill.fees,
            enter_fees_total,
            enter_avg_price_gross,
            enter_value_gross: fill.fill_value_gross,
            exit_fees: Fees::default(),
            exit_fees_total: Fixed::zero(),
            exit_avg_price_gross: Fixed::zero(),
            exit_value_gross: Fixed::zero(),
            current_symbol_price: enter_avg_price_gross,
            current_value_gross: fill.fill_value_gross,
            unreal_profit_loss,
            result_profit_loss: Fixed::zero(),
        })
    }

}

impl PositionUpdater for Position {
    open spec fn can_update(&self, market: &MarketEvent) -> bool {
        self.update_in_range(market.bar.close)
    }

    /// Marks the position to the close of `market`: the current price, value
    /// and unrealised profit and loss follow it, and `market` becomes the last
    /// update. Nothing else changes.
    fn update(&mut self, market: &MarketEvent)
        ensures
            *final(self) == (Position {
                meta: PositionMeta {
                    last_update_trace_id: market.trace_id,
                    last_update_timestamp: market.timestamp,
                    ..old(self).meta
                },
                current_symbol_price: market.bar.close,
                current_value_gross: final(self).current_value_gross,
                unreal_profit_loss: final(self).unreal_profit_loss,
                ..*old(self)
            }),
            final(self).current_value_gross@ == old(self).value_at(market.bar.close),
            final(self).unreal_profit_loss@ == final(self).unreal_spec(),
            old(self).well_formed() && old(self).is_open() ==> final(self).well_formed(),
    {
        self.meta.last_update_trace_id = market.trace_id;
        self.meta.last_update_timestamp = market.timestamp;
        self.current_symbol_price = market.bar.close;
        let q = self.quantity.raw as i128;
        let quantity_abs: i128 = if q < 0 { -q } else { q };
        self.current_value_gross = Fixed {
            raw: mul_div_trunc(market.bar.close.raw as i128, quantity_abs, SCALE as i128),
        };
        self.unreal_profit_loss = self.calculate_unreal_profit_loss();
    }

}

impl PositionExiter for Position {
    open spec fn can_exit(&self, portfolio_value: Fixed, fill: &FillEvent) -> bool {
        !fill.decision.spec_is_entry() ==> self.exit_in_range(portfolio_value, *fill)
    }

    /// Closes the position with an exit fill, from a portfolio worth
    /// `portfolio_value` before the exit.
    ///
    /// An entry fill is refused with `CannotExitPositionWithEntryFill` and
    /// changes nothing. Otherwise the exit fields are set from the fill, the
    /// realised profit and loss is computed with the exact fees of both fills,
    /// the unrealised one is frozen at it, and the portfolio's equity after
    /// the exit is recorded at the fill's bar time.
    fn exit(&mut self, portfolio_value: Fixed, fill: &FillEvent) -> (r: Result<(), PortfolioError>)
        ensures
            fill.decision.spec_is_entry() ==> {
                &&& r == Err::<(), PortfolioError>(PortfolioError::CannotExitPositionWithEntryFill)
                &&& *final(self) == *old(self)
            },
            !fill.decision.spec_is_entry() ==> {
                &&& r == Ok::<(), PortfolioError>(())
                &&& *final(self) == (Position {
                    meta: PositionMeta {
                        last_update_trace_id: fill.trace_id,
                        last_update_timestamp: fill.timestamp,
                        exit_trace_id: Some(fill.trace_id),
                        exit_bar_timestamp: Some(fill.market_meta.timestamp),
                        exit_equity_point: final(self).meta.exit_equity_point,
                        ..old(self).meta
                    },
                    exit_fees: fill.fees,
                    exit_fees_total: final(self).exit_fees_total,
                    exit_avg_price_gross: final(self).exit_avg_price_gross,
                    exit_value_gross: fill.fill_value_gross,
                    unreal_profit_loss: final(self).result_profit_loss,
                    result_profit_loss: final(self).result_profit_loss,
                    ..*old(self)
                })
                &&& final(self).exit_fees_total@ == fill.fees.total()
                &&& final(self).exit_avg_price_gross@ == avg_price_of(*fill)
                &&& final(self).result_profit_loss@ == final(self).result_spec()
                &&& final(self).unreal_profit_loss == final(self).result_profit_loss
                &&& !final(self).is_open()
                &&& final(self).meta.exit_equity_point matches Some(point)
                    && point.equity@ == portfolio_value@ + final(self).result_profit_loss@
                    && point.timestamp == fill.market_meta.timestamp
                &&& old(self).direction_matches_quantity() ==> final(self).well_formed()
            },
    {
        if fill.decision.is_entry() {
            return Err(PortfolioError::CannotExitPositionWithEntryFill);
        }
        self.exit_fees = fill.fees;
        self.exit_fees_total = fill.fees.calculate_total_fees();
        self.exit_value_gross = fill.fill_value_gross;
        self.exit_avg_price_gross = Position::calculate_avg_price_gross(fill);
        self.result_profit_loss = self.calculate_result_profit_loss();
        self.unreal_profit_loss = self.result_profit_loss;
        let equity = Fixed { raw: portfolio_value.raw + self.result_profit_loss.raw };
        self.meta.last_update_trace_id = fill.trace_id;
        self.meta.last_update_timestamp = fill.timestamp;
        self.meta.exit_trace_id = Some(fill.trace_id);
        self.meta.exit_bar_timestamp = Some(fill.market_meta.timestamp);
        self.meta.exit_equity_point = Some(
            EquityPoint { equity, timestamp: fill.market_meta.timestamp },
        );
        Ok(())
    }

}

/// Builds a [`Position`] from values set one by one, for instance to restore
/// one from a stored snapshot. Every field must be set.
#[derive(Debug)]
pub struct PositionBuilder {
    pub meta: Option<PositionMeta>,
    pub exchange: Option<String>,
    pub symbol: Option<String>,
    pub direction: Option<Direction>,
    pub quantity: Option<Fixed>,
    pub enter_fees: Option<Fees>,
    pub enter_fees_total: Option<FeeAmount>,
    pub enter_avg_price_gross: Option<Fixed>,
    pub enter_value_gross: Option<Fixed>,
    pub exit_fees: Option<Fees>,
    pub exit_fees_total: Option<FeeAmount>,
    pub exit_avg_price_gross: Option<Fixed>,
    pub exit_value_gross: Option<Fixed>,
    pub current_symbol_price: Option<Fixed>,
    pub current_value_gross: Option<Fixed>,
    pub unreal_profit_loss: Option<Fixed>,
    pub result_profit_loss: Option<Fixed>,
}

impl PositionBuilder {
    /// Whether no field is set.
    pub open spec fn is_empty(self) -> bool {
        &&& self.meta is None
        &&& self.exchange is None
        &&& self.symbol is None
        &&& self.direction is None
        &&& self.quantity is None
        &&& self.enter_fees is None
        &&& self.enter_fees_total is None
        &&& self.enter_avg_price_gross is None
        &&& self.enter_value_gross is None
        &&& self.exit_fees is None
        &&& self.exit_fees_total is None
        &&& self.exit_avg_price_gross is None
        &&& self.exit_value_gross is None
        &&& self.current_symbol_price is None
        &&& self.current_value_gross is None
        &&& self.unreal_profit_loss is None
        &&& self.result_profit_loss is None
    }

    /// A builder with no field set.
    pub fn new() -> (r: PositionBuilder)
        ensures
            r.is_empty(),
    {
        PositionBuilder {
            meta: None,
            exchange: None,
            symbol: None,
            direction: None,
            quantity: None,
            enter_fees: None,
            enter_fees_total: None,
            enter_avg_price_gross: None,
            enter_value_gross: None,
            exit_fees: None,
            exit_fees_total: None,
            exit_avg_price_gross: None,
            exit_value_gross: None,
            current_symbol_price: None,
            current_value_gross: None,
            unreal_profit_loss: None,
            result_profit_loss: None,
        }
    }

    pub fn meta(self, value: PositionMeta) -> (r: PositionBuilder)
        ensures
            r == (PositionBuilder { meta: Some(value), ..self }),
    {
        PositionBuilder { meta: Some(value), ..self }
    }

    pub fn exchange(self, value: String) -> (r: PositionBuilder)
        ensures
            r == (PositionBuilder { exchange: Some(value), ..self }),
    {
        PositionBuilder { exchange: Some(value), ..self }
    }

    pub fn symbol(self, value: String) -> (r: PositionBuilder)
        ensures
            r == (PositionBuilder { symbol: Some(value), ..self }),
    {
        PositionBuilder { symbol: Some(value), ..self }
    }

    pub fn direction(self, value: Direction) -> (r: PositionBuilder)
        ensures
            r == (PositionBuilder { direction: Some(value), ..self }),
    {
        PositionBuilder { direction: Some(value), ..self }
    }

    pub fn quantity(self, value: Fixed) -> (r: PositionBuilder)
        ensures
            r == (PositionBuilder { quantity: Some(value), ..self }),
    {
        PositionBuilder { quantity: Some(value), ..self }
    }

    pub fn enter_fees(self, value: Fees) -> (r: PositionBuilder)
        ensures
            r == (PositionBuilder { enter_fees: Some(value), ..self }),
    {
        PositionBuilder { enter_fees: Some(value), ..self }
    }

    pub fn enter_fees_total(self, value: FeeAmount) -> (r: PositionBuilder)
        ensures
            r == (PositionBuilder { enter_fees_total: Some(value), ..self }),
    {
        PositionBuilder { enter_fees_total: Some(value), ..self }
    }

    pub fn enter_avg_price_gross(self, value: Fixed) -> (r: PositionBuilder)
        ensures
            r == (PositionBuilder { enter_avg_price_gross: Some(value), ..self }),
    {
        PositionBuilder { enter_avg_price_gross: Some(value), ..self }
    }

    pub fn enter_value_gross(self, value: Fixed) -> (r: PositionBuilder)
        ensures
            r == (PositionBuilder { enter_value_gross: Some(value), ..self }),
    {
        PositionBuilder { enter_value_gross: Some(value), ..self }
    }

    pub fn exit_fees(self, value: Fees) -> (r: PositionBuilder)
        ensures
            r == (PositionBuilder { exit_fees: Some(value), ..self }),
    {
        PositionBuilder { exit_fees: Some(value), ..self }
    }

    pub fn exit_fees_total(self, value: FeeAmount) -> (r: PositionBuilder)
        ensures
            r == (PositionBuilder { exit_fees_total: Some(value), ..self }),
    {
        PositionBuilder { exit_fees_total: Some(value), ..self }
    }

    pub fn exit_avg_price_gross(self, value: Fixed) -> (r: PositionBuilder)
        ensures
            r == (PositionBuilder { exit_avg_price_gross: Some(value), ..self }),
    {
        PositionBuilder { exit_avg_price_gross: Some(value), ..self }
    }

    pub fn exit_value_gross(self, value: Fixed) -> (r: PositionBuilder)
        ensures
            r == (PositionBuilder { exit_value_gross: Some(value), ..self }),
    {
        PositionBuilder { exit_value_gross: Some(value), ..self }
    }

    pub fn current_symbol_price(self, value: Fixed) -> (r: PositionBuilder)
        ensures
            r == (PositionBuilder { current_symbol_price: Some(value), ..self }),
    {
        PositionBuilder { current_symbol_price: Some(value), ..self }
    }

    pub fn current_value_gross(self, value: Fixed) -> (r: PositionBuilder)
        ensures
            r == (PositionBuilder { current_value_gross: Some(value), ..self }),
    {
        PositionBuilder { current_value_gross: Some(value), ..self }
    }

    pub fn unreal_profit_loss(self, value: Fixed) -> (r: PositionBuilder)
        ensures
            r == (PositionBuilder { unreal_profit_loss: Some(value), ..self }),
    {
        PositionBuilder { unreal_profit_loss: Some(value), ..self }
    }

    pub fn result_profit_loss(self, value: Fixed) -> (r: PositionBuilder)
        ensures
            r == (PositionBuilder { result_profit_loss: Some(value), ..self }),
    {
        PositionBuilder { result_profit_loss: Some(value), ..self }
    }

    /// Whether every field is set.
    pub open spec fn is_complete(self) -> bool {
        &&& self.meta is Some
        &&& self.exchange is Some
        &&& self.symbol is Some
        &&& self.direction is Some
        &&& self.quantity is Some
        &&& self.enter_fees is Some
        &&& self.enter_fees_total is Some
        &&& self.enter_avg_price_gross is Some
        &&& self.enter_value_gross is Some
        &&& self.exit_fees is Some
        &&& self.exit_fees_total is Some
        &&& self.exit_avg_price_gross is Some
        &&& self.exit_value_gross is Some
        &&& self.current_symbol_price is Some
        &&& self.current_value_gross is Some
        &&& self.unreal_profit_loss is Some
        &&& self.result_profit_loss is Some
    }

    /// The position holding the values set; `BuilderIncomplete` if any field
    /// was never set.
    pub fn build(self) -> (r: Result<Position, PortfolioError>)
        ensures
            !self.is_complete() ==> r == Err::<Position, PortfolioError>(
                PortfolioError::BuilderIncomplete,
            ),
            self.is_complete() ==> r == Ok::<Position, PortfolioError>(
                Position {
                    meta: self.meta->Some_0,
                    exchange: self.exchange->Some_0,
                    symbol: self.symbol->Some_0,
                    direction: self.direction->Some_0,
                    quantity: self.quantity->Some_0,
                    enter_fees: self.enter_fees->Some_0,
                    enter_fees_total: self.enter_fees_total->Some_0,
                    enter_avg_price_gross: self.enter_avg_price_gross->Some_0,
                    enter_value_gross: self.enter_value_gross->Some_0,
                    exit_fees: self.exit_fees->Some_0,
                    exit_fees_total: self.exit_fees_total->Some_0,
                    exit_avg_price_gross: self.exit_avg_price_gross->Some_0,
                    exit_value_gross: self.exit_value_gross->Some_0,
                    current_symbol_price: self.current_symbol_price->Some_0,
                    current_value_gross: self.current_value_gross->Some_0,
                    unreal_profit_loss: self.unreal_profit_loss->Some_0,
                    result_profit_loss: self.result_profit_loss->Some_0,
                },
            ),
    {
        let meta = match self.meta {
            Some(v) => v,
            None => {
                return Err(PortfolioError::BuilderIncomplete);
            },
        };
        let exchange = match self.exchange {
            Some(v) => v,
            None => {
                return Err(PortfolioError::BuilderIncomplete);
            },
        };
        let symbol = match self.symbol {
            Some(v) => v,
            None => {
                return Err(PortfolioError::BuilderIncomplete);
            },
        };
        let direction = match self.direction {
            Some(v) => v,
            None => {
                return Err(PortfolioError::BuilderIncomplete);
            },
        };
        let quantity = match self.quantity {
            Some(v) => v,
            None => {
                return Err(PortfolioError::BuilderIncomplete);
            },
        };
        let enter_fees = match self.enter_fees {
            Some(v) => v,
            None => {
                return Err(PortfolioError::BuilderIncomplete);
            },
        };
        let enter_fees_total = match self.enter_fees_total {
            Some(v) => v,
            None => {
                return Err(PortfolioError::BuilderIncomplete);
            },
        };
        let enter_avg_price_gross = match self.enter_avg_price_gross {
            Some(v) => v,
            None => {
                return Err(PortfolioError::BuilderIncomplete);
            },
        };
        let enter_value_gross = match self.enter_value_gross {
            Some(v) => v,
            None => {
                return Err(PortfolioError::BuilderIncomplete);
            },
        };
        let exit_fees = match self.exit_fees {
            Some(v) => v,
            None => {
                return Err(PortfolioError::BuilderIncomplete);
            },
        };
        let exit_fees_total = match self.exit_fees_total {
            Some(v) => v,
            None => {
                return Err(PortfolioError::BuilderIncomplete);
            },
        };
        let exit_avg_price_gross = match self.exit_avg_price_gross {
            Some(v) => v,
            None => {
                return Err(PortfolioError::BuilderIncomplete);
            },
        };
        let exit_value_gross = match self.exit_value_gross {
            Some(v) => v,
            None => {
                return Err(PortfolioError::BuilderIncomplete);
            },
        };
        let current_symbol_price = match self.current_symbol_price {
            Some(v) => v,
            None => {
                return Err(PortfolioError::BuilderIncomplete);
            },
        };
        let current_value_gross = match self.current_value_gross {
            Some(v) => v,
            None => {
                return Err(PortfolioError::BuilderIncomplete);
            },
        };
        let unreal_profit_loss = match self.unreal_profit_loss {
            Some(v) => v,
            None => {
                return Err(PortfolioError::BuilderIncomplete);
            },
        };
        let result_profit_loss = match self.result_profit_loss {
            Some(v) => v,
            None => {
                return Err(PortfolioError::BuilderIncomplete);
            },
        };
        Ok(Position {
            meta,
            exchange,
            symbol,
            direction,
            quantity,
            enter_fees,
            enter_fees_total,
            enter_avg_price_gross,
            enter_value_gross,
            exit_fees,
            exit_fees_total,
            exit_avg_price_gross,
            exit_value_gross,
            current_symbol_price,
            current_value_gross,
            unreal_profit_loss,
            result_profit_loss,
        })
    }
}

} // verus!
