//! Lifecycle of a trader: initialise its portfolio, consume events until the
//! feed ends, a command stops it or the portfolio fails, then terminate.
use crate::error::PortfolioError;
use crate::event::{FillEvent, MarketEvent};
use barter_integration::model::{Exchange, Instrument};
use std::collections::HashMap;
use std::marker::PhantomData;
use vstd::prelude::*;

verus! {

/// Builds a portfolio and checks it against the instruments it will trade,
/// before any event is processed.
pub trait Initialiser<Feed, Execution>: Sized {
    fn init(
        instruments: HashMap<Exchange, Vec<Instrument>>,
        execution_tx: &Execution,
        feed: &mut Feed,
    ) -> Result<Self, PortfolioError>;
}

/// Marks a portfolio's open positions to a market event.
pub trait MarketUpdater {
    fn update_from_market(&mut self, market: &MarketEvent) -> Result<(), PortfolioError>;
}

/// Applies a fill to a portfolio: enters, updates or exits a position and
/// moves the equity curve.
pub trait AccountUpdater {
    fn update_from_fill(&mut self, fill: &FillEvent) -> Result<(), PortfolioError>;
}

/// A strategy: what to order, if anything, on a market event.
pub trait SignalGenerator<Order> {
    fn generate_order(&mut self, market: &MarketEvent) -> Option<Order>;
}

/// A request from whoever supervises a trader.
#[derive(Clone, Copy, Debug, PartialEq, Eq, Structural)]
pub enum Command {
    /// Stop consuming and terminate gracefully.
    Terminate,
}

/// An event that a trader consumes.
#[derive(Clone, Debug)]
pub enum Event {
    Market(MarketEvent),
    Fill(FillEvent),
    Command(Command),
}

/// What pulling the feed gave: the next event, or the end of the feed.
#[derive(Clone, Debug)]
pub enum Pull {
    Next(Event),
    Finished,
}

/// A run unit in the lifecycle state `State`: its feed, its strategy, the
/// sending end of its execution channel, and the state's payload.
pub struct Trader<Feed, Strategy, Execution, State> {
    pub feed: Feed,
    pub strategy: Strategy,
    pub execution_tx: Execution,
    pub state: State,
}

/// Initial state: the instruments to trade, by exchange.
pub struct Initialise<Portfolio> {
    pub instruments: HashMap<Exchange, Vec<Instrument>>,
    pub phantom: PhantomData<Portfolio>,
}

/// Steady state: the portfolio, sole owner of every position.
pub struct Consume<Portfolio> {
    pub portfolio: Portfolio,
}

/// Final state, with no way out: how the run ended.
pub struct Terminate {
    pub reason: Result<(), PortfolioError>,
}

/// A trader in any state of its lifecycle.
pub enum Engine<Feed, Strategy, Execution, Portfolio> {
    Initialise(Trader<Feed, Strategy, Execution, Initialise<Portfolio>>),
    Consume(Trader<Feed, Strategy, Execution, Consume<Portfolio>>),
    Terminate(Trader<Feed, Strategy, Execution, Terminate>),
}

impl<Feed, Strategy, Execution, Portfolio> Engine<Feed, Strategy, Execution, Portfolio> {
    pub open spec fn feed(self) -> Feed {
        match self {
            Engine::Initialise(t) => t.feed,
            Engine::Consume(t) => t.feed,
            Engine::Terminate(t) => t.feed,
        }
    }

    pub open spec fn strategy(self) -> Strategy {
        match self {
            Engine::Initialise(t) => t.strategy,
            Engine::Consume(t) => t.strategy,
            Engine::Terminate(t) => t.strategy,
        }
    }

    pub open spec fn execution_tx(self) -> Execution {
        match self {
            Engine::Initialise(t) => t.execution_tx,
            Engine::Consume(t) => t.execution_tx,
            Engine::Terminate(t) => t.execution_tx,
        }
    }

    /// The engine that a trader terminated with `reason` becomes.
    pub open spec fn terminated(
        feed: Feed,
        strategy: Strategy,
        execution_tx: Execution,
        reason: Result<(), PortfolioError>,
    ) -> Self {
        Engine::Terminate(Trader { feed, strategy, execution_tx, state: Terminate { reason } })
    }

    /// The engine that a trader consuming with `portfolio` becomes.
    pub open spec fn consuming(
        feed: Feed,
        strategy: Strategy,
        execution_tx: Execution,
        portfolio: Portfolio,
    ) -> Self {
        Engine::Consume(Trader { feed, strategy, execution_tx, state: Consume { portfolio } })
    }

    /// Whether the engine is terminated with an error.
    pub open spec fn failed(self) -> bool {
        self matches Engine::Terminate(t) && t.state.reason is Err
    }

    /// Concludes initialisation from what the portfolio's initialiser
    /// returned: consume with the portfolio, or terminate with the error.
    pub fn from_init(
        feed: Feed,
        strategy: Strategy,
        execution_tx: Execution,
        outcome: Result<Portfolio, PortfolioError>,
    ) -> (r: Self)
        ensures
            r == match outcome {
                Ok(portfolio) => Self::consuming(feed, strategy, execution_tx, portfolio),
                Err(error) => Self::terminated(feed, strategy, execution_tx, Err(error)),
            },
    {
        match outcome {
            Ok(portfolio) => Engine::Consume(
                Trader { feed, strategy, execution_tx, state: Consume { portfolio } },
            ),
            Err(error) => Engine::Terminate(
                Trader { feed, strategy, execution_tx, state: Terminate { reason: Err(error) } },
            ),
        }
    }

    /// Concludes the processing of an event from what the portfolio's update
    /// returned: keep consuming, or terminate with the error.
    pub fn from_update(
        feed: Feed,
        strategy: Strategy,
        execution_tx: Execution,
        portfolio: Portfolio,
        outcome: Result<(), PortfolioError>,
    ) -> (r: Self)
        ensures
            r == match outcome {
                Ok(()) => Self::consuming(feed, strategy, execution_tx, portfolio),
                Err(error) => Self::terminated(feed, strategy, execution_tx, Err(error)),
            },
    {
        match outcome {
            Ok(()) => Engine::Consume(
                Trader { feed, strategy, execution_tx, state: Consume { portfolio } },
            ),
            Err(error) => Engine::Terminate(
                Trader { feed, strategy, execution_tx, state: Terminate { reason: Err(error) } },
            ),
        }
    }
}

impl<Feed, Strategy, Execution, Portfolio> Trader<
    Feed,
    Strategy,
    Execution,
    Initialise<Portfolio>,
> where Portfolio: Initialiser<Feed, Execution> {
    /// Builds the portfolio from the instruments. On success the trader goes
    /// on to consume events with it; on failure it terminates with the error,
    /// and is never initialised again.
    pub fn init(self) -> (r: Engine<Feed, Strategy, Execution, Portfolio>)
        ensures
            r is Consume || r.failed(),
            r.strategy() == self.strategy,
            r.execution_tx() == self.execution_tx,
    {
        let Trader { mut feed, strategy, execution_tx, state } = self;
        let outcome = Portfolio::init(state.instruments, &execution_tx, &mut feed);
        Engine::from_init(feed, strategy, execution_tx, outcome)
    }
}

impl<Feed, Strategy, Execution, Portfolio> Trader<
    Feed,
    Strategy,
    Execution,
    Consume<Portfolio>,
> where Portfolio: MarketUpdater + AccountUpdater {
    /// Processes what the feed gave, and returns the trader's next state with
    /// the order to send on the execution channel, if any.
    ///
    /// The end of the feed and a terminate command end the run gracefully. A
    /// market event marks the portfolio to market and is then offered to the
    /// strategy; a fill is applied to the portfolio. If the portfolio fails,
    /// the run ends with its error and nothing is ordered; otherwise the trader
    /// goes on consuming.
    pub fn consume<Order>(self, next: Pull) -> (r: (
        Engine<Feed, Strategy, Execution, Portfolio>,
        Option<Order>,
    )) where Strategy: SignalGenerator<Order>
        ensures
            r.0.feed() == self.feed,
            r.0.execution_tx() == self.execution_tx,
            match next {
                Pull::Finished | Pull::Next(Event::Command(Command::Terminate)) => r == (
                    Engine::<Feed, Strategy, Execution, Portfolio>::terminated(
                        self.feed,
                        self.strategy,
                        self.execution_tx,
                        Ok(()),
                    ),
                    None::<Order>,
                ),
                Pull::Next(Event::Market(_)) => {
                    &&& r.0 is Consume || r.0.failed()
                    &&& r.1 is Some ==> r.0 is Consume
                },
                Pull::Next(Event::Fill(_)) => {
                    &&& r.0 is Consume || r.0.failed()
                    &&& r.0.strategy() == self.strategy
                    &&& r.1 is None
                },
            },
    {
        let Trader { feed, mut strategy, execution_tx, state } = self;
        let mut portfolio = state.portfolio;
        match next {
            Pull::Finished | Pull::Next(Event::Command(Command::Terminate)) => {
                let reason = Terminate { reason: Ok(()) };
                (Engine::Terminate(Trader { feed, strategy, execution_tx, state: reason }), None)
            },
            Pull::Next(Event::Market(market)) => {
                let outcome = portfolio.update_from_market(&market);
                if outcome.is_err() {
                    return (
                        Engine::from_update(feed, strategy, execution_tx, portfolio, outcome),
                        None,
                    );
                }
                let order = strategy.generate_order(&market);
                (Engine::from_update(feed, strategy, execution_tx, portfolio, outcome), order)
            },
            Pull::Next(Event::Fill(fill)) => {
                let outcome = portfolio.update_from_fill(&fill);
                (Engine::from_update(feed, strategy, execution_tx, portfolio, outcome), None)
            },
        }
    }
}

} // verus!
