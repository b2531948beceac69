//! What the interactor's REST interface exchanges: its endpoints and the
//! query parameters that name an instrument.

use vstd::prelude::*;

use crate::domain::{Currency, CurrencyPair, Exchange, InstrumentId, MarketType, Timeframe};

verus! {

/// Endpoint that hands out candles of an instrument.
pub const GET_CANDLES_HISTORY: &'static str = "/api/v1/interactor/candles";

/// Endpoint that tells the price of an instrument.
pub const GET_PRICE: &'static str = "/api/v1/interactor/price";

/// How many candles are handed out when the query does not say.
pub const DEFAULT_CANDLES_LIMIT: u8 = 100;

/// Query of the candles of an instrument over a period, in milliseconds
/// since the epoch.
#[derive(Clone, Copy, Debug, PartialEq, Eq, Structural)]
pub struct CandlesQuery {
    pub exchange: Exchange,
    pub market_type: MarketType,
    pub target: Currency,
    pub source: Currency,
    pub timeframe: Timeframe,
    pub from: Option<i64>,
    pub to: Option<i64>,
    pub limit: u8,
}

/// Query of the price of an instrument at a moment, in milliseconds since
/// the epoch, or now.
#[derive(Clone, Copy, Debug, PartialEq, Eq, Structural)]
pub struct PriceQuery {
    pub timestamp: Option<i64>,
    pub exchange: Exchange,
    pub market_type: MarketType,
    pub target: Currency,
    pub source: Currency,
}

/// The instrument named by its exchange, market and currencies.
pub open spec fn spec_instrument(
    exchange: Exchange,
    market_type: MarketType,
    target: Currency,
    source: Currency,
) -> InstrumentId {
    InstrumentId { exchange, market_type, pair: CurrencyPair { target, source } }
}

impl CandlesQuery {
    /// The instrument the query names.
    pub fn instrument_id(&self) -> (id: InstrumentId)
        ensures
            id == spec_instrument(self.exchange, self.market_type, self.target, self.source),
    {
        InstrumentId {
            exchange: self.exchange,
            market_type: self.market_type,
            pair: CurrencyPair { target: self.target, source: self.source },
        }
    }
}

impl PriceQuery {
    /// The instrument the query names.
    pub fn instrument_id(&self) -> (id: InstrumentId)
        ensures
            id == spec_instrument(self.exchange, self.market_type, self.target, self.source),
    {
        InstrumentId {
            exchange: self.exchange,
            market_type: self.market_type,
            pair: CurrencyPair { target: self.target, source: self.source },
        }
    }
}

} // verus!
