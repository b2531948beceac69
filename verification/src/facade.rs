//! The calls the interactor makes on its exchange connections. The
//! bookkeeping decides which calls are due; the connection layer makes them.

use vstd::prelude::*;

use crate::domain::{Exchange, InstrumentId, Timeframe};

verus! {

/// One call on the exchange connections.
#[derive(Clone, Copy, Debug, PartialEq, Eq, Structural)]
pub enum FacadeCall {
    /// Start receiving order updates from the exchange.
    ListenOrders(Exchange),
    /// Start receiving position updates from the exchange.
    ListenPosition(Exchange),
    /// Start receiving candles of the instrument.
    SubscribeCandles(InstrumentId),
    /// Start receiving ticks of the instrument.
    SubscribeTicks(InstrumentId),
    /// Stop receiving candles of the instrument.
    UnsubscribeCandles(InstrumentId),
    /// Stop receiving ticks of the instrument.
    UnsubscribeTicks(InstrumentId),
}

/// The calls that start the market data of a newly watched instrument.
pub open spec fn start_calls(instrument: InstrumentId) -> Seq<FacadeCall> {
    seq![
        FacadeCall::ListenOrders(instrument.exchange),
        FacadeCall::ListenPosition(instrument.exchange),
        FacadeCall::SubscribeCandles(instrument),
        FacadeCall::SubscribeTicks(instrument),
    ]
}

/// The calls that stop the market data of an instrument no longer watched.
pub open spec fn stop_calls(instrument: InstrumentId) -> Seq<FacadeCall> {
    seq![FacadeCall::UnsubscribeCandles(instrument), FacadeCall::UnsubscribeTicks(instrument)]
}

/// Appends the calls that start the market data of `instrument`.
pub fn push_start_calls(calls: &mut Vec<FacadeCall>, instrument: InstrumentId)
    ensures
        final(calls)@ == old(calls)@ + start_calls(instrument),
{
    calls.push(FacadeCall::ListenOrders(instrument.exchange));
    calls.push(FacadeCall::ListenPosition(instrument.exchange));
    calls.push(FacadeCall::SubscribeCandles(instrument));
    calls.push(FacadeCall::SubscribeTicks(instrument));
    assert(calls@ =~= old(calls)@ + start_calls(instrument));
}

/// Appends the calls that stop the market data of `instrument`.
pub fn push_stop_calls(calls: &mut Vec<FacadeCall>, instrument: InstrumentId)
    ensures
        final(calls)@ == old(calls)@ + stop_calls(instrument),
{
    calls.push(FacadeCall::UnsubscribeCandles(instrument));
    calls.push(FacadeCall::UnsubscribeTicks(instrument));
    assert(calls@ =~= old(calls)@ + stop_calls(instrument));
}

/// The position of the first connection that serves `exchange`.
pub open spec fn exchange_position(exchanges: Seq<Exchange>, exchange: Exchange) -> int
    decreases exchanges.len(),
{
    if exchanges.len() == 0 {
        -1
    } else if exchanges[0] == exchange {
        0
    } else {
        let rest = exchange_position(exchanges.drop_first(), exchange);
        if rest < 0 {
            -1
        } else {
            rest + 1
        }
    }
}

/// The position of the first connection that serves `exchange`, among
/// connections that serve `exchanges` in order; the facade routes every
/// call for `exchange` there.
pub fn find_exchange(exchanges: &Vec<Exchange>, exchange: Exchange) -> (position: Option<usize>)
    ensures
        match position {
            Some(k) => k as int == exchange_position(exchanges@, exchange) && k < exchanges.len()
                && exchanges@[k as int] == exchange,
            None => exchange_position(exchanges@, exchange) < 0,
        },
{
    let mut i: usize = 0;
    assert(exchanges@.subrange(0, exchanges@.len() as int) =~= exchanges@);
    while i < exchanges.len()
        invariant
            i <= exchanges.len(),
            exchange_position(exchanges@, exchange) == if exchange_position(
                exchanges@.subrange(i as int, exchanges@.len() as int),
                exchange,
            ) < 0 {
                -1
            } else {
                exchange_position(exchanges@.subrange(i as int, exchanges@.len() as int), exchange)
                    + i
            },
        decreases exchanges.len() - i,
    {
        let ghost rest = exchanges@.subrange(i as int, exchanges@.len() as int);
        if exchanges[i] == exchange {
            return Some(i);
        }
        assert(rest.drop_first() =~= exchanges@.subrange(i + 1, exchanges@.len() as int));
        i = i + 1;
    }
    None
}

/// The candles asked for to learn the price of an instrument at a moment:
/// one one-minute candle from a minute before the moment to a minute after
/// it; the price is that candle's open price.
#[derive(Clone, Copy, Debug, PartialEq, Eq, Structural)]
pub struct PriceWindow {
    pub timeframe: Timeframe,
    pub from_millis: i64,
    pub to_millis: i64,
    pub limit: u8,
}

/// One minute, in milliseconds.
pub const MINUTE_MILLIS: i64 = 60000;

/// The candles asked for to learn the price at `timestamp_millis`.
pub fn price_window(timestamp_millis: i64) -> (query: PriceWindow)
    requires
        i64::MIN + MINUTE_MILLIS <= timestamp_millis <= i64::MAX - MINUTE_MILLIS,
    ensures
        query == (PriceWindow {
            timeframe: Timeframe::OneM,
            from_millis: (timestamp_millis - MINUTE_MILLIS) as i64,
            to_millis: (timestamp_millis + MINUTE_MILLIS) as i64,
            limit: 1,
        }),
        query.from_millis < timestamp_millis < query.to_millis,
        query.to_millis - timestamp_millis == 60 * 1000,
        timestamp_millis - query.from_millis == 60 * 1000,
{
    PriceWindow {
        timeframe: Timeframe::OneM,
        from_millis: timestamp_millis - MINUTE_MILLIS,
        to_millis: timestamp_millis + MINUTE_MILLIS,
        limit: 1,
    }
}

/// What an action asks of an exchange.
#[derive(Clone, Copy, Debug, PartialEq, Eq, Structural)]
pub enum ActionKind {
    CreateOrder,
    CancelOrder,
    /// An action the interactor does not carry out yet.
    Other,
}

/// The parts of an action that decide whether and how it is carried out.
#[derive(Clone, Copy, Debug, PartialEq, Eq, Structural)]
pub struct ActionSummary {
    /// The simulation the action belongs to, if any.
    pub simulation_id: Option<u128>,
    pub kind: ActionKind,
}

/// The positions, in order, of the first `n` actions that belong to no
/// simulation: only those reach an exchange.
pub open spec fn live_actions(actions: Seq<ActionSummary>, n: int) -> Seq<usize>
    decreases n,
{
    if n <= 0 {
        Seq::empty()
    } else if actions[n - 1].simulation_id is None {
        live_actions(actions, n - 1).push((n - 1) as usize)
    } else {
        live_actions(actions, n - 1)
    }
}

/// The positions, in order, of the actions to carry out: those that belong
/// to no simulation. Each is then carried out by its kind: an order is
/// placed or cancelled, and other actions are reported as unsupported.
pub fn execute_actions(actions: &Vec<ActionSummary>) -> (positions: Vec<usize>)
    ensures
        positions@ == live_actions(actions@, actions@.len() as int),
        forall|k: int|
            0 <= k < positions.len() ==> positions[k] < actions.len() && (#[trigger] actions@[positions[k] as int]).simulation_id is None,
        forall|j: int|
            0 <= j < actions.len() && (#[trigger] actions@[j]).simulation_id is None ==> positions@.contains(j as usize),
        forall|a: int, b: int| 0 <= a < b < positions.len() ==> positions[a] < positions[b],
{
    proof {
        assert(actions@.len() == actions.len());
        law_only_live_actions_run(actions@, actions@.len() as int);
    }
    let mut positions: Vec<usize> = Vec::new();
    let mut i: usize = 0;
    while i < actions.len()
        invariant
            i <= actions.len(),
            positions@ == live_actions(actions@, i as int),
        decreases actions.len() - i,
    {
        if actions[i].simulation_id.is_none() {
            positions.push(i);
        }
        i = i + 1;
    }
    positions
}

/// Law: the actions carried out are exactly those that belong to no
/// simulation, each once, in the order given: every position returned holds
/// an action of no simulation, every such action's position is returned, and
/// the positions increase.
pub proof fn law_only_live_actions_run(actions: Seq<ActionSummary>, n: int)
    requires
        0 <= n <= actions.len(),
        n <= usize::MAX,
    ensures
        forall|k: int|
            0 <= k < live_actions(actions, n).len() ==> live_actions(actions, n)[k] < n
                && (#[trigger] actions[live_actions(actions, n)[k] as int]).simulation_id is None,
        forall|j: int|
            0 <= j < n && (#[trigger] actions[j]).simulation_id is None ==> live_actions(actions, n).contains(
                j as usize,
            ),
        forall|a: int, b: int|
            0 <= a < b < live_actions(actions, n).len() ==> live_actions(actions, n)[a] < live_actions(
                actions,
                n,
            )[b],
    decreases n,
{
    if n > 0 {
        law_only_live_actions_run(actions, n - 1);
        let before = live_actions(actions, n - 1);
        let now = live_actions(actions, n);
        if actions[n - 1].simulation_id is None {
            assert forall|k: int| 0 <= k < now.len() implies now[k] < n
                && (#[trigger] actions[now[k] as int]).simulation_id is None by {
                if k < before.len() {
                    assert(now[k] == before[k]);
                }
            }
            assert forall|j: int|
                0 <= j < n && (#[trigger] actions[j]).simulation_id is None implies now.contains(j as usize) by {
                if j < n - 1 {
                    let k = choose|k: int| 0 <= k < before.len() && before[k] == j as usize;
                    assert(now[k] == before[k]);
                } else {
                    assert(now[before.len() as int] == j as usize);
                }
            }
            assert forall|a: int, b: int| 0 <= a < b < now.len() implies now[a] < now[b] by {
                if b < before.len() {
                    assert(now[a] == before[a] && now[b] == before[b]);
                } else {
                    assert(now[a] == before[a]);
                    assert(actions[before[a] as int].simulation_id is None);
                }
            }
        } else {
            assert forall|j: int|
                0 <= j < n && (#[trigger] actions[j]).simulation_id is None implies now.contains(j as usize) by {
                if j < n - 1 {
                    let k = choose|k: int| 0 <= k < before.len() && before[k] == j as usize;
                    assert(now[k] == before[k]);
                }
            }
        }
    }
}

} // verus!
