//! The state machines of the test strategies: on their first tick they
//! place orders, and on the following ticks they check how the orders went.
//! The host places and looks up orders and computes prices; the decisions
//! are made here.

use vstd::prelude::*;

use crate::domain::{
    okx_spot_btc_usdt, okx_spot_btc_usdt_only, Currency, CurrencyPair, Exchange, InstrumentId,
    OrderMarketType, OrderStatus, OrderStatusView, PluginId, PluginIdView, Side,
};
use crate::okx::{OrderKind, OrderRequest, SizeKind};
use crate::e2e_plugin::{opt_str, OrderLookup};

verus! {

/// Whether a lookup found the tracked order completed.
pub open spec fn found_completed(status: Option<OrderStatus>) -> bool {
    status matches Some(s) && s@ is Completed
}

/// An order the test strategy places on its first tick.
#[derive(Clone, Copy, Debug, PartialEq, Eq, Structural)]
pub enum TestOrderKind {
    /// Spot market buy of 10 of the source currency.
    SpotMarketBuy,
    /// Spot limit buy of 10 of the source currency at 0.9 of the tick price,
    /// with stop loss triggered at 0.5 and filled at 0.4 of the tick price,
    /// and take profit triggered at 2.0 and filled at 2.1 of it.
    SpotLimitBuyWithStopLossAndTakeProfit,
}

/// An action that creates an order, without its identifier and timestamp
/// (drawn by the host) and without the order's prices and size amount.
#[derive(Clone, Debug)]
pub struct OrderAction {
    /// The simulation the action belongs to, if any.
    pub simulation_id: Option<u128>,
    /// The strategy or plugin the action comes from.
    pub plugin_id: PluginId,
    pub exchange: Exchange,
    pub status: OrderStatus,
    pub order: OrderRequest,
}

/// Whether `action`, from `plugin` and in no simulation, creates on OKX,
/// with status created, the spot buy of BTC for USDT `id` of type
/// `order_type`, sized in the source currency, with the given triggers.
pub open spec fn is_btc_usdt_spot_buy(
    action: OrderAction,
    id: Seq<char>,
    plugin: PluginIdView,
    order_type: OrderKind,
    stop_loss: Option<OrderKind>,
    take_profit: Option<OrderKind>,
) -> bool {
    &&& action.simulation_id is None
    &&& action.plugin_id@ == plugin
    &&& action.exchange == Exchange::OKX
    &&& action.status@ == OrderStatusView::Created
    &&& action.order.id@ == id
    &&& action.order.pair == (CurrencyPair { target: Currency::BTC, source: Currency::USDT })
    &&& action.order.market_type == OrderMarketType::Spot
    &&& action.order.side == Side::Buy
    &&& action.order.order_type == order_type
    &&& action.order.size == SizeKind::Source
    &&& action.order.stop_loss == stop_loss
    &&& action.order.take_profit == take_profit
}

/// The action that creates, from `plugin_id` and in no simulation, the spot
/// buy of BTC for USDT `id` on OKX, sized in the source currency.
pub fn btc_usdt_spot_buy(
    id: String,
    plugin_id: PluginId,
    order_type: OrderKind,
    stop_loss: Option<OrderKind>,
    take_profit: Option<OrderKind>,
) -> (action: OrderAction)
    ensures
        is_btc_usdt_spot_buy(action, id@, plugin_id@, order_type, stop_loss, take_profit),
{
    OrderAction {
        simulation_id: None,
        plugin_id,
        exchange: Exchange::OKX,
        status: OrderStatus::Created,
        order: OrderRequest {
            id,
            pair: CurrencyPair { target: Currency::BTC, source: Currency::USDT },
            market_type: OrderMarketType::Spot,
            side: Side::Buy,
            order_type,
            size: SizeKind::Source,
            stop_loss,
            take_profit,
        },
    }
}

/// An order to place, with the kind that tells the host how to price it.
#[derive(Clone, Debug)]
pub struct PlannedOrder<K> {
    pub kind: K,
    pub action: OrderAction,
}

/// The strategy that places a spot market buy and a spot limit buy with
/// stop loss and take profit, and then watches for them to be filled.
#[derive(Clone, Debug)]
pub struct TestStrategy {
    pub executed: bool,
    pub spot_market_buy: Option<String>,
    pub spot_limit_buy_with_sl_and_tp: Option<String>,
}

impl Default for TestStrategy {
    fn default() -> (strategy: TestStrategy)
        ensures
            !strategy.executed,
            strategy.spot_market_buy is None,
            strategy.spot_limit_buy_with_sl_and_tp is None,
    {
        TestStrategy { executed: false, spot_market_buy: None, spot_limit_buy_with_sl_and_tp: None }
    }
}

impl TestStrategy {
    /// The strategy's name: `test`.
    pub fn name(&self) -> (name: String)
        ensures
            name@ == "test"@,
    {
        "test".to_owned()
    }

    /// The strategy's version: 1.
    pub fn version(&self) -> (version: i64)
        ensures
            version == 1,
    {
        1
    }

    /// The instruments the strategy trades: spot BTC/USDT on OKX.
    pub fn subscriptions(&self) -> (instruments: Vec<InstrumentId>)
        ensures
            instruments@ == seq![okx_spot_btc_usdt()],
    {
        okx_spot_btc_usdt_only()
    }

    /// A tick. The first one places, under the identifiers given and from
    /// strategy `test` version 1, a spot market buy and a spot limit buy with
    /// a limit-priced stop loss and take profit, both of BTC for USDT on OKX
    /// and sized in the source currency, and tracks them; later ones place
    /// nothing, and the host then checks the tracked orders.
    pub fn on_tick(&mut self, market_buy_id: String, limit_buy_id: String) -> (orders: Vec<
        PlannedOrder<TestOrderKind>,
    >)
        ensures
            final(self).executed,
            !old(self).executed ==> {
                let test = (PluginIdView { name: "test"@, version: 1 });
                &&& orders@.len() == 2
                &&& orders@[0].kind == TestOrderKind::SpotMarketBuy
                &&& is_btc_usdt_spot_buy(orders@[0].action, market_buy_id@, test, OrderKind::Market, None, None)
                &&& orders@[1].kind == TestOrderKind::SpotLimitBuyWithStopLossAndTakeProfit
                &&& is_btc_usdt_spot_buy(
                    orders@[1].action,
                    limit_buy_id@,
                    test,
                    OrderKind::Limit,
                    Some(OrderKind::Limit),
                    Some(OrderKind::Limit),
                )
                &&& opt_str(final(self).spot_market_buy) == Some(market_buy_id@)
                &&& opt_str(final(self).spot_limit_buy_with_sl_and_tp) == Some(limit_buy_id@)
            },
            old(self).executed ==> {
                &&& orders@.len() == 0
                &&& final(self).spot_market_buy == old(self).spot_market_buy
                &&& final(self).spot_limit_buy_with_sl_and_tp == old(self).spot_limit_buy_with_sl_and_tp
            },
    {
        let mut orders: Vec<PlannedOrder<TestOrderKind>> = Vec::new();
        if !self.executed {
            self.executed = true;
            self.spot_market_buy = Some(market_buy_id.clone());
            self.spot_limit_buy_with_sl_and_tp = Some(limit_buy_id.clone());
            let market = btc_usdt_spot_buy(market_buy_id, PluginId::new("test", 1), OrderKind::Market, None, None);
            let limit = btc_usdt_spot_buy(
                limit_buy_id,
                PluginId::new("test", 1),
                OrderKind::Limit,
                Some(OrderKind::Limit),
                Some(OrderKind::Limit),
            );
            orders.push(PlannedOrder { kind: TestOrderKind::SpotMarketBuy, action: market });
            orders.push(
                PlannedOrder { kind: TestOrderKind::SpotLimitBuyWithStopLossAndTakeProfit, action: limit },
            );
        }
        orders
    }

    /// The result of looking up the tracked orders: an order that the lookup
    /// found, in whatever state, is no longer tracked.
    pub fn check_orders(&mut self, market_buy_found: bool, limit_buy_found: bool)
        ensures
            final(self).executed == old(self).executed,
            final(self).spot_market_buy == if market_buy_found {
                None
            } else {
                old(self).spot_market_buy
            },
            final(self).spot_limit_buy_with_sl_and_tp == if limit_buy_found {
                None
            } else {
                old(self).spot_limit_buy_with_sl_and_tp
            },
    {
        if market_buy_found {
            self.spot_market_buy = None;
        }
        if limit_buy_found {
            self.spot_limit_buy_with_sl_and_tp = None;
        }
    }
}

/// The strategy of the simulation end-to-end scenario: one spot limit buy
/// of 10 of the source currency at 0.9 of the first tick's price, watched
/// until it completes.
#[derive(Clone, Debug)]
pub struct SimulationE2EStrategy {
    executed: bool,
    order_id: Option<String>,
}

impl Default for SimulationE2EStrategy {
    fn default() -> (strategy: SimulationE2EStrategy)
        ensures
            !strategy.executed(),
            strategy.order_id() is None,
    {
        SimulationE2EStrategy { executed: false, order_id: None }
    }
}

impl SimulationE2EStrategy {
    /// Whether the order was placed.
    pub closed spec fn executed(&self) -> bool {
        self.executed
    }

    /// The identifier of the order still watched.
    pub closed spec fn order_id(&self) -> Option<Seq<char>> {
        opt_str(self.order_id)
    }

    /// The strategy's name: `simulation-e2e`.
    pub fn name(&self) -> (name: String)
        ensures
            name@ == "simulation-e2e"@,
    {
        "simulation-e2e".to_owned()
    }

    /// The strategy's version: 1.
    pub fn version(&self) -> (version: i64)
        ensures
            version == 1,
    {
        1
    }

    /// The identity of the plugin the strategy's actions come from.
    pub fn plugin_id(&self) -> (id: PluginId)
        ensures
            id.name@ == "simulation-e2e"@,
            id.version == 1,
    {
        PluginId::new("simulation-e2e", 1)
    }

    /// The instruments the strategy trades: spot BTC/USDT on OKX.
    pub fn subscriptions(&self) -> (instruments: Vec<InstrumentId>)
        ensures
            instruments@ == seq![okx_spot_btc_usdt()],
    {
        okx_spot_btc_usdt_only()
    }

    /// The identifier of the order still watched.
    pub fn watched_order(&self) -> (order_id: Option<String>)
        ensures
            opt_str(order_id) == self.order_id(),
    {
        self.order_id.clone()
    }

    /// A tick. The first one places, under `order_id` and from plugin
    /// `simulation-e2e` version 1, a spot limit buy of BTC for USDT on OKX,
    /// sized in the source currency and without triggers, and watches it;
    /// later ones place nothing.
    pub fn on_tick(&mut self, order_id: String) -> (placed: Option<OrderAction>)
        ensures
            final(self).executed(),
            !old(self).executed() ==> (placed matches Some(action) && is_btc_usdt_spot_buy(
                action,
                order_id@,
                (PluginIdView { name: "simulation-e2e"@, version: 1 }),
                OrderKind::Limit,
                None,
                None,
            ) && final(self).order_id() == Some(order_id@)),
            old(self).executed() ==> placed is None && final(self).order_id() == old(self).order_id(),
    {
        if !self.executed {
            self.executed = true;
            self.order_id = Some(order_id.clone());
            Some(btc_usdt_spot_buy(order_id, self.plugin_id(), OrderKind::Limit, None, None))
        } else {
            None
        }
    }

    /// The status of the first order the lookup found, if any: a completed
    /// order, checked against the account position by the host, is no
    /// longer watched.
    pub fn check_order(&mut self, status: Option<OrderStatus>)
        ensures
            final(self).executed() == old(self).executed(),
            final(self).order_id() == if found_completed(status) {
                None
            } else {
                old(self).order_id()
            },
    {
        if let Some(s) = status {
            if s.is_completed() {
                self.order_id = None;
            }
        }
    }
}

/// An order the end-to-end strategy places on its first tick.
#[derive(Clone, Copy, Debug, PartialEq, Eq, Structural)]
pub enum E2EOrderKind {
    /// Spot limit buy of 10 of the source currency at 0.9 of the tick price.
    SpotLimitBuy,
    /// Spot limit buy of 10 of the source currency at a limit of 0.9 of the
    /// tick price, with stop loss triggered at 0.5 and filled at 0.4 of the
    /// limit, and take profit triggered at 2.0 and filled at 2.1 of it.
    SpotLimitBuyWithStopLossAndTakeProfit,
    /// Spot market buy of 10 of the source currency.
    SpotMarketBuy,
}

/// The end-to-end strategy: places a limit buy, a limit buy with stop loss
/// and take profit and a market buy, and watches them until they complete.
#[derive(Clone, Debug)]
pub struct E2EStrategy {
    executed_once: bool,
    limit_order_id: Option<String>,
    limit_order_with_sl_tp_id: Option<String>,
    market_order_id: Option<String>,
}

impl Default for E2EStrategy {
    fn default() -> (strategy: E2EStrategy)
        ensures
            !strategy.executed_once(),
            strategy.limit_order_id() is None,
            strategy.limit_order_with_sl_tp_id() is None,
            strategy.market_order_id() is None,
    {
        E2EStrategy {
            executed_once: false,
            limit_order_id: None,
            limit_order_with_sl_tp_id: None,
            market_order_id: None,
        }
    }
}

impl E2EStrategy {
    /// Whether the orders were placed.
    pub closed spec fn executed_once(&self) -> bool {
        self.executed_once
    }

    /// The identifier of the watched limit buy.
    pub closed spec fn limit_order_id(&self) -> Option<Seq<char>> {
        opt_str(self.limit_order_id)
    }

    /// The identifier of the watched limit buy with stop loss and take profit.
    pub closed spec fn limit_order_with_sl_tp_id(&self) -> Option<Seq<char>> {
        opt_str(self.limit_order_with_sl_tp_id)
    }

    /// The identifier of the watched market buy.
    pub closed spec fn market_order_id(&self) -> Option<Seq<char>> {
        opt_str(self.market_order_id)
    }

    /// The identifiers of the watched orders: limit buy, limit buy with stop
    /// loss and take profit, market buy.
    pub fn watched_orders(&self) -> (ids: (Option<String>, Option<String>, Option<String>))
        ensures
            opt_str(ids.0) == self.limit_order_id(),
            opt_str(ids.1) == self.limit_order_with_sl_tp_id(),
            opt_str(ids.2) == self.market_order_id(),
    {
        (self.limit_order_id.clone(), self.limit_order_with_sl_tp_id.clone(), self.market_order_id.clone())
    }

    /// A tick. The first one places, under the identifiers given and from
    /// `plugin_id` (the strategy's own name and version, which the host
    /// reports), a spot limit buy, a spot limit buy with a limit-priced stop
    /// loss and take profit, and a spot market buy, all of BTC for USDT on
    /// OKX and sized in the source currency, and watches them (the host also
    /// draws its check point and line); later ones place nothing, and the
    /// host then checks the watched orders.
    pub fn handle_tick(
        &mut self,
        plugin_id: PluginId,
        limit_order_id: String,
        limit_order_with_sl_tp_id: String,
        market_order_id: String,
    ) -> (orders: Vec<PlannedOrder<E2EOrderKind>>)
        ensures
            final(self).executed_once(),
            !old(self).executed_once() ==> {
                &&& orders@.len() == 3
                &&& orders@[0].kind == E2EOrderKind::SpotLimitBuy
                &&& is_btc_usdt_spot_buy(orders@[0].action, limit_order_id@, plugin_id@, OrderKind::Limit, None, None)
                &&& orders@[1].kind == E2EOrderKind::SpotLimitBuyWithStopLossAndTakeProfit
                &&& is_btc_usdt_spot_buy(
                    orders@[1].action,
                    limit_order_with_sl_tp_id@,
                    plugin_id@,
                    OrderKind::Limit,
                    Some(OrderKind::Limit),
                    Some(OrderKind::Limit),
                )
                &&& orders@[2].kind == E2EOrderKind::SpotMarketBuy
                &&& is_btc_usdt_spot_buy(orders@[2].action, market_order_id@, plugin_id@, OrderKind::Market, None, None)
                &&& final(self).limit_order_id() == Some(limit_order_id@)
                &&& final(self).limit_order_with_sl_tp_id() == Some(limit_order_with_sl_tp_id@)
                &&& final(self).market_order_id() == Some(market_order_id@)
            },
            old(self).executed_once() ==> {
                &&& orders@.len() == 0
                &&& final(self).limit_order_id() == old(self).limit_order_id()
                &&& final(self).limit_order_with_sl_tp_id() == old(self).limit_order_with_sl_tp_id()
                &&& final(self).market_order_id() == old(self).market_order_id()
            },
    {
        let mut orders: Vec<PlannedOrder<E2EOrderKind>> = Vec::new();
        if !self.executed_once {
            self.executed_once = true;
            self.limit_order_id = Some(limit_order_id.clone());
            self.limit_order_with_sl_tp_id = Some(limit_order_with_sl_tp_id.clone());
            self.market_order_id = Some(market_order_id.clone());
            let limit = btc_usdt_spot_buy(limit_order_id, plugin_id.duplicate(), OrderKind::Limit, None, None);
            let with_triggers = btc_usdt_spot_buy(
                limit_order_with_sl_tp_id,
                plugin_id.duplicate(),
                OrderKind::Limit,
                Some(OrderKind::Limit),
                Some(OrderKind::Limit),
            );
            let market = btc_usdt_spot_buy(market_order_id, plugin_id, OrderKind::Market, None, None);
            orders.push(PlannedOrder { kind: E2EOrderKind::SpotLimitBuy, action: limit });
            orders.push(
                PlannedOrder { kind: E2EOrderKind::SpotLimitBuyWithStopLossAndTakeProfit, action: with_triggers },
            );
            orders.push(PlannedOrder { kind: E2EOrderKind::SpotMarketBuy, action: market });
        }
        orders
    }

    /// The status of the first order the limit buy lookup found, if any: a
    /// completed order, checked against the account position by the host, is
    /// no longer watched.
    pub fn check_limit_order(&mut self, status: Option<OrderStatus>)
        ensures
            final(self).executed_once() == old(self).executed_once(),
            final(self).limit_order_id() == if found_completed(status) {
                None
            } else {
                old(self).limit_order_id()
            },
            final(self).limit_order_with_sl_tp_id() == old(self).limit_order_with_sl_tp_id(),
            final(self).market_order_id() == old(self).market_order_id(),
    {
        if let Some(s) = status {
            if s.is_completed() {
                self.limit_order_id = None;
            }
        }
    }

    /// The first order the lookup of the limit buy with stop loss and take
    /// profit found, if any; it must carry both. When it is completed and
    /// checked against the account position by the host, the plain limit buy
    /// is no longer watched.
    pub fn check_limit_order_with_sl_tp(&mut self, lookup: Option<OrderLookup>)
        requires
            lookup matches Some(found) ==> found.has_stop_loss && found.has_take_profit,
        ensures
            final(self).executed_once() == old(self).executed_once(),
            final(self).limit_order_id() == if lookup matches Some(found) && found.status@ is Completed {
                None
            } else {
                old(self).limit_order_id()
            },
            final(self).limit_order_with_sl_tp_id() == old(self).limit_order_with_sl_tp_id(),
            final(self).market_order_id() == old(self).market_order_id(),
    {
        if let Some(found) = lookup {
            if found.status.is_completed() {
                self.limit_order_id = None;
            }
        }
    }

    /// The status of the first order the market buy lookup found, if any: a
    /// completed order, checked against the account position by the host, is
    /// no longer watched.
    pub fn check_market_order(&mut self, status: Option<OrderStatus>)
        ensures
            final(self).executed_once() == old(self).executed_once(),
            final(self).market_order_id() == if found_completed(status) {
                None
            } else {
                old(self).market_order_id()
            },
            final(self).limit_order_id() == old(self).limit_order_id(),
            final(self).limit_order_with_sl_tp_id() == old(self).limit_order_with_sl_tp_id(),
    {
        if let Some(s) = status {
            if s.is_completed() {
                self.market_order_id = None;
            }
        }
    }
}

} // verus!
