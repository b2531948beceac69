//! The end-to-end test plugin: on its first tick it places the orders of its
//! scenarios, and on the following ticks it checks how they went. This is
//! its state machine; placing orders, looking them up, drawing and logging
//! are done by the plugin host with the decisions made here.

use vstd::prelude::*;

use crate::domain::{
    okx_spot_btc_usdt, okx_spot_btc_usdt_only, InstrumentId, OrderStatus, OrderStatusView, PluginId,
};

verus! {

/// The view of an optional string.
pub open spec fn opt_str(o: Option<String>) -> Option<Seq<char>> {
    match o {
        Some(s) => Some(s@),
        None => None,
    }
}

/// What a lookup of a tracked order found.
#[derive(Clone, Debug)]
pub struct OrderLookup {
    pub status: OrderStatus,
    pub has_stop_loss: bool,
    pub has_take_profit: bool,
}

/// Progress of the plugin's scenarios.
#[derive(Debug)]
pub struct State {
    pub common_executed_once: bool,
    pub spot_executed_once: bool,
    pub spot_market_order_id: Option<String>,
    pub spot_market_order_id_sl_tp_id: Option<String>,
    pub spot_limit_order_id: Option<String>,
    pub spot_limit_order_with_sl_tp_id: Option<String>,
    pub margin_executed_once: bool,
    pub margin_market_order_id: Option<String>,
    pub margin_market_order_id_market_sl_market_tp_id: Option<String>,
}

impl State {
    /// Nothing executed and no order tracked.
    pub open spec fn is_initial(&self) -> bool {
        &&& !self.common_executed_once
        &&& !self.spot_executed_once
        &&& self.spot_market_order_id is None
        &&& self.spot_market_order_id_sl_tp_id is None
        &&& self.spot_limit_order_id is None
        &&& self.spot_limit_order_with_sl_tp_id is None
        &&& !self.margin_executed_once
        &&& self.margin_market_order_id is None
        &&& self.margin_market_order_id_market_sl_market_tp_id is None
    }
}

impl Default for State {
    fn default() -> (state: State)
        ensures
            state.is_initial(),
    {
        State {
            common_executed_once: false,
            spot_executed_once: false,
            spot_market_order_id: None,
            spot_market_order_id_sl_tp_id: None,
            spot_limit_order_id: None,
            spot_limit_order_with_sl_tp_id: None,
            margin_executed_once: false,
            margin_market_order_id: None,
            margin_market_order_id_market_sl_market_tp_id: None,
        }
    }
}

/// What a scenario does on a tick.
#[derive(Clone, Copy, Debug, PartialEq, Eq, Structural)]
pub enum ScenarioStep {
    /// Place the scenario's orders.
    CreateOrders,
    /// Check the orders placed earlier.
    CheckOrders,
}

/// What the plugin does on a tick.
#[derive(Clone, Copy, Debug, PartialEq, Eq, Structural)]
pub struct TickPlan {
    /// Draw the check point and line of the common scenario.
    pub create_drawings: bool,
    /// The step of the margin scenario.
    pub margin: ScenarioStep,
}

/// The end-to-end test plugin.
#[derive(Debug)]
pub struct E2EPlugin {
    pub state: State,
}

impl Default for E2EPlugin {
    fn default() -> (plugin: E2EPlugin)
        ensures
            plugin.state.is_initial(),
    {
        E2EPlugin { state: State::default() }
    }
}

/// Whether a lookup found the tracked order completed.
pub open spec fn cleared_when_completed(lookup: Option<OrderLookup>) -> bool {
    lookup matches Some(found) && found.status@ is Completed
}

impl E2EPlugin {
    /// The identity of the plugin: `e2e`, version 2.
    pub fn id(&self) -> (id: PluginId)
        ensures
            id.name@ == "e2e"@,
            id.version == 2,
    {
        PluginId::new("e2e", 2)
    }

    /// The instruments the plugin trades: spot BTC/USDT on OKX.
    pub fn instruments(&self) -> (instruments: Vec<InstrumentId>)
        ensures
            instruments@ == seq![okx_spot_btc_usdt()],
    {
        okx_spot_btc_usdt_only()
    }

    /// A tick: the common scenario draws once, on the first tick; the margin
    /// scenario then takes its step.
    pub fn handle_tick(&mut self) -> (plan: TickPlan)
        ensures
            plan.create_drawings == !old(self).state.common_executed_once,
            plan.margin == if old(self).state.margin_executed_once {
                ScenarioStep::CheckOrders
            } else {
                ScenarioStep::CreateOrders
            },
            final(self).state == (State {
                common_executed_once: true,
                margin_executed_once: true,
                ..old(self).state
            }),
    {
        let create_drawings = !self.state.common_executed_once;
        if create_drawings {
            self.state.common_executed_once = true;
        }
        let margin = self.handle_margin_tick();
        TickPlan { create_drawings, margin }
    }

    /// The margin scenario's step: place its orders on the first tick, check
    /// them afterwards.
    pub fn handle_margin_tick(&mut self) -> (step: ScenarioStep)
        ensures
            step == if old(self).state.margin_executed_once {
                ScenarioStep::CheckOrders
            } else {
                ScenarioStep::CreateOrders
            },
            final(self).state == (State { margin_executed_once: true, ..old(self).state }),
    {
        if !self.state.margin_executed_once {
            self.state.margin_executed_once = true;
            ScenarioStep::CreateOrders
        } else {
            ScenarioStep::CheckOrders
        }
    }

    /// The spot scenario's step: place its orders on the first tick, check
    /// them afterwards.
    pub fn handle_spot_tick(&mut self) -> (step: ScenarioStep)
        ensures
            step == if old(self).state.spot_executed_once {
                ScenarioStep::CheckOrders
            } else {
                ScenarioStep::CreateOrders
            },
            final(self).state == (State { spot_executed_once: true, ..old(self).state }),
    {
        if !self.state.spot_executed_once {
            self.state.spot_executed_once = true;
            ScenarioStep::CreateOrders
        } else {
            ScenarioStep::CheckOrders
        }
    }

    /// Records the identifier of the placed margin market order.
    pub fn create_margin_market_order_action(&mut self, order_id: Option<String>)
        ensures
            final(self).state == (State { margin_market_order_id: order_id, ..old(self).state }),
    {
        self.state.margin_market_order_id = order_id;
    }

    /// Records the identifier of the placed margin market order with stop
    /// loss and take profit.
    pub fn create_margin_market_order_with_sl_tp_action(&mut self, order_id: Option<String>)
        ensures
            final(self).state == (State { margin_market_order_id_market_sl_market_tp_id: order_id, ..old(self).state }),
    {
        self.state.margin_market_order_id_market_sl_market_tp_id = order_id;
    }

    /// Records the identifier of the placed spot market order.
    pub fn create_spot_market_order_action(&mut self, order_id: Option<String>)
        ensures
            final(self).state == (State { spot_market_order_id: order_id, ..old(self).state }),
    {
        self.state.spot_market_order_id = order_id;
    }

    /// Records the identifier of the placed spot limit order.
    pub fn create_spot_limit_order_action(&mut self, order_id: Option<String>)
        ensures
            final(self).state == (State { spot_limit_order_id: order_id, ..old(self).state }),
    {
        self.state.spot_limit_order_id = order_id;
    }

    /// Records the identifier of the placed spot limit order with stop loss
    /// and take profit.
    pub fn create_spot_limit_order_with_sl_tp_action(&mut self, order_id: Option<String>)
        ensures
            final(self).state == (State { spot_limit_order_with_sl_tp_id: order_id, ..old(self).state }),
    {
        self.state.spot_limit_order_with_sl_tp_id = order_id;
    }

    /// The order that the spot scenario cancels right after placing it: the
    /// limit order with stop loss and take profit, as recorded.
    pub fn order_to_cancel(&self) -> (order_id: String)
        requires
            self.state.spot_limit_order_with_sl_tp_id is Some,
        ensures
            order_id@ == self.state.spot_limit_order_with_sl_tp_id->0@,
    {
        match &self.state.spot_limit_order_with_sl_tp_id {
            Some(id) => id.clone(),
            None => String::new(),
        }
    }

    /// The margin market order lookup: a completed order is checked against
    /// the account position by the host, and then the spot market order is
    /// no longer tracked.
    pub fn check_margin_market_order(&mut self, lookup: Option<OrderLookup>)
        ensures
            final(self).state == (State {
                spot_market_order_id: if cleared_when_completed(lookup) {
                    None
                } else {
                    old(self).state.spot_market_order_id
                },
                ..old(self).state
            }),
    {
        if let Some(found) = lookup {
            if found.status.is_completed() {
                self.state.spot_market_order_id = None;
            }
        }
    }

    /// The lookup of the margin market order with stop loss and take profit;
    /// the order found must carry both. A completed order is checked against
    /// the account position by the host, and then the spot limit order with
    /// stop loss and take profit is no longer tracked.
    pub fn check_margin_market_order_with_sl_tp(&mut self, lookup: Option<OrderLookup>)
        requires
            lookup matches Some(found) ==> found.has_stop_loss && found.has_take_profit,
        ensures
            final(self).state == (State {
                spot_limit_order_with_sl_tp_id: if cleared_when_completed(lookup) {
                    None
                } else {
                    old(self).state.spot_limit_order_with_sl_tp_id
                },
                ..old(self).state
            }),
    {
        if let Some(found) = lookup {
            if found.status.is_completed() {
                self.state.spot_limit_order_with_sl_tp_id = None;
            }
        }
    }

    /// The spot limit order lookup: a completed order is checked against the
    /// account position by the host and is no longer tracked.
    pub fn check_spot_limit_order(&mut self, lookup: Option<OrderLookup>)
        ensures
            final(self).state == (State {
                spot_limit_order_id: if cleared_when_completed(lookup) {
                    None
                } else {
                    old(self).state.spot_limit_order_id
                },
                ..old(self).state
            }),
    {
        if let Some(found) = lookup {
            if found.status.is_completed() {
                self.state.spot_limit_order_id = None;
            }
        }
    }

    /// The lookup of the spot limit order with stop loss and take profit; the
    /// order found must carry both. A completed order is checked against the
    /// account position by the host and is no longer tracked.
    pub fn check_spot_limit_order_with_sl_tp(&mut self, lookup: Option<OrderLookup>)
        requires
            lookup matches Some(found) ==> found.has_stop_loss && found.has_take_profit,
        ensures
            final(self).state == (State {
                spot_limit_order_with_sl_tp_id: if cleared_when_completed(lookup) {
                    None
                } else {
                    old(self).state.spot_limit_order_with_sl_tp_id
                },
                ..old(self).state
            }),
    {
        if let Some(found) = lookup {
            if found.status.is_completed() {
                self.state.spot_limit_order_with_sl_tp_id = None;
            }
        }
    }

    /// The spot market order lookup: a completed order is checked against
    /// the account position by the host and is no longer tracked.
    pub fn check_spot_market_order(&mut self, lookup: Option<OrderLookup>)
        ensures
            final(self).state == (State {
                spot_market_order_id: if cleared_when_completed(lookup) {
                    None
                } else {
                    old(self).state.spot_market_order_id
                },
                ..old(self).state
            }),
    {
        if let Some(found) = lookup {
            if found.status.is_completed() {
                self.state.spot_market_order_id = None;
            }
        }
    }
}

} // verus!
