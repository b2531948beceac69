use nucane::domain::{
    Currency, CurrencyPair, Exchange, MarketType, OrderMarketType, OrderStatus, PluginId, Side,
};
use nucane::okx::{OrderKind, SizeKind};
use nucane::e2e_plugin::{E2EPlugin, OrderLookup, ScenarioStep};
use nucane::strategies::{
    E2EOrderKind, E2EStrategy, OrderAction, SimulationE2EStrategy, TestOrderKind, TestStrategy,
};

fn assert_btc_usdt_spot_buy(
    action: &OrderAction,
    id: &str,
    plugin: (&str, i64),
    order_type: OrderKind,
    triggers: Option<OrderKind>,
) {
    assert_eq!(action.simulation_id, None);
    assert_eq!((action.plugin_id.name.as_str(), action.plugin_id.version), plugin);
    assert_eq!(action.exchange, Exchange::OKX);
    assert!(matches!(action.status, OrderStatus::Created));
    assert_eq!(action.order.id, id);
    assert_eq!(action.order.pair, CurrencyPair { target: Currency::BTC, source: Currency::USDT });
    assert_eq!(action.order.market_type, OrderMarketType::Spot);
    assert_eq!(action.order.side, Side::Buy);
    assert_eq!(action.order.order_type, order_type);
    assert_eq!(action.order.size, SizeKind::Source);
    assert_eq!(action.order.stop_loss, triggers);
    assert_eq!(action.order.take_profit, triggers);
}

fn found(status: OrderStatus) -> Option<OrderLookup> {
    Some(OrderLookup { status, has_stop_loss: true, has_take_profit: true })
}

#[test]
fn e2e_plugin_identity_and_instruments() {
    let plugin = E2EPlugin::default();
    let id = plugin.id();
    assert_eq!(id.name, "e2e");
    assert_eq!(id.version, 2);
    let instruments = plugin.instruments();
    assert_eq!(instruments.len(), 1);
    assert_eq!(instruments[0].exchange, Exchange::OKX);
    assert_eq!(instruments[0].market_type, MarketType::Spot);
    assert_eq!(instruments[0].pair.target, Currency::BTC);
    assert_eq!(instruments[0].pair.source, Currency::USDT);
}

#[test]
fn e2e_plugin_first_tick_draws_and_places() {
    let mut plugin = E2EPlugin::default();
    let first = plugin.handle_tick();
    assert!(first.create_drawings);
    assert_eq!(first.margin, ScenarioStep::CreateOrders);
    let second = plugin.handle_tick();
    assert!(!second.create_drawings);
    assert_eq!(second.margin, ScenarioStep::CheckOrders);
    assert_eq!(plugin.handle_spot_tick(), ScenarioStep::CreateOrders);
    assert_eq!(plugin.handle_spot_tick(), ScenarioStep::CheckOrders);
}

#[test]
fn e2e_plugin_clears_orders_once_completed() {
    let mut plugin = E2EPlugin::default();
    plugin.create_spot_limit_order_action(Some("limit".to_string()));
    plugin.create_spot_market_order_action(Some("market".to_string()));
    plugin.check_spot_limit_order(found(OrderStatus::InProgress));
    assert_eq!(plugin.state.spot_limit_order_id.as_deref(), Some("limit"));
    plugin.check_spot_limit_order(found(OrderStatus::Completed));
    assert_eq!(plugin.state.spot_limit_order_id, None);
    plugin.check_spot_market_order(None);
    assert_eq!(plugin.state.spot_market_order_id.as_deref(), Some("market"));
    plugin.check_spot_market_order(found(OrderStatus::Completed));
    assert_eq!(plugin.state.spot_market_order_id, None);
}

#[test]
fn e2e_plugin_margin_checks_clear_the_spot_ids() {
    let mut plugin = E2EPlugin::default();
    plugin.create_margin_market_order_action(Some("m".to_string()));
    plugin.create_margin_market_order_with_sl_tp_action(Some("m-sl-tp".to_string()));
    plugin.create_spot_market_order_action(Some("s".to_string()));
    plugin.create_spot_limit_order_with_sl_tp_action(Some("s-sl-tp".to_string()));
    assert_eq!(plugin.order_to_cancel(), "s-sl-tp");
    plugin.check_margin_market_order(found(OrderStatus::Completed));
    assert_eq!(plugin.state.spot_market_order_id, None);
    assert_eq!(plugin.state.margin_market_order_id.as_deref(), Some("m"));
    plugin.check_margin_market_order_with_sl_tp(found(OrderStatus::Completed));
    assert_eq!(plugin.state.spot_limit_order_with_sl_tp_id, None);
    assert_eq!(
        plugin.state.margin_market_order_id_market_sl_market_tp_id.as_deref(),
        Some("m-sl-tp")
    );
    plugin.check_spot_limit_order_with_sl_tp(found(OrderStatus::Canceled));
}

#[test]
fn test_strategy_places_two_orders_once() {
    let mut strategy = TestStrategy::default();
    assert_eq!(strategy.name(), "test");
    assert_eq!(strategy.version(), 1);
    assert_eq!(strategy.subscriptions().len(), 1);
    let orders = strategy.on_tick("m".to_string(), "l".to_string());
    assert_eq!(orders.len(), 2);
    assert_eq!(orders[0].kind, TestOrderKind::SpotMarketBuy);
    assert_btc_usdt_spot_buy(&orders[0].action, "m", ("test", 1), OrderKind::Market, None);
    assert_eq!(orders[1].kind, TestOrderKind::SpotLimitBuyWithStopLossAndTakeProfit);
    assert_btc_usdt_spot_buy(&orders[1].action, "l", ("test", 1), OrderKind::Limit, Some(OrderKind::Limit));
    assert!(strategy.on_tick("x".to_string(), "y".to_string()).is_empty());
    assert_eq!(strategy.spot_market_buy.as_deref(), Some("m"));
    strategy.check_orders(true, false);
    assert_eq!(strategy.spot_market_buy, None);
    assert_eq!(strategy.spot_limit_buy_with_sl_and_tp.as_deref(), Some("l"));
}

#[test]
fn simulation_strategy_watches_one_order() {
    let mut strategy = SimulationE2EStrategy::default();
    assert_eq!(strategy.name(), "simulation-e2e");
    assert_eq!(strategy.plugin_id().version, 1);
    let placed = strategy.on_tick("o".to_string()).unwrap();
    assert_btc_usdt_spot_buy(&placed, "o", ("simulation-e2e", 1), OrderKind::Limit, None);
    assert!(strategy.on_tick("p".to_string()).is_none());
    assert_eq!(strategy.watched_order().as_deref(), Some("o"));
    strategy.check_order(Some(OrderStatus::InProgress));
    assert_eq!(strategy.watched_order().as_deref(), Some("o"));
    strategy.check_order(Some(OrderStatus::Completed));
    assert_eq!(strategy.watched_order(), None);
}

#[test]
fn e2e_strategy_places_three_orders_once() {
    let mut strategy = E2EStrategy::default();
    let orders = strategy.handle_tick(PluginId::new("e2e", 1), "l".to_string(), "lst".to_string(), "m".to_string());
    assert_btc_usdt_spot_buy(&orders[0].action, "l", ("e2e", 1), OrderKind::Limit, None);
    assert_btc_usdt_spot_buy(&orders[1].action, "lst", ("e2e", 1), OrderKind::Limit, Some(OrderKind::Limit));
    assert_btc_usdt_spot_buy(&orders[2].action, "m", ("e2e", 1), OrderKind::Market, None);
    let kinds: Vec<E2EOrderKind> = orders.iter().map(|o| o.kind).collect();
    assert_eq!(
        kinds,
        vec![
            E2EOrderKind::SpotLimitBuy,
            E2EOrderKind::SpotLimitBuyWithStopLossAndTakeProfit,
            E2EOrderKind::SpotMarketBuy
        ]
    );
    assert!(strategy
        .handle_tick(PluginId::new("e2e", 1), "a".to_string(), "b".to_string(), "c".to_string())
        .is_empty());
    let (limit, with_sl_tp, market) = strategy.watched_orders();
    assert_eq!(limit.as_deref(), Some("l"));
    assert_eq!(with_sl_tp.as_deref(), Some("lst"));
    assert_eq!(market.as_deref(), Some("m"));
}

#[test]
fn e2e_strategy_completed_limit_order_with_sl_tp_clears_the_plain_limit() {
    let mut strategy = E2EStrategy::default();
    strategy.handle_tick(PluginId::new("e2e", 1), "l".to_string(), "lst".to_string(), "m".to_string());
    strategy.check_limit_order_with_sl_tp(found(OrderStatus::Completed));
    let (limit, with_sl_tp, _) = strategy.watched_orders();
    assert_eq!(limit, None);
    assert_eq!(with_sl_tp.as_deref(), Some("lst"));
    strategy.check_market_order(Some(OrderStatus::Canceled));
    assert_eq!(strategy.watched_orders().2.as_deref(), Some("m"));
    strategy.check_market_order(Some(OrderStatus::Completed));
    assert_eq!(strategy.watched_orders().2, None);
    strategy.check_limit_order(Some(OrderStatus::Completed));
    assert_eq!(strategy.watched_orders().1.as_deref(), Some("lst"));
}
