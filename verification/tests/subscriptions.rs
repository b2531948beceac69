use nucane::domain::{
    Currency, CurrencyPair, Deployment, DeploymentEvent, Exchange, InstrumentId, MarketType,
};
use nucane::facade::FacadeCall;
use nucane::id_set::IdSet;
use nucane::subscription_manager::{
    Subscription as DeploymentSubscription, SubscriptionManager as DeploymentManager,
};
use nucane::subscriptions::{
    InMemorySubscriptionRepository, Subscription, SubscriptionManager, Subscriptions,
};

fn instrument(exchange: Exchange, target: Currency) -> InstrumentId {
    InstrumentId {
        exchange,
        market_type: MarketType::Spot,
        pair: CurrencyPair { target, source: Currency::USDT },
    }
}

fn start(i: InstrumentId) -> Vec<FacadeCall> {
    vec![
        FacadeCall::ListenOrders(i.exchange),
        FacadeCall::ListenPosition(i.exchange),
        FacadeCall::SubscribeCandles(i),
        FacadeCall::SubscribeTicks(i),
    ]
}

fn stop(i: InstrumentId) -> Vec<FacadeCall> {
    vec![FacadeCall::UnsubscribeCandles(i), FacadeCall::UnsubscribeTicks(i)]
}

fn sorted(set: &IdSet) -> Vec<u128> {
    let mut ids = set.to_vec();
    ids.sort();
    ids
}

fn subscription(deployment_id: u128, simulation_id: Option<u128>, instruments: Vec<InstrumentId>) -> Subscription {
    Subscription { deployment_id, simulation_id, instruments }
}

#[test]
fn id_set_holds_each_id_once() {
    let mut set = IdSet::new();
    assert!(set.is_empty());
    set.insert(3);
    set.insert(5);
    set.insert(3);
    assert_eq!(sorted(&set), vec![3, 5]);
    set.remove(3);
    assert!(!set.contains(3));
    assert!(set.contains(5));
    let mut other = IdSet::singleton(7);
    other.extend(&set);
    assert_eq!(sorted(&other), vec![5, 7]);
}

#[test]
fn repository_saves_into_the_first_entry() {
    let btc = instrument(Exchange::OKX, Currency::BTC);
    let eth = instrument(Exchange::OKX, Currency::ETH);
    let mut repository = InMemorySubscriptionRepository::new();
    repository.save(&Subscriptions { instrument_id: btc, deployment_ids: IdSet::singleton(1) });
    repository.save(&Subscriptions { instrument_id: eth, deployment_ids: IdSet::singleton(2) });
    let all = repository.get_all();
    assert_eq!(all.len(), 1);
    assert_eq!(all[0].instrument_id, btc);
    assert_eq!(sorted(&all[0].deployment_ids), vec![1, 2]);
    assert!(repository.get_be_instrument(&eth).is_none());
    assert_eq!(repository.get_by_deployment(2).len(), 1);
    repository.delete(&btc);
    assert!(repository.get_all().is_empty());
}

#[test]
fn first_subscriber_starts_market_data() {
    let btc = instrument(Exchange::OKX, Currency::BTC);
    let mut manager = SubscriptionManager::new(InMemorySubscriptionRepository::default());
    let calls = manager.subscribe(subscription(1, None, vec![btc]));
    assert_eq!(calls, start(btc));
    let entries = manager.subscriptions();
    assert_eq!(entries.len(), 1);
    assert_eq!(entries[0].instrument_id, btc);
    assert_eq!(sorted(&entries[0].deployment_ids), vec![1]);
}

#[test]
fn second_subscriber_causes_no_call() {
    let btc = instrument(Exchange::OKX, Currency::BTC);
    let mut manager = SubscriptionManager::new(InMemorySubscriptionRepository::new());
    manager.subscribe(subscription(1, None, vec![btc]));
    let calls = manager.subscribe(subscription(2, None, vec![btc]));
    assert!(calls.is_empty());
    assert_eq!(manager.subscriptions().len(), 1);
}

#[test]
fn last_subscriber_leaving_stops_market_data() {
    let btc = instrument(Exchange::BYBIT, Currency::BTC);
    let mut manager = SubscriptionManager::new(InMemorySubscriptionRepository::new());
    manager.subscribe(subscription(1, None, vec![btc]));
    let calls = manager.unsubscribe(subscription(1, None, vec![btc]));
    assert_eq!(calls, stop(btc));
    assert!(manager.subscriptions().is_empty());
}

#[test]
fn simulations_do_not_subscribe() {
    let btc = instrument(Exchange::OKX, Currency::BTC);
    let mut manager = SubscriptionManager::new(InMemorySubscriptionRepository::new());
    assert!(manager.subscribe(subscription(1, Some(9), vec![btc])).is_empty());
    assert!(manager.subscriptions().is_empty());
    manager.subscribe(subscription(1, None, vec![btc]));
    assert!(manager.unsubscribe(subscription(1, Some(9), vec![btc])).is_empty());
    assert_eq!(manager.subscriptions().len(), 1);
}

fn deployment(id: u128, simulation_id: Option<u128>, event: DeploymentEvent, instruments: Vec<InstrumentId>) -> Deployment {
    Deployment {
        id,
        simulation_id,
        strategy_name: "e2e".to_string(),
        strategy_version: 1,
        event,
        subscriptions: instruments,
    }
}

#[test]
fn deployments_share_instruments() {
    let btc = instrument(Exchange::OKX, Currency::BTC);
    let eth = instrument(Exchange::OKX, Currency::ETH);
    let mut manager = DeploymentManager::new();
    let calls = manager.handle_deployment(deployment(1, None, DeploymentEvent::Created, vec![btc, eth]));
    let mut expected = start(btc);
    expected.extend(start(eth));
    assert_eq!(calls, expected);
    let calls = manager.handle_deployment(deployment(2, None, DeploymentEvent::Created, vec![btc]));
    assert!(calls.is_empty());
    let calls = manager.handle_deployment(deployment(1, None, DeploymentEvent::Deleted, vec![]));
    assert_eq!(calls, stop(eth));
    let calls = manager.unsubscribe(2);
    assert_eq!(calls, stop(btc));
}

#[test]
fn simulated_deployments_are_ignored() {
    let btc = instrument(Exchange::OKX, Currency::BTC);
    let mut manager = DeploymentManager::new();
    let calls = manager.handle_deployment(deployment(1, Some(4), DeploymentEvent::Created, vec![btc]));
    assert!(calls.is_empty());
    let calls = manager.subscribe(DeploymentSubscription::from(deployment(
        1,
        None,
        DeploymentEvent::Created,
        vec![btc],
    )));
    assert_eq!(calls, start(btc));
}

#[test]
fn unsubscribing_undoes_a_later_subscription() {
    let btc = instrument(Exchange::OKX, Currency::BTC);
    let eth = instrument(Exchange::OKX, Currency::ETH);
    let mut manager = DeploymentManager::new();
    manager.handle_deployment(deployment(1, None, DeploymentEvent::Created, vec![btc]));
    let calls = manager.handle_deployment(deployment(2, None, DeploymentEvent::Created, vec![btc, eth]));
    assert_eq!(calls, start(eth));
    let calls = manager.unsubscribe(2);
    assert_eq!(calls, stop(eth));
    let calls = manager.unsubscribe(1);
    assert_eq!(calls, stop(btc));
}

#[test]
fn repository_manager_ends_empty_after_subscribe_and_unsubscribe() {
    let btc = instrument(Exchange::OKX, Currency::BTC);
    let eth = instrument(Exchange::OKX, Currency::ETH);
    let mut manager = SubscriptionManager::new(InMemorySubscriptionRepository::new());
    let calls = manager.subscribe(subscription(1, None, vec![btc, eth]));
    let mut expected = start(btc);
    expected.extend(start(eth));
    assert_eq!(calls, expected);
    assert_eq!(manager.subscriptions().len(), 1);
    let calls = manager.unsubscribe(subscription(1, None, vec![]));
    assert_eq!(calls, stop(btc));
    assert!(manager.subscriptions().is_empty());
}
