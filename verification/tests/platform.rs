use nucane::domain::{str_eq, Currency, CurrencyPair, Exchange, InstrumentId, MarketType, Timeframe};
use nucane::facade::{
    execute_actions, find_exchange, price_window, push_start_calls, push_stop_calls, ActionKind,
    ActionSummary, FacadeCall, PriceWindow,
};
use nucane::interactor_api::{CandlesQuery, PriceQuery, DEFAULT_CANDLES_LIMIT, GET_CANDLES_HISTORY};
use nucane::interactor_config::Logging as InteractorLogging;
use nucane::logging::format_levels;
use nucane::service_config::Logging as ServiceLogging;
use nucane::urls::{base_url, endpoint, has_prefix};

const ALL_CURRENCIES: [Currency; 31] = [
    Currency::BTC,
    Currency::ETH,
    Currency::SOL,
    Currency::LTC,
    Currency::ARB,
    Currency::DOT,
    Currency::FIL,
    Currency::SAND,
    Currency::TRX,
    Currency::XLM,
    Currency::DOGE,
    Currency::XRP,
    Currency::SUI,
    Currency::MANA,
    Currency::MATIC,
    Currency::OP,
    Currency::WLD,
    Currency::ADA,
    Currency::APE,
    Currency::APEX,
    Currency::APT,
    Currency::CHZ,
    Currency::EOS,
    Currency::GMT,
    Currency::HFT,
    Currency::ICP,
    Currency::LDO,
    Currency::AVAX,
    Currency::LINK,
    Currency::FTM,
    Currency::USDT,
];

#[test]
fn currency_names_read_back() {
    for currency in ALL_CURRENCIES {
        assert_eq!(Currency::from_name(currency.name()), Some(currency));
    }
    assert_eq!(Currency::BTC.name(), "BTC");
    assert_eq!(Currency::from_name("btc"), None);
    assert_eq!(Currency::from_name(""), None);
}

#[test]
fn string_equality() {
    assert!(str_eq("abc", "abc"));
    assert!(!str_eq("abc", "abd"));
    assert!(!str_eq("ab", "abc"));
}

fn btc(exchange: Exchange) -> InstrumentId {
    InstrumentId {
        exchange,
        market_type: MarketType::Margin,
        pair: CurrencyPair { target: Currency::BTC, source: Currency::USDT },
    }
}

#[test]
fn facade_calls_for_an_instrument() {
    let i = btc(Exchange::BYBIT);
    let mut calls = vec![FacadeCall::ListenOrders(Exchange::OKX)];
    push_start_calls(&mut calls, i);
    push_stop_calls(&mut calls, i);
    assert_eq!(
        calls,
        vec![
            FacadeCall::ListenOrders(Exchange::OKX),
            FacadeCall::ListenOrders(Exchange::BYBIT),
            FacadeCall::ListenPosition(Exchange::BYBIT),
            FacadeCall::SubscribeCandles(i),
            FacadeCall::SubscribeTicks(i),
            FacadeCall::UnsubscribeCandles(i),
            FacadeCall::UnsubscribeTicks(i),
        ]
    );
}

#[test]
fn facade_routes_to_the_first_matching_exchange() {
    let exchanges = vec![Exchange::BYBIT, Exchange::OKX, Exchange::OKX];
    assert_eq!(find_exchange(&exchanges, Exchange::OKX), Some(1));
    assert_eq!(find_exchange(&exchanges, Exchange::BYBIT), Some(0));
    assert_eq!(find_exchange(&vec![Exchange::BYBIT], Exchange::OKX), None);
}

#[test]
fn price_is_asked_over_two_minutes() {
    let window = price_window(1_700_000_000_000);
    assert_eq!(
        window,
        PriceWindow {
            timeframe: Timeframe::OneM,
            from_millis: 1_699_999_940_000,
            to_millis: 1_700_000_060_000,
            limit: 1,
        }
    );
}

#[test]
fn only_live_actions_are_executed() {
    let actions = vec![
        ActionSummary { simulation_id: None, kind: ActionKind::CreateOrder },
        ActionSummary { simulation_id: Some(3), kind: ActionKind::CreateOrder },
        ActionSummary { simulation_id: None, kind: ActionKind::CancelOrder },
        ActionSummary { simulation_id: None, kind: ActionKind::Other },
    ];
    assert_eq!(execute_actions(&actions), vec![0, 2, 3]);
    assert!(execute_actions(&Vec::new()).is_empty());
}

#[test]
fn client_base_urls() {
    assert_eq!(base_url("localhost:8080"), "http://localhost:8080");
    assert_eq!(base_url("http://registry"), "http://registry");
    assert_eq!(base_url("https://registry"), "https://registry");
    assert_eq!(base_url(&base_url("interactor:80")), "http://interactor:80");
    assert_eq!(endpoint("http://x", GET_CANDLES_HISTORY), "http://x/api/v1/interactor/candles");
    assert!(has_prefix("http", "http"));
    assert!(!has_prefix("htt", "http"));
}

#[test]
fn queries_name_their_instrument() {
    let candles = CandlesQuery {
        exchange: Exchange::OKX,
        market_type: MarketType::Spot,
        target: Currency::ETH,
        source: Currency::USDT,
        timeframe: Timeframe::OneH,
        from: None,
        to: Some(5),
        limit: DEFAULT_CANDLES_LIMIT,
    };
    let id = candles.instrument_id();
    assert_eq!(id.pair.target, Currency::ETH);
    assert_eq!(id.market_type, MarketType::Spot);
    assert_eq!(candles.limit, 100);
    let price = PriceQuery {
        timestamp: None,
        exchange: Exchange::BYBIT,
        market_type: MarketType::Margin,
        target: Currency::SOL,
        source: Currency::USDT,
    };
    assert_eq!(price.instrument_id(), InstrumentId {
        exchange: Exchange::BYBIT,
        market_type: MarketType::Margin,
        pair: CurrencyPair { target: Currency::SOL, source: Currency::USDT },
    });
}

#[test]
fn logging_levels() {
    let logging = InteractorLogging::new(
        "INFO".to_string(),
        vec![("hyper".to_string(), "WARN".to_string()), ("tokio".to_string(), "ERROR".to_string())],
    );
    assert_eq!(logging.levels(), "INFO,hyper=WARN,tokio=ERROR");
    let logging = ServiceLogging::new("DEBUG".to_string(), vec![]);
    assert_eq!(logging.levels(), "DEBUG,");
    assert_eq!(
        format_levels(&"TRACE".to_string(), &vec![("a".to_string(), "b".to_string())]),
        "TRACE,a=b"
    );
}

#[derive(Debug)]
#[allow(dead_code)]
struct PluginId {
    name: String,
    version: i64,
}

#[test]
fn refused_binary_message_matches_the_debug_wording() {
    for (name, version) in [("alpha", 1i64), ("quote\"and\\slash\ttab", -42), ("", i64::MIN), ("x", i64::MAX)] {
        let error = nucane::blob_storage::BlobError::AlreadyExists(nucane::domain::PluginId::new(name, version));
        let expected = format!(
            "Plugin with id: '{:?}' already exists in registry. Please use flag 'force=true' to override existing binary",
            PluginId { name: name.to_string(), version }
        );
        assert_eq!(error.message(), expected);
    }
}
