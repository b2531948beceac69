use nucane::bybit::{
    self, BybitOrderDetails, BybitOrderStatus, BybitOrderType, FeeRule, QtyField,
};
use nucane::domain::{
    CandleId, MarketType, Exchange, CandleStatus, Currency, CurrencyPair, MarginMode, OrderMarketType, OrderStatus, Side, Timeframe,
};
use nucane::okx::{
    self, CandleChannel, CandleRow, LpTarget, OkxSide, OrderRequest, TriggerOrderPx, OrdState, OrdType, OrderDetails, OrderKind, PriceField, ReportInfo,
    SizeKind, TdMode,
};
use nucane::okx_service::{self, ServiceMarginMode, ServiceMarketType};
use nucane::sockets::{streamed_timeframes, SocketKind, SocketRegistry};

fn pair(target: Currency, source: Currency) -> CurrencyPair {
    CurrencyPair { target, source }
}

fn report(cl_ord_id: &str, tag: &str, source: Option<i64>) -> OrderDetails {
    OrderDetails {
        cl_ord_id: cl_ord_id.to_string(),
        tag: tag.to_string(),
        source,
        state: OrdState::Filled,
        inst_id: "BTC-USDT".to_string(),
        ccy: "USDT".to_string(),
        td_mode: TdMode::Cash,
        side: OkxSide::Buy,
        ord_type: OrdType::Market,
        tgt_ccy: String::new(),
        has_px: false,
        has_sl_trigger_px: false,
        has_sl_ord_px: false,
        has_tp_trigger_px: false,
        has_tp_ord_px: false,
    }
}

fn is_completed(status: &OrderStatus) -> bool {
    matches!(status, OrderStatus::Completed)
}

#[test]
fn okx_instrument_names() {
    let p = pair(Currency::BTC, Currency::USDT);
    assert_eq!(okx::inst_id(p), "BTC-USDT");
    assert_eq!(okx::pair_from_inst_id("BTC-USDT"), Some(p));
    assert_eq!(okx::pair_from_inst_id("APEX-USDT-SWAP"), Some(pair(Currency::APEX, Currency::USDT)));
    assert_eq!(okx::pair_from_inst_id("BTCUSDT"), None);
    assert_eq!(okx::pair_from_inst_id("BTC-XYZ"), None);
    let round = okx::inst_id(pair(Currency::MATIC, Currency::ETH));
    assert_eq!(okx::pair_from_inst_id(&round), Some(pair(Currency::MATIC, Currency::ETH)));
}

#[test]
fn okx_socket_ids() {
    let p = pair(Currency::ETH, Currency::USDT);
    assert_eq!(okx::socket_id(SocketKind::Ticks, p), "mark-price-ETH-USDT");
    assert_eq!(okx::socket_id(SocketKind::Candles, p), "candles-ETH-USDT");
    assert_eq!(okx::ORDERS_SOCKET, "orders");
    assert_eq!(okx::POSITIONS_SOCKET, "position");
    assert_ne!(
        okx::socket_id(SocketKind::Ticks, p),
        okx::socket_id(SocketKind::Ticks, pair(Currency::ETH, Currency::BTC))
    );
}

#[test]
fn okx_order_status_waits_for_triggers() {
    assert!(is_completed(&okx::order_status(OrdState::Filled, false, false)));
    assert!(matches!(okx::order_status(OrdState::Filled, true, false), OrderStatus::InProgress));
    assert!(matches!(okx::order_status(OrdState::Live, false, false), OrderStatus::InProgress));
    assert!(matches!(
        okx::order_status(OrdState::PartiallyFilled, false, false),
        OrderStatus::InProgress
    ));
    assert!(matches!(okx::order_status(OrdState::Canceled, true, true), OrderStatus::Canceled));
}

#[test]
fn okx_size_kinds() {
    assert_eq!(okx::size_kind(OrdType::Market, "quote_ccy", Side::Sell), SizeKind::Source);
    assert_eq!(okx::size_kind(OrdType::Market, "base_ccy", Side::Buy), SizeKind::Target);
    assert_eq!(okx::size_kind(OrdType::Market, "", Side::Buy), SizeKind::Source);
    assert_eq!(okx::size_kind(OrdType::Market, "", Side::Sell), SizeKind::Target);
    assert_eq!(okx::size_kind(OrdType::Limit, "quote_ccy", Side::Buy), SizeKind::Target);
}

#[test]
fn okx_decodes_a_cross_margin_limit_order() {
    let mut d = report("order-1", "order-1", None);
    d.td_mode = TdMode::Cross;
    d.ord_type = OrdType::Limit;
    d.has_px = true;
    d.side = OkxSide::Sell;
    d.state = OrdState::Live;
    d.has_sl_trigger_px = true;
    d.has_sl_ord_px = true;
    d.has_tp_trigger_px = true;
    d.has_tp_ord_px = true;
    assert!(okx::is_decodable(&d));
    let order = okx::order_from_details(&d);
    assert_eq!(order.id, "order-1");
    assert!(matches!(order.status, OrderStatus::InProgress));
    assert_eq!(order.pair, pair(Currency::BTC, Currency::USDT));
    assert_eq!(order.market_type, OrderMarketType::Margin(MarginMode::Cross(Currency::USDT)));
    assert_eq!(order.side, Side::Sell);
    assert_eq!(order.order_type, OrderKind::Limit);
    assert_eq!(order.size, SizeKind::Target);
    let sl = order.stop_loss.unwrap();
    assert_eq!((sl.trigger_px, sl.order_px), (PriceField::SlTriggerPx, PriceField::SlOrdPx));
    let tp = order.take_profit.unwrap();
    assert_eq!((tp.trigger_px, tp.order_px), (PriceField::TpTriggerPx, PriceField::SlOrdPx));
}

#[test]
fn okx_refuses_undecodable_reports() {
    let mut d = report("a", "", None);
    d.ord_type = OrdType::PostOnly;
    assert!(!okx::is_decodable(&d));
    let mut d = report("a", "", None);
    d.ord_type = OrdType::Limit;
    assert!(!okx::is_decodable(&d));
    let mut d = report("a", "", None);
    d.inst_id = "DOGE".to_string();
    assert!(!okx::is_decodable(&d));
    let mut d = report("a", "", None);
    d.td_mode = TdMode::Cross;
    d.ccy = "EUR".to_string();
    assert!(!okx::is_decodable(&d));
}

#[test]
fn okx_linked_fill_completes_the_closer_trigger() {
    let mut main = report("o", "o", None);
    main.state = OrdState::Filled;
    main.has_sl_trigger_px = true;
    main.has_sl_ord_px = true;
    main.has_tp_trigger_px = true;
    main.has_tp_ord_px = true;
    let mut lp = report("", "o", Some(7));
    lp.side = OkxSide::Sell;
    let order = okx::convert_order_details_to_order(&main, Some(&lp), true);
    assert!(is_completed(&order.status));
    let fill = order.lp_fill.unwrap();
    assert_eq!(fill.lp.id, "o");
    assert_eq!(fill.lp.size, SizeKind::Target);
    assert_eq!(fill.target, LpTarget::TakeProfit);
    assert_eq!(order.size, SizeKind::Target);
    let order = okx::convert_order_details_to_order(&main, Some(&lp), false);
    assert_eq!(order.lp_fill.unwrap().target, LpTarget::StopLoss);
}

#[test]
fn okx_unfinished_linked_fill_is_ignored() {
    let mut main = report("o", "o", None);
    main.state = OrdState::Live;
    let mut lp = report("", "o", Some(7));
    lp.state = OrdState::Live;
    let order = okx::convert_order_details_to_order(&main, Some(&lp), true);
    assert!(matches!(order.status, OrderStatus::InProgress));
    assert!(order.lp_fill.is_none());
    let plain = report("p", "", None);
    let order = okx::convert_order_details_to_order(&plain, None, false);
    assert!(is_completed(&order.status));
    assert_eq!(order.size, SizeKind::Source);
}

#[test]
fn okx_linked_fill_without_triggers_keeps_the_size() {
    let main = report("o", "o", None);
    let mut lp = report("", "o", Some(7));
    lp.ord_type = OrdType::Limit;
    lp.has_px = true;
    let order = okx::convert_order_details_to_order(&main, Some(&lp), true);
    assert!(is_completed(&order.status));
    assert_eq!(order.size, SizeKind::Source);
    assert_eq!(order.lp_fill.unwrap().target, LpTarget::Neither);
}

#[test]
fn okx_selects_the_last_order_and_fill_reports() {
    let reports = vec![
        report("o", "o", None),
        report("x", "x", None),
        report("", "o", Some(7)),
        report("o", "o", None),
        report("", "o", Some(3)),
    ];
    assert_eq!(okx::select_order_reports(&reports, "o"), (Some(3), Some(2)));
    assert_eq!(okx::select_order_reports(&reports, "x"), (Some(1), None));
    assert_eq!(okx::select_order_reports(&reports, "y"), (None, None));
}

#[test]
fn okx_update_skips_reports_without_client_id() {
    let data = vec![report("", "t", None), report("o", "o", None), report("f", "o", Some(7))];
    let infos = okx::convert_data(&data);
    assert_eq!(infos.len(), 2);
    match &infos[0] {
        ReportInfo::Order(order) => assert_eq!(order.id, "o"),
        ReportInfo::Lp(_) => panic!("an order report became a fill"),
    }
    match &infos[1] {
        ReportInfo::Lp(lp) => {
            assert_eq!(lp.id, "o");
            assert_eq!(lp.size, SizeKind::Source);
        }
        ReportInfo::Order(_) => panic!("a fill report became an order"),
    }
}

#[test]
fn okx_placed_order_status() {
    assert!(matches!(okx::placed_order_status(0, None), OrderStatus::Created));
    assert!(matches!(okx::placed_order_status(0, Some("ok".to_string())), OrderStatus::Created));
    assert!(matches!(okx::placed_order_status(51000, None), OrderStatus::Created));
    match okx::placed_order_status(51000, Some("Parameter error".to_string())) {
        OrderStatus::Failed(message) => assert_eq!(message, "Parameter error"),
        _ => panic!("a refused order was not failed"),
    }
}

fn request(id: &str, p: CurrencyPair, market_type: OrderMarketType, side: Side) -> OrderRequest {
    OrderRequest {
        id: id.to_string(),
        pair: p,
        market_type,
        side,
        order_type: OrderKind::Market,
        size: SizeKind::Source,
        stop_loss: None,
        take_profit: None,
    }
}

#[test]
fn okx_place_order_fields() {
    let mut with_triggers = request(
        "id-1",
        pair(Currency::SOL, Currency::USDT),
        OrderMarketType::Margin(MarginMode::Cross(Currency::USDT)),
        Side::Sell,
    );
    with_triggers.order_type = OrderKind::Limit;
    with_triggers.stop_loss = Some(OrderKind::Market);
    with_triggers.take_profit = Some(OrderKind::Limit);
    let fields = okx::place_order_fields(&with_triggers);
    assert_eq!(fields.inst_id, "SOL-USDT");
    assert_eq!(fields.td_mode, TdMode::Cross);
    assert_eq!(fields.margin_ccy, Some(Currency::USDT));
    assert_eq!(fields.side, OkxSide::Sell);
    assert_eq!(fields.kind, OrderKind::Limit);
    assert_eq!(fields.size, SizeKind::Source);
    assert_eq!(fields.stop_loss, Some(TriggerOrderPx::MarketMarker));
    assert_eq!(fields.take_profit, Some(TriggerOrderPx::Limit));
    assert_eq!(fields.cl_ord_id, "id-1");
    assert_eq!(fields.tag, "id-1");
    let spot = okx::place_order_fields(&request("id-2", pair(Currency::BTC, Currency::USDT), OrderMarketType::Spot, Side::Buy));
    assert_eq!((spot.td_mode, spot.margin_ccy), (TdMode::Cash, None));
    assert_eq!((spot.kind, spot.stop_loss, spot.take_profit), (OrderKind::Market, None, None));
    let isolated = okx::place_order_fields(&request(
        "id-3",
        pair(Currency::BTC, Currency::USDT),
        OrderMarketType::Margin(MarginMode::Isolated),
        Side::Buy,
    ));
    assert_eq!((isolated.td_mode, isolated.margin_ccy), (TdMode::Isolated, None));
}

#[test]
fn placed_orders_copy_the_request() {
    let mut r = request("p-1", pair(Currency::ETH, Currency::USDT), OrderMarketType::Spot, Side::Sell);
    r.stop_loss = Some(OrderKind::Limit);
    let placed = okx::placed_order(&r, 51008, Some("Insufficient balance".to_string()));
    assert_eq!(placed.id, "p-1");
    assert_eq!(placed.exchange, Exchange::OKX);
    assert_eq!(placed.pair, pair(Currency::ETH, Currency::USDT));
    assert_eq!(placed.side, Side::Sell);
    assert_eq!(placed.stop_loss, Some(OrderKind::Limit));
    match placed.status {
        OrderStatus::Failed(message) => assert_eq!(message, "Insufficient balance"),
        _ => panic!("a refused order was not failed"),
    }
    let placed = bybit::placed_order(&r, None);
    assert_eq!(placed.exchange, Exchange::BYBIT);
    assert!(matches!(placed.status, OrderStatus::Created));
    assert_eq!(placed.market_type, OrderMarketType::Spot);
}

#[test]
fn okx_bars_and_candle_status() {
    assert_eq!(okx::bar(Timeframe::OneS), "1s");
    assert_eq!(okx::bar(Timeframe::FifteenM), "15m");
    assert_eq!(okx::bar(Timeframe::OneH), "1H");
    assert_eq!(okx::bar(Timeframe::OneD), "1Dutc");
    assert_eq!(okx::candle_status("0"), Some(CandleStatus::Open));
    assert_eq!(okx::candle_status("1"), Some(CandleStatus::Close));
    assert_eq!(okx::candle_status("2"), None);
}

#[test]
fn socket_registry_opens_each_id_once() {
    let mut sockets: SocketRegistry<u32> = SocketRegistry::new();
    assert!(!sockets.contains("orders"));
    sockets.insert("orders".to_string(), 1);
    sockets.insert("candles-BTC-USDT".to_string(), 2);
    assert!(sockets.contains("orders"));
    sockets.remove("orders");
    assert!(!sockets.contains("orders"));
    assert!(sockets.contains("candles-BTC-USDT"));
    sockets.remove("absent");
    assert!(sockets.contains("candles-BTC-USDT"));
}

#[test]
fn streamed_candle_periods() {
    assert_eq!(
        streamed_timeframes(),
        vec![
            Timeframe::OneM,
            Timeframe::FiveM,
            Timeframe::FifteenM,
            Timeframe::ThirtyM,
            Timeframe::OneH,
            Timeframe::TwoH,
            Timeframe::FourH,
            Timeframe::OneD
        ]
    );
}

fn bybit_report(link: &str, symbol: &str, side: Side, order_type: BybitOrderType) -> BybitOrderDetails {
    BybitOrderDetails {
        order_link_id: link.to_string(),
        order_status: BybitOrderStatus::Filled,
        symbol: symbol.to_string(),
        is_leverage: "0".to_string(),
        side,
        order_type,
    }
}

#[test]
fn bybit_statuses() {
    assert!(matches!(bybit::order_status(BybitOrderStatus::Untriggered), OrderStatus::Created));
    assert!(matches!(bybit::order_status(BybitOrderStatus::Deactivated), OrderStatus::Canceled));
    assert!(matches!(bybit::order_status(BybitOrderStatus::Triggered), OrderStatus::InProgress));
    assert!(matches!(
        bybit::order_status(BybitOrderStatus::PartiallyFilledCanceled),
        OrderStatus::Completed
    ));
    match bybit::order_status(BybitOrderStatus::Rejected) {
        OrderStatus::Failed(message) => assert_eq!(message, "Rejected"),
        _ => panic!("a rejected order was not failed"),
    }
}

#[test]
fn bybit_symbols_read_at_two_cuts() {
    assert_eq!(bybit::pair_from_symbol("BTCUSDT", 2), pair(Currency::BTC, Currency::USDT));
    assert_eq!(bybit::pair_from_symbol("APEXUSDT", 3), pair(Currency::APE, Currency::USDT));
    assert_eq!(bybit::symbol(pair(Currency::DOGE, Currency::USDT)), "DOGEUSDT");
}

#[test]
fn bybit_rest_order_on_isolated_margin() {
    let mut d = bybit_report("abc", "APEXUSDT", Side::Buy, BybitOrderType::Market);
    d.is_leverage = "1".to_string();
    let order = bybit::convert_order_details_to_order(&d);
    assert_eq!(order.id, "abc");
    assert!(matches!(order.status, OrderStatus::Completed));
    assert_eq!(order.market_type, OrderMarketType::Margin(MarginMode::Isolated));
    assert_eq!(order.size.kind, SizeKind::Target);
    assert_eq!(order.size.field, QtyField::CumExecQty);
    assert_eq!(order.fee, FeeRule::CumExecFeeTimesAvgPrice);
}

#[test]
fn bybit_update_skips_numeric_link_ids() {
    let mut leveraged = bybit_report("strategy-order", "ETHUSDT", Side::Sell, BybitOrderType::Limit);
    leveraged.is_leverage = "1".to_string();
    let data = vec![
        bybit_report("12345", "ETHUSDT", Side::Buy, BybitOrderType::Market),
        leveraged,
        bybit_report("+7", "ETHUSDT", Side::Buy, BybitOrderType::Market),
    ];
    let orders = bybit::convert_data(&data);
    assert_eq!(orders.len(), 1);
    assert_eq!(orders[0].id, "strategy-order");
    assert_eq!(orders[0].pair, pair(Currency::ETH, Currency::USDT));
    assert_eq!(orders[0].market_type, OrderMarketType::Margin(MarginMode::Cross(Currency::USDT)));
    assert_eq!(orders[0].order_type, OrderKind::Limit);
    assert_eq!(orders[0].size.kind, SizeKind::Target);
    assert_eq!(orders[0].size.field, QtyField::Qty);
    assert_eq!(orders[0].fee, FeeRule::CumExecFee);
}

#[test]
fn bybit_reads_link_ids_as_the_standard_library_does() {
    for text in ["0", "42", "+42", "18446744073709551615", "007"] {
        assert_eq!(bybit::is_u64_text(text), text.parse::<u64>().is_ok(), "{text}");
    }
    for text in ["", "+", "-1", "18446744073709551616", "4 2", "abc", "1e3", "99999999999999999999999"] {
        assert_eq!(bybit::is_u64_text(text), text.parse::<u64>().is_ok(), "{text}");
    }
}

#[test]
fn bybit_fetched_order_must_match() {
    let list = vec![bybit_report("a", "BTCUSDT", Side::Buy, BybitOrderType::Market)];
    assert!(bybit::fetched_order_matches(&list, "a"));
    assert!(!bybit::fetched_order_matches(&list, "b"));
    assert!(!bybit::fetched_order_matches(&Vec::new(), "a"));
}

#[test]
fn bybit_intervals_and_candles() {
    assert_eq!(bybit::interval(Timeframe::OneM), "1");
    assert_eq!(bybit::interval(Timeframe::TwoH), "120");
    assert_eq!(bybit::interval(Timeframe::OneD), "D");
    for tf in streamed_timeframes() {
        assert_eq!(bybit::timeframe_of(bybit::interval(tf)), Some(tf));
    }
    assert_eq!(bybit::timeframe_of("W"), None);
    assert_eq!(bybit::candle_status(true), CandleStatus::Close);
    assert_eq!(bybit::candle_status(false), CandleStatus::Open);
}

#[test]
fn bybit_sockets_and_orders() {
    let p = pair(Currency::BTC, Currency::USDT);
    assert_eq!(bybit::socket_id(SocketKind::Ticks, p), "ticks-BTCUSDT");
    assert_eq!(bybit::socket_id(SocketKind::Candles, p), "candles-BTCUSDT");
    let fields = bybit::place_order_fields(
        "id",
        p,
        OrderMarketType::Margin(MarginMode::Isolated),
        Side::Buy,
        OrderKind::Market,
    );
    assert_eq!(fields.symbol, "BTCUSDT");
    assert!(fields.is_leveraged);
    assert!(matches!(bybit::placed_order_status(None), OrderStatus::Created));
    match bybit::placed_order_status(Some("timeout".to_string())) {
        OrderStatus::Failed(message) => assert_eq!(message, "timeout"),
        _ => panic!("a failed request did not fail the order"),
    }
}

#[test]
fn bybit_rounding_decimals() {
    assert_eq!(bybit::price_decimals(Currency::BTC), 2);
    assert_eq!(bybit::price_decimals(Currency::FIL), 3);
    assert_eq!(bybit::price_decimals(Currency::DOGE), 4);
    assert_eq!(bybit::price_decimals(Currency::USDT), 4);
    assert_eq!(bybit::qty_decimals(Currency::XLM), 1);
    assert_eq!(bybit::qty_decimals(Currency::LDO), 2);
    assert_eq!(bybit::qty_decimals(Currency::LINK), 3);
    assert_eq!(bybit::qty_decimals(Currency::LTC), 5);
    assert_eq!(bybit::qty_decimals(Currency::ETH), 6);
    assert_eq!(bybit::qty_decimals(Currency::USDT), 4);
}

#[test]
fn service_updates_complete_filled_orders() {
    let mut d = report("u", "", None);
    d.state = OrdState::Filled;
    d.has_sl_trigger_px = true;
    d.td_mode = TdMode::Cross;
    let order = okx_service::order_from_update(&d);
    assert_eq!(order.id, "u");
    assert!(is_completed(&order.status));
    assert_eq!(order.market_type, ServiceMarketType::Margin(ServiceMarginMode::Cross));
    assert!(matches!(okx_service::update_status(OrdState::Live), OrderStatus::InProgress));
    assert!(matches!(okx_service::update_status(OrdState::Canceled), OrderStatus::Canceled));
}

#[test]
fn core_handler_reads_both_triggers_and_needs_a_size_currency() {
    let mut d = report("h", "", None);
    d.tgt_ccy = "quote_ccy".to_string();
    d.has_sl_trigger_px = true;
    d.has_sl_ord_px = true;
    d.has_tp_trigger_px = true;
    d.has_tp_ord_px = true;
    assert!(okx_service::is_handled_decodable(&d));
    let order = okx_service::on_order(&d);
    assert_eq!(order.size, SizeKind::Source);
    let tp = order.take_profit.unwrap();
    assert_eq!((tp.trigger_px, tp.order_px), (PriceField::TpTriggerPx, PriceField::TpOrdPx));
    let mut untold = report("h", "", None);
    untold.tgt_ccy = String::new();
    assert!(!okx_service::is_handled_decodable(&untold));
    let mut limit = report("h", "", None);
    limit.ord_type = OrdType::Limit;
    limit.has_px = true;
    assert!(okx_service::is_handled_decodable(&limit));
    assert_eq!(okx_service::on_order(&limit).size, SizeKind::Target);
}

#[test]
fn service_bars_and_order_fields() {
    assert_eq!(okx_service::service_bar(Timeframe::OneD), "1D");
    assert_eq!(okx_service::service_bar(Timeframe::FourH), "4H");
    let fields = okx_service::place_order_fields(
        "c",
        pair(Currency::BTC, Currency::USDT),
        ServiceMarketType::Margin(ServiceMarginMode::Isolated),
        Side::Buy,
    );
    assert_eq!(fields.inst_id, "BTC-USDT");
    assert_eq!(fields.td_mode, TdMode::Isolated);
    assert_eq!(fields.side, OkxSide::Buy);
    assert_eq!(fields.cl_ord_id, "c");
}

fn row(timestamp_millis: i64, confirm: &str) -> CandleRow {
    CandleRow { timestamp_millis, confirm: confirm.to_string() }
}

#[test]
fn okx_stream_candles_keep_order_and_millis() {
    let p = pair(Currency::BTC, Currency::USDT);
    assert_eq!(okx::channel_timeframe(CandleChannel::Candle4H), Some(Timeframe::FourH));
    assert_eq!(okx::channel_timeframe(CandleChannel::Other), None);
    let candles = okx::candles_from_stream(
        CandleChannel::Candle15M,
        &vec![row(1_700_000_000_123, "0"), row(1_700_000_900_000, "1")],
        p,
        MarketType::Spot,
    );
    assert_eq!(candles.len(), 2);
    assert_eq!(
        candles[0].id,
        CandleId {
            exchange: Exchange::OKX,
            market_type: MarketType::Spot,
            target: Currency::BTC,
            source: Currency::USDT,
            timeframe: Timeframe::FifteenM,
            timestamp: 1_700_000_000_123,
        }
    );
    assert_eq!(candles[0].status, CandleStatus::Open);
    assert_eq!(candles[1].status, CandleStatus::Close);
    assert_eq!(candles[1].instrument_id.exchange, Exchange::OKX);
    assert_eq!(candles[1].timeframe, Timeframe::FifteenM);
}

#[test]
fn okx_history_candles_oldest_first_with_seconds() {
    let p = pair(Currency::ETH, Currency::USDT);
    let candles = okx::candles_from_history(
        &vec![row(1_700_000_120_500, "0"), row(1_700_000_060_000, "1"), row(1_700_000_000_999, "1")],
        p,
        Timeframe::OneM,
        MarketType::Margin,
    );
    let stamps: Vec<i64> = candles.iter().map(|c| c.id.timestamp).collect();
    assert_eq!(stamps, vec![1_700_000_000, 1_700_000_060, 1_700_000_120]);
    assert_eq!(candles[2].status, CandleStatus::Open);
    assert_eq!(candles[0].id.market_type, MarketType::Margin);
    assert_eq!(okx::seconds_of(-1), -1);
    assert_eq!(okx::seconds_of(-1000), -1);
    assert_eq!(okx::seconds_of(-1001), -2);
    assert_eq!(okx::seconds_of(i64::MIN), i64::MIN.div_euclid(1000));
}

#[test]
fn socket_opened_once() {
    let mut sockets: SocketRegistry<u32> = SocketRegistry::new();
    assert!(sockets.insert_if_absent("candles-BTC-USDT".to_string(), 1));
    assert!(!sockets.insert_if_absent("candles-BTC-USDT".to_string(), 2));
    sockets.remove("candles-BTC-USDT");
    assert!(sockets.insert_if_absent("candles-BTC-USDT".to_string(), 3));
}

#[test]
fn core_handler_emits_one_order_per_client_id() {
    let mut market = report("a", "", None);
    market.tgt_ccy = "base_ccy".to_string();
    let mut unnamed = report("", "t", None);
    unnamed.tgt_ccy = "nothing".to_string();
    let mut limit = report("b", "", None);
    limit.ord_type = OrdType::Limit;
    limit.has_px = true;
    let orders = okx_service::orders_from_message(&vec![market, unnamed, limit]);
    let ids: Vec<&str> = orders.iter().map(|o| o.order.id.as_str()).collect();
    assert_eq!(ids, vec!["a", "b"]);
    assert_eq!(orders[0].size, SizeKind::Target);
    assert_eq!(orders[1].order.order_type, OrderKind::Limit);
    let listened = okx_service::listen_orders(&vec![report("", "x", None), report("c", "", None)]);
    assert_eq!(listened.len(), 1);
    assert_eq!(listened[0].id, "c");
}

#[test]
fn service_sockets_separate_markets() {
    let p = pair(Currency::BTC, Currency::USDT);
    assert_eq!(okx_service::service_inst_id(p, MarketType::Spot, "Spot"), "BTC-USDT");
    assert_eq!(okx_service::service_inst_id(p, MarketType::Margin, "Margin"), "BTC-USDT-Margin");
    assert_eq!(
        okx_service::service_socket_id(SocketKind::Ticks, p, MarketType::Margin, "Margin"),
        "mark-price-BTC-USDT-Margin"
    );
    assert_eq!(
        okx_service::service_socket_id(SocketKind::Candles, p, MarketType::Spot, "Spot"),
        "candles-BTC-USDT"
    );
}

#[test]
fn okx_single_row_handler_keeps_the_last_row() {
    let candle = okx::candle_from_last_row(
        CandleChannel::Candle1D,
        &vec![row(1, "0"), row(2, "1")],
        pair(Currency::BTC, Currency::USDT),
        MarketType::Spot,
    );
    assert_eq!(candle.id.timestamp, 2);
    assert_eq!(candle.status, CandleStatus::Close);
    assert_eq!(candle.timeframe, Timeframe::OneD);
}

#[test]
fn bybit_history_candles_are_closed_oldest_first() {
    let candles = bybit::candles_from_history(
        &vec![3000, 2000, 1000],
        pair(Currency::SOL, Currency::USDT),
        Timeframe::FiveM,
        MarketType::Spot,
    );
    let starts: Vec<i64> = candles.iter().map(|c| c.id.timestamp).collect();
    assert_eq!(starts, vec![1000, 2000, 3000]);
    assert!(candles.iter().all(|c| c.status == CandleStatus::Close));
    assert_eq!(candles[0].id.exchange, Exchange::BYBIT);
    assert_eq!(candles[0].instrument_id.pair, pair(Currency::SOL, Currency::USDT));
}

#[test]
fn bybit_stream_candles_keep_order() {
    let items = vec![
        bybit::StreamedCandle { interval: "60".to_string(), start: 10, confirm: false },
        bybit::StreamedCandle { interval: "D".to_string(), start: 20, confirm: true },
    ];
    let candles = bybit::candles_from_stream(&items, pair(Currency::ETH, Currency::USDT), MarketType::Margin);
    assert_eq!(candles.len(), 2);
    assert_eq!((candles[0].timeframe, candles[0].status, candles[0].id.timestamp), (Timeframe::OneH, CandleStatus::Open, 10));
    assert_eq!((candles[1].timeframe, candles[1].status, candles[1].id.timestamp), (Timeframe::OneD, CandleStatus::Close, 20));
    assert_eq!(candles[1].instrument_id.market_type, MarketType::Margin);
}
