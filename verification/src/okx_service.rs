//! The decisions of the interactor core's own OKX service, which trades
//! without margin currencies and reports a filled order as completed at
//! once: how its order updates become orders, its candle bars, and the
//! fields of the orders it places.

use vstd::prelude::*;

use crate::domain::{str_eq, MarketType, CurrencyPair, OrderStatus, OrderStatusView, Side, Timeframe};
use crate::bybit::digits_value;
use crate::domain::period_seconds;
use crate::okx::{bar_seconds, leading_digits};
use crate::sockets::SocketKind;
use crate::okx::{
    spec_socket_prefix, inst_id, pair_from_inst_id, parse_inst_id, spec_inst_id, spec_side, OkxSide, OrdState,
    OrdType, OrderDetails, OrderKind, PriceField, SizeKind, TdMode, TriggerFields,
};

verus! {

/// How margin is shared, as the service trades it.
#[derive(Clone, Copy, Debug, PartialEq, Eq, Structural)]
pub enum ServiceMarginMode {
    Cross,
    Isolated,
}

/// Market on which the service's orders trade.
#[derive(Clone, Copy, Debug, PartialEq, Eq, Structural)]
pub enum ServiceMarketType {
    Spot,
    Margin(ServiceMarginMode),
}

/// An order update as the service decodes it; its price, size and average
/// fill price are read from the report.
#[derive(Clone, Debug)]
pub struct ServiceOrderShape {
    pub id: String,
    pub status: OrderStatus,
    pub pair: CurrencyPair,
    pub market_type: ServiceMarketType,
    pub side: Side,
    pub order_type: OrderKind,
}

/// An order update as the core's order handler decodes it, with the
/// currency its size is counted in and its triggers.
#[derive(Clone, Debug)]
pub struct HandledOrderShape {
    pub order: ServiceOrderShape,
    pub size: SizeKind,
    pub stop_loss: Option<TriggerFields>,
    pub take_profit: Option<TriggerFields>,
}

/// The order status of an update: a filled order is completed.
pub open spec fn spec_update_status(state: OrdState) -> OrderStatusView {
    match state {
        OrdState::Canceled => OrderStatusView::Canceled,
        OrdState::Live => OrderStatusView::InProgress,
        OrdState::PartiallyFilled => OrderStatusView::InProgress,
        OrdState::Filled => OrderStatusView::Completed,
    }
}

/// The order status of an update.
pub fn update_status(state: OrdState) -> (status: OrderStatus)
    ensures
        status@ == spec_update_status(state),
{
    match state {
        OrdState::Canceled => OrderStatus::Canceled,
        OrdState::Live => OrderStatus::InProgress,
        OrdState::PartiallyFilled => OrderStatus::InProgress,
        OrdState::Filled => OrderStatus::Completed,
    }
}

/// The market of a trade mode.
pub open spec fn spec_market_type(td_mode: TdMode) -> ServiceMarketType {
    match td_mode {
        TdMode::Cross => ServiceMarketType::Margin(ServiceMarginMode::Cross),
        TdMode::Isolated => ServiceMarketType::Margin(ServiceMarginMode::Isolated),
        TdMode::Cash => ServiceMarketType::Spot,
    }
}

/// Whether the service can decode an update: its instrument names two
/// currencies, and it is a market order or a limit order with its price.
pub open spec fn service_decodable(d: OrderDetails) -> bool {
    &&& parse_inst_id(d.inst_id@) is Some
    &&& d.ord_type == OrdType::Market || d.ord_type == OrdType::Limit
    &&& d.ord_type == OrdType::Limit ==> d.has_px
}

/// The parts of a decoded update, for comparison with a spec.
pub open spec fn service_parts(o: ServiceOrderShape) -> (OrderStatusView, CurrencyPair, ServiceMarketType, Side, OrderKind) {
    (o.status@, o.pair, o.market_type, o.side, o.order_type)
}

/// The order a decodable update describes.
pub open spec fn spec_service_order(d: OrderDetails) -> (OrderStatusView, CurrencyPair, ServiceMarketType, Side, OrderKind) {
    (
        spec_update_status(d.state),
        parse_inst_id(d.inst_id@)->0,
        spec_market_type(d.td_mode),
        spec_side(d.side),
        if d.ord_type == OrdType::Market {
            OrderKind::Market
        } else {
            OrderKind::Limit
        },
    )
}

/// Decodes an order update the way the service's order listener does.
pub fn order_from_update(details: &OrderDetails) -> (order: ServiceOrderShape)
    requires
        service_decodable(*details),
    ensures
        order.id@ == details.cl_ord_id@,
        service_parts(order) == spec_service_order(*details),
{
    let pair = match pair_from_inst_id(details.inst_id.as_str()) {
        Some(pair) => pair,
        None => CurrencyPair { target: crate::domain::Currency::BTC, source: crate::domain::Currency::BTC },
    };
    let market_type = match details.td_mode {
        TdMode::Cross => ServiceMarketType::Margin(ServiceMarginMode::Cross),
        TdMode::Isolated => ServiceMarketType::Margin(ServiceMarginMode::Isolated),
        TdMode::Cash => ServiceMarketType::Spot,
    };
    let side = match details.side {
        OkxSide::Buy => Side::Buy,
        OkxSide::Sell => Side::Sell,
    };
    let order_type = if details.ord_type == OrdType::Market {
        OrderKind::Market
    } else {
        OrderKind::Limit
    };
    ServiceOrderShape {
        id: details.cl_ord_id.clone(),
        status: update_status(details.state),
        pair,
        market_type,
        side,
        order_type,
    }
}

/// Whether the core's order handler can decode an update: as the service
/// can, and a market order says which currency its size is counted in.
pub open spec fn handled_decodable(d: OrderDetails) -> bool {
    &&& service_decodable(d)
    &&& d.ord_type == OrdType::Market ==> (d.tgt_ccy@ == "quote_ccy"@ || d.tgt_ccy@ == "base_ccy"@)
}

/// The currency a handled update's size is counted in.
pub open spec fn spec_handled_size(d: OrderDetails) -> SizeKind {
    if d.ord_type == OrdType::Market && d.tgt_ccy@ == "quote_ccy"@ {
        SizeKind::Source
    } else {
        SizeKind::Target
    }
}

/// The stop loss of a handled update: both its prices must be there.
pub open spec fn spec_handled_stop_loss(d: OrderDetails) -> Option<TriggerFields> {
    if d.has_sl_trigger_px && d.has_sl_ord_px {
        Some(TriggerFields { trigger_px: PriceField::SlTriggerPx, order_px: PriceField::SlOrdPx })
    } else {
        None
    }
}

/// The take profit of a handled update: both its prices must be there.
pub open spec fn spec_handled_take_profit(d: OrderDetails) -> Option<TriggerFields> {
    if d.has_tp_trigger_px && d.has_tp_ord_px {
        Some(TriggerFields { trigger_px: PriceField::TpTriggerPx, order_px: PriceField::TpOrdPx })
    } else {
        None
    }
}

/// Decodes an order update the way the core's order handler does.
pub fn on_order(details: &OrderDetails) -> (order: HandledOrderShape)
    requires
        handled_decodable(*details),
    ensures
        order.order.id@ == details.cl_ord_id@,
        service_parts(order.order) == spec_service_order(*details),
        order.size == spec_handled_size(*details),
        order.stop_loss == spec_handled_stop_loss(*details),
        order.take_profit == spec_handled_take_profit(*details),
{
    let base = order_from_update(details);
    let size = if details.ord_type == OrdType::Market && str_eq(details.tgt_ccy.as_str(), "quote_ccy") {
        SizeKind::Source
    } else {
        SizeKind::Target
    };
    let stop_loss = if details.has_sl_trigger_px && details.has_sl_ord_px {
        Some(TriggerFields { trigger_px: PriceField::SlTriggerPx, order_px: PriceField::SlOrdPx })
    } else {
        None
    };
    let take_profit = if details.has_tp_trigger_px && details.has_tp_ord_px {
        Some(TriggerFields { trigger_px: PriceField::TpTriggerPx, order_px: PriceField::TpOrdPx })
    } else {
        None
    };
    HandledOrderShape { order: base, size, stop_loss, take_profit }
}

/// Whether the core's order handler can decode an update.
pub fn is_handled_decodable(details: &OrderDetails) -> (ok: bool)
    ensures
        ok == handled_decodable(*details),
{
    let pair_ok = pair_from_inst_id(details.inst_id.as_str()).is_some();
    let type_ok = details.ord_type == OrdType::Market || details.ord_type == OrdType::Limit;
    let px_ok = details.ord_type != OrdType::Limit || details.has_px;
    let size_ok = details.ord_type != OrdType::Market || str_eq(details.tgt_ccy.as_str(), "quote_ccy")
        || str_eq(details.tgt_ccy.as_str(), "base_ccy");
    pair_ok && type_ok && px_ok && size_ok
}

/// The service's OKX name of a candle period: whole days are "1D".
pub open spec fn spec_service_bar(timeframe: Timeframe) -> Seq<char> {
    match timeframe {
        Timeframe::OneS => "1s"@,
        Timeframe::OneM => "1m"@,
        Timeframe::FiveM => "5m"@,
        Timeframe::FifteenM => "15m"@,
        Timeframe::ThirtyM => "30m"@,
        Timeframe::OneH => "1H"@,
        Timeframe::TwoH => "2H"@,
        Timeframe::FourH => "4H"@,
        Timeframe::OneD => "1D"@,
    }
}

/// The service's OKX name of a candle period.
pub fn service_bar(timeframe: Timeframe) -> (name: &'static str)
    ensures
        name@ == spec_service_bar(timeframe),
{
    match timeframe {
        Timeframe::OneS => "1s",
        Timeframe::OneM => "1m",
        Timeframe::FiveM => "5m",
        Timeframe::FifteenM => "15m",
        Timeframe::ThirtyM => "30m",
        Timeframe::OneH => "1H",
        Timeframe::TwoH => "2H",
        Timeframe::FourH => "4H",
        Timeframe::OneD => "1D",
    }
}

/// The fields of an order request of the service that do not hold a price
/// or a size.
#[derive(Clone, Debug)]
pub struct ServicePlaceOrderFields {
    pub inst_id: String,
    pub td_mode: TdMode,
    pub side: OkxSide,
    pub cl_ord_id: String,
}

/// The trade mode of a market.
pub open spec fn spec_service_td_mode(market_type: ServiceMarketType) -> TdMode {
    match market_type {
        ServiceMarketType::Spot => TdMode::Cash,
        ServiceMarketType::Margin(ServiceMarginMode::Cross) => TdMode::Cross,
        ServiceMarketType::Margin(ServiceMarginMode::Isolated) => TdMode::Isolated,
    }
}

/// The fields of the request that places the order `id`, with `id` as its
/// client id.
pub fn place_order_fields(id: &str, pair: CurrencyPair, market_type: ServiceMarketType, side: Side) -> (fields: ServicePlaceOrderFields)
    ensures
        fields.inst_id@ == spec_inst_id(pair),
        fields.td_mode == spec_service_td_mode(market_type),
        spec_side(fields.side) == side,
        fields.cl_ord_id@ == id@,
{
    let td_mode = match market_type {
        ServiceMarketType::Spot => TdMode::Cash,
        ServiceMarketType::Margin(ServiceMarginMode::Cross) => TdMode::Cross,
        ServiceMarketType::Margin(ServiceMarginMode::Isolated) => TdMode::Isolated,
    };
    let okx_side = match side {
        Side::Buy => OkxSide::Buy,
        Side::Sell => OkxSide::Sell,
    };
    ServicePlaceOrderFields { inst_id: inst_id(pair), td_mode, side: okx_side, cl_ord_id: id.to_owned() }
}

/// The reports of a message that carry a client id, in message order.
pub open spec fn reports_with_client_id(s: Seq<OrderDetails>) -> Seq<OrderDetails> {
    s.filter(|d: OrderDetails| d.cl_ord_id@.len() > 0)
}

/// Whether `o` is what the core's order handler decodes from `d`.
pub open spec fn handled_from(o: HandledOrderShape, d: OrderDetails) -> bool {
    &&& o.order.id@ == d.cl_ord_id@
    &&& service_parts(o.order) == spec_service_order(d)
    &&& o.size == spec_handled_size(d)
    &&& o.stop_loss == spec_handled_stop_loss(d)
    &&& o.take_profit == spec_handled_take_profit(d)
}

/// The orders the core's order handler emits for one message: one for each
/// report with a client id, in report order; reports without one are
/// skipped.
pub fn orders_from_message(data: &Vec<OrderDetails>) -> (orders: Vec<HandledOrderShape>)
    requires
        forall|i: int|
            0 <= i < data.len() && (#[trigger] data[i]).cl_ord_id@.len() > 0 ==> handled_decodable(data[i]),
    ensures
        orders.len() == reports_with_client_id(data@).len(),
        forall|i: int|
            0 <= i < orders.len() ==> handled_from(#[trigger] orders[i], reports_with_client_id(data@)[i]),
{
    let mut orders: Vec<HandledOrderShape> = Vec::new();
    let mut i: usize = 0;
    while i < data.len()
        invariant
            i <= data.len(),
            forall|k: int|
                0 <= k < data.len() && (#[trigger] data[k]).cl_ord_id@.len() > 0 ==> handled_decodable(data[k]),
            orders.len() == reports_with_client_id(data@.take(i as int)).len(),
            forall|k: int|
                0 <= k < orders.len() ==> handled_from(
                    #[trigger] orders[k],
                    reports_with_client_id(data@.take(i as int))[k],
                ),
        decreases data.len() - i,
    {
        proof {
            reveal(Seq::filter);
            assert(data@.take(i as int + 1).drop_last() =~= data@.take(i as int));
            assert(data@.take(i as int + 1).last() == data@[i as int]);
        }
        if data[i].cl_ord_id.as_str().unicode_len() > 0 {
            orders.push(on_order(&data[i]));
        }
        i = i + 1;
    }
    proof {
        assert(data@.take(data@.len() as int) =~= data@);
    }
    orders
}

/// Whether `o` is what the service's order listener decodes from `d`.
pub open spec fn listened_from(o: ServiceOrderShape, d: OrderDetails) -> bool {
    o.id@ == d.cl_ord_id@ && service_parts(o) == spec_service_order(d)
}

/// The orders the service's order listener emits for one message: one for
/// each report with a client id, in report order; reports without one are
/// skipped.
pub fn listen_orders(data: &Vec<OrderDetails>) -> (orders: Vec<ServiceOrderShape>)
    requires
        forall|i: int|
            0 <= i < data.len() && (#[trigger] data[i]).cl_ord_id@.len() > 0 ==> service_decodable(data[i]),
    ensures
        orders.len() == reports_with_client_id(data@).len(),
        forall|i: int|
            0 <= i < orders.len() ==> listened_from(#[trigger] orders[i], reports_with_client_id(data@)[i]),
{
    let mut orders: Vec<ServiceOrderShape> = Vec::new();
    let mut i: usize = 0;
    while i < data.len()
        invariant
            i <= data.len(),
            forall|k: int|
                0 <= k < data.len() && (#[trigger] data[k]).cl_ord_id@.len() > 0 ==> service_decodable(data[k]),
            orders.len() == reports_with_client_id(data@.take(i as int)).len(),
            forall|k: int|
                0 <= k < orders.len() ==> listened_from(
                    #[trigger] orders[k],
                    reports_with_client_id(data@.take(i as int))[k],
                ),
        decreases data.len() - i,
    {
        proof {
            reveal(Seq::filter);
            assert(data@.take(i as int + 1).drop_last() =~= data@.take(i as int));
            assert(data@.take(i as int + 1).last() == data@[i as int]);
        }
        if data[i].cl_ord_id.as_str().unicode_len() > 0 {
            orders.push(order_from_update(&data[i]));
        }
        i = i + 1;
    }
    proof {
        assert(data@.take(data@.len() as int) =~= data@);
    }
    orders
}

/// The instrument name the service streams a pair under: its OKX name,
/// followed, on a market other than spot, by a dash and `market_name`, the
/// market's display name.
pub open spec fn spec_service_inst_id(pair: CurrencyPair, market_type: MarketType, market_name: Seq<char>) -> Seq<char> {
    if market_type == MarketType::Spot {
        spec_inst_id(pair)
    } else {
        spec_inst_id(pair) + "-"@ + market_name
    }
}

/// The instrument name the service streams a pair under.
pub fn service_inst_id(pair: CurrencyPair, market_type: MarketType, market_name: &str) -> (id: String)
    ensures
        id@ == spec_service_inst_id(pair, market_type, market_name@),
{
    let mut id = inst_id(pair);
    if market_type != MarketType::Spot {
        id.append("-");
        id.append(market_name);
    }
    id
}

/// The key of the service's socket that streams `kind` data of a pair on a
/// market whose display name is `market_name`.
pub open spec fn spec_service_socket_id(
    kind: SocketKind,
    pair: CurrencyPair,
    market_type: MarketType,
    market_name: Seq<char>,
) -> Seq<char> {
    spec_socket_prefix(kind) + spec_service_inst_id(pair, market_type, market_name)
}

/// The key of the service's socket that streams `kind` data of a pair.
pub fn service_socket_id(kind: SocketKind, pair: CurrencyPair, market_type: MarketType, market_name: &str) -> (id: String)
    ensures
        id@ == spec_service_socket_id(kind, pair, market_type, market_name@),
{
    let mut id = match kind {
        SocketKind::Ticks => "mark-price-".to_owned(),
        SocketKind::Candles => "candles-".to_owned(),
    };
    let name = service_inst_id(pair, market_type, market_name);
    id.append(name.as_str());
    id
}

/// Law: the service streams a pair's spot and margin data on separate
/// sockets.
pub proof fn law_service_socket_ids_separate_markets(kind: SocketKind, pair: CurrencyPair, market_name: Seq<char>)
    ensures
        spec_service_socket_id(kind, pair, MarketType::Spot, market_name) != spec_service_socket_id(
            kind,
            pair,
            MarketType::Margin,
            market_name,
        ),
{
    reveal_strlit("-");
    assert(spec_service_socket_id(kind, pair, MarketType::Spot, market_name).len() < spec_service_socket_id(
        kind,
        pair,
        MarketType::Margin,
        market_name,
    ).len());
}

/// Law: the service reports an order completed exactly when it is filled,
/// canceled exactly when it is canceled, and in progress when it is live or
/// partly filled.
pub proof fn law_update_status_meaning(state: OrdState)
    ensures
        spec_update_status(state) is Completed <==> state == OrdState::Filled,
        spec_update_status(state) is Canceled <==> state == OrdState::Canceled,
        spec_update_status(state) is InProgress <==> (state == OrdState::Live || state
            == OrdState::PartiallyFilled),
        !(spec_update_status(state) is Created),
        !(spec_update_status(state) is Failed),
{
}

/// Law: the bar the service asks OKX for names a period of the same length
/// as the candle period.
pub proof fn law_service_bar_names_the_period(timeframe: Timeframe)
    ensures
        bar_seconds(spec_service_bar(timeframe)) == period_seconds(timeframe),
{
    reveal_with_fuel(leading_digits, 4);
    reveal_with_fuel(digits_value, 3);
    assert(seq!['1'].drop_last() =~= Seq::<char>::empty());
    match timeframe {
        Timeframe::OneS => {
            reveal_strlit("1s");
            assert("1s"@.take(1) =~= seq!['1']);
        },
        Timeframe::OneM => {
            reveal_strlit("1m");
            assert("1m"@.take(1) =~= seq!['1']);
        },
        Timeframe::FiveM => {
            reveal_strlit("5m");
            assert("5m"@.take(1) =~= seq!['5']);
        },
        Timeframe::FifteenM => {
            reveal_strlit("15m");
            assert("15m"@.take(2) =~= seq!['1', '5']);
            assert(seq!['1', '5'].drop_last() =~= seq!['1']);
            assert("15m"@.drop_first() =~= seq!['5', 'm']);
            assert(seq!['5', 'm'].drop_first() =~= seq!['m']);
        },
        Timeframe::ThirtyM => {
            reveal_strlit("30m");
            assert("30m"@.take(2) =~= seq!['3', '0']);
            assert(seq!['3', '0'].drop_last() =~= seq!['3']);
            assert("30m"@.drop_first() =~= seq!['0', 'm']);
            assert(seq!['0', 'm'].drop_first() =~= seq!['m']);
        },
        Timeframe::OneH => {
            reveal_strlit("1H");
            assert("1H"@.take(1) =~= seq!['1']);
        },
        Timeframe::TwoH => {
            reveal_strlit("2H");
            assert("2H"@.take(1) =~= seq!['2']);
        },
        Timeframe::FourH => {
            reveal_strlit("4H");
            assert("4H"@.take(1) =~= seq!['4']);
        },
        Timeframe::OneD => {
            reveal_strlit("1D");
            assert("1D"@.take(1) =~= seq!['1']);
            assert("1D"@.drop_first() =~= seq!['D']);
        },
    }
}

/// Law: the core's order handler reads each trigger from its own fields: a
/// stop loss, present exactly when both its prices are, from the stop loss
/// trigger and order prices, and a take profit likewise from the take
/// profit's; a market order told `quote_ccy` is sized in the source
/// currency, every other order in the target currency.
pub proof fn law_handled_fields_meaning(d: OrderDetails)
    ensures
        spec_handled_stop_loss(d) is Some <==> (d.has_sl_trigger_px && d.has_sl_ord_px),
        spec_handled_stop_loss(d) is Some ==> spec_handled_stop_loss(d)->0.trigger_px == PriceField::SlTriggerPx
            && spec_handled_stop_loss(d)->0.order_px == PriceField::SlOrdPx,
        spec_handled_take_profit(d) is Some <==> (d.has_tp_trigger_px && d.has_tp_ord_px),
        spec_handled_take_profit(d) is Some ==> spec_handled_take_profit(d)->0.trigger_px
            == PriceField::TpTriggerPx && spec_handled_take_profit(d)->0.order_px == PriceField::TpOrdPx,
        spec_handled_size(d) == SizeKind::Source <==> (d.ord_type == OrdType::Market && d.tgt_ccy@
            == "quote_ccy"@),
{
}

} // verus!
