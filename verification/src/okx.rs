//! The OKX adapter's decisions: instrument and socket names, candle bars,
//! how order reports from OKX become orders, and how a placed order's
//! response becomes its status. Prices and sizes are read by the adapter
//! from the fields named here.

use vstd::prelude::*;

use crate::domain::{
    CandleId, CandleShape, InstrumentId, MarketType, Exchange, str_eq, CandleStatus, Timeframe, currency_name, law_currency_name_round_trip, lemma_currency_name_is_ticker_text, parse_currency,
    Currency, CurrencyPair, MarginMode, OrderMarketType, OrderStatus, OrderStatusView, Side,
};
use crate::bybit::digits_value;
use crate::domain::period_seconds;
use crate::sockets::SocketKind;
use crate::text::{
    first_two_fields, index_from, lemma_index_from_at, lemma_index_from_none, split_first_two,
};

verus! {

/// State of an order as OKX reports it.
#[derive(Clone, Copy, Debug, PartialEq, Eq, Structural)]
pub enum OrdState {
    Canceled,
    Live,
    PartiallyFilled,
    Filled,
}

/// Trade mode of an order on OKX.
#[derive(Clone, Copy, Debug, PartialEq, Eq, Structural)]
pub enum TdMode {
    Cross,
    Isolated,
    Cash,
}

/// Side of an order on OKX.
#[derive(Clone, Copy, Debug, PartialEq, Eq, Structural)]
pub enum OkxSide {
    Buy,
    Sell,
}

/// Type of an order on OKX.
#[derive(Clone, Copy, Debug, PartialEq, Eq, Structural)]
pub enum OrdType {
    Market,
    Limit,
    PostOnly,
    Fok,
    Ioc,
    OptimalLimitIoc,
}

/// A field of an OKX order report that holds a price or a size.
#[derive(Clone, Copy, Debug, PartialEq, Eq, Structural)]
pub enum PriceField {
    Px,
    SlTriggerPx,
    SlOrdPx,
    TpTriggerPx,
    TpOrdPx,
}

/// Which currency an order size is counted in.
#[derive(Clone, Copy, Debug, PartialEq, Eq, Structural)]
pub enum SizeKind {
    /// Counted in the target currency.
    Target,
    /// Counted in the source currency.
    Source,
}

/// Type of an order: a market order, or a limit order priced by the `px` field.
#[derive(Clone, Copy, Debug, PartialEq, Eq, Structural)]
pub enum OrderKind {
    Market,
    Limit,
}

/// A stop loss or take profit: the fields that hold its trigger price and
/// its order price (an order price of -1 means a market order).
#[derive(Clone, Copy, Debug, PartialEq, Eq, Structural)]
pub struct TriggerFields {
    pub trigger_px: PriceField,
    pub order_px: PriceField,
}

/// The parts of an OKX order report that decide how it becomes an order.
#[derive(Clone, Debug)]
pub struct OrderDetails {
    pub cl_ord_id: String,
    pub tag: String,
    pub source: Option<i64>,
    pub state: OrdState,
    pub inst_id: String,
    pub ccy: String,
    pub td_mode: TdMode,
    pub side: OkxSide,
    pub ord_type: OrdType,
    pub tgt_ccy: String,
    pub has_px: bool,
    pub has_sl_trigger_px: bool,
    pub has_sl_ord_px: bool,
    pub has_tp_trigger_px: bool,
    pub has_tp_ord_px: bool,
}

/// An order as decoded from an OKX report; its prices, size, fee and average
/// fill price are read from the report fields this shape names.
#[derive(Clone, Debug)]
pub struct OrderShape {
    pub id: String,
    pub status: OrderStatus,
    pub pair: CurrencyPair,
    pub market_type: OrderMarketType,
    pub side: Side,
    pub order_type: OrderKind,
    pub size: SizeKind,
    pub stop_loss: Option<TriggerFields>,
    pub take_profit: Option<TriggerFields>,
    /// A linked fill that completed the order, if one did.
    pub lp_fill: Option<LpFill>,
}

/// Which trigger of an order a linked fill completed.
#[derive(Clone, Copy, Debug, PartialEq, Eq, Structural)]
pub enum LpTarget {
    StopLoss,
    TakeProfit,
    /// The order has neither trigger.
    Neither,
}

/// A fill of an order's stop loss or take profit, which OKX reports as an
/// order of its own tagged with the parent order's id; its price and size
/// amount are read from that report.
#[derive(Clone, Debug)]
pub struct Lp {
    pub id: String,
    pub size: SizeKind,
}

/// A linked fill applied to an order, and the trigger it completed.
#[derive(Clone, Debug)]
pub struct LpFill {
    pub lp: Lp,
    pub target: LpTarget,
}

/// The currency pair named by an OKX instrument name `TARGET-SOURCE`.
pub open spec fn parse_inst_id(inst_id: Seq<char>) -> Option<CurrencyPair> {
    match first_two_fields(inst_id, '-') {
        Some((t, s)) => match (parse_currency(t), parse_currency(s)) {
            (Some(target), Some(source)) => Some(CurrencyPair { target, source }),
            _ => None,
        },
        None => None,
    }
}

/// The OKX instrument name of a pair: `TARGET-SOURCE`.
pub open spec fn spec_inst_id(pair: CurrencyPair) -> Seq<char> {
    currency_name(pair.target) + "-"@ + currency_name(pair.source)
}

/// The OKX instrument name of a pair.
pub fn inst_id(pair: CurrencyPair) -> (id: String)
    ensures
        id@ == spec_inst_id(pair),
{
    let mut id = pair.target.name().to_owned();
    id.append("-");
    id.append(pair.source.name());
    id
}

/// Reading back the instrument name of a pair gives the pair.
pub proof fn law_inst_id_round_trip(pair: CurrencyPair)
    ensures
        parse_inst_id(spec_inst_id(pair)) == Some(pair),
{
    let t = currency_name(pair.target);
    let s = currency_name(pair.source);
    let full = spec_inst_id(pair);
    lemma_currency_name_is_ticker_text(pair.target);
    lemma_currency_name_is_ticker_text(pair.source);
    law_currency_name_round_trip(pair.target);
    law_currency_name_round_trip(pair.source);
    reveal_strlit("-");
    assert(full.len() == t.len() + 1 + s.len());
    assert forall|j: int| 0 <= j < t.len() implies full[j] != '-' by {
        assert(full[j] == t[j]);
    }
    assert(full[t.len() as int] == '-');
    lemma_index_from_at(full, '-', 0, t.len() as int);
    assert forall|j: int| t.len() + 1 <= j < full.len() implies full[j] != '-' by {
        assert(full[j] == s[j - t.len() - 1]);
    }
    lemma_index_from_none(full, '-', t.len() as int + 1);
    assert(full.subrange(0, t.len() as int) =~= t);
    assert(full.subrange(t.len() as int + 1, full.len() as int) =~= s);
}

/// The currency pair named by an OKX instrument name.
pub fn pair_from_inst_id(inst_id: &str) -> (pair: Option<CurrencyPair>)
    ensures
        pair == parse_inst_id(inst_id@),
{
    match split_first_two(inst_id, '-') {
        Some((t, s)) => match (Currency::from_name(t), Currency::from_name(s)) {
            (Some(target), Some(source)) => Some(CurrencyPair { target, source }),
            _ => None,
        },
        None => None,
    }
}

/// The order status of a report: a filled order with a stop loss or take
/// profit trigger still waits for it.
pub open spec fn spec_order_status(
    state: OrdState,
    has_sl_trigger_px: bool,
    has_tp_trigger_px: bool,
) -> OrderStatusView {
    match state {
        OrdState::Canceled => OrderStatusView::Canceled,
        OrdState::Live => OrderStatusView::InProgress,
        OrdState::PartiallyFilled => OrderStatusView::InProgress,
        OrdState::Filled => if !has_sl_trigger_px && !has_tp_trigger_px {
            OrderStatusView::Completed
        } else {
            OrderStatusView::InProgress
        },
    }
}

/// The order status of a report.
pub fn order_status(state: OrdState, has_sl_trigger_px: bool, has_tp_trigger_px: bool) -> (status:
    OrderStatus)
    ensures
        status@ == spec_order_status(state, has_sl_trigger_px, has_tp_trigger_px),
{
    match state {
        OrdState::Canceled => OrderStatus::Canceled,
        OrdState::Live => OrderStatus::InProgress,
        OrdState::PartiallyFilled => OrderStatus::InProgress,
        OrdState::Filled => if !has_sl_trigger_px && !has_tp_trigger_px {
            OrderStatus::Completed
        } else {
            OrderStatus::InProgress
        },
    }
}

/// The side of an OKX order.
pub open spec fn spec_side(side: OkxSide) -> Side {
    match side {
        OkxSide::Buy => Side::Buy,
        OkxSide::Sell => Side::Sell,
    }
}

/// The currency a size is counted in: market orders say so in `tgt_ccy`
/// (buying counts in the source currency and selling in the target when it
/// says neither); limit orders count in the target currency.
pub open spec fn spec_size_kind(ord_type: OrdType, tgt_ccy: Seq<char>, side: Side) -> SizeKind {
    if ord_type == OrdType::Market {
        if tgt_ccy == "quote_ccy"@ {
            SizeKind::Source
        } else if tgt_ccy == "base_ccy"@ {
            SizeKind::Target
        } else if side == Side::Buy {
            SizeKind::Source
        } else {
            SizeKind::Target
        }
    } else {
        SizeKind::Target
    }
}

/// Whether a report can be decoded: its instrument names two currencies, a
/// cross margin currency is known, the order is a market or limit order, a
/// limit order carries its price, and a take profit comes with a stop loss
/// order price (which the take profit order price is read from).
pub open spec fn decodable(d: OrderDetails) -> bool {
    &&& parse_inst_id(d.inst_id@) is Some
    &&& d.td_mode == TdMode::Cross ==> parse_currency(d.ccy@) is Some
    &&& d.ord_type == OrdType::Market || d.ord_type == OrdType::Limit
    &&& d.ord_type == OrdType::Limit ==> d.has_px
    &&& (d.has_tp_trigger_px && d.has_tp_ord_px) ==> d.has_sl_ord_px
}

/// The order that a decodable report describes.
pub open spec fn spec_order_shape(d: OrderDetails) -> (OrderStatusView, CurrencyPair, OrderMarketType, Side, OrderKind, SizeKind, Option<TriggerFields>, Option<TriggerFields>) {
    let side = spec_side(d.side);
    (
        spec_order_status(d.state, d.has_sl_trigger_px, d.has_tp_trigger_px),
        parse_inst_id(d.inst_id@)->0,
        match d.td_mode {
            TdMode::Cross => OrderMarketType::Margin(MarginMode::Cross(parse_currency(d.ccy@)->0)),
            TdMode::Isolated => OrderMarketType::Margin(MarginMode::Isolated),
            TdMode::Cash => OrderMarketType::Spot,
        },
        side,
        if d.ord_type == OrdType::Market {
            OrderKind::Market
        } else {
            OrderKind::Limit
        },
        spec_size_kind(d.ord_type, d.tgt_ccy@, side),
        if d.has_sl_trigger_px && d.has_sl_ord_px {
            Some(TriggerFields { trigger_px: PriceField::SlTriggerPx, order_px: PriceField::SlOrdPx })
        } else {
            None
        },
        if d.has_tp_trigger_px && d.has_tp_ord_px {
            Some(TriggerFields { trigger_px: PriceField::TpTriggerPx, order_px: PriceField::SlOrdPx })
        } else {
            None
        },
    )
}

/// The parts of a decoded order, for comparison with `spec_order_shape`.
pub open spec fn shape_parts(o: OrderShape) -> (OrderStatusView, CurrencyPair, OrderMarketType, Side, OrderKind, SizeKind, Option<TriggerFields>, Option<TriggerFields>) {
    (o.status@, o.pair, o.market_type, o.side, o.order_type, o.size, o.stop_loss, o.take_profit)
}

/// Whether a report can be decoded.
pub fn is_decodable(details: &OrderDetails) -> (ok: bool)
    ensures
        ok == decodable(*details),
{
    let pair_ok = pair_from_inst_id(details.inst_id.as_str()).is_some();
    let ccy_ok = match details.td_mode {
        TdMode::Cross => Currency::from_name(details.ccy.as_str()).is_some(),
        _ => true,
    };
    let type_ok = details.ord_type == OrdType::Market || details.ord_type == OrdType::Limit;
    let px_ok = details.ord_type != OrdType::Limit || details.has_px;
    let tp_ok = !(details.has_tp_trigger_px && details.has_tp_ord_px) || details.has_sl_ord_px;
    pair_ok && ccy_ok && type_ok && px_ok && tp_ok
}

/// Decodes an OKX order report into an order, without linked fills.
pub fn order_from_details(details: &OrderDetails) -> (order: OrderShape)
    requires
        decodable(*details),
    ensures
        order.id@ == details.cl_ord_id@,
        shape_parts(order) == spec_order_shape(*details),
        order.lp_fill is None,
{
    let status = order_status(details.state, details.has_sl_trigger_px, details.has_tp_trigger_px);
    let pair = match pair_from_inst_id(details.inst_id.as_str()) {
        Some(pair) => pair,
        None => CurrencyPair { target: Currency::BTC, source: Currency::BTC },
    };
    let market_type = match details.td_mode {
        TdMode::Cross => {
            let ccy = match Currency::from_name(details.ccy.as_str()) {
                Some(c) => c,
                None => Currency::BTC,
            };
            OrderMarketType::Margin(MarginMode::Cross(ccy))
        },
        TdMode::Isolated => OrderMarketType::Margin(MarginMode::Isolated),
        TdMode::Cash => OrderMarketType::Spot,
    };
    let side = match details.side {
        OkxSide::Buy => Side::Buy,
        OkxSide::Sell => Side::Sell,
    };
    let order_type = if details.ord_type == OrdType::Market {
        OrderKind::Market
    } else {
        OrderKind::Limit
    };
    let size = size_kind(details.ord_type, details.tgt_ccy.as_str(), side);
    let stop_loss = if details.has_sl_trigger_px && details.has_sl_ord_px {
        Some(TriggerFields { trigger_px: PriceField::SlTriggerPx, order_px: PriceField::SlOrdPx })
    } else {
        None
    };
    let take_profit = if details.has_tp_trigger_px && details.has_tp_ord_px {
        Some(TriggerFields { trigger_px: PriceField::TpTriggerPx, order_px: PriceField::SlOrdPx })
    } else {
        None
    };
    OrderShape {
        id: details.cl_ord_id.clone(),
        status,
        pair,
        market_type,
        side,
        order_type,
        size,
        stop_loss,
        take_profit,
        lp_fill: None,
    }
}

/// The trigger a linked fill completes: the only trigger the order has, or,
/// when it has both, the one whose price lies closer to the fill price
/// (`tp_closer` says whether that is the take profit; a tie goes to the
/// stop loss).
pub open spec fn spec_lp_target(has_stop_loss: bool, has_take_profit: bool, tp_closer: bool) -> LpTarget {
    if has_stop_loss && has_take_profit {
        if tp_closer {
            LpTarget::TakeProfit
        } else {
            LpTarget::StopLoss
        }
    } else if has_stop_loss {
        LpTarget::StopLoss
    } else if has_take_profit {
        LpTarget::TakeProfit
    } else {
        LpTarget::Neither
    }
}

/// Applies a linked fill to an order: the order is completed, and the fill
/// becomes the average price of the trigger it completed, whose size then
/// replaces the order's size. `tp_closer` says whether the fill price lies
/// strictly closer to the take profit price than to the stop loss price; it
/// matters only when the order has both.
pub fn add_lp_to_order(order: OrderShape, lp: Lp, tp_closer: bool) -> (result: OrderShape)
    ensures
        result.id@ == order.id@,
        result.status@ == OrderStatusView::Completed,
        result.pair == order.pair,
        result.market_type == order.market_type,
        result.side == order.side,
        result.order_type == order.order_type,
        result.stop_loss == order.stop_loss,
        result.take_profit == order.take_profit,
        result.lp_fill matches Some(fill) && fill.lp.id@ == lp.id@ && fill.lp.size == lp.size
            && fill.target == spec_lp_target(
            order.stop_loss is Some,
            order.take_profit is Some,
            tp_closer,
        ),
        result.size == (if spec_lp_target(
            order.stop_loss is Some,
            order.take_profit is Some,
            tp_closer,
        ) == LpTarget::Neither {
            order.size
        } else {
            lp.size
        }),
{
    let has_stop_loss = order.stop_loss.is_some();
    let has_take_profit = order.take_profit.is_some();
    let target = if has_stop_loss && has_take_profit {
        if tp_closer {
            LpTarget::TakeProfit
        } else {
            LpTarget::StopLoss
        }
    } else if has_stop_loss {
        LpTarget::StopLoss
    } else if has_take_profit {
        LpTarget::TakeProfit
    } else {
        LpTarget::Neither
    };
    let size = match target {
        LpTarget::Neither => order.size,
        _ => lp.size,
    };
    OrderShape {
        id: order.id,
        status: OrderStatus::Completed,
        pair: order.pair,
        market_type: order.market_type,
        side: order.side,
        order_type: order.order_type,
        size,
        stop_loss: order.stop_loss,
        take_profit: order.take_profit,
        lp_fill: Some(LpFill { lp, target }),
    }
}

/// Whether a linked fill report completes its order: it is itself complete.
pub open spec fn lp_completes(lp: OrderDetails) -> bool {
    spec_order_status(lp.state, lp.has_sl_trigger_px, lp.has_tp_trigger_px) is Completed
}

/// The size kind of a linked fill report.
pub open spec fn spec_lp_size(lp: OrderDetails) -> SizeKind {
    spec_size_kind(lp.ord_type, lp.tgt_ccy@, spec_side(lp.side))
}

/// Decodes an OKX order report into an order, completed by its linked fill
/// report when that fill is complete. `tp_closer` says whether the fill
/// price lies strictly closer to the take profit price than to the stop
/// loss price.
pub fn convert_order_details_to_order(
    details: &OrderDetails,
    lp: Option<&OrderDetails>,
    tp_closer: bool,
) -> (order: OrderShape)
    requires
        decodable(*details),
        lp matches Some(l) ==> (lp_completes(*l) ==> (l.ord_type == OrdType::Market || l.ord_type
            == OrdType::Limit)),
    ensures
        order.id@ == details.cl_ord_id@,
        match lp {
            Some(l) if lp_completes(*l) => {
                let base = spec_order_shape(*details);
                let target = spec_lp_target(base.6 is Some, base.7 is Some, tp_closer);
                &&& shape_parts(order) == (
                    OrderStatusView::Completed,
                    base.1,
                    base.2,
                    base.3,
                    base.4,
                    if target == LpTarget::Neither {
                        base.5
                    } else {
                        spec_lp_size(*l)
                    },
                    base.6,
                    base.7,
                )
                &&& order.lp_fill matches Some(fill) && fill.lp.id@ == l.tag@ && fill.lp.size
                    == spec_lp_size(*l) && fill.target == target
            },
            _ => shape_parts(order) == spec_order_shape(*details) && order.lp_fill is None,
        },
{
    let order = order_from_details(details);
    match lp {
        Some(l) => {
            let status = order_status(l.state, l.has_sl_trigger_px, l.has_tp_trigger_px);
            if status.is_completed() {
                let side = match l.side {
                    OkxSide::Buy => Side::Buy,
                    OkxSide::Sell => Side::Sell,
                };
                let size = size_kind(l.ord_type, l.tgt_ccy.as_str(), side);
                add_lp_to_order(order, Lp { id: l.tag.clone(), size }, tp_closer)
            } else {
                order
            }
        },
        None => order,
    }
}

/// The currency a size is counted in.
pub fn size_kind(ord_type: OrdType, tgt_ccy: &str, side: Side) -> (kind: SizeKind)
    ensures
        kind == spec_size_kind(ord_type, tgt_ccy@, side),
{
    if ord_type == OrdType::Market {
        if crate::domain::str_eq(tgt_ccy, "quote_ccy") {
            SizeKind::Source
        } else if crate::domain::str_eq(tgt_ccy, "base_ccy") {
            SizeKind::Target
        } else if side == Side::Buy {
            SizeKind::Source
        } else {
            SizeKind::Target
        }
    } else {
        SizeKind::Target
    }
}

/// Whether a report belongs to the order `id`: its client id or its tag is `id`.
pub open spec fn report_of(d: OrderDetails, id: Seq<char>) -> bool {
    d.cl_ord_id@ == id || d.tag@ == id
}

/// Whether a report of the order `id` is the order itself: it has a client
/// id and no source.
pub open spec fn is_main_report(d: OrderDetails, id: Seq<char>) -> bool {
    report_of(d, id) && d.cl_ord_id@.len() > 0 && d.source is None
}

/// Whether a report of the order `id` that is not the order itself is a
/// linked fill: it has a tag and comes from source 7.
pub open spec fn is_lp_report(d: OrderDetails, id: Seq<char>) -> bool {
    &&& report_of(d, id)
    &&& !is_main_report(d, id)
    &&& d.tag@.len() > 0
    &&& d.source == Some(7i64)
}

/// The last position below `n` holding the order `id` itself.
pub open spec fn last_main_report(s: Seq<OrderDetails>, id: Seq<char>, n: int) -> Option<int>
    decreases n,
{
    if n <= 0 {
        None
    } else if is_main_report(s[n - 1], id) {
        Some(n - 1)
    } else {
        last_main_report(s, id, n - 1)
    }
}

/// The last position below `n` holding a linked fill of the order `id`.
pub open spec fn last_lp_report(s: Seq<OrderDetails>, id: Seq<char>, n: int) -> Option<int>
    decreases n,
{
    if n <= 0 {
        None
    } else if is_lp_report(s[n - 1], id) {
        Some(n - 1)
    } else {
        last_lp_report(s, id, n - 1)
    }
}

/// A position as a mathematical integer.
pub open spec fn position_view(p: Option<usize>) -> Option<int> {
    match p {
        Some(i) => Some(i as int),
        None => None,
    }
}

/// Whether a report has a client id and no source.
fn is_main_details(d: &OrderDetails) -> (main: bool)
    ensures
        main == (d.cl_ord_id@.len() > 0 && d.source is None),
{
    d.cl_ord_id.as_str().unicode_len() > 0 && d.source.is_none()
}

/// Picks, among the reports of an order history, the last one that is the
/// order `order_id` itself and the last one that is a linked fill of it.
pub fn select_order_reports(reports: &Vec<OrderDetails>, order_id: &str) -> (selected: (
    Option<usize>,
    Option<usize>,
))
    ensures
        position_view(selected.0) == last_main_report(reports@, order_id@, reports@.len() as int),
        position_view(selected.1) == last_lp_report(reports@, order_id@, reports@.len() as int),
{
    let mut main: Option<usize> = None;
    let mut lp: Option<usize> = None;
    let mut i: usize = 0;
    while i < reports.len()
        invariant
            i <= reports.len(),
            position_view(main) == last_main_report(reports@, order_id@, i as int),
            position_view(lp) == last_lp_report(reports@, order_id@, i as int),
        decreases reports.len() - i,
    {
        let d = &reports[i];
        let belongs = str_eq(d.cl_ord_id.as_str(), order_id) || str_eq(d.tag.as_str(), order_id);
        if belongs {
            if is_main_details(d) {
                main = Some(i);
            } else {
                let from_source_7 = match d.source {
                    Some(source) => source == 7,
                    None => false,
                };
                if d.tag.as_str().unicode_len() > 0 && from_source_7 {
                    lp = Some(i);
                }
            }
        }
        i = i + 1;
    }
    (main, lp)
}

/// What an order update report carries: an order, or a linked fill.
#[derive(Clone, Debug)]
pub enum ReportInfo {
    Order(OrderShape),
    Lp(Lp),
}

/// Whether `info` is what the report `d` decodes to: a linked fill for a
/// report from source 7, else the order it describes.
pub open spec fn describes(info: ReportInfo, d: OrderDetails) -> bool {
    match info {
        ReportInfo::Lp(l) => d.source == Some(7i64) && l.id@ == d.tag@ && l.size == spec_lp_size(d),
        ReportInfo::Order(o) => {
            &&& d.source != Some(7i64)
            &&& o.id@ == d.cl_ord_id@
            &&& shape_parts(o) == spec_order_shape(d)
            &&& o.lp_fill is None
        },
    }
}

/// The reports of an update that carry a client id.
pub open spec fn kept_reports(s: Seq<OrderDetails>) -> Seq<OrderDetails> {
    s.filter(|d: OrderDetails| d.cl_ord_id@.len() > 0)
}

/// Decodes the reports of an order update, skipping those without a client id.
pub fn convert_data(data: &Vec<OrderDetails>) -> (infos: Vec<ReportInfo>)
    requires
        forall|i: int| 0 <= i < data.len() && (#[trigger] data[i]).cl_ord_id@.len() > 0 ==> decodable(data[i]),
    ensures
        infos.len() == kept_reports(data@).len(),
        forall|i: int| 0 <= i < infos.len() ==> describes(#[trigger] infos[i], kept_reports(data@)[i]),
{
    let mut infos: Vec<ReportInfo> = Vec::new();
    let mut i: usize = 0;
    while i < data.len()
        invariant
            i <= data.len(),
            forall|k: int| 0 <= k < data.len() && (#[trigger] data[k]).cl_ord_id@.len() > 0 ==> decodable(data[k]),
            infos.len() == kept_reports(data@.take(i as int)).len(),
            forall|k: int| 0 <= k < infos.len() ==> describes(#[trigger] infos[k], kept_reports(data@.take(i as int))[k]),
        decreases data.len() - i,
    {
        let d = &data[i];
        proof {
            reveal(Seq::filter);
            assert(data@.take(i as int + 1).drop_last() =~= data@.take(i as int));
            assert(data@.take(i as int + 1).last() == data@[i as int]);
        }
        if d.cl_ord_id.as_str().unicode_len() > 0 {
            let order = order_from_details(d);
            let from_source_7 = match d.source {
                Some(source) => source == 7,
                None => false,
            };
            if from_source_7 {
                let side = match d.side {
                    OkxSide::Buy => Side::Buy,
                    OkxSide::Sell => Side::Sell,
                };
                let size = size_kind(d.ord_type, d.tgt_ccy.as_str(), side);
                infos.push(ReportInfo::Lp(Lp { id: d.tag.clone(), size }));
            } else {
                infos.push(ReportInfo::Order(order));
            }
        }
        i = i + 1;
    }
    proof {
        assert(data@.take(data@.len() as int) =~= data@);
    }
    infos
}

/// The status of an order just placed: failed with OKX's message when the
/// response code is not zero and a message came with it, else created.
pub open spec fn spec_placed_status(s_code: i64, s_msg: Option<Seq<char>>) -> OrderStatusView {
    match s_msg {
        Some(message) => if s_code != 0 {
            OrderStatusView::Failed(message)
        } else {
            OrderStatusView::Created
        },
        None => OrderStatusView::Created,
    }
}

/// The status of an order just placed, from OKX's response code and message.
pub fn placed_order_status(s_code: i64, s_msg: Option<String>) -> (status: OrderStatus)
    ensures
        status@ == spec_placed_status(
            s_code,
            match s_msg {
                Some(m) => Some(m@),
                None => None,
            },
        ),
{
    match s_msg {
        Some(message) => if s_code != 0 {
            OrderStatus::Failed(message)
        } else {
            OrderStatus::Created
        },
        None => OrderStatus::Created,
    }
}

/// An order to place, without its prices and size amount: its identifier,
/// instrument, market, side, type and the currency its size is counted in,
/// and, for each trigger it carries, how the trigger's order is priced.
#[derive(Clone, Debug)]
pub struct OrderRequest {
    pub id: String,
    pub pair: CurrencyPair,
    pub market_type: OrderMarketType,
    pub side: Side,
    pub order_type: OrderKind,
    pub size: SizeKind,
    pub stop_loss: Option<OrderKind>,
    pub take_profit: Option<OrderKind>,
}

/// How a trigger's order is priced in an OKX request: at its limit price,
/// or at market, which OKX is told by the order price -1.
#[derive(Clone, Copy, Debug, PartialEq, Eq, Structural)]
pub enum TriggerOrderPx {
    Limit,
    MarketMarker,
}

/// The order price of a trigger in a request.
pub open spec fn spec_trigger_order_px(trigger: Option<OrderKind>) -> Option<TriggerOrderPx> {
    match trigger {
        Some(OrderKind::Limit) => Some(TriggerOrderPx::Limit),
        Some(OrderKind::Market) => Some(TriggerOrderPx::MarketMarker),
        None => None,
    }
}

/// The order price of a trigger in a request.
fn trigger_order_px(trigger: Option<OrderKind>) -> (px: Option<TriggerOrderPx>)
    ensures
        px == spec_trigger_order_px(trigger),
{
    match trigger {
        Some(OrderKind::Limit) => Some(TriggerOrderPx::Limit),
        Some(OrderKind::Market) => Some(TriggerOrderPx::MarketMarker),
        None => None,
    }
}

/// The fields of an OKX order request that do not hold a price or a size.
#[derive(Clone, Debug)]
pub struct PlaceOrderFields {
    pub inst_id: String,
    pub td_mode: TdMode,
    /// The margin currency, for cross margin.
    pub margin_ccy: Option<Currency>,
    pub side: OkxSide,
    /// Whether the request is a limit or a market request.
    pub kind: OrderKind,
    /// The currency the request's size is counted in.
    pub size: SizeKind,
    pub stop_loss: Option<TriggerOrderPx>,
    pub take_profit: Option<TriggerOrderPx>,
    pub cl_ord_id: String,
    pub tag: String,
}

/// The trade mode and margin currency of an order's market.
pub open spec fn spec_td_mode(market_type: OrderMarketType) -> (TdMode, Option<Currency>) {
    match market_type {
        OrderMarketType::Spot => (TdMode::Cash, None),
        OrderMarketType::Margin(MarginMode::Cross(ccy)) => (TdMode::Cross, Some(ccy)),
        OrderMarketType::Margin(MarginMode::Isolated) => (TdMode::Isolated, None),
    }
}

/// The fields of the request that places an order: its instrument, trade
/// mode, margin currency, side, kind and trigger order prices, with its
/// identifier as both the client id and the tag.
pub fn place_order_fields(request: &OrderRequest) -> (fields: PlaceOrderFields)
    ensures
        fields.inst_id@ == spec_inst_id(request.pair),
        (fields.td_mode, fields.margin_ccy) == spec_td_mode(request.market_type),
        spec_side(fields.side) == request.side,
        fields.kind == request.order_type,
        fields.size == request.size,
        fields.stop_loss == spec_trigger_order_px(request.stop_loss),
        fields.take_profit == spec_trigger_order_px(request.take_profit),
        fields.cl_ord_id@ == request.id@,
        fields.tag@ == request.id@,
{
    let (td_mode, margin_ccy) = match request.market_type {
        OrderMarketType::Spot => (TdMode::Cash, None),
        OrderMarketType::Margin(MarginMode::Cross(ccy)) => (TdMode::Cross, Some(ccy)),
        OrderMarketType::Margin(MarginMode::Isolated) => (TdMode::Isolated, None),
    };
    let okx_side = match request.side {
        Side::Buy => OkxSide::Buy,
        Side::Sell => OkxSide::Sell,
    };
    PlaceOrderFields {
        inst_id: inst_id(request.pair),
        td_mode,
        margin_ccy,
        side: okx_side,
        kind: request.order_type,
        size: request.size,
        stop_loss: trigger_order_px(request.stop_loss),
        take_profit: trigger_order_px(request.take_profit),
        cl_ord_id: request.id.clone(),
        tag: request.id.clone(),
    }
}

/// The record of an order just placed, without its prices, size, fee and
/// timestamp (which are zero, as asked, and the time of placing).
#[derive(Clone, Debug)]
pub struct PlacedOrder {
    pub id: String,
    pub status: OrderStatus,
    pub exchange: Exchange,
    pub pair: CurrencyPair,
    pub market_type: OrderMarketType,
    pub side: Side,
    pub order_type: OrderKind,
    pub size: SizeKind,
    pub stop_loss: Option<OrderKind>,
    pub take_profit: Option<OrderKind>,
}

/// Whether `placed` records `request` on `exchange` with status `status`.
pub open spec fn records(placed: PlacedOrder, request: OrderRequest, exchange: Exchange, status: OrderStatusView) -> bool {
    &&& placed.id@ == request.id@
    &&& placed.status@ == status
    &&& placed.exchange == exchange
    &&& placed.pair == request.pair
    &&& placed.market_type == request.market_type
    &&& placed.side == request.side
    &&& placed.order_type == request.order_type
    &&& placed.size == request.size
    &&& placed.stop_loss == request.stop_loss
    &&& placed.take_profit == request.take_profit
}

/// The record of `request` placed on `exchange` with `status`.
pub fn record_placed(request: &OrderRequest, exchange: Exchange, status: OrderStatus) -> (placed: PlacedOrder)
    ensures
        records(placed, *request, exchange, status@),
{
    PlacedOrder {
        id: request.id.clone(),
        status,
        exchange,
        pair: request.pair,
        market_type: request.market_type,
        side: request.side,
        order_type: request.order_type,
        size: request.size,
        stop_loss: request.stop_loss,
        take_profit: request.take_profit,
    }
}

/// The record of an order placed on OKX, from the response's code and
/// message.
pub fn placed_order(request: &OrderRequest, s_code: i64, s_msg: Option<String>) -> (placed: PlacedOrder)
    ensures
        records(
            placed,
            *request,
            Exchange::OKX,
            spec_placed_status(
                s_code,
                match s_msg {
                    Some(m) => Some(m@),
                    None => None,
                },
            ),
        ),
{
    let status = placed_order_status(s_code, s_msg);
    record_placed(request, Exchange::OKX, status)
}

/// The OKX name of a candle period.
pub open spec fn spec_bar(timeframe: Timeframe) -> Seq<char> {
    match timeframe {
        Timeframe::OneS => "1s"@,
        Timeframe::OneM => "1m"@,
        Timeframe::FiveM => "5m"@,
        Timeframe::FifteenM => "15m"@,
        Timeframe::ThirtyM => "30m"@,
        Timeframe::OneH => "1H"@,
        Timeframe::TwoH => "2H"@,
        Timeframe::FourH => "4H"@,
        Timeframe::OneD => "1Dutc"@,
    }
}

/// The OKX name of a candle period.
pub fn bar(timeframe: Timeframe) -> (name: &'static str)
    ensures
        name@ == spec_bar(timeframe),
{
    match timeframe {
        Timeframe::OneS => "1s",
        Timeframe::OneM => "1m",
        Timeframe::FiveM => "5m",
        Timeframe::FifteenM => "15m",
        Timeframe::ThirtyM => "30m",
        Timeframe::OneH => "1H",
        Timeframe::TwoH => "2H",
        Timeframe::FourH => "4H",
        Timeframe::OneD => "1Dutc",
    }
}

/// The status of a candle as OKX writes it: "0" while open, "1" once closed.
pub open spec fn spec_candle_status(text: Seq<char>) -> Option<CandleStatus> {
    if text == "0"@ {
        Some(CandleStatus::Open)
    } else if text == "1"@ {
        Some(CandleStatus::Close)
    } else {
        None
    }
}

/// The status of a candle as OKX writes it, if it is one.
pub fn candle_status(text: &str) -> (status: Option<CandleStatus>)
    ensures
        status == spec_candle_status(text@),
{
    if str_eq(text, "0") {
        Some(CandleStatus::Open)
    } else if str_eq(text, "1") {
        Some(CandleStatus::Close)
    } else {
        None
    }
}

/// The id of the socket that streams the orders of the account.
pub const ORDERS_SOCKET: &'static str = "orders";

/// The id of the socket that streams the positions of the account.
pub const POSITIONS_SOCKET: &'static str = "position";

/// The prefix of the id of a market data socket.
pub open spec fn spec_socket_prefix(kind: SocketKind) -> Seq<char> {
    match kind {
        SocketKind::Ticks => "mark-price-"@,
        SocketKind::Candles => "candles-"@,
    }
}

/// The id of the socket that streams `kind` data of a pair.
pub open spec fn spec_socket_id(kind: SocketKind, pair: CurrencyPair) -> Seq<char> {
    spec_socket_prefix(kind) + spec_inst_id(pair)
}

/// The id of the socket that streams `kind` data of a pair.
pub fn socket_id(kind: SocketKind, pair: CurrencyPair) -> (id: String)
    ensures
        id@ == spec_socket_id(kind, pair),
{
    let mut id = match kind {
        SocketKind::Ticks => "mark-price-".to_owned(),
        SocketKind::Candles => "candles-".to_owned(),
    };
    let name = inst_id(pair);
    id.append(name.as_str());
    id
}

/// Two pairs never share a socket of one kind.
pub proof fn law_socket_ids_distinct(kind: SocketKind, a: CurrencyPair, b: CurrencyPair)
    requires
        a != b,
    ensures
        spec_socket_id(kind, a) != spec_socket_id(kind, b),
{
    let p = spec_socket_prefix(kind);
    let ida = spec_socket_id(kind, a);
    let idb = spec_socket_id(kind, b);
    if ida == idb {
        assert(ida.subrange(p.len() as int, ida.len() as int) =~= spec_inst_id(a));
        assert(idb.subrange(p.len() as int, idb.len() as int) =~= spec_inst_id(b));
        law_inst_id_round_trip(a);
        law_inst_id_round_trip(b);
    }
}

/// A channel of OKX's business socket: one of the candle channels the
/// adapter subscribes to, or another channel.
#[derive(Clone, Copy, Debug, PartialEq, Eq, Structural)]
pub enum CandleChannel {
    Candle1M,
    Candle5M,
    Candle15M,
    Candle30M,
    Candle1H,
    Candle2H,
    Candle4H,
    Candle1D,
    Other,
}

/// The candle period a channel streams, if it is a candle channel.
pub open spec fn spec_channel_timeframe(channel: CandleChannel) -> Option<Timeframe> {
    match channel {
        CandleChannel::Candle1M => Some(Timeframe::OneM),
        CandleChannel::Candle5M => Some(Timeframe::FiveM),
        CandleChannel::Candle15M => Some(Timeframe::FifteenM),
        CandleChannel::Candle30M => Some(Timeframe::ThirtyM),
        CandleChannel::Candle1H => Some(Timeframe::OneH),
        CandleChannel::Candle2H => Some(Timeframe::TwoH),
        CandleChannel::Candle4H => Some(Timeframe::FourH),
        CandleChannel::Candle1D => Some(Timeframe::OneD),
        CandleChannel::Other => None,
    }
}

/// The candle period a channel streams, if it is a candle channel.
pub fn channel_timeframe(channel: CandleChannel) -> (timeframe: Option<Timeframe>)
    ensures
        timeframe == spec_channel_timeframe(channel),
{
    match channel {
        CandleChannel::Candle1M => Some(Timeframe::OneM),
        CandleChannel::Candle5M => Some(Timeframe::FiveM),
        CandleChannel::Candle15M => Some(Timeframe::FifteenM),
        CandleChannel::Candle30M => Some(Timeframe::ThirtyM),
        CandleChannel::Candle1H => Some(Timeframe::OneH),
        CandleChannel::Candle2H => Some(Timeframe::TwoH),
        CandleChannel::Candle4H => Some(Timeframe::FourH),
        CandleChannel::Candle1D => Some(Timeframe::OneD),
        CandleChannel::Other => None,
    }
}

/// An OKX candle row without its prices and volumes: its start time in
/// milliseconds and its confirmation text.
#[derive(Clone, Debug)]
pub struct CandleRow {
    pub timestamp_millis: i64,
    pub confirm: String,
}

/// The OKX candle of `pair` on `market_type` over `timeframe`, with the
/// timestamp its identifier carries and the status its confirmation text
/// gives.
pub open spec fn spec_candle(
    pair: CurrencyPair,
    market_type: MarketType,
    timeframe: Timeframe,
    id_timestamp: i64,
    confirm: Seq<char>,
) -> CandleShape {
    CandleShape {
        id: CandleId {
            exchange: Exchange::OKX,
            market_type,
            target: pair.target,
            source: pair.source,
            timeframe,
            timestamp: id_timestamp,
        },
        status: spec_candle_status(confirm)->0,
        instrument_id: InstrumentId { exchange: Exchange::OKX, market_type, pair },
        timeframe,
    }
}

/// The candle a row streamed on a candle channel describes; its identifier
/// carries the start time in milliseconds.
pub fn candle_from_stream(
    channel: CandleChannel,
    row: &CandleRow,
    pair: CurrencyPair,
    market_type: MarketType,
) -> (candle: CandleShape)
    requires
        channel != CandleChannel::Other,
        spec_candle_status(row.confirm@) is Some,
    ensures
        candle == spec_candle(
            pair,
            market_type,
            spec_channel_timeframe(channel)->0,
            row.timestamp_millis,
            row.confirm@,
        ),
{
    let timeframe = match channel_timeframe(channel) {
        Some(timeframe) => timeframe,
        None => Timeframe::OneM,
    };
    let status = match candle_status(row.confirm.as_str()) {
        Some(status) => status,
        None => CandleStatus::Open,
    };
    CandleShape {
        id: CandleId {
            exchange: Exchange::OKX,
            market_type,
            target: pair.target,
            source: pair.source,
            timeframe,
            timestamp: row.timestamp_millis,
        },
        status,
        instrument_id: InstrumentId { exchange: Exchange::OKX, market_type, pair },
        timeframe,
    }
}

/// The candles of one message of a candle channel, in message order.
pub fn candles_from_stream(
    channel: CandleChannel,
    rows: &Vec<CandleRow>,
    pair: CurrencyPair,
    market_type: MarketType,
) -> (candles: Vec<CandleShape>)
    requires
        channel != CandleChannel::Other,
        forall|i: int| 0 <= i < rows.len() ==> spec_candle_status((#[trigger] rows[i]).confirm@) is Some,
    ensures
        candles.len() == rows.len(),
        forall|i: int|
            0 <= i < rows.len() ==> #[trigger] candles[i] == spec_candle(
                pair,
                market_type,
                spec_channel_timeframe(channel)->0,
                rows[i].timestamp_millis,
                rows[i].confirm@,
            ),
{
    let mut candles: Vec<CandleShape> = Vec::new();
    let mut i: usize = 0;
    while i < rows.len()
        invariant
            i <= rows.len(),
            channel != CandleChannel::Other,
            forall|k: int| 0 <= k < rows.len() ==> spec_candle_status((#[trigger] rows[k]).confirm@) is Some,
            candles.len() == i,
            forall|k: int|
                0 <= k < i ==> #[trigger] candles[k] == spec_candle(
                    pair,
                    market_type,
                    spec_channel_timeframe(channel)->0,
                    rows[k].timestamp_millis,
                    rows[k].confirm@,
                ),
        decreases rows.len() - i,
    {
        candles.push(candle_from_stream(channel, &rows[i], pair, market_type));
        i = i + 1;
    }
    candles
}

/// Whole seconds of a time in milliseconds, rounded down.
pub fn seconds_of(millis: i64) -> (seconds: i64)
    ensures
        seconds as int == (millis as int) / 1000,
{
    let q = millis / 1000;
    let r = millis % 1000;
    if r < 0 {
        q - 1
    } else {
        q
    }
}

/// The candles of a history answer, which lists the newest first, from the
/// oldest on; their identifiers carry the start time in whole seconds.
pub fn candles_from_history(
    rows: &Vec<CandleRow>,
    pair: CurrencyPair,
    timeframe: Timeframe,
    market_type: MarketType,
) -> (candles: Vec<CandleShape>)
    requires
        forall|i: int| 0 <= i < rows.len() ==> spec_candle_status((#[trigger] rows[i]).confirm@) is Some,
    ensures
        candles.len() == rows.len(),
        forall|i: int|
            0 <= i < rows.len() ==> #[trigger] candles[i] == spec_candle(
                pair,
                market_type,
                timeframe,
                ((rows[rows.len() - 1 - i].timestamp_millis as int) / 1000) as i64,
                rows[rows.len() - 1 - i].confirm@,
            ),
{
    let n = rows.len();
    let mut candles: Vec<CandleShape> = Vec::new();
    let mut i: usize = 0;
    while i < n
        invariant
            n == rows.len(),
            i <= n,
            forall|k: int| 0 <= k < rows.len() ==> spec_candle_status((#[trigger] rows[k]).confirm@) is Some,
            candles.len() == i,
            forall|k: int|
                0 <= k < i ==> #[trigger] candles[k] == spec_candle(
                    pair,
                    market_type,
                    timeframe,
                    ((rows[n - 1 - k].timestamp_millis as int) / 1000) as i64,
                    rows[n - 1 - k].confirm@,
                ),
        decreases n - i,
    {
        let row = &rows[n - 1 - i];
        let status = match candle_status(row.confirm.as_str()) {
            Some(status) => status,
            None => CandleStatus::Open,
        };
        let seconds = seconds_of(row.timestamp_millis);
        candles.push(
            CandleShape {
                id: CandleId {
                    exchange: Exchange::OKX,
                    market_type,
                    target: pair.target,
                    source: pair.source,
                    timeframe,
                    timestamp: seconds,
                },
                status,
                instrument_id: InstrumentId { exchange: Exchange::OKX, market_type, pair },
                timeframe,
            },
        );
        i = i + 1;
    }
    candles
}

/// The candle of the last row of a message of a candle channel, the one a
/// handler that takes a single row keeps.
pub fn candle_from_last_row(
    channel: CandleChannel,
    rows: &Vec<CandleRow>,
    pair: CurrencyPair,
    market_type: MarketType,
) -> (candle: CandleShape)
    requires
        rows.len() > 0,
        channel != CandleChannel::Other,
        spec_candle_status(rows@.last().confirm@) is Some,
    ensures
        candle == spec_candle(
            pair,
            market_type,
            spec_channel_timeframe(channel)->0,
            rows@.last().timestamp_millis,
            rows@.last().confirm@,
        ),
{
    candle_from_stream(channel, &rows[rows.len() - 1], pair, market_type)
}

/// Law: an OKX order is completed exactly when it is filled and carries no
/// stop loss or take profit trigger still to fire; canceled exactly when it
/// is canceled; in progress otherwise (live, partly filled, or filled with a
/// trigger waiting); it is never created or failed.
pub proof fn law_status_meaning(state: OrdState, has_sl_trigger_px: bool, has_tp_trigger_px: bool)
    ensures
        spec_order_status(state, has_sl_trigger_px, has_tp_trigger_px) is Completed <==> (state
            == OrdState::Filled && !has_sl_trigger_px && !has_tp_trigger_px),
        spec_order_status(state, has_sl_trigger_px, has_tp_trigger_px) is Canceled <==> state
            == OrdState::Canceled,
        spec_order_status(state, has_sl_trigger_px, has_tp_trigger_px) is InProgress <==> (state
            == OrdState::Live || state == OrdState::PartiallyFilled || (state == OrdState::Filled && (
        has_sl_trigger_px || has_tp_trigger_px))),
        !(spec_order_status(state, has_sl_trigger_px, has_tp_trigger_px) is Created),
        !(spec_order_status(state, has_sl_trigger_px, has_tp_trigger_px) is Failed),
{
}

/// The number of decimal digits `s` begins with.
pub open spec fn leading_digits(s: Seq<char>) -> nat
    decreases s.len(),
{
    if s.len() > 0 && '0' <= s[0] && s[0] <= '9' {
        1 + leading_digits(s.drop_first())
    } else {
        0
    }
}

/// The length in seconds of one unit of an OKX bar: seconds `s`, minutes
/// `m`, hours `H`, days `D`, weeks `W`, months `M` (of 30 days).
pub open spec fn bar_unit_seconds(unit: char) -> int {
    if unit == 's' {
        1
    } else if unit == 'm' {
        60
    } else if unit == 'H' {
        3600
    } else if unit == 'D' {
        86400
    } else if unit == 'W' {
        604800
    } else if unit == 'M' {
        2592000
    } else {
        0
    }
}

/// The period an OKX bar name stands for, in seconds: a count followed by
/// a unit (a `utc` after the unit only sets where days begin).
pub open spec fn bar_seconds(bar: Seq<char>) -> int {
    let k = leading_digits(bar) as int;
    if k < bar.len() {
        digits_value(bar.take(k)) * bar_unit_seconds(bar[k])
    } else {
        0
    }
}

/// Law: the bar asked of OKX for a candle period names a period of the same
/// length.
pub proof fn law_bar_names_the_period(timeframe: Timeframe)
    ensures
        bar_seconds(spec_bar(timeframe)) == period_seconds(timeframe),
{
    reveal_with_fuel(leading_digits, 4);
    reveal_with_fuel(digits_value, 3);
    assert(seq!['1'].drop_last() =~= Seq::<char>::empty());
    match timeframe {
        Timeframe::OneS => {
            reveal_strlit("1s");
            assert("1s"@.take(1) =~= seq!['1']);
        },
        Timeframe::OneM => {
            reveal_strlit("1m");
            assert("1m"@.take(1) =~= seq!['1']);
        },
        Timeframe::FiveM => {
            reveal_strlit("5m");
            assert("5m"@.take(1) =~= seq!['5']);
        },
        Timeframe::FifteenM => {
            reveal_strlit("15m");
            assert("15m"@.take(2) =~= seq!['1', '5']);
            assert(seq!['1', '5'].drop_last() =~= seq!['1']);
            assert("15m"@.drop_first() =~= seq!['5', 'm']);
            assert(seq!['5', 'm'].drop_first() =~= seq!['m']);
        },
        Timeframe::ThirtyM => {
            reveal_strlit("30m");
            assert("30m"@.take(2) =~= seq!['3', '0']);
            assert(seq!['3', '0'].drop_last() =~= seq!['3']);
            assert("30m"@.drop_first() =~= seq!['0', 'm']);
            assert(seq!['0', 'm'].drop_first() =~= seq!['m']);
        },
        Timeframe::OneH => {
            reveal_strlit("1H");
            assert("1H"@.take(1) =~= seq!['1']);
        },
        Timeframe::TwoH => {
            reveal_strlit("2H");
            assert("2H"@.take(1) =~= seq!['2']);
        },
        Timeframe::FourH => {
            reveal_strlit("4H");
            assert("4H"@.take(1) =~= seq!['4']);
        },
        Timeframe::OneD => {
            reveal_strlit("1Dutc");
            assert("1Dutc"@.take(1) =~= seq!['1']);
            assert("1Dutc"@.drop_first() =~= seq!['D', 'u', 't', 'c']);
        },
    }
}

/// Law: a limit order's size is counted in the target currency; a market
/// order's is counted in the source currency when OKX says `quote_ccy`, in
/// the target currency when it says `base_ccy`, and otherwise in the
/// currency the order spends: the source currency for a buy, the target
/// currency for a sell.
pub proof fn law_size_currency(ord_type: OrdType, tgt_ccy: Seq<char>, side: Side)
    ensures
        ord_type != OrdType::Market ==> spec_size_kind(ord_type, tgt_ccy, side) == SizeKind::Target,
        ord_type == OrdType::Market && tgt_ccy == "quote_ccy"@ ==> spec_size_kind(ord_type, tgt_ccy, side)
            == SizeKind::Source,
        ord_type == OrdType::Market && tgt_ccy == "base_ccy"@ ==> spec_size_kind(ord_type, tgt_ccy, side)
            == SizeKind::Target,
        ord_type == OrdType::Market && tgt_ccy != "quote_ccy"@ && tgt_ccy != "base_ccy"@ ==> (
        spec_size_kind(ord_type, tgt_ccy, side) == SizeKind::Source <==> side == Side::Buy),
{
    reveal_strlit("quote_ccy");
    reveal_strlit("base_ccy");
    assert("base_ccy"@[0] != "quote_ccy"@[0]);
}

/// Law: a linked fill completes the take profit exactly when the order has
/// one and either has no stop loss or the fill lies closer to the take
/// profit; it completes the stop loss exactly when the order has one and
/// does not complete the take profit; with neither trigger it completes
/// none.
pub proof fn law_lp_target_meaning(has_stop_loss: bool, has_take_profit: bool, tp_closer: bool)
    ensures
        spec_lp_target(has_stop_loss, has_take_profit, tp_closer) == LpTarget::TakeProfit <==> (
        has_take_profit && (!has_stop_loss || tp_closer)),
        spec_lp_target(has_stop_loss, has_take_profit, tp_closer) == LpTarget::StopLoss <==> (
        has_stop_loss && !(has_take_profit && tp_closer)),
        spec_lp_target(has_stop_loss, has_take_profit, tp_closer) == LpTarget::Neither <==> (
        !has_stop_loss && !has_take_profit),
{
}

/// Law: an OKX candle is open exactly when its confirmation text is "0"
/// and closed exactly when it is "1"; any other text is no status.
pub proof fn law_candle_status_meaning(text: Seq<char>)
    ensures
        spec_candle_status(text) == Some(CandleStatus::Open) <==> text == seq!['0'],
        spec_candle_status(text) == Some(CandleStatus::Close) <==> text == seq!['1'],
{
    reveal_strlit("0");
    reveal_strlit("1");
    assert("0"@ =~= seq!['0']);
    assert("1"@ =~= seq!['1']);
    assert(seq!['1'][0] != seq!['0'][0]);
}

/// Law: cash trades spot, cross margin names its margin currency, and
/// isolated margin names none; the side is kept.
pub proof fn law_trade_mode_meaning(market_type: OrderMarketType, side: OkxSide)
    ensures
        spec_td_mode(market_type).0 == TdMode::Cash <==> market_type == OrderMarketType::Spot,
        spec_td_mode(market_type).0 == TdMode::Cross <==> market_type is Margin && market_type->0 is Cross,
        spec_td_mode(market_type).1 is Some <==> market_type is Margin && market_type->0 is Cross,
        spec_td_mode(market_type).1 is Some ==> market_type == OrderMarketType::Margin(
            MarginMode::Cross(spec_td_mode(market_type).1->0),
        ),
        (spec_side(side) == Side::Buy) <==> (side == OkxSide::Buy),
{
}

} // verus!
