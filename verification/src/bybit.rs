//! The Bybit adapter's decisions: symbols and socket names, candle
//! intervals, how order reports from Bybit become orders, and how a placed
//! order's response becomes its status. Prices, sizes and fees are read by
//! the adapter from the fields named here.

use vstd::prelude::*;

use crate::domain::{
    CandleId, CandleShape, InstrumentId, MarketType, currency_name, parse_currency, str_eq, Exchange, CandleStatus, Currency, CurrencyPair, MarginMode,
    OrderMarketType, OrderStatus, OrderStatusView, Side, Timeframe,
};
use crate::okx::{record_placed, records, OrderKind, OrderRequest, PlacedOrder, SizeKind};
use crate::domain::period_seconds;
use crate::sockets::SocketKind;

verus! {

/// State of an order as Bybit reports it.
#[derive(Clone, Copy, Debug, PartialEq, Eq, Structural)]
pub enum BybitOrderStatus {
    Created,
    New,
    Rejected,
    PartiallyFilled,
    PartiallyFilledCanceled,
    Filled,
    Cancelled,
    Untriggered,
    Triggered,
    Deactivated,
}

/// Type of an order on Bybit; `Other` stands for the types the platform
/// does not trade.
#[derive(Clone, Copy, Debug, PartialEq, Eq, Structural)]
pub enum BybitOrderType {
    Market,
    Limit,
    Other,
}

/// The parts of a Bybit order report that decide how it becomes an order.
#[derive(Clone, Debug)]
pub struct BybitOrderDetails {
    pub order_link_id: String,
    pub order_status: BybitOrderStatus,
    pub symbol: String,
    pub is_leverage: String,
    pub side: Side,
    pub order_type: BybitOrderType,
}

/// A field of a Bybit order report that holds a quantity.
#[derive(Clone, Copy, Debug, PartialEq, Eq, Structural)]
pub enum QtyField {
    Qty,
    CumExecQty,
    CumExecValue,
}

/// The size of an order: the currency it is counted in, and the report
/// field it is read from.
#[derive(Clone, Copy, Debug, PartialEq, Eq, Structural)]
pub struct SizeField {
    pub kind: SizeKind,
    pub field: QtyField,
}

/// How an order's fee is read: the executed fee as it stands, or times the
/// average fill price.
#[derive(Clone, Copy, Debug, PartialEq, Eq, Structural)]
pub enum FeeRule {
    CumExecFee,
    CumExecFeeTimesAvgPrice,
}

/// An order as decoded from a Bybit report; its price, size, fee and average
/// fill price are read from the report fields this shape names.
#[derive(Clone, Debug)]
pub struct BybitOrderShape {
    pub id: String,
    pub status: OrderStatus,
    pub pair: CurrencyPair,
    pub market_type: OrderMarketType,
    pub side: Side,
    pub order_type: OrderKind,
    pub size: SizeField,
    pub fee: FeeRule,
}

/// The order status of a Bybit order state.
pub open spec fn spec_status(status: BybitOrderStatus) -> OrderStatusView {
    match status {
        BybitOrderStatus::Created | BybitOrderStatus::Untriggered => OrderStatusView::Created,
        BybitOrderStatus::Cancelled | BybitOrderStatus::Deactivated => OrderStatusView::Canceled,
        BybitOrderStatus::New | BybitOrderStatus::PartiallyFilled | BybitOrderStatus::Triggered =>
            OrderStatusView::InProgress,
        BybitOrderStatus::Filled | BybitOrderStatus::PartiallyFilledCanceled =>
            OrderStatusView::Completed,
        BybitOrderStatus::Rejected => OrderStatusView::Failed("Rejected"@),
    }
}

/// The order status of a Bybit order state.
pub fn order_status(status: BybitOrderStatus) -> (result: OrderStatus)
    ensures
        result@ == spec_status(status),
{
    match status {
        BybitOrderStatus::Created | BybitOrderStatus::Untriggered => OrderStatus::Created,
        BybitOrderStatus::Cancelled | BybitOrderStatus::Deactivated => OrderStatus::Canceled,
        BybitOrderStatus::New | BybitOrderStatus::PartiallyFilled | BybitOrderStatus::Triggered =>
            OrderStatus::InProgress,
        BybitOrderStatus::Filled | BybitOrderStatus::PartiallyFilledCanceled =>
            OrderStatus::Completed,
        BybitOrderStatus::Rejected => OrderStatus::Failed("Rejected".to_owned()),
    }
}

/// Whether the currency names at both cuts of a symbol can be read: the
/// first `cut + 1` characters, and what follows them.
pub open spec fn symbol_readable(symbol: Seq<char>, cut: int) -> bool {
    &&& symbol.len() >= cut + 1
    &&& parse_currency(symbol.take(cut + 1)) is Some
    &&& parse_currency(symbol.skip(cut + 1)) is Some
}

/// The pair a symbol names, read at two cuts: the target is the currency
/// named by the first `cut` characters, or else by the first `cut + 1`; the
/// source is the currency named by what follows `cut` characters, or else
/// by what follows `cut + 1`.
pub open spec fn spec_pair_from_symbol(symbol: Seq<char>, cut: int) -> CurrencyPair {
    CurrencyPair {
        target: match parse_currency(symbol.take(cut)) {
            Some(c) => c,
            None => parse_currency(symbol.take(cut + 1))->0,
        },
        source: match parse_currency(symbol.skip(cut)) {
            Some(c) => c,
            None => parse_currency(symbol.skip(cut + 1))->0,
        },
    }
}

/// The pair a symbol names, read at two cuts.
pub fn pair_from_symbol(symbol: &str, cut: usize) -> (pair: CurrencyPair)
    requires
        cut < usize::MAX,
        symbol_readable(symbol@, cut as int),
    ensures
        pair == spec_pair_from_symbol(symbol@, cut as int),
{
    let n = symbol.unicode_len();
    let long_target = match Currency::from_name(symbol.substring_char(0, cut + 1)) {
        Some(c) => c,
        None => Currency::BTC,
    };
    let long_source = match Currency::from_name(symbol.substring_char(cut + 1, n)) {
        Some(c) => c,
        None => Currency::BTC,
    };
    proof {
        assert(symbol@.subrange(0, cut as int + 1) =~= symbol@.take(cut as int + 1));
        assert(symbol@.subrange(cut as int + 1, n as int) =~= symbol@.skip(cut as int + 1));
        assert(symbol@.subrange(0, cut as int) =~= symbol@.take(cut as int));
        assert(symbol@.subrange(cut as int, n as int) =~= symbol@.skip(cut as int));
    }
    let target = match Currency::from_name(symbol.substring_char(0, cut)) {
        Some(c) => c,
        None => long_target,
    };
    let source = match Currency::from_name(symbol.substring_char(cut, n)) {
        Some(c) => c,
        None => long_source,
    };
    CurrencyPair { target, source }
}

/// The size of an order: market buys count the executed quantity in the
/// target currency and market sells the executed value in the source
/// currency; limit buys count the quantity in the source currency and limit
/// sells in the target currency.
pub open spec fn spec_size(order_type: OrderKind, side: Side) -> SizeField {
    match (order_type, side) {
        (OrderKind::Market, Side::Buy) => SizeField { kind: SizeKind::Target, field: QtyField::CumExecQty },
        (OrderKind::Market, Side::Sell) => SizeField { kind: SizeKind::Source, field: QtyField::CumExecValue },
        (OrderKind::Limit, Side::Buy) => SizeField { kind: SizeKind::Source, field: QtyField::Qty },
        (OrderKind::Limit, Side::Sell) => SizeField { kind: SizeKind::Target, field: QtyField::Qty },
    }
}

/// The fee of an order: a buy's fee is counted in the target currency and
/// priced at the average fill price; a sell's is taken as it stands.
pub open spec fn spec_fee(side: Side) -> FeeRule {
    match side {
        Side::Buy => FeeRule::CumExecFeeTimesAvgPrice,
        Side::Sell => FeeRule::CumExecFee,
    }
}

/// The order kind of a traded Bybit order type.
pub open spec fn spec_order_kind(order_type: BybitOrderType) -> OrderKind {
    if order_type == BybitOrderType::Market {
        OrderKind::Market
    } else {
        OrderKind::Limit
    }
}

/// Whether a report with leverage "1" trades on margin.
pub open spec fn is_leveraged(is_leverage: Seq<char>) -> bool {
    is_leverage == "1"@
}

/// Whether a report can be decoded by `convert_order_details_to_order`:
/// the order type is traded and the symbol reads at cut 3.
pub open spec fn decodable(d: BybitOrderDetails) -> bool {
    &&& d.order_type != BybitOrderType::Other
    &&& symbol_readable(d.symbol@, 3)
}

/// The parts of a decoded order, for comparison with a spec.
pub open spec fn shape_parts(o: BybitOrderShape) -> (OrderStatusView, CurrencyPair, OrderMarketType, Side, OrderKind, SizeField, FeeRule) {
    (o.status@, o.pair, o.market_type, o.side, o.order_type, o.size, o.fee)
}

/// The order a report fetched over REST describes: leveraged orders trade
/// on isolated margin.
pub open spec fn spec_rest_order(d: BybitOrderDetails) -> (OrderStatusView, CurrencyPair, OrderMarketType, Side, OrderKind, SizeField, FeeRule) {
    let kind = spec_order_kind(d.order_type);
    (
        spec_status(d.order_status),
        spec_pair_from_symbol(d.symbol@, 3),
        if is_leveraged(d.is_leverage@) {
            OrderMarketType::Margin(MarginMode::Isolated)
        } else {
            OrderMarketType::Spot
        },
        d.side,
        kind,
        spec_size(kind, d.side),
        spec_fee(d.side),
    )
}

/// The decoded order with the given parts.
fn shape(
    d: &BybitOrderDetails,
    pair: CurrencyPair,
    market_type: OrderMarketType,
) -> (order: BybitOrderShape)
    requires
        d.order_type != BybitOrderType::Other,
    ensures
        order.id@ == d.order_link_id@,
        shape_parts(order) == (
            spec_status(d.order_status),
            pair,
            market_type,
            d.side,
            spec_order_kind(d.order_type),
            spec_size(spec_order_kind(d.order_type), d.side),
            spec_fee(d.side),
        ),
{
    let order_type = if d.order_type == BybitOrderType::Market {
        OrderKind::Market
    } else {
        OrderKind::Limit
    };
    let size = match (order_type, d.side) {
        (OrderKind::Market, Side::Buy) => SizeField { kind: SizeKind::Target, field: QtyField::CumExecQty },
        (OrderKind::Market, Side::Sell) => SizeField { kind: SizeKind::Source, field: QtyField::CumExecValue },
        (OrderKind::Limit, Side::Buy) => SizeField { kind: SizeKind::Source, field: QtyField::Qty },
        (OrderKind::Limit, Side::Sell) => SizeField { kind: SizeKind::Target, field: QtyField::Qty },
    };
    let fee = match d.side {
        Side::Buy => FeeRule::CumExecFeeTimesAvgPrice,
        Side::Sell => FeeRule::CumExecFee,
    };
    BybitOrderShape {
        id: d.order_link_id.clone(),
        status: order_status(d.order_status),
        pair,
        market_type,
        side: d.side,
        order_type,
        size,
        fee,
    }
}

/// Decodes a Bybit order report fetched over REST into an order.
pub fn convert_order_details_to_order(item: &BybitOrderDetails) -> (order: BybitOrderShape)
    requires
        decodable(*item),
    ensures
        order.id@ == item.order_link_id@,
        shape_parts(order) == spec_rest_order(*item),
{
    let pair = pair_from_symbol(item.symbol.as_str(), 3);
    let market_type = if str_eq(item.is_leverage.as_str(), "1") {
        OrderMarketType::Margin(MarginMode::Isolated)
    } else {
        OrderMarketType::Spot
    };
    shape(item, pair, market_type)
}

/// Whether the order fetched for `order_id` is it: the first report of the
/// answer carries `order_id` as its link id.
pub fn fetched_order_matches(list: &Vec<BybitOrderDetails>, order_id: &str) -> (found: bool)
    ensures
        found == (list@.len() > 0 && list@[0].order_link_id@ == order_id@),
{
    if list.len() > 0 {
        str_eq(list[0].order_link_id.as_str(), order_id)
    } else {
        false
    }
}

/// The value of a run of decimal digits.
pub open spec fn digits_value(s: Seq<char>) -> int
    decreases s.len(),
{
    if s.len() == 0 {
        0
    } else {
        digits_value(s.drop_last()) * 10 + (s.last() as int - '0' as int)
    }
}

/// Whether every character of `s` is a decimal digit.
pub open spec fn all_digits(s: Seq<char>) -> bool {
    forall|i: int| 0 <= i < s.len() ==> '0' <= #[trigger] s[i] <= '9'
}

/// Whether `text` reads as a `u64` the way the standard library reads one:
/// an optional `+` followed by at least one decimal digit, of a value that
/// fits in 64 bits.
pub open spec fn reads_as_u64(text: Seq<char>) -> bool {
    let digits = if text.len() > 0 && text[0] == '+' {
        text.skip(1)
    } else {
        text
    };
    &&& digits.len() > 0
    &&& all_digits(digits)
    &&& digits_value(digits) <= u64::MAX
}

/// A longer run of digits is worth at least as much as its prefix.
proof fn lemma_digits_value_grows(s: Seq<char>, i: int, j: int)
    requires
        0 <= i <= j <= s.len(),
        all_digits(s),
    ensures
        digits_value(s.take(i)) <= digits_value(s.take(j)),
        digits_value(s.take(i)) >= 0,
    decreases j - i,
{
    if i < j {
        lemma_digits_value_grows(s, i, j - 1);
        assert(s.take(j).drop_last() =~= s.take(j - 1));
        assert(s.take(j).last() == s[j - 1]);
        assert('0' <= s[j - 1] <= '9');
    } else {
        lemma_digits_value_nonnegative(s.take(i));
    }
}

/// A run of digits is worth at least zero.
proof fn lemma_digits_value_nonnegative(s: Seq<char>)
    requires
        all_digits(s),
    ensures
        digits_value(s) >= 0,
    decreases s.len(),
{
    if s.len() > 0 {
        assert(all_digits(s.drop_last())) by {
            assert forall|i: int| 0 <= i < s.drop_last().len() implies '0' <= #[trigger] s.drop_last()[i]
                <= '9' by {
                assert(s.drop_last()[i] == s[i]);
            }
        }
        lemma_digits_value_nonnegative(s.drop_last());
        assert('0' <= s[s.len() - 1] <= '9');
    }
}

/// Whether `text` reads as a `u64`.
pub fn is_u64_text(text: &str) -> (reads: bool)
    ensures
        reads == reads_as_u64(text@),
{
    let n = text.unicode_len();
    let start: usize = if n > 0 && text.get_char(0) == '+' {
        1
    } else {
        0
    };
    let ghost digits = if text@.len() > 0 && text@[0] == '+' {
        text@.skip(1)
    } else {
        text@
    };
    assert(digits =~= text@.skip(start as int));
    assert(reads_as_u64(text@) == (digits.len() > 0 && all_digits(digits) && digits_value(digits)
        <= u64::MAX));
    if start >= n {
        assert(digits.len() == 0);
        return false;
    }
    let mut value: u128 = 0;
    let mut i: usize = start;
    while i < n
        invariant
            start <= i <= n,
            n == text@.len(),
            digits =~= text@.skip(start as int),
            reads_as_u64(text@) == (digits.len() > 0 && all_digits(digits) && digits_value(digits)
                <= u64::MAX),
            all_digits(digits.take(i - start)),
            value as int == digits_value(digits.take(i - start)),
            value <= u64::MAX,
        decreases n - i,
    {
        let c = text.get_char(i);
        let k = i - start;
        assert(digits[k as int] == c);
        if c < '0' || c > '9' {
            assert(!all_digits(digits));
            return false;
        }
        let d = (c as u32 - '0' as u32) as u128;
        let next = value * 10 + d;
        proof {
            assert(digits.take(k + 1).drop_last() =~= digits.take(k as int));
            assert(digits.take(k + 1).last() == c);
            assert(all_digits(digits.take(k + 1))) by {
                assert forall|j: int| 0 <= j < k + 1 implies '0' <= #[trigger] digits.take(k + 1)[j]
                    <= '9' by {
                    if j < k {
                        assert(digits.take(k + 1)[j] == digits.take(k as int)[j]);
                    }
                }
            }
        }
        assert(next as int == digits_value(digits.take(k + 1)));
        if next > 18446744073709551615u128 {
            proof {
                let len = digits.len() as int;
                if all_digits(digits) {
                    lemma_digits_value_grows(digits, k + 1, len);
                    assert(digits.take(len) =~= digits);
                    assert(digits_value(digits) > u64::MAX);
                }
            }
            return false;
        }
        value = next;
        i = i + 1;
    }
    proof {
        assert(digits.take(n - start) =~= digits);
    }
    true
}

/// Decodes the reports of an order update, skipping those whose link id
/// reads as a number: those orders were not placed by the platform.
pub open spec fn kept_updates(s: Seq<BybitOrderDetails>) -> Seq<BybitOrderDetails> {
    s.filter(|d: BybitOrderDetails| !reads_as_u64(d.order_link_id@))
}

/// The order a report streamed over the socket describes: leveraged orders
/// trade on cross margin in the source currency.
pub open spec fn spec_update_order(d: BybitOrderDetails) -> (OrderStatusView, CurrencyPair, OrderMarketType, Side, OrderKind, SizeField, FeeRule) {
    let kind = spec_order_kind(d.order_type);
    let pair = spec_pair_from_symbol(d.symbol@, 2);
    (
        spec_status(d.order_status),
        pair,
        if is_leveraged(d.is_leverage@) {
            OrderMarketType::Margin(MarginMode::Cross(pair.source))
        } else {
            OrderMarketType::Spot
        },
        d.side,
        kind,
        spec_size(kind, d.side),
        spec_fee(d.side),
    )
}

/// Whether an update report the platform placed can be decoded: the order
/// type is traded and the symbol reads at cut 2.
pub open spec fn update_decodable(d: BybitOrderDetails) -> bool {
    &&& d.order_type != BybitOrderType::Other
    &&& symbol_readable(d.symbol@, 2)
}

/// Decodes the reports of an order update streamed over the socket.
pub fn convert_data(data: &Vec<BybitOrderDetails>) -> (orders: Vec<BybitOrderShape>)
    requires
        forall|i: int|
            0 <= i < data.len() && !reads_as_u64((#[trigger] data[i]).order_link_id@) ==> update_decodable(
                data[i],
            ),
    ensures
        orders.len() == kept_updates(data@).len(),
        forall|i: int|
            0 <= i < orders.len() ==> (#[trigger] orders[i]).id@ == kept_updates(data@)[i].order_link_id@
                && shape_parts(orders[i]) == spec_update_order(kept_updates(data@)[i]),
{
    let mut orders: Vec<BybitOrderShape> = Vec::new();
    let mut i: usize = 0;
    while i < data.len()
        invariant
            i <= data.len(),
            forall|k: int|
                0 <= k < data.len() && !reads_as_u64((#[trigger] data[k]).order_link_id@)
                    ==> update_decodable(data[k]),
            orders.len() == kept_updates(data@.take(i as int)).len(),
            forall|k: int|
                0 <= k < orders.len() ==> (#[trigger] orders[k]).id@ == kept_updates(
                    data@.take(i as int),
                )[k].order_link_id@ && shape_parts(orders[k]) == spec_update_order(
                    kept_updates(data@.take(i as int))[k],
                ),
        decreases data.len() - i,
    {
        let d = &data[i];
        proof {
            reveal(Seq::filter);
            assert(data@.take(i as int + 1).drop_last() =~= data@.take(i as int));
            assert(data@.take(i as int + 1).last() == data@[i as int]);
        }
        if !is_u64_text(d.order_link_id.as_str()) {
            let pair = pair_from_symbol(d.symbol.as_str(), 2);
            let market_type = if str_eq(d.is_leverage.as_str(), "1") {
                OrderMarketType::Margin(MarginMode::Cross(pair.source))
            } else {
                OrderMarketType::Spot
            };
            orders.push(shape(d, pair, market_type));
        }
        i = i + 1;
    }
    proof {
        assert(data@.take(data@.len() as int) =~= data@);
    }
    orders
}

/// The Bybit symbol of a pair: the two ticker symbols run together.
pub open spec fn spec_symbol(pair: CurrencyPair) -> Seq<char> {
    currency_name(pair.target) + currency_name(pair.source)
}

/// The Bybit symbol of a pair.
pub fn symbol(pair: CurrencyPair) -> (name: String)
    ensures
        name@ == spec_symbol(pair),
{
    let mut name = pair.target.name().to_owned();
    name.append(pair.source.name());
    name
}

/// The id of the socket that streams the orders of the account.
pub const ORDERS_SOCKET: &'static str = "orders";

/// The prefix of the id of a market data socket.
pub open spec fn spec_socket_prefix(kind: SocketKind) -> Seq<char> {
    match kind {
        SocketKind::Ticks => "ticks-"@,
        SocketKind::Candles => "candles-"@,
    }
}

/// The id of the socket that streams `kind` data of a pair.
pub open spec fn spec_socket_id(kind: SocketKind, pair: CurrencyPair) -> Seq<char> {
    spec_socket_prefix(kind) + spec_symbol(pair)
}

/// The id of the socket that streams `kind` data of a pair.
pub fn socket_id(kind: SocketKind, pair: CurrencyPair) -> (id: String)
    ensures
        id@ == spec_socket_id(kind, pair),
{
    let mut id = match kind {
        SocketKind::Ticks => "ticks-".to_owned(),
        SocketKind::Candles => "candles-".to_owned(),
    };
    let name = symbol(pair);
    id.append(name.as_str());
    id
}

/// The Bybit name of a candle interval; Bybit has no one-second candles.
pub open spec fn spec_interval(timeframe: Timeframe) -> Seq<char> {
    match timeframe {
        Timeframe::OneS => Seq::empty(),
        Timeframe::OneM => "1"@,
        Timeframe::FiveM => "5"@,
        Timeframe::FifteenM => "15"@,
        Timeframe::ThirtyM => "30"@,
        Timeframe::OneH => "60"@,
        Timeframe::TwoH => "120"@,
        Timeframe::FourH => "240"@,
        Timeframe::OneD => "D"@,
    }
}

/// The Bybit name of a candle interval.
pub fn interval(timeframe: Timeframe) -> (name: &'static str)
    requires
        timeframe != Timeframe::OneS,
    ensures
        name@ == spec_interval(timeframe),
{
    match timeframe {
        Timeframe::OneS => "",
        Timeframe::OneM => "1",
        Timeframe::FiveM => "5",
        Timeframe::FifteenM => "15",
        Timeframe::ThirtyM => "30",
        Timeframe::OneH => "60",
        Timeframe::TwoH => "120",
        Timeframe::FourH => "240",
        Timeframe::OneD => "D",
    }
}

/// The candle period a Bybit interval name stands for, if any.
pub open spec fn spec_timeframe_of(name: Seq<char>) -> Option<Timeframe> {
    if name == "1"@ {
        Some(Timeframe::OneM)
    } else if name == "5"@ {
        Some(Timeframe::FiveM)
    } else if name == "15"@ {
        Some(Timeframe::FifteenM)
    } else if name == "30"@ {
        Some(Timeframe::ThirtyM)
    } else if name == "60"@ {
        Some(Timeframe::OneH)
    } else if name == "120"@ {
        Some(Timeframe::TwoH)
    } else if name == "240"@ {
        Some(Timeframe::FourH)
    } else if name == "D"@ {
        Some(Timeframe::OneD)
    } else {
        None
    }
}

/// The candle period a Bybit interval name stands for, if any.
pub fn timeframe_of(name: &str) -> (timeframe: Option<Timeframe>)
    ensures
        timeframe == spec_timeframe_of(name@),
{
    if str_eq(name, "1") {
        Some(Timeframe::OneM)
    } else if str_eq(name, "5") {
        Some(Timeframe::FiveM)
    } else if str_eq(name, "15") {
        Some(Timeframe::FifteenM)
    } else if str_eq(name, "30") {
        Some(Timeframe::ThirtyM)
    } else if str_eq(name, "60") {
        Some(Timeframe::OneH)
    } else if str_eq(name, "120") {
        Some(Timeframe::TwoH)
    } else if str_eq(name, "240") {
        Some(Timeframe::FourH)
    } else if str_eq(name, "D") {
        Some(Timeframe::OneD)
    } else {
        None
    }
}

/// Reading back the interval name of a candle period gives the period.
pub proof fn law_interval_round_trip(timeframe: Timeframe)
    requires
        timeframe != Timeframe::OneS,
    ensures
        spec_timeframe_of(spec_interval(timeframe)) == Some(timeframe),
{
    match timeframe {
        Timeframe::OneS => {},
        Timeframe::OneM => {
            reveal_strlit("1");
        },
        Timeframe::FiveM => {
            reveal_strlit("5");
            reveal_strlit("1");
            assert("5"@ != "1"@) by { if "5"@.len() == "1"@.len() { assert("5"@[0] != "1"@[0]); } }
        },
        Timeframe::FifteenM => {
            reveal_strlit("15");
            reveal_strlit("1");
            assert("15"@ != "1"@) by { if "15"@.len() == "1"@.len() { assert("15"@[0] != "1"@[0]); } }
            reveal_strlit("5");
            assert("15"@ != "5"@) by { if "15"@.len() == "5"@.len() { assert("15"@[0] != "5"@[0]); } }
        },
        Timeframe::ThirtyM => {
            reveal_strlit("30");
            reveal_strlit("1");
            assert("30"@ != "1"@) by { if "30"@.len() == "1"@.len() { assert("30"@[0] != "1"@[0]); } }
            reveal_strlit("5");
            assert("30"@ != "5"@) by { if "30"@.len() == "5"@.len() { assert("30"@[0] != "5"@[0]); } }
            reveal_strlit("15");
            assert("30"@ != "15"@) by { if "30"@.len() == "15"@.len() { assert("30"@[0] != "15"@[0]); } }
        },
        Timeframe::OneH => {
            reveal_strlit("60");
            reveal_strlit("1");
            assert("60"@ != "1"@) by { if "60"@.len() == "1"@.len() { assert("60"@[0] != "1"@[0]); } }
            reveal_strlit("5");
            assert("60"@ != "5"@) by { if "60"@.len() == "5"@.len() { assert("60"@[0] != "5"@[0]); } }
            reveal_strlit("15");
            assert("60"@ != "15"@) by { if "60"@.len() == "15"@.len() { assert("60"@[0] != "15"@[0]); } }
            reveal_strlit("30");
            assert("60"@ != "30"@) by { if "60"@.len() == "30"@.len() { assert("60"@[0] != "30"@[0]); } }
        },
        Timeframe::TwoH => {
            reveal_strlit("120");
            reveal_strlit("1");
            assert("120"@ != "1"@) by { if "120"@.len() == "1"@.len() { assert("120"@[0] != "1"@[0]); } }
            reveal_strlit("5");
            assert("120"@ != "5"@) by { if "120"@.len() == "5"@.len() { assert("120"@[0] != "5"@[0]); } }
            reveal_strlit("15");
            assert("120"@ != "15"@) by { if "120"@.len() == "15"@.len() { assert("120"@[0] != "15"@[0]); } }
            reveal_strlit("30");
            assert("120"@ != "30"@) by { if "120"@.len() == "30"@.len() { assert("120"@[0] != "30"@[0]); } }
            reveal_strlit("60");
            assert("120"@ != "60"@) by { if "120"@.len() == "60"@.len() { assert("120"@[0] != "60"@[0]); } }
        },
        Timeframe::FourH => {
            reveal_strlit("240");
            reveal_strlit("1");
            assert("240"@ != "1"@) by { if "240"@.len() == "1"@.len() { assert("240"@[0] != "1"@[0]); } }
            reveal_strlit("5");
            assert("240"@ != "5"@) by { if "240"@.len() == "5"@.len() { assert("240"@[0] != "5"@[0]); } }
            reveal_strlit("15");
            assert("240"@ != "15"@) by { if "240"@.len() == "15"@.len() { assert("240"@[0] != "15"@[0]); } }
            reveal_strlit("30");
            assert("240"@ != "30"@) by { if "240"@.len() == "30"@.len() { assert("240"@[0] != "30"@[0]); } }
            reveal_strlit("60");
            assert("240"@ != "60"@) by { if "240"@.len() == "60"@.len() { assert("240"@[0] != "60"@[0]); } }
            reveal_strlit("120");
            assert("240"@ != "120"@) by { if "240"@.len() == "120"@.len() { assert("240"@[0] != "120"@[0]); } }
        },
        Timeframe::OneD => {
            reveal_strlit("D");
            reveal_strlit("1");
            assert("D"@ != "1"@) by { if "D"@.len() == "1"@.len() { assert("D"@[0] != "1"@[0]); } }
            reveal_strlit("5");
            assert("D"@ != "5"@) by { if "D"@.len() == "5"@.len() { assert("D"@[0] != "5"@[0]); } }
            reveal_strlit("15");
            assert("D"@ != "15"@) by { if "D"@.len() == "15"@.len() { assert("D"@[0] != "15"@[0]); } }
            reveal_strlit("30");
            assert("D"@ != "30"@) by { if "D"@.len() == "30"@.len() { assert("D"@[0] != "30"@[0]); } }
            reveal_strlit("60");
            assert("D"@ != "60"@) by { if "D"@.len() == "60"@.len() { assert("D"@[0] != "60"@[0]); } }
            reveal_strlit("120");
            assert("D"@ != "120"@) by { if "D"@.len() == "120"@.len() { assert("D"@[0] != "120"@[0]); } }
            reveal_strlit("240");
            assert("D"@ != "240"@) by { if "D"@.len() == "240"@.len() { assert("D"@[0] != "240"@[0]); } }
        },
    }
}

/// The status of a streamed candle: closed once Bybit confirms it.
pub fn candle_status(confirm: bool) -> (status: CandleStatus)
    ensures
        status == (if confirm {
            CandleStatus::Close
        } else {
            CandleStatus::Open
        }),
{
    if confirm {
        CandleStatus::Close
    } else {
        CandleStatus::Open
    }
}

/// The fields of a Bybit order request that do not hold a size.
#[derive(Clone, Debug)]
pub struct PlaceOrderFields {
    pub order_link_id: String,
    pub symbol: String,
    pub side: Side,
    /// Whether the order borrows: it trades on margin.
    pub is_leveraged: bool,
}

/// The fields of the request that places the market order `id`; Bybit
/// orders are placed as market orders only.
pub fn place_order_fields(
    id: &str,
    pair: CurrencyPair,
    market_type: OrderMarketType,
    side: Side,
    order_type: OrderKind,
) -> (fields: PlaceOrderFields)
    requires
        order_type == OrderKind::Market,
    ensures
        fields.order_link_id@ == id@,
        fields.symbol@ == spec_symbol(pair),
        fields.side == side,
        fields.is_leveraged == (market_type is Margin),
{
    let is_leveraged = match market_type {
        OrderMarketType::Spot => false,
        OrderMarketType::Margin(_) => true,
    };
    PlaceOrderFields { order_link_id: id.to_owned(), symbol: symbol(pair), side, is_leveraged }
}

/// The status of an order just placed: failed with the error's message if
/// the request failed, else created.
pub fn placed_order_status(error: Option<String>) -> (status: OrderStatus)
    ensures
        status@ == match error {
            Some(message) => OrderStatusView::Failed(message@),
            None => OrderStatusView::Created,
        },
{
    match error {
        Some(message) => OrderStatus::Failed(message),
        None => OrderStatus::Created,
    }
}

/// The number of decimals a price in `currency` is rounded to on Bybit.
pub open spec fn spec_price_decimals(currency: Currency) -> u32 {
    match currency {
        Currency::BTC | Currency::ETH | Currency::SOL | Currency::LTC => 2,
        Currency::ARB | Currency::DOT | Currency::FIL => 3,
        _ => 4,
    }
}

/// The number of decimals a price in `currency` is rounded to on Bybit.
pub fn price_decimals(currency: Currency) -> (decimals: u32)
    ensures
        decimals == spec_price_decimals(currency),
{
    match currency {
        Currency::BTC | Currency::ETH | Currency::SOL | Currency::LTC => 2,
        Currency::ARB | Currency::DOT | Currency::FIL => 3,
        _ => 4,
    }
}

/// The number of decimals a quantity of `currency` is rounded to on Bybit.
pub open spec fn spec_qty_decimals(currency: Currency) -> u32 {
    match currency {
        Currency::XLM | Currency::DOGE => 1,
        Currency::XRP | Currency::SUI | Currency::TRX | Currency::MANA | Currency::SAND
        | Currency::MATIC | Currency::OP | Currency::WLD | Currency::ARB | Currency::ADA
        | Currency::APE | Currency::APEX | Currency::APT | Currency::CHZ | Currency::EOS
        | Currency::FIL | Currency::GMT | Currency::HFT | Currency::ICP | Currency::LDO => 2,
        Currency::SOL | Currency::AVAX | Currency::LINK | Currency::DOT => 3,
        Currency::LTC => 5,
        Currency::BTC | Currency::ETH => 6,
        _ => 4,
    }
}

/// The number of decimals a quantity of `currency` is rounded to on Bybit.
pub fn qty_decimals(currency: Currency) -> (decimals: u32)
    ensures
        decimals == spec_qty_decimals(currency),
{
    match currency {
        Currency::XLM | Currency::DOGE => 1,
        Currency::XRP | Currency::SUI | Currency::TRX | Currency::MANA | Currency::SAND
        | Currency::MATIC | Currency::OP | Currency::WLD | Currency::ARB | Currency::ADA
        | Currency::APE | Currency::APEX | Currency::APT | Currency::CHZ | Currency::EOS
        | Currency::FIL | Currency::GMT | Currency::HFT | Currency::ICP | Currency::LDO => 2,
        Currency::SOL | Currency::AVAX | Currency::LINK | Currency::DOT => 3,
        Currency::LTC => 5,
        Currency::BTC | Currency::ETH => 6,
        _ => 4,
    }
}

/// The record of an order placed on Bybit: failed with the error's message
/// if the request failed, else created.
pub fn placed_order(request: &OrderRequest, error: Option<String>) -> (placed: PlacedOrder)
    ensures
        records(
            placed,
            *request,
            Exchange::BYBIT,
            match error {
                Some(message) => OrderStatusView::Failed(message@),
                None => OrderStatusView::Created,
            },
        ),
{
    let status = placed_order_status(error);
    record_placed(request, Exchange::BYBIT, status)
}

/// The Bybit candle of `pair` on `market_type` over `timeframe` that starts
/// at `start` milliseconds, with `status`.
pub open spec fn spec_candle(
    pair: CurrencyPair,
    market_type: MarketType,
    timeframe: Timeframe,
    start: i64,
    status: CandleStatus,
) -> CandleShape {
    CandleShape {
        id: CandleId {
            exchange: Exchange::BYBIT,
            market_type,
            target: pair.target,
            source: pair.source,
            timeframe,
            timestamp: start,
        },
        status,
        instrument_id: InstrumentId { exchange: Exchange::BYBIT, market_type, pair },
        timeframe,
    }
}

/// The Bybit candle of `pair` that starts at `start`.
fn candle(pair: CurrencyPair, market_type: MarketType, timeframe: Timeframe, start: i64, status: CandleStatus) -> (c: CandleShape)
    ensures
        c == spec_candle(pair, market_type, timeframe, start, status),
{
    CandleShape {
        id: CandleId {
            exchange: Exchange::BYBIT,
            market_type,
            target: pair.target,
            source: pair.source,
            timeframe,
            timestamp: start,
        },
        status,
        instrument_id: InstrumentId { exchange: Exchange::BYBIT, market_type, pair },
        timeframe,
    }
}

/// The candles of a history answer, given by their start times in
/// milliseconds, newest first: from the oldest on, each closed.
pub fn candles_from_history(
    starts: &Vec<i64>,
    pair: CurrencyPair,
    timeframe: Timeframe,
    market_type: MarketType,
) -> (candles: Vec<CandleShape>)
    ensures
        candles.len() == starts.len(),
        forall|i: int|
            0 <= i < starts.len() ==> #[trigger] candles[i] == spec_candle(
                pair,
                market_type,
                timeframe,
                starts[starts.len() - 1 - i],
                CandleStatus::Close,
            ),
{
    let n = starts.len();
    let mut candles: Vec<CandleShape> = Vec::new();
    let mut i: usize = 0;
    while i < n
        invariant
            n == starts.len(),
            i <= n,
            candles.len() == i,
            forall|k: int|
                0 <= k < i ==> #[trigger] candles[k] == spec_candle(
                    pair,
                    market_type,
                    timeframe,
                    starts[n - 1 - k],
                    CandleStatus::Close,
                ),
        decreases n - i,
    {
        candles.push(candle(pair, market_type, timeframe, starts[n - 1 - i], CandleStatus::Close));
        i = i + 1;
    }
    candles
}

/// A candle streamed by Bybit, without its prices and volumes: its interval
/// name, start time in milliseconds and whether Bybit confirmed it.
#[derive(Clone, Debug)]
pub struct StreamedCandle {
    pub interval: String,
    pub start: i64,
    pub confirm: bool,
}

/// The candles of a streamed message, in message order: each over the
/// period its interval names, closed once confirmed.
pub fn candles_from_stream(
    items: &Vec<StreamedCandle>,
    pair: CurrencyPair,
    market_type: MarketType,
) -> (candles: Vec<CandleShape>)
    requires
        forall|i: int| 0 <= i < items.len() ==> spec_timeframe_of((#[trigger] items[i]).interval@) is Some,
    ensures
        candles.len() == items.len(),
        forall|i: int|
            0 <= i < items.len() ==> #[trigger] candles[i] == spec_candle(
                pair,
                market_type,
                spec_timeframe_of(items[i].interval@)->0,
                items[i].start,
                if items[i].confirm {
                    CandleStatus::Close
                } else {
                    CandleStatus::Open
                },
            ),
{
    let mut candles: Vec<CandleShape> = Vec::new();
    let mut i: usize = 0;
    while i < items.len()
        invariant
            i <= items.len(),
            forall|k: int| 0 <= k < items.len() ==> spec_timeframe_of((#[trigger] items[k]).interval@) is Some,
            candles.len() == i,
            forall|k: int|
                0 <= k < i ==> #[trigger] candles[k] == spec_candle(
                    pair,
                    market_type,
                    spec_timeframe_of(items[k].interval@)->0,
                    items[k].start,
                    if items[k].confirm {
                        CandleStatus::Close
                    } else {
                        CandleStatus::Open
                    },
                ),
        decreases items.len() - i,
    {
        let item = &items[i];
        let timeframe = match timeframe_of(item.interval.as_str()) {
            Some(timeframe) => timeframe,
            None => Timeframe::OneM,
        };
        candles.push(candle(pair, market_type, timeframe, item.start, candle_status(item.confirm)));
        i = i + 1;
    }
    candles
}

/// Law: a Bybit order is completed exactly when it is filled, or partly
/// filled and then cancelled; canceled exactly when it is cancelled or
/// deactivated; in progress exactly when it is new, partly filled or
/// triggered; created exactly when it is created or untriggered; and failed,
/// with the message "Rejected", exactly when it is rejected.
pub proof fn law_status_meaning(status: BybitOrderStatus)
    ensures
        spec_status(status) is Completed <==> (status == BybitOrderStatus::Filled || status
            == BybitOrderStatus::PartiallyFilledCanceled),
        spec_status(status) is Canceled <==> (status == BybitOrderStatus::Cancelled || status
            == BybitOrderStatus::Deactivated),
        spec_status(status) is InProgress <==> (status == BybitOrderStatus::New || status
            == BybitOrderStatus::PartiallyFilled || status == BybitOrderStatus::Triggered),
        spec_status(status) is Created <==> (status == BybitOrderStatus::Created || status
            == BybitOrderStatus::Untriggered),
        spec_status(status) is Failed <==> status == BybitOrderStatus::Rejected,
        spec_status(status) is Failed ==> spec_status(status)->Failed_0 == "Rejected"@,
{
}

/// The period a Bybit interval name stands for, in seconds: a number of
/// minutes, or `D`, `W` or `M` for a day, a week or a month (of 30 days).
pub open spec fn interval_seconds(name: Seq<char>) -> int {
    if name == "D"@ {
        86400
    } else if name == "W"@ {
        604800
    } else if name == "M"@ {
        2592000
    } else if name.len() > 0 && all_digits(name) {
        digits_value(name) * 60
    } else {
        0
    }
}

/// Law: the interval asked of Bybit for a candle period names a period of
/// the same length.
pub proof fn law_interval_names_the_period(timeframe: Timeframe)
    requires
        timeframe != Timeframe::OneS,
    ensures
        interval_seconds(spec_interval(timeframe)) == period_seconds(timeframe),
{
    reveal_with_fuel(digits_value, 4);
    reveal_strlit("D");
    reveal_strlit("W");
    reveal_strlit("M");
    assert(seq!['1'].drop_last() =~= Seq::<char>::empty());
    match timeframe {
        Timeframe::OneS => {},
        Timeframe::OneM => {
            reveal_strlit("1");
            assert("1"@ =~= seq!['1']);
            assert(all_digits(seq!['1'])) by {
                    assert(seq!['1'][0] == '1');
            }
        },
        Timeframe::FiveM => {
            reveal_strlit("5");
            assert("5"@ =~= seq!['5']);
            assert(all_digits(seq!['5'])) by {
                    assert(seq!['5'][0] == '5');
            }
            assert(seq!['5'].drop_last() =~= Seq::<char>::empty());
        },
        Timeframe::FifteenM => {
            reveal_strlit("15");
            assert("15"@ =~= seq!['1', '5']);
            assert(all_digits(seq!['1', '5'])) by {
                    assert(seq!['1', '5'][0] == '1');
                    assert(seq!['1', '5'][1] == '5');
            }
            assert(seq!['1', '5'].drop_last() =~= seq!['1']);
        },
        Timeframe::ThirtyM => {
            reveal_strlit("30");
            assert("30"@ =~= seq!['3', '0']);
            assert(all_digits(seq!['3', '0'])) by {
                    assert(seq!['3', '0'][0] == '3');
                    assert(seq!['3', '0'][1] == '0');
            }
            assert(seq!['3', '0'].drop_last() =~= seq!['3']);
            assert(seq!['3'].drop_last() =~= Seq::<char>::empty());
        },
        Timeframe::OneH => {
            reveal_strlit("60");
            assert("60"@ =~= seq!['6', '0']);
            assert(all_digits(seq!['6', '0'])) by {
                    assert(seq!['6', '0'][0] == '6');
                    assert(seq!['6', '0'][1] == '0');
            }
            assert(seq!['6', '0'].drop_last() =~= seq!['6']);
            assert(seq!['6'].drop_last() =~= Seq::<char>::empty());
        },
        Timeframe::TwoH => {
            reveal_strlit("120");
            assert("120"@ =~= seq!['1', '2', '0']);
            assert(all_digits(seq!['1', '2', '0'])) by {
                    assert(seq!['1', '2', '0'][0] == '1');
                    assert(seq!['1', '2', '0'][1] == '2');
                    assert(seq!['1', '2', '0'][2] == '0');
            }
            assert(seq!['1', '2', '0'].drop_last() =~= seq!['1', '2']);
            assert(seq!['1', '2'].drop_last() =~= seq!['1']);
        },
        Timeframe::FourH => {
            reveal_strlit("240");
            assert("240"@ =~= seq!['2', '4', '0']);
            assert(all_digits(seq!['2', '4', '0'])) by {
                    assert(seq!['2', '4', '0'][0] == '2');
                    assert(seq!['2', '4', '0'][1] == '4');
                    assert(seq!['2', '4', '0'][2] == '0');
            }
            assert(seq!['2', '4', '0'].drop_last() =~= seq!['2', '4']);
            assert(seq!['2', '4'].drop_last() =~= seq!['2']);
            assert(seq!['2'].drop_last() =~= Seq::<char>::empty());
        },
        Timeframe::OneD => {},
    }
}

/// Law: a market order's size is what was executed: the quantity bought
/// in the target currency for a buy, the value sold in the source currency
/// for a sell; a limit order's size is its quantity, in the source currency
/// for a buy and the target currency for a sell. A buy's fee is priced at
/// the average fill price; a sell's is taken as it stands.
pub proof fn law_size_and_fee_meaning(order_type: OrderKind, side: Side)
    ensures
        order_type == OrderKind::Market ==> (spec_size(order_type, side).field != QtyField::Qty),
        order_type == OrderKind::Limit ==> spec_size(order_type, side).field == QtyField::Qty,
        order_type == OrderKind::Market && side == Side::Buy ==> spec_size(order_type, side) == (SizeField {
            kind: SizeKind::Target,
            field: QtyField::CumExecQty,
        }),
        order_type == OrderKind::Market && side == Side::Sell ==> spec_size(order_type, side) == (SizeField {
            kind: SizeKind::Source,
            field: QtyField::CumExecValue,
        }),
        order_type == OrderKind::Limit ==> (spec_size(order_type, side).kind == SizeKind::Source <==> side
            == Side::Buy),
        spec_fee(side) == FeeRule::CumExecFeeTimesAvgPrice <==> side == Side::Buy,
{
}

} // verus!
