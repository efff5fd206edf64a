//! The typed events of the feed and their decoding from JSON bodies.
//!
//! A body decodes into an event when every field of the event is present
//! under its wire key with the right kind of value. Keys that the event does
//! not know are passed over.

use vstd::prelude::*;

use crate::json::Json;

verus! {

/// A ticker update: best prices and day statistics of one pair.
///
/// Prices and amounts stay decimal strings, exactly as the feed wrote them.
#[derive(Debug, Clone)]
pub struct TickerEvent {
    pub type_field: i32,
    pub channel: String,
    pub event: String,
    pub bid: String,
    pub ask: String,
    pub bid_amount: String,
    pub ask_amount: String,
    pub pair_symbol: String,
    pub high: String,
    pub low: String,
    pub last: String,
    pub open: String,
    pub volume: String,
    pub average: String,
    pub change_amount: String,
    pub change_percent: String,
    pub denominator_symbol: String,
    pub numerator_symbol: String,
    pub pair_id: i32,
}

/// What a [`TickerEvent`] holds.
pub ghost struct TickerView {
    pub type_field: i32,
    pub channel: Seq<char>,
    pub event: Seq<char>,
    pub bid: Seq<char>,
    pub ask: Seq<char>,
    pub bid_amount: Seq<char>,
    pub ask_amount: Seq<char>,
    pub pair_symbol: Seq<char>,
    pub high: Seq<char>,
    pub low: Seq<char>,
    pub last: Seq<char>,
    pub open: Seq<char>,
    pub volume: Seq<char>,
    pub average: Seq<char>,
    pub change_amount: Seq<char>,
    pub change_percent: Seq<char>,
    pub denominator_symbol: Seq<char>,
    pub numerator_symbol: Seq<char>,
    pub pair_id: i32,
}

impl View for TickerEvent {
    type V = TickerView;

    open spec fn view(&self) -> TickerView {
        TickerView {
            type_field: self.type_field,
            channel: self.channel@,
            event: self.event@,
            bid: self.bid@,
            ask: self.ask@,
            bid_amount: self.bid_amount@,
            ask_amount: self.ask_amount@,
            pair_symbol: self.pair_symbol@,
            high: self.high@,
            low: self.low@,
            last: self.last@,
            open: self.open@,
            volume: self.volume@,
            average: self.average@,
            change_amount: self.change_amount@,
            change_percent: self.change_percent@,
            denominator_symbol: self.denominator_symbol@,
            numerator_symbol: self.numerator_symbol@,
            pair_id: self.pair_id,
        }
    }
}

/// One level of an order book.
#[derive(Debug, Clone)]
pub struct OrderBookOrder {
    pub amount: String,
    pub price: String,
}

/// What an [`OrderBookOrder`] holds.
pub ghost struct OrderView {
    pub amount: Seq<char>,
    pub price: Seq<char>,
}

impl View for OrderBookOrder {
    type V = OrderView;

    open spec fn view(&self) -> OrderView {
        OrderView { amount: self.amount@, price: self.price@ }
    }
}

/// The levels that a sequence of orders holds, in the same order.
pub open spec fn orders_view(orders: Seq<OrderBookOrder>) -> Seq<OrderView> {
    Seq::new(orders.len(), |i: int| orders[i]@)
}

/// An order-book update: the bid and ask levels of one pair.
#[derive(Debug, Clone)]
pub struct OrderBookEvent {
    pub type_field: i32,
    pub channel: String,
    pub event: String,
    pub pair_symbol: String,
    pub change_seq: Option<i64>,
    pub asks: Vec<OrderBookOrder>,
    pub bids: Vec<OrderBookOrder>,
}

/// What an [`OrderBookEvent`] holds.
pub ghost struct OrderBookView {
    pub type_field: i32,
    pub channel: Seq<char>,
    pub event: Seq<char>,
    pub pair_symbol: Seq<char>,
    pub change_seq: Option<i64>,
    pub asks: Seq<OrderView>,
    pub bids: Seq<OrderView>,
}

impl View for OrderBookEvent {
    type V = OrderBookView;

    open spec fn view(&self) -> OrderBookView {
        OrderBookView {
            type_field: self.type_field,
            channel: self.channel@,
            event: self.event@,
            pair_symbol: self.pair_symbol@,
            change_seq: self.change_seq,
            asks: orders_view(self.asks@),
            bids: orders_view(self.bids@),
        }
    }
}

/// A decoded frame, tagged by the channel that its body names.
#[derive(Debug)]
pub enum Event {
    Ticker(TickerEvent),
    OrderBook(OrderBookEvent),
    /// A body of a channel without a typed shape, kept as it came.
    Unknown(Json),
}

/// What an [`Event`] holds.
pub ghost enum EventView {
    Ticker(TickerView),
    OrderBook(OrderBookView),
    Unknown(Json),
}

impl View for Event {
    type V = EventView;

    open spec fn view(&self) -> EventView {
        match self {
            Event::Ticker(t) => EventView::Ticker(t@),
            Event::OrderBook(b) => EventView::OrderBook(b@),
            Event::Unknown(j) => EventView::Unknown(*j),
        }
    }
}

impl Event {
    /// The ticker update inside this event, if it is one.
    pub fn into_ticker(self) -> (ticker: Option<TickerEvent>)
        ensures
            match ticker {
                Some(t) => self@ == EventView::Ticker(t@),
                None => !(self is Ticker),
            },
    {
        match self {
            Event::Ticker(t) => Some(t),
            _ => None,
        }
    }

    /// The order-book update inside this event, if it is one.
    pub fn into_orderbook(self) -> (book: Option<OrderBookEvent>)
        ensures
            match book {
                Some(b) => self@ == EventView::OrderBook(b@),
                None => !(self is OrderBook),
            },
    {
        match self {
            Event::OrderBook(b) => Some(b),
            _ => None,
        }
    }
}

/// The ticker update that a body holds, if it has the shape of one.
pub open spec fn ticker_of(body: Json) -> Option<TickerView> {
    if body.small_integer_member("type"@) is Some && body.text_member("channel"@) is Some
        && body.text_member("event"@) is Some && body.text_member("B"@) is Some
        && body.text_member("A"@) is Some && body.text_member("BA"@) is Some
        && body.text_member("AA"@) is Some && body.text_member("PS"@) is Some
        && body.text_member("H"@) is Some && body.text_member("L"@) is Some && body.text_member(
        "LA"@,
    ) is Some && body.text_member("O"@) is Some && body.text_member("V"@) is Some
        && body.text_member("AV"@) is Some && body.text_member("D"@) is Some
        && body.text_member("DP"@) is Some && body.text_member("DS"@) is Some
        && body.text_member("NS"@) is Some && body.small_integer_member("PId"@) is Some {
        Some(
            TickerView {
                type_field: body.small_integer_member("type"@)->0,
                channel: body.text_member("channel"@)->0,
                event: body.text_member("event"@)->0,
                bid: body.text_member("B"@)->0,
                ask: body.text_member("A"@)->0,
                bid_amount: body.text_member("BA"@)->0,
                ask_amount: body.text_member("AA"@)->0,
                pair_symbol: body.text_member("PS"@)->0,
                high: body.text_member("H"@)->0,
                low: body.text_member("L"@)->0,
                last: body.text_member("LA"@)->0,
                open: body.text_member("O"@)->0,
                volume: body.text_member("V"@)->0,
                average: body.text_member("AV"@)->0,
                change_amount: body.text_member("D"@)->0,
                change_percent: body.text_member("DP"@)->0,
                denominator_symbol: body.text_member("DS"@)->0,
                numerator_symbol: body.text_member("NS"@)->0,
                pair_id: body.small_integer_member("PId"@)->0,
            },
        )
    } else {
        None
    }
}

/// The level that a two-element array of strings holds: the price first,
/// then the amount.
pub open spec fn pair_level(level: Json) -> Option<OrderView> {
    match level.elements() {
        Some(items) => if items.len() == 2 && items[0].text() is Some && items[1].text()
            is Some {
            Some(OrderView { amount: items[1].text()->0, price: items[0].text()->0 })
        } else {
            None
        },
        None => None,
    }
}

/// The level that an object holds: the amount under `A`, the price under `P`.
pub open spec fn keyed_level(level: Json) -> Option<OrderView> {
    if level.text_member("A"@) is Some && level.text_member("P"@) is Some {
        Some(OrderView { amount: level.text_member("A"@)->0, price: level.text_member("P"@)->0 })
    } else {
        None
    }
}

/// The level that a stream element holds, in either of the two encodings.
pub open spec fn level_of(level: Json) -> Option<OrderView> {
    match level {
        Json::Array(_) => pair_level(level),
        _ => keyed_level(level),
    }
}

/// The levels of one side of a streamed book: every element must be a level.
pub open spec fn levels_of(items: Seq<Json>) -> Option<Seq<OrderView>> {
    if forall|i: int| 0 <= i < items.len() ==> (#[trigger] level_of(items[i])) is Some {
        Some(Seq::new(items.len(), |i: int| level_of(items[i])->0))
    } else {
        None
    }
}

/// The levels under `key` in a body.
pub open spec fn levels_member(body: Json, key: Seq<char>) -> Option<Seq<OrderView>> {
    match body.elements_member(key) {
        Some(items) => levels_of(items),
        None => None,
    }
}

/// The change-sequence number of a body: absent where the key is missing or
/// null, and no reading at all where the key holds anything but an integer.
pub open spec fn change_seq_of(body: Json) -> Option<Option<i64>> {
    match body.member("CS"@) {
        None => Some(None),
        Some(Json::Null) => Some(None),
        Some(value) => match value.integer() {
            Some(n) => Some(Some(n)),
            None => None,
        },
    }
}

/// The order-book update that a body holds, if it has the shape of one.
pub open spec fn orderbook_of(body: Json) -> Option<OrderBookView> {
    if body.small_integer_member("type"@) is Some && body.text_member("channel"@) is Some
        && body.text_member("event"@) is Some && body.text_member("PS"@) is Some
        && change_seq_of(body) is Some && levels_member(body, "AO"@) is Some && levels_member(
        body,
        "BO"@,
    ) is Some {
        Some(
            OrderBookView {
                type_field: body.small_integer_member("type"@)->0,
                channel: body.text_member("channel"@)->0,
                event: body.text_member("event"@)->0,
                pair_symbol: body.text_member("PS"@)->0,
                change_seq: change_seq_of(body)->0,
                asks: levels_member(body, "AO"@)->0,
                bids: levels_member(body, "BO"@)->0,
            },
        )
    } else {
        None
    }
}

/// Decodes a ticker body.
pub fn decode_ticker(body: &Json) -> (ticker: Option<TickerEvent>)
    ensures
        match ticker {
            Some(t) => ticker_of(*body) == Some(t@),
            None => ticker_of(*body) is None,
        },
{
    let type_field: i32 = body.i32_field("type")?;
    let channel = body.text_field("channel")?;
    let event = body.text_field("event")?;
    let bid = body.text_field("B")?;
    let ask = body.text_field("A")?;
    let bid_amount = body.text_field("BA")?;
    let ask_amount = body.text_field("AA")?;
    let pair_symbol = body.text_field("PS")?;
    let high = body.text_field("H")?;
    let low = body.text_field("L")?;
    let last = body.text_field("LA")?;
    let open = body.text_field("O")?;
    let volume = body.text_field("V")?;
    let average = body.text_field("AV")?;
    let change_amount = body.text_field("D")?;
    let change_percent = body.text_field("DP")?;
    let denominator_symbol = body.text_field("DS")?;
    let numerator_symbol = body.text_field("NS")?;
    let pair_id: i32 = body.i32_field("PId")?;
    Some(
        TickerEvent {
            type_field,
            channel,
            event,
            bid,
            ask,
            bid_amount,
            ask_amount,
            pair_symbol,
            high,
            low,
            last,
            open,
            volume,
            average,
            change_amount,
            change_percent,
            denominator_symbol,
            numerator_symbol,
            pair_id,
        },
    )
}

/// Decodes a level given as `[price, amount]`.
pub fn decode_pair_level(level: &Json) -> (order: Option<OrderBookOrder>)
    ensures
        match order {
            Some(o) => pair_level(*level) == Some(o@),
            None => pair_level(*level) is None,
        },
{
    let items = level.as_array()?;
    if items.len() != 2 {
        return None;
    }
    let price = items[0].as_str()?;
    let amount = items[1].as_str()?;
    Some(OrderBookOrder { amount: amount.to_owned(), price: price.to_owned() })
}

/// Decodes a level in either encoding: `[price, amount]`, or an object with
/// the amount under `A` and the price under `P`.
pub fn decode_level(level: &Json) -> (order: Option<OrderBookOrder>)
    ensures
        match order {
            Some(o) => level_of(*level) == Some(o@),
            None => level_of(*level) is None,
        },
{
    match level {
        Json::Array(_) => decode_pair_level(level),
        _ => {
            let amount = level.text_field("A")?;
            let price = level.text_field("P")?;
            Some(OrderBookOrder { amount, price })
        },
    }
}

/// Decodes one side of a streamed book; a single element that is no level
/// spoils the side.
pub fn decode_levels(items: &Vec<Json>) -> (orders: Option<Vec<OrderBookOrder>>)
    ensures
        match orders {
            Some(list) => levels_of(items@) == Some(orders_view(list@)),
            None => levels_of(items@) is None,
        },
{
    let mut list: Vec<OrderBookOrder> = Vec::new();
    let mut i: usize = 0;
    while i < items.len()
        invariant
            i <= items.len(),
            list@.len() == i,
            forall|k: int| 0 <= k < i ==> level_of(items@[k]) == Some(#[trigger] list@[k]@),
        decreases items.len() - i,
    {
        match decode_level(&items[i]) {
            Some(order) => {
                list.push(order);
            },
            None => {
                return None;
            },
        }
        i += 1;
    }
    assert forall|k: int| 0 <= k < items@.len() implies (#[trigger] level_of(items@[k]))
        is Some by {
        assert(level_of(items@[k]) == Some(list@[k]@));
    }
    assert(Seq::new(items@.len(), |k: int| level_of(items@[k])->0) =~= orders_view(list@));
    Some(list)
}

/// Decodes the change-sequence number of a body.
pub fn decode_change_seq(body: &Json) -> (seq: Option<Option<i64>>)
    ensures
        seq == change_seq_of(*body),
{
    match body.get("CS") {
        None => Some(None),
        Some(value) => match value {
            Json::Null => Some(None),
            _ => match value.as_i64() {
                Some(n) => Some(Some(n)),
                None => None,
            },
        },
    }
}

/// Decodes an order-book body.
pub fn decode_orderbook(body: &Json) -> (book: Option<OrderBookEvent>)
    ensures
        match book {
            Some(b) => orderbook_of(*body) == Some(b@),
            None => orderbook_of(*body) is None,
        },
{
    let type_field: i32 = body.i32_field("type")?;
    let channel = body.text_field("channel")?;
    let event = body.text_field("event")?;
    let pair_symbol = body.text_field("PS")?;
    let change_seq = decode_change_seq(body)?;
    let asks = decode_levels(body.array_field("AO")?)?;
    let bids = decode_levels(body.array_field("BO")?)?;
    Some(OrderBookEvent { type_field, channel, event, pair_symbol, change_seq, asks, bids })
}

} // verus!
