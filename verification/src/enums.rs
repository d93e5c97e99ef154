use vstd::prelude::*;

verus! {

/// Side a book level or a trade was taken on.
#[derive(Clone, Copy, Debug, PartialEq, Eq, Structural)]
pub enum Order {
    Buy,
    Sell,
}

impl Default for Order {
    fn default() -> (r: Self)
        ensures
            r == Order::Buy,
    {
        Order::Buy
    }
}

/// Direction of the last price change of a trade.
#[derive(Clone, Copy, Debug, PartialEq, Eq, Structural)]
pub enum Tick {
    MinusTick,
    ZeroMinusTick,
    PlusTick,
    ZeroPlusTick,
}

impl Default for Tick {
    fn default() -> (r: Self)
        ensures
            r == Tick::MinusTick,
    {
        Tick::MinusTick
    }
}

/// Price source a conditional order triggers on.
#[derive(Clone, Copy, Debug, PartialEq, Eq, Structural)]
pub enum Trigger {
    LastPrice,
    IndexPrice,
    NoTrigger,
}

impl Default for Trigger {
    fn default() -> (r: Self)
        ensures
            r == Trigger::NoTrigger,
    {
        Trigger::NoTrigger
    }
}

/// Liquidation status of a position.
#[derive(Clone, Copy, Debug, PartialEq, Eq, Structural)]
pub enum Status {
    Normal,
    Liquidation,
    AutoDeleveraging,
}

impl Default for Status {
    fn default() -> (r: Self)
        ensures
            r == Status::Normal,
    {
        Status::Normal
    }
}

/// Streaming channel identifiers. Some are per-symbol and get the symbol
/// appended to the wire topic string; the rest are account-global.
#[derive(Clone, Copy, Debug, PartialEq, Eq, Structural)]
pub enum Topic {
    OrderBook25,
    OrderBook200,
    Trade,
    Insurance,
    Instrument,
    KLine,
    Position,
    Execution,
    Order,
    StopOrder,
}

impl Topic {
    /// The channel's bare wire name, without any symbol suffix.
    pub open spec fn wire_spec(self) -> Seq<char> {
        match self {
            Topic::OrderBook25 => "orderBookL2_25"@,
            Topic::OrderBook200 => "orderBook_200.100ms"@,
            Topic::Trade => "trade"@,
            Topic::Insurance => "insurance"@,
            Topic::Instrument => "instrument_info.100ms"@,
            Topic::KLine => "klineV2.1"@,
            Topic::Position => "position"@,
            Topic::Execution => "execution"@,
            Topic::Order => "order"@,
            Topic::StopOrder => "stop_order"@,
        }
    }

    /// Whether a subscription to this channel names one symbol.
    pub open spec fn per_symbol(self) -> bool {
        match self {
            Topic::OrderBook25 => true,
            Topic::OrderBook200 => true,
            Topic::Trade => true,
            Topic::Instrument => true,
            Topic::KLine => true,
            _ => false,
        }
    }

    pub fn is_per_symbol(&self) -> (r: bool)
        ensures
            r == self.per_symbol(),
    {
        match self {
            Topic::OrderBook25 => true,
            Topic::OrderBook200 => true,
            Topic::Trade => true,
            Topic::Instrument => true,
            Topic::KLine => true,
            _ => false,
        }
    }

    pub fn into_string(self) -> (r: String)
        ensures
            r@ == self.wire_spec(),
    {
        match self {
            Topic::OrderBook25 => String::from_str("orderBookL2_25"),
            Topic::OrderBook200 => String::from_str("orderBook_200.100ms"),
            Topic::Trade => String::from_str("trade"),
            Topic::Insurance => String::from_str("insurance"),
            Topic::Instrument => String::from_str("instrument_info.100ms"),
            Topic::KLine => String::from_str("klineV2.1"),
            Topic::Position => String::from_str("position"),
            Topic::Execution => String::from_str("execution"),
            Topic::Order => String::from_str("order"),
            Topic::StopOrder => String::from_str("stop_order"),
        }
    }
}

} // verus!
