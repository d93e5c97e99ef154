use vstd::prelude::*;
use crate::decimal::Decimal;
use crate::enums::{Order, Tick};
use crate::error::Error;
use crate::fields::{
    req_i64, req_order, req_tick, req_u32, spec_req_i64, spec_req_order, spec_req_tick,
    spec_req_u32,
};
use crate::json::{jfield, jget, JsonVal};

verus! {

/// One executed trade from the trade tape. The timestamp is the wire's
/// trade_time_ms, milliseconds since the epoch.
pub struct Record {
    pub trade_id: String,
    pub price: Decimal,
    pub side: Order,
    pub size: u32,
    pub timestamp: i64,
    pub tick_direction: Tick,
}

impl Record {
    /// A field-for-field copy.
    pub fn duplicate(&self) -> (r: Record)
        ensures
            r == *self,
    {
        Record {
            trade_id: self.trade_id.clone(),
            price: self.price,
            side: self.side,
            size: self.size,
            timestamp: self.timestamp,
            tick_direction: self.tick_direction,
        }
    }
}

/// What a tick-direction string on the wire denotes.
pub open spec fn spec_tick_of(s: Seq<char>) -> Result<Tick, Error> {
    if s == "MinusTick"@ {
        Ok(Tick::MinusTick)
    } else if s == "ZeroMinusTick"@ {
        Ok(Tick::ZeroMinusTick)
    } else if s == "PlusTick"@ {
        Ok(Tick::PlusTick)
    } else if s == "ZeroPlusTick"@ {
        Ok(Tick::ZeroPlusTick)
    } else {
        Err(Error::Decoding)
    }
}

/// Reads a wire tick-direction string.
pub fn tick_of_string(s: &String) -> (r: Result<Tick, Error>)
    ensures
        r == spec_tick_of(s@),
{
    if s.eq(&String::from_str("MinusTick")) {
        Ok(Tick::MinusTick)
    } else if s.eq(&String::from_str("ZeroMinusTick")) {
        Ok(Tick::ZeroMinusTick)
    } else if s.eq(&String::from_str("PlusTick")) {
        Ok(Tick::PlusTick)
    } else if s.eq(&String::from_str("ZeroPlusTick")) {
        Ok(Tick::ZeroPlusTick)
    } else {
        Err(Error::Decoding)
    }
}

/// What one payload element denotes as a trade record: a trade id string, a
/// price (a JSON number, its decimal text read as a fixed-point value), the
/// side, a size, the trade time in milliseconds, and a tick direction. Any
/// missing or ill-shaped field is a decoding failure.
pub open spec fn spec_parse_trade(v: JsonVal) -> Result<Record, Error> {
    match jfield(v, "trade_id"@) {
        Option::Some(JsonVal::Text(trade_id)) => match jfield(v, "price"@) {
            Option::Some(JsonVal::Num(price_text)) => match crate::decimal::spec_decimal_of(
                price_text@,
            ) {
                Option::Some(price) => match spec_req_order(v, "side"@) {
                    Ok(side) => match spec_req_u32(v, "size"@) {
                        Ok(size) => match spec_req_i64(v, "trade_time_ms"@) {
                            Ok(timestamp) => match spec_req_tick(v, "tick_direction"@) {
                                Ok(tick_direction) => Ok(
                                    Record {
                                        trade_id,
                                        price,
                                        side,
                                        size,
                                        timestamp,
                                        tick_direction,
                                    },
                                ),
                                Err(e) => Err(e),
                            },
                            Err(e) => Err(e),
                        },
                        Err(e) => Err(e),
                    },
                    Err(e) => Err(e),
                },
                Option::None => Err(Error::Decoding),
            },
            _ => Err(Error::Decoding),
        },
        _ => Err(Error::Decoding),
    }
}

/// Reads one payload element as a trade record.
pub(crate) fn parse_trade(v: &JsonVal) -> (r: Result<Record, Error>)
    ensures
        r == spec_parse_trade(*v),
{
    let trade_id = match jget(v, "trade_id") {
        Some(f) => match f {
            JsonVal::Text(s) => s.clone(),
            _ => {
                return Err(Error::Decoding);
            },
        },
        None => {
            return Err(Error::Decoding);
        },
    };
    let price = match jget(v, "price") {
        Some(f) => match f {
            JsonVal::Num(s) => match crate::decimal::parse_decimal(s.as_str()) {
                Some(d) => d,
                None => {
                    return Err(Error::Decoding);
                },
            },
            _ => {
                return Err(Error::Decoding);
            },
        },
        None => {
            return Err(Error::Decoding);
        },
    };
    let side = match req_order(v, "side") {
        Ok(o) => o,
        Err(e) => {
            return Err(e);
        },
    };
    let size = match req_u32(v, "size") {
        Ok(n) => n,
        Err(e) => {
            return Err(e);
        },
    };
    let timestamp = match req_i64(v, "trade_time_ms") {
        Ok(t) => t,
        Err(e) => {
            return Err(e);
        },
    };
    let tick_direction = match req_tick(v, "tick_direction") {
        Ok(t) => t,
        Err(e) => {
            return Err(e);
        },
    };
    Ok(Record { trade_id, price, side, size, timestamp, tick_direction })
}

/// What a whole payload array denotes: every element read as a trade, in
/// array order, or the first failure.
pub open spec fn spec_parse_trades(vs: Seq<JsonVal>) -> Result<Seq<Record>, Error>
    decreases vs.len(),
{
    if vs.len() == 0 {
        Ok(Seq::empty())
    } else {
        match spec_parse_trade(vs[0]) {
            Ok(rec) => match spec_parse_trades(vs.skip(1)) {
                Ok(rest) => Ok(seq![rec] + rest),
                Err(e) => Err(e),
            },
            Err(e) => Err(e),
        }
    }
}

/// Reads a whole payload array of trade records, in array order.
pub(crate) fn parse_trades(data: &Vec<JsonVal>) -> (r: Result<Vec<Record>, Error>)
    ensures
        r matches Ok(out) ==> spec_parse_trades(data@) == Ok::<Seq<Record>, Error>(out@),
        r matches Err(e) ==> spec_parse_trades(data@) == Err::<Seq<Record>, Error>(e),
{
    let mut out: Vec<Record> = Vec::new();
    let n = data.len();
    let mut i: usize = 0;
    proof {
        assert(data@.skip(0) =~= data@);
    }
    while i < n
        invariant
            i <= n,
            n == data@.len(),
            spec_parse_trades(data@) == (match spec_parse_trades(data@.skip(i as int)) {
                Ok(rest) => Ok::<Seq<Record>, Error>(out@ + rest),
                Err(e) => Err(e),
            }),
        decreases n - i,
    {
        proof {
            assert(data@.skip(i as int)[0] == data@[i as int]);
            assert(data@.skip(i as int).skip(1) =~= data@.skip(i + 1));
        }
        let ghost pre = out@;
        match parse_trade(&data[i]) {
            Ok(rec) => {
                out.push(rec);
                proof {
                    if spec_parse_trades(data@.skip(i + 1)) is Ok {
                        let rest = spec_parse_trades(data@.skip(i + 1))->Ok_0;
                        let ghost last = out@.last();
                        assert(pre + (seq![last] + rest) =~= out@ + rest);
                    }
                }
            },
            Err(e) => {
                return Err(e);
            },
        }
        i = i + 1;
    }
    proof {
        assert(data@.skip(n as int).len() == 0);
        assert(out@ + Seq::<Record>::empty() =~= out@);
    }
    Ok(out)
}

} // verus!
