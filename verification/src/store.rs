use vstd::prelude::*;
use crate::error::Error;
use crate::fields::{req_u64, spec_req_u64};
use crate::instrument::{parse_instrument, spec_parse_instrument, Instrument, InstrumentView};
use crate::json::{jfield, jget, JsonVal};
use crate::orderbook::{
    book_after_delta, book_after_snapshot, parse_levels, spec_parse_levels, BookView, Limit,
    OrderBook,
};
use crate::position::{parse_position, spec_parse_position, Position};
use crate::record::{parse_trades, spec_parse_trades, Record};
use crate::text::str_starts_with;
use crate::websocket::WebSocketResponse;

verus! {

/// The channel family a topic string routes to.
#[derive(Clone, Copy, Debug, PartialEq, Eq, Structural)]
pub enum Route {
    Book,
    Trade,
    Instrument,
    Position,
    /// A channel the exchange offers but this store does not yet support.
    Unsupported,
    /// No known channel.
    Unknown,
}

/// Routing of a topic string, by its channel-name prefix. The order-book
/// check stands before the order channel's, whose name it extends.
pub open spec fn route_of(t: Seq<char>) -> Route {
    if "orderBook"@.is_prefix_of(t) {
        Route::Book
    } else if "trade"@.is_prefix_of(t) {
        Route::Trade
    } else if "instrument_info"@.is_prefix_of(t) {
        Route::Instrument
    } else if "insurance"@.is_prefix_of(t) {
        Route::Unsupported
    } else if "position"@.is_prefix_of(t) {
        Route::Position
    } else if "klineV2"@.is_prefix_of(t) {
        Route::Unsupported
    } else if "execution"@.is_prefix_of(t) {
        Route::Unsupported
    } else if "stop_order"@.is_prefix_of(t) {
        Route::Unsupported
    } else if "order"@.is_prefix_of(t) {
        Route::Unsupported
    } else {
        Route::Unknown
    }
}

/// Routes a topic string to the handler family it belongs to.
pub fn route_topic(t: &str) -> (r: Route)
    ensures
        r == route_of(t@),
{
    if str_starts_with(t, "orderBook") {
        Route::Book
    } else if str_starts_with(t, "trade") {
        Route::Trade
    } else if str_starts_with(t, "instrument_info") {
        Route::Instrument
    } else if str_starts_with(t, "insurance") {
        Route::Unsupported
    } else if str_starts_with(t, "position") {
        Route::Position
    } else if str_starts_with(t, "klineV2") {
        Route::Unsupported
    } else if str_starts_with(t, "execution") {
        Route::Unsupported
    } else if str_starts_with(t, "stop_order") {
        Route::Unsupported
    } else if str_starts_with(t, "order") {
        Route::Unsupported
    } else {
        Route::Unknown
    }
}

/// What one drain of the trade buffer returns: everything accumulated so far.
pub open spec fn drain_result(records: Seq<Record>) -> Seq<Record> {
    records
}

/// What one drain of the trade buffer leaves behind: nothing.
pub open spec fn drain_rest(records: Seq<Record>) -> Seq<Record> {
    Seq::empty()
}

/// The local market-data cache: the order book, the drainable trade tape,
/// and the latest instrument and position snapshots. It is mutated only by
/// `store_message` and read through the copy-out operations, so one writer
/// and any number of readers can share it behind a lock.
pub struct MarketStore {
    pub orderbook: OrderBook,
    pub records: Vec<Record>,
    pub instrument: Option<Instrument>,
    pub position: Option<Position>,
}

/// Mathematical shape of the whole cache.
#[verifier::ext_equal]
pub struct StoreView {
    pub orderbook: BookView,
    pub records: Seq<Record>,
    pub instrument: Option<InstrumentView>,
    pub position: Option<Position>,
}

impl View for MarketStore {
    type V = StoreView;

    open spec fn view(&self) -> StoreView {
        StoreView {
            orderbook: self.orderbook@,
            records: self.records@,
            instrument: match self.instrument {
                Option::Some(i) => Option::Some(i@),
                Option::None => Option::None,
            },
            position: self.position,
        }
    }
}

/// What the ids of a delta's delete array denote: the u64 id field of every
/// element, in array order, or the first failure. The other fields of a
/// deletion are irrelevant.
pub open spec fn spec_delete_ids(vs: Seq<JsonVal>) -> Result<Seq<u64>, Error>
    decreases vs.len(),
{
    if vs.len() == 0 {
        Ok(Seq::empty())
    } else {
        match spec_req_u64(vs[0], "id"@) {
            Ok(id) => match spec_delete_ids(vs.skip(1)) {
                Ok(rest) => Ok(seq![id] + rest),
                Err(e) => Err(e),
            },
            Err(e) => Err(e),
        }
    }
}

/// Reads the id out of every element of a delta's delete array.
pub(crate) fn parse_delete_ids(data: &Vec<JsonVal>) -> (r: Result<Vec<u64>, Error>)
    ensures
        r matches Ok(out) ==> spec_delete_ids(data@) == Ok::<Seq<u64>, Error>(out@),
        r matches Err(e) ==> spec_delete_ids(data@) == Err::<Seq<u64>, Error>(e),
{
    let mut out: Vec<u64> = Vec::new();
    let n = data.len();
    let mut i: usize = 0;
    proof {
        assert(data@.skip(0) =~= data@);
    }
    while i < n
        invariant
            i <= n,
            n == data@.len(),
            spec_delete_ids(data@) == (match spec_delete_ids(data@.skip(i as int)) {
                Ok(rest) => Ok::<Seq<u64>, Error>(out@ + rest),
                Err(e) => Err(e),
            }),
        decreases n - i,
    {
        proof {
            assert(data@.skip(i as int)[0] == data@[i as int]);
            assert(data@.skip(i as int).skip(1) =~= data@.skip(i + 1));
        }
        let ghost pre = out@;
        match req_u64(&data[i], "id") {
            Ok(id) => {
                out.push(id);
                proof {
                    if spec_delete_ids(data@.skip(i + 1)) is Ok {
                        let rest = spec_delete_ids(data@.skip(i + 1))->Ok_0;
                        assert(pre + (seq![id] + rest) =~= out@ + rest);
                    }
                }
            },
            Err(e) => {
                return Err(e);
            },
        }
        i = i + 1;
    }
    proof {
        assert(data@.skip(n as int).len() == 0);
        assert(out@ + Seq::<u64>::empty() =~= out@);
    }
    Ok(out)
}

/// What a book frame does to the book: a snapshot upserts every level of the
/// payload array; a delta deletes, then updates, then inserts; both stamp
/// the book with the frame's timestamp. A missing kind or timestamp, an
/// unknown kind, or an ill-shaped payload is a decoding failure.
pub open spec fn book_outcome(b: BookView, res: WebSocketResponse) -> Result<BookView, Error> {
    match res.timestamp {
        Option::None => Err(Error::Decoding),
        Option::Some(ts) => match res.msg_type {
            Option::None => Err(Error::Decoding),
            Option::Some(kind) => if kind@ == "snapshot"@ {
                match res.data {
                    JsonVal::Items(arr) => match spec_parse_levels(arr@) {
                        Ok(levels) => Ok(book_after_snapshot(b, levels, ts as int)),
                        Err(e) => Err(e),
                    },
                    _ => Err(Error::Decoding),
                }
            } else if kind@ == "delta"@ {
                match delta_ids(res.data, "delete"@) {
                    Ok(del) => match delta_levels(res.data, "update"@) {
                        Ok(upd) => match delta_levels(res.data, "insert"@) {
                            Ok(ins) => Ok(book_after_delta(b, del, upd, ins, ts as int)),
                            Err(e) => Err(e),
                        },
                        Err(e) => Err(e),
                    },
                    Err(e) => Err(e),
                }
            } else {
                Err(Error::Decoding)
            },
        },
    }
}

/// One named array of a delta payload, read as levels.
pub open spec fn delta_levels(data: JsonVal, key: Seq<char>) -> Result<Seq<(u64, Limit)>, Error> {
    match jfield(data, key) {
        Option::Some(JsonVal::Items(arr)) => spec_parse_levels(arr@),
        _ => Err(Error::Decoding),
    }
}

/// One named array of a delta payload, read as deleted ids.
pub open spec fn delta_ids(data: JsonVal, key: Seq<char>) -> Result<Seq<u64>, Error> {
    match jfield(data, key) {
        Option::Some(JsonVal::Items(arr)) => spec_delete_ids(arr@),
        _ => Err(Error::Decoding),
    }
}

/// What a trade frame appends to the tape: every payload element as a
/// record, in array order; a payload that is not an array of well-shaped
/// trades is a decoding failure.
pub open spec fn trades_outcome(res: WebSocketResponse) -> Result<Seq<Record>, Error> {
    match res.data {
        JsonVal::Items(arr) => spec_parse_trades(arr@),
        _ => Err(Error::Decoding),
    }
}

/// What a ticker frame stores: a snapshot replaces the whole record from the
/// payload; a delta replaces it from the payload's update object; any other
/// kind, or a delta without an update field, is a decoding failure.
pub open spec fn instrument_outcome(res: WebSocketResponse) -> Result<InstrumentView, Error> {
    match res.msg_type {
        Option::None => Err(Error::Decoding),
        Option::Some(kind) => if kind@ == "snapshot"@ {
            Ok(spec_parse_instrument(res.data))
        } else if kind@ == "delta"@ {
            match jfield(res.data, "update"@) {
                Option::Some(u) => Ok(spec_parse_instrument(u)),
                Option::None => Err(Error::Decoding),
            }
        } else {
            Err(Error::Decoding)
        },
    }
}

/// What a position frame stores: the payload decoded as a whole position.
pub open spec fn position_outcome(res: WebSocketResponse) -> Result<Position, Error> {
    spec_parse_position(res.data)
}

/// Every decode failure of a level is a decoding error.
proof fn lemma_level_err(v: JsonVal)
    ensures
        crate::orderbook::spec_parse_level(v) matches Err(e) ==> e == Error::Decoding,
{
}

proof fn lemma_levels_err(vs: Seq<JsonVal>)
    ensures
        spec_parse_levels(vs) matches Err(e) ==> e == Error::Decoding,
    decreases vs.len(),
{
    if vs.len() > 0 {
        lemma_level_err(vs[0]);
        lemma_levels_err(vs.skip(1));
    }
}

proof fn lemma_ids_err(vs: Seq<JsonVal>)
    ensures
        spec_delete_ids(vs) matches Err(e) ==> e == Error::Decoding,
    decreases vs.len(),
{
    if vs.len() > 0 {
        lemma_ids_err(vs.skip(1));
    }
}

proof fn lemma_trade_err(v: JsonVal)
    ensures
        crate::record::spec_parse_trade(v) matches Err(e) ==> e == Error::Decoding,
{
}

proof fn lemma_trades_err(vs: Seq<JsonVal>)
    ensures
        spec_parse_trades(vs) matches Err(e) ==> e == Error::Decoding,
    decreases vs.len(),
{
    if vs.len() > 0 {
        lemma_trade_err(vs[0]);
        lemma_trades_err(vs.skip(1));
    }
}

/// Every failing frame outcome is a decoding error; only routing itself
/// yields a routing error.
proof fn lemma_outcome_err(s: StoreView, res: WebSocketResponse)
    ensures
        book_outcome(s.orderbook, res) matches Err(e) ==> e == Error::Decoding,
        trades_outcome(res) matches Err(e) ==> e == Error::Decoding,
        instrument_outcome(res) matches Err(e) ==> e == Error::Decoding,
        position_outcome(res) matches Err(e) ==> e == Error::Decoding,
{
    match res.data {
        JsonVal::Items(arr) => {
            lemma_levels_err(arr@);
            lemma_trades_err(arr@);
        },
        _ => {},
    }
    match res.msg_type {
        Option::Some(kind) => {
            if kind@ == "delta"@ {
                match jfield(res.data, "delete"@) {
                    Option::Some(JsonVal::Items(arr)) => {
                        lemma_ids_err(arr@);
                    },
                    _ => {},
                }
                match jfield(res.data, "update"@) {
                    Option::Some(JsonVal::Items(arr)) => {
                        lemma_levels_err(arr@);
                    },
                    _ => {},
                }
                match jfield(res.data, "insert"@) {
                    Option::Some(JsonVal::Items(arr)) => {
                        lemma_levels_err(arr@);
                    },
                    _ => {},
                }
            }
        },
        Option::None => {},
    }
}

/// The store's one-frame transition: the result `store_message` returns and
/// the state it leaves, both decided by the envelope alone. A frame touches
/// only the view its topic routes to, and a failing frame changes nothing.
pub open spec fn store_step(s: StoreView, res: WebSocketResponse) -> (Result<(), Error>, StoreView) {
    match route_of(res.topic@) {
        Route::Book => match book_outcome(s.orderbook, res) {
            Ok(b) => (Ok(()), StoreView { orderbook: b, ..s }),
            Err(e) => (Err(e), s),
        },
        Route::Trade => match trades_outcome(res) {
            Ok(new) => (Ok(()), StoreView { records: s.records + new, ..s }),
            Err(e) => (Err(e), s),
        },
        Route::Instrument => match instrument_outcome(res) {
            Ok(i) => (Ok(()), StoreView { instrument: Option::Some(i), ..s }),
            Err(e) => (Err(e), s),
        },
        Route::Position => match position_outcome(res) {
            Ok(p) => (Ok(()), StoreView { position: Option::Some(p), ..s }),
            Err(e) => (Err(e), s),
        },
        Route::Unsupported => (Err(Error::Routing), s),
        Route::Unknown => (Err(Error::Routing), s),
    }
}

impl MarketStore {
    /// An empty store, as it stands at session construction.
    pub fn new() -> (r: MarketStore)
        ensures
            r@.orderbook.limits == Map::<u64, Limit>::empty(),
            r@.orderbook.timestamp == 0,
            r@.records == Seq::<Record>::empty(),
            r@.instrument is None,
            r@.position is None,
    {
        MarketStore {
            orderbook: OrderBook::new(),
            records: Vec::new(),
            instrument: None,
            position: None,
        }
    }

    /// Applies one data frame to the view its topic routes to: exactly the
    /// transition `store_step` gives for the envelope. In particular an
    /// unknown or unsupported topic is a routing failure, every failure
    /// leaves the store unchanged, and each frame touches its own view only.
    pub fn store_message(&mut self, res: WebSocketResponse) -> (r: Result<(), Error>)
        ensures
            r == store_step(old(self)@, res).0,
            final(self)@ == store_step(old(self)@, res).1,
            r == Err::<(), Error>(Error::Routing) <==> (route_of(res.topic@) == Route::Unknown
                || route_of(res.topic@) == Route::Unsupported),
            r is Err && route_of(res.topic@) != Route::Unknown && route_of(res.topic@)
                != Route::Unsupported ==> r == Err::<(), Error>(Error::Decoding),
            r is Err ==> final(self)@ == old(self)@,
    {
        let ghost pre = self@;
        let ghost step = store_step(pre, res);
        proof {
            lemma_outcome_err(pre, res);
        }
        let r = match route_topic(self.topic_of(&res)) {
            Route::Book => self.handle_orderbook(res),
            Route::Trade => self.handle_records(res),
            Route::Instrument => self.handle_instrument(res),
            Route::Position => self.handle_position(res),
            Route::Unsupported => Err(Error::Routing),
            Route::Unknown => Err(Error::Routing),
        };
        proof {
            assert(self@ =~= step.1);
        }
        r
    }

    /// The topic of an envelope, borrowed for routing.
    fn topic_of<'a>(&self, res: &'a WebSocketResponse) -> (r: &'a str)
        ensures
            r@ == res.topic@,
    {
        res.topic.as_str()
    }

    /// Book frames, applied per `book_outcome`.
    fn handle_orderbook(&mut self, res: WebSocketResponse) -> (r: Result<(), Error>)
        requires
            route_of(res.topic@) == Route::Book,
        ensures
            r == store_step(old(self)@, res).0,
            final(self)@ == store_step(old(self)@, res).1,
    {
        let ts = match &res.timestamp {
            Some(t) => *t,
            None => {
                return Err(Error::Decoding);
            },
        };
        let kind = match &res.msg_type {
            Some(k) => k,
            None => {
                return Err(Error::Decoding);
            },
        };
        if kind.eq(&String::from_str("snapshot")) {
            let arr = match &res.data {
                JsonVal::Items(a) => a,
                _ => {
                    return Err(Error::Decoding);
                },
            };
            let levels = match parse_levels(arr) {
                Ok(ls) => ls,
                Err(e) => {
                    return Err(e);
                },
            };
            self.orderbook.apply_snapshot(&levels, ts);
            proof {
                assert(self@ =~= store_step(old(self)@, res).1);
            }
            Ok(())
        } else if kind.eq(&String::from_str("delta")) {
            let del = match jget(&res.data, "delete") {
                Some(f) => match f {
                    JsonVal::Items(a) => match parse_delete_ids(a) {
                        Ok(ids) => ids,
                        Err(e) => {
                            return Err(e);
                        },
                    },
                    _ => {
                        return Err(Error::Decoding);
                    },
                },
                None => {
                    return Err(Error::Decoding);
                },
            };
            let upd = match jget(&res.data, "update") {
                Some(f) => match f {
                    JsonVal::Items(a) => match parse_levels(a) {
                        Ok(ls) => ls,
                        Err(e) => {
                            return Err(e);
                        },
                    },
                    _ => {
                        return Err(Error::Decoding);
                    },
                },
                None => {
                    return Err(Error::Decoding);
                },
            };
            let ins = match jget(&res.data, "insert") {
                Some(f) => match f {
                    JsonVal::Items(a) => match parse_levels(a) {
                        Ok(ls) => ls,
                        Err(e) => {
                            return Err(e);
                        },
                    },
                    _ => {
                        return Err(Error::Decoding);
                    },
                },
                None => {
                    return Err(Error::Decoding);
                },
            };
            self.orderbook.apply_delta(&del, &upd, &ins, ts);
            proof {
                assert(self@ =~= store_step(old(self)@, res).1);
            }
            Ok(())
        } else {
            Err(Error::Decoding)
        }
    }

    /// Trade frames, applied per `trades_outcome`.
    fn handle_records(&mut self, res: WebSocketResponse) -> (r: Result<(), Error>)
        requires
            route_of(res.topic@) == Route::Trade,
        ensures
            r == store_step(old(self)@, res).0,
            final(self)@ == store_step(old(self)@, res).1,
    {
        let arr = match &res.data {
            JsonVal::Items(a) => a,
            _ => {
                return Err(Error::Decoding);
            },
        };
        let mut new_records = match parse_trades(arr) {
            Ok(rs) => rs,
            Err(e) => {
                return Err(e);
            },
        };
        let ghost before = self.records@;
        let ghost incoming = new_records@;
        loop
            invariant
                before + incoming == self.records@ + new_records@,
                self.orderbook == old(self).orderbook,
                self.instrument == old(self).instrument,
                self.position == old(self).position,
            ensures
                new_records@.len() == 0,
            decreases new_records@.len(),
        {
            if new_records.len() == 0 {
                break;
            }
            let ghost pre_new = new_records@;
            let ghost pre_rec = self.records@;
            let rec = new_records.remove(0);
            self.records.push(rec);
            proof {
                assert(pre_rec.push(pre_new[0]) + pre_new.skip(1) =~= pre_rec + pre_new);
            }
        }
        proof {
            assert(self.records@ + Seq::<Record>::empty() =~= self.records@);
            assert(self.records@ =~= before + incoming);
            assert(self@ =~= store_step(old(self)@, res).1);
        }
        Ok(())
    }

    /// Ticker frames, applied per `instrument_outcome`.
    fn handle_instrument(&mut self, res: WebSocketResponse) -> (r: Result<(), Error>)
        requires
            route_of(res.topic@) == Route::Instrument,
        ensures
            r == store_step(old(self)@, res).0,
            final(self)@ == store_step(old(self)@, res).1,
    {
        let kind = match &res.msg_type {
            Some(k) => k,
            None => {
                return Err(Error::Decoding);
            },
        };
        if kind.eq(&String::from_str("snapshot")) {
            self.instrument = Some(parse_instrument(&res.data));
            proof {
                assert(self@ =~= store_step(old(self)@, res).1);
            }
            Ok(())
        } else if kind.eq(&String::from_str("delta")) {
            match jget(&res.data, "update") {
                Some(u) => {
                    self.instrument = Some(parse_instrument(u));
                    proof {
                        assert(self@ =~= store_step(old(self)@, res).1);
                    }
                    Ok(())
                },
                None => Err(Error::Decoding),
            }
        } else {
            Err(Error::Decoding)
        }
    }

    /// Position frames, applied per `position_outcome`.
    fn handle_position(&mut self, res: WebSocketResponse) -> (r: Result<(), Error>)
        requires
            route_of(res.topic@) == Route::Position,
        ensures
            r == store_step(old(self)@, res).0,
            final(self)@ == store_step(old(self)@, res).1,
    {
        match parse_position(&res.data) {
            Ok(p) => {
                self.position = Some(p);
                proof {
                    assert(self@ =~= store_step(old(self)@, res).1);
                }
                Ok(())
            },
            Err(e) => {
                proof {
                    assert(position_outcome(res) is Err);
                    assert(position_outcome(res)->Err_0 == e);
                }
                Err(e)
            },
        }
    }

    /// A consistent point-in-time copy of the order book.
    pub fn take_orderbook(&self) -> (r: OrderBook)
        ensures
            r@ == self@.orderbook,
    {
        self.orderbook.duplicate()
    }

    /// Atomically returns everything the tape accumulated and empties it.
    pub fn take_trading_records(&mut self) -> (r: Vec<Record>)
        ensures
            r@ == drain_result(old(self)@.records),
            final(self)@.records == drain_rest(old(self)@.records),
            final(self)@.orderbook == old(self)@.orderbook,
            final(self)@.instrument == old(self)@.instrument,
            final(self)@.position == old(self)@.position,
    {
        let mut out: Vec<Record> = Vec::new();
        std::mem::swap(&mut out, &mut self.records);
        out
    }

    /// A copy of the latest instrument snapshot, if one arrived.
    pub fn read_instrument(&self) -> (r: Option<Instrument>)
        ensures
            r == self.instrument,
    {
        match &self.instrument {
            Some(i) => Some(i.duplicate()),
            None => None,
        }
    }

    /// A copy of the latest position snapshot, if one arrived.
    pub fn read_position(&self) -> (r: Option<Position>)
        ensures
            r == self.position,
    {
        match &self.position {
            Some(p) => Some(p.duplicate()),
            None => None,
        }
    }
}

/// Law: draining the tape is exhaustive and atomic. One drain returns all
/// records accumulated before it and leaves nothing; a second drain, after
/// any records arrive in between, returns exactly those — nothing drained
/// earlier reappears.
pub proof fn lemma_drain_exhaustive_atomic(s: Seq<Record>, mid: Seq<Record>)
    ensures
        drain_result(s) == s,
        drain_result(drain_rest(s) + mid) == mid,
        drain_rest(drain_rest(s) + mid) == Seq::<Record>::empty(),
{
    assert(drain_rest(s) + mid =~= mid);
}

} // verus!
