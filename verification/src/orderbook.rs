use vstd::prelude::*;
use std::collections::HashMap;
use crate::decimal::Decimal;
use crate::enums::Order;
use crate::error::Error;
use crate::fields::{req_decimal_string, req_order, req_u32, req_u64, spec_req_decimal_string, spec_req_order, spec_req_u32, spec_req_u64};
use crate::json::JsonVal;

verus! {

broadcast use vstd::std_specs::hash::group_hash_axioms;

/// One price level of the order book.
#[derive(Clone, Copy, Debug, PartialEq, Eq, Structural)]
pub struct Limit {
    pub price: Decimal,
    pub side: Order,
    pub size: u32,
}

/// The order book: price levels keyed by their level id, plus the timestamp
/// (microseconds since the epoch) of the last frame applied to it.
pub struct OrderBook {
    pub limits: HashMap<u64, Limit>,
    pub timestamp: i64,
}

/// Mathematical shape of an order book.
#[verifier::ext_equal]
pub struct BookView {
    pub limits: Map<u64, Limit>,
    pub timestamp: int,
}

impl View for OrderBook {
    type V = BookView;

    open spec fn view(&self) -> BookView {
        BookView { limits: self.limits@, timestamp: self.timestamp as int }
    }
}

/// Each listed level upserted into the map by id, in list order.
pub open spec fn upsert_levels(m: Map<u64, Limit>, xs: Seq<(u64, Limit)>) -> Map<u64, Limit>
    decreases xs.len(),
{
    if xs.len() == 0 {
        m
    } else {
        upsert_levels(m, xs.drop_last()).insert(xs.last().0, xs.last().1)
    }
}

/// Each listed id removed from the map, in list order.
pub open spec fn remove_levels(m: Map<u64, Limit>, ids: Seq<u64>) -> Map<u64, Limit>
    decreases ids.len(),
{
    if ids.len() == 0 {
        m
    } else {
        remove_levels(m, ids.drop_last()).remove(ids.last())
    }
}

/// The book after a snapshot frame: every level of the payload upserted by
/// id, and the book's timestamp replaced. Levels absent from the snapshot are
/// kept, exactly as received frames are applied upstream.
pub open spec fn book_after_snapshot(b: BookView, levels: Seq<(u64, Limit)>, ts: int) -> BookView {
    BookView { limits: upsert_levels(b.limits, levels), timestamp: ts }
}

/// The book after a delta frame: deletions first, then updates, then
/// inserts — updates and inserts are both upserts by id.
pub open spec fn book_after_delta(
    b: BookView,
    del: Seq<u64>,
    upd: Seq<(u64, Limit)>,
    ins: Seq<(u64, Limit)>,
    ts: int,
) -> BookView {
    BookView {
        limits: upsert_levels(upsert_levels(remove_levels(b.limits, del), upd), ins),
        timestamp: ts,
    }
}

impl OrderBook {
    /// An empty book, as it stands before any frame arrives.
    pub fn new() -> (r: OrderBook)
        ensures
            r@.limits == Map::<u64, Limit>::empty(),
            r@.timestamp == 0,
    {
        OrderBook { limits: HashMap::new(), timestamp: 0 }
    }

    /// A point-in-time copy of this book.
    pub fn duplicate(&self) -> (r: OrderBook)
        ensures
            r@ == self@,
    {
        OrderBook { limits: self.limits.clone(), timestamp: self.timestamp }
    }

    /// Applies a snapshot frame's levels.
    pub fn apply_snapshot(&mut self, levels: &Vec<(u64, Limit)>, ts: i64)
        ensures
            final(self)@ == book_after_snapshot(old(self)@, levels@, ts as int),
    {
        self.timestamp = ts;
        let ghost m0 = old(self)@.limits;
        let n = levels.len();
        let mut i: usize = 0;
        assert(levels@.take(0) =~= Seq::<(u64, Limit)>::empty());
        while i < n
            invariant
                i <= n,
                n == levels@.len(),
                self.timestamp == ts,
                self.limits@ == upsert_levels(m0, levels@.take(i as int)),
            decreases n - i,
        {
            let (id, lim) = levels[i];
            proof {
                assert(levels@.take(i + 1).drop_last() =~= levels@.take(i as int));
                assert(levels@.take(i + 1).last() == levels@[i as int]);
            }
            self.limits.insert(id, lim);
            i = i + 1;
        }
        proof {
            assert(levels@.take(n as int) =~= levels@);
            assert(self@ =~= book_after_snapshot(old(self)@, levels@, ts as int));
        }
    }

    /// Applies a delta frame: deletes, then updates, then inserts.
    pub fn apply_delta(
        &mut self,
        del: &Vec<u64>,
        upd: &Vec<(u64, Limit)>,
        ins: &Vec<(u64, Limit)>,
        ts: i64,
    )
        ensures
            final(self)@ == book_after_delta(old(self)@, del@, upd@, ins@, ts as int),
    {
        self.timestamp = ts;
        let ghost m0 = old(self)@.limits;

        let nd = del.len();
        let mut i: usize = 0;
        assert(del@.take(0) =~= Seq::<u64>::empty());
        while i < nd
            invariant
                i <= nd,
                nd == del@.len(),
                self.timestamp == ts,
                self.limits@ == remove_levels(m0, del@.take(i as int)),
            decreases nd - i,
        {
            proof {
                assert(del@.take(i + 1).drop_last() =~= del@.take(i as int));
                assert(del@.take(i + 1).last() == del@[i as int]);
            }
            self.limits.remove(&del[i]);
            i = i + 1;
        }
        proof {
            assert(del@.take(nd as int) =~= del@);
        }

        let ghost m1 = remove_levels(m0, del@);
        let nu = upd.len();
        let mut j: usize = 0;
        assert(upd@.take(0) =~= Seq::<(u64, Limit)>::empty());
        while j < nu
            invariant
                j <= nu,
                nu == upd@.len(),
                self.timestamp == ts,
                self.limits@ == upsert_levels(m1, upd@.take(j as int)),
            decreases nu - j,
        {
            let (id, lim) = upd[j];
            proof {
                assert(upd@.take(j + 1).drop_last() =~= upd@.take(j as int));
                assert(upd@.take(j + 1).last() == upd@[j as int]);
            }
            self.limits.insert(id, lim);
            j = j + 1;
        }
        proof {
            assert(upd@.take(nu as int) =~= upd@);
        }

        let ghost m2 = upsert_levels(m1, upd@);
        let ni = ins.len();
        let mut k: usize = 0;
        assert(ins@.take(0) =~= Seq::<(u64, Limit)>::empty());
        while k < ni
            invariant
                k <= ni,
                ni == ins@.len(),
                self.timestamp == ts,
                self.limits@ == upsert_levels(m2, ins@.take(k as int)),
            decreases ni - k,
        {
            let (id, lim) = ins[k];
            proof {
                assert(ins@.take(k + 1).drop_last() =~= ins@.take(k as int));
                assert(ins@.take(k + 1).last() == ins@[k as int]);
            }
            self.limits.insert(id, lim);
            k = k + 1;
        }
        proof {
            assert(ins@.take(ni as int) =~= ins@);
            assert(self@ =~= book_after_delta(old(self)@, del@, upd@, ins@, ts as int));
        }
    }
}

/// What a side string on the wire denotes.
pub open spec fn spec_order_of(s: Seq<char>) -> Result<Order, Error> {
    if s == "Buy"@ {
        Ok(Order::Buy)
    } else if s == "Sell"@ {
        Ok(Order::Sell)
    } else {
        Err(Error::Decoding)
    }
}

/// Reads a wire side string.
pub fn order_of_string(s: &String) -> (r: Result<Order, Error>)
    ensures
        r == spec_order_of(s@),
{
    if s.eq(&String::from_str("Buy")) {
        Ok(Order::Buy)
    } else if s.eq(&String::from_str("Sell")) {
        Ok(Order::Sell)
    } else {
        Err(Error::Decoding)
    }
}

/// What one payload element denotes as a book level: an object carrying the
/// level id, a decimal price string, the side, and a size. Any missing or
/// ill-shaped field is a decoding failure.
pub open spec fn spec_parse_level(v: JsonVal) -> Result<(u64, Limit), Error> {
    match spec_req_u64(v, "id"@) {
        Ok(id) => match spec_req_decimal_string(v, "price"@) {
            Ok(price) => match spec_req_order(v, "side"@) {
                Ok(side) => match spec_req_u32(v, "size"@) {
                    Ok(size) => Ok((id, Limit { price, side, size })),
                    Err(e) => Err(e),
                },
                Err(e) => Err(e),
            },
            Err(e) => Err(e),
        },
        Err(e) => Err(e),
    }
}

/// Reads one payload element as a book level.
pub(crate) fn parse_level(v: &JsonVal) -> (r: Result<(u64, Limit), Error>)
    ensures
        r == spec_parse_level(*v),
{
    let id = match req_u64(v, "id") {
        Ok(id) => id,
        Err(e) => {
            return Err(e);
        },
    };
    let price = match req_decimal_string(v, "price") {
        Ok(d) => d,
        Err(e) => {
            return Err(e);
        },
    };
    let side = match req_order(v, "side") {
        Ok(o) => o,
        Err(e) => {
            return Err(e);
        },
    };
    let size = match req_u32(v, "size") {
        Ok(n) => n,
        Err(e) => {
            return Err(e);
        },
    };
    Ok((id, Limit { price, side, size }))
}

/// What a whole payload array denotes: every element read as a level, in
/// array order, or the first failure.
pub open spec fn spec_parse_levels(vs: Seq<JsonVal>) -> Result<Seq<(u64, Limit)>, Error>
    decreases vs.len(),
{
    if vs.len() == 0 {
        Ok(Seq::empty())
    } else {
        match spec_parse_level(vs[0]) {
            Ok(p) => match spec_parse_levels(vs.skip(1)) {
                Ok(rest) => Ok(seq![p] + rest),
                Err(e) => Err(e),
            },
            Err(e) => Err(e),
        }
    }
}

/// Reads a whole payload array of book levels.
pub(crate) fn parse_levels(data: &Vec<JsonVal>) -> (r: Result<Vec<(u64, Limit)>, Error>)
    ensures
        r matches Ok(out) ==> spec_parse_levels(data@) == Ok::<Seq<(u64, Limit)>, Error>(out@),
        r matches Err(e) ==> spec_parse_levels(data@) == Err::<Seq<(u64, Limit)>, Error>(e),
{
    let mut out: Vec<(u64, Limit)> = Vec::new();
    let n = data.len();
    let mut i: usize = 0;
    proof {
        assert(data@.skip(0) =~= data@);
    }
    while i < n
        invariant
            i <= n,
            n == data@.len(),
            spec_parse_levels(data@) == (match spec_parse_levels(data@.skip(i as int)) {
                Ok(rest) => Ok::<Seq<(u64, Limit)>, Error>(out@ + rest),
                Err(e) => Err(e),
            }),
        decreases n - i,
    {
        proof {
            assert(data@.skip(i as int)[0] == data@[i as int]);
            assert(data@.skip(i as int).skip(1) =~= data@.skip(i + 1));
        }
        let ghost pre = out@;
        match parse_level(&data[i]) {
            Ok(p) => {
                out.push(p);
                proof {
                    if spec_parse_levels(data@.skip(i + 1)) is Ok {
                        let rest = spec_parse_levels(data@.skip(i + 1))->Ok_0;
                        assert(pre + (seq![p] + rest) =~= out@ + rest);
                    }
                }
            },
            Err(e) => {
                return Err(e);
            },
        }
        i = i + 1;
    }
    proof {
        assert(data@.skip(n as int).len() == 0);
        assert(out@ + Seq::<(u64, Limit)>::empty() =~= out@);
    }
    Ok(out)
}

/// Law: upserting the same level twice, by the same id, leaves the book in
/// exactly the state one upsert leaves it in.
pub proof fn lemma_upsert_idempotent(b: BookView, id: u64, level: Limit, ts: int)
    ensures
        book_after_delta(
            book_after_delta(b, Seq::empty(), Seq::empty(), seq![(id, level)], ts),
            Seq::empty(),
            Seq::empty(),
            seq![(id, level)],
            ts,
        ) == book_after_delta(b, Seq::empty(), Seq::empty(), seq![(id, level)], ts),
{
    let once = book_after_delta(b, Seq::empty(), Seq::empty(), seq![(id, level)], ts);
    let twice = book_after_delta(once, Seq::empty(), Seq::empty(), seq![(id, level)], ts);
    assert(seq![(id, level)].drop_last() =~= Seq::<(u64, Limit)>::empty());
    assert(once.limits == b.limits.insert(id, level));
    assert(twice.limits == b.limits.insert(id, level).insert(id, level));
    assert(b.limits.insert(id, level).insert(id, level) =~= b.limits.insert(id, level));
    assert(twice =~= once);
}

/// Law: in a delta that deletes an id and inserts a level under the same id,
/// the insert wins — the delete only removes, and the insert then adds.
pub proof fn lemma_delete_then_insert(b: BookView, id: u64, level: Limit, ts: int)
    ensures
        book_after_delta(b, seq![id], Seq::empty(), seq![(id, level)], ts).limits.contains_key(id),
        book_after_delta(b, seq![id], Seq::empty(), seq![(id, level)], ts).limits[id] == level,
{
    assert(seq![id].drop_last() =~= Seq::<u64>::empty());
    assert(seq![(id, level)].drop_last() =~= Seq::<(u64, Limit)>::empty());
}

/// Law: a snapshot at one instant followed by a delta at a later instant
/// leaves the book reporting the delta's instant.
pub proof fn lemma_snapshot_then_delta_timestamp(
    b: BookView,
    levels: Seq<(u64, Limit)>,
    t1: int,
    del: Seq<u64>,
    upd: Seq<(u64, Limit)>,
    ins: Seq<(u64, Limit)>,
    t2: int,
)
    ensures
        book_after_delta(book_after_snapshot(b, levels, t1), del, upd, ins, t2).timestamp == t2,
{
}

} // verus!
