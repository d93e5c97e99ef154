use vstd::prelude::*;
use crate::common::{Endpoint, Side, Symbol, API};
use crate::decimal::{dec_digits, dec_string_of, u64_to_string, Decimal};
use crate::error::Error;
use crate::decimal::{parse_decimal, spec_decimal_of};
use crate::fields::{opt_u64, req_u64, spec_opt_u64, spec_req_u64};
use crate::json::{jfield, jget, json_of, jtake, parse_json, JsonVal};
use crate::query::{canon_pairs, qinsert, Query};
use crate::signer::signature_of;

verus! {

/// The HTTP verbs the request layer uses.
#[derive(Clone, Copy, Debug, PartialEq, Eq, Structural)]
pub enum Method {
    Get,
    Post,
}

/// A fully prepared request: the verb, the path under the endpoint's host,
/// and the parameters to send. Sending it is the transport's job.
pub struct Request {
    pub method: Method,
    pub path: String,
    pub query: Query,
}

/// Candlestick resolution of the kline endpoints.
pub enum Interval {
    OneMin,
    ThreeMin,
    FiveMin,
    FifteenMin,
    ThirtyMin,
    OneHour,
    TwoHour,
    FourHour,
    SixHour,
    TwelveHour,
    Day,
    Week,
    Month,
}

impl Interval {
    pub open spec fn wire_spec(self) -> Seq<char> {
        match self {
            Interval::OneMin => "1"@,
            Interval::ThreeMin => "3"@,
            Interval::FiveMin => "5"@,
            Interval::FifteenMin => "15"@,
            Interval::ThirtyMin => "30"@,
            Interval::OneHour => "60"@,
            Interval::TwoHour => "120"@,
            Interval::FourHour => "240"@,
            Interval::SixHour => "360"@,
            Interval::TwelveHour => "720"@,
            Interval::Day => "D"@,
            Interval::Week => "W"@,
            Interval::Month => "M"@,
        }
    }

    pub fn to_string(&self) -> (r: String)
        ensures
            r@ == self.wire_spec(),
    {
        match self {
            Interval::OneMin => String::from_str("1"),
            Interval::ThreeMin => String::from_str("3"),
            Interval::FiveMin => String::from_str("5"),
            Interval::FifteenMin => String::from_str("15"),
            Interval::ThirtyMin => String::from_str("30"),
            Interval::OneHour => String::from_str("60"),
            Interval::TwoHour => String::from_str("120"),
            Interval::FourHour => String::from_str("240"),
            Interval::SixHour => String::from_str("360"),
            Interval::TwelveHour => String::from_str("720"),
            Interval::Day => String::from_str("D"),
            Interval::Week => String::from_str("W"),
            Interval::Month => String::from_str("M"),
        }
    }
}

/// Aggregation window of the statistics endpoints.
pub enum Period {
    FiveMin,
    FifteenMin,
    ThirtyMin,
    OneHour,
    FourHour,
    OneDay,
}

impl Period {
    pub open spec fn wire_spec(self) -> Seq<char> {
        match self {
            Period::FiveMin => "5min"@,
            Period::FifteenMin => "15min"@,
            Period::ThirtyMin => "30min"@,
            Period::OneHour => "1h"@,
            Period::FourHour => "4h"@,
            Period::OneDay => "1d"@,
        }
    }

    pub fn to_string(&self) -> (r: String)
        ensures
            r@ == self.wire_spec(),
    {
        match self {
            Period::FiveMin => String::from_str("5min"),
            Period::FifteenMin => String::from_str("15min"),
            Period::ThirtyMin => String::from_str("30min"),
            Period::OneHour => String::from_str("1h"),
            Period::FourHour => String::from_str("4h"),
            Period::OneDay => String::from_str("1d"),
        }
    }
}

pub enum OrderType {
    Limit,
    Market,
}

impl OrderType {
    pub open spec fn wire_spec(self) -> Seq<char> {
        match self {
            OrderType::Limit => "Limit"@,
            OrderType::Market => "Market"@,
        }
    }

    pub fn to_string(&self) -> (r: String)
        ensures
            r@ == self.wire_spec(),
    {
        match self {
            OrderType::Limit => String::from_str("Limit"),
            OrderType::Market => String::from_str("Market"),
        }
    }
}

pub enum TimeInForce {
    GoodTillCancel,
    ImmediateOrCancel,
    FillOrKill,
    PostOnly,
}

impl TimeInForce {
    pub open spec fn wire_spec(self) -> Seq<char> {
        match self {
            TimeInForce::GoodTillCancel => "GoodTillCancel"@,
            TimeInForce::ImmediateOrCancel => "ImmediateOrCancel"@,
            TimeInForce::FillOrKill => "FillOrKill"@,
            TimeInForce::PostOnly => "PostOnly"@,
        }
    }

    pub fn to_string(&self) -> (r: String)
        ensures
            r@ == self.wire_spec(),
    {
        match self {
            TimeInForce::GoodTillCancel => String::from_str("GoodTillCancel"),
            TimeInForce::ImmediateOrCancel => String::from_str("ImmediateOrCancel"),
            TimeInForce::FillOrKill => String::from_str("FillOrKill"),
            TimeInForce::PostOnly => String::from_str("PostOnly"),
        }
    }
}

pub enum OrderStatus {
    Filled,
    New,
}

impl OrderStatus {
    pub open spec fn wire_spec(self) -> Seq<char> {
        match self {
            OrderStatus::Filled => "Filled"@,
            OrderStatus::New => "New"@,
        }
    }

    pub fn to_string(&self) -> (r: String)
        ensures
            r@ == self.wire_spec(),
    {
        match self {
            OrderStatus::Filled => String::from_str("Filled"),
            OrderStatus::New => String::from_str("New"),
        }
    }
}

/// Documented result codes of the request API.
#[allow(dead_code)]
pub enum ReturnCode {
    OK,
    APIKeyExpired,
}

/// The request-side client: an endpoint and the credentials used to sign
/// private calls. The transport that sends the prepared requests lives with
/// the runner.
pub struct Rest {
    pub endpoint: Endpoint,
    pub api_key: API,
}

/// Staged builder for the request client.
pub struct RestBuilder<EndpointType, ApiType> {
    pub endpoint: EndpointType,
    pub api_key: ApiType,
}

impl RestBuilder<(), ()> {
    pub fn new() -> (r: RestBuilder<(), ()>) {
        RestBuilder { endpoint: (), api_key: () }
    }
}

impl<EndpointType, ApiType> RestBuilder<EndpointType, ApiType> {
    pub fn endpoint(self, endpoint: Endpoint) -> (r: RestBuilder<Endpoint, ApiType>)
        ensures
            r.endpoint == endpoint,
            r.api_key == self.api_key,
    {
        RestBuilder { endpoint, api_key: self.api_key }
    }

    pub fn api(self, api_key: API) -> (r: RestBuilder<EndpointType, API>)
        ensures
            r.api_key == api_key,
            r.endpoint == self.endpoint,
    {
        RestBuilder { endpoint: self.endpoint, api_key }
    }
}

impl RestBuilder<Endpoint, API> {
    pub fn build(self) -> (r: Rest)
        ensures
            r.endpoint == self.endpoint,
            r.api_key == self.api_key,
    {
        Rest { endpoint: self.endpoint, api_key: self.api_key }
    }
}

/// A boolean request parameter's text.
pub open spec fn bool_wire(b: bool) -> Seq<char> {
    if b {
        "true"@
    } else {
        "false"@
    }
}

pub fn bool_string(b: bool) -> (r: String)
    ensures
        r@ == bool_wire(b),
{
    if b {
        String::from_str("true")
    } else {
        String::from_str("false")
    }
}

/// An empty parameter set.
pub open spec fn q0() -> Seq<(Seq<char>, Seq<char>)> {
    Seq::empty()
}

/// The parameter set inserted when an optional value is present.
pub open spec fn qinsert_opt(
    s: Seq<(Seq<char>, Seq<char>)>,
    k: Seq<char>,
    v: Option<Seq<char>>,
) -> Seq<(Seq<char>, Seq<char>)> {
    match v {
        Option::None => s,
        Option::Some(t) => qinsert(s, k, t),
    }
}

/// A parameter set extended with the injected timestamp and api_key, then
/// with the signature over its canonical text.
pub open spec fn signed_query(
    params: Seq<(Seq<char>, Seq<char>)>,
    key: Seq<char>,
    secret: Seq<char>,
    now_ms: nat,
) -> Seq<(Seq<char>, Seq<char>)> {
    let with_ts = qinsert(params, "timestamp"@, dec_digits(now_ms));
    let with_key = qinsert(with_ts, "api_key"@, key);
    qinsert(with_key, "sign"@, signature_of(secret, canon_pairs(with_key)))
}

impl Rest {
    pub fn builder() -> (r: RestBuilder<(), ()>) {
        RestBuilder::new()
    }

    /// The signature of a parameter set: the keyed digest of its canonical
    /// `&`-joined, key-sorted `key=value` text.
    pub fn sign(&self, query: &Query) -> (r: String)
        ensures
            r@ == signature_of(self.api_key.secret@, canon_pairs(query@)),
    {
        let canonical = query.canonical();
        crate::signer::sign(self.api_key.secret.as_str(), canonical.as_str())
    }

    /// Extends the parameters of a private call with the current timestamp
    /// (milliseconds), the api_key, and the signature over everything else.
    pub fn construct_query(&self, query: Query, now_ms: u64) -> (r: Query)
        ensures
            r@ == signed_query(
                query@,
                self.api_key.key@,
                self.api_key.secret@,
                now_ms as nat,
            ),
    {
        let mut q = query;
        q.insert(String::from_str("timestamp"), u64_to_string(now_ms));
        q.insert(String::from_str("api_key"), self.api_key.key.clone());
        let signature = self.sign(&q);
        q.insert(String::from_str("sign"), signature);
        q
    }

    /// Order-book depth for one symbol.
    pub fn public_orderbook_l2(&self, symbol: Symbol) -> (r: Request)
        ensures
            r.method == Method::Get,
            r.path@ == "/v2/public/orderBook/L2"@,
            r.query@ == qinsert(q0(), "symbol"@, symbol.wire_spec()),
    {
        let mut q = Query::new();
        q.insert(String::from_str("symbol"), symbol.to_string());
        Request { method: Method::Get, path: String::from_str("/v2/public/orderBook/L2"), query: q }
    }

    /// Candlesticks of one symbol from a starting instant.
    pub fn public_kline_list(
        &self,
        symbol: Symbol,
        interval: Interval,
        from: u64,
        limit: Option<u64>,
    ) -> (r: Request)
        ensures
            r.method == Method::Get,
            r.path@ == "/v2/public/kline/list"@,
            r.query@ == kline_query(symbol, interval, from as nat, limit),
    {
        let mut q = Query::new();
        q.insert(String::from_str("symbol"), symbol.to_string());
        q.insert(String::from_str("interval"), interval.to_string());
        q.insert(String::from_str("from"), u64_to_string(from));
        match limit {
            Some(l) => q.insert(String::from_str("limit"), u64_to_string(l)),
            None => (),
        }
        Request { method: Method::Get, path: String::from_str("/v2/public/kline/list"), query: q }
    }

    /// The latest ticker of one symbol, or of all symbols.
    pub fn public_tickers(&self, symbol: Option<Symbol>) -> (r: Request)
        ensures
            r.method == Method::Get,
            r.path@ == "/v2/public/tickers"@,
            r.query@ == qinsert_opt(
                q0(),
                "symbol"@,
                match symbol {
                    Option::None => Option::<Seq<char>>::None,
                    Option::Some(s) => Option::Some(s.wire_spec()),
                },
            ),
    {
        let mut q = Query::new();
        match symbol {
            Some(s) => q.insert(String::from_str("symbol"), s.to_string()),
            None => (),
        }
        Request { method: Method::Get, path: String::from_str("/v2/public/tickers"), query: q }
    }

    /// Recent trades of one symbol.
    pub fn public_trading_records(
        &self,
        symbol: Symbol,
        from: Option<u64>,
        limit: Option<u64>,
    ) -> (r: Request)
        ensures
            r.method == Method::Get,
            r.path@ == "/v2/public/trading-records"@,
            r.query@ == qinsert_opt(
                qinsert_opt(
                    qinsert(q0(), "symbol"@, symbol.wire_spec()),
                    "from"@,
                    opt_digits(from),
                ),
                "limit"@,
                opt_digits(limit),
            ),
    {
        let mut q = Query::new();
        q.insert(String::from_str("symbol"), symbol.to_string());
        match from {
            Some(f) => q.insert(String::from_str("from"), u64_to_string(f)),
            None => (),
        }
        match limit {
            Some(l) => q.insert(String::from_str("limit"), u64_to_string(l)),
            None => (),
        }
        Request {
            method: Method::Get,
            path: String::from_str("/v2/public/trading-records"),
            query: q,
        }
    }

    /// Every symbol the exchange offers.
    pub fn public_symbols(&self) -> (r: Request)
        ensures
            r.method == Method::Get,
            r.path@ == "/v2/public/symbols"@,
            r.query@ == q0(),
    {
        Request { method: Method::Get, path: String::from_str("/v2/public/symbols"), query: Query::new() }
    }

    /// Liquidation records of one symbol within an optional range.
    pub fn public_liq_records(
        &self,
        symbol: Symbol,
        from: Option<u64>,
        limit: Option<u64>,
        start_time: Option<u64>,
        end_time: Option<u64>,
    ) -> (r: Request)
        ensures
            r.method == Method::Get,
            r.path@ == "/v2/public/liq-records"@,
            r.query@ == qinsert_opt(
                qinsert_opt(
                    qinsert_opt(
                        qinsert_opt(
                            qinsert(q0(), "symbol"@, symbol.wire_spec()),
                            "from"@,
                            opt_digits(from),
                        ),
                        "limit"@,
                        opt_digits(limit),
                    ),
                    "start_time"@,
                    opt_digits(start_time),
                ),
                "end_time"@,
                opt_digits(end_time),
            ),
    {
        let mut q = Query::new();
        q.insert(String::from_str("symbol"), symbol.to_string());
        match from {
            Some(f) => q.insert(String::from_str("from"), u64_to_string(f)),
            None => (),
        }
        match limit {
            Some(l) => q.insert(String::from_str("limit"), u64_to_string(l)),
            None => (),
        }
        match start_time {
            Some(t) => q.insert(String::from_str("start_time"), u64_to_string(t)),
            None => (),
        }
        match end_time {
            Some(t) => q.insert(String::from_str("end_time"), u64_to_string(t)),
            None => (),
        }
        Request { method: Method::Get, path: String::from_str("/v2/public/liq-records"), query: q }
    }

    /// Mark-price candlesticks of one symbol.
    pub fn public_mark_price_kline(
        &self,
        symbol: Symbol,
        interval: Interval,
        from: u64,
        limit: Option<u64>,
    ) -> (r: Request)
        ensures
            r.method == Method::Get,
            r.path@ == "/v2/public/mark-price-kline"@,
            r.query@ == kline_query(symbol, interval, from as nat, limit),
    {
        let mut q = Query::new();
        q.insert(String::from_str("symbol"), symbol.to_string());
        q.insert(String::from_str("interval"), interval.to_string());
        q.insert(String::from_str("from"), u64_to_string(from));
        match limit {
            Some(l) => q.insert(String::from_str("limit"), u64_to_string(l)),
            None => (),
        }
        Request {
            method: Method::Get,
            path: String::from_str("/v2/public/mark-price-kline"),
            query: q,
        }
    }

    /// Index-price candlesticks of one symbol.
    pub fn public_index_price_kline(
        &self,
        symbol: Symbol,
        interval: Interval,
        from: u64,
        limit: Option<u64>,
    ) -> (r: Request)
        ensures
            r.method == Method::Get,
            r.path@ == "/v2/public/index-price-kline"@,
            r.query@ == kline_query(symbol, interval, from as nat, limit),
    {
        let mut q = Query::new();
        q.insert(String::from_str("symbol"), symbol.to_string());
        q.insert(String::from_str("interval"), interval.to_string());
        q.insert(String::from_str("from"), u64_to_string(from));
        match limit {
            Some(l) => q.insert(String::from_str("limit"), u64_to_string(l)),
            None => (),
        }
        Request {
            method: Method::Get,
            path: String::from_str("/v2/public/index-price-kline"),
            query: q,
        }
    }

    /// Premium-index candlesticks of one symbol.
    pub fn public_premium_price_kline(
        &self,
        symbol: Symbol,
        interval: Interval,
        from: u64,
        limit: Option<u64>,
    ) -> (r: Request)
        ensures
            r.method == Method::Get,
            r.path@ == "/v2/public/premium-index-kline"@,
            r.query@ == kline_query(symbol, interval, from as nat, limit),
    {
        let mut q = Query::new();
        q.insert(String::from_str("symbol"), symbol.to_string());
        q.insert(String::from_str("interval"), interval.to_string());
        q.insert(String::from_str("from"), u64_to_string(from));
        match limit {
            Some(l) => q.insert(String::from_str("limit"), u64_to_string(l)),
            None => (),
        }
        Request {
            method: Method::Get,
            path: String::from_str("/v2/public/premium-index-kline"),
            query: q,
        }
    }

    /// Open interest of one symbol over a period.
    pub fn public_open_interest(
        &self,
        symbol: Symbol,
        period: Period,
        limit: Option<u64>,
    ) -> (r: Request)
        ensures
            r.method == Method::Get,
            r.path@ == "/v2/public/open-interest"@,
            r.query@ == qinsert_opt(
                qinsert(
                    qinsert(q0(), "symbol"@, symbol.wire_spec()),
                    "period"@,
                    period.wire_spec(),
                ),
                "limit"@,
                opt_digits(limit),
            ),
    {
        let mut q = Query::new();
        q.insert(String::from_str("symbol"), symbol.to_string());
        q.insert(String::from_str("period"), period.to_string());
        match limit {
            Some(l) => q.insert(String::from_str("limit"), u64_to_string(l)),
            None => (),
        }
        Request { method: Method::Get, path: String::from_str("/v2/public/open-interest"), query: q }
    }

    /// Recent large trades of one symbol.
    pub fn public_big_deal(&self, symbol: Symbol, limit: Option<u64>) -> (r: Request)
        ensures
            r.method == Method::Get,
            r.path@ == "/v2/public/big-deal"@,
            r.query@ == qinsert_opt(
                qinsert(q0(), "symbol"@, symbol.wire_spec()),
                "limit"@,
                opt_digits(limit),
            ),
    {
        let mut q = Query::new();
        q.insert(String::from_str("symbol"), symbol.to_string());
        match limit {
            Some(l) => q.insert(String::from_str("limit"), u64_to_string(l)),
            None => (),
        }
        Request { method: Method::Get, path: String::from_str("/v2/public/big-deal"), query: q }
    }

    /// Long/short account ratio of one symbol over a period.
    pub fn public_account_ratio(
        &self,
        symbol: Symbol,
        period: Period,
        limit: Option<u64>,
    ) -> (r: Request)
        ensures
            r.method == Method::Get,
            r.path@ == "/v2/public/account-ratio"@,
            r.query@ == qinsert_opt(
                qinsert(
                    qinsert(q0(), "symbol"@, symbol.wire_spec()),
                    "period"@,
                    period.wire_spec(),
                ),
                "limit"@,
                opt_digits(limit),
            ),
    {
        let mut q = Query::new();
        q.insert(String::from_str("symbol"), symbol.to_string());
        q.insert(String::from_str("period"), period.to_string());
        match limit {
            Some(l) => q.insert(String::from_str("limit"), u64_to_string(l)),
            None => (),
        }
        Request { method: Method::Get, path: String::from_str("/v2/public/account-ratio"), query: q }
    }

    /// The exchange's clock.
    pub fn public_server_time(&self) -> (r: Request)
        ensures
            r.method == Method::Get,
            r.path@ == "/v2/public/time"@,
            r.query@ == q0(),
    {
        Request { method: Method::Get, path: String::from_str("/v2/public/time"), query: Query::new() }
    }

    /// Places an order. The parameters are signed with the given instant
    /// (milliseconds) as the injected timestamp.
    pub fn private_order_create(
        &self,
        side: Side,
        symbol: Symbol,
        order_type: OrderType,
        qty: u64,
        price: Option<Decimal>,
        time_in_force: TimeInForce,
        take_profit: Option<Decimal>,
        stop_loss: Option<Decimal>,
        reduce_only: Option<bool>,
        close_on_trigger: Option<bool>,
        now_ms: u64,
    ) -> (r: Request)
        ensures
            r.method == Method::Post,
            r.path@ == "/v2/private/order/create"@,
            r.query@ == signed_query(
                order_create_query(
                    side,
                    symbol,
                    order_type,
                    qty as nat,
                    price,
                    time_in_force,
                    take_profit,
                    stop_loss,
                    reduce_only,
                    close_on_trigger,
                ),
                self.api_key.key@,
                self.api_key.secret@,
                now_ms as nat,
            ),
    {
        let mut q = Query::new();
        q.insert(String::from_str("side"), side.to_string());
        q.insert(String::from_str("symbol"), symbol.to_string());
        q.insert(String::from_str("order_type"), order_type.to_string());
        q.insert(String::from_str("qty"), u64_to_string(qty));
        q.insert(String::from_str("time_in_force"), time_in_force.to_string());
        match &price {
            Some(p) => q.insert(String::from_str("price"), p.to_string()),
            None => (),
        }
        match &take_profit {
            Some(p) => q.insert(String::from_str("take_profit"), p.to_string()),
            None => (),
        }
        match &stop_loss {
            Some(p) => q.insert(String::from_str("stop_loss"), p.to_string()),
            None => (),
        }
        match reduce_only {
            Some(b) => q.insert(String::from_str("reduce_only"), bool_string(b)),
            None => (),
        }
        match close_on_trigger {
            Some(b) => q.insert(String::from_str("close_on_trigger"), bool_string(b)),
            None => (),
        }
        let signed = self.construct_query(q, now_ms);
        Request {
            method: Method::Post,
            path: String::from_str("/v2/private/order/create"),
            query: signed,
        }
    }

    /// Lists the account's orders for one symbol, signed.
    pub fn private_order_list(
        &self,
        symbol: Symbol,
        order_status: Option<OrderStatus>,
        direction: Option<String>,
        limit: Option<u64>,
        cursor: Option<String>,
        now_ms: u64,
    ) -> (r: Request)
        ensures
            r.method == Method::Get,
            r.path@ == "/v2/private/order/list"@,
            r.query@ == signed_query(
                order_list_query(symbol, order_status, direction.deep_view(), limit, cursor.deep_view()),
                self.api_key.key@,
                self.api_key.secret@,
                now_ms as nat,
            ),
    {
        let mut q = Query::new();
        q.insert(String::from_str("symbol"), symbol.to_string());
        match &order_status {
            Some(s) => q.insert(String::from_str("order_status"), s.to_string()),
            None => (),
        }
        match direction {
            Some(d) => q.insert(String::from_str("direction"), d),
            None => (),
        }
        match limit {
            Some(l) => q.insert(String::from_str("limit"), u64_to_string(l)),
            None => (),
        }
        match cursor {
            Some(c) => q.insert(String::from_str("cursor"), c),
            None => (),
        }
        let signed = self.construct_query(q, now_ms);
        Request {
            method: Method::Get,
            path: String::from_str("/v2/private/order/list"),
            query: signed,
        }
    }

    /// Cancels one order by id, signed.
    pub fn private_cancel_order(
        &self,
        symbol: Symbol,
        order_id: String,
        order_link_id: Option<String>,
        now_ms: u64,
    ) -> (r: Request)
        ensures
            r.method == Method::Post,
            r.path@ == "/v2/private/order/cancel"@,
            r.query@ == signed_query(
                qinsert_opt(
                    qinsert(
                        qinsert(q0(), "symbol"@, symbol.wire_spec()),
                        "order_id"@,
                        order_id@,
                    ),
                    "order_link_id"@,
                    order_link_id.deep_view(),
                ),
                self.api_key.key@,
                self.api_key.secret@,
                now_ms as nat,
            ),
    {
        let mut q = Query::new();
        q.insert(String::from_str("symbol"), symbol.to_string());
        q.insert(String::from_str("order_id"), order_id);
        match order_link_id {
            Some(id) => q.insert(String::from_str("order_link_id"), id),
            None => (),
        }
        let signed = self.construct_query(q, now_ms);
        Request {
            method: Method::Post,
            path: String::from_str("/v2/private/order/cancel"),
            query: signed,
        }
    }

    /// Cancels every order of one symbol, signed.
    pub fn private_cancel_all_orders(&self, symbol: Symbol, now_ms: u64) -> (r: Request)
        ensures
            r.method == Method::Post,
            r.path@ == "/v2/private/order/cancelAll"@,
            r.query@ == signed_query(
                qinsert(q0(), "symbol"@, symbol.wire_spec()),
                self.api_key.key@,
                self.api_key.secret@,
                now_ms as nat,
            ),
    {
        let mut q = Query::new();
        q.insert(String::from_str("symbol"), symbol.to_string());
        let signed = self.construct_query(q, now_ms);
        Request {
            method: Method::Post,
            path: String::from_str("/v2/private/order/cancelAll"),
            query: signed,
        }
    }

    /// The account's positions, for one symbol or all. This call carries no
    /// signature parameters.
    pub fn private_position_list(&self, symbol: Option<Symbol>) -> (r: Request)
        ensures
            r.method == Method::Get,
            r.path@ == "/v2/private/position/list"@,
            r.query@ == qinsert_opt(
                q0(),
                "symbol"@,
                match symbol {
                    Option::None => Option::<Seq<char>>::None,
                    Option::Some(s) => Option::Some(s.wire_spec()),
                },
            ),
    {
        let mut q = Query::new();
        match symbol {
            Some(s) => q.insert(String::from_str("symbol"), s.to_string()),
            None => (),
        }
        Request {
            method: Method::Get,
            path: String::from_str("/v2/private/position/list"),
            query: q,
        }
    }
}

/// An optional count parameter's text.
pub open spec fn opt_digits(n: Option<u64>) -> Option<Seq<char>> {
    match n {
        Option::None => Option::None,
        Option::Some(v) => Option::Some(dec_digits(v as nat)),
    }
}

/// The parameters of a candlestick request.
pub open spec fn kline_query(
    symbol: Symbol,
    interval: Interval,
    from: nat,
    limit: Option<u64>,
) -> Seq<(Seq<char>, Seq<char>)> {
    qinsert_opt(
        qinsert(
            qinsert(
                qinsert(q0(), "symbol"@, symbol.wire_spec()),
                "interval"@,
                interval.wire_spec(),
            ),
            "from"@,
            dec_digits(from),
        ),
        "limit"@,
        opt_digits(limit),
    )
}

/// The unsigned parameters of an order placement.
pub open spec fn order_create_query(
    side: Side,
    symbol: Symbol,
    order_type: OrderType,
    qty: nat,
    price: Option<Decimal>,
    time_in_force: TimeInForce,
    take_profit: Option<Decimal>,
    stop_loss: Option<Decimal>,
    reduce_only: Option<bool>,
    close_on_trigger: Option<bool>,
) -> Seq<(Seq<char>, Seq<char>)> {
    let base = qinsert(
        qinsert(
            qinsert(
                qinsert(
                    qinsert(q0(), "side"@, side.wire_spec()),
                    "symbol"@,
                    symbol.wire_spec(),
                ),
                "order_type"@,
                order_type.wire_spec(),
            ),
            "qty"@,
            dec_digits(qty),
        ),
        "time_in_force"@,
        time_in_force.wire_spec(),
    );
    let with_price = qinsert_opt(base, "price"@, opt_dec_string(price));
    let with_tp = qinsert_opt(with_price, "take_profit"@, opt_dec_string(take_profit));
    let with_sl = qinsert_opt(with_tp, "stop_loss"@, opt_dec_string(stop_loss));
    let with_ro = qinsert_opt(with_sl, "reduce_only"@, opt_bool_string(reduce_only));
    qinsert_opt(with_ro, "close_on_trigger"@, opt_bool_string(close_on_trigger))
}

/// An optional decimal parameter's text.
pub open spec fn opt_dec_string(d: Option<Decimal>) -> Option<Seq<char>> {
    match d {
        Option::None => Option::None,
        Option::Some(v) => Option::Some(dec_string_of(v)),
    }
}

/// An optional boolean parameter's text.
pub open spec fn opt_bool_string(b: Option<bool>) -> Option<Seq<char>> {
    match b {
        Option::None => Option::None,
        Option::Some(v) => Option::Some(bool_wire(v)),
    }
}

/// The unsigned parameters of an order listing.
pub open spec fn order_list_query(
    symbol: Symbol,
    order_status: Option<OrderStatus>,
    direction: Option<Seq<char>>,
    limit: Option<u64>,
    cursor: Option<Seq<char>>,
) -> Seq<(Seq<char>, Seq<char>)> {
    let base = qinsert(q0(), "symbol"@, symbol.wire_spec());
    let with_status = qinsert_opt(
        base,
        "order_status"@,
        match order_status {
            Option::None => Option::<Seq<char>>::None,
            Option::Some(s) => Option::Some(s.wire_spec()),
        },
    );
    let with_dir = qinsert_opt(with_status, "direction"@, direction);
    let with_limit = qinsert_opt(with_dir, "limit"@, opt_digits(limit));
    qinsert_opt(with_limit, "cursor"@, cursor)
}

/// One reply of the request transport: the documented result fields, with
/// the payload in its decoded JSON shape and the server clock (`time_now`,
/// seconds since the epoch) as a fixed-point value.
pub struct RestResponse {
    pub ret_code: u64,
    pub ret_msg: String,
    pub ext_code: String,
    pub ext_info: String,
    pub result: JsonVal,
    pub timestamp: Decimal,
    pub rate_limit_status: Option<u64>,
    pub rate_limit_reset_ms: Option<u64>,
    pub rate_limit: Option<u64>,
}

/// What a decoded reply body denotes: the required fields must be present
/// and well-typed, the rate-limit fields are optional, and anything else is
/// a decoding failure.
pub open spec fn spec_parse_rest_response(v: JsonVal) -> Result<RestResponse, Error> {
    match spec_req_u64(v, "ret_code"@) {
        Ok(ret_code) => match jfield(v, "ret_msg"@) {
            Option::Some(JsonVal::Text(ret_msg)) => match jfield(v, "ext_code"@) {
                Option::Some(JsonVal::Text(ext_code)) => match jfield(v, "ext_info"@) {
                    Option::Some(JsonVal::Text(ext_info)) => match jfield(v, "result"@) {
                        Option::Some(result) => match jfield(v, "time_now"@) {
                            Option::Some(JsonVal::Text(tn)) => match spec_decimal_of(tn@) {
                                Option::Some(timestamp) => match spec_opt_u64(
                                    v,
                                    "rate_limit_status"@,
                                ) {
                                    Ok(rate_limit_status) => match spec_opt_u64(
                                        v,
                                        "rate_limit_reset_ms"@,
                                    ) {
                                        Ok(rate_limit_reset_ms) => match spec_opt_u64(
                                            v,
                                            "rate_limit"@,
                                        ) {
                                            Ok(rate_limit) => Ok(
                                                RestResponse {
                                                    ret_code,
                                                    ret_msg,
                                                    ext_code,
                                                    ext_info,
                                                    result,
                                                    timestamp,
                                                    rate_limit_status,
                                                    rate_limit_reset_ms,
                                                    rate_limit,
                                                },
                                            ),
                                            Err(e) => Err(e),
                                        },
                                        Err(e) => Err(e),
                                    },
                                    Err(e) => Err(e),
                                },
                                Option::None => Err(Error::Decoding),
                            },
                            _ => Err(Error::Decoding),
                        },
                        Option::None => Err(Error::Decoding),
                    },
                    _ => Err(Error::Decoding),
                },
                _ => Err(Error::Decoding),
            },
            _ => Err(Error::Decoding),
        },
        Err(e) => Err(e),
    }
}

/// Reads a decoded reply body.
pub(crate) fn decode_rest_response(v: JsonVal) -> (r: Result<RestResponse, Error>)
    ensures
        r == spec_parse_rest_response(v),
{
    let ret_code = match req_u64(&v, "ret_code") {
        Ok(x) => x,
        Err(e) => {
            return Err(e);
        },
    };
    let ret_msg = match jget(&v, "ret_msg") {
        Some(f) => match f {
            JsonVal::Text(s) => s.clone(),
            _ => {
                return Err(Error::Decoding);
            },
        },
        None => {
            return Err(Error::Decoding);
        },
    };
    let ext_code = match jget(&v, "ext_code") {
        Some(f) => match f {
            JsonVal::Text(s) => s.clone(),
            _ => {
                return Err(Error::Decoding);
            },
        },
        None => {
            return Err(Error::Decoding);
        },
    };
    let ext_info = match jget(&v, "ext_info") {
        Some(f) => match f {
            JsonVal::Text(s) => s.clone(),
            _ => {
                return Err(Error::Decoding);
            },
        },
        None => {
            return Err(Error::Decoding);
        },
    };
    let timestamp = match jget(&v, "time_now") {
        Some(f) => match f {
            JsonVal::Text(s) => match parse_decimal(s.as_str()) {
                Some(d) => d,
                None => {
                    return Err(Error::Decoding);
                },
            },
            _ => {
                return Err(Error::Decoding);
            },
        },
        None => {
            return Err(Error::Decoding);
        },
    };
    let rate_limit_status = match opt_u64(&v, "rate_limit_status") {
        Ok(x) => x,
        Err(e) => {
            return Err(e);
        },
    };
    let rate_limit_reset_ms = match opt_u64(&v, "rate_limit_reset_ms") {
        Ok(x) => x,
        Err(e) => {
            return Err(e);
        },
    };
    let rate_limit = match opt_u64(&v, "rate_limit") {
        Ok(x) => x,
        Err(e) => {
            return Err(e);
        },
    };
    if jget(&v, "result").is_none() {
        return Err(Error::Decoding);
    }
    let result = match jtake(v, "result") {
        Some(d) => d,
        None => {
            // The field was just seen; this arm cannot be reached.
            proof {
                assert(false);
            }
            return Err(Error::Decoding);
        },
    };
    Ok(
        RestResponse {
            ret_code,
            ret_msg,
            ext_code,
            ext_info,
            result,
            timestamp,
            rate_limit_status,
            rate_limit_reset_ms,
            rate_limit,
        },
    )
}

/// Reads a reply body from its text: exactly the response the body's JSON
/// denotes, a decoding failure otherwise.
pub fn parse_rest_response(text: &str) -> (r: Result<RestResponse, Error>)
    ensures
        json_of(text@) is None ==> r == Err::<RestResponse, Error>(Error::Decoding),
        json_of(text@) matches Some(v) ==> r == spec_parse_rest_response(v),
{
    match parse_json(text) {
        Some(v) => decode_rest_response(v),
        None => Err(Error::Decoding),
    }
}

} // verus!
