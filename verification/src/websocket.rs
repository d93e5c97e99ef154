use vstd::prelude::*;
use crate::common::{Endpoint, Symbol, API};
use crate::enums::Topic;
use crate::error::Error;
use crate::decimal::{dec_digits, parse_i64_str, spec_i64_of, u64_to_string};
use crate::json::{jfield, jget, jtake, json_of, parse_json, JsonVal};
use crate::signer::{auth_message_of, auth_signature, signature_of};
use crate::store::{store_step, MarketStore};
use crate::text::{append_json_escaped, json_escaped};

verus! {

/// Envelope every inbound data frame is decoded into before dispatch: the
/// channel's topic string, an optional frame kind ("snapshot" or "delta"),
/// an optional timestamp (microseconds since the epoch, the wire's
/// timestamp_e6), and the payload, still in its decoded JSON shape. A frame
/// that does not fit this shape is treated as a protocol acknowledgement
/// instead.
pub struct WebSocketResponse {
    pub topic: String,
    pub msg_type: Option<String>,
    pub timestamp: Option<i64>,
    pub data: JsonVal,
}

/// The envelope's optional kind field: absent or null is no kind, a string
/// is the kind, anything else fails the envelope shape.
pub open spec fn envelope_kind(v: JsonVal) -> Result<Option<String>, Error> {
    match jfield(v, "type"@) {
        Option::None => Ok(Option::None),
        Option::Some(JsonVal::Null) => Ok(Option::None),
        Option::Some(JsonVal::Text(s)) => Ok(Option::Some(s)),
        _ => Err(Error::Decoding),
    }
}

/// The envelope's optional timestamp field: absent or null is no timestamp,
/// a signed integer number is the instant, anything else fails the shape.
pub open spec fn envelope_timestamp(v: JsonVal) -> Result<Option<i64>, Error> {
    match jfield(v, "timestamp_e6"@) {
        Option::None => Ok(Option::None),
        Option::Some(JsonVal::Null) => Ok(Option::None),
        Option::Some(JsonVal::Num(s)) => match spec_i64_of(s@) {
            Option::Some(t) => Ok(Option::Some(t)),
            Option::None => Err(Error::Decoding),
        },
        _ => Err(Error::Decoding),
    }
}

/// What a decoded frame denotes as an envelope: `topic` (a string) and
/// `data` are required, `type` and `timestamp_e6` optional. Any other shape
/// is a decoding failure, on which the caller falls back to the
/// acknowledgement reading.
pub open spec fn spec_decode_envelope(v: JsonVal) -> Result<WebSocketResponse, Error> {
    match jfield(v, "topic"@) {
        Option::Some(JsonVal::Text(topic)) => match envelope_kind(v) {
            Ok(msg_type) => match envelope_timestamp(v) {
                Ok(timestamp) => match jfield(v, "data"@) {
                    Option::Some(data) => Ok(
                        WebSocketResponse { topic, msg_type, timestamp, data },
                    ),
                    Option::None => Err(Error::Decoding),
                },
                Err(e) => Err(e),
            },
            Err(e) => Err(e),
        },
        _ => Err(Error::Decoding),
    }
}

/// Reads a decoded frame as an envelope, handing the frame back whole when
/// it does not fit the envelope shape.
pub(crate) fn decode_envelope(v: JsonVal) -> (r: Result<WebSocketResponse, JsonVal>)
    ensures
        r matches Ok(res) ==> spec_decode_envelope(v) == Ok::<WebSocketResponse, Error>(res),
        r matches Err(orig) ==> orig == v && spec_decode_envelope(v) is Err,
{
    let topic = match jget(&v, "topic") {
        Some(f) => match f {
            JsonVal::Text(s) => s.clone(),
            _ => {
                return Err(v);
            },
        },
        None => {
            return Err(v);
        },
    };
    let msg_type = match jget(&v, "type") {
        Some(f) => match f {
            JsonVal::Null => None,
            JsonVal::Text(s) => Some(s.clone()),
            _ => {
                return Err(v);
            },
        },
        None => None,
    };
    let timestamp = match jget(&v, "timestamp_e6") {
        Some(f) => match f {
            JsonVal::Null => None,
            JsonVal::Num(s) => match parse_i64_str(s.as_str()) {
                Some(t) => Some(t),
                None => {
                    return Err(v);
                },
            },
            _ => {
                return Err(v);
            },
        },
        None => None,
    };
    if jget(&v, "data").is_none() {
        return Err(v);
    }
    let data = match jtake(v, "data") {
        Some(d) => d,
        None => {
            // The field was just seen; this arm cannot be reached.
            proof {
                assert(false);
            }
            return Err(JsonVal::Null);
        },
    };
    Ok(WebSocketResponse { topic, msg_type, timestamp, data })
}

/// Decodes one frame text into an envelope: exactly the envelope the frame's
/// JSON denotes, a decoding failure otherwise.
pub fn parse_response(text: &str) -> (r: Result<WebSocketResponse, Error>)
    ensures
        json_of(text@) is None ==> r == Err::<WebSocketResponse, Error>(Error::Decoding),
        json_of(text@) matches Some(v) ==> r == spec_decode_envelope(v),
{
    match parse_json(text) {
        Some(v) => match decode_envelope(v) {
            Ok(res) => Ok(res),
            Err(_) => Err(Error::Decoding),
        },
        None => Err(Error::Decoding),
    }
}

/// A frame read as a protocol acknowledgement reports success exactly when
/// its `success` field holds true.
pub open spec fn ack_success(v: JsonVal) -> bool {
    jfield(v, "success"@) == Option::Some(JsonVal::Bool(true))
}

/// Whether a decoded reply, if there is one, is a success acknowledgement.
pub open spec fn ack_ok(o: Option<JsonVal>) -> bool {
    match o {
        Option::Some(v) => ack_success(v),
        Option::None => false,
    }
}

/// Reads a frame's acknowledgement verdict.
pub(crate) fn check_ack(v: &JsonVal) -> (r: bool)
    ensures
        r == ack_success(*v),
{
    match jget(v, "success") {
        Some(f) => match f {
            JsonVal::Bool(b) => *b,
            _ => false,
        },
        None => false,
    }
}

/// One string as a JSON string literal.
pub open spec fn json_quoted(s: Seq<char>) -> Seq<char> {
    "\""@ + json_escaped(s) + "\""@
}

/// The elements of a JSON array of strings, comma-separated.
pub open spec fn args_items(xs: Seq<Seq<char>>) -> Seq<char>
    decreases xs.len(),
{
    if xs.len() == 0 {
        Seq::empty()
    } else if xs.len() == 1 {
        json_quoted(xs[0])
    } else {
        args_items(xs.drop_last()) + ","@ + json_quoted(xs.last())
    }
}

/// The args field of a control frame: a string array, or null.
pub open spec fn args_json(args: Option<Seq<Seq<char>>>) -> Seq<char> {
    match args {
        Option::None => "null"@,
        Option::Some(xs) => "["@ + args_items(xs) + "]"@,
    }
}

/// The JSON text of an outbound control frame.
pub open spec fn ws_frame_of(op: Seq<char>, args: Option<Seq<Seq<char>>>) -> Seq<char> {
    "{\"op\":\""@ + json_escaped(op) + "\",\"args\":"@ + args_json(args) + "}"@
}

/// An outbound control frame before serialization: an operation name and its
/// optional string arguments.
pub struct WsArgs {
    pub op: String,
    pub args: Option<Vec<String>>,
}

impl WsArgs {
    /// Serializes the control frame to its wire text.
    pub fn into_frame(self) -> (r: String)
        ensures
            r@ == ws_frame_of(self.op@, self.args.deep_view()),
    {
        let mut out = String::from_str("{\"op\":\"");
        append_json_escaped(&mut out, self.op.as_str());
        out.append("\",\"args\":");
        match &self.args {
            Some(items) => {
                out.append("[");
                let ghost xs = self.args.deep_view()->0;
                proof {
                    assert(xs =~= items.deep_view());
                    assert(xs.take(0) =~= Seq::<Seq<char>>::empty());
                }
                let n = items.len();
                let mut i: usize = 0;
                let ghost head = out@;
                while i < n
                    invariant
                        i <= n,
                        n == items@.len(),
                        xs == items.deep_view(),
                        out@ == head + args_items(xs.take(i as int)),
                    decreases n - i,
                {
                    if i > 0 {
                        out.append(",");
                    }
                    out.append("\"");
                    append_json_escaped(&mut out, items[i].as_str());
                    out.append("\"");
                    proof {
                        assert(items@[i as int]@ == xs[i as int]);
                        assert(xs.take(i + 1).drop_last() =~= xs.take(i as int));
                        assert(xs.take(i + 1).last() == xs[i as int]);
                        if i == 0 {
                            assert(out@ =~= head + args_items(xs.take(1)));
                        } else {
                            assert(out@ =~= head + args_items(xs.take(i + 1)));
                        }
                    }
                    i = i + 1;
                }
                proof {
                    assert(xs.take(n as int) =~= xs);
                }
                out.append("]");
            },
            None => {
                out.append("null");
            },
        }
        out.append("}");
        proof {
            assert(out@ =~= ws_frame_of(self.op@, self.args.deep_view()));
        }
        out
    }
}

/// The keepalive control frame.
pub fn ping_frame() -> (r: String)
    ensures
        r@ == ws_frame_of("ping"@, Option::<Seq<Seq<char>>>::None),
{
    let args = WsArgs { op: String::from_str("ping"), args: None };
    args.into_frame()
}

/// A channel's full wire topic: per-symbol channels get the symbol appended,
/// account-global channels are used as-is.
pub open spec fn topic_wire_full(t: Topic, sym: Symbol) -> Seq<char> {
    if t.per_symbol() {
        t.wire_spec() + "."@ + sym.wire_spec()
    } else {
        t.wire_spec()
    }
}

/// Renders a channel's full wire topic for one symbol.
pub fn topic_with_symbol(t: Topic, symbol: Symbol) -> (r: String)
    ensures
        r@ == topic_wire_full(t, symbol),
{
    let per_symbol = t.is_per_symbol();
    let mut s = t.into_string();
    if per_symbol {
        s.append(".");
        let sym = symbol.to_string();
        s.append(sym.as_str());
    }
    s
}

/// Lifecycle of one streaming session. It never moves backwards: a failure
/// is fatal to the session, and reconnection is the caller's policy.
#[derive(Clone, Copy, Debug, PartialEq, Eq, Structural)]
pub enum SessionState {
    Disconnected,
    Connected,
    Authenticated,
    Subscribed,
    Running,
    Failed,
}

/// What the run loop does on one wake: send a keepalive, or read one frame.
#[derive(Clone, Copy, Debug, PartialEq, Eq, Structural)]
pub enum RunAction {
    SendPing,
    ReadFrame,
}

/// The streaming session: credentials and endpoint, and the protocol state.
/// The socket lives with the runner, which feeds received frame texts in and
/// sends the frame texts built here; the market store the data frames land
/// in is handed to `handle_frame`, so the runner can share it with any
/// number of readers behind a lock of its own.
pub struct WebSocket {
    pub endpoint: Endpoint,
    pub api: API,
    pub state: SessionState,
}

/// Staged builder for a session: endpoint and credentials are each supplied
/// once, and `build` is only offered when both are present.
pub struct WebSocketBuilder<EndpointType, ApiType> {
    pub endpoint: EndpointType,
    pub api: ApiType,
}

impl WebSocketBuilder<(), ()> {
    pub fn new() -> (r: WebSocketBuilder<(), ()>) {
        WebSocketBuilder { endpoint: (), api: () }
    }
}

impl<EndpointType, ApiType> WebSocketBuilder<EndpointType, ApiType> {
    pub fn endpoint(self, endpoint: Endpoint) -> (r: WebSocketBuilder<Endpoint, ApiType>)
        ensures
            r.endpoint == endpoint,
            r.api == self.api,
    {
        WebSocketBuilder { endpoint, api: self.api }
    }

    pub fn api(self, api: API) -> (r: WebSocketBuilder<EndpointType, API>)
        ensures
            r.api == api,
            r.endpoint == self.endpoint,
    {
        WebSocketBuilder { endpoint: self.endpoint, api }
    }
}

impl WebSocketBuilder<Endpoint, API> {
    /// Finishes the builder: a session in the disconnected state.
    pub fn build(self) -> (r: WebSocket)
        ensures
            r.endpoint == self.endpoint,
            r.api == self.api,
            r.state == SessionState::Disconnected,
    {
        WebSocket { endpoint: self.endpoint, api: self.api, state: SessionState::Disconnected }
    }
}

impl WebSocket {
    /// The streaming URL the runner must open for this session's endpoint.
    pub fn connect_url(&self) -> (r: &'static str)
        ensures
            r@ == self.endpoint.stream_url_spec(),
    {
        self.endpoint.stream_url()
    }

    /// Records that the runner opened the socket.
    pub fn on_connected(&mut self)
        requires
            old(self).state == SessionState::Disconnected || old(self).state
                == SessionState::Failed,
        ensures
            final(self).state == SessionState::Connected,
            final(self).endpoint == old(self).endpoint,
            final(self).api == old(self).api,
    {
        self.state = SessionState::Connected;
    }

    /// The handshake frame to send, and its expiry: ten seconds of grace
    /// beyond the given instant (milliseconds since the epoch), signed over
    /// the canonical handshake message.
    pub fn auth_frame(&self, now_ms: u64) -> (r: (String, u64))
        requires
            now_ms + 10000 <= u64::MAX,
        ensures
            r.1 == now_ms + 10000,
            r.0@ == ws_frame_of(
                "auth"@,
                Some(
                    seq![
                        self.api.key@,
                        dec_digits(r.1 as nat),
                        signature_of(self.api.secret@, auth_message_of(r.1 as nat)),
                    ],
                ),
            ),
    {
        let expires: u64 = now_ms + 10000;
        let signature = auth_signature(self.api.secret.as_str(), expires);
        let mut args: Vec<String> = Vec::new();
        args.push(self.api.key.clone());
        args.push(u64_to_string(expires));
        args.push(signature);
        let frame = WsArgs { op: String::from_str("auth"), args: Some(args) };
        proof {
            assert(frame.args.deep_view()->0 =~= seq![
                self.api.key@,
                dec_digits(expires as nat),
                signature_of(self.api.secret@, auth_message_of(expires as nat)),
            ]);
        }
        (frame.into_frame(), expires)
    }

    /// Interprets the single reply to the handshake. Exactly a reply whose
    /// decode carries a true `success` field authenticates the session; any
    /// other reply, an unreadable one, or a socket closed before a reply
    /// fails it, fatally: the failure is never retried here.
    pub fn handle_auth_reply(&mut self, reply: Option<&str>) -> (r: Result<(), Error>)
        requires
            old(self).state == SessionState::Connected,
        ensures
            reply is None ==> r == Err::<(), Error>(Error::Authentication),
            reply matches Some(t) ==> (r is Ok <==> ack_ok(json_of(t@))),
            r is Ok <==> final(self).state == SessionState::Authenticated,
            r matches Err(e) ==> e == Error::Authentication && final(self).state
                == SessionState::Failed,
            final(self).endpoint == old(self).endpoint,
            final(self).api == old(self).api,
    {
        let text = match reply {
            Some(t) => t,
            None => {
                self.state = SessionState::Failed;
                return Err(Error::Authentication);
            },
        };
        let parsed = match parse_json(text) {
            Some(v) => v,
            None => {
                self.state = SessionState::Failed;
                return Err(Error::Authentication);
            },
        };
        if check_ack(&parsed) {
            self.state = SessionState::Authenticated;
            Ok(())
        } else {
            self.state = SessionState::Failed;
            Err(Error::Authentication)
        }
    }

    /// The subscription frame for the given channels, each per-symbol
    /// channel carrying the symbol. Subscription is fire-and-forget: the
    /// acknowledgement, if any, is consumed by the dispatch loop.
    pub fn subscribe_frame(&self, topics: &Vec<Topic>, symbol: Symbol) -> (r: String)
        ensures
            r@ == ws_frame_of(
                "subscribe"@,
                Some(topics@.map_values(|t: Topic| topic_wire_full(t, symbol))),
            ),
    {
        let ghost wanted = topics@.map_values(|t: Topic| topic_wire_full(t, symbol));
        let mut args: Vec<String> = Vec::new();
        let n = topics.len();
        let mut i: usize = 0;
        assert(args.deep_view() =~= wanted.take(0));
        while i < n
            invariant
                i <= n,
                n == topics@.len(),
                wanted == topics@.map_values(|t: Topic| topic_wire_full(t, symbol)),
                args@.len() == i,
                args.deep_view() == wanted.take(i as int),
            decreases n - i,
        {
            let t = topics[i];
            let ghost prev = args.deep_view();
            let ghost prev_vec = args@;
            let ws = topic_with_symbol(t, symbol);
            args.push(ws);
            proof {
                assert(args@ == prev_vec.push(ws));
                assert(prev_vec.len() == i as int);
                assert(args@.len() == i + 1);
                assert forall|j: int| 0 <= j < i + 1 implies #[trigger] args.deep_view()[j]
                    == wanted.take(i + 1)[j] by {
                    assert(args.deep_view()[j] == args@[j].deep_view());
                    assert(args@[j].deep_view() == args@[j]@);
                    if j < i {
                        assert(args@[j] == prev_vec[j]);
                        assert(prev[j] == prev_vec[j]@);
                        assert(prev[j] == wanted.take(i as int)[j]);
                    } else {
                        assert(args@[j] == ws);
                        assert(wanted[j] == topic_wire_full(topics@[j], symbol));
                    }
                }
                assert(args.deep_view() =~= wanted.take(i + 1));
            }
            i = i + 1;
        }
        proof {
            assert(wanted.take(n as int) =~= wanted);
        }
        let frame = WsArgs { op: String::from_str("subscribe"), args: Some(args) };
        proof {
            assert(frame.args.deep_view()->0 =~= wanted);
        }
        frame.into_frame()
    }

    /// Records that the subscription frame went out.
    pub fn on_subscribed(&mut self)
        requires
            old(self).state == SessionState::Authenticated,
        ensures
            final(self).state == SessionState::Subscribed,
            final(self).endpoint == old(self).endpoint,
            final(self).api == old(self).api,
    {
        self.state = SessionState::Subscribed;
    }

    /// One wake of the run loop: with a minute or more gone since the last
    /// keepalive, ping; otherwise read and process one frame.
    pub fn next_action(&self, elapsed_secs: u64) -> (r: RunAction)
        ensures
            r == (if elapsed_secs >= 60 {
                RunAction::SendPing
            } else {
                RunAction::ReadFrame
            }),
    {
        if elapsed_secs >= 60 {
            RunAction::SendPing
        } else {
            RunAction::ReadFrame
        }
    }

    /// Processes one inbound frame. A frame whose JSON decodes as an
    /// envelope is dispatched to the market store and yields exactly the
    /// dispatch's outcome; one that does not is read as an acknowledgement,
    /// where success is consumed quietly (it covers both the subscribe-ack
    /// and the keepalive's pong) and anything else is a fatal subscription
    /// failure. A frame that is no JSON at all is the same failure, and a
    /// closed socket is a fatal connection failure. Every failure leaves the
    /// session failed and the store untouched.
    pub fn handle_frame(&mut self, store: &mut MarketStore, frame: Option<&str>) -> (r: Result<
        (),
        Error,
    >)
        ensures
            r is Err ==> final(self).state == SessionState::Failed && final(store)@ == old(
                store,
            )@,
            frame is None ==> r == Err::<(), Error>(Error::Connection),
            frame matches Some(t) ==> match json_of(t@) {
                Option::None => r == Err::<(), Error>(Error::Subscription) && final(store)@ == old(
                    store,
                )@,
                Option::Some(v) => match spec_decode_envelope(v) {
                    Ok(res) => r == store_step(old(store)@, res).0 && final(store)@ == store_step(
                        old(store)@,
                        res,
                    ).1 && (r is Ok ==> final(self).state == SessionState::Running),
                    Err(_) => final(store)@ == old(store)@ && (ack_success(v) ==> r == Ok::<
                        (),
                        Error,
                    >(()) && final(self).state == old(self).state) && (!ack_success(v) ==> r
                        == Err::<(), Error>(Error::Subscription)),
                },
            },
            final(self).endpoint == old(self).endpoint,
            final(self).api == old(self).api,
    {
        let text = match frame {
            Some(t) => t,
            None => {
                self.state = SessionState::Failed;
                return Err(Error::Connection);
            },
        };
        let parsed = match parse_json(text) {
            Some(v) => v,
            None => {
                self.state = SessionState::Failed;
                return Err(Error::Subscription);
            },
        };
        match decode_envelope(parsed) {
            Ok(res) => match store.store_message(res) {
                Ok(()) => {
                    self.state = SessionState::Running;
                    Ok(())
                },
                Err(e) => {
                    self.state = SessionState::Failed;
                    Err(e)
                },
            },
            Err(orig) => {
                // Not a data frame: read it as an acknowledgement.
                if check_ack(&orig) {
                    Ok(())
                } else {
                    self.state = SessionState::Failed;
                    Err(Error::Subscription)
                }
            },
        }
    }
}

} // verus!
